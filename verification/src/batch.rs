//! The batch aggregator: an ordered collection of coefficient vectors.
//!
//! The aggregator accepts one coefficient vector per frame, in frame order,
//! and only collects: it never reorders or alters a vector, and every vector
//! it accepts has the batch's single fixed width.

use vstd::prelude::*;

verus! {

/// An ordered batch of coefficient vectors, one per processed frame, all of
/// the same fixed width. Viewed as the sequence of its vectors' contents.
pub struct Batch {
    width: usize,
    vectors: Vec<Vec<u64>>,
}

impl View for Batch {
    type V = Seq<Seq<u64>>;

    closed spec fn view(&self) -> Seq<Seq<u64>> {
        Seq::new(self.vectors@.len(), |i: int| self.vectors@[i]@)
    }
}

impl Batch {
    /// Every vector of the batch has exactly the batch's width.
    pub open spec fn wf(self) -> bool {
        forall|i: int| 0 <= i < self@.len() ==> (#[trigger] self@[i]).len() == self.spec_width()
    }

    /// The single width shared by all vectors of the batch.
    pub closed spec fn spec_width(self) -> nat {
        self.width as nat
    }

    /// An empty batch that will accept vectors of width `width`.
    pub fn new(width: usize) -> (b: Batch)
        ensures
            b.wf(),
            b@ == Seq::<Seq<u64>>::empty(),
            b.spec_width() == width,
    {
        let b = Batch { width, vectors: Vec::new() };
        proof {
            assert(b@ =~= Seq::<Seq<u64>>::empty());
        }
        b
    }

    /// Appends one coefficient vector at the end of the batch. The batch
    /// after the call is the batch before it with `v` at the back: order is
    /// preserved and nothing already collected changes.
    pub fn push(&mut self, v: Vec<u64>)
        requires
            old(self).wf(),
            v@.len() == old(self).spec_width(),
        ensures
            final(self).wf(),
            final(self)@ == old(self)@.push(v@),
            final(self).spec_width() == old(self).spec_width(),
    {
        self.vectors.push(v);
        proof {
            assert(self@ =~= old(self)@.push(v@));
        }
    }

    /// How many vectors the batch holds.
    pub fn len(&self) -> (n: usize)
        ensures
            n == self@.len(),
    {
        self.vectors.len()
    }

    /// The batch's fixed vector width.
    pub fn width(&self) -> (w: usize)
        ensures
            w == self.spec_width(),
    {
        self.width
    }

    /// The vector collected for frame `i`.
    pub fn get(&self, i: usize) -> (v: &Vec<u64>)
        requires
            i < self@.len(),
        ensures
            v@ == self@[i as int],
    {
        &self.vectors[i]
    }
}

} // verus!
