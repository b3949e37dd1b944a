//! Assembling per-frame raw coefficients into the final batch, and the laws
//! that the assembly obeys.

use vstd::prelude::*;

use crate::batch::Batch;
use crate::coeffs::coefficient_vector;
use crate::coeffs::shaped;
use crate::config::MfccConfig;
use crate::segment::segmented;

verus! {

/// The contents of a sequence of owned coefficient rows.
pub open spec fn rows_view(rows: Seq<Vec<u64>>) -> Seq<Seq<u64>> {
    Seq::new(rows.len(), |i: int| rows[i]@)
}

/// The batch that a sequence of raw backend results determines: one vector
/// per raw result, in order, each shaped to the configured width.
pub open spec fn batch_spec(raws: Seq<Seq<u64>>, width: nat) -> Seq<Seq<u64>> {
    Seq::new(raws.len(), |i: int| shaped(raws[i], width))
}

/// Collects the raw backend coefficients of every frame, in frame order,
/// into a batch of vectors of the configured width. Nothing is reordered,
/// dropped or altered beyond the cut-or-pad shaping of each row.
pub fn build_batch(raws: &Vec<Vec<u64>>, cfg: &MfccConfig) -> (b: Batch)
    requires
        cfg.wf(),
    ensures
        b.wf(),
        b.spec_width() == cfg.spec_vector_width(),
        b@ == batch_spec(rows_view(raws@), cfg.spec_vector_width()),
{
    let width = cfg.vector_width();
    let mut b = Batch::new(width);
    let mut i: usize = 0;
    while i < raws.len()
        invariant
            width == cfg.spec_vector_width(),
            b.wf(),
            b.spec_width() == width,
            i <= raws@.len(),
            b@.len() == i,
            forall|k: int|
                0 <= k < i ==> #[trigger] b@[k] == shaped(raws@[k]@, width as nat),
        decreases raws@.len() - i,
    {
        let v = coefficient_vector(&raws[i], width);
        b.push(v);
        i += 1;
    }
    proof {
        assert(b@ =~= batch_spec(rows_view(raws@), cfg.spec_vector_width()));
    }
    b
}

/// Law: every vector of a batch has the same fixed width, whatever the
/// backend returned for any frame.
pub proof fn lemma_batch_uniform_width(raws: Seq<Seq<u64>>, width: nat)
    ensures
        forall|i: int|
            0 <= i < batch_spec(raws, width).len() ==> (#[trigger] batch_spec(raws, width)[i]).len()
                == width,
{
}

/// Law: the batch is determined slot by slot. Any assembly whose slot `i`
/// holds the shaped coefficients of raw result `i` equals the sequential
/// assembly — so filling the slots in parallel, in whatever completion
/// order, gives the identical ordered batch.
pub proof fn lemma_batch_schedule_independent(
    assembled: Seq<Seq<u64>>,
    raws: Seq<Seq<u64>>,
    width: nat,
)
    requires
        assembled.len() == raws.len(),
        forall|i: int| 0 <= i < raws.len() ==> #[trigger] assembled[i] == shaped(raws[i], width),
    ensures
        assembled == batch_spec(raws, width),
{
    assert(assembled =~= batch_spec(raws, width));
}

/// Law: one vector per complete frame — a batch built from the raw results
/// of every segmented frame holds exactly `floor(samples / frame_length)`
/// vectors.
pub proof fn lemma_one_vector_per_frame(
    samples: Seq<i16>,
    frame_length: nat,
    raws: Seq<Seq<u64>>,
    width: nat,
)
    requires
        frame_length >= 1,
        raws.len() == segmented(samples, frame_length).len(),
    ensures
        batch_spec(raws, width).len() == samples.len() / frame_length,
{
}

/// Law: a waveform shorter than one frame segments into no frames at all,
/// and the batch over no frames is empty — an empty document, not an error.
pub proof fn lemma_short_waveform_empty(samples: Seq<i16>, frame_length: nat, width: nat)
    requires
        frame_length >= 1,
        samples.len() < frame_length,
    ensures
        segmented(samples, frame_length) == Seq::<Seq<i16>>::empty(),
        batch_spec(Seq::<Seq<u64>>::empty(), width) == Seq::<Seq<u64>>::empty(),
{
    vstd::arithmetic::div_mod::lemma_basic_div(samples.len() as int, frame_length as int);
    assert(segmented(samples, frame_length) =~= Seq::<Seq<i16>>::empty());
    assert(batch_spec(Seq::<Seq<u64>>::empty(), width) =~= Seq::<Seq<u64>>::empty());
}

} // verus!
