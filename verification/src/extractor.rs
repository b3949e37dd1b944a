//! A sequential driver for one pipeline run.
//!
//! The extractor owns the segmented frames and the growing batch. It hands
//! out the next frame to transform, accepts the raw coefficients the
//! spectral backend computed for it, and shapes and collects them — so the
//! order of the batch, one vector per frame, is decided and checked here,
//! and the caller only performs the per-frame transform.

use vstd::prelude::*;

use crate::batch::Batch;
use crate::coeffs::coefficient_vector;
use crate::coeffs::shaped;
use crate::config::MfccConfig;
use crate::pipeline::batch_spec;
use crate::segment::frames_view;
use crate::segment::segment;
use crate::segment::segmented;

verus! {

/// One pipeline run over a segmented waveform: frames still to process and
/// the batch of the vectors already collected, in frame order.
pub struct Extractor {
    cfg: MfccConfig,
    frames: Vec<Vec<i16>>,
    next: usize,
    batch: Batch,
    supplied: Ghost<Seq<Seq<u64>>>,
}

impl Extractor {
    /// The configuration the run was started with.
    pub closed spec fn spec_cfg(self) -> MfccConfig {
        self.cfg
    }

    /// The frames the waveform was segmented into.
    pub closed spec fn spec_frames(self) -> Seq<Seq<i16>> {
        frames_view(self.frames@)
    }

    /// The raw backend results accepted so far, in frame order.
    pub closed spec fn spec_supplied(self) -> Seq<Seq<u64>> {
        self.supplied@
    }

    /// How many frames have been processed so far.
    pub closed spec fn processed(self) -> nat {
        self.next as nat
    }

    /// The run's invariant: the batch holds exactly one vector per processed
    /// frame, each the shaped form of the raw result accepted for it.
    pub closed spec fn wf(self) -> bool {
        &&& self.cfg.wf()
        &&& self.next <= self.frames@.len()
        &&& self.supplied@.len() == self.next
        &&& self.batch.wf()
        &&& self.batch.spec_width() == self.cfg.spec_vector_width()
        &&& self.batch@ == batch_spec(self.supplied@, self.cfg.spec_vector_width())
    }

    /// Starts a run: segments the waveform under the configured frame length
    /// and prepares an empty batch.
    pub fn new(samples: &Vec<i16>, cfg: &MfccConfig) -> (e: Extractor)
        requires
            cfg.wf(),
        ensures
            e.wf(),
            e.spec_cfg() == *cfg,
            e.processed() == 0,
            e.spec_supplied() == Seq::<Seq<u64>>::empty(),
            e.spec_frames() == segmented(samples@, cfg.frame_length as nat),
    {
        let frames = segment(samples, cfg.frame_length).unwrap();
        let width = cfg.vector_width();
        let e = Extractor {
            cfg: *cfg,
            frames,
            next: 0,
            batch: Batch::new(width),
            supplied: Ghost(Seq::empty()),
        };
        proof {
            assert(e.batch@ =~= batch_spec(e.supplied@, e.cfg.spec_vector_width()));
        }
        e
    }

    /// The next frame awaiting its transform, or nothing once every frame
    /// has been processed.
    pub fn pending(&self) -> (f: Option<&Vec<i16>>)
        requires
            self.wf(),
        ensures
            f is Some <==> self.processed() < self.spec_frames().len(),
            f is Some ==> (f->Some_0)@ == self.spec_frames()[self.processed() as int],
    {
        if self.next < self.frames.len() {
            Some(&self.frames[self.next])
        } else {
            None
        }
    }

    /// Accepts the raw backend result for the pending frame: its shaped
    /// vector is appended to the batch, and the run advances one frame.
    pub fn supply(&mut self, raw: &Vec<u64>)
        requires
            old(self).wf(),
            old(self).processed() < old(self).spec_frames().len(),
        ensures
            final(self).wf(),
            final(self).spec_cfg() == old(self).spec_cfg(),
            final(self).spec_frames() == old(self).spec_frames(),
            final(self).spec_supplied() == old(self).spec_supplied().push(raw@),
            final(self).processed() == old(self).processed() + 1,
    {
        let total = self.frames.len();
        let width = self.cfg.vector_width();
        let v = coefficient_vector(raw, width);
        self.batch.push(v);
        assert(self.next < total);
        self.next = self.next + 1;
        proof {
            self.supplied@ = self.supplied@.push(raw@);
            assert(self.batch@ =~= batch_spec(self.supplied@, self.cfg.spec_vector_width()));
        }
    }

    /// Ends the run once every frame has been processed, yielding the batch:
    /// one vector per segmented frame, in frame order, each of the
    /// configured width.
    pub fn into_batch(self) -> (b: Batch)
        requires
            self.wf(),
            self.processed() == self.spec_frames().len(),
        ensures
            b.wf(),
            b.spec_width() == self.spec_cfg().spec_vector_width(),
            b@ == batch_spec(self.spec_supplied(), self.spec_cfg().spec_vector_width()),
            b@.len() == self.spec_frames().len(),
    {
        self.batch
    }
}

} // verus!
