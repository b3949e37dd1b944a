//! Partitioning a waveform into fixed-length, non-overlapping frames.

use vstd::prelude::*;

use crate::config::PipelineError;

verus! {

/// Frame `i` of `samples` under frame length `l`: the `l` samples starting
/// at offset `i * l`, in their original order.
pub open spec fn frame_at(samples: Seq<i16>, l: nat, i: nat) -> Seq<i16> {
    samples.subrange((i * l) as int, (i * l + l) as int)
}

/// The full segmentation of `samples` under frame length `l`: the first
/// `floor(len / l)` complete frames; the trailing `len % l` samples are
/// dropped.
pub open spec fn segmented(samples: Seq<i16>, l: nat) -> Seq<Seq<i16>>
    recommends
        l >= 1,
{
    Seq::new(samples.len() / l, |i: int| frame_at(samples, l, i as nat))
}

/// The contents of a sequence of owned frames.
pub open spec fn frames_view(frames: Seq<Vec<i16>>) -> Seq<Seq<i16>> {
    Seq::new(frames.len(), |i: int| frames[i]@)
}

/// Law: the segmenter is exact — a waveform of `n` samples under frame
/// length `l` yields `floor(n / l)` frames; frame `i` holds exactly the `l`
/// samples starting at offset `i * l`, in their original order; only the
/// trailing `n % l` samples are dropped.
pub proof fn lemma_segmentation_exact(samples: Seq<i16>, l: nat)
    requires
        l >= 1,
    ensures
        segmented(samples, l).len() == samples.len() / l,
        forall|i: int|
            0 <= i < segmented(samples, l).len() ==> (#[trigger] segmented(samples, l)[i]).len()
                == l,
        forall|i: int, j: int|
            0 <= i < segmented(samples, l).len() && 0 <= j < l
                ==> #[trigger] segmented(samples, l)[i][j] == samples[i * l + j],
{
    assert forall|i: int|
        0 <= i < segmented(samples, l).len() implies (#[trigger] segmented(samples, l)[i]).len()
        == l by {
        lemma_frame_within(samples, l, i as nat);
    };
    assert forall|i: int, j: int|
        0 <= i < segmented(samples, l).len() && 0 <= j < l implies #[trigger] segmented(
        samples,
        l,
    )[i][j] == samples[i * l + j] by {
        lemma_frame_within(samples, l, i as nat);
    };
}

/// Frame `i` lies entirely inside the waveform whenever `i` is below the
/// frame count.
proof fn lemma_frame_within(samples: Seq<i16>, l: nat, i: nat)
    requires
        l >= 1,
        (i as int) < samples.len() as int / l as int,
    ensures
        i * l + l <= samples.len(),
{
    vstd::arithmetic::div_mod::lemma_fundamental_div_mod(samples.len() as int, l as int);
    vstd::arithmetic::mul::lemma_mul_inequality(
        i as int + 1,
        samples.len() as int / l as int,
        l as int,
    );
    vstd::arithmetic::mul::lemma_mul_is_distributive_add_other_way(l as int, i as int, 1);
    assert((samples.len() as int / l as int) * (l as int) == (l as int) * (samples.len() as int
        / l as int)) by (nonlinear_arith);
}

/// Partitions `samples` into consecutive, non-overlapping frames of exactly
/// `frame_length` samples, in their original order; a final chunk shorter
/// than `frame_length` is dropped, not padded. Fails exactly when
/// `frame_length` is zero.
pub fn segment(samples: &Vec<i16>, frame_length: usize) -> (r: Result<
    Vec<Vec<i16>>,
    PipelineError,
>)
    ensures
        frame_length == 0 ==> r == Err::<Vec<Vec<i16>>, PipelineError>(
            PipelineError::ZeroFrameLength,
        ),
        frame_length >= 1 ==> r is Ok,
        frame_length >= 1 ==> (r->Ok_0)@.len() == samples@.len() as int / frame_length as int,
        frame_length >= 1 ==> forall|i: int|
            0 <= i < (r->Ok_0)@.len() ==> #[trigger] (r->Ok_0)@[i]@ == frame_at(
                samples@,
                frame_length as nat,
                i as nat,
            ),
        frame_length >= 1 ==> frames_view((r->Ok_0)@) == segmented(samples@, frame_length as nat),
{
    if frame_length == 0 {
        return Err(PipelineError::ZeroFrameLength);
    }
    let count = samples.len() / frame_length;
    proof {
        vstd::arithmetic::div_mod::lemma_fundamental_div_mod(
            samples@.len() as int,
            frame_length as int,
        );
    }
    let mut frames: Vec<Vec<i16>> = Vec::new();
    let mut i: usize = 0;
    while i < count
        invariant
            frame_length >= 1,
            samples@.len() <= usize::MAX,
            count == samples@.len() as int / frame_length as int,
            frame_length as int * count as int <= samples@.len(),
            i <= count,
            frames@.len() == i,
            forall|k: int|
                0 <= k < i ==> #[trigger] frames@[k]@ == frame_at(
                    samples@,
                    frame_length as nat,
                    k as nat,
                ),
        decreases count - i,
    {
        proof {
            assert(i as int * frame_length as int + frame_length as int <= samples@.len() as int)
                by (nonlinear_arith)
                requires
                    (i as int) < (count as int),
                    frame_length as int >= 1,
                    frame_length as int * count as int <= samples@.len() as int,
            ;
        }
        let base = i * frame_length;
        let mut frame: Vec<i16> = Vec::new();
        let mut j: usize = 0;
        while j < frame_length
            invariant
                frame_length >= 1,
                samples@.len() <= usize::MAX,
                i < count,
                base == i * frame_length,
                base + frame_length <= samples@.len(),
                j <= frame_length,
                frame@.len() == j,
                forall|t: int| 0 <= t < j ==> #[trigger] frame@[t] == samples@[base + t],
            decreases frame_length - j,
        {
            frame.push(samples[base + j]);
            j += 1;
        }
        proof {
            assert(frame@ =~= frame_at(samples@, frame_length as nat, i as nat));
        }
        frames.push(frame);
        i += 1;
    }
    proof {
        assert(frames_view(frames@) =~= segmented(samples@, frame_length as nat));
    }
    Ok(frames)
}

} // verus!
