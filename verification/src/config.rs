//! Pipeline configuration and the errors under which inputs are rejected.

use vstd::prelude::*;

verus! {

/// Why a configuration or an input was rejected. All of these are reported
/// before any frame is processed; degenerate frame contents (silence,
/// clipping) are never an error.
#[derive(Clone, Copy, Debug, PartialEq, Eq, Structural)]
pub enum PipelineError {
    /// The frame length was zero: the waveform cannot be partitioned.
    ZeroFrameLength,
    /// The sample rate was zero: no frequency range can be derived.
    ZeroSampleRate,
    /// The coefficient truncation count was zero: vectors would be empty.
    ZeroNormLength,
    /// The frame length is too large for the spectral backend, which windows
    /// two frames at once, to address.
    FrameLengthTooLarge,
    /// The truncation count is too large for the three-section vector width
    /// to be addressable.
    NormLengthTooLarge,
}

/// Fixed per-run configuration of the feature extraction: the input's sample
/// rate, the frame length the waveform is cut into, and the cepstral
/// truncation count. Each coefficient vector holds three sections of
/// `norm_length` slots (base coefficients and the two delta sections), so its
/// width is `3 * norm_length`.
#[derive(Clone, Copy, Debug, PartialEq, Eq, Structural)]
pub struct MfccConfig {
    pub sample_rate: u32,
    pub frame_length: usize,
    pub norm_length: usize,
}

impl MfccConfig {
    /// A well-formed configuration: every part positive, and the derived
    /// sizes representable on this machine.
    pub open spec fn wf(self) -> bool {
        &&& self.sample_rate >= 1
        &&& self.frame_length >= 1
        &&& self.frame_length <= usize::MAX / 2
        &&& self.norm_length >= 1
        &&& self.norm_length <= usize::MAX / 3
    }

    /// The width of every coefficient vector produced under this
    /// configuration.
    pub open spec fn spec_vector_width(self) -> nat {
        3 * self.norm_length as nat
    }

    /// Validates a configuration, rejecting each malformed part with its own
    /// error. Succeeds exactly on well-formed values.
    pub fn new(sample_rate: u32, frame_length: usize, norm_length: usize) -> (r: Result<
        MfccConfig,
        PipelineError,
    >)
        ensures
            r is Ok <==> (MfccConfig { sample_rate, frame_length, norm_length }).wf(),
            r is Ok ==> r->Ok_0 == (MfccConfig { sample_rate, frame_length, norm_length }),
            frame_length == 0 ==> r == Err::<MfccConfig, PipelineError>(
                PipelineError::ZeroFrameLength,
            ),
            frame_length >= 1 && frame_length > usize::MAX / 2 ==> r == Err::<
                MfccConfig,
                PipelineError,
            >(PipelineError::FrameLengthTooLarge),
            1 <= frame_length <= usize::MAX / 2 && sample_rate == 0 ==> r == Err::<
                MfccConfig,
                PipelineError,
            >(PipelineError::ZeroSampleRate),
            1 <= frame_length <= usize::MAX / 2 && sample_rate >= 1 && norm_length == 0 ==> r
                == Err::<MfccConfig, PipelineError>(PipelineError::ZeroNormLength),
            1 <= frame_length <= usize::MAX / 2 && sample_rate >= 1 && norm_length > usize::MAX / 3
                ==> r == Err::<MfccConfig, PipelineError>(PipelineError::NormLengthTooLarge),
    {
        if frame_length == 0 {
            Err(PipelineError::ZeroFrameLength)
        } else if frame_length > usize::MAX / 2 {
            Err(PipelineError::FrameLengthTooLarge)
        } else if sample_rate == 0 {
            Err(PipelineError::ZeroSampleRate)
        } else if norm_length == 0 {
            Err(PipelineError::ZeroNormLength)
        } else if norm_length > usize::MAX / 3 {
            Err(PipelineError::NormLengthTooLarge)
        } else {
            Ok(MfccConfig { sample_rate, frame_length, norm_length })
        }
    }

    /// The width of every coefficient vector produced under this
    /// configuration: three sections of `norm_length` slots.
    pub fn vector_width(&self) -> (w: usize)
        requires
            self.wf(),
        ensures
            w == self.spec_vector_width(),
    {
        3 * self.norm_length
    }
}

} // verus!
