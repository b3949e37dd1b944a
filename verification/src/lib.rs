//! Extraction of mel-frequency cepstral coefficient (MFCC) feature vectors
//! from single-channel integer PCM audio.
//!
//! The pipeline slices a waveform into fixed-length, non-overlapping frames
//! (dropping a final partial frame), has each frame turned into raw cepstral
//! coefficients by a spectral backend, shapes the raw coefficients into
//! fixed-width vectors, and collects the vectors, in frame order, into a
//! batch. Coefficient values are carried as the bit patterns of 64-bit
//! IEEE 754 numbers, so that vectors can be stated about and compared
//! exactly.

pub mod batch;
pub mod config;
pub mod extractor;
pub mod coeffs;
pub mod pipeline;
pub mod segment;

pub use batch::Batch;
pub use coeffs::coefficient_vector;
pub use config::MfccConfig;
pub use config::PipelineError;
pub use extractor::Extractor;
pub use pipeline::build_batch;
pub use segment::segment;
