//! Concurrency and data-model core of a screen/video capture facility.
//!
//! The crate provides three pieces: the `Frame` / `FrameFormat` value types
//! describing one captured image, the `RecorderWaker` park/wake primitive
//! that lets a consumer thread block until a producer signals readiness,
//! and the `VideoRecorder` session handle that drives a platform capture
//! backend through its start/stop lifecycle.

pub mod error;
pub mod frame;
pub mod recorder;
pub mod waker;
