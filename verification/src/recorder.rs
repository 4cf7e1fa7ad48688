use vstd::prelude::*;
use crate::error::XCapResult;

verus! {

/// Capability set of a platform capture engine. One implementation exists
/// per target operating system, outside this crate; it owns the producer
/// thread that samples the screen and builds frames. `start` transitions
/// the backend into a producing state, `stop` tears the producer down.
/// Success or failure is the backend's verdict; this crate adds nothing
/// to it.
pub trait CaptureBackend {
    fn start(&self) -> XCapResult<()>;

    fn stop(&self) -> XCapResult<()>;
}

/// The externally visible recording-session handle. It wraps exactly one
/// capture backend instance, owned exclusively, and carries no state of
/// its own beyond what the backend holds. Lifecycle: `start` is the only
/// idle-to-running transition, `stop` the only running-to-idle one;
/// calling either in the wrong state is backend-defined behavior.
#[derive(Debug, Clone)]
pub struct VideoRecorder<B: CaptureBackend> {
    backend: B,
}

/// A backend verdict is handed to the recorder's caller unchanged: no
/// reinterpretation, no suppression, no retry.
pub fn propagate_backend_result(r: XCapResult<()>) -> (out: XCapResult<()>)
    ensures
        out == r,
{
    r
}

impl<B: CaptureBackend> VideoRecorder<B> {
    /// The backend this handle wraps.
    pub closed spec fn spec_backend(self) -> B {
        self.backend
    }

    /// Wraps a pre-initialized backend into a session handle.
    pub fn new(backend: B) -> (r: VideoRecorder<B>)
        ensures
            r.spec_backend() == backend,
    {
        VideoRecorder { backend }
    }

    /// Delegates to the backend's start routine; whatever it returns,
    /// success or error, reaches the caller unchanged. A failed start
    /// leaves the recorder idle.
    pub fn start(&self) -> XCapResult<()> {
        propagate_backend_result(self.backend.start())
    }

    /// Delegates to the backend's stop routine; whatever it returns,
    /// success or error, reaches the caller unchanged. The backend must
    /// release any thread still parked in a waker it owns before
    /// reporting success.
    pub fn stop(&self) -> XCapResult<()> {
        propagate_backend_result(self.backend.stop())
    }
}

} // verus!
