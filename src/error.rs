use vstd::prelude::*;

verus! {

/// What went wrong during a capture.
#[derive(Debug, Clone, Copy, PartialEq, Eq, Structural)]
pub enum CaptureErrorKind {
    /// An OS handle (device context, compatible bitmap) could not be created.
    ResourceAcquisitionFailed,
    /// Every capture technique failed, or the screen copy failed.
    CaptureMethodFailed,
    /// Reading the bitmap back into bytes failed or gave the wrong size.
    PixelReadFailed,
    /// A requested or computed width or height is zero, negative or out of range.
    InvalidDimensions,
    /// A pixel buffer does not hold `width * height * 4` bytes.
    InvalidBufferSize,
}

/// A capture failure: its kind and, where the OS reported one, its error code
/// (zero when there is none), kept for diagnostics.
#[derive(Debug, Clone, Copy, PartialEq, Eq, Structural)]
pub struct CaptureError {
    pub kind: CaptureErrorKind,
    pub os_code: u32,
}

impl CaptureError {
    /// An error of the given kind with no OS code.
    pub fn new(kind: CaptureErrorKind) -> (r: CaptureError)
        ensures
            r.kind == kind,
            r.os_code == 0,
    {
        CaptureError { kind, os_code: 0 }
    }

    /// An error of the given kind that carries the OS error code `os_code`.
    pub fn with_os_code(kind: CaptureErrorKind, os_code: u32) -> (r: CaptureError)
        ensures
            r.kind == kind,
            r.os_code == os_code,
    {
        CaptureError { kind, os_code }
    }
}

/// `r` is an error of kind `k`.
pub open spec fn fails_with<T>(r: Result<T, CaptureError>, k: CaptureErrorKind) -> bool {
    r is Err && r->Err_0.kind == k
}

} // verus!
