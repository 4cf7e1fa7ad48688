use vstd::prelude::*;

verus! {

/// Pixel layout of a captured frame: channel order and byte stride per
/// pixel. The three-channel layouts take 3 bytes per pixel, the others 4;
/// the trailing/leading "x" variants carry one ignored padding channel.
/// The tag must match exactly how `Frame::raw` is packed; no runtime
/// conversion is performed by these types.
#[derive(Debug, Clone, Copy, PartialEq, Eq, Structural)]
pub enum FrameFormat {
    RGB,
    BGR,
    ARGB,
    BGRA,
    RGBx,
    BGRx,
    RGBA,
}

impl FrameFormat {
    /// Byte stride of one pixel in this layout.
    pub open spec fn spec_bytes_per_pixel(self) -> nat {
        match self {
            FrameFormat::RGB => 3,
            FrameFormat::BGR => 3,
            _ => 4,
        }
    }

    pub fn bytes_per_pixel(self) -> (n: u32)
        ensures
            n == self.spec_bytes_per_pixel(),
    {
        match self {
            FrameFormat::RGB => 3,
            FrameFormat::BGR => 3,
            _ => 4,
        }
    }
}

/// Whether the mouse cursor is composited into captured frames; a
/// capture-time configuration flag consumed by the capture backend.
#[derive(Debug, Clone, Copy, PartialEq, Eq, Structural)]
pub enum CursorMode {
    Hidden,
    Show,
}

/// One captured image: dimensions in pixels, the raw pixel bytes with rows
/// stored top to bottom and no padding between rows, and the layout tag.
/// A frame is an immutable snapshot: once constructed it is never mutated.
#[derive(Debug, Clone)]
pub struct Frame {
    pub width: u32,
    pub height: u32,
    pub raw: Vec<u8>,
    pub format: FrameFormat,
}

impl Frame {
    /// A well-formed frame has positive dimensions and exactly one pixel's
    /// worth of bytes per pixel of the image.
    pub open spec fn wf(self) -> bool {
        &&& self.width > 0
        &&& self.height > 0
        &&& self.raw@.len() == self.width * self.height * self.format.spec_bytes_per_pixel()
    }

    /// Packs the caller's values unchanged. No validation is performed
    /// here: the producing backend is the only party that knows the true
    /// capture geometry, so guaranteeing `raw.len()` matches the dimensions
    /// and format is its responsibility, as the contract's last line states.
    pub fn new(width: u32, height: u32, raw: Vec<u8>, format: FrameFormat) -> (f: Frame)
        ensures
            f.width == width,
            f.height == height,
            f.raw@ == raw@,
            f.format == format,
            f.wf() <==> (width > 0 && height > 0
                && raw@.len() == width * height * format.spec_bytes_per_pixel()),
    {
        Frame { width, height, raw, format }
    }
}

} // verus!
