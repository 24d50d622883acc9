//! Decoded video frames and the decode step that turns a raw captured buffer
//! into one.

use vstd::prelude::*;

verus! {

/// Pixel layout of a raw captured buffer, as reported by the transport.
/// Only the two RGBA-compatible four-byte layouts can be decoded; every other
/// layout the transport may report is summarised as `Unsupported`.
#[derive(Clone, Copy, Debug, PartialEq, Eq, Structural)]
pub enum PixelFormat {
    Rgba,
    Rgbx,
    Unsupported,
}

/// Pixel layout of a decoded frame.  Decoding produces exactly one layout:
/// tightly packed 8-bit RGBA.
#[derive(Clone, Copy, Debug, PartialEq, Eq, Structural)]
pub enum PixelLayout {
    Rgba8,
}

/// One decoded video frame: a tightly packed pixel buffer plus its
/// dimensions.  Never mutated after creation; stored into a display's
/// `FrameSlot` by the receiver and consumed by the renderer.
#[derive(Debug)]
pub struct Frame {
    pub data: Vec<u8>,
    pub width: u32,
    pub height: u32,
    pub layout: PixelLayout,
}

impl Frame {
    /// A frame is well formed when its buffer holds exactly four bytes per
    /// pixel.
    pub open spec fn wf(self) -> bool {
        self.data@.len() == self.width * self.height * 4
    }
}

/// Why a captured buffer was rejected instead of decoded.  A decode failure
/// is a non-fatal per-frame error: the receiver drops the frame and keeps
/// its connection.
#[derive(Clone, Copy, Debug, PartialEq, Eq, Structural)]
pub enum DecodeError {
    /// The transport reported a pixel layout other than RGBA or RGBX.
    UnsupportedFormat,
    /// The row stride differs from `width * 4`: the buffer is not tightly
    /// packed RGBA, and such layouts are rejected rather than converted.
    NotTightlyPacked,
    /// The buffer does not hold exactly `height * stride` bytes.
    WrongBufferSize,
}

/// A blank frame of the given size, every byte zero: what a display shows
/// before its first video frame arrives.
pub fn blank_frame(width: u32, height: u32) -> (f: Frame)
    requires
        width * height * 4 <= usize::MAX,
    ensures
        f.width == width,
        f.height == height,
        f.layout == PixelLayout::Rgba8,
        f.wf(),
        forall|k: int| 0 <= k < f.data@.len() ==> f.data@[k] == 0,
{
    let total = (width as usize) * (height as usize) * 4;
    let mut data: Vec<u8> = Vec::new();
    for k in 0..total
        invariant
            data@.len() == k,
            forall|j: int| 0 <= j < k ==> data@[j] == 0,
    {
        data.push(0);
    }
    Frame { data, width, height, layout: PixelLayout::Rgba8 }
}

/// Whether a raw buffer's layout tag is one this pipeline can decode.
pub open spec fn format_supported(format: PixelFormat) -> bool {
    format is Rgba || format is Rgbx
}

/// The exact outcome of the decode checks: `None` means the buffer decodes,
/// `Some(e)` gives the first check that fails, in the order they are made.
pub open spec fn decode_failure(
    data: Seq<u8>,
    width: u32,
    height: u32,
    stride: u32,
    format: PixelFormat,
) -> Option<DecodeError> {
    if !format_supported(format) {
        Some(DecodeError::UnsupportedFormat)
    } else if stride != width * 4 {
        Some(DecodeError::NotTightlyPacked)
    } else if data.len() != height * stride {
        Some(DecodeError::WrongBufferSize)
    } else {
        None
    }
}

/// Decode one raw captured buffer into a `Frame`.
///
/// The buffer is interpreted as tightly packed RGBA only when the stride
/// equals `width * 4`; other layouts are rejected rather than converted.
/// On success the pixel bytes are taken over unchanged.
pub fn decode_frame(
    data: Vec<u8>,
    width: u32,
    height: u32,
    stride: u32,
    format: PixelFormat,
) -> (r: Result<Frame, DecodeError>)
    ensures
        match r {
            Ok(frame) => {
                &&& decode_failure(data@, width, height, stride, format) is None
                &&& frame.data@ == data@
                &&& frame.width == width
                &&& frame.height == height
                &&& frame.layout == PixelLayout::Rgba8
                &&& frame.wf()
            },
            Err(e) => Some(e) == decode_failure(data@, width, height, stride, format),
        },
{
    match format {
        PixelFormat::Rgba | PixelFormat::Rgbx => {},
        PixelFormat::Unsupported => {
            return Err(DecodeError::UnsupportedFormat);
        },
    }
    if stride as u64 != width as u64 * 4 {
        return Err(DecodeError::NotTightlyPacked);
    }
    proof {
        assert((height as int) * (stride as int) < 0x1_0000_0000_0000_0000) by (nonlinear_arith)
            requires
                0 <= height < 0x1_0000_0000,
                0 <= stride < 0x1_0000_0000,
        {}
    }
    if data.len() as u64 != height as u64 * stride as u64 {
        return Err(DecodeError::WrongBufferSize);
    }
    proof {
        assert(data@.len() == width * height * 4) by (nonlinear_arith)
            requires
                stride == width * 4,
                data@.len() == height * stride,
        {}
    }
    Ok(Frame { data, width, height, layout: PixelLayout::Rgba8 })
}

} // verus!
