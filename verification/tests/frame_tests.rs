use ndi_client::frame::{decode_frame, DecodeError, PixelFormat, PixelLayout};

#[test]
fn decode_tightly_packed_rgba() {
    let data = vec![1, 2, 3, 4, 5, 6, 7, 8];
    let frame = decode_frame(data.clone(), 2, 1, 8, PixelFormat::Rgba).unwrap();
    assert_eq!(frame.data, data);
    assert_eq!(frame.width, 2);
    assert_eq!(frame.height, 1);
    assert_eq!(frame.layout, PixelLayout::Rgba8);
}

#[test]
fn decode_rgbx_is_accepted() {
    let data = vec![0; 16];
    let frame = decode_frame(data, 2, 2, 8, PixelFormat::Rgbx).unwrap();
    assert_eq!(frame.data.len(), 16);
    assert_eq!(frame.layout, PixelLayout::Rgba8);
}

#[test]
fn decode_rejects_unsupported_format() {
    let r = decode_frame(vec![0; 8], 2, 1, 8, PixelFormat::Unsupported);
    assert_eq!(r.unwrap_err(), DecodeError::UnsupportedFormat);
}

#[test]
fn decode_rejects_padded_stride() {
    // 1 pixel per row but a 16-byte stride: not tightly packed.
    let r = decode_frame(vec![0; 32], 1, 2, 16, PixelFormat::Rgba);
    assert_eq!(r.unwrap_err(), DecodeError::NotTightlyPacked);
}

#[test]
fn decode_rejects_short_buffer() {
    let r = decode_frame(vec![0; 7], 2, 1, 8, PixelFormat::Rgba);
    assert_eq!(r.unwrap_err(), DecodeError::WrongBufferSize);
}

#[test]
fn decode_rejects_long_buffer() {
    let r = decode_frame(vec![0; 9], 2, 1, 8, PixelFormat::Rgba);
    assert_eq!(r.unwrap_err(), DecodeError::WrongBufferSize);
}

#[test]
fn decode_zero_sized_frame() {
    let frame = decode_frame(Vec::new(), 0, 0, 0, PixelFormat::Rgba).unwrap();
    assert_eq!(frame.data.len(), 0);
    assert_eq!(frame.width, 0);
    assert_eq!(frame.height, 0);
}
