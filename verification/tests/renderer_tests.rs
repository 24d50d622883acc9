use ndi_client::frame::{Frame, PixelLayout};
use ndi_client::renderer::{select_surface_format, ImageRenderer};

fn frame(width: u32, height: u32) -> Frame {
    Frame {
        data: vec![0; (width * height * 4) as usize],
        width,
        height,
        layout: PixelLayout::Rgba8,
    }
}

#[test]
fn same_resolution_keeps_texture() {
    let mut renderer = ImageRenderer::new(1920, 1080);
    let plan = renderer.prepare(&frame(1920, 1080));
    assert!(!plan.realloc);
    assert_eq!((plan.width, plan.height), (1920, 1080));
}

#[test]
fn resolution_change_reallocates_texture() {
    let mut renderer = ImageRenderer::new(1920, 1080);
    let first = renderer.prepare(&frame(1280, 720));
    assert!(first.realloc);
    assert_eq!((renderer.texture_width, renderer.texture_height), (1280, 720));

    // Same resolution again: no churn.
    let second = renderer.prepare(&frame(1280, 720));
    assert!(!second.realloc);

    // And back up: reallocated once more, to the new frame's dimensions.
    let third = renderer.prepare(&frame(3840, 2160));
    assert!(third.realloc);
    assert_eq!((third.width, third.height), (3840, 2160));
    assert_eq!((renderer.texture_width, renderer.texture_height), (3840, 2160));
}

#[test]
fn first_srgb_format_is_picked() {
    let flags = vec![false, true, true];
    assert_eq!(select_surface_format(&flags), 1);
}

#[test]
fn without_srgb_first_format_is_picked() {
    let flags = vec![false, false];
    assert_eq!(select_surface_format(&flags), 0);
}

#[test]
fn leading_srgb_format_is_picked() {
    let flags = vec![true, false];
    assert_eq!(select_surface_format(&flags), 0);
}
