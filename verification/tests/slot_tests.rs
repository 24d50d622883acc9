use ndi_client::frame::{Frame, PixelLayout};
use ndi_client::slot::FrameSlot;

fn frame_with_byte(b: u8) -> Frame {
    Frame { data: vec![b, b, b, b], width: 1, height: 1, layout: PixelLayout::Rgba8 }
}

#[test]
fn take_of_empty_slot_is_empty() {
    let mut slot = FrameSlot::empty();
    assert!(slot.take().is_none());
}

#[test]
fn store_then_take_returns_frame() {
    let mut slot = FrameSlot::empty();
    slot.store(frame_with_byte(7));
    let taken = slot.take().unwrap();
    assert_eq!(taken.data, vec![7, 7, 7, 7]);
    assert_eq!(taken.width, 1);
    assert_eq!(taken.height, 1);
}

#[test]
fn repeated_stores_latest_wins() {
    let mut slot = FrameSlot::empty();
    slot.store(frame_with_byte(1));
    slot.store(frame_with_byte(2));
    slot.store(frame_with_byte(3));
    let taken = slot.take().unwrap();
    assert_eq!(taken.data, vec![3, 3, 3, 3]);
    assert!(slot.take().is_none());
}

#[test]
fn take_after_take_is_empty() {
    let mut slot = FrameSlot::empty();
    slot.store(frame_with_byte(9));
    assert!(slot.take().is_some());
    assert!(slot.take().is_none());
}

#[test]
fn store_after_take_refills() {
    let mut slot = FrameSlot::empty();
    slot.store(frame_with_byte(1));
    assert!(slot.take().is_some());
    slot.store(frame_with_byte(2));
    let taken = slot.take().unwrap();
    assert_eq!(taken.data, vec![2, 2, 2, 2]);
}
