//! The single-slot, latest-wins frame mailbox between one receiver and one
//! renderer.
//!
//! A `store` unconditionally overwrites whatever the slot holds; a `take`
//! removes and returns the contents.  There is no queueing: a frame not yet
//! taken before the next `store` is dropped on purpose, because a stale frame
//! is worthless for live display.  The slot has exactly one producer (its
//! display's receiver thread) and one consumer (the render thread); the
//! unverified shell arranges that sharing.

use vstd::prelude::*;

use crate::frame::Frame;

verus! {

/// Single-slot mailbox holding at most one decoded frame.
#[derive(Debug)]
pub struct FrameSlot {
    current: Option<Frame>,
}

impl View for FrameSlot {
    type V = Option<Frame>;

    closed spec fn view(&self) -> Option<Frame> {
        self.current
    }
}

/// What the slot holds after a `store`: the new frame, whatever was there.
pub open spec fn spec_store(prev: Option<Frame>, frame: Frame) -> Option<Frame> {
    Some(frame)
}

/// What a `take` returns and what it leaves behind: the contents, and an
/// empty slot.
pub open spec fn spec_take(prev: Option<Frame>) -> (Option<Frame>, Option<Frame>) {
    (prev, None)
}

impl FrameSlot {
    /// A fresh, empty slot.
    pub fn empty() -> (slot: FrameSlot)
        ensures
            slot@ is None,
    {
        FrameSlot { current: None }
    }

    /// Overwrite the slot with `frame`, dropping any unread frame.
    pub fn store(&mut self, frame: Frame)
        ensures
            final(self)@ == spec_store(old(self)@, frame),
    {
        self.current = Some(frame);
    }

    /// Remove and return the slot's contents, leaving it empty.
    pub fn take(&mut self) -> (taken: Option<Frame>)
        ensures
            taken == spec_take(old(self)@).0,
            final(self)@ == spec_take(old(self)@).1,
    {
        self.current.take()
    }
}

/// The slot contents after storing each frame of `frames` in order, starting
/// from contents `init`, with no take in between.
pub open spec fn after_stores(init: Option<Frame>, frames: Seq<Frame>) -> Option<Frame>
    decreases frames.len(),
{
    if frames.len() == 0 {
        init
    } else {
        after_stores(spec_store(init, frames.first()), frames.drop_first())
    }
}

/// Single-slot idempotence: after any non-empty sequence of stores with no
/// interleaved take, a take returns the last frame stored, and a second,
/// immediate take returns empty.
pub proof fn lemma_single_slot_latest_wins(init: Option<Frame>, frames: Seq<Frame>)
    requires
        frames.len() > 0,
    ensures
        spec_take(after_stores(init, frames)).0 == Some(frames.last()),
        spec_take(spec_take(after_stores(init, frames)).1).0 is None,
    decreases frames.len(),
{
    if frames.len() == 1 {
        assert(after_stores(init, frames) == Some(frames.first()));
    } else {
        lemma_single_slot_latest_wins(spec_store(init, frames.first()), frames.drop_first());
        assert(frames.drop_first().last() == frames.last());
    }
}

/// No frame duplication: a take immediately following another take, with no
/// intervening store, returns empty.
pub proof fn lemma_no_frame_duplication(prev: Option<Frame>)
    ensures
        spec_take(spec_take(prev).1).0 is None,
{
}

} // verus!
