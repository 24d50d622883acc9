//! Verified core of a multi-display live-video viewer.
//!
//! One process drives several monitors; each shows the most recent frame of an
//! independently selected network video source.  The modules here hold the
//! logic of that pipeline: frame decoding, the single-slot latest-wins frame
//! handoff, source discovery bookkeeping, per-display source selection, the
//! receiver state machine, and the renderer's texture bookkeeping.  The
//! unverified shell around this crate does the actual network, window and GPU
//! calls and hands their results in as plain values.

pub mod config;
pub mod frame;
pub mod model;
pub mod receiver;
pub mod renderer;
pub mod select;
pub mod slot;
pub mod source;
