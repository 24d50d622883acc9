//! The per-display frame receiver, as a state machine.
//!
//! One dedicated thread per display runs this machine.  In `AwaitingSource`
//! it blocks until a source is assigned; once `Connected` it captures one
//! frame at a time, decodes each into a [`Frame`] for the display's slot,
//! and only after a capture attempt completes does it poll for a
//! reassignment and reconnect.  Capture and decode failures are per-frame
//! errors: the frame is dropped and the loop goes on.  The blocking
//! transport calls themselves (connect, disconnect, capture) are made by the
//! unverified shell, which feeds each step's outcome in as a value and
//! carries out the step's connect instruction.

use vstd::prelude::*;

use crate::frame::{decode_failure, decode_frame, Frame, PixelFormat, PixelLayout, DecodeError};
use crate::source::NdiSource;

verus! {

/// Where a receiver stands: waiting for its first source, or connected.
#[derive(Debug)]
pub enum ReceiverState {
    AwaitingSource,
    Connected { source: NdiSource },
}

/// One raw captured video buffer, as the transport hands it over.
#[derive(Debug)]
pub struct RawVideo {
    pub data: Vec<u8>,
    pub width: u32,
    pub height: u32,
    pub stride: u32,
    pub format: PixelFormat,
}

/// What one capture attempt produced.
#[derive(Debug)]
pub enum CaptureOutcome {
    /// A video frame with its raw buffer.
    Video(RawVideo),
    /// The transport delivered something other than a video frame.
    NonVideo,
    /// The transport reported a video frame but handed no buffer over.
    NoData,
}

/// Why a capture attempt stored no frame.  All of these are non-fatal: the
/// connection is kept and the loop continues.
#[derive(Clone, Copy, Debug, PartialEq, Eq, Structural)]
pub enum ReceiveError {
    NonVideoFrame,
    MissingData,
    Decode(DecodeError),
}

/// What one step of the receiver loop decided: at most one frame to store
/// into the display's slot, the error to log when none is stored, the state
/// the machine moves to, and the source to reconnect to, if a reassignment
/// was observed.
#[derive(Debug)]
pub struct StepOutput {
    pub store: Option<Frame>,
    pub error: Option<ReceiveError>,
    pub next: ReceiverState,
    pub connect: Option<NdiSource>,
}

/// The state after a step: the reassigned source's connection when a
/// reassignment was observed, the old state otherwise.
pub open spec fn next_state_spec(state: ReceiverState, reassign: Option<NdiSource>) -> ReceiverState {
    match reassign {
        Some(n) => ReceiverState::Connected { source: n },
        None => state,
    }
}

/// Leave `AwaitingSource`: the first assignment received connects the
/// receiver to that source.
pub fn connect_first(source: NdiSource) -> (state: ReceiverState)
    ensures
        state == (ReceiverState::Connected { source }),
{
    ReceiverState::Connected { source }
}

/// One iteration of the connected receiver loop.
///
/// The capture outcome is handled first, against the connection held when
/// the step began: a decodable video buffer becomes the frame to store,
/// anything else becomes an error to log and no frame.  Only then is the
/// reassignment, if any, acted on: the step instructs the shell to
/// disconnect and connect to the new source, and the machine moves there.
pub fn receiver_step(
    state: ReceiverState,
    capture: CaptureOutcome,
    reassign: Option<NdiSource>,
) -> (out: StepOutput)
    requires
        state is Connected,
    ensures
        out.next == next_state_spec(state, reassign),
        out.connect == reassign,
        (match capture {
            CaptureOutcome::Video(v) => match decode_failure(
                v.data@,
                v.width,
                v.height,
                v.stride,
                v.format,
            ) {
                None => {
                    &&& out.error is None
                    &&& out.store matches Some(f) && f.data@ == v.data@ && f.width == v.width
                        && f.height == v.height && f.layout == PixelLayout::Rgba8
                },
                Some(e) => out.store is None && out.error == Some(ReceiveError::Decode(e)),
            },
            CaptureOutcome::NonVideo => out.store is None && out.error == Some(
                ReceiveError::NonVideoFrame,
            ),
            CaptureOutcome::NoData => out.store is None && out.error == Some(
                ReceiveError::MissingData,
            ),
        }),
{
    let (store, error) = match capture {
        CaptureOutcome::Video(v) => match decode_frame(v.data, v.width, v.height, v.stride, v.format) {
            Ok(frame) => (Some(frame), None),
            Err(e) => (None, Some(ReceiveError::Decode(e))),
        },
        CaptureOutcome::NonVideo => (None, Some(ReceiveError::NonVideoFrame)),
        CaptureOutcome::NoData => (None, Some(ReceiveError::MissingData)),
    };
    match reassign {
        Some(n) => StepOutput {
            store,
            error,
            next: ReceiverState::Connected { source: n.clone() },
            connect: Some(n),
        },
        None => StepOutput { store, error, next: state, connect: None },
    }
}

/// The source a receiver is connected to after a run of steps whose
/// reassignment inputs were `reassigns` (`None` for a step that observed no
/// reassignment), starting from a connection to `init`.
pub open spec fn source_after(init: NdiSource, reassigns: Seq<Option<NdiSource>>) -> NdiSource
    decreases reassigns.len(),
{
    if reassigns.len() == 0 {
        init
    } else {
        match reassigns.last() {
            Some(n) => n,
            None => source_after(init, reassigns.drop_last()),
        }
    }
}

/// A whole run of the connected loop, as the fold of the per-step state
/// transition over the reassignments each step observed.
pub open spec fn run_state(state: ReceiverState, reassigns: Seq<Option<NdiSource>>) -> ReceiverState
    decreases reassigns.len(),
{
    if reassigns.len() == 0 {
        state
    } else {
        next_state_spec(run_state(state, reassigns.drop_last()), reassigns.last())
    }
}

/// The trace model speaks about the same machine `receiver_step` advances:
/// folding the per-step transition over any run leaves the receiver
/// connected to exactly the source `source_after` names.
pub proof fn lemma_run_state_connected(init: NdiSource, reassigns: Seq<Option<NdiSource>>)
    ensures
        run_state(ReceiverState::Connected { source: init }, reassigns) == (
        ReceiverState::Connected { source: source_after(init, reassigns) }),
    decreases reassigns.len(),
{
    if reassigns.len() > 0 {
        lemma_run_state_connected(init, reassigns.drop_last());
    }
}

/// The source to which the frame captured at step `i` is attributed: the
/// connection in effect when that capture began.  A reassignment arriving
/// during step `i` is observed only after the capture completes, so it takes
/// effect from step `i + 1` on.
pub open spec fn capture_attribution(
    init: NdiSource,
    reassigns: Seq<Option<NdiSource>>,
    i: int,
) -> NdiSource {
    source_after(init, reassigns.take(i))
}

/// Reconnect ordering: when step `i` observes a reassignment to `n`, the
/// capture of step `i` itself is still attributed to the connection held
/// before — `capture_attribution(.., i)` ignores `reassigns[i]` because the
/// in-flight capture completes first — and every later capture, up to the
/// next reassignment, is attributed to `n`.  So after the reconnect no
/// stored frame is attributed to the old source.
pub proof fn lemma_reconnect_ordering(
    init: NdiSource,
    reassigns: Seq<Option<NdiSource>>,
    i: int,
    j: int,
    n: NdiSource,
)
    requires
        0 <= i < j <= reassigns.len(),
        reassigns[i] == Some(n),
        forall|k: int| i < k < j ==> reassigns[k] is None,
    ensures
        capture_attribution(init, reassigns, j) == n,
    decreases j,
{
    let prefix = reassigns.take(j);
    if j == i + 1 {
        assert(prefix.last() == reassigns[i]);
    } else {
        assert(prefix.last() == reassigns[j - 1]);
        assert(prefix.drop_last() =~= reassigns.take(j - 1));
        lemma_reconnect_ordering(init, reassigns, i, j - 1, n);
    }
}

} // verus!
