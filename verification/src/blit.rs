//! The blit backend: the whole virtual desktop copied out of the screen's
//! device context, as a state machine.

use crate::error::{CaptureError, CaptureErrorView};
use crate::frame::{outcome_view, packed_len, Frame, FrameView};
use crate::pixels::rgba_opaque;
use vstd::prelude::*;

verus! {

/// Where a capture by copying the screen stands.
#[derive(Clone, Copy, Debug, PartialEq, Eq, Structural)]
pub enum BlitPhase {
    /// Nothing was asked of the platform yet.
    Created,
    /// The device contexts and the bitmap were asked for.
    Acquiring,
    /// The screen is being copied into the bitmap.
    Copying,
    /// The bitmap's pixels are being read back.
    Reading,
    /// The device contexts and the bitmap are being given back.
    Releasing,
    /// The capture gave its result.
    Finished,
}

/// The rectangle of the virtual desktop, as the system metrics give it.
#[derive(Clone, Copy, Debug, PartialEq, Eq, Structural)]
pub struct DesktopArea {
    pub x: i32,
    pub y: i32,
    pub width: i32,
    pub height: i32,
}

/// One capture of the whole virtual desktop by a bit-block transfer.
#[derive(Debug, PartialEq, Eq)]
pub struct BlitSession {
    pub area: DesktopArea,
    pub phase: BlitPhase,
    /// The frame that was read, kept until the device contexts are given
    /// back.
    pub pending: Option<Frame>,
}

/// A blit session as plain values.
pub struct BlitSessionView {
    pub area: DesktopArea,
    pub phase: BlitPhase,
    pub pending: Option<FrameView>,
}

impl View for BlitSession {
    type V = BlitSessionView;

    open spec fn view(&self) -> BlitSessionView {
        BlitSessionView {
            area: self.area,
            phase: self.phase,
            pending: match self.pending {
                Some(frame) => Some(frame@),
                None => None,
            },
        }
    }
}

/// How the bitmap's pixels are to be read back.
#[derive(Clone, Copy, Debug, PartialEq, Eq, Structural)]
pub struct ReadbackFormat {
    /// Pixels a row.
    pub width: i32,
    /// Rows, negated: a negative height asks for the rows from the top.
    pub height: i32,
    /// Color planes.
    pub planes: u16,
    /// Bits a pixel.
    pub bit_count: u16,
    /// Rows to copy.
    pub lines: u32,
}

/// What the platform reported back after an action.
#[derive(Debug, PartialEq, Eq)]
pub enum BlitEvent {
    /// The caller wants the capture to begin.
    Begin,
    /// The device contexts and the bitmap are there.
    Acquired,
    /// The transfer ended; `ok` says whether it succeeded.
    Copied { ok: bool },
    /// The pixels were read back into `data`; `lines` rows were copied.
    Read { data: Vec<u8>, lines: i32 },
    /// The device contexts and the bitmap were given back.
    Released,
}

/// What the caller is to do next.
#[derive(Debug, PartialEq, Eq)]
pub enum BlitAction {
    /// Get the screen's device context, a memory context that fits it, and
    /// a bitmap of the area's size selected into it; then report `Acquired`.
    Acquire { width: i32, height: i32 },
    /// Copy the area of the screen into the bitmap; then report `Copied`.
    Copy { area: DesktopArea },
    /// Read the bitmap back, uncompressed and in that format, into a
    /// buffer of `len` bytes; then report `Read`.
    ReadPixels { len: usize, format: ReadbackFormat },
    /// Give back the bitmap and both device contexts; then report
    /// `Released`.
    Release,
    /// The capture is over, with this result.
    Finish(Result<Frame, CaptureError>),
    /// The event does not belong to this phase; nothing changed.
    Rejected,
}

/// An action as plain values.
pub enum BlitActionView {
    Acquire { width: i32, height: i32 },
    Copy { area: DesktopArea },
    ReadPixels { len: usize, format: ReadbackFormat },
    Release,
    Finish(Result<FrameView, CaptureErrorView>),
    Rejected,
}

impl View for BlitAction {
    type V = BlitActionView;

    open spec fn view(&self) -> BlitActionView {
        match *self {
            BlitAction::Acquire { width, height } => BlitActionView::Acquire { width, height },
            BlitAction::Copy { area } => BlitActionView::Copy { area },
            BlitAction::ReadPixels { len, format } => BlitActionView::ReadPixels { len, format },
            BlitAction::Release => BlitActionView::Release,
            BlitAction::Finish(result) => BlitActionView::Finish(outcome_view(result)),
            BlitAction::Rejected => BlitActionView::Rejected,
        }
    }
}

/// The bytes that a readback of `width` by `height` pixels takes, when both
/// are not negative and the count fits the machine.
pub open spec fn spec_buffer_len(width: i32, height: i32) -> Option<usize> {
    if width >= 0 && height >= 0 && packed_len(width as int, height as int) <= usize::MAX {
        Some(packed_len(width as int, height as int) as usize)
    } else {
        None
    }
}

/// Computes the bytes that a readback of `width` by `height` pixels takes.
#[verifier::when_used_as_spec(spec_buffer_len)]
pub fn buffer_len(width: i32, height: i32) -> (len: Option<usize>)
    ensures
        len == spec_buffer_len(width, height),
{
    if width < 0 || height < 0 {
        return None;
    }
    assert(0 <= (width as int) * (height as int) <= 0x7fff_ffff * 0x7fff_ffff) by (nonlinear_arith)
        requires
            0 <= width <= 0x7fff_ffff,
            0 <= height <= 0x7fff_ffff,
    ;
    let wanted: u64 = (width as u64) * (height as u64) * 4;
    if wanted > usize::MAX as u64 {
        None
    } else {
        Some(wanted as usize)
    }
}

/// The frame that a readback gives: none when no row was copied or the
/// buffer does not hold the area's pixels, else the pixels reordered and
/// made opaque.
pub open spec fn frame_read(area: DesktopArea, data: Seq<u8>, lines: i32) -> Option<FrameView> {
    if lines != 0 && area.width >= 0 && area.height >= 0 && data.len() == packed_len(
        area.width as int,
        area.height as int,
    ) {
        Some(
            FrameView {
                data: rgba_opaque(data),
                width: area.width as u32,
                height: area.height as u32,
            },
        )
    } else {
        None
    }
}

/// The format in which an area is read back: all its rows, from the top,
/// in one plane of 32 bits a pixel.
pub open spec fn spec_readback_format(area: DesktopArea) -> ReadbackFormat {
    ReadbackFormat {
        width: area.width,
        height: (-area.height) as i32,
        planes: 1,
        bit_count: 32,
        lines: area.height as u32,
    }
}

/// The session for `area` that has done nothing yet.
pub open spec fn fresh(area: DesktopArea) -> BlitSessionView {
    BlitSessionView { area, phase: BlitPhase::Created, pending: None }
}

/// The session in another phase.
pub open spec fn in_phase(session: BlitSessionView, phase: BlitPhase) -> BlitSessionView {
    BlitSessionView { phase, ..session }
}

/// The transition function: the session after `event`, and the action that
/// it asks for.
pub open spec fn step_of(session: BlitSessionView, event: BlitEvent) -> (
    BlitSessionView,
    BlitActionView,
) {
    match (session.phase, event) {
        (BlitPhase::Created, BlitEvent::Begin) => (
            in_phase(session, BlitPhase::Acquiring),
            BlitActionView::Acquire { width: session.area.width, height: session.area.height },
        ),
        (BlitPhase::Acquiring, BlitEvent::Acquired) => (
            in_phase(session, BlitPhase::Copying),
            BlitActionView::Copy { area: session.area },
        ),
        (BlitPhase::Copying, BlitEvent::Copied { ok }) => {
            match spec_buffer_len(session.area.width, session.area.height) {
                Some(len) if ok => (
                    in_phase(session, BlitPhase::Reading),
                    BlitActionView::ReadPixels { len, format: spec_readback_format(session.area) },
                ),
                _ => (in_phase(session, BlitPhase::Releasing), BlitActionView::Release),
            }
        },
        (BlitPhase::Reading, BlitEvent::Read { data, lines }) => (
            BlitSessionView {
                phase: BlitPhase::Releasing,
                pending: frame_read(session.area, data@, lines),
                ..session
            },
            BlitActionView::Release,
        ),
        (BlitPhase::Releasing, BlitEvent::Released) => (
            BlitSessionView { phase: BlitPhase::Finished, pending: None, ..session },
            BlitActionView::Finish(
                match session.pending {
                    Some(frame) => Ok(frame),
                    None => Err(CaptureErrorView::FailedToCaptureImage),
                },
            ),
        ),
        _ => (session, BlitActionView::Rejected),
    }
}

impl BlitSession {
    /// A session for `area` that has done nothing yet.
    pub fn new(area: DesktopArea) -> (session: BlitSession)
        ensures
            session@ == fresh(area),
    {
        BlitSession { area, phase: BlitPhase::Created, pending: None }
    }

    /// Whether the capture gave its result.
    pub fn is_finished(&self) -> (finished: bool)
        ensures
            finished == (self.phase is Finished),
    {
        match self.phase {
            BlitPhase::Finished => true,
            _ => false,
        }
    }

    /// Takes what the platform reported and says what to do next.
    ///
    /// An event that does not belong to the current phase is rejected and
    /// changes nothing.
    pub fn step(&mut self, event: BlitEvent) -> (action: BlitAction)
        ensures
            (final(self)@, action@) == step_of(old(self)@, event),
    {
        match event {
            BlitEvent::Begin => match self.phase {
                BlitPhase::Created => {
                    self.phase = BlitPhase::Acquiring;
                    BlitAction::Acquire { width: self.area.width, height: self.area.height }
                },
                _ => BlitAction::Rejected,
            },
            BlitEvent::Acquired => match self.phase {
                BlitPhase::Acquiring => {
                    self.phase = BlitPhase::Copying;
                    BlitAction::Copy { area: self.area }
                },
                _ => BlitAction::Rejected,
            },
            BlitEvent::Copied { ok } => match self.phase {
                BlitPhase::Copying => {
                    match buffer_len(self.area.width, self.area.height) {
                        Some(len) => {
                            if ok {
                                self.phase = BlitPhase::Reading;
                                BlitAction::ReadPixels {
                                    len,
                                    format: ReadbackFormat {
                                        width: self.area.width,
                                        height: -self.area.height,
                                        planes: 1,
                                        bit_count: 32,
                                        lines: self.area.height as u32,
                                    },
                                }
                            } else {
                                self.phase = BlitPhase::Releasing;
                                BlitAction::Release
                            }
                        },
                        None => {
                            self.phase = BlitPhase::Releasing;
                            BlitAction::Release
                        },
                    }
                },
                _ => BlitAction::Rejected,
            },
            BlitEvent::Read { data, lines } => match self.phase {
                BlitPhase::Reading => {
                    self.phase = BlitPhase::Releasing;
                    if lines != 0 && self.area.width >= 0 && self.area.height >= 0 {
                        match Frame::from_bgra(data, self.area.width as u32, self.area.height as u32) {
                            Ok(frame) => {
                                self.pending = Some(frame);
                            },
                            Err(_) => {
                                self.pending = None;
                            },
                        }
                    } else {
                        self.pending = None;
                    }
                    BlitAction::Release
                },
                _ => BlitAction::Rejected,
            },
            BlitEvent::Released => match self.phase {
                BlitPhase::Releasing => {
                    self.phase = BlitPhase::Finished;
                    match self.pending.take() {
                        Some(frame) => BlitAction::Finish(Ok(frame)),
                        None => BlitAction::Finish(Err(CaptureError::FailedToCaptureImage)),
                    }
                },
                _ => BlitAction::Rejected,
            },
        }
    }
}

/// What a sequence of events led to.
pub struct BlitRun {
    /// The session after the last event.
    pub session: BlitSessionView,
    /// The actions that were asked for, one for each event.
    pub actions: Seq<BlitActionView>,
    /// How many times the device contexts were asked for.
    pub acquired: nat,
    /// How many times they were given back.
    pub released: nat,
}

/// The run of `events`, in order, from `start`.
pub open spec fn run(start: BlitSessionView, events: Seq<BlitEvent>) -> BlitRun
    decreases events.len(),
{
    if events.len() == 0 {
        BlitRun { session: start, actions: Seq::empty(), acquired: 0, released: 0 }
    } else {
        let before = run(start, events.drop_last());
        let (session, action) = step_of(before.session, events.last());
        BlitRun {
            session,
            actions: before.actions.push(action),
            acquired: if action is Acquire {
                before.acquired + 1
            } else {
                before.acquired
            },
            released: if action is Release {
                before.released + 1
            } else {
                before.released
            },
        }
    }
}

/// How the two counts of a run stand to the phase that it reached.
pub open spec fn balanced(outcome: BlitRun) -> bool {
    match outcome.session.phase {
        BlitPhase::Created => outcome.acquired == 0 && outcome.released == 0,
        BlitPhase::Acquiring | BlitPhase::Copying | BlitPhase::Reading => outcome.acquired == 1
            && outcome.released == 0,
        BlitPhase::Releasing | BlitPhase::Finished => outcome.acquired == 1 && outcome.released
            == 1,
    }
}

/// Whatever the platform reports, in whatever order: the device contexts
/// are asked for at most once, they are given back only after that and at
/// most once, and a capture that gave its result, whichever it is, gave
/// them back exactly once.
pub proof fn lemma_contexts_are_released_once(area: DesktopArea, events: Seq<BlitEvent>)
    ensures
        ({
            let outcome = run(fresh(area), events);
            &&& balanced(outcome)
            &&& outcome.released <= outcome.acquired <= 1
            &&& outcome.session.phase is Finished ==> outcome.released == 1 && outcome.acquired
                == 1
            &&& outcome.actions.len() == events.len()
            &&& outcome.session.area == area
        }),
    decreases events.len(),
{
    if events.len() > 0 {
        lemma_contexts_are_released_once(area, events.drop_last());
    }
}

/// A frame that waits for the release has the area's size and holds all
/// its pixels.
pub open spec fn pending_fits(session: BlitSessionView) -> bool {
    session.pending matches Some(frame) ==> {
        &&& session.area.width >= 0
        &&& session.area.height >= 0
        &&& frame.width == session.area.width
        &&& frame.height == session.area.height
        &&& frame.data.len() == packed_len(frame.width as int, frame.height as int)
    }
}

proof fn lemma_run_keeps_pending(area: DesktopArea, events: Seq<BlitEvent>)
    ensures
        pending_fits(run(fresh(area), events).session),
        run(fresh(area), events).session.area == area,
    decreases events.len(),
{
    if events.len() > 0 {
        lemma_run_keeps_pending(area, events.drop_last());
    }
}

/// Native resolution: a capture that ends with a frame ends with a frame of
/// the size of the area that was copied, tightly packed.
pub proof fn lemma_frame_has_the_area_size(area: DesktopArea, events: Seq<BlitEvent>)
    requires
        events.len() > 0,
        run(fresh(area), events).actions.last() matches BlitActionView::Finish(Ok(_)),
    ensures
        ({
            let outcome = run(fresh(area), events);
            let frame = outcome.actions.last()->Finish_0->Ok_0;
            &&& area.width >= 0
            &&& area.height >= 0
            &&& frame.width == area.width
            &&& frame.height == area.height
            &&& frame.data.len() == packed_len(area.width as int, area.height as int)
        }),
{
    lemma_run_keeps_pending(area, events.drop_last());
}

} // verus!
