//! The stream backend: one single-shot capture stream of one display, as a
//! state machine.

use crate::buffer::{CaptureResult, PixelBuffer};
use crate::error::{CaptureError, CaptureErrorView};
use crate::text::{decimal, push_decimal};
use vstd::prelude::*;

verus! {

/// How long a started stream may stay silent, in milliseconds.
pub const FRAME_TIMEOUT_MS: u64 = 1000;

/// How long the backend sleeps between two looks at the frame slot, in
/// milliseconds.
pub const POLL_INTERVAL_MS: u64 = 10;

/// Where a capture through a stream stands.
#[derive(Clone, Copy, Debug, PartialEq, Eq, Structural)]
pub enum SessionPhase {
    /// Nothing was asked of the platform yet.
    Created,
    /// The list of shareable content was asked for.
    ListingContent,
    /// The display's native mode was asked for.
    ReadingMode,
    /// The stream was told to start.
    Starting,
    /// The stream runs and no frame was seen yet.
    Waiting,
    /// The stream was told to stop; `received` says whether a frame was
    /// seen before that.
    Stopping { received: bool },
    /// The capture gave its result.
    Finished,
}

/// One capture of one display through a single-shot stream.
#[derive(Clone, Copy, Debug, PartialEq, Eq, Structural)]
pub struct CaptureSession {
    pub display_id: u32,
    pub show_cursor: bool,
    pub phase: SessionPhase,
    /// The display's native size in physical pixels, once its mode was
    /// read; zero before.
    pub width: u32,
    pub height: u32,
}

/// The pixel format of a stream's frames.
#[derive(Clone, Copy, Debug, PartialEq, Eq, Structural)]
pub enum PixelFormat {
    /// Four bytes a pixel: blue, green, red, alpha.
    Bgra,
}

/// How a stream is to be set up: one display alone, at its native size,
/// in one fixed pixel format.
#[derive(Clone, Copy, Debug, PartialEq, Eq, Structural)]
pub struct StreamSetup {
    pub display_id: u32,
    pub width: u32,
    pub height: u32,
    pub show_cursor: bool,
    pub pixel_format: PixelFormat,
}

/// What the platform reported back after an action.
#[derive(Debug, Clone, PartialEq, Eq)]
pub enum SessionEvent {
    /// The caller wants the capture to begin.
    Begin,
    /// The shareable content was listed: the identifiers of its displays.
    ContentListed { display_ids: Vec<u32> },
    /// The shareable content could not be listed.
    ContentFailed { detail: String },
    /// The display's native size in physical pixels, if it has a mode.
    ModeRead { size: Option<(u64, u64)> },
    /// The stream runs.
    StreamStarted,
    /// The stream could not be started.
    StreamFailed { detail: String },
    /// The frame slot was looked at: how long the stream has run, and
    /// whether the slot holds a frame.
    Polled { elapsed_ms: u64, filled: bool },
    /// The stream was stopped, and this was taken out of the frame slot.
    StreamStopped { buffer: Option<PixelBuffer> },
}

/// What the caller is to do next.
#[derive(Debug, PartialEq, Eq)]
pub enum SessionAction {
    /// List the shareable content, then report `ContentListed` or
    /// `ContentFailed`.
    ListContent,
    /// Read the display's native mode, then report `ModeRead`.
    ReadMode { display_id: u32 },
    /// Start a stream that is set up so and keeps the first frame that it
    /// delivers; then report `StreamStarted` or `StreamFailed`.
    StartStream(StreamSetup),
    /// Sleep that long, look at the frame slot, then report `Polled`.
    Wait { millis: u64 },
    /// Stop the stream and empty the frame slot, then report
    /// `StreamStopped`.
    StopStream,
    /// The capture is over, with this result.
    Finish(Result<CaptureResult, CaptureError>),
    /// The event does not belong to this phase; nothing changed.
    Rejected,
}

/// An action as plain values.
pub enum SessionActionView {
    ListContent,
    ReadMode { display_id: u32 },
    StartStream(StreamSetup),
    Wait { millis: u64 },
    StopStream,
    Finish(Result<CaptureResult, CaptureErrorView>),
    Rejected,
}

impl View for SessionAction {
    type V = SessionActionView;

    open spec fn view(&self) -> SessionActionView {
        match *self {
            SessionAction::ListContent => SessionActionView::ListContent,
            SessionAction::ReadMode { display_id } => SessionActionView::ReadMode { display_id },
            SessionAction::StartStream(setup) => SessionActionView::StartStream(setup),
            SessionAction::Wait { millis } => SessionActionView::Wait { millis },
            SessionAction::StopStream => SessionActionView::StopStream,
            SessionAction::Finish(Ok(result)) => SessionActionView::Finish(Ok(result)),
            SessionAction::Finish(Err(error)) => SessionActionView::Finish(Err(error@)),
            SessionAction::Rejected => SessionActionView::Rejected,
        }
    }
}

/// The detail of the error for an empty list of displays.
pub open spec fn no_displays_text() -> Seq<char> {
    "No displays found"@
}

/// The detail of the error for a display without a mode, or with a mode
/// whose size does not fit 32 bits.
pub open spec fn no_mode_text(display_id: u32) -> Seq<char> {
    "无法获取显示器 "@ + decimal(display_id as nat) + " 的显示模式"@
}

/// The detail of the error for a stream that reported a frame and left the
/// slot empty.
pub open spec fn no_data_text() -> Seq<char> {
    "No data received"@
}

/// The detail of the error for a frame that has another size than the
/// display's mode.
pub open spec fn wrong_size_text() -> Seq<char> {
    "Frame size does not match the display mode"@
}

/// The result for what was taken out of the frame slot of `session`: a
/// timeout when no frame was seen, an error when the slot was empty after
/// all or the frame has not the display's native size, else the frame.
pub open spec fn result_of(session: CaptureSession, received: bool, buffer: Option<PixelBuffer>) -> Result<
    CaptureResult,
    CaptureErrorView,
> {
    if !received {
        Err(CaptureErrorView::Timeout)
    } else {
        match buffer {
            None => Err(CaptureErrorView::ImageProcessingError(no_data_text())),
            Some(pixel_buffer) => if pixel_buffer.width == session.width && pixel_buffer.height
                == session.height {
                Ok(
                    CaptureResult {
                        pixel_buffer,
                        width: pixel_buffer.width,
                        height: pixel_buffer.height,
                        native_id: session.display_id,
                        show_cursor: session.show_cursor,
                    },
                )
            } else {
                Err(CaptureErrorView::ImageProcessingError(wrong_size_text()))
            },
        }
    }
}

/// The action that starts the stream of `session`: of its display alone,
/// at the size that was read from the display's mode, in blue-green-red-alpha.
pub open spec fn start_action(session: CaptureSession) -> SessionActionView {
    SessionActionView::StartStream(
        StreamSetup {
            display_id: session.display_id,
            width: session.width,
            height: session.height,
            show_cursor: session.show_cursor,
            pixel_format: PixelFormat::Bgra,
        },
    )
}

/// The session in another phase.
pub open spec fn in_phase(session: CaptureSession, phase: SessionPhase) -> CaptureSession {
    CaptureSession { phase, ..session }
}

/// The session that ends with `error`.
pub open spec fn failed(session: CaptureSession, error: CaptureErrorView) -> (
    CaptureSession,
    SessionActionView,
) {
    (in_phase(session, SessionPhase::Finished), SessionActionView::Finish(Err(error)))
}

/// The transition function: the session after `event`, and the action that
/// it asks for.
pub open spec fn step_of(session: CaptureSession, event: SessionEvent) -> (
    CaptureSession,
    SessionActionView,
) {
    match (session.phase, event) {
        (SessionPhase::Created, SessionEvent::Begin) => (
            in_phase(session, SessionPhase::ListingContent),
            SessionActionView::ListContent,
        ),
        (SessionPhase::ListingContent, SessionEvent::ContentFailed { detail }) => failed(
            session,
            CaptureErrorView::ContentNotAvailable(detail@),
        ),
        (SessionPhase::ListingContent, SessionEvent::ContentListed { display_ids }) => {
            if display_ids@.len() == 0 {
                failed(session, CaptureErrorView::ContentNotAvailable(no_displays_text()))
            } else if !display_ids@.contains(session.display_id) {
                failed(session, CaptureErrorView::DisplayNotFound(session.display_id as usize))
            } else {
                (
                    in_phase(session, SessionPhase::ReadingMode),
                    SessionActionView::ReadMode { display_id: session.display_id },
                )
            }
        },
        (SessionPhase::ReadingMode, SessionEvent::ModeRead { size }) => match size {
            Some((width, height)) if width <= u32::MAX && height <= u32::MAX => {
                let starting = CaptureSession {
                    phase: SessionPhase::Starting,
                    width: width as u32,
                    height: height as u32,
                    ..session
                };
                (starting, start_action(starting))
            },
            _ => failed(
                session,
                CaptureErrorView::ContentNotAvailable(no_mode_text(session.display_id)),
            ),
        },
        (SessionPhase::Starting, SessionEvent::StreamFailed { detail }) => failed(
            session,
            CaptureErrorView::StreamError(detail@),
        ),
        (SessionPhase::Starting, SessionEvent::StreamStarted) => (
            in_phase(session, SessionPhase::Waiting),
            SessionActionView::Wait { millis: POLL_INTERVAL_MS },
        ),
        (SessionPhase::Waiting, SessionEvent::Polled { elapsed_ms, filled }) => {
            if filled {
                (
                    in_phase(session, SessionPhase::Stopping { received: true }),
                    SessionActionView::StopStream,
                )
            } else if elapsed_ms < FRAME_TIMEOUT_MS {
                (session, SessionActionView::Wait { millis: POLL_INTERVAL_MS })
            } else {
                (
                    in_phase(session, SessionPhase::Stopping { received: false }),
                    SessionActionView::StopStream,
                )
            }
        },
        (SessionPhase::Stopping { received }, SessionEvent::StreamStopped { buffer }) => (
            in_phase(session, SessionPhase::Finished),
            SessionActionView::Finish(result_of(session, received, buffer)),
        ),
        _ => (session, SessionActionView::Rejected),
    }
}

/// Whether `id` is among `ids`.
pub fn contains_id(ids: &Vec<u32>, id: u32) -> (found: bool)
    ensures
        found == ids@.contains(id),
{
    let mut i: usize = 0;
    while i < ids.len()
        invariant
            i <= ids.len(),
            forall|j: int| 0 <= j < i ==> ids@[j] != id,
        decreases ids.len() - i,
    {
        if ids[i] == id {
            return true;
        }
        i += 1;
    }
    false
}

impl CaptureSession {
    /// A session that has done nothing yet.
    pub open spec fn spec_new(display_id: u32, show_cursor: bool) -> CaptureSession {
        CaptureSession { display_id, show_cursor, phase: SessionPhase::Created, width: 0, height: 0 }
    }

    /// A session that has done nothing yet.
    #[verifier::when_used_as_spec(spec_new)]
    pub fn new(display_id: u32, show_cursor: bool) -> (session: CaptureSession)
        ensures
            session == CaptureSession::spec_new(display_id, show_cursor),
    {
        CaptureSession { display_id, show_cursor, phase: SessionPhase::Created, width: 0, height: 0 }
    }

    /// Whether the capture gave its result.
    pub fn is_finished(&self) -> (finished: bool)
        ensures
            finished == (self.phase is Finished),
    {
        match self.phase {
            SessionPhase::Finished => true,
            _ => false,
        }
    }

    fn fail(&mut self, error: CaptureError) -> (action: SessionAction)
        ensures
            (*final(self), action@) == failed(*old(self), error@),
    {
        self.phase = SessionPhase::Finished;
        SessionAction::Finish(Err(error))
    }

    /// Takes what the platform reported and says what to do next.
    ///
    /// An event that does not belong to the current phase is rejected and
    /// changes nothing.
    pub fn step(&mut self, event: SessionEvent) -> (action: SessionAction)
        ensures
            (*final(self), action@) == step_of(*old(self), event),
    {
        match event {
            SessionEvent::Begin => match self.phase {
                SessionPhase::Created => {
                    self.phase = SessionPhase::ListingContent;
                    SessionAction::ListContent
                },
                _ => SessionAction::Rejected,
            },
            SessionEvent::ContentFailed { detail } => match self.phase {
                SessionPhase::ListingContent => self.fail(
                    CaptureError::ContentNotAvailable(detail),
                ),
                _ => SessionAction::Rejected,
            },
            SessionEvent::ContentListed { display_ids } => match self.phase {
                SessionPhase::ListingContent => {
                    if display_ids.len() == 0 {
                        self.fail(
                            CaptureError::ContentNotAvailable(
                                String::from_str("No displays found"),
                            ),
                        )
                    } else if !contains_id(&display_ids, self.display_id) {
                        self.fail(CaptureError::DisplayNotFound(self.display_id as usize))
                    } else {
                        self.phase = SessionPhase::ReadingMode;
                        SessionAction::ReadMode { display_id: self.display_id }
                    }
                },
                _ => SessionAction::Rejected,
            },
            SessionEvent::ModeRead { size } => match self.phase {
                SessionPhase::ReadingMode => {
                    match size {
                        Some((width, height)) => {
                            if width <= u32::MAX as u64 && height <= u32::MAX as u64 {
                                self.phase = SessionPhase::Starting;
                                self.width = width as u32;
                                self.height = height as u32;
                                return SessionAction::StartStream(
                                    StreamSetup {
                                        display_id: self.display_id,
                                        width: width as u32,
                                        height: height as u32,
                                        show_cursor: self.show_cursor,
                                        pixel_format: PixelFormat::Bgra,
                                    },
                                );
                            }
                        },
                        None => {},
                    }
                    let mut detail = String::from_str("无法获取显示器 ");
                    push_decimal(&mut detail, self.display_id as u64);
                    detail.append(" 的显示模式");
                    self.fail(CaptureError::ContentNotAvailable(detail))
                },
                _ => SessionAction::Rejected,
            },
            SessionEvent::StreamFailed { detail } => match self.phase {
                SessionPhase::Starting => self.fail(CaptureError::StreamError(detail)),
                _ => SessionAction::Rejected,
            },
            SessionEvent::StreamStarted => match self.phase {
                SessionPhase::Starting => {
                    self.phase = SessionPhase::Waiting;
                    SessionAction::Wait { millis: POLL_INTERVAL_MS }
                },
                _ => SessionAction::Rejected,
            },
            SessionEvent::Polled { elapsed_ms, filled } => match self.phase {
                SessionPhase::Waiting => {
                    if filled {
                        self.phase = SessionPhase::Stopping { received: true };
                        SessionAction::StopStream
                    } else if elapsed_ms < FRAME_TIMEOUT_MS {
                        SessionAction::Wait { millis: POLL_INTERVAL_MS }
                    } else {
                        self.phase = SessionPhase::Stopping { received: false };
                        SessionAction::StopStream
                    }
                },
                _ => SessionAction::Rejected,
            },
            SessionEvent::StreamStopped { buffer } => match self.phase {
                SessionPhase::Stopping { received } => {
                    self.phase = SessionPhase::Finished;
                    if !received {
                        SessionAction::Finish(Err(CaptureError::Timeout))
                    } else {
                        match buffer {
                            None => SessionAction::Finish(
                                Err(
                                    CaptureError::ImageProcessingError(
                                        String::from_str("No data received"),
                                    ),
                                ),
                            ),
                            Some(pixel_buffer) => {
                                let width = pixel_buffer.width;
                                let height = pixel_buffer.height;
                                if width == self.width as usize && height == self.height as usize {
                                    SessionAction::Finish(
                                        Ok(
                                            CaptureResult {
                                                pixel_buffer,
                                                width,
                                                height,
                                                native_id: self.display_id,
                                                show_cursor: self.show_cursor,
                                            },
                                        ),
                                    )
                                } else {
                                    SessionAction::Finish(
                                        Err(
                                            CaptureError::ImageProcessingError(
                                                String::from_str(
                                                    "Frame size does not match the display mode",
                                                ),
                                            ),
                                        ),
                                    )
                                }
                            },
                        }
                    }
                },
                _ => SessionAction::Rejected,
            },
        }
    }
}

/// What a sequence of events led to.
pub struct SessionRun {
    /// The session after the last event.
    pub session: CaptureSession,
    /// The actions that were asked for, one for each event.
    pub actions: Seq<SessionActionView>,
    /// How many times a stream came to run.
    pub opened: nat,
    /// How many times a stream was told to stop.
    pub closed: nat,
}

/// The run of `events`, in order, from `start`.
pub open spec fn run(start: CaptureSession, events: Seq<SessionEvent>) -> SessionRun
    decreases events.len(),
{
    if events.len() == 0 {
        SessionRun { session: start, actions: Seq::empty(), opened: 0, closed: 0 }
    } else {
        let before = run(start, events.drop_last());
        let (session, action) = step_of(before.session, events.last());
        SessionRun {
            session,
            actions: before.actions.push(action),
            opened: if before.session.phase is Starting && session.phase is Waiting {
                before.opened + 1
            } else {
                before.opened
            },
            closed: if action is StopStream {
                before.closed + 1
            } else {
                before.closed
            },
        }
    }
}

/// How the two counts of a run stand to the phase that it reached.
pub open spec fn balanced(outcome: SessionRun) -> bool {
    match outcome.session.phase {
        SessionPhase::Waiting => outcome.opened == 1 && outcome.closed == 0,
        SessionPhase::Stopping { .. } => outcome.opened == 1 && outcome.closed == 1,
        SessionPhase::Finished => outcome.opened == outcome.closed && outcome.opened <= 1,
        _ => outcome.opened == 0 && outcome.closed == 0,
    }
}

/// Whatever the platform reports, in whatever order: a stream is opened
/// at most once, it is never told to stop unless it runs, and when the
/// capture has given its result, a stream that ran was told to stop exactly
/// once.
pub proof fn lemma_stream_is_stopped_once(
    display_id: u32,
    show_cursor: bool,
    events: Seq<SessionEvent>,
)
    ensures
        ({
            let outcome = run(CaptureSession::spec_new(display_id, show_cursor), events);
            &&& balanced(outcome)
            &&& outcome.closed <= outcome.opened <= 1
            &&& outcome.session.phase is Finished ==> outcome.closed == outcome.opened
            &&& outcome.actions.len() == events.len()
            &&& outcome.session.display_id == display_id
            &&& outcome.session.show_cursor == show_cursor
        }),
    decreases events.len(),
{
    if events.len() > 0 {
        lemma_stream_is_stopped_once(display_id, show_cursor, events.drop_last());
    }
}

/// The events of a stream that never delivers: one look at the empty slot
/// for each of `waits`.
pub open spec fn silent_polls(waits: Seq<u64>) -> Seq<SessionEvent> {
    Seq::new(waits.len(), |i: int| SessionEvent::Polled { elapsed_ms: waits[i], filled: false })
}

/// A stream that never delivers a frame ends in `Timeout`: while the time
/// allowed has not passed the session sleeps, at the first look after it
/// has passed the stream is told to stop, once, and the result is `Timeout`
/// whatever the slot held.
pub proof fn lemma_silent_stream_times_out(
    session: CaptureSession,
    waits: Seq<u64>,
    late: u64,
    buffer: Option<PixelBuffer>,
)
    requires
        session.phase is Waiting,
        forall|i: int| 0 <= i < waits.len() ==> waits[i] < FRAME_TIMEOUT_MS,
        late >= FRAME_TIMEOUT_MS,
    ensures
        ({
            let waiting = run(session, silent_polls(waits));
            &&& waiting.session == session
            &&& waiting.closed == 0
            &&& waiting.actions == Seq::new(
                waits.len(),
                |i: int| SessionActionView::Wait { millis: POLL_INTERVAL_MS },
            )
        }),
        step_of(session, SessionEvent::Polled { elapsed_ms: late, filled: false }) == (
            in_phase(session, SessionPhase::Stopping { received: false }),
            SessionActionView::StopStream,
        ),
        step_of(
            in_phase(session, SessionPhase::Stopping { received: false }),
            SessionEvent::StreamStopped { buffer },
        ) == (
            in_phase(session, SessionPhase::Finished),
            SessionActionView::Finish(Err(CaptureErrorView::Timeout)),
        ),
    decreases waits.len(),
{
    if waits.len() > 0 {
        let earlier = waits.drop_last();
        lemma_silent_stream_times_out(session, earlier, late, buffer);
        assert(silent_polls(waits).drop_last() =~= silent_polls(earlier));
        let waiting = run(session, silent_polls(waits));
        assert(waiting.actions =~= Seq::new(
            waits.len(),
            |i: int| SessionActionView::Wait { millis: POLL_INTERVAL_MS },
        ));
    } else {
        let waiting = run(session, silent_polls(waits));
        assert(waiting.actions =~= Seq::new(
            waits.len(),
            |i: int| SessionActionView::Wait { millis: POLL_INTERVAL_MS },
        ));
    }
}

/// Some look of `waits` came when the time allowed had passed.
pub open spec fn has_late_look(waits: Seq<u64>) -> bool {
    exists|i: int| 0 <= i < waits.len() && waits[i] >= FRAME_TIMEOUT_MS
}

/// The wait is bounded: over any number of looks at an empty slot, the
/// stream is told to stop exactly when one of the looks came after the time
/// allowed had passed, and then once; what follows that look is rejected.
pub proof fn lemma_silent_stream_is_stopped_when_late(session: CaptureSession, waits: Seq<u64>)
    requires
        session.phase is Waiting,
    ensures
        ({
            let outcome = run(session, silent_polls(waits));
            if has_late_look(waits) {
                outcome.session == in_phase(session, SessionPhase::Stopping { received: false })
                    && outcome.closed == 1
            } else {
                outcome.session == session && outcome.closed == 0
            }
        }),
    decreases waits.len(),
{
    if waits.len() > 0 {
        let earlier = waits.drop_last();
        lemma_silent_stream_is_stopped_when_late(session, earlier);
        assert(silent_polls(waits).drop_last() =~= silent_polls(earlier));
        if has_late_look(earlier) {
            let i = choose|i: int| 0 <= i < earlier.len() && earlier[i] >= FRAME_TIMEOUT_MS;
            assert(waits[i] >= FRAME_TIMEOUT_MS);
        } else if waits.last() >= FRAME_TIMEOUT_MS {
            assert(waits[waits.len() - 1] >= FRAME_TIMEOUT_MS);
        } else {
            assert forall|i: int| 0 <= i < waits.len() implies waits[i] < FRAME_TIMEOUT_MS by {
                if i < earlier.len() {
                    assert(earlier[i] == waits[i]);
                }
            }
        }
    }
}

/// While a stream is being started, runs or is being stopped, it was asked
/// for with the size that the session holds.
pub open spec fn started_as_held(outcome: SessionRun) -> bool {
    match outcome.session.phase {
        SessionPhase::Starting | SessionPhase::Waiting | SessionPhase::Stopping { .. } => exists|
            j: int,
        |
            0 <= j < outcome.actions.len() && outcome.actions[j] == start_action(outcome.session),
        _ => true,
    }
}

proof fn lemma_run_keeps_start(display_id: u32, show_cursor: bool, events: Seq<SessionEvent>)
    ensures
        started_as_held(run(CaptureSession::spec_new(display_id, show_cursor), events)),
        run(CaptureSession::spec_new(display_id, show_cursor), events).session.display_id
            == display_id,
        run(CaptureSession::spec_new(display_id, show_cursor), events).session.show_cursor
            == show_cursor,
    decreases events.len(),
{
    if events.len() > 0 {
        lemma_run_keeps_start(display_id, show_cursor, events.drop_last());
        let before = run(CaptureSession::spec_new(display_id, show_cursor), events.drop_last());
        let after = run(CaptureSession::spec_new(display_id, show_cursor), events);
        match after.session.phase {
            SessionPhase::Starting => {
                if before.session.phase is Starting {
                    let j = choose|j: int|
                        0 <= j < before.actions.len() && before.actions[j] == start_action(
                            before.session,
                        );
                    assert(after.actions[j] == start_action(after.session));
                } else {
                    assert(after.actions[after.actions.len() - 1] == start_action(after.session));
                }
            },
            SessionPhase::Waiting | SessionPhase::Stopping { .. } => {
                let j = choose|j: int|
                    0 <= j < before.actions.len() && before.actions[j] == start_action(
                        before.session,
                    );
                assert(after.actions[j] == start_action(after.session));
            },
            _ => {},
        }
    }
}

/// Native resolution: a capture that ends with a frame ends with a frame of
/// the display that was asked for, with the cursor as it was asked for, and
/// of the very size that the stream was started with, which is the size
/// that was read from the display's mode.
pub proof fn lemma_frame_has_the_started_size(
    display_id: u32,
    show_cursor: bool,
    events: Seq<SessionEvent>,
)
    requires
        events.len() > 0,
        run(CaptureSession::spec_new(display_id, show_cursor), events).actions.last() matches SessionActionView::Finish(
            Ok(_),
        ),
    ensures
        ({
            let outcome = run(CaptureSession::spec_new(display_id, show_cursor), events);
            let result = outcome.actions.last()->Finish_0->Ok_0;
            &&& result.native_id == display_id
            &&& result.show_cursor == show_cursor
            &&& result.width == result.pixel_buffer.width
            &&& result.height == result.pixel_buffer.height
            &&& result.width <= u32::MAX
            &&& result.height <= u32::MAX
            &&& exists|j: int|
                0 <= j < outcome.actions.len() && #[trigger] outcome.actions[j]
                    == SessionActionView::StartStream(
                    StreamSetup {
                        display_id,
                        width: result.width as u32,
                        height: result.height as u32,
                        show_cursor,
                        pixel_format: PixelFormat::Bgra,
                    },
                )
        }),
{
    let start = CaptureSession::spec_new(display_id, show_cursor);
    lemma_run_keeps_start(display_id, show_cursor, events.drop_last());
    let before = run(start, events.drop_last());
    let outcome = run(start, events);
    let result = outcome.actions.last()->Finish_0->Ok_0;
    assert(before.session.phase is Stopping);
    let j = choose|j: int|
        0 <= j < before.actions.len() && before.actions[j] == start_action(before.session);
    assert(outcome.actions[j] == SessionActionView::StartStream(
        StreamSetup {
            display_id,
            width: before.session.width,
            height: before.session.height,
            show_cursor,
            pixel_format: PixelFormat::Bgra,
        },
    ));
}

} // verus!
