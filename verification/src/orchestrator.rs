//! The capture state of one display: written once by the capturing thread,
//! read by every waiter.

use crate::error::{CaptureError, CaptureErrorView};
use crate::frame::{outcome_view, Frame, FrameView};
use crate::geometry::{WindowEntry, WindowInfo};
use vstd::prelude::*;

verus! {

/// What a capture state holds, as plain values.
pub struct CaptureStateView {
    pub frame: Option<FrameView>,
    pub windows: Option<Seq<WindowEntry>>,
    pub error: Option<Seq<char>>,
    pub done: bool,
}

/// The text under which a failed capture is kept.
pub open spec fn failure_text(error: CaptureErrorView) -> Seq<char> {
    "capscreen failed: "@ + error.message_text()
}

impl CaptureStateView {
    /// The state before anything was published.
    pub open spec fn pending() -> CaptureStateView {
        CaptureStateView { frame: None, windows: None, error: None, done: false }
    }

    /// The state that a first publication leaves.
    pub open spec fn published(
        windows: Seq<WindowEntry>,
        result: Result<FrameView, CaptureErrorView>,
    ) -> CaptureStateView {
        match result {
            Ok(frame) => CaptureStateView {
                frame: Some(frame),
                windows: Some(windows),
                error: None,
                done: true,
            },
            Err(error) => CaptureStateView {
                frame: None,
                windows: None,
                error: Some(failure_text(error)),
                done: true,
            },
        }
    }

    /// One publication: it settles a pending state and leaves a settled one
    /// as it is.
    pub open spec fn publish(
        self,
        windows: Seq<WindowEntry>,
        result: Result<FrameView, CaptureErrorView>,
    ) -> CaptureStateView {
        if self.done {
            self
        } else {
            CaptureStateView::published(windows, result)
        }
    }

    /// The state is one that publications can lead to: nothing is set while
    /// it is pending; once it is done, either the frame and the windows are
    /// set, or the error is, and never both.
    pub open spec fn wf(self) -> bool {
        if self.done {
            &&& self.frame is Some <==> self.error is None
            &&& self.windows is Some <==> self.frame is Some
        } else {
            self.frame is None && self.windows is None && self.error is None
        }
    }

    /// Which of the three parts are set.
    pub open spec fn presence(self) -> (bool, bool, bool) {
        (self.frame is Some, self.windows is Some, self.error is Some)
    }
}

/// A publication: the window list and what the backend returned.
pub struct Publication {
    pub windows: Seq<WindowEntry>,
    pub result: Result<FrameView, CaptureErrorView>,
}

/// The state after the publications of `attempts`, in order, from a pending
/// state.
pub open spec fn state_after(attempts: Seq<Publication>) -> CaptureStateView
    decreases attempts.len(),
{
    if attempts.len() == 0 {
        CaptureStateView::pending()
    } else {
        state_after(attempts.drop_last()).publish(attempts.last().windows, attempts.last().result)
    }
}

/// Write-once: whatever is published after the first publication changes
/// nothing, so every later reading sees what the first one left.
pub proof fn lemma_first_publication_stays(attempts: Seq<Publication>)
    requires
        attempts.len() >= 1,
    ensures
        state_after(attempts) == CaptureStateView::published(attempts[0].windows, attempts[0].result),
        state_after(attempts).done,
    decreases attempts.len(),
{
    if attempts.len() == 1 {
        assert(attempts.drop_last().len() == 0);
        assert(state_after(attempts.drop_last()) == CaptureStateView::pending());
    } else {
        lemma_first_publication_stays(attempts.drop_last());
        assert(attempts.drop_last()[0] == attempts[0]);
    }
}

/// A settled state does not move: publishing into it gives it back.
pub proof fn lemma_publish_is_write_once(
    state: CaptureStateView,
    windows: Seq<WindowEntry>,
    result: Result<FrameView, CaptureErrorView>,
)
    requires
        state.done,
    ensures
        state.publish(windows, result) == state,
        state.publish(windows, result).presence() == state.presence(),
{
}

/// In every state that publications lead to, once it is done exactly one of
/// frame and error is set, and the windows come with the frame.
pub proof fn lemma_done_has_frame_or_error(attempts: Seq<Publication>)
    ensures
        state_after(attempts).wf(),
        state_after(attempts).done ==> (state_after(attempts).frame is Some) != (state_after(
            attempts,
        ).error is Some),
        state_after(attempts).done <==> attempts.len() >= 1,
    decreases attempts.len(),
{
    if attempts.len() >= 1 {
        lemma_first_publication_stays(attempts);
    }
}

/// The result of one display's capture, published once by the thread that
/// captures and read by any number of waiters.
pub struct CaptureState {
    frame: Option<Frame>,
    windows: Option<Vec<WindowInfo>>,
    error: Option<String>,
    done: bool,
}

/// What a reader finds in a capture state.
pub enum CaptureOutcome<'a> {
    /// Nothing was published yet: the reader has to wait.
    Pending,
    /// The capture failed, with this text.
    Failed(&'a String),
    /// The capture succeeded.
    Captured { frame: &'a Frame, windows: &'a Vec<WindowInfo> },
}

impl View for CaptureState {
    type V = CaptureStateView;

    closed spec fn view(&self) -> CaptureStateView {
        CaptureStateView {
            frame: match self.frame {
                Some(frame) => Some(frame@),
                None => None,
            },
            windows: match self.windows {
                Some(list) => Some(list.deep_view()),
                None => None,
            },
            error: match self.error {
                Some(text) => Some(text@),
                None => None,
            },
            done: self.done,
        }
    }
}

impl CaptureState {
    #[verifier::type_invariant]
    spec fn settled_or_empty(self) -> bool {
        self@.wf()
    }

    /// A state in which nothing is published.
    pub fn new() -> (state: CaptureState)
        ensures
            state@ == CaptureStateView::pending(),
    {
        CaptureState { frame: None, windows: None, error: None, done: false }
    }

    /// Publishes the outcome of a capture: the frame with the window list,
    /// or the error. Only the first publication is taken; the answer says
    /// whether this one was.
    pub fn publish(&mut self, windows: Vec<WindowInfo>, result: Result<Frame, CaptureError>) -> (taken:
        bool)
        ensures
            taken == !old(self)@.done,
            final(self)@ == old(self)@.publish(windows.deep_view(), outcome_view(result)),
            old(self)@.done ==> *final(self) == *old(self),
            final(self)@.done,
            final(self)@.wf(),
    {
        proof {
            use_type_invariant(&*self);
        }
        if self.done {
            return false;
        }
        match result {
            Ok(frame) => {
                *self = CaptureState {
                    frame: Some(frame),
                    windows: Some(windows),
                    error: None,
                    done: true,
                };
            },
            Err(error) => {
                let text = String::from_str("capscreen failed: ").concat(error.message().as_str());
                *self = CaptureState { frame: None, windows: None, error: Some(text), done: true };
            },
        }
        true
    }

    /// Which of frame, windows and error are set, in that order.
    pub fn presence(&self) -> (set: (bool, bool, bool))
        ensures
            set == self@.presence(),
            self@.wf(),
            self@.done ==> set.0 != set.2 && set.1 == set.0,
            !self@.done ==> set == (false, false, false),
    {
        proof {
            use_type_invariant(self);
        }
        (self.frame.is_some(), self.windows.is_some(), self.error.is_some())
    }

    /// Whether a result was published. A waiter sleeps while this is false.
    pub fn is_done(&self) -> (done: bool)
        ensures
            done == self@.done,
    {
        self.done
    }

    /// What a reader finds: nothing yet, the error, or the frame with its
    /// windows.
    pub fn outcome(&self) -> (found: CaptureOutcome<'_>)
        ensures
            self@.wf(),
            match found {
                CaptureOutcome::Pending => !self@.done,
                CaptureOutcome::Failed(text) => self@.done && self@.error == Some(text@)
                    && self@.frame is None && self@.windows is None,
                CaptureOutcome::Captured { frame, windows } => self@.done && self@.error is None
                    && self@.frame == Some(frame@) && self@.windows == Some(windows.deep_view()),
            },
    {
        proof {
            use_type_invariant(self);
        }
        if !self.done {
            return CaptureOutcome::Pending;
        }
        match &self.error {
            Some(text) => CaptureOutcome::Failed(text),
            None => match (&self.frame, &self.windows) {
                (Some(frame), Some(windows)) => CaptureOutcome::Captured { frame, windows },
                _ => CaptureOutcome::Pending,
            },
        }
    }
}

/// The status of an answer that carries what was asked for.
pub const STATUS_OK: u16 = 200;

/// The status of an answer that carries the capture's error.
pub const STATUS_FAILED: u16 = 500;

/// The body that tells a reader of the window list that the capture
/// failed: a JSON object with the text under `error`.
pub open spec fn error_body_text(error: Seq<char>) -> Seq<char> {
    "{\"error\": \""@ + error + "\"}"@
}

impl<'a> CaptureOutcome<'a> {
    /// The status to answer a request with: none while the capture is
    /// pending, `STATUS_FAILED` with the error, `STATUS_OK` with the frame
    /// or the window list.
    pub fn status(&self) -> (status: Option<u16>)
        ensures
            status == match *self {
                CaptureOutcome::Pending => None::<u16>,
                CaptureOutcome::Failed(_) => Some(STATUS_FAILED),
                CaptureOutcome::Captured { .. } => Some(STATUS_OK),
            },
    {
        match self {
            CaptureOutcome::Pending => None,
            CaptureOutcome::Failed(_) => Some(STATUS_FAILED),
            CaptureOutcome::Captured { .. } => Some(STATUS_OK),
        }
    }
}

/// Writes the body that answers a request for the window list after a
/// failed capture.
pub fn error_body(error: &String) -> (body: String)
    ensures
        body@ == error_body_text(error@),
{
    let mut body = String::from_str("{\"error\": \"");
    body.append(error.as_str());
    body.append("\"}");
    body
}

/// What the capturing thread does next.
#[derive(Clone, Copy, Debug, PartialEq, Eq, Structural)]
pub enum JobStep {
    /// List the display's windows and hand them to `windows_listed`.
    ListWindows,
    /// Capture the display and hand the result to `frame_captured`.
    CaptureFrame,
    /// Lock the capture state, call `publish_into`, wake all waiters.
    Publish,
    /// Nothing is left to do.
    Finished,
}

/// A capturing thread's work as plain values.
pub struct CaptureJobView {
    pub windows: Option<Seq<WindowEntry>>,
    pub result: Option<Result<FrameView, CaptureErrorView>>,
    pub published: bool,
}

impl CaptureJobView {
    /// The step that is due.
    pub open spec fn step(self) -> JobStep {
        if self.published {
            JobStep::Finished
        } else if self.windows is None {
            JobStep::ListWindows
        } else if self.result is None {
            JobStep::CaptureFrame
        } else {
            JobStep::Publish
        }
    }
}

/// The work of the thread that captures one display: the windows are
/// listed first, the frame is captured against the same screen after that,
/// and both are published together.
pub struct CaptureJob {
    windows: Option<Vec<WindowInfo>>,
    result: Option<Result<Frame, CaptureError>>,
    published: bool,
}

impl View for CaptureJob {
    type V = CaptureJobView;

    closed spec fn view(&self) -> CaptureJobView {
        CaptureJobView {
            windows: match self.windows {
                Some(list) => Some(list.deep_view()),
                None => None,
            },
            result: match self.result {
                Some(result) => Some(outcome_view(result)),
                None => None,
            },
            published: self.published,
        }
    }
}

impl CaptureJob {
    /// A job of which nothing is done.
    pub fn new() -> (job: CaptureJob)
        ensures
            job@ == (CaptureJobView { windows: None, result: None, published: false }),
    {
        CaptureJob { windows: None, result: None, published: false }
    }

    /// The step that is due.
    pub fn next_step(&self) -> (step: JobStep)
        ensures
            step == self@.step(),
    {
        if self.published {
            JobStep::Finished
        } else if self.windows.is_none() {
            JobStep::ListWindows
        } else if self.result.is_none() {
            JobStep::CaptureFrame
        } else {
            JobStep::Publish
        }
    }

    /// Takes the window list. It is taken only when listing is due.
    pub fn windows_listed(&mut self, windows: Vec<WindowInfo>) -> (taken: bool)
        ensures
            taken == (old(self)@.step() == JobStep::ListWindows),
            taken ==> final(self)@ == (CaptureJobView {
                windows: Some(windows.deep_view()),
                ..old(self)@
            }),
            !taken ==> final(self)@ == old(self)@,
    {
        match self.next_step() {
            JobStep::ListWindows => {
                self.windows = Some(windows);
                true
            },
            _ => false,
        }
    }

    /// Takes what the capture returned. It is taken only when capturing is
    /// due, that is after the windows were listed.
    pub fn frame_captured(&mut self, result: Result<Frame, CaptureError>) -> (taken: bool)
        ensures
            taken == (old(self)@.step() == JobStep::CaptureFrame),
            taken ==> final(self)@ == (CaptureJobView {
                result: Some(outcome_view(result)),
                ..old(self)@
            }),
            !taken ==> final(self)@ == old(self)@,
    {
        match self.next_step() {
            JobStep::CaptureFrame => {
                self.result = Some(result);
                true
            },
            _ => false,
        }
    }

    /// Publishes the windows and the result into `state`, in one step. It
    /// happens only when publishing is due; then the job is finished.
    pub fn publish_into(&mut self, state: &mut CaptureState) -> (done: bool)
        ensures
            done == (old(self)@.step() == JobStep::Publish),
            done ==> final(self)@.step() == JobStep::Finished && final(state)@ == old(
                state,
            )@.publish(old(self)@.windows->Some_0, old(self)@.result->Some_0),
            !done ==> final(self)@ == old(self)@ && *final(state) == *old(state),
            final(state)@.wf(),
    {
        match self.next_step() {
            JobStep::Publish => {
                let windows = self.windows.take();
                let result = self.result.take();
                self.published = true;
                match (windows, result) {
                    (Some(windows), Some(result)) => {
                        state.publish(windows, result);
                    },
                    _ => {},
                }
                true
            },
            _ => {
                proof {
                    use_type_invariant(&*state);
                }
                false
            },
        }
    }
}

} // verus!
