use quickcap::orchestrator::{
    error_body, CaptureJob, CaptureOutcome, CaptureState, JobStep, STATUS_FAILED, STATUS_OK,
};
use quickcap::{CaptureError, Frame, Rect, WindowInfo};

fn sample_frame() -> Frame {
    Frame { data: vec![30, 20, 10, 255], width: 1, height: 1 }
}

fn sample_windows() -> Vec<WindowInfo> {
    vec![WindowInfo {
        name: String::from("Editor"),
        bounds: Rect { x: 10, y: 20, width: 300, height: 200 },
    }]
}

#[test]
fn new_state_is_pending_and_empty() {
    let state = CaptureState::new();
    assert!(!state.is_done());
    assert_eq!(state.presence(), (false, false, false));
    assert!(matches!(state.outcome(), CaptureOutcome::Pending));
    assert_eq!(state.outcome().status(), None);
}

#[test]
fn publishing_a_frame_sets_frame_and_windows() {
    let mut state = CaptureState::new();
    assert!(state.publish(sample_windows(), Ok(sample_frame())));
    assert!(state.is_done());
    assert_eq!(state.presence(), (true, true, false));
    match state.outcome() {
        CaptureOutcome::Captured { frame, windows } => {
            assert_eq!(*frame, sample_frame());
            assert_eq!(*windows, sample_windows());
        }
        _ => panic!("a published frame must be found"),
    }
    assert_eq!(state.outcome().status(), Some(STATUS_OK));
    assert_eq!(STATUS_OK, 200);
}

#[test]
fn publishing_an_error_sets_only_the_error() {
    let mut state = CaptureState::new();
    assert!(state.publish(sample_windows(), Err(CaptureError::FailedToCaptureImage)));
    assert!(state.is_done());
    assert_eq!(state.presence(), (false, false, true));
    match state.outcome() {
        CaptureOutcome::Failed(text) => {
            assert_eq!(text.as_str(), "capscreen failed: FailedToCaptureImage")
        }
        _ => panic!("a published error must be found"),
    }
    assert_eq!(state.outcome().status(), Some(STATUS_FAILED));
    assert_eq!(STATUS_FAILED, 500);
}

#[test]
fn error_text_carries_the_message_of_the_error() {
    let mut state = CaptureState::new();
    state.publish(Vec::new(), Err(CaptureError::DisplayNotFound(7)));
    match state.outcome() {
        CaptureOutcome::Failed(text) => {
            assert_eq!(text.as_str(), "capscreen failed: Display 7 not found")
        }
        _ => panic!("a published error must be found"),
    }
}

#[test]
fn a_second_publication_changes_nothing() {
    let mut state = CaptureState::new();
    assert!(state.publish(sample_windows(), Ok(sample_frame())));
    let first = state.presence();
    assert!(!state.publish(Vec::new(), Err(CaptureError::Timeout)));
    assert!(!state.publish(Vec::new(), Ok(Frame { data: vec![0; 8], width: 2, height: 1 })));
    assert_eq!(state.presence(), first);
    for _ in 0..5 {
        assert_eq!(state.presence(), (true, true, false));
        match state.outcome() {
            CaptureOutcome::Captured { frame, windows } => {
                assert_eq!(*frame, sample_frame());
                assert_eq!(*windows, sample_windows());
            }
            _ => panic!("the first publication must stay"),
        }
    }
}

#[test]
fn a_published_error_is_not_replaced_by_a_frame() {
    let mut state = CaptureState::new();
    assert!(state.publish(Vec::new(), Err(CaptureError::Timeout)));
    assert!(!state.publish(sample_windows(), Ok(sample_frame())));
    assert_eq!(state.presence(), (false, false, true));
    match state.outcome() {
        CaptureOutcome::Failed(text) => assert_eq!(text.as_str(), "capscreen failed: Timeout"),
        _ => panic!("the first publication must stay"),
    }
}

#[test]
fn exactly_one_of_frame_and_error_once_done() {
    let results: Vec<Result<Frame, CaptureError>> = vec![
        Ok(sample_frame()),
        Err(CaptureError::Timeout),
        Err(CaptureError::UnsupportedPlatform),
        Err(CaptureError::StreamError(String::from("x"))),
    ];
    for result in results {
        let mut state = CaptureState::new();
        state.publish(sample_windows(), result);
        let (frame, windows, error) = state.presence();
        assert!(state.is_done());
        assert_ne!(frame, error);
        assert_eq!(frame, windows);
    }
}

#[test]
fn error_body_is_a_json_object() {
    let body = error_body(&String::from("capscreen failed: Timeout"));
    assert_eq!(body, "{\"error\": \"capscreen failed: Timeout\"}");
    assert_eq!(error_body(&String::new()), "{\"error\": \"\"}");
}

#[test]
fn job_lists_windows_before_it_captures() {
    let mut job = CaptureJob::new();
    let mut state = CaptureState::new();
    assert_eq!(job.next_step(), JobStep::ListWindows);
    assert!(!job.frame_captured(Ok(sample_frame())));
    assert!(!job.publish_into(&mut state));
    assert!(!state.is_done());
    assert_eq!(job.next_step(), JobStep::ListWindows);
    assert!(job.windows_listed(sample_windows()));
    assert_eq!(job.next_step(), JobStep::CaptureFrame);
    assert!(!job.windows_listed(Vec::new()));
    assert!(!job.publish_into(&mut state));
    assert!(job.frame_captured(Ok(sample_frame())));
    assert_eq!(job.next_step(), JobStep::Publish);
    assert!(!job.frame_captured(Err(CaptureError::Timeout)));
    assert!(job.publish_into(&mut state));
    assert_eq!(job.next_step(), JobStep::Finished);
    assert!(!job.publish_into(&mut state));
    match state.outcome() {
        CaptureOutcome::Captured { frame, windows } => {
            assert_eq!(*frame, sample_frame());
            assert_eq!(*windows, sample_windows());
        }
        _ => panic!("the job must have published"),
    }
}

#[test]
fn job_publishes_an_error_without_windows() {
    let mut job = CaptureJob::new();
    let mut state = CaptureState::new();
    assert!(job.windows_listed(sample_windows()));
    assert!(job.frame_captured(Err(CaptureError::FailedToGetBuffer)));
    assert!(job.publish_into(&mut state));
    assert_eq!(state.presence(), (false, false, true));
}

#[test]
fn every_error_has_its_message() {
    assert_eq!(
        CaptureError::ContentNotAvailable(String::from("denied")).message(),
        "Not available: denied"
    );
    assert_eq!(CaptureError::DisplayNotFound(0).message(), "Display 0 not found");
    assert_eq!(CaptureError::DisplayNotFound(4294967295).message(), "Display 4294967295 not found");
    assert_eq!(CaptureError::StreamError(String::from("busy")).message(), "Stream error: busy");
    assert_eq!(CaptureError::Timeout.message(), "Timeout");
    assert_eq!(
        CaptureError::ImageProcessingError(String::from("short")).message(),
        "Image processing error: short"
    );
    assert_eq!(CaptureError::UnsupportedPlatform.message(), "UnsupportedPlatform");
    assert_eq!(CaptureError::FailedToCaptureImage.message(), "FailedToCaptureImage");
    assert_eq!(CaptureError::FailedToGetBuffer.message(), "FailedToGetBuffer");
}
