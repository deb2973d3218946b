use quickcap::blit::{
    BlitAction, BlitEvent, BlitPhase, BlitSession, DesktopArea, ReadbackFormat,
};
use quickcap::buffer::{CaptureResult, PixelBuffer};
use quickcap::session::{
    contains_id, CaptureSession, PixelFormat, SessionAction, SessionEvent, SessionPhase,
    StreamSetup, FRAME_TIMEOUT_MS, POLL_INTERVAL_MS,
};
use quickcap::slot::{FrameSlot, SampleKind};
use quickcap::{AppConfig, AppConfigBuilder, CaptureError, Frame};

fn one_pixel_buffer() -> PixelBuffer {
    PixelBuffer { bytes: vec![10, 20, 30, 255], width: 1, height: 1, bytes_per_row: 4 }
}

fn waiting_session(display_id: u32, show_cursor: bool) -> CaptureSession {
    let mut session = CaptureSession::new(display_id, show_cursor);
    assert_eq!(session.step(SessionEvent::Begin), SessionAction::ListContent);
    assert_eq!(
        session.step(SessionEvent::ContentListed { display_ids: vec![1, display_id, 9] }),
        SessionAction::ReadMode { display_id }
    );
    assert_eq!(
        session.step(SessionEvent::ModeRead { size: Some((1, 1)) }),
        SessionAction::StartStream(StreamSetup {
            display_id,
            width: 1,
            height: 1,
            show_cursor,
            pixel_format: PixelFormat::Bgra,
        })
    );
    assert_eq!(
        session.step(SessionEvent::StreamStarted),
        SessionAction::Wait { millis: POLL_INTERVAL_MS }
    );
    assert_eq!(session.phase, SessionPhase::Waiting);
    session
}

#[test]
fn stream_capture_returns_the_first_frame() {
    let mut session = waiting_session(5, true);
    assert_eq!(
        session.step(SessionEvent::Polled { elapsed_ms: 10, filled: false }),
        SessionAction::Wait { millis: 10 }
    );
    assert_eq!(
        session.step(SessionEvent::Polled { elapsed_ms: 20, filled: true }),
        SessionAction::StopStream
    );
    assert_eq!(session.phase, SessionPhase::Stopping { received: true });
    assert!(!session.is_finished());
    assert_eq!(
        session.step(SessionEvent::StreamStopped { buffer: Some(one_pixel_buffer()) }),
        SessionAction::Finish(Ok(CaptureResult {
            pixel_buffer: one_pixel_buffer(),
            width: 1,
            height: 1,
            native_id: 5,
            show_cursor: true,
        }))
    );
    assert!(session.is_finished());
}

#[test]
fn stream_is_started_at_the_native_size() {
    let mut session = CaptureSession::new(9, true);
    assert_eq!((session.width, session.height), (0, 0));
    session.step(SessionEvent::Begin);
    session.step(SessionEvent::ContentListed { display_ids: vec![9] });
    assert_eq!(
        session.step(SessionEvent::ModeRead { size: Some((3024, 1964)) }),
        SessionAction::StartStream(StreamSetup {
            display_id: 9,
            width: 3024,
            height: 1964,
            show_cursor: true,
            pixel_format: PixelFormat::Bgra,
        })
    );
    assert_eq!((session.width, session.height), (3024, 1964));
    assert_eq!(session.phase, SessionPhase::Starting);
}

#[test]
fn frame_of_another_size_is_a_processing_error() {
    let mut session = waiting_session(5, true);
    session.step(SessionEvent::Polled { elapsed_ms: 10, filled: true });
    let scaled = PixelBuffer { bytes: vec![0; 16], width: 2, height: 2, bytes_per_row: 8 };
    assert_eq!(
        session.step(SessionEvent::StreamStopped { buffer: Some(scaled) }),
        SessionAction::Finish(Err(CaptureError::ImageProcessingError(String::from(
            "Frame size does not match the display mode"
        ))))
    );
    assert!(session.is_finished());
}

#[test]
fn frame_that_arrives_late_is_still_taken() {
    let mut session = waiting_session(5, false);
    assert_eq!(
        session.step(SessionEvent::Polled { elapsed_ms: 5000, filled: true }),
        SessionAction::StopStream
    );
    assert_eq!(session.phase, SessionPhase::Stopping { received: true });
}

#[test]
fn unknown_display_is_not_found() {
    let mut session = CaptureSession::new(77, false);
    session.step(SessionEvent::Begin);
    assert_eq!(
        session.step(SessionEvent::ContentListed { display_ids: vec![1, 2, 3] }),
        SessionAction::Finish(Err(CaptureError::DisplayNotFound(77)))
    );
    assert!(session.is_finished());
    assert!(contains_id(&vec![1, 2, 3], 3));
    assert!(!contains_id(&vec![1, 2, 3], 77));
    assert!(!contains_id(&Vec::new(), 0));
}

#[test]
fn empty_display_list_is_not_available() {
    let mut session = CaptureSession::new(1, false);
    session.step(SessionEvent::Begin);
    assert_eq!(
        session.step(SessionEvent::ContentListed { display_ids: Vec::new() }),
        SessionAction::Finish(Err(CaptureError::ContentNotAvailable(String::from(
            "No displays found"
        ))))
    );
}

#[test]
fn failed_content_listing_is_not_available() {
    let mut session = CaptureSession::new(1, false);
    session.step(SessionEvent::Begin);
    assert_eq!(
        session.step(SessionEvent::ContentFailed { detail: String::from("permission denied") }),
        SessionAction::Finish(Err(CaptureError::ContentNotAvailable(String::from(
            "permission denied"
        ))))
    );
    assert!(session.is_finished());
}

#[test]
fn display_without_a_mode_is_not_available() {
    let mut session = CaptureSession::new(42, false);
    session.step(SessionEvent::Begin);
    session.step(SessionEvent::ContentListed { display_ids: vec![42] });
    assert_eq!(
        session.step(SessionEvent::ModeRead { size: None }),
        SessionAction::Finish(Err(CaptureError::ContentNotAvailable(String::from(
            "无法获取显示器 42 的显示模式"
        ))))
    );
}

#[test]
fn mode_that_does_not_fit_is_not_available() {
    let mut session = CaptureSession::new(42, false);
    session.step(SessionEvent::Begin);
    session.step(SessionEvent::ContentListed { display_ids: vec![42] });
    assert_eq!(
        session.step(SessionEvent::ModeRead { size: Some((4294967296, 1080)) }),
        SessionAction::Finish(Err(CaptureError::ContentNotAvailable(String::from(
            "无法获取显示器 42 的显示模式"
        ))))
    );
    let mut widest = CaptureSession::new(42, false);
    widest.step(SessionEvent::Begin);
    widest.step(SessionEvent::ContentListed { display_ids: vec![42] });
    assert_eq!(
        widest.step(SessionEvent::ModeRead { size: Some((4294967295, 4294967295)) }),
        SessionAction::StartStream(StreamSetup {
            display_id: 42,
            width: 4294967295,
            height: 4294967295,
            show_cursor: false,
            pixel_format: PixelFormat::Bgra,
        })
    );
}

#[test]
fn stream_that_does_not_start_is_a_stream_error() {
    let mut session = CaptureSession::new(42, false);
    session.step(SessionEvent::Begin);
    session.step(SessionEvent::ContentListed { display_ids: vec![42] });
    session.step(SessionEvent::ModeRead { size: Some((800, 600)) });
    assert_eq!(
        session.step(SessionEvent::StreamFailed { detail: String::from("busy") }),
        SessionAction::Finish(Err(CaptureError::StreamError(String::from("busy"))))
    );
    assert!(session.is_finished());
}

#[test]
fn silent_stream_times_out_and_is_stopped_once() {
    let mut session = waiting_session(5, true);
    let mut stops = 0;
    let mut elapsed: u64 = 0;
    let mut waits = 0;
    loop {
        elapsed += POLL_INTERVAL_MS;
        match session.step(SessionEvent::Polled { elapsed_ms: elapsed, filled: false }) {
            SessionAction::Wait { millis } => {
                assert_eq!(millis, 10);
                assert!(elapsed < FRAME_TIMEOUT_MS);
                waits += 1;
            }
            SessionAction::StopStream => {
                stops += 1;
                break;
            }
            _ => panic!("a waiting session sleeps or stops"),
        }
    }
    assert_eq!(elapsed, 1000);
    assert_eq!(FRAME_TIMEOUT_MS, 1000);
    assert_eq!(waits, 99);
    assert_eq!(session.phase, SessionPhase::Stopping { received: false });
    assert_eq!(
        session.step(SessionEvent::Polled { elapsed_ms: 1010, filled: false }),
        SessionAction::Rejected
    );
    assert_eq!(
        session.step(SessionEvent::StreamStopped { buffer: None }),
        SessionAction::Finish(Err(CaptureError::Timeout))
    );
    assert_eq!(stops, 1);
    assert!(session.is_finished());
    assert_eq!(session.step(SessionEvent::StreamStopped { buffer: None }), SessionAction::Rejected);
}

#[test]
fn timeout_holds_whatever_the_slot_held() {
    let mut session = waiting_session(5, true);
    assert_eq!(
        session.step(SessionEvent::Polled { elapsed_ms: 999, filled: false }),
        SessionAction::Wait { millis: 10 }
    );
    assert_eq!(
        session.step(SessionEvent::Polled { elapsed_ms: 1000, filled: false }),
        SessionAction::StopStream
    );
    assert_eq!(
        session.step(SessionEvent::StreamStopped { buffer: Some(one_pixel_buffer()) }),
        SessionAction::Finish(Err(CaptureError::Timeout))
    );
}

#[test]
fn reported_frame_that_is_gone_is_a_processing_error() {
    let mut session = waiting_session(5, true);
    session.step(SessionEvent::Polled { elapsed_ms: 10, filled: true });
    assert_eq!(
        session.step(SessionEvent::StreamStopped { buffer: None }),
        SessionAction::Finish(Err(CaptureError::ImageProcessingError(String::from(
            "No data received"
        ))))
    );
}

#[test]
fn events_out_of_turn_are_rejected() {
    let mut session = CaptureSession::new(1, false);
    let fresh = session;
    assert_eq!(session.step(SessionEvent::StreamStarted), SessionAction::Rejected);
    assert_eq!(
        session.step(SessionEvent::Polled { elapsed_ms: 0, filled: true }),
        SessionAction::Rejected
    );
    assert_eq!(
        session.step(SessionEvent::ContentListed { display_ids: vec![1] }),
        SessionAction::Rejected
    );
    assert_eq!(session.step(SessionEvent::StreamStopped { buffer: None }), SessionAction::Rejected);
    assert_eq!(session, fresh);
    session.step(SessionEvent::Begin);
    assert_eq!(session.step(SessionEvent::Begin), SessionAction::Rejected);
    assert_eq!(session.step(SessionEvent::ModeRead { size: None }), SessionAction::Rejected);
    assert_eq!(session.phase, SessionPhase::ListingContent);
}

#[test]
fn slot_keeps_the_first_screen_frame() {
    let mut slot = FrameSlot::new();
    assert!(!slot.is_filled());
    assert!(!slot.offer(SampleKind::Audio, Some(one_pixel_buffer())));
    assert!(!slot.offer(SampleKind::Microphone, Some(one_pixel_buffer())));
    assert!(!slot.offer(SampleKind::Screen, None));
    assert!(!slot.is_filled());
    assert!(slot.offer(SampleKind::Screen, Some(one_pixel_buffer())));
    assert!(slot.is_filled());
    let later = PixelBuffer { bytes: vec![0; 8], width: 2, height: 1, bytes_per_row: 8 };
    assert!(!slot.offer(SampleKind::Screen, Some(later)));
    assert_eq!(slot.take(), Some(one_pixel_buffer()));
    assert!(!slot.is_filled());
    assert_eq!(slot.take(), None);
}

fn copying_session(area: DesktopArea) -> BlitSession {
    let mut session = BlitSession::new(area);
    assert_eq!(
        session.step(BlitEvent::Begin),
        BlitAction::Acquire { width: area.width, height: area.height }
    );
    assert_eq!(session.step(BlitEvent::Acquired), BlitAction::Copy { area });
    assert_eq!(session.phase, BlitPhase::Copying);
    session
}

#[test]
fn blit_returns_opaque_rgba() {
    let area = DesktopArea { x: -1920, y: 0, width: 1, height: 1 };
    let mut session = copying_session(area);
    assert_eq!(
        session.step(BlitEvent::Copied { ok: true }),
        BlitAction::ReadPixels {
            len: 4,
            format: ReadbackFormat { width: 1, height: -1, planes: 1, bit_count: 32, lines: 1 },
        }
    );
    assert_eq!(
        session.step(BlitEvent::Read { data: vec![10, 20, 30, 0], lines: 1 }),
        BlitAction::Release
    );
    assert!(!session.is_finished());
    assert_eq!(
        session.step(BlitEvent::Released),
        BlitAction::Finish(Ok(Frame { data: vec![30, 20, 10, 255], width: 1, height: 1 }))
    );
    assert!(session.is_finished());
    assert_eq!(session.step(BlitEvent::Released), BlitAction::Rejected);
}

#[test]
fn blit_of_a_desktop_asks_for_all_its_bytes() {
    let area = DesktopArea { x: 0, y: 0, width: 3840, height: 1080 };
    let mut session = copying_session(area);
    assert_eq!(
        session.step(BlitEvent::Copied { ok: true }),
        BlitAction::ReadPixels {
            len: 16588800,
            format: ReadbackFormat {
                width: 3840,
                height: -1080,
                planes: 1,
                bit_count: 32,
                lines: 1080,
            },
        }
    );
    assert_eq!(quickcap::blit::buffer_len(3840, 1080), Some(16588800));
    assert_eq!(quickcap::blit::buffer_len(0, 10), Some(0));
    assert_eq!(quickcap::blit::buffer_len(-1, 10), None);
    assert_eq!(quickcap::blit::buffer_len(10, -1), None);
    assert_eq!(quickcap::blit::buffer_len(i32::MAX, i32::MAX), Some(18446744056529682436));
}

#[test]
fn failed_transfer_releases_and_fails() {
    let mut session = copying_session(DesktopArea { x: 0, y: 0, width: 2, height: 2 });
    assert_eq!(session.step(BlitEvent::Copied { ok: false }), BlitAction::Release);
    assert_eq!(
        session.step(BlitEvent::Read { data: vec![0; 16], lines: 2 }),
        BlitAction::Rejected
    );
    assert_eq!(
        session.step(BlitEvent::Released),
        BlitAction::Finish(Err(CaptureError::FailedToCaptureImage))
    );
}

#[test]
fn readback_without_rows_fails() {
    let mut session = copying_session(DesktopArea { x: 0, y: 0, width: 1, height: 1 });
    session.step(BlitEvent::Copied { ok: true });
    assert_eq!(
        session.step(BlitEvent::Read { data: vec![10, 20, 30, 0], lines: 0 }),
        BlitAction::Release
    );
    assert_eq!(
        session.step(BlitEvent::Released),
        BlitAction::Finish(Err(CaptureError::FailedToCaptureImage))
    );
}

#[test]
fn readback_of_the_wrong_length_fails() {
    let mut session = copying_session(DesktopArea { x: 0, y: 0, width: 1, height: 1 });
    session.step(BlitEvent::Copied { ok: true });
    assert_eq!(session.step(BlitEvent::Read { data: vec![10, 20, 30], lines: 1 }), BlitAction::Release);
    assert_eq!(
        session.step(BlitEvent::Released),
        BlitAction::Finish(Err(CaptureError::FailedToCaptureImage))
    );
}

#[test]
fn area_of_negative_size_releases_and_fails() {
    let mut session = copying_session(DesktopArea { x: 0, y: 0, width: -1, height: 10 });
    assert_eq!(session.step(BlitEvent::Copied { ok: true }), BlitAction::Release);
    assert_eq!(
        session.step(BlitEvent::Released),
        BlitAction::Finish(Err(CaptureError::FailedToCaptureImage))
    );
}

#[test]
fn blit_events_out_of_turn_are_rejected() {
    let area = DesktopArea { x: 0, y: 0, width: 1, height: 1 };
    let mut session = BlitSession::new(area);
    assert_eq!(session.step(BlitEvent::Acquired), BlitAction::Rejected);
    assert_eq!(session.step(BlitEvent::Released), BlitAction::Rejected);
    assert_eq!(session.step(BlitEvent::Copied { ok: true }), BlitAction::Rejected);
    assert_eq!(session, BlitSession::new(area));
    session.step(BlitEvent::Begin);
    assert_eq!(session.step(BlitEvent::Begin), BlitAction::Rejected);
    assert_eq!(session.phase, BlitPhase::Acquiring);
}

#[test]
fn config_builder_sets_debug() {
    assert!(!AppConfig::default().is_debug());
    assert!(!AppConfigBuilder::new().build().is_debug());
    assert!(AppConfigBuilder::new().with_debug(true).build().is_debug());
    assert!(!AppConfigBuilder::new().with_debug(true).with_debug(false).build().is_debug());
    assert_eq!(AppConfigBuilder::new().with_debug(false).build(), AppConfig::default());
}

#[test]
fn config_from_arguments_looks_for_the_debug_switch() {
    let plain = vec![String::from("quickcap")];
    assert!(!AppConfig::from_args(&plain).is_debug());
    let debug = vec![String::from("quickcap"), String::from("--debug")];
    assert!(AppConfig::from_args(&debug).is_debug());
    let near = vec![String::from("--debug "), String::from("-debug"), String::from("--DEBUG")];
    assert!(!AppConfig::from_args(&near).is_debug());
    assert!(!AppConfig::from_args(&Vec::new()).is_debug());
    let later = vec![String::from("a"), String::from("b"), String::from("--debug"), String::from("c")];
    assert!(AppConfig::from_args(&later).is_debug());
}
