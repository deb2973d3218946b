//! The errors of a capture and their texts.

use crate::text::{decimal, push_decimal};
use vstd::prelude::*;

verus! {

/// Why a capture produced no frame.
///
/// The first five come from acquiring a frame through a capture stream, the
/// last three from copying one out of the screen or a duplication surface.
#[derive(Debug, Clone, PartialEq, Eq)]
pub enum CaptureError {
    /// The list of content that can be captured could not be had.
    ContentNotAvailable(String),
    /// No active display carries the identifier that was asked for.
    DisplayNotFound(usize),
    /// The capture stream could not be created or started.
    StreamError(String),
    /// No frame arrived within the time allowed.
    Timeout,
    /// The pixels that arrived could not be read or reordered.
    ImageProcessingError(String),
    /// No capture backend exists for the platform.
    UnsupportedPlatform,
    /// The screen contents could not be copied.
    FailedToCaptureImage,
    /// The frame's buffer could not be had.
    FailedToGetBuffer,
}

/// A capture error as plain values: the detail texts as sequences of
/// characters.
pub enum CaptureErrorView {
    ContentNotAvailable(Seq<char>),
    DisplayNotFound(usize),
    StreamError(Seq<char>),
    Timeout,
    ImageProcessingError(Seq<char>),
    UnsupportedPlatform,
    FailedToCaptureImage,
    FailedToGetBuffer,
}

impl CaptureErrorView {
    /// The text that describes the error to a person.
    pub open spec fn message_text(self) -> Seq<char> {
        match self {
            CaptureErrorView::ContentNotAvailable(detail) => "Not available: "@ + detail,
            CaptureErrorView::DisplayNotFound(id) => "Display "@ + decimal(id as nat)
                + " not found"@,
            CaptureErrorView::StreamError(detail) => "Stream error: "@ + detail,
            CaptureErrorView::Timeout => "Timeout"@,
            CaptureErrorView::ImageProcessingError(detail) => "Image processing error: "@
                + detail,
            CaptureErrorView::UnsupportedPlatform => "UnsupportedPlatform"@,
            CaptureErrorView::FailedToCaptureImage => "FailedToCaptureImage"@,
            CaptureErrorView::FailedToGetBuffer => "FailedToGetBuffer"@,
        }
    }
}

impl View for CaptureError {
    type V = CaptureErrorView;

    open spec fn view(&self) -> CaptureErrorView {
        match *self {
            CaptureError::ContentNotAvailable(detail) => CaptureErrorView::ContentNotAvailable(
                detail@,
            ),
            CaptureError::DisplayNotFound(id) => CaptureErrorView::DisplayNotFound(id),
            CaptureError::StreamError(detail) => CaptureErrorView::StreamError(detail@),
            CaptureError::Timeout => CaptureErrorView::Timeout,
            CaptureError::ImageProcessingError(detail) => CaptureErrorView::ImageProcessingError(
                detail@,
            ),
            CaptureError::UnsupportedPlatform => CaptureErrorView::UnsupportedPlatform,
            CaptureError::FailedToCaptureImage => CaptureErrorView::FailedToCaptureImage,
            CaptureError::FailedToGetBuffer => CaptureErrorView::FailedToGetBuffer,
        }
    }
}

impl CaptureError {
    /// Renders the error for display.
    pub fn message(&self) -> (text: String)
        ensures
            text@ == self@.message_text(),
    {
        match self {
            CaptureError::ContentNotAvailable(detail) => {
                String::from_str("Not available: ").concat(detail.as_str())
            },
            CaptureError::DisplayNotFound(id) => {
                let mut text = String::from_str("Display ");
                push_decimal(&mut text, *id as u64);
                text.append(" not found");
                text
            },
            CaptureError::StreamError(detail) => {
                String::from_str("Stream error: ").concat(detail.as_str())
            },
            CaptureError::Timeout => String::from_str("Timeout"),
            CaptureError::ImageProcessingError(detail) => {
                String::from_str("Image processing error: ").concat(detail.as_str())
            },
            CaptureError::UnsupportedPlatform => String::from_str("UnsupportedPlatform"),
            CaptureError::FailedToCaptureImage => String::from_str("FailedToCaptureImage"),
            CaptureError::FailedToGetBuffer => String::from_str("FailedToGetBuffer"),
        }
    }
}

} // verus!
