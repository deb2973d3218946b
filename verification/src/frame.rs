//! The frame that a capture returns.

use crate::error::{CaptureError, CaptureErrorView};
use crate::pixels::{bgra_to_rgba_opaque, rgba_opaque};
use vstd::prelude::*;

verus! {

/// One still image of a display: red-green-blue-alpha, straight alpha, eight
/// bits a channel, rows from the top, tightly packed.
#[derive(Debug, Clone, PartialEq, Eq)]
pub struct Frame {
    pub data: Vec<u8>,
    pub width: u32,
    pub height: u32,
}

/// A frame as plain values.
pub struct FrameView {
    pub data: Seq<u8>,
    pub width: u32,
    pub height: u32,
}

impl View for Frame {
    type V = FrameView;

    open spec fn view(&self) -> FrameView {
        FrameView { data: self.data@, width: self.width, height: self.height }
    }
}

/// What a capture returned, as plain values.
pub open spec fn outcome_view(result: Result<Frame, CaptureError>) -> Result<
    FrameView,
    CaptureErrorView,
> {
    match result {
        Ok(frame) => Ok(frame@),
        Err(error) => Err(error@),
    }
}

/// Bytes that a tightly packed image of `width` by `height` pixels takes.
pub open spec fn packed_len(width: int, height: int) -> int {
    width * height * 4
}

/// The detail carried by the error for a buffer whose length does not fit
/// its dimensions.
pub open spec fn size_mismatch_text() -> Seq<char> {
    "Buffer length does not match the frame size"@
}

/// `error` says that a buffer's length does not fit its dimensions.
pub open spec fn is_size_mismatch(error: CaptureError) -> bool {
    error@ == CaptureErrorView::ImageProcessingError(size_mismatch_text())
}

impl Frame {
    /// The buffer holds exactly `width * height` pixels.
    pub open spec fn spec_is_packed(&self) -> bool {
        self.data@.len() == packed_len(self.width as int, self.height as int)
    }

    /// Whether the buffer holds exactly `width * height` pixels.
    #[verifier::when_used_as_spec(spec_is_packed)]
    pub fn is_packed(&self) -> (packed: bool)
        ensures
            packed == self.spec_is_packed(),
    {
        has_packed_len(self.data.len(), self.width, self.height)
    }

    /// Makes a frame out of pixels that were read in blue-green-red order:
    /// the channels are reordered and every pixel is made opaque.
    ///
    /// Fails, with `ImageProcessingError`, exactly when the buffer does not
    /// hold `width * height` pixels.
    pub fn from_bgra(data: Vec<u8>, width: u32, height: u32) -> (made: Result<Frame, CaptureError>)
        ensures
            match made {
                Ok(frame) => {
                    &&& data@.len() == packed_len(width as int, height as int)
                    &&& frame@ == (FrameView { data: rgba_opaque(data@), width, height })
                    &&& frame.is_packed()
                },
                Err(error) => {
                    &&& data@.len() != packed_len(width as int, height as int)
                    &&& is_size_mismatch(error)
                },
            },
    {
        if !has_packed_len(data.len(), width, height) {
            return Err(
                CaptureError::ImageProcessingError(
                    String::from_str("Buffer length does not match the frame size"),
                ),
            );
        }
        let mut data = data;
        bgra_to_rgba_opaque(&mut data);
        Ok(Frame { data, width, height })
    }
}

/// Whether `len` bytes are exactly `width * height` pixels.
pub fn has_packed_len(len: usize, width: u32, height: u32) -> (fits: bool)
    ensures
        fits == (len == packed_len(width as int, height as int)),
{
    assert((width as int) * (height as int) <= 0xffff_ffff * 0xffff_ffff) by (nonlinear_arith)
        requires
            0 <= width <= 0xffff_ffff,
            0 <= height <= 0xffff_ffff,
    ;
    let pixels: u64 = (width as u64) * (height as u64);
    let wanted: u128 = (pixels as u128) * 4;
    (len as u128) == wanted
}

} // verus!
