//! Frames as a capture stream delivers them: rows with padding, read under
//! a lock.

use crate::error::{CaptureError, CaptureErrorView};
use crate::frame::{Frame, FrameView};
use vstd::arithmetic::div_mod::lemma_fundamental_div_mod_converse;
use vstd::prelude::*;
use vstd::slice::slice_subrange;

verus! {

/// The pixels of a frame as a capture stream delivers them: rows of
/// `bytes_per_row` bytes each, of which the first `width * 4` hold pixels in
/// blue-green-red-alpha order and the rest is padding.
#[derive(Debug, Clone, PartialEq, Eq)]
pub struct PixelBuffer {
    pub bytes: Vec<u8>,
    pub width: usize,
    pub height: usize,
    pub bytes_per_row: usize,
}

/// One captured frame of a display, with the buffer that holds it.
#[derive(Debug, Clone, PartialEq, Eq)]
pub struct CaptureResult {
    pub pixel_buffer: PixelBuffer,
    pub width: usize,
    pub height: usize,
    pub native_id: u32,
    pub show_cursor: bool,
}

/// What a read lock gives access to, as plain values.
pub struct CaptureDataView {
    pub bytes: Seq<u8>,
    pub width: usize,
    pub height: usize,
    pub bytes_per_row: usize,
}

/// Read access to a frame's bytes, for as long as the frame is borrowed.
pub struct CaptureDataGuard<'a> {
    bytes: &'a [u8],
    width: usize,
    height: usize,
    bytes_per_row: usize,
}

/// The detail carried by the error for a buffer that is shorter than its
/// rows.
pub open spec fn lock_failed_text() -> Seq<char> {
    "Lock failed: buffer is shorter than its rows"@
}

/// The detail carried by the error for rows that are shorter than the
/// frame is wide, or a frame whose size does not fit 32 bits.
pub open spec fn bad_layout_text() -> Seq<char> {
    "Frame layout is not valid"@
}

/// Where, in a buffer with rows of `stride` bytes, the byte stands that a
/// tightly packed red-green-blue-alpha image of `width` pixels a row has
/// at `k`: same pixel, and the channel that blue-green-red-alpha keeps
/// there.
pub open spec fn source_index(k: int, width: int, stride: int) -> int {
    let pixel = k / 4;
    let channel = k % 4;
    let row = pixel / width;
    let column = pixel % width;
    row * stride + column * 4 + if channel == 0 {
        2
    } else if channel == 2 {
        0
    } else {
        channel
    }
}

/// The tightly packed red-green-blue-alpha image of the `width` by
/// `height` pixels that `bytes` holds in rows of `stride` bytes: the
/// padding is dropped, red and blue change places, alpha stays.
pub open spec fn tight_rgba(bytes: Seq<u8>, width: int, height: int, stride: int) -> Seq<u8> {
    Seq::new((width * height * 4) as nat, |k: int| bytes[source_index(k, width, stride)])
}

proof fn lemma_source_index(x: int, y: int, channel: int, width: int, stride: int)
    requires
        0 <= x < width,
        0 <= y,
        0 <= channel < 4,
    ensures
        source_index((y * width + x) * 4 + channel, width, stride) == y * stride + x * 4 + if channel
            == 0 {
            2
        } else if channel == 2 {
            0
        } else {
            channel
        },
{
    let pixel = y * width + x;
    let k = pixel * 4 + channel;
    lemma_fundamental_div_mod_converse(k, 4, pixel, channel);
    lemma_fundamental_div_mod_converse(pixel, width, y, x);
}

impl CaptureResult {
    /// The buffer holds all `height` rows.
    pub open spec fn rows_fit(&self) -> bool {
        self.height * self.pixel_buffer.bytes_per_row <= self.pixel_buffer.bytes@.len()
    }

    /// The bytes of the `height` rows, padding included.
    pub open spec fn row_bytes(&self) -> Seq<u8> {
        self.pixel_buffer.bytes@.take(self.height * self.pixel_buffer.bytes_per_row)
    }

    /// Locks the frame for reading.
    ///
    /// Fails, with `ImageProcessingError`, exactly when the buffer is too
    /// short to hold `height` rows of `bytes_per_row` bytes.
    pub fn lock_for_read(&self) -> (locked: Result<CaptureDataGuard<'_>, CaptureError>)
        ensures
            match locked {
                Ok(guard) => self.rows_fit() && guard@ == (CaptureDataView {
                    bytes: self.row_bytes(),
                    width: self.width,
                    height: self.height,
                    bytes_per_row: self.pixel_buffer.bytes_per_row,
                }),
                Err(error) => !self.rows_fit() && error@ == CaptureErrorView::ImageProcessingError(
                    lock_failed_text(),
                ),
            },
    {
        let bytes_per_row = self.pixel_buffer.bytes_per_row;
        let all = self.pixel_buffer.bytes.as_slice();
        let total = all.len();
        let len = self.height.checked_mul(bytes_per_row);
        if len.is_some() && len.unwrap() <= total {
            let bytes = slice_subrange(all, 0, len.unwrap());
            assert(bytes@ =~= self.row_bytes());
            Ok(CaptureDataGuard { bytes, width: self.width, height: self.height, bytes_per_row })
        } else {
            Err(
                CaptureError::ImageProcessingError(
                    String::from_str("Lock failed: buffer is shorter than its rows"),
                ),
            )
        }
    }

    /// Every row holds `width` pixels, and the size fits a frame's.
    pub open spec fn rows_hold_pixels(&self) -> bool {
        &&& self.width * 4 <= self.pixel_buffer.bytes_per_row
        &&& self.width <= u32::MAX
        &&& self.height <= u32::MAX
    }

    /// The frame that the buffer holds, tightly packed and in
    /// red-green-blue-alpha order.
    ///
    /// Fails, with `ImageProcessingError`, exactly when the buffer cannot
    /// be locked, or when its rows are shorter than `width` pixels or its
    /// size does not fit a frame's.
    pub fn to_frame(&self) -> (made: Result<Frame, CaptureError>)
        ensures
            match made {
                Ok(frame) => {
                    &&& self.rows_fit()
                    &&& self.rows_hold_pixels()
                    &&& frame@ == (FrameView {
                        data: tight_rgba(
                            self.pixel_buffer.bytes@,
                            self.width as int,
                            self.height as int,
                            self.pixel_buffer.bytes_per_row as int,
                        ),
                        width: self.width as u32,
                        height: self.height as u32,
                    })
                    &&& frame.is_packed()
                },
                Err(error) => if !self.rows_fit() {
                    error@ == CaptureErrorView::ImageProcessingError(lock_failed_text())
                } else {
                    !self.rows_hold_pixels() && error@ == CaptureErrorView::ImageProcessingError(
                        bad_layout_text(),
                    )
                },
            },
    {
        let guard = match self.lock_for_read() {
            Ok(guard) => guard,
            Err(error) => {
                return Err(error);
            },
        };
        let width = guard.width();
        let height = guard.height();
        let stride = guard.bytes_per_row();
        let row_len = width.checked_mul(4);
        if row_len.is_none() || row_len.unwrap() > stride || width > u32::MAX as usize || height
            > u32::MAX as usize {
            return Err(
                CaptureError::ImageProcessingError(String::from_str("Frame layout is not valid")),
            );
        }
        let bytes = guard.as_slice();
        let total = bytes.len();
        let ghost source = self.pixel_buffer.bytes@;
        assert(total == height * stride);
        let mut data: Vec<u8> = Vec::new();
        let mut y: usize = 0;
        while y < height
            invariant
                y <= height,
                width * 4 <= stride,
                bytes@.len() == total,
                total == height * stride,
                bytes@ == source.take(height * stride),
                height * stride <= source.len(),
                data@.len() == y * width * 4,
                forall|k: int|
                    0 <= k < data@.len() ==> data@[k] == source[#[trigger] source_index(
                        k,
                        width as int,
                        stride as int,
                    )],
            decreases height - y,
        {
            assert((y + 1) * stride <= height * stride) by (nonlinear_arith)
                requires
                    y + 1 <= height,
                    stride >= 0,
            ;
            assert((y + 1) * stride == y * stride + stride) by (nonlinear_arith);
            let row_start: usize = y * stride;
            let mut x: usize = 0;
            while x < width
                invariant
                    x <= width,
                    y < height,
                    width * 4 <= stride,
                    row_start == y * stride,
                    row_start + stride <= total,
                    bytes@.len() == total,
                    total == height * stride,
                    bytes@ == source.take(height * stride),
                    height * stride <= source.len(),
                    data@.len() == (y * width + x) * 4,
                    forall|k: int|
                        0 <= k < data@.len() ==> data@[k] == source[#[trigger] source_index(
                            k,
                            width as int,
                            stride as int,
                        )],
                decreases width - x,
            {
                let at: usize = row_start + x * 4;
                let ghost base = (y * width + x) * 4;
                proof {
                    lemma_source_index(x as int, y as int, 0, width as int, stride as int);
                    lemma_source_index(x as int, y as int, 1, width as int, stride as int);
                    lemma_source_index(x as int, y as int, 2, width as int, stride as int);
                    lemma_source_index(x as int, y as int, 3, width as int, stride as int);
                }
                let ghost before = data@;
                data.push(bytes[at + 2]);
                data.push(bytes[at + 1]);
                data.push(bytes[at]);
                data.push(bytes[at + 3]);
                assert forall|k: int| 0 <= k < data@.len() implies data@[k] == source[#[trigger] source_index(
                    k,
                    width as int,
                    stride as int,
                )] by {
                    if k < base {
                        assert(data@[k] == before[k]);
                    }
                }
                x += 1;
                assert((y * width + x) * 4 == base + 4) by (nonlinear_arith)
                    requires
                        base == (y * width + (x - 1)) * 4,
                ;
            }
            y += 1;
            assert(y * width * 4 == ((y - 1) * width + width) * 4) by (nonlinear_arith);
        }
        assert(data@ =~= tight_rgba(source, width as int, height as int, stride as int)) by {
            assert(y * width * 4 == width * height * 4) by (nonlinear_arith)
                requires
                    y == height,
            ;
        }
        assert(data@.len() == (width as u32) * (height as u32) * 4) by (nonlinear_arith)
            requires
                data@.len() == width * height * 4,
                width <= u32::MAX,
                height <= u32::MAX,
        ;
        Ok(Frame { data, width: width as u32, height: height as u32 })
    }

    /// Bytes from the start of one row to the start of the next.
    pub fn bytes_per_row(&self) -> (stride: usize)
        ensures
            stride == self.pixel_buffer.bytes_per_row,
    {
        self.pixel_buffer.bytes_per_row
    }

    /// A copy of the frame's rows, padding included. Fails as
    /// `lock_for_read` does.
    pub fn to_vec(&self) -> (copied: Result<Vec<u8>, CaptureError>)
        ensures
            match copied {
                Ok(bytes) => self.rows_fit() && bytes@ == self.row_bytes(),
                Err(error) => !self.rows_fit() && error@ == CaptureErrorView::ImageProcessingError(
                    lock_failed_text(),
                ),
            },
    {
        match self.lock_for_read() {
            Ok(guard) => Ok(vstd::slice::slice_to_vec(guard.as_slice())),
            Err(error) => Err(error),
        }
    }
}

impl<'a> View for CaptureDataGuard<'a> {
    type V = CaptureDataView;

    closed spec fn view(&self) -> CaptureDataView {
        CaptureDataView {
            bytes: self.bytes@,
            width: self.width,
            height: self.height,
            bytes_per_row: self.bytes_per_row,
        }
    }
}

impl<'a> CaptureDataGuard<'a> {
    /// The locked bytes: `height` rows of `bytes_per_row` bytes.
    pub fn as_slice(&self) -> (bytes: &[u8])
        ensures
            bytes@ == self@.bytes,
    {
        self.bytes
    }

    /// The frame's width in pixels.
    pub fn width(&self) -> (width: usize)
        ensures
            width == self@.width,
    {
        self.width
    }

    /// The frame's height in pixels.
    pub fn height(&self) -> (height: usize)
        ensures
            height == self@.height,
    {
        self.height
    }

    /// Bytes from the start of one row to the start of the next.
    pub fn bytes_per_row(&self) -> (stride: usize)
        ensures
            stride == self@.bytes_per_row,
    {
        self.bytes_per_row
    }
}

} // verus!
