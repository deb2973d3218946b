//! The channel pass that turns the platform's pixel order into the
//! library's.

use rayon::iter::ParallelIterator;
use rayon::slice::ParallelSliceMut;
use vstd::prelude::*;

verus! {

/// Bytes that one pixel takes, in every buffer of this library.
pub const BYTES_PER_PIXEL: usize = 4;

/// One pixel with its first and third byte exchanged and its fourth byte
/// set to full opacity: blue-green-red-padding in, red-green-blue-alpha out.
pub open spec fn rgba_pixel(pixel: Seq<u8>) -> Seq<u8>
    recommends
        pixel.len() == 4,
{
    seq![pixel[2], pixel[1], pixel[0], 255u8]
}

/// What `reorder_chunk` leaves in a chunk: a chunk of one pixel is
/// reordered, any other is left as it was.
pub open spec fn reordered_chunk(chunk: Seq<u8>) -> Seq<u8> {
    if chunk.len() == 4 {
        rgba_pixel(chunk)
    } else {
        chunk
    }
}

/// The `index`-th run of `chunk_len` bytes of `data`.
pub open spec fn chunk_at(data: Seq<u8>, chunk_len: int, index: int) -> Seq<u8> {
    data.subrange(index * chunk_len, (index + 1) * chunk_len)
}

/// A whole buffer after the channel pass: every complete pixel is
/// reordered and made opaque, and the bytes after the last complete pixel
/// stay.
pub open spec fn rgba_opaque(data: Seq<u8>) -> Seq<u8> {
    Seq::new(
        data.len(),
        |j: int|
            if j >= (data.len() / 4) * 4 {
                data[j]
            } else if j % 4 == 0 {
                data[j + 2]
            } else if j % 4 == 2 {
                data[j - 2]
            } else if j % 4 == 3 {
                255u8
            } else {
                data[j]
            },
    )
}

/// Reorders one pixel in place.
pub fn reorder_chunk(chunk: &mut [u8])
    ensures
        final(chunk)@ == reordered_chunk(old(chunk)@),
{
    if chunk.len() == 4 {
        let first: u8 = chunk[0];
        chunk[0] = chunk[2];
        chunk[2] = first;
        chunk[3] = 255;
        assert(chunk@ =~= rgba_pixel(old(chunk)@));
    }
}

/// rayon's `par_chunks_exact_mut` followed by `for_each`, with
/// `reorder_chunk` as the operation.
///
/// Taken on trust from rayon: the slice is cut into runs of `chunk_len`
/// bytes that do not overlap, the operation runs once on each complete run,
/// and the up to `chunk_len - 1` bytes that are left over are not handed
/// out, so they stay as they were. rayon stops the program when
/// `chunk_len` is zero.
#[verifier::external_body]
fn par_reorder_chunks(data: &mut Vec<u8>, chunk_len: usize)
    requires
        chunk_len > 0,
    ensures
        final(data)@.len() == old(data)@.len(),
        forall|i: int|
            0 <= i < old(data)@.len() / (chunk_len as nat) ==> #[trigger] chunk_at(
                final(data)@,
                chunk_len as int,
                i,
            ) == reordered_chunk(chunk_at(old(data)@, chunk_len as int, i)),
        forall|j: int|
            (old(data)@.len() / (chunk_len as nat)) * chunk_len <= j < old(data)@.len()
                ==> final(data)@[j] == old(data)@[j],
{
    data.par_chunks_exact_mut(chunk_len).for_each(|chunk| reorder_chunk(chunk));
}

/// Turns a buffer of blue-green-red-padding pixels into opaque
/// red-green-blue-alpha pixels, in place.
pub fn bgra_to_rgba_opaque(data: &mut Vec<u8>)
    ensures
        final(data)@ == rgba_opaque(old(data)@),
        final(data)@.len() == old(data)@.len(),
{
    par_reorder_chunks(data, BYTES_PER_PIXEL);
    proof {
        let before = old(data)@;
        let after = data@;
        let whole = (before.len() / 4) * 4;
        assert forall|j: int| 0 <= j < before.len() implies after[j] == rgba_opaque(before)[j] by {
            if j < whole {
                let i = j / 4;
                assert(0 <= i < before.len() / 4);
                assert(chunk_at(after, 4, i) == reordered_chunk(chunk_at(before, 4, i)));
                assert(chunk_at(before, 4, i).len() == 4);
                assert(after[j] == chunk_at(after, 4, i)[j - 4 * i]);
                assert(chunk_at(before, 4, i)[0] == before[4 * i]);
                assert(chunk_at(before, 4, i)[1] == before[4 * i + 1]);
                assert(chunk_at(before, 4, i)[2] == before[4 * i + 2]);
            }
        }
        assert(after =~= rgba_opaque(before));
    }
}

/// The channel contract, pixel by pixel: after the pass, each complete
/// pixel holds the red, green and blue that were read as its third, second
/// and first byte, and full opacity, whatever its fourth byte was.
pub proof fn lemma_pass_reorders_each_pixel(data: Seq<u8>, pixel: int)
    requires
        0 <= pixel < data.len() / 4,
    ensures
        rgba_opaque(data).len() == data.len(),
        rgba_opaque(data)[4 * pixel] == data[4 * pixel + 2],
        rgba_opaque(data)[4 * pixel + 1] == data[4 * pixel + 1],
        rgba_opaque(data)[4 * pixel + 2] == data[4 * pixel],
        rgba_opaque(data)[4 * pixel + 3] == 255,
        chunk_at(rgba_opaque(data), 4, pixel) == rgba_pixel(chunk_at(data, 4, pixel)),
{
    assert(chunk_at(rgba_opaque(data), 4, pixel) =~= rgba_pixel(chunk_at(data, 4, pixel)));
}

/// The bytes after the last complete pixel are not touched by the pass.
pub proof fn lemma_pass_keeps_the_tail(data: Seq<u8>, at: int)
    requires
        (data.len() / 4) * 4 <= at < data.len(),
    ensures
        rgba_opaque(data)[at] == data[at],
{
}

} // verus!
