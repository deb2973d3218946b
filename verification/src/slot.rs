//! The slot in which a stream's callback leaves its first frame.

use crate::buffer::PixelBuffer;
use vstd::prelude::*;

verus! {

/// What kind of sample a stream delivered.
#[derive(Clone, Copy, Debug, PartialEq, Eq, Structural)]
pub enum SampleKind {
    Screen,
    Audio,
    Microphone,
}

/// The place where a stream's callback leaves the first frame, and where
/// the capturing thread looks for it.
#[derive(Debug, PartialEq, Eq)]
pub struct FrameSlot {
    pub buffer: Option<PixelBuffer>,
}

/// The slot after a sample was offered: an empty slot takes the image of a
/// screen sample, and nothing else changes a slot.
pub open spec fn slot_after(
    held: Option<PixelBuffer>,
    kind: SampleKind,
    image: Option<PixelBuffer>,
) -> Option<PixelBuffer> {
    if held is None && kind == SampleKind::Screen {
        image
    } else {
        held
    }
}

impl FrameSlot {
    /// An empty slot.
    pub fn new() -> (slot: FrameSlot)
        ensures
            slot.buffer is None,
    {
        FrameSlot { buffer: None }
    }

    /// Offers a delivered sample to the slot. The slot keeps the image of
    /// the first screen sample that has one; the answer says whether this
    /// one was kept.
    pub fn offer(&mut self, kind: SampleKind, image: Option<PixelBuffer>) -> (kept: bool)
        ensures
            final(self).buffer == slot_after(old(self).buffer, kind, image),
            kept == (old(self).buffer is None && kind == SampleKind::Screen && image is Some),
    {
        match kind {
            SampleKind::Screen => {},
            _ => {
                return false;
            },
        }
        let image = match image {
            Some(image) => image,
            None => {
                return false;
            },
        };
        if self.buffer.is_none() {
            self.buffer = Some(image);
            true
        } else {
            false
        }
    }

    /// Whether a frame was left in the slot.
    pub fn is_filled(&self) -> (filled: bool)
        ensures
            filled == (self.buffer is Some),
    {
        self.buffer.is_some()
    }

    /// Empties the slot and hands out what it held.
    pub fn take(&mut self) -> (held: Option<PixelBuffer>)
        ensures
            held == old(self).buffer,
            final(self).buffer is None,
    {
        self.buffer.take()
    }
}

/// A sample as it is offered to a slot.
pub struct Sample {
    pub kind: SampleKind,
    pub image: Option<PixelBuffer>,
}

/// What a slot holds after `samples` were offered to it, in order.
pub open spec fn slot_after_all(held: Option<PixelBuffer>, samples: Seq<Sample>) -> Option<
    PixelBuffer,
>
    decreases samples.len(),
{
    if samples.len() == 0 {
        held
    } else {
        slot_after(
            slot_after_all(held, samples.drop_last()),
            samples.last().kind,
            samples.last().image,
        )
    }
}

/// Only the first frame is kept: once the slot holds a frame, no sample
/// that is offered later changes it.
pub proof fn lemma_slot_keeps_first(held: PixelBuffer, samples: Seq<Sample>)
    ensures
        slot_after_all(Some(held), samples) == Some(held),
    decreases samples.len(),
{
    if samples.len() > 0 {
        lemma_slot_keeps_first(held, samples.drop_last());
    }
}

} // verus!
