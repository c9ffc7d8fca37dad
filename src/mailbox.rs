use vstd::prelude::*;

use crate::chunk::{ChunkView, EncodedChunk};

verus! {

/// A single-slot, latest-wins hand-off between the producer and the consumer.
///
/// A `put` replaces whatever the slot held, read or not; a `peek` shows the
/// current content without consuming it.
pub struct ChunkMailbox {
    slot: Option<EncodedChunk>,
}

/// The content of a slot after a `put` of `c` onto content `m`.
pub open spec fn after_put(m: Option<ChunkView>, c: ChunkView) -> Option<ChunkView> {
    Some(c)
}

/// The content of a slot after `puts` are written into it in order.
pub open spec fn after_puts(m: Option<ChunkView>, puts: Seq<ChunkView>) -> Option<ChunkView>
    decreases puts.len(),
{
    if puts.len() == 0 {
        m
    } else {
        after_put(after_puts(m, puts.drop_last()), puts.last())
    }
}

impl View for ChunkMailbox {
    type V = Option<ChunkView>;

    closed spec fn view(&self) -> Option<ChunkView> {
        match self.slot {
            Some(c) => Some(c@),
            None => None,
        }
    }
}

impl ChunkMailbox {
    pub fn new() -> (r: ChunkMailbox)
        ensures
            r@ is None,
    {
        ChunkMailbox { slot: None }
    }

    /// Writes `chunk`, dropping any earlier content.
    pub fn put(&mut self, chunk: EncodedChunk)
        ensures
            final(self)@ == after_put(old(self)@, chunk@),
    {
        self.slot = Some(chunk);
    }

    /// Empties the slot.
    pub fn clear(&mut self)
        ensures
            final(self)@ is None,
    {
        self.slot = None;
    }

    /// The current content, left in place.
    pub fn peek(&self) -> (r: Option<&EncodedChunk>)
        ensures
            match r {
                Some(c) => self@ == Some(c@),
                None => self@ is None,
            },
    {
        match &self.slot {
            Some(c) => Some(c),
            None => None,
        }
    }
}

/// Whatever a slot held before, after one or more writes and no read in
/// between only the last chunk written can be observed.
pub proof fn lemma_last_put_wins(m: Option<ChunkView>, puts: Seq<ChunkView>)
    requires
        puts.len() > 0,
    ensures
        after_puts(m, puts) == Some(puts.last()),
{
}

} // verus!
