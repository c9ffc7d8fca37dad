use vstd::prelude::*;

use crate::chunk::{CodecError, SourceError};

verus! {

/// A failure worth a log line; none of them stops the pipeline.
#[derive(Clone, Copy, Debug, PartialEq, Eq, Structural)]
pub enum Fault {
    Source(SourceError),
    Codec(CodecError),
}

/// Work that the pipeline asks its surroundings to carry out. Frames are
/// named by the handle their owner gave them.
#[derive(Clone, Copy, Debug, PartialEq, Eq, Structural)]
pub enum Action {
    /// Ask the frame source for its next frame.
    Pull,
    /// Submit the frame to the encoder; the flag asks for a key frame.
    Encode(u64, bool),
    /// Give the frame's buffer back to its owner.
    Release(u64),
    /// Draw the decoded frame on the display surface.
    Paint(u64),
    /// Shut the encoder session down.
    CloseEncoder,
    /// Shut the decoder session down.
    CloseDecoder,
    /// Write the fault to the log.
    Log(Fault),
}

/// How often `actions` release frame `f`.
pub open spec fn release_count(actions: Seq<Action>, f: u64) -> nat
    decreases actions.len(),
{
    if actions.len() == 0 {
        0
    } else {
        release_count(actions.drop_last(), f) + if actions.last() == Action::Release(f) {
            1nat
        } else {
            0nat
        }
    }
}

/// Whether `actions` hold an action that produces or shows video: a pull,
/// an encode or a paint.
pub open spec fn moves_video(actions: Seq<Action>) -> bool {
    exists|i: int|
        0 <= i < actions.len() && (actions[i] is Pull || actions[i] is Encode
            || actions[i] is Paint)
}

} // verus!
