use vstd::prelude::*;

verus! {

/// Whether a chunk can be decoded on its own (`Key`) or needs the state
/// left behind by an earlier key chunk (`Delta`).
#[derive(Clone, Copy, Debug, PartialEq, Eq, Structural)]
pub enum FrameKind {
    Key,
    Delta,
}

/// Failures reported by, or on behalf of, a codec session.
#[derive(Clone, Copy, Debug, PartialEq, Eq, Structural)]
pub enum CodecError {
    /// The session could not be configured; fatal to that session.
    ConfigurationFailed,
    /// One frame could not be encoded; the session goes on.
    EncodeFailed,
    /// One chunk could not be decoded; the session goes on.
    DecodeFailed,
    /// A delta chunk reached a decoder that has not yet seen a key chunk.
    MissingKeyFrame,
    /// The decoder lost sync with the stream; the session must be rebuilt.
    DesyncFatal,
}

/// A transient failure to read a frame from the capture device.
#[derive(Clone, Copy, Debug, PartialEq, Eq, Structural)]
pub enum SourceError {
    DeviceUnavailable,
    ReadFailed,
}

/// The mathematical content of an [`EncodedChunk`].
pub struct ChunkView {
    pub payload: Seq<u8>,
    pub timestamp: i64,
    pub duration: Option<u64>,
    pub kind: FrameKind,
}

/// One compressed video frame: its bytes, its capture time and (if known)
/// its duration, both in microseconds, and whether it is a key frame.
#[derive(Debug)]
pub struct EncodedChunk {
    pub payload: Vec<u8>,
    pub timestamp: i64,
    pub duration: Option<u64>,
    pub kind: FrameKind,
}

impl View for EncodedChunk {
    type V = ChunkView;

    open spec fn view(&self) -> ChunkView {
        ChunkView {
            payload: self.payload@,
            timestamp: self.timestamp,
            duration: self.duration,
            kind: self.kind,
        }
    }
}

impl EncodedChunk {
    pub fn new(payload: Vec<u8>, timestamp: i64, duration: Option<u64>, kind: FrameKind) -> (r:
        EncodedChunk)
        ensures
            r@ == (ChunkView { payload: payload@, timestamp, duration, kind }),
    {
        EncodedChunk { payload, timestamp, duration, kind }
    }

    pub fn kind(&self) -> (r: FrameKind)
        ensures
            r == self@.kind,
    {
        self.kind
    }

    pub fn timestamp(&self) -> (r: i64)
        ensures
            r == self@.timestamp,
    {
        self.timestamp
    }

    pub fn duration(&self) -> (r: Option<u64>)
        ensures
            r == self@.duration,
    {
        self.duration
    }

    pub fn payload(&self) -> (r: &Vec<u8>)
        ensures
            r@ == self@.payload,
    {
        &self.payload
    }

    /// A second chunk with the same content.
    pub fn duplicate(&self) -> (r: EncodedChunk)
        ensures
            r@ == self@,
    {
        let mut bytes: Vec<u8> = Vec::with_capacity(self.payload.len());
        let mut i: usize = 0;
        while i < self.payload.len()
            invariant
                i <= self.payload@.len(),
                bytes@ == self.payload@.subrange(0, i as int),
            decreases self.payload@.len() - i,
        {
            bytes.push(self.payload[i]);
            i = i + 1;
        }
        assert(bytes@ =~= self.payload@);
        EncodedChunk {
            payload: bytes,
            timestamp: self.timestamp,
            duration: self.duration,
            kind: self.kind,
        }
    }

    /// Whether two chunks hold the same content: same bytes, time, duration
    /// and kind.
    pub fn same_as(&self, other: &EncodedChunk) -> (r: bool)
        ensures
            r == (self@ == other@),
    {
        if self.timestamp != other.timestamp || self.duration != other.duration || self.kind
            != other.kind || self.payload.len() != other.payload.len() {
            return false;
        }
        let mut i: usize = 0;
        while i < self.payload.len()
            invariant
                i <= self.payload@.len(),
                self.payload@.len() == other.payload@.len(),
                forall|j: int| 0 <= j < i ==> self.payload@[j] == other.payload@[j],
            decreases self.payload@.len() - i,
        {
            if self.payload[i] != other.payload[i] {
                return false;
            }
            i = i + 1;
        }
        assert(self.payload@ =~= other.payload@);
        true
    }
}

} // verus!
