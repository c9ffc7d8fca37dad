use vstd::prelude::*;

use crate::chunk::{CodecError, FrameKind};

verus! {

/// Where a codec session stands in its life.
#[derive(Clone, Copy, Debug, PartialEq, Eq, Structural)]
pub enum SessionState {
    Unconfigured,
    Configured,
    Closed,
}

/// Whether a decoder has taken in the key chunk that delta chunks build on.
#[derive(Clone, Copy, Debug, PartialEq, Eq, Structural)]
pub enum KeyState {
    NoKeyFrameYet,
    Streaming,
}

/// The state a session reaches when the codec answered its configuration
/// with `outcome`, and what the configuration step returns. A session is
/// configured once: a second attempt, or one on a closed session, fails.
pub open spec fn configure_step(s: SessionState, outcome: Result<(), CodecError>) -> (
    SessionState,
    Result<(), CodecError>,
) {
    match s {
        SessionState::Unconfigured => match outcome {
            Ok(()) => (SessionState::Configured, Ok(())),
            Err(_) => (SessionState::Closed, Err(CodecError::ConfigurationFailed)),
        },
        _ => (s, Err(CodecError::ConfigurationFailed)),
    }
}

/// Moves `state` on once the codec has answered a configuration request.
pub fn configure(state: &mut SessionState, outcome: Result<(), CodecError>) -> (r: Result<
    (),
    CodecError,
>)
    ensures
        (*final(state), r) == configure_step(*old(state), outcome),
{
    match *state {
        SessionState::Unconfigured => match outcome {
            Ok(()) => {
                *state = SessionState::Configured;
                Ok(())
            },
            Err(_) => {
                *state = SessionState::Closed;
                Err(CodecError::ConfigurationFailed)
            },
        },
        _ => Err(CodecError::ConfigurationFailed),
    }
}

/// The mathematical content of a [`Decoder`].
pub struct DecoderView {
    pub session: SessionState,
    pub key: KeyState,
}

/// The answer a decoder gives to a chunk of kind `kind`: only a configured
/// session takes work, and before its first key chunk it turns every delta
/// chunk away.
pub open spec fn accept_result(d: DecoderView, kind: FrameKind) -> Result<(), CodecError> {
    if d.session != SessionState::Configured {
        Err(CodecError::DecodeFailed)
    } else if d.key == KeyState::NoKeyFrameYet && kind == FrameKind::Delta {
        Err(CodecError::MissingKeyFrame)
    } else {
        Ok(())
    }
}

/// The decoder after it was offered a chunk of kind `kind`: an accepted key
/// chunk starts the stream; nothing else changes the state.
pub open spec fn after_offer(d: DecoderView, kind: FrameKind) -> DecoderView {
    if accept_result(d, kind) is Ok && kind == FrameKind::Key {
        DecoderView { key: KeyState::Streaming, ..d }
    } else {
        d
    }
}

/// The decoder's side of the decode path: its session and the key-frame
/// gate in front of the codec.
pub struct Decoder {
    session: SessionState,
    key: KeyState,
}

impl View for Decoder {
    type V = DecoderView;

    closed spec fn view(&self) -> DecoderView {
        DecoderView { session: self.session, key: self.key }
    }
}

impl Decoder {
    /// A decoder that has not been configured and has seen no key chunk.
    pub fn new() -> (r: Decoder)
        ensures
            r@ == (DecoderView { session: SessionState::Unconfigured, key: KeyState::NoKeyFrameYet }),
    {
        Decoder { session: SessionState::Unconfigured, key: KeyState::NoKeyFrameYet }
    }

    pub fn state(&self) -> (r: SessionState)
        ensures
            r == self@.session,
    {
        self.session
    }

    pub fn key_state(&self) -> (r: KeyState)
        ensures
            r == self@.key,
    {
        self.key
    }

    /// Moves the session on once the codec has answered its configuration.
    pub fn configure(&mut self, outcome: Result<(), CodecError>) -> (r: Result<(), CodecError>)
        ensures
            final(self)@.session == configure_step(old(self)@.session, outcome).0,
            final(self)@.key == old(self)@.key,
            r == configure_step(old(self)@.session, outcome).1,
    {
        configure(&mut self.session, outcome)
    }

    pub fn close(&mut self)
        ensures
            final(self)@ == (DecoderView { session: SessionState::Closed, ..old(self)@ }),
    {
        self.session = SessionState::Closed;
    }

    /// Decides whether a chunk of kind `kind` may go to the codec.
    pub fn offer(&mut self, kind: FrameKind) -> (r: Result<(), CodecError>)
        ensures
            r == accept_result(old(self)@, kind),
            final(self)@ == after_offer(old(self)@, kind),
    {
        match self.session {
            SessionState::Configured => {},
            _ => {
                return Err(CodecError::DecodeFailed);
            },
        }
        match (self.key, kind) {
            (KeyState::NoKeyFrameYet, FrameKind::Delta) => Err(CodecError::MissingKeyFrame),
            (_, FrameKind::Key) => {
                self.key = KeyState::Streaming;
                Ok(())
            },
            (KeyState::Streaming, FrameKind::Delta) => Ok(()),
        }
    }
}

/// The decoder after it was offered chunks of the kinds in `kinds`, in order.
pub open spec fn after_offers(d: DecoderView, kinds: Seq<FrameKind>) -> DecoderView
    decreases kinds.len(),
{
    if kinds.len() == 0 {
        d
    } else {
        after_offer(after_offers(d, kinds.drop_last()), kinds.last())
    }
}

/// A configured decoder that has seen no key chunk turns away every delta
/// chunk until the first key chunk, accepts that key chunk, and from then on
/// is streaming and accepts delta chunks too: the chunk at position `i` is
/// accepted exactly when a key chunk occurs at or before `i`.
pub proof fn lemma_key_frame_gate(d: DecoderView, kinds: Seq<FrameKind>, i: int)
    requires
        d.session == SessionState::Configured,
        d.key == KeyState::NoKeyFrameYet,
        0 <= i < kinds.len(),
    ensures
        after_offers(d, kinds.take(i)).session == SessionState::Configured,
        (after_offers(d, kinds.take(i)).key == KeyState::Streaming) == (exists|j: int|
            0 <= j < i && kinds[j] == FrameKind::Key),
        (accept_result(after_offers(d, kinds.take(i)), kinds[i]) is Ok) == (exists|j: int|
            0 <= j <= i && kinds[j] == FrameKind::Key),
        accept_result(after_offers(d, kinds.take(i)), kinds[i]) is Err ==> accept_result(
            after_offers(d, kinds.take(i)),
            kinds[i],
        ) == Err::<(), CodecError>(CodecError::MissingKeyFrame),
    decreases i,
{
    let prefix = kinds.take(i);
    if i > 0 {
        lemma_key_frame_gate(d, kinds, i - 1);
        assert(prefix.drop_last() =~= kinds.take(i - 1));
        assert(prefix.last() == kinds[i - 1]);
        let before = after_offers(d, kinds.take(i - 1));
        assert(after_offers(d, prefix) == after_offer(before, kinds[i - 1]));
        if exists|j: int| 0 <= j < i && kinds[j] == FrameKind::Key {
            let j = choose|j: int| 0 <= j < i && kinds[j] == FrameKind::Key;
            if j == i - 1 {
            } else {
                assert(0 <= j < i - 1 && kinds[j] == FrameKind::Key);
            }
        } else {
            assert(kinds[i - 1] != FrameKind::Key);
        }
    } else {
        assert(prefix =~= Seq::<FrameKind>::empty());
        if exists|j: int| 0 <= j <= i && kinds[j] == FrameKind::Key {
        } else {
            assert(kinds[0] != FrameKind::Key);
        }
    }
    let here = after_offers(d, prefix);
    if kinds[i] == FrameKind::Key {
        assert(exists|j: int| 0 <= j <= i && kinds[j] == FrameKind::Key);
    } else if exists|j: int| 0 <= j <= i && kinds[j] == FrameKind::Key {
        let j = choose|j: int| 0 <= j <= i && kinds[j] == FrameKind::Key;
        assert(j != i);
        assert(0 <= j < i && kinds[j] == FrameKind::Key);
    }
}

} // verus!
