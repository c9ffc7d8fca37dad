use vstd::prelude::*;

use crate::action::Action;
use crate::action::Fault;
use crate::chunk::CodecError;
use crate::codec::{configure, configure_step, SessionState};

verus! {

/// What submitting frame `f` to an encoder whose session is in state `s`
/// asks for: a configured session takes the frame; either way the frame is
/// released straight after, since the codec keeps no hold on it.
pub open spec fn encode_actions(s: SessionState, f: u64, force_key: bool) -> Seq<Action> {
    if s == SessionState::Configured {
        seq![Action::Encode(f, force_key), Action::Release(f)]
    } else {
        seq![Action::Release(f), Action::Log(Fault::Codec(CodecError::EncodeFailed))]
    }
}

/// The encoder's side of the encode path: its session, and the rule that
/// each raw frame goes to the codec at most once and is released once.
pub struct Encoder {
    session: SessionState,
}

impl View for Encoder {
    type V = SessionState;

    closed spec fn view(&self) -> SessionState {
        self.session
    }
}

impl Encoder {
    pub fn new() -> (r: Encoder)
        ensures
            r@ == SessionState::Unconfigured,
    {
        Encoder { session: SessionState::Unconfigured }
    }

    pub fn state(&self) -> (r: SessionState)
        ensures
            r == self@,
    {
        self.session
    }

    /// Moves the session on once the codec has answered its configuration.
    pub fn configure(&mut self, outcome: Result<(), CodecError>) -> (r: Result<(), CodecError>)
        ensures
            (final(self)@, r) == configure_step(old(self)@, outcome),
    {
        configure(&mut self.session, outcome)
    }

    pub fn close(&mut self)
        ensures
            final(self)@ == SessionState::Closed,
    {
        self.session = SessionState::Closed;
    }

    /// The work that submitting frame `frame` takes.
    pub fn encode(&self, frame: u64, force_key: bool) -> (r: Vec<Action>)
        ensures
            r@ == encode_actions(self@, frame, force_key),
    {
        match self.session {
            SessionState::Configured => vec![Action::Encode(frame, force_key), Action::Release(frame)],
            _ => vec![Action::Release(frame), Action::Log(Fault::Codec(CodecError::EncodeFailed))],
        }
    }
}

} // verus!
