use vstd::prelude::*;

use crate::action::{moves_video, release_count, Action, Fault};
use crate::chunk::{ChunkView, CodecError, EncodedChunk, SourceError};
use crate::codec::{
    accept_result,
    after_offer,
    configure_step,
    Decoder,
    DecoderView,
    KeyState,
    SessionState,
};
use crate::encoder::{encode_actions, Encoder};
use crate::mailbox::{after_put, ChunkMailbox};

verus! {

/// Where the pipeline as a whole stands.
#[derive(Clone, Copy, Debug, PartialEq, Eq, Structural)]
pub enum Phase {
    NotStarted,
    Running,
    Stopped,
}

/// What one evaluation of the consumer side asks for.
#[derive(Debug)]
pub enum ConsumerStep {
    /// Nothing to do.
    Idle,
    /// Create and configure the decoder session.
    CreateDecoder,
    /// Hand this chunk to the decoder.
    Decode(EncodedChunk),
    /// The newest chunk was turned away, for this reason.
    Rejected(CodecError),
}

/// The mathematical content of a [`ConsumerStep`].
pub enum ConsumerStepView {
    Idle,
    CreateDecoder,
    Decode(ChunkView),
    Rejected(CodecError),
}

impl View for ConsumerStep {
    type V = ConsumerStepView;

    open spec fn view(&self) -> ConsumerStepView {
        match self {
            ConsumerStep::Idle => ConsumerStepView::Idle,
            ConsumerStep::CreateDecoder => ConsumerStepView::CreateDecoder,
            ConsumerStep::Decode(c) => ConsumerStepView::Decode(c@),
            ConsumerStep::Rejected(e) => ConsumerStepView::Rejected(*e),
        }
    }
}

/// The mathematical content of a [`Pipeline`].
pub struct PipelineView {
    pub phase: Phase,
    pub encoder: SessionState,
    pub decoder: DecoderView,
    pub mailbox: Option<ChunkView>,
    /// The last chunk the consumer side offered to the decoder.
    pub last_handed: Option<ChunkView>,
    /// Whether the consumer is waiting for a key chunk.
    pub key_wanted: bool,
}

/// A decoder session not yet created: unconfigured, with no key chunk seen.
pub open spec fn fresh_decoder() -> DecoderView {
    DecoderView { session: SessionState::Unconfigured, key: KeyState::NoKeyFrameYet }
}

impl PipelineView {
    /// Each phase fixes what the codec sessions can be in.
    pub open spec fn well_formed(self) -> bool {
        match self.phase {
            Phase::NotStarted => self.encoder == SessionState::Unconfigured
                && self.decoder.session == SessionState::Unconfigured,
            Phase::Running => self.encoder == SessionState::Configured
                && self.decoder.session != SessionState::Closed,
            Phase::Stopped => self.encoder == SessionState::Closed && self.decoder.session
                == SessionState::Closed,
        }
    }

    /// Both sessions closed, as after a stop.
    pub open spec fn closed_down(self) -> PipelineView {
        PipelineView {
            phase: Phase::Stopped,
            encoder: SessionState::Closed,
            decoder: DecoderView { session: SessionState::Closed, ..self.decoder },
            mailbox: None,
            ..self
        }
    }
}

/// Start-up: the encoder is configured once, with the codec's answer
/// `outcome`; a failure there is fatal to the whole pipeline.
pub open spec fn start_step(p: PipelineView, outcome: Result<(), CodecError>) -> (
    PipelineView,
    Result<(), CodecError>,
) {
    if p.phase == Phase::NotStarted {
        let (enc, r) = configure_step(p.encoder, outcome);
        if r is Ok {
            (PipelineView { phase: Phase::Running, encoder: enc, ..p }, r)
        } else {
            (p.closed_down(), r)
        }
    } else {
        (p, Err(CodecError::ConfigurationFailed))
    }
}

/// The producer loop's answer to one pull from the frame source. While
/// running, a frame is encoded (as a key frame if the consumer waits for
/// one) and released, an error is logged, and either way the next pull
/// follows. Once stopped, a frame that still arrives is only released and
/// no pull follows, which ends the loop.
pub open spec fn pull_step(p: PipelineView, pulled: Result<u64, SourceError>) -> (
    PipelineView,
    Seq<Action>,
) {
    if p.phase == Phase::Running {
        match pulled {
            Ok(f) => (
                PipelineView { key_wanted: false, ..p },
                encode_actions(p.encoder, f, p.key_wanted).push(Action::Pull),
            ),
            Err(e) => (p, seq![Action::Log(Fault::Source(e)), Action::Pull]),
        }
    } else {
        match pulled {
            Ok(f) => (p, seq![Action::Release(f)]),
            Err(_) => (p, seq![]),
        }
    }
}

/// The encoder delivered chunk `c`: while running it goes to the mailbox,
/// replacing what was there; after a stop it is dropped.
pub open spec fn encoded_step(p: PipelineView, c: ChunkView) -> (PipelineView, bool) {
    if p.phase == Phase::Running {
        (PipelineView { mailbox: after_put(p.mailbox, c), ..p }, true)
    } else {
        (p, false)
    }
}

/// The encoder reported error `e`: logged while running, ignored after.
pub open spec fn encode_error_step(p: PipelineView, e: CodecError) -> Seq<Action> {
    if p.phase == Phase::Running {
        seq![Action::Log(Fault::Codec(e))]
    } else {
        seq![]
    }
}

/// One evaluation of the consumer side. The first one while running creates
/// the decoder; later ones offer the mailbox's chunk to the decoder, unless
/// it is the chunk offered last time. A chunk turned away for want of a key
/// frame makes the producer send one next.
pub open spec fn consumer_step(p: PipelineView) -> (PipelineView, ConsumerStepView) {
    if p.phase != Phase::Running {
        (p, ConsumerStepView::Idle)
    } else if p.decoder.session == SessionState::Unconfigured {
        (
            PipelineView {
                decoder: DecoderView { session: SessionState::Configured, key: KeyState::NoKeyFrameYet },
                last_handed: None,
                ..p
            },
            ConsumerStepView::CreateDecoder,
        )
    } else {
        match p.mailbox {
            None => (p, ConsumerStepView::Idle),
            Some(c) => if p.last_handed == Some(c) {
                (p, ConsumerStepView::Idle)
            } else {
                let d = after_offer(p.decoder, c.kind);
                match accept_result(p.decoder, c.kind) {
                    Ok(()) => (
                        PipelineView { decoder: d, last_handed: Some(c), ..p },
                        ConsumerStepView::Decode(c),
                    ),
                    Err(e) => (
                        PipelineView {
                            decoder: d,
                            last_handed: Some(c),
                            key_wanted: p.key_wanted || e == CodecError::MissingKeyFrame,
                            ..p
                        },
                        ConsumerStepView::Rejected(e),
                    ),
                }
            },
        }
    }
}

/// The decoder delivered frame `f`: painted then released while running,
/// only released after a stop.
pub open spec fn decoded_step(p: PipelineView, f: u64) -> Seq<Action> {
    if p.phase == Phase::Running {
        seq![Action::Paint(f), Action::Release(f)]
    } else {
        seq![Action::Release(f)]
    }
}

/// Whether decoder error `e` ends the decoder session, which is then
/// rebuilt from scratch.
pub open spec fn ends_decoder(e: CodecError) -> bool {
    e == CodecError::DesyncFatal || e == CodecError::ConfigurationFailed
}

/// The decoder reported error `e`: logged while running, and a fatal one
/// closes the session so that the next evaluation creates a new one.
pub open spec fn decode_error_step(p: PipelineView, e: CodecError) -> (PipelineView, Seq<Action>) {
    if p.phase != Phase::Running {
        (p, seq![])
    } else if ends_decoder(e) {
        (
            PipelineView { decoder: fresh_decoder(), last_handed: None, ..p },
            seq![Action::Log(Fault::Codec(e)), Action::CloseDecoder],
        )
    } else {
        (p, seq![Action::Log(Fault::Codec(e))])
    }
}

/// Shutdown: both sessions end closed and the mailbox empty; the sessions
/// that were open are closed by the actions returned.
pub open spec fn stop_step(p: PipelineView) -> (PipelineView, Seq<Action>) {
    match p.phase {
        Phase::Running => (
            p.closed_down(),
            if p.decoder.session == SessionState::Configured {
                seq![Action::CloseEncoder, Action::CloseDecoder]
            } else {
                seq![Action::CloseEncoder]
            },
        ),
        Phase::NotStarted => (p.closed_down(), seq![]),
        Phase::Stopped => (p, seq![]),
    }
}

/// The streaming pipeline: a producer side that pulls frames and encodes
/// them into the mailbox, and a consumer side that decodes the newest chunk
/// when asked to evaluate. It decides; its caller performs the actions.
pub struct Pipeline {
    phase: Phase,
    encoder: Encoder,
    decoder: Decoder,
    mailbox: ChunkMailbox,
    last_handed: Option<EncodedChunk>,
    key_wanted: bool,
}

impl View for Pipeline {
    type V = PipelineView;

    closed spec fn view(&self) -> PipelineView {
        PipelineView {
            phase: self.phase,
            encoder: self.encoder@,
            decoder: self.decoder@,
            mailbox: self.mailbox@,
            last_handed: match self.last_handed {
                Some(c) => Some(c@),
                None => None,
            },
            key_wanted: self.key_wanted,
        }
    }
}

impl Pipeline {
    pub fn new() -> (r: Pipeline)
        ensures
            r@ == (PipelineView {
                phase: Phase::NotStarted,
                encoder: SessionState::Unconfigured,
                decoder: fresh_decoder(),
                mailbox: None,
                last_handed: None,
                key_wanted: false,
            }),
            r@.well_formed(),
    {
        Pipeline {
            phase: Phase::NotStarted,
            encoder: Encoder::new(),
            decoder: Decoder::new(),
            mailbox: ChunkMailbox::new(),
            last_handed: None,
            key_wanted: false,
        }
    }

    pub fn phase(&self) -> (r: Phase)
        ensures
            r == self@.phase,
    {
        self.phase
    }

    pub fn encoder_state(&self) -> (r: SessionState)
        ensures
            r == self@.encoder,
    {
        self.encoder.state()
    }

    pub fn decoder_state(&self) -> (r: SessionState)
        ensures
            r == self@.decoder.session,
    {
        self.decoder.state()
    }

    pub fn key_state(&self) -> (r: KeyState)
        ensures
            r == self@.decoder.key,
    {
        self.decoder.key_state()
    }

    pub fn key_frame_wanted(&self) -> (r: bool)
        ensures
            r == self@.key_wanted,
    {
        self.key_wanted
    }

    /// The chunk that the mailbox currently holds.
    pub fn latest(&self) -> (r: Option<&EncodedChunk>)
        ensures
            match r {
                Some(c) => self@.mailbox == Some(c@),
                None => self@.mailbox is None,
            },
    {
        self.mailbox.peek()
    }

    fn close_down(&mut self)
        ensures
            final(self)@ == old(self)@.closed_down(),
    {
        self.phase = Phase::Stopped;
        self.encoder.close();
        self.decoder.close();
        self.mailbox.clear();
    }

    /// Starts the pipeline once the codec has answered the encoder's
    /// configuration with `outcome`.
    pub fn start(&mut self, outcome: Result<(), CodecError>) -> (r: Result<(), CodecError>)
        requires
            old(self)@.well_formed(),
        ensures
            final(self)@.well_formed(),
            (final(self)@, r) == start_step(old(self)@, outcome),
    {
        match self.phase {
            Phase::NotStarted => {},
            _ => {
                return Err(CodecError::ConfigurationFailed);
            },
        }
        let r = self.encoder.configure(outcome);
        match r {
            Ok(()) => {
                self.phase = Phase::Running;
            },
            Err(_) => {
                self.close_down();
            },
        }
        r
    }

    /// The producer loop's answer to one pull from the frame source.
    pub fn on_pull(&mut self, pulled: Result<u64, SourceError>) -> (r: Vec<Action>)
        requires
            old(self)@.well_formed(),
        ensures
            final(self)@.well_formed(),
            (final(self)@, r@) == pull_step(old(self)@, pulled),
    {
        match self.phase {
            Phase::Running => match pulled {
                Ok(f) => {
                    let mut actions = self.encoder.encode(f, self.key_wanted);
                    actions.push(Action::Pull);
                    self.key_wanted = false;
                    actions
                },
                Err(e) => vec![Action::Log(Fault::Source(e)), Action::Pull],
            },
            _ => match pulled {
                Ok(f) => vec![Action::Release(f)],
                Err(_) => Vec::new(),
            },
        }
    }

    /// The encoder delivered `chunk`; returns whether it reached the mailbox.
    pub fn on_encoded(&mut self, chunk: EncodedChunk) -> (r: bool)
        requires
            old(self)@.well_formed(),
        ensures
            final(self)@.well_formed(),
            (final(self)@, r) == encoded_step(old(self)@, chunk@),
    {
        match self.phase {
            Phase::Running => {
                self.mailbox.put(chunk);
                true
            },
            _ => false,
        }
    }

    /// The encoder reported `e`.
    pub fn on_encode_error(&self, e: CodecError) -> (r: Vec<Action>)
        ensures
            r@ == encode_error_step(self@, e),
    {
        match self.phase {
            Phase::Running => vec![Action::Log(Fault::Codec(e))],
            _ => Vec::new(),
        }
    }

    /// One evaluation of the consumer side.
    pub fn evaluate(&mut self) -> (r: ConsumerStep)
        requires
            old(self)@.well_formed(),
        ensures
            final(self)@.well_formed(),
            (final(self)@, r@) == consumer_step(old(self)@),
    {
        match self.phase {
            Phase::Running => {},
            _ => {
                return ConsumerStep::Idle;
            },
        }
        match self.decoder.state() {
            SessionState::Unconfigured => {
                let mut d = Decoder::new();
                let _ = d.configure(Ok(()));
                self.decoder = d;
                self.last_handed = None;
                return ConsumerStep::CreateDecoder;
            },
            _ => {},
        }
        let chunk = match self.mailbox.peek() {
            None => {
                return ConsumerStep::Idle;
            },
            Some(c) => {
                let seen = match &self.last_handed {
                    Some(l) => l.same_as(c),
                    None => false,
                };
                if seen {
                    return ConsumerStep::Idle;
                }
                c.duplicate()
            },
        };
        let res = self.decoder.offer(chunk.kind());
        self.last_handed = Some(chunk.duplicate());
        match res {
            Ok(()) => ConsumerStep::Decode(chunk),
            Err(e) => {
                if e == CodecError::MissingKeyFrame {
                    self.key_wanted = true;
                }
                ConsumerStep::Rejected(e)
            },
        }
    }

    /// The decoder delivered frame `frame`.
    pub fn on_decoded(&self, frame: u64) -> (r: Vec<Action>)
        ensures
            r@ == decoded_step(self@, frame),
    {
        match self.phase {
            Phase::Running => vec![Action::Paint(frame), Action::Release(frame)],
            _ => vec![Action::Release(frame)],
        }
    }

    /// The decoder reported `e`.
    pub fn on_decode_error(&mut self, e: CodecError) -> (r: Vec<Action>)
        requires
            old(self)@.well_formed(),
        ensures
            final(self)@.well_formed(),
            (final(self)@, r@) == decode_error_step(old(self)@, e),
    {
        match self.phase {
            Phase::Running => {},
            _ => {
                return Vec::new();
            },
        }
        if e == CodecError::DesyncFatal || e == CodecError::ConfigurationFailed {
            self.decoder = Decoder::new();
            self.last_handed = None;
            vec![Action::Log(Fault::Codec(e)), Action::CloseDecoder]
        } else {
            vec![Action::Log(Fault::Codec(e))]
        }
    }

    /// Shuts the pipeline down.
    pub fn stop(&mut self) -> (r: Vec<Action>)
        requires
            old(self)@.well_formed(),
        ensures
            final(self)@.well_formed(),
            (final(self)@, r@) == stop_step(old(self)@),
    {
        match self.phase {
            Phase::Running => {
                let decoder_open = match self.decoder.state() {
                    SessionState::Configured => true,
                    _ => false,
                };
                self.close_down();
                if decoder_open {
                    vec![Action::CloseEncoder, Action::CloseDecoder]
                } else {
                    vec![Action::CloseEncoder]
                }
            },
            Phase::NotStarted => {
                self.close_down();
                Vec::new()
            },
            Phase::Stopped => Vec::new(),
        }
    }
}

/// Each frame submitted to an encoder, in any session state, is released
/// exactly once; so is each pulled frame, whatever the pipeline's state; and
/// the encoder's later reports, a chunk or an error, release no frame.
pub proof fn lemma_frame_released_once(
    p: PipelineView,
    s: SessionState,
    force_key: bool,
    f: u64,
    e: CodecError,
    g: u64,
)
    requires
        p.well_formed(),
    ensures
        release_count(encode_actions(s, f, force_key), f) == 1,
        release_count(pull_step(p, Ok(f)).1, f) == 1,
        release_count(encode_error_step(p, e), g) == 0,
{
    reveal_with_fuel(release_count, 4);
    let direct = encode_actions(s, f, force_key);
    assert(direct.drop_last() =~= seq![direct[0]]);
    assert(seq![direct[0]].drop_last() =~= Seq::<Action>::empty());
    let s = pull_step(p, Ok(f)).1;
    if p.phase == Phase::Running {
        let head = encode_actions(p.encoder, f, p.key_wanted);
        assert(s.drop_last() =~= head);
        assert(head.drop_last() =~= seq![head[0]]);
        assert(seq![head[0]].drop_last() =~= Seq::<Action>::empty());
    } else {
        assert(s.drop_last() =~= Seq::<Action>::empty());
    }
    let t = encode_error_step(p, e);
    if p.phase == Phase::Running {
        assert(t.drop_last() =~= Seq::<Action>::empty());
    }
}

/// Offering a chunk to the decoder, accepted or turned away, makes the
/// next evaluation with the same mailbox content a no-op: nothing is
/// decoded twice.
pub proof fn lemma_resubmit_is_noop(p: PipelineView)
    requires
        p.well_formed(),
        consumer_step(p).1 is Decode || consumer_step(p).1 is Rejected,
    ensures
        consumer_step(consumer_step(p).0) == (consumer_step(p).0, ConsumerStepView::Idle),
{
}

/// Once stopped, the pipeline stays put: both sessions report closed, no
/// event changes its state, and none leads to a pull, an encode, a paint,
/// a chunk in the mailbox or a decode; a frame that still arrives is only
/// released.
pub proof fn lemma_stopped_is_quiet(
    p: PipelineView,
    pulled: Result<u64, SourceError>,
    c: ChunkView,
    f: u64,
    e: CodecError,
)
    requires
        p.well_formed(),
    ensures
        ({
            let q = stop_step(p).0;
            &&& q.encoder == SessionState::Closed
            &&& q.decoder.session == SessionState::Closed
            &&& pull_step(q, pulled).0 == q
            &&& !moves_video(pull_step(q, pulled).1)
            &&& encoded_step(q, c) == (q, false)
            &&& encode_error_step(q, e) == Seq::<Action>::empty()
            &&& consumer_step(q) == (q, ConsumerStepView::Idle)
            &&& decoded_step(q, f) == seq![Action::Release(f)]
            &&& decode_error_step(q, e) == (q, Seq::<Action>::empty())
            &&& stop_step(q) == (q, Seq::<Action>::empty())
        }),
{
    let q = stop_step(p).0;
    let s = pull_step(q, pulled).1;
    if moves_video(s) {
        let i = choose|i: int| 0 <= i < s.len() && (s[i] is Pull || s[i] is Encode || s[i] is Paint);
        assert(false);
    }
}

/// The pipeline's state stays well formed through every step.
pub proof fn lemma_steps_keep_well_formed(
    p: PipelineView,
    outcome: Result<(), CodecError>,
    pulled: Result<u64, SourceError>,
    c: ChunkView,
    e: CodecError,
)
    requires
        p.well_formed(),
    ensures
        start_step(p, outcome).0.well_formed(),
        pull_step(p, pulled).0.well_formed(),
        encoded_step(p, c).0.well_formed(),
        consumer_step(p).0.well_formed(),
        decode_error_step(p, e).0.well_formed(),
        stop_step(p).0.well_formed(),
{
}

} // verus!
