//! One session from accept to close: the handshake, the outbound connection
//! attempt, the relay. The session decides; its caller performs the reads,
//! writes and connects, and reports back what they gave.

use vstd::prelude::*;
use crate::engine::{
    lemma_no_acceptable_method, spec_abandon, spec_step, EngineModel, HandshakeEngine,
    HandshakeState, Step, StepModel,
};
use crate::handshake::{ProtocolError, ProxyInfo, ProxyInfoModel};
use crate::relay::{
    spec_on_read, spec_on_write, CopyLoop, Direction, DuplexRelay, LoopAction, LoopState,
    LoopStep,
};
use crate::wire::{
    plain_reply, spec_plain_reply, ReplyCode, CMD_CONNECT, METHOD_NONE_ACCEPTABLE,
    METHOD_NO_AUTH, METHOD_PASSWORD, SOCKS_VERSION,
};

verus! {

/// Why the outbound backend could not reach the target.
#[derive(Clone, Copy, Debug, PartialEq, Eq, Structural)]
pub enum ConnectError {
    /// No route to the target, or its name does not resolve.
    HostUnreachable,
    /// The target refused the connection.
    ConnectionRefused,
    /// Any other failure.
    Other,
}

impl ConnectError {
    /// The reply code that reports this failure to the client: host
    /// unreachable where the target could not be reached at all, general
    /// failure for everything else, a refusal by the target included.
    pub open spec fn spec_reply_code(self) -> ReplyCode {
        match self {
            ConnectError::HostUnreachable => ReplyCode::HostUnreachable,
            _ => ReplyCode::GeneralFailure,
        }
    }

    /// The reply code that reports this failure to the client.
    pub fn reply_code(self) -> (code: ReplyCode)
        ensures
            code == self.spec_reply_code(),
            code == ReplyCode::HostUnreachable || code == ReplyCode::GeneralFailure,
    {
        match self {
            ConnectError::HostUnreachable => ReplyCode::HostUnreachable,
            _ => ReplyCode::GeneralFailure,
        }
    }
}

/// Identifier of a session, unique within the process. It serves
/// diagnostics only: no decision of the protocol reads it.
#[derive(Clone, Copy, Debug, PartialEq, Eq, Hash, Structural)]
pub struct SessionId {
    value: u64,
}

impl View for SessionId {
    type V = u64;

    closed spec fn view(&self) -> u64 {
        self.value
    }
}

impl SessionId {
    /// The identifier with the given number.
    pub fn new(value: u64) -> (id: SessionId)
        ensures
            id@ == value,
    {
        SessionId { value }
    }

    /// The number behind the identifier; later sessions have larger ones.
    pub fn value(&self) -> (value: u64)
        ensures
            value == self@,
    {
        self.value
    }
}

/// The phase of a session.
#[derive(Clone, Copy, Debug, PartialEq, Eq, Structural)]
pub enum SessionPhase {
    /// The handshake engine is running.
    Handshake,
    /// The request was accepted; the outbound connection is being made.
    Connecting,
    /// Both copy loops run, or one still does.
    Relaying,
    /// The session is over and both endpoints are closed.
    Closed,
}

/// What the caller of a session does next.
#[derive(Debug, PartialEq, Eq)]
pub enum SessionAction {
    /// Read more bytes from the client and show all untaken bytes again.
    ReadClient,
    /// Drop `consumed` bytes, write `reply` to the client, and show the
    /// remaining bytes again.
    Send { consumed: usize, reply: Vec<u8> },
    /// Drop `consumed` bytes and ask the outbound backend for `info`.
    Connect { consumed: usize, info: ProxyInfo },
    /// Write `reply`, the success reply, then start both copy loops.
    StartRelay { reply: Vec<u8> },
    /// The handshake was refused: write `reply` if it is not empty, then
    /// close both endpoints. The backend is not called.
    Refuse { error: ProtocolError, reply: Vec<u8> },
    /// The target was not reached: write `reply`, then close both endpoints.
    /// No copy loop starts.
    Unreachable { error: ConnectError, reply: Vec<u8> },
    /// Close both endpoints without writing.
    Close,
    /// The event does not belong to the session's phase; do nothing.
    Nothing,
}

/// Mathematical value of a [`SessionAction`].
pub enum ActionModel {
    ReadClient,
    Send { consumed: int, reply: Seq<u8> },
    Connect { consumed: int, info: ProxyInfoModel },
    StartRelay { reply: Seq<u8> },
    Refuse { error: ProtocolError, reply: Seq<u8> },
    Unreachable { error: ConnectError, reply: Seq<u8> },
    Close,
    Nothing,
}

impl View for SessionAction {
    type V = ActionModel;

    open spec fn view(&self) -> ActionModel {
        match self {
            SessionAction::ReadClient => ActionModel::ReadClient,
            SessionAction::Send { consumed, reply } => ActionModel::Send {
                consumed: *consumed as int,
                reply: reply@,
            },
            SessionAction::Connect { consumed, info } => ActionModel::Connect {
                consumed: *consumed as int,
                info: info@,
            },
            SessionAction::StartRelay { reply } => ActionModel::StartRelay { reply: reply@ },
            SessionAction::Refuse { error, reply } => ActionModel::Refuse {
                error: *error,
                reply: reply@,
            },
            SessionAction::Unreachable { error, reply } => ActionModel::Unreachable {
                error: *error,
                reply: reply@,
            },
            SessionAction::Close => ActionModel::Close,
            SessionAction::Nothing => ActionModel::Nothing,
        }
    }
}

/// One accepted client connection, end to end.
#[derive(Debug)]
pub struct Session {
    id: SessionId,
    phase: SessionPhase,
    engine: HandshakeEngine,
    relay: DuplexRelay,
}

/// Mathematical value of a [`Session`].
pub struct SessionModel {
    /// Identifier for diagnostics; no decision depends on it.
    pub id: u64,
    pub phase: SessionPhase,
    pub engine: EngineModel,
    pub relay: DuplexRelay,
}

impl SessionModel {
    /// The phase agrees with the engine and with the relay: the handshake
    /// phase lasts exactly as long as the engine runs, a connection is made
    /// or relayed only after an accepted request, and a relaying session
    /// still has a loop that runs.
    pub open spec fn valid(self) -> bool {
        &&& (self.phase == SessionPhase::Handshake) == (self.engine.state
            == HandshakeState::AwaitGreeting || self.engine.state == HandshakeState::AwaitRequest)
        &&& (self.phase == SessionPhase::Connecting || self.phase == SessionPhase::Relaying)
            ==> self.engine.state == HandshakeState::Established
        &&& self.phase == SessionPhase::Relaying ==> !self.relay.spec_finished()
        &&& self.relay.wf()
    }
}

/// The session after the client's untaken bytes were shown to it.
pub open spec fn spec_on_client_bytes(m: SessionModel, input: Seq<u8>) -> (
    SessionModel,
    ActionModel,
) {
    if m.phase != SessionPhase::Handshake {
        (m, ActionModel::Nothing)
    } else {
        let (engine, step) = spec_step(m.engine, input);
        match step {
            StepModel::NeedMore => (SessionModel { engine, ..m }, ActionModel::ReadClient),
            StepModel::Continue { consumed, reply } => (
                SessionModel { engine, ..m },
                ActionModel::Send { consumed, reply },
            ),
            StepModel::Established { consumed, info } => (
                SessionModel { engine, phase: SessionPhase::Connecting, ..m },
                ActionModel::Connect { consumed, info },
            ),
            StepModel::Failed { error, reply } => (
                SessionModel { engine, phase: SessionPhase::Closed, ..m },
                ActionModel::Refuse { error, reply },
            ),
            StepModel::Finished => (
                SessionModel { engine, phase: SessionPhase::Closed, ..m },
                ActionModel::Close,
            ),
        }
    }
}

/// The session after the client closed during the handshake.
pub open spec fn spec_on_client_eof(m: SessionModel) -> (SessionModel, ActionModel) {
    if m.phase != SessionPhase::Handshake {
        (m, ActionModel::Nothing)
    } else {
        (
            SessionModel {
                phase: SessionPhase::Closed,
                engine: spec_abandon(m.engine),
                ..m
            },
            ActionModel::Close,
        )
    }
}

/// The session after the outbound backend reported its outcome.
pub open spec fn spec_on_connect(m: SessionModel, outcome: Result<(), ConnectError>) -> (
    SessionModel,
    ActionModel,
) {
    if m.phase != SessionPhase::Connecting {
        (m, ActionModel::Nothing)
    } else {
        match outcome {
            Ok(_) => (
                SessionModel {
                    phase: SessionPhase::Relaying,
                    relay: DuplexRelay {
                        upstream: CopyLoop::spec_fresh(),
                        downstream: CopyLoop::spec_fresh(),
                    },
                    ..m
                },
                ActionModel::StartRelay { reply: spec_plain_reply(ReplyCode::Succeeded) },
            ),
            Err(e) => (
                SessionModel { phase: SessionPhase::Closed, ..m },
                ActionModel::Unreachable {
                    error: e,
                    reply: spec_plain_reply(e.spec_reply_code()),
                },
            ),
        }
    }
}

/// The session with its relay replaced, closed once both loops have ended.
pub open spec fn spec_with_relay(m: SessionModel, relay: DuplexRelay) -> SessionModel {
    SessionModel {
        relay,
        phase: if relay.spec_finished() {
            SessionPhase::Closed
        } else {
            SessionPhase::Relaying
        },
        ..m
    }
}

/// The session after a read of one copy loop gave `data`.
pub open spec fn spec_on_relay_read(m: SessionModel, dir: Direction, data: Seq<u8>) -> (
    SessionModel,
    LoopStep,
) {
    if m.phase != SessionPhase::Relaying {
        (m, LoopStep::Idle)
    } else {
        let (l, action) = spec_on_read(m.relay.spec_loop_of(dir), data);
        (spec_with_relay(m, m.relay.spec_with(dir, l)), action)
    }
}

/// The session after a write of one copy loop succeeded or failed.
pub open spec fn spec_on_relay_write(m: SessionModel, dir: Direction, ok: bool) -> (
    SessionModel,
    LoopStep,
) {
    if m.phase != SessionPhase::Relaying {
        (m, LoopStep::Idle)
    } else {
        let (l, action) = spec_on_write(m.relay.spec_loop_of(dir), ok);
        (spec_with_relay(m, m.relay.spec_with(dir, l)), action)
    }
}

impl View for Session {
    type V = SessionModel;

    closed spec fn view(&self) -> SessionModel {
        SessionModel { id: self.id@, phase: self.phase, engine: self.engine@, relay: self.relay }
    }
}

impl Session {
    /// The invariant of a session.
    pub open spec fn wf(&self) -> bool {
        self@.valid()
    }

    /// A session that has just been accepted: its handshake waits for the
    /// greeting.
    pub fn new(id: SessionId, password: Option<Vec<u8>>) -> (s: Session)
        ensures
            s.wf(),
            s@.id == id@,
            s@.phase == SessionPhase::Handshake,
            s@.engine.state == HandshakeState::AwaitGreeting,
            !s@.engine.auth_pending,
            s@.engine.password == match password {
                Some(p) => Some(p@),
                None => None::<Seq<u8>>,
            },
            s@.relay == (DuplexRelay {
                upstream: CopyLoop::spec_fresh(),
                downstream: CopyLoop::spec_fresh(),
            }),
    {
        Session {
            id,
            phase: SessionPhase::Handshake,
            engine: HandshakeEngine::new(password),
            relay: DuplexRelay::new(),
        }
    }

    /// The identifier given at accept time.
    pub fn id(&self) -> (id: SessionId)
        ensures
            id@ == self@.id,
    {
        self.id
    }

    /// The phase the session is in.
    pub fn phase(&self) -> (p: SessionPhase)
        ensures
            p == self@.phase,
    {
        self.phase
    }

    /// Whether the session is over.
    pub fn is_closed(&self) -> (closed: bool)
        ensures
            closed == (self@.phase == SessionPhase::Closed),
    {
        self.phase == SessionPhase::Closed
    }

    /// Bytes relayed so far in one direction.
    pub fn forwarded(&self, dir: Direction) -> (count: u64)
        ensures
            count == self@.relay.spec_loop_of(dir).forwarded,
    {
        self.relay.forwarded(dir)
    }

    /// Shows the session the bytes that the client has sent and that no
    /// earlier call has taken.
    pub fn on_client_bytes(&mut self, input: &[u8]) -> (action: SessionAction)
        ensures
            (final(self)@, action@) == spec_on_client_bytes(old(self)@, input@),
            old(self).wf() ==> final(self).wf(),
            action matches SessionAction::Connect { info, .. } ==> info.wf(),
    {
        if self.phase != SessionPhase::Handshake {
            return SessionAction::Nothing;
        }
        match self.engine.step(input) {
            Step::NeedMore => SessionAction::ReadClient,
            Step::Continue { consumed, reply } => SessionAction::Send { consumed, reply },
            Step::Established { consumed, info } => {
                self.phase = SessionPhase::Connecting;
                SessionAction::Connect { consumed, info }
            },
            Step::Failed { error, reply } => {
                self.phase = SessionPhase::Closed;
                SessionAction::Refuse { error, reply }
            },
            Step::Finished => {
                self.phase = SessionPhase::Closed;
                SessionAction::Close
            },
        }
    }

    /// Tells the session that the client closed before the handshake ended.
    pub fn on_client_eof(&mut self) -> (action: SessionAction)
        ensures
            (final(self)@, action@) == spec_on_client_eof(old(self)@),
            old(self).wf() ==> final(self).wf(),
    {
        if self.phase != SessionPhase::Handshake {
            return SessionAction::Nothing;
        }
        self.phase = SessionPhase::Closed;
        self.engine.abandon();
        SessionAction::Close
    }

    /// Tells the session what the outbound backend answered.
    pub fn on_connect(&mut self, outcome: Result<(), ConnectError>) -> (action: SessionAction)
        ensures
            (final(self)@, action@) == spec_on_connect(old(self)@, outcome),
            old(self).wf() ==> final(self).wf(),
    {
        if self.phase != SessionPhase::Connecting {
            return SessionAction::Nothing;
        }
        match outcome {
            Ok(_) => {
                self.phase = SessionPhase::Relaying;
                self.relay = DuplexRelay::new();
                SessionAction::StartRelay { reply: plain_reply(ReplyCode::Succeeded) }
            },
            Err(e) => {
                self.phase = SessionPhase::Closed;
                SessionAction::Unreachable { error: e, reply: plain_reply(e.reply_code()) }
            },
        }
    }

    /// Tells the session that a read of the loop of `dir` gave `data`; no
    /// bytes stand for the end of the stream or a failed read.
    pub fn on_relay_read(&mut self, dir: Direction, data: &[u8]) -> (action: LoopAction)
        ensures
            (final(self)@, action@) == spec_on_relay_read(old(self)@, dir, data@),
            old(self).wf() ==> final(self).wf(),
    {
        if self.phase != SessionPhase::Relaying {
            return LoopAction::Idle;
        }
        let action = self.relay.on_read(dir, data);
        if self.relay.is_finished() {
            self.phase = SessionPhase::Closed;
        }
        action
    }

    /// Tells the session whether a write of the loop of `dir` went through.
    pub fn on_relay_write(&mut self, dir: Direction, ok: bool) -> (action: LoopAction)
        ensures
            (final(self)@, action@) == spec_on_relay_write(old(self)@, dir, ok),
            old(self).wf() ==> final(self).wf(),
    {
        if self.phase != SessionPhase::Relaying {
            return LoopAction::Idle;
        }
        let action = self.relay.on_write(dir, ok);
        if self.relay.is_finished() {
            self.phase = SessionPhase::Closed;
        }
        action
    }
}

/// A failed outbound connection always reaches the client as a reply frame
/// that carries general-failure or host-unreachable, and the session is
/// then closed: every later relay event is ignored, so
/// no copy loop starts.
pub proof fn lemma_unreachable_target(
    m: SessionModel,
    e: ConnectError,
    dir: Direction,
    data: Seq<u8>,
)
    requires
        m.phase == SessionPhase::Connecting,
    ensures
        spec_on_connect(m, Err(e)).1 == (ActionModel::Unreachable {
            error: e,
            reply: spec_plain_reply(e.spec_reply_code()),
        }),
        spec_plain_reply(e.spec_reply_code())[0] == SOCKS_VERSION,
        spec_plain_reply(e.spec_reply_code())[1] == 0x01 || spec_plain_reply(
            e.spec_reply_code(),
        )[1] == 0x04,
        spec_on_connect(m, Err(e)).0.phase == SessionPhase::Closed,
        spec_on_relay_read(spec_on_connect(m, Err(e)).0, dir, data).1 == LoopStep::Idle,
{
}

/// A successful outbound connection is answered with the success reply,
/// and both copy loops then start afresh.
pub proof fn lemma_connected(m: SessionModel)
    requires
        m.phase == SessionPhase::Connecting,
    ensures
        spec_on_connect(m, Ok(())).1 == (ActionModel::StartRelay {
            reply: spec_plain_reply(ReplyCode::Succeeded),
        }),
        spec_plain_reply(ReplyCode::Succeeded)[1] == 0x00,
        spec_on_connect(m, Ok(())).0.phase == SessionPhase::Relaying,
        spec_on_connect(m, Ok(())).0.relay.upstream == CopyLoop::spec_fresh(),
        spec_on_connect(m, Ok(())).0.relay.downstream == CopyLoop::spec_fresh(),
{
}

/// A request for a command other than CONNECT closes the session with the
/// command-not-supported reply. The backend is never asked: the action is
/// not a connect, and a closed session answers every later event with
/// nothing.
pub proof fn lemma_unsupported_command_closes(m: SessionModel, input: Seq<u8>)
    requires
        m.phase == SessionPhase::Handshake,
        m.engine.state == HandshakeState::AwaitRequest,
        input.len() >= 2,
        input[0] == SOCKS_VERSION,
        input[1] != CMD_CONNECT,
    ensures
        spec_on_client_bytes(m, input).1 == (ActionModel::Refuse {
            error: ProtocolError::UnsupportedCommand,
            reply: spec_plain_reply(ReplyCode::CommandNotSupported),
        }),
        spec_on_client_bytes(m, input).0.phase == SessionPhase::Closed,
{
}

/// A closed session stays closed and asks for nothing more, whatever it is
/// told.
pub proof fn lemma_closed_session_is_inert(
    m: SessionModel,
    input: Seq<u8>,
    outcome: Result<(), ConnectError>,
    dir: Direction,
    data: Seq<u8>,
    ok: bool,
)
    requires
        m.phase == SessionPhase::Closed,
    ensures
        spec_on_client_bytes(m, input) == (m, ActionModel::Nothing),
        spec_on_client_eof(m) == (m, ActionModel::Nothing),
        spec_on_connect(m, outcome) == (m, ActionModel::Nothing),
        spec_on_relay_read(m, dir, data) == (m, LoopStep::Idle),
        spec_on_relay_write(m, dir, ok) == (m, LoopStep::Idle),
{
}

/// The backend is asked only at the end of a handshake: a connect action
/// comes only from a session in its handshake phase whose engine accepted a
/// request, and it moves the session to the connecting phase.
pub proof fn lemma_connect_only_after_request(m: SessionModel, input: Seq<u8>)
    requires
        spec_on_client_bytes(m, input).1 is Connect,
    ensures
        m.phase == SessionPhase::Handshake,
        m.engine.state == HandshakeState::AwaitRequest,
        spec_on_client_bytes(m, input).0.phase == SessionPhase::Connecting,
        spec_on_client_bytes(m, input).0.engine.state == HandshakeState::Established,
{
}

/// A relaying session ends exactly when its second copy loop ends: the
/// session waits for both loops, never for the first alone.
pub proof fn lemma_session_joins_both(m: SessionModel, dir: Direction, data: Seq<u8>)
    requires
        m.phase == SessionPhase::Relaying,
    ensures
        (spec_on_relay_read(m, dir, data).0.phase == SessionPhase::Closed) == spec_on_relay_read(
            m,
            dir,
            data,
        ).0.relay.spec_finished(),
        spec_on_relay_read(m, dir, data).0.phase == SessionPhase::Closed || spec_on_relay_read(
            m,
            dir,
            data,
        ).0.phase == SessionPhase::Relaying,
{
}

/// The session with another identifier and everything else as it is.
pub open spec fn spec_renumbered(m: SessionModel, id: u64) -> SessionModel {
    SessionModel { id, ..m }
}

/// The identifier plays no part in what a session decides: two sessions
/// that differ only in their identifiers answer every event alike and go on
/// to values that again differ only in their identifiers.
pub proof fn lemma_sessions_are_isolated(
    m: SessionModel,
    other_id: u64,
    input: Seq<u8>,
    outcome: Result<(), ConnectError>,
    dir: Direction,
    data: Seq<u8>,
    ok: bool,
)
    ensures
        spec_on_client_bytes(spec_renumbered(m, other_id), input) == (
            spec_renumbered(spec_on_client_bytes(m, input).0, other_id),
            spec_on_client_bytes(m, input).1,
        ),
        spec_on_client_eof(spec_renumbered(m, other_id)) == (
            spec_renumbered(spec_on_client_eof(m).0, other_id),
            spec_on_client_eof(m).1,
        ),
        spec_on_connect(spec_renumbered(m, other_id), outcome) == (
            spec_renumbered(spec_on_connect(m, outcome).0, other_id),
            spec_on_connect(m, outcome).1,
        ),
        spec_on_relay_read(spec_renumbered(m, other_id), dir, data) == (
            spec_renumbered(spec_on_relay_read(m, dir, data).0, other_id),
            spec_on_relay_read(m, dir, data).1,
        ),
        spec_on_relay_write(spec_renumbered(m, other_id), dir, ok) == (
            spec_renumbered(spec_on_relay_write(m, dir, ok).0, other_id),
            spec_on_relay_write(m, dir, ok).1,
        ),
{
}

/// What a session writes in one direction, in order, when the loop of that
/// direction is fed the reads `chunks` one after the other and every write
/// goes through.
pub open spec fn spec_session_written(m: SessionModel, dir: Direction, chunks: Seq<Seq<u8>>) -> Seq<
    u8,
>
    decreases chunks.len(),
{
    if chunks.len() == 0 {
        Seq::<u8>::empty()
    } else {
        match spec_on_relay_read(m, dir, chunks.first()).1 {
            LoopStep::Write { data } => data + spec_session_written(
                spec_on_relay_write(spec_on_relay_read(m, dir, chunks.first()).0, dir, true).0,
                dir,
                chunks.drop_first(),
            ),
            _ => Seq::<u8>::empty(),
        }
    }
}

/// A relaying session forwards verbatim and in order: whatever non-empty
/// reads one direction is fed, with every write going through, the session
/// asks for exactly their bytes to be written, joined in the order read.
/// The other direction may stand anywhere, ended or not.
pub proof fn lemma_session_forwards_in_order(m: SessionModel, dir: Direction, chunks: Seq<Seq<u8>>)
    requires
        m.phase == SessionPhase::Relaying,
        m.relay.spec_loop_of(dir).state == LoopState::Reading,
        forall|i: int| 0 <= i < chunks.len() ==> 0 < #[trigger] chunks[i].len() <= usize::MAX,
    ensures
        spec_session_written(m, dir, chunks) == chunks.flatten(),
    decreases chunks.len(),
{
    if chunks.len() > 0 {
        let read = spec_on_relay_read(m, dir, chunks.first()).0;
        let next = spec_on_relay_write(read, dir, true).0;
        let rest = chunks.drop_first();
        assert(chunks[0].len() > 0);
        assert(read.phase == SessionPhase::Relaying);
        assert(next.phase == SessionPhase::Relaying);
        assert forall|i: int| 0 <= i < rest.len() implies 0 < #[trigger] rest[i].len()
            <= usize::MAX by {
            assert(rest[i] == chunks[i + 1]);
        }
        lemma_session_forwards_in_order(next, dir, rest);
    }
}

/// A greeting with a foreign version byte closes the session and nothing
/// is written to the client.
pub proof fn lemma_bad_version_closes(m: SessionModel, input: Seq<u8>)
    requires
        m.phase == SessionPhase::Handshake,
        m.engine.state == HandshakeState::AwaitGreeting,
        !m.engine.auth_pending,
        input.len() >= 1,
        input[0] != SOCKS_VERSION,
    ensures
        spec_on_client_bytes(m, input).1 == (ActionModel::Refuse {
            error: ProtocolError::BadVersion,
            reply: Seq::<u8>::empty(),
        }),
        spec_on_client_bytes(m, input).0.phase == SessionPhase::Closed,
{
}

/// A greeting that offers no acceptable method closes the session after
/// the method-rejection answer.
pub proof fn lemma_no_method_closes(m: SessionModel, methods: Seq<u8>, rest: Seq<u8>)
    requires
        m.phase == SessionPhase::Handshake,
        m.engine.state == HandshakeState::AwaitGreeting,
        !m.engine.auth_pending,
        1 <= methods.len() <= 255,
        !methods.contains(METHOD_NO_AUTH),
        m.engine.password.is_none() || !methods.contains(METHOD_PASSWORD),
    ensures
        spec_on_client_bytes(m, seq![SOCKS_VERSION, methods.len() as u8] + methods + rest).1 == (
            ActionModel::Refuse {
                error: ProtocolError::NoAcceptableMethod,
                reply: seq![SOCKS_VERSION, METHOD_NONE_ACCEPTABLE],
            }
        ),
        spec_on_client_bytes(
            m,
            seq![SOCKS_VERSION, methods.len() as u8] + methods + rest,
        ).0.phase == SessionPhase::Closed,
{
    lemma_no_acceptable_method(m.engine, methods, rest);
}

/// Once a request was accepted the client is never left without an answer:
/// whatever the backend reports, the session writes a whole reply frame,
/// success for a connection and a failure code for none.
pub proof fn lemma_connect_always_replies(m: SessionModel, outcome: Result<(), ConnectError>)
    requires
        m.phase == SessionPhase::Connecting,
    ensures
        match spec_on_connect(m, outcome).1 {
            ActionModel::StartRelay { reply } => outcome.is_ok() && reply.len() == 10 && reply[0]
                == SOCKS_VERSION && reply[1] == 0x00,
            ActionModel::Unreachable { error, reply } => outcome == Err::<(), ConnectError>(error)
                && reply.len() == 10 && reply[0] == SOCKS_VERSION && (reply[1] == 0x01 || reply[1]
                == 0x04),
            _ => false,
        },
{
}

/// The invariant of a session holds at every step.
pub proof fn lemma_session_stays_valid(
    m: SessionModel,
    input: Seq<u8>,
    outcome: Result<(), ConnectError>,
    dir: Direction,
    data: Seq<u8>,
    ok: bool,
)
    requires
        m.valid(),
        data.len() <= usize::MAX,
    ensures
        spec_on_client_bytes(m, input).0.valid(),
        spec_on_client_eof(m).0.valid(),
        spec_on_connect(m, outcome).0.valid(),
        spec_on_relay_read(m, dir, data).0.valid(),
        spec_on_relay_write(m, dir, ok).0.valid(),
{
}

} // verus!
