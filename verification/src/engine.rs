//! The handshake engine: one state machine per session, fed with the bytes
//! that the client has sent and answering with what to write back.

use vstd::prelude::*;
use crate::addr::DecodeError;
use crate::bytes::bytes_equal;
use crate::handshake::{
    lemma_auth_ignores_what_follows, lemma_greeting_ignores_what_follows,
    lemma_request_ignores_what_follows, parse_auth, parse_greeting, parse_request, select_method,
    spec_parse_auth, spec_parse_greeting, spec_parse_request, spec_select_method, Parse, Parsed,
    ProtocolError, ProxyInfo, ProxyInfoModel,
};
use crate::wire::{
    auth_reply, method_reply, plain_reply, spec_auth_reply, spec_method_reply, spec_plain_reply,
    ReplyCode, AUTH_OK, AUTH_REFUSED, CMD_CONNECT, METHOD_NONE_ACCEPTABLE, METHOD_NO_AUTH,
    METHOD_PASSWORD, SOCKS_VERSION,
};

verus! {

/// Where a handshake stands.
#[derive(Clone, Copy, Debug, PartialEq, Eq, Structural)]
pub enum HandshakeState {
    /// Waiting for the greeting, or for the password exchange that the
    /// greeting led to.
    AwaitGreeting,
    /// A method is agreed; waiting for the request.
    AwaitRequest,
    /// The request was accepted. Terminal.
    Established,
    /// The handshake was refused. Terminal.
    Failed,
}

/// The handshake state machine of one session.
#[derive(Debug)]
pub struct HandshakeEngine {
    state: HandshakeState,
    password: Option<Vec<u8>>,
    auth_pending: bool,
}

/// Mathematical value of a [`HandshakeEngine`].
pub struct EngineModel {
    pub state: HandshakeState,
    /// The configured password, if the session has one.
    pub password: Option<Seq<u8>>,
    /// Username/password was selected and the exchange is still owed.
    pub auth_pending: bool,
}

/// What the engine decided on the bytes it was shown.
#[derive(Debug, PartialEq, Eq)]
pub enum Step {
    /// The bytes are a proper prefix of the next message; nothing was taken.
    NeedMore,
    /// `consumed` bytes were taken; write `reply` and go on.
    Continue { consumed: usize, reply: Vec<u8> },
    /// `consumed` bytes were taken and the request is accepted. No reply is
    /// written yet: it waits for the outcome of the outbound connection.
    Established { consumed: usize, info: ProxyInfo },
    /// The handshake is refused; write `reply`, which may be empty, and close.
    Failed { error: ProtocolError, reply: Vec<u8> },
    /// The engine had already finished; nothing was taken.
    Finished,
}

/// Mathematical value of a [`Step`].
pub enum StepModel {
    NeedMore,
    Continue { consumed: int, reply: Seq<u8> },
    Established { consumed: int, info: ProxyInfoModel },
    Failed { error: ProtocolError, reply: Seq<u8> },
    Finished,
}

impl View for Step {
    type V = StepModel;

    open spec fn view(&self) -> StepModel {
        match self {
            Step::NeedMore => StepModel::NeedMore,
            Step::Continue { consumed, reply } => StepModel::Continue {
                consumed: *consumed as int,
                reply: reply@,
            },
            Step::Established { consumed, info } => StepModel::Established {
                consumed: *consumed as int,
                info: info@,
            },
            Step::Failed { error, reply } => StepModel::Failed { error: *error, reply: reply@ },
            Step::Finished => StepModel::Finished,
        }
    }
}

/// What is written to the client when a greeting is refused: nothing where
/// no common version exists, else the method-rejection answer.
pub open spec fn spec_greeting_refusal(e: ProtocolError) -> Seq<u8> {
    match e {
        ProtocolError::BadVersion => Seq::<u8>::empty(),
        _ => spec_method_reply(METHOD_NONE_ACCEPTABLE),
    }
}

/// The reply code that reports a refused request.
pub open spec fn spec_request_refusal_code(e: ProtocolError) -> ReplyCode {
    match e {
        ProtocolError::UnsupportedCommand => ReplyCode::CommandNotSupported,
        ProtocolError::BadAddress(DecodeError::UnknownType) => {
            ReplyCode::AddressTypeNotSupported
        },
        _ => ReplyCode::GeneralFailure,
    }
}

/// The engine with its state replaced by `Failed`.
pub open spec fn spec_fail(m: EngineModel) -> EngineModel {
    EngineModel { state: HandshakeState::Failed, ..m }
}

/// The engine after its handshake was given up: failed, unless it had
/// already accepted a request.
pub open spec fn spec_abandon(m: EngineModel) -> EngineModel {
    if m.state == HandshakeState::Established {
        m
    } else {
        spec_fail(m)
    }
}

/// The step taken on a greeting.
pub open spec fn spec_step_greeting(m: EngineModel, input: Seq<u8>) -> (EngineModel, StepModel) {
    match spec_parse_greeting(input) {
        Parse::Incomplete => (m, StepModel::NeedMore),
        Parse::Invalid(e) => (
            spec_fail(m),
            StepModel::Failed { error: e, reply: spec_greeting_refusal(e) },
        ),
        Parse::Complete(methods, n) => match spec_select_method(methods, m.password.is_some()) {
            None => (
                spec_fail(m),
                StepModel::Failed {
                    error: ProtocolError::NoAcceptableMethod,
                    reply: spec_method_reply(METHOD_NONE_ACCEPTABLE),
                },
            ),
            Some(method) => (
                EngineModel {
                    state: if method == METHOD_PASSWORD {
                        HandshakeState::AwaitGreeting
                    } else {
                        HandshakeState::AwaitRequest
                    },
                    auth_pending: method == METHOD_PASSWORD,
                    ..m
                },
                StepModel::Continue { consumed: n, reply: spec_method_reply(method) },
            ),
        },
    }
}

/// The step taken on a password exchange.
pub open spec fn spec_step_auth(m: EngineModel, input: Seq<u8>) -> (EngineModel, StepModel) {
    match spec_parse_auth(input) {
        Parse::Incomplete => (m, StepModel::NeedMore),
        Parse::Invalid(e) => (
            spec_fail(m),
            StepModel::Failed { error: e, reply: spec_auth_reply(AUTH_REFUSED) },
        ),
        Parse::Complete(cred, n) => if m.password == Some(cred.password) {
            (
                EngineModel { state: HandshakeState::AwaitRequest, auth_pending: false, ..m },
                StepModel::Continue { consumed: n, reply: spec_auth_reply(AUTH_OK) },
            )
        } else {
            (
                spec_fail(m),
                StepModel::Failed {
                    error: ProtocolError::AuthFailed,
                    reply: spec_auth_reply(AUTH_REFUSED),
                },
            )
        },
    }
}

/// The step taken on a request.
pub open spec fn spec_step_request(m: EngineModel, input: Seq<u8>) -> (EngineModel, StepModel) {
    match spec_parse_request(input) {
        Parse::Incomplete => (m, StepModel::NeedMore),
        Parse::Invalid(e) => (
            spec_fail(m),
            StepModel::Failed { error: e, reply: spec_plain_reply(spec_request_refusal_code(e)) },
        ),
        Parse::Complete(info, n) => (
            EngineModel { state: HandshakeState::Established, ..m },
            StepModel::Established { consumed: n, info },
        ),
    }
}

/// The transition function of the engine: from its value and the bytes
/// received and not yet taken, to its next value and what was decided.
pub open spec fn spec_step(m: EngineModel, input: Seq<u8>) -> (EngineModel, StepModel) {
    match m.state {
        HandshakeState::AwaitGreeting => if m.auth_pending {
            spec_step_auth(m, input)
        } else {
            spec_step_greeting(m, input)
        },
        HandshakeState::AwaitRequest => spec_step_request(m, input),
        HandshakeState::Established => (m, StepModel::Finished),
        HandshakeState::Failed => (m, StepModel::Finished),
    }
}

impl View for HandshakeEngine {
    type V = EngineModel;

    closed spec fn view(&self) -> EngineModel {
        EngineModel {
            state: self.state,
            password: match self.password {
                Some(p) => Some(p@),
                None => None,
            },
            auth_pending: self.auth_pending,
        }
    }
}

impl HandshakeEngine {
    /// A fresh engine, waiting for a greeting. With a password, clients that
    /// do not offer "no authentication" are asked for it.
    pub fn new(password: Option<Vec<u8>>) -> (engine: HandshakeEngine)
        ensures
            engine@.state == HandshakeState::AwaitGreeting,
            !engine@.auth_pending,
            engine@.password == match password {
                Some(p) => Some(p@),
                None => None::<Seq<u8>>,
            },
    {
        HandshakeEngine { state: HandshakeState::AwaitGreeting, password, auth_pending: false }
    }

    /// Where the handshake stands.
    pub fn state(&self) -> (s: HandshakeState)
        ensures
            s == self@.state,
    {
        self.state
    }

    /// Whether the handshake has ended, accepted or refused.
    pub fn is_finished(&self) -> (done: bool)
        ensures
            done == (self@.state == HandshakeState::Established || self@.state
                == HandshakeState::Failed),
    {
        match self.state {
            HandshakeState::Established => true,
            HandshakeState::Failed => true,
            _ => false,
        }
    }

    /// Gives the handshake up, as when the client closes in the middle of
    /// it. A finished engine is left as it is.
    pub fn abandon(&mut self)
        ensures
            final(self)@ == spec_abandon(old(self)@),
    {
        match self.state {
            HandshakeState::Established => {},
            _ => {
                self.state = HandshakeState::Failed;
            },
        }
    }

    fn step_greeting(&mut self, input: &[u8]) -> (step: Step)
        ensures
            (final(self)@, step@) == spec_step_greeting(old(self)@, input@),
    {
        match parse_greeting(input) {
            Parsed::Incomplete => Step::NeedMore,
            Parsed::Invalid(e) => {
                self.state = HandshakeState::Failed;
                let reply = match e {
                    ProtocolError::BadVersion => Vec::new(),
                    _ => method_reply(METHOD_NONE_ACCEPTABLE),
                };
                Step::Failed { error: e, reply }
            },
            Parsed::Complete(methods, n) => {
                match select_method(methods.as_slice(), self.password.is_some()) {
                    None => {
                        self.state = HandshakeState::Failed;
                        Step::Failed {
                            error: ProtocolError::NoAcceptableMethod,
                            reply: method_reply(METHOD_NONE_ACCEPTABLE),
                        }
                    },
                    Some(method) => {
                        if method == METHOD_PASSWORD {
                            self.auth_pending = true;
                            self.state = HandshakeState::AwaitGreeting;
                        } else {
                            self.auth_pending = false;
                            self.state = HandshakeState::AwaitRequest;
                        }
                        Step::Continue { consumed: n, reply: method_reply(method) }
                    },
                }
            },
        }
    }

    fn step_auth(&mut self, input: &[u8]) -> (step: Step)
        ensures
            (final(self)@, step@) == spec_step_auth(old(self)@, input@),
    {
        match parse_auth(input) {
            Parsed::Incomplete => Step::NeedMore,
            Parsed::Invalid(e) => {
                self.state = HandshakeState::Failed;
                Step::Failed { error: e, reply: auth_reply(AUTH_REFUSED) }
            },
            Parsed::Complete(cred, n) => {
                let accepted = match &self.password {
                    Some(p) => bytes_equal(p.as_slice(), cred.password.as_slice()),
                    None => false,
                };
                if accepted {
                    self.state = HandshakeState::AwaitRequest;
                    self.auth_pending = false;
                    Step::Continue { consumed: n, reply: auth_reply(AUTH_OK) }
                } else {
                    self.state = HandshakeState::Failed;
                    Step::Failed {
                        error: ProtocolError::AuthFailed,
                        reply: auth_reply(AUTH_REFUSED),
                    }
                }
            },
        }
    }

    fn step_request(&mut self, input: &[u8]) -> (step: Step)
        ensures
            (final(self)@, step@) == spec_step_request(old(self)@, input@),
            step matches Step::Established { info, .. } ==> info.wf(),
    {
        match parse_request(input) {
            Parsed::Incomplete => Step::NeedMore,
            Parsed::Invalid(e) => {
                self.state = HandshakeState::Failed;
                let code = match e {
                    ProtocolError::UnsupportedCommand => ReplyCode::CommandNotSupported,
                    ProtocolError::BadAddress(DecodeError::UnknownType) => {
                        ReplyCode::AddressTypeNotSupported
                    },
                    _ => ReplyCode::GeneralFailure,
                };
                Step::Failed { error: e, reply: plain_reply(code) }
            },
            Parsed::Complete(info, n) => {
                self.state = HandshakeState::Established;
                Step::Established { consumed: n, info }
            },
        }
    }

    /// Shows the engine the bytes that the client has sent and that no
    /// earlier step has taken. The engine takes one whole message from their
    /// front, or nothing, and says what to do next.
    pub fn step(&mut self, input: &[u8]) -> (step: Step)
        ensures
            (final(self)@, step@) == spec_step(old(self)@, input@),
            step matches Step::Established { info, .. } ==> info.wf(),
    {
        match self.state {
            HandshakeState::AwaitGreeting => {
                if self.auth_pending {
                    self.step_auth(input)
                } else {
                    self.step_greeting(input)
                }
            },
            HandshakeState::AwaitRequest => self.step_request(input),
            HandshakeState::Established => Step::Finished,
            HandshakeState::Failed => Step::Finished,
        }
    }
}

/// A greeting whose version byte is not the protocol's version is refused
/// with nothing written back, whatever follows the byte.
pub proof fn lemma_bad_version_is_silent(m: EngineModel, input: Seq<u8>)
    requires
        m.state == HandshakeState::AwaitGreeting,
        !m.auth_pending,
        input.len() >= 1,
        input[0] != SOCKS_VERSION,
    ensures
        spec_step(m, input) == (
            spec_fail(m),
            StepModel::Failed { error: ProtocolError::BadVersion, reply: Seq::<u8>::empty() },
        ),
{
}

/// A whole greeting that offers neither "no authentication" nor, where a
/// password is configured, username/password is answered with the
/// method-rejection code, and the handshake has failed.
pub proof fn lemma_no_acceptable_method(m: EngineModel, methods: Seq<u8>, rest: Seq<u8>)
    requires
        m.state == HandshakeState::AwaitGreeting,
        !m.auth_pending,
        1 <= methods.len() <= 255,
        !methods.contains(METHOD_NO_AUTH),
        m.password.is_none() || !methods.contains(METHOD_PASSWORD),
    ensures
        spec_step(m, seq![SOCKS_VERSION, methods.len() as u8] + methods + rest) == (
            spec_fail(m),
            StepModel::Failed {
                error: ProtocolError::NoAcceptableMethod,
                reply: seq![SOCKS_VERSION, METHOD_NONE_ACCEPTABLE],
            },
        ),
{
    let input = seq![SOCKS_VERSION, methods.len() as u8] + methods + rest;
    assert(input[0] == SOCKS_VERSION);
    assert(input[1] == methods.len() as u8);
    assert(input.subrange(2, 2 + methods.len() as int) =~= methods);
    assert(spec_method_reply(METHOD_NONE_ACCEPTABLE) =~= seq![
        SOCKS_VERSION,
        METHOD_NONE_ACCEPTABLE,
    ]);
}

/// A request whose command is not CONNECT, BIND among them, is answered
/// with the command-not-supported reply as soon as the command byte is
/// there, and the handshake has failed: no target is ever produced.
pub proof fn lemma_unsupported_command(m: EngineModel, input: Seq<u8>)
    requires
        m.state == HandshakeState::AwaitRequest,
        input.len() >= 2,
        input[0] == SOCKS_VERSION,
        input[1] != CMD_CONNECT,
    ensures
        spec_step(m, input) == (
            spec_fail(m),
            StepModel::Failed {
                error: ProtocolError::UnsupportedCommand,
                reply: spec_plain_reply(ReplyCode::CommandNotSupported),
            },
        ),
        spec_plain_reply(ReplyCode::CommandNotSupported)[1] == 0x07,
{
}

/// A terminal engine stays as it is and takes nothing.
pub proof fn lemma_terminal_is_stable(m: EngineModel, input: Seq<u8>)
    requires
        m.state == HandshakeState::Established || m.state == HandshakeState::Failed,
    ensures
        spec_step(m, input) == (m, StepModel::Finished),
{
}

/// Whatever the engine takes lies within the bytes it was shown, and it
/// takes at least two bytes whenever it goes on.
pub proof fn lemma_step_consumes_within_input(m: EngineModel, input: Seq<u8>)
    ensures
        match spec_step(m, input).1 {
            StepModel::Continue { consumed, .. } => 2 <= consumed <= input.len(),
            StepModel::Established { consumed, .. } => 2 <= consumed <= input.len(),
            _ => true,
        },
{
}

/// The engine reads one message at a time: once the bytes shown suffice
/// for a decision, the decision does not depend on the bytes that follow.
/// So it is the same whether the client's bytes arrive at once or in pieces.
pub proof fn lemma_step_ignores_what_follows(m: EngineModel, input: Seq<u8>, rest: Seq<u8>)
    requires
        !(spec_step(m, input).1 is NeedMore),
    ensures
        spec_step(m, input + rest) == spec_step(m, input),
{
    match m.state {
        HandshakeState::AwaitGreeting => {
            if m.auth_pending {
                lemma_auth_ignores_what_follows(input, rest);
            } else {
                lemma_greeting_ignores_what_follows(input, rest);
            }
        },
        HandshakeState::AwaitRequest => {
            lemma_request_ignores_what_follows(input, rest);
        },
        _ => {},
    }
}

/// A request that fails once the method is agreed is always reported: the
/// reply is a whole reply frame whose code is not success.
pub proof fn lemma_request_failure_is_reported(m: EngineModel, input: Seq<u8>)
    requires
        m.state == HandshakeState::AwaitRequest,
        spec_step(m, input).1 is Failed,
    ensures
        spec_step(m, input).1->Failed_reply.len() == 10,
        spec_step(m, input).1->Failed_reply[0] == SOCKS_VERSION,
        spec_step(m, input).1->Failed_reply[1] != 0x00,
        spec_step(m, input).0.state == HandshakeState::Failed,
{
}

} // verus!
