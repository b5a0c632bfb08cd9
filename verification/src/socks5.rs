//! The acceptor: holds the listen configuration and starts one session for
//! each accepted connection, each with an identifier of its own.

use vstd::prelude::*;
use crate::bytes::copy_range;
use crate::engine::HandshakeState;
use crate::session::{Session, SessionId, SessionPhase};

verus! {

/// Listen configuration of the proxy.
#[derive(Clone, Debug, PartialEq, Eq)]
pub struct BasePassiveConfig {
    pub local_host: String,
    pub local_port: u16,
    /// Where set, clients that do not offer "no authentication" must give
    /// this password.
    pub password: Option<Vec<u8>>,
}

/// The SOCKS5 acceptor.
#[derive(Debug)]
pub struct Socks5Passive {
    password: Option<Vec<u8>>,
    next_id: u64,
    active: u64,
    limit: u64,
}

/// Mathematical value of a [`Socks5Passive`].
pub struct PassiveModel {
    pub password: Option<Seq<u8>>,
    /// The identifier that the next session gets. Every identifier given so
    /// far is smaller.
    pub next_id: u64,
    /// Sessions started and not yet released.
    pub active: u64,
    /// The most sessions that may be active at once.
    pub limit: u64,
}

impl PassiveModel {
    /// Whether a further connection is admitted: an identifier is left and
    /// the limit on active sessions is not reached.
    pub open spec fn admits(self) -> bool {
        self.next_id < u64::MAX && self.active < self.limit
    }
}

/// The bytes of an optional password.
pub open spec fn spec_password(p: Option<Vec<u8>>) -> Option<Seq<u8>> {
    match p {
        Some(v) => Some(v@),
        None => None,
    }
}

/// Copies an optional password.
pub fn copy_password(p: &Option<Vec<u8>>) -> (out: Option<Vec<u8>>)
    ensures
        spec_password(out) == spec_password(*p),
{
    match p {
        Some(v) => Some(copy_range(v.as_slice(), 0, v.len())),
        None => None,
    }
}

impl View for Socks5Passive {
    type V = PassiveModel;

    closed spec fn view(&self) -> PassiveModel {
        PassiveModel {
            password: spec_password(self.password),
            next_id: self.next_id,
            active: self.active,
            limit: self.limit,
        }
    }
}

impl Socks5Passive {
    /// An acceptor that has accepted nothing yet and sets no bound on the
    /// number of sessions at once.
    pub fn new(passive: &BasePassiveConfig) -> (acceptor: Socks5Passive)
        ensures
            acceptor@ == (PassiveModel {
                password: spec_password(passive.password),
                next_id: 0,
                active: 0,
                limit: u64::MAX,
            }),
    {
        Socks5Passive {
            password: copy_password(&passive.password),
            next_id: 0,
            active: 0,
            limit: u64::MAX,
        }
    }

    /// An acceptor that has accepted nothing yet and admits at most `limit`
    /// sessions at once.
    pub fn with_limit(passive: &BasePassiveConfig, limit: u64) -> (acceptor: Socks5Passive)
        ensures
            acceptor@ == (PassiveModel {
                password: spec_password(passive.password),
                next_id: 0,
                active: 0,
                limit,
            }),
    {
        Socks5Passive { password: copy_password(&passive.password), next_id: 0, active: 0, limit }
    }

    /// Number of sessions started so far.
    pub fn accepted(&self) -> (n: u64)
        ensures
            n == self@.next_id,
    {
        self.next_id
    }

    /// Number of sessions started and not yet released.
    pub fn active(&self) -> (n: u64)
        ensures
            n == self@.active,
    {
        self.active
    }

    /// Starts the session of a newly accepted connection. Its identifier is
    /// larger than every identifier given before. `None` exactly when the
    /// connection is not admitted; the acceptor is then unchanged.
    pub fn accept(&mut self) -> (session: Option<Session>)
        ensures
            final(self)@ == spec_accept(old(self)@).0,
            match spec_accept(old(self)@).1 {
                None => session.is_none(),
                Some(id) => session matches Some(s) && s.wf() && s@.id == id && s@.phase
                    == SessionPhase::Handshake && s@.engine.state == HandshakeState::AwaitGreeting
                    && !s@.engine.auth_pending && s@.engine.password == old(self)@.password,
            },
    {
        if self.next_id == u64::MAX || self.active >= self.limit {
            return None;
        }
        let id: u64 = self.next_id;
        self.next_id = id + 1;
        self.active = self.active + 1;
        Some(Session::new(SessionId::new(id), copy_password(&self.password)))
    }

    /// Tells the acceptor that one of its sessions has ended, which makes
    /// room for another. With no session active nothing changes.
    pub fn release(&mut self)
        ensures
            final(self)@ == spec_release(old(self)@),
    {
        if self.active > 0 {
            self.active = self.active - 1;
        }
    }
}

/// The acceptor after a connection arrived, and the identifier of the
/// session that was started, if the connection was admitted.
pub open spec fn spec_accept(m: PassiveModel) -> (PassiveModel, Option<u64>) {
    if m.admits() {
        (
            PassiveModel {
                next_id: (m.next_id + 1) as u64,
                active: (m.active + 1) as u64,
                ..m
            },
            Some(m.next_id),
        )
    } else {
        (m, None)
    }
}

/// The acceptor after one of its sessions ended.
pub open spec fn spec_release(m: PassiveModel) -> PassiveModel {
    PassiveModel {
        active: if m.active > 0 {
            (m.active - 1) as u64
        } else {
            0
        },
        ..m
    }
}

/// Identifiers never repeat: each one given is below the counter that is
/// left behind, and neither an accept nor a release ever lowers the counter,
/// so a session accepted later has a larger identifier.
pub proof fn lemma_identifiers_grow(m: PassiveModel)
    ensures
        spec_accept(m).1 matches Some(id) ==> id == m.next_id && id < spec_accept(m).0.next_id,
        spec_accept(m).0.next_id >= m.next_id,
        spec_release(m).next_id == m.next_id,
        spec_accept(spec_accept(m).0).1 matches Some(second) ==> second > m.next_id,
{
}

/// The limit on active sessions holds: an acceptor within its limit stays
/// within it, and a release makes room for one more session.
pub proof fn lemma_limit_holds(m: PassiveModel)
    requires
        m.active <= m.limit,
    ensures
        spec_accept(m).0.active <= m.limit,
        spec_release(m).active <= m.limit,
        m.active == m.limit && m.limit > 0 ==> spec_accept(m).1.is_none(),
        m.active == m.limit && m.limit > 0 && m.next_id < u64::MAX ==> spec_accept(
            spec_release(m),
        ).1 == Some(m.next_id),
{
}

} // verus!
