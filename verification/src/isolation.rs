//! Many sessions at once: whatever the order in which their events arrive,
//! each session goes through the states and gives the answers that it would
//! go through and give alone.

use vstd::prelude::*;
use crate::relay::{Direction, LoopStep};
use crate::session::{
    spec_on_client_bytes, spec_on_client_eof, spec_on_connect, spec_on_relay_read,
    spec_on_relay_write, ActionModel, ConnectError, SessionModel,
};

verus! {

/// Something that a session is told.
pub enum SessionEvent {
    /// The client's untaken bytes were shown.
    ClientBytes { input: Seq<u8> },
    /// The client closed during the handshake.
    ClientEof,
    /// The outbound backend answered.
    Connected { outcome: Result<(), ConnectError> },
    /// A read of one copy loop gave `data`.
    RelayRead { dir: Direction, data: Seq<u8> },
    /// A write of one copy loop succeeded or failed.
    RelayWrite { dir: Direction, ok: bool },
}

/// What a session answers to an event.
pub enum SessionOutput {
    Action(ActionModel),
    Loop(LoopStep),
}

/// An event together with the position of the session that it is for.
pub struct Addressed {
    pub who: int,
    pub event: SessionEvent,
}

/// The session after an event, and its answer.
pub open spec fn spec_apply(m: SessionModel, e: SessionEvent) -> (SessionModel, SessionOutput) {
    match e {
        SessionEvent::ClientBytes { input } => (
            spec_on_client_bytes(m, input).0,
            SessionOutput::Action(spec_on_client_bytes(m, input).1),
        ),
        SessionEvent::ClientEof => (
            spec_on_client_eof(m).0,
            SessionOutput::Action(spec_on_client_eof(m).1),
        ),
        SessionEvent::Connected { outcome } => (
            spec_on_connect(m, outcome).0,
            SessionOutput::Action(spec_on_connect(m, outcome).1),
        ),
        SessionEvent::RelayRead { dir, data } => (
            spec_on_relay_read(m, dir, data).0,
            SessionOutput::Loop(spec_on_relay_read(m, dir, data).1),
        ),
        SessionEvent::RelayWrite { dir, ok } => (
            spec_on_relay_write(m, dir, ok).0,
            SessionOutput::Loop(spec_on_relay_write(m, dir, ok).1),
        ),
    }
}

/// The sessions after one addressed event: the session it is for takes it,
/// and an event for no session is lost.
pub open spec fn spec_system_step(sessions: Seq<SessionModel>, a: Addressed) -> Seq<SessionModel> {
    if 0 <= a.who < sessions.len() {
        sessions.update(a.who, spec_apply(sessions[a.who], a.event).0)
    } else {
        sessions
    }
}

/// The sessions after the events of `schedule`, taken in its order.
pub open spec fn spec_system_run(sessions: Seq<SessionModel>, schedule: Seq<Addressed>) -> Seq<
    SessionModel,
>
    decreases schedule.len(),
{
    if schedule.len() == 0 {
        sessions
    } else {
        spec_system_run(spec_system_step(sessions, schedule.first()), schedule.drop_first())
    }
}

/// The answers that session `i` gives in the course of `schedule`, in order.
pub open spec fn spec_system_outputs(
    sessions: Seq<SessionModel>,
    schedule: Seq<Addressed>,
    i: int,
) -> Seq<SessionOutput>
    decreases schedule.len(),
{
    if schedule.len() == 0 {
        Seq::<SessionOutput>::empty()
    } else {
        let later = spec_system_outputs(
            spec_system_step(sessions, schedule.first()),
            schedule.drop_first(),
            i,
        );
        if schedule.first().who == i && 0 <= i < sessions.len() {
            seq![spec_apply(sessions[i], schedule.first().event).1] + later
        } else {
            later
        }
    }
}

/// The events of `schedule` that are for session `i`, in order.
pub open spec fn spec_own_events(schedule: Seq<Addressed>, i: int) -> Seq<SessionEvent>
    decreases schedule.len(),
{
    if schedule.len() == 0 {
        Seq::<SessionEvent>::empty()
    } else if schedule.first().who == i {
        seq![schedule.first().event] + spec_own_events(schedule.drop_first(), i)
    } else {
        spec_own_events(schedule.drop_first(), i)
    }
}

/// One session after `events`, with no other session in sight.
pub open spec fn spec_run_alone(m: SessionModel, events: Seq<SessionEvent>) -> SessionModel
    decreases events.len(),
{
    if events.len() == 0 {
        m
    } else {
        spec_run_alone(spec_apply(m, events.first()).0, events.drop_first())
    }
}

/// The answers of one session to `events`, with no other session in sight.
pub open spec fn spec_outputs_alone(m: SessionModel, events: Seq<SessionEvent>) -> Seq<
    SessionOutput,
>
    decreases events.len(),
{
    if events.len() == 0 {
        Seq::<SessionOutput>::empty()
    } else {
        seq![spec_apply(m, events.first()).1] + spec_outputs_alone(
            spec_apply(m, events.first()).0,
            events.drop_first(),
        )
    }
}

/// Sessions are isolated from each other. However the events of any number
/// of sessions are interleaved, each session ends where its own events
/// alone would have taken it and gives, in order, the answers that it would
/// have given alone: nothing of another session's bytes, outcomes or
/// failures reaches it.
pub proof fn lemma_interleaving_is_invisible(
    sessions: Seq<SessionModel>,
    schedule: Seq<Addressed>,
    i: int,
)
    requires
        0 <= i < sessions.len(),
    ensures
        spec_system_run(sessions, schedule).len() == sessions.len(),
        spec_system_run(sessions, schedule)[i] == spec_run_alone(
            sessions[i],
            spec_own_events(schedule, i),
        ),
        spec_system_outputs(sessions, schedule, i) == spec_outputs_alone(
            sessions[i],
            spec_own_events(schedule, i),
        ),
    decreases schedule.len(),
{
    if schedule.len() > 0 {
        let head = schedule.first();
        let rest = schedule.drop_first();
        let next = spec_system_step(sessions, head);
        lemma_interleaving_is_invisible(next, rest, i);
        if head.who == i {
            let own = spec_own_events(schedule, i);
            assert(own == seq![head.event] + spec_own_events(rest, i));
            assert(own.first() == head.event);
            assert(own.drop_first() =~= spec_own_events(rest, i));
        } else {
            assert(next[i] == sessions[i]);
        }
    }
}

/// An event for one session leaves every other session as it was.
pub proof fn lemma_event_touches_one_session(sessions: Seq<SessionModel>, a: Addressed, j: int)
    requires
        0 <= j < sessions.len(),
        j != a.who,
    ensures
        spec_system_step(sessions, a).len() == sessions.len(),
        spec_system_step(sessions, a)[j] == sessions[j],
{
}

} // verus!
