//! The duplex relay: two copy loops, one per direction, each a state machine
//! that is told what its last read or write gave and answers with what to do
//! next.

use vstd::prelude::*;
use crate::bytes::copy_range;

verus! {

/// Size of the buffer that a copy loop reads into.
pub const RELAY_BUFFER_SIZE: usize = 4096;

/// Where a copy loop stands.
#[derive(Clone, Copy, Debug, PartialEq, Eq, Structural)]
pub enum LoopState {
    /// A read is owed or under way; nothing is waiting to be written.
    Reading,
    /// The bytes of the last read are being written.
    Writing,
    /// The loop has ended and has shut its two endpoints.
    Closed,
}

/// What a copy loop does next.
#[derive(Clone, Debug, PartialEq, Eq)]
pub enum LoopAction {
    /// Read into the buffer.
    Read,
    /// Write all of `data`, in order, before anything else.
    Write { data: Vec<u8> },
    /// Shut both directions of the endpoint read from and of the endpoint
    /// written to, at once.
    Shutdown,
    /// The event does not belong to the loop's state; do nothing.
    Idle,
}

/// Mathematical value of a [`LoopAction`].
pub enum LoopStep {
    Read,
    Write { data: Seq<u8> },
    Shutdown,
    Idle,
}

impl View for LoopAction {
    type V = LoopStep;

    open spec fn view(&self) -> LoopStep {
        match self {
            LoopAction::Read => LoopStep::Read,
            LoopAction::Write { data } => LoopStep::Write { data: data@ },
            LoopAction::Shutdown => LoopStep::Shutdown,
            LoopAction::Idle => LoopStep::Idle,
        }
    }
}

/// The two directions of a relay.
#[derive(Clone, Copy, Debug, PartialEq, Eq, Structural)]
pub enum Direction {
    ClientToRemote,
    RemoteToClient,
}

/// One copy loop.
#[derive(Clone, Copy, Debug, PartialEq, Eq, Structural)]
pub struct CopyLoop {
    pub state: LoopState,
    /// Bytes read and not yet written. Zero unless the loop is writing.
    pub pending: usize,
    /// Bytes written so far, for diagnostics; stops at the largest value.
    pub forwarded: u64,
}

/// The sum of a count and an addition, held at the largest `u64`.
pub open spec fn spec_saturating_total(count: u64, more: usize) -> u64 {
    if count + more > u64::MAX {
        u64::MAX
    } else {
        (count + more) as u64
    }
}

/// The loop after a read that gave `data`, where no bytes stand for the end
/// of the stream or a failed read, and what it does next.
pub open spec fn spec_on_read(l: CopyLoop, data: Seq<u8>) -> (CopyLoop, LoopStep) {
    if l.state != LoopState::Reading {
        (l, LoopStep::Idle)
    } else if data.len() == 0 {
        (CopyLoop { state: LoopState::Closed, pending: 0, ..l }, LoopStep::Shutdown)
    } else {
        (
            CopyLoop { state: LoopState::Writing, pending: data.len() as usize, ..l },
            LoopStep::Write { data },
        )
    }
}

/// The loop after a write that succeeded or failed, and what it does next.
pub open spec fn spec_on_write(l: CopyLoop, ok: bool) -> (CopyLoop, LoopStep) {
    if l.state != LoopState::Writing {
        (l, LoopStep::Idle)
    } else if ok {
        (
            CopyLoop {
                state: LoopState::Reading,
                pending: 0,
                forwarded: spec_saturating_total(l.forwarded, l.pending),
            },
            LoopStep::Read,
        )
    } else {
        (CopyLoop { state: LoopState::Closed, pending: 0, ..l }, LoopStep::Shutdown)
    }
}

impl CopyLoop {
    /// Nothing waits to be written unless the loop is writing, and a write
    /// is never empty.
    pub open spec fn wf(&self) -> bool {
        (self.state == LoopState::Writing) == (self.pending > 0)
    }

    /// The loop before its first read: nothing pending, nothing forwarded.
    pub open spec fn spec_fresh() -> CopyLoop {
        CopyLoop { state: LoopState::Reading, pending: 0, forwarded: 0 }
    }

    /// A loop that is about to make its first read.
    pub fn new() -> (l: CopyLoop)
        ensures
            l == CopyLoop::spec_fresh(),
            l.wf(),
    {
        CopyLoop { state: LoopState::Reading, pending: 0, forwarded: 0 }
    }

    /// Whether the loop has ended.
    pub fn is_closed(&self) -> (closed: bool)
        ensures
            closed == (self.state == LoopState::Closed),
    {
        self.state == LoopState::Closed
    }

    /// Tells the loop that its read gave `data`; no bytes stand for the end
    /// of the stream or a failed read.
    pub fn on_read(&mut self, data: &[u8]) -> (action: LoopAction)
        ensures
            (*final(self), action@) == spec_on_read(*old(self), data@),
            old(self).wf() ==> final(self).wf(),
    {
        if self.state != LoopState::Reading {
            LoopAction::Idle
        } else if data.len() == 0 {
            self.state = LoopState::Closed;
            self.pending = 0;
            LoopAction::Shutdown
        } else {
            self.state = LoopState::Writing;
            self.pending = data.len();
            assert(data@.subrange(0, data@.len() as int) =~= data@);
            LoopAction::Write { data: copy_range(data, 0, data.len()) }
        }
    }

    /// Tells the loop whether its write went through.
    pub fn on_write(&mut self, ok: bool) -> (action: LoopAction)
        ensures
            (*final(self), action@) == spec_on_write(*old(self), ok),
            old(self).wf() ==> final(self).wf(),
    {
        if self.state != LoopState::Writing {
            LoopAction::Idle
        } else if ok {
            let room: u64 = u64::MAX - self.forwarded;
            if self.pending as u64 > room {
                self.forwarded = u64::MAX;
            } else {
                self.forwarded = self.forwarded + self.pending as u64;
            }
            self.state = LoopState::Reading;
            self.pending = 0;
            LoopAction::Read
        } else {
            self.state = LoopState::Closed;
            self.pending = 0;
            LoopAction::Shutdown
        }
    }
}

/// The two copy loops of one session.
#[derive(Clone, Copy, Debug, PartialEq, Eq, Structural)]
pub struct DuplexRelay {
    /// Client reader to remote writer.
    pub upstream: CopyLoop,
    /// Remote reader to client writer.
    pub downstream: CopyLoop,
}

impl DuplexRelay {
    /// Both loops are well formed.
    pub open spec fn wf(&self) -> bool {
        self.upstream.wf() && self.downstream.wf()
    }

    /// The loop of one direction.
    pub open spec fn spec_loop_of(&self, dir: Direction) -> CopyLoop {
        match dir {
            Direction::ClientToRemote => self.upstream,
            Direction::RemoteToClient => self.downstream,
        }
    }

    /// The relay with the loop of one direction replaced.
    pub open spec fn spec_with(&self, dir: Direction, l: CopyLoop) -> DuplexRelay {
        match dir {
            Direction::ClientToRemote => DuplexRelay { upstream: l, ..*self },
            Direction::RemoteToClient => DuplexRelay { downstream: l, ..*self },
        }
    }

    /// The relay is over when both loops have ended, not when the first has.
    pub open spec fn spec_finished(&self) -> bool {
        self.upstream.state == LoopState::Closed && self.downstream.state == LoopState::Closed
    }

    /// A relay whose two loops are about to make their first reads.
    pub fn new() -> (r: DuplexRelay)
        ensures
            r.upstream == CopyLoop::spec_fresh(),
            r.downstream == CopyLoop::spec_fresh(),
            r.wf(),
            !r.spec_finished(),
    {
        DuplexRelay { upstream: CopyLoop::new(), downstream: CopyLoop::new() }
    }

    /// Whether both loops have ended.
    pub fn is_finished(&self) -> (done: bool)
        ensures
            done == self.spec_finished(),
    {
        self.upstream.is_closed() && self.downstream.is_closed()
    }

    /// Bytes forwarded so far in one direction.
    pub fn forwarded(&self, dir: Direction) -> (count: u64)
        ensures
            count == self.spec_loop_of(dir).forwarded,
    {
        match dir {
            Direction::ClientToRemote => self.upstream.forwarded,
            Direction::RemoteToClient => self.downstream.forwarded,
        }
    }

    /// Tells the loop of `dir` that its read gave `data`. The other loop is
    /// left as it is.
    pub fn on_read(&mut self, dir: Direction, data: &[u8]) -> (action: LoopAction)
        ensures
            action@ == spec_on_read(old(self).spec_loop_of(dir), data@).1,
            *final(self) == old(self).spec_with(
                dir,
                spec_on_read(old(self).spec_loop_of(dir), data@).0,
            ),
            old(self).wf() ==> final(self).wf(),
    {
        match dir {
            Direction::ClientToRemote => self.upstream.on_read(data),
            Direction::RemoteToClient => self.downstream.on_read(data),
        }
    }

    /// Tells the loop of `dir` whether its write went through. The other
    /// loop is left as it is.
    pub fn on_write(&mut self, dir: Direction, ok: bool) -> (action: LoopAction)
        ensures
            action@ == spec_on_write(old(self).spec_loop_of(dir), ok).1,
            *final(self) == old(self).spec_with(
                dir,
                spec_on_write(old(self).spec_loop_of(dir), ok).0,
            ),
            old(self).wf() ==> final(self).wf(),
    {
        match dir {
            Direction::ClientToRemote => self.upstream.on_write(ok),
            Direction::RemoteToClient => self.downstream.on_write(ok),
        }
    }
}

/// What a loop writes, in order, when it is fed the reads `chunks` one
/// after the other and every write goes through: the bytes of each write
/// that it asks for, joined.
pub open spec fn spec_written(l: CopyLoop, chunks: Seq<Seq<u8>>) -> Seq<u8>
    decreases chunks.len(),
{
    if chunks.len() == 0 {
        Seq::<u8>::empty()
    } else {
        match spec_on_read(l, chunks.first()).1 {
            LoopStep::Write { data } => data + spec_written(
                spec_on_write(spec_on_read(l, chunks.first()).0, true).0,
                chunks.drop_first(),
            ),
            _ => Seq::<u8>::empty(),
        }
    }
}

/// The loop after it was fed the reads `chunks` with every write going
/// through.
pub open spec fn spec_after(l: CopyLoop, chunks: Seq<Seq<u8>>) -> CopyLoop
    decreases chunks.len(),
{
    if chunks.len() == 0 {
        l
    } else {
        match spec_on_read(l, chunks.first()).1 {
            LoopStep::Write { data } => spec_after(
                spec_on_write(spec_on_read(l, chunks.first()).0, true).0,
                chunks.drop_first(),
            ),
            _ => spec_on_read(l, chunks.first()).0,
        }
    }
}

/// A reading loop forwards what it reads verbatim and in order: fed any
/// number of non-empty reads, with every write going through, it writes
/// exactly their bytes, joined in the order read, and is then ready to read
/// again.
pub proof fn lemma_forwards_in_order(l: CopyLoop, chunks: Seq<Seq<u8>>)
    requires
        l.state == LoopState::Reading,
        forall|i: int| 0 <= i < chunks.len() ==> 0 < #[trigger] chunks[i].len() <= usize::MAX,
    ensures
        spec_written(l, chunks) == chunks.flatten(),
        spec_after(l, chunks).state == LoopState::Reading,
        l.wf() ==> spec_after(l, chunks).wf(),
    decreases chunks.len(),
{
    if chunks.len() > 0 {
        let next = spec_on_write(spec_on_read(l, chunks.first()).0, true).0;
        let rest = chunks.drop_first();
        assert(chunks[0].len() > 0);
        assert forall|i: int| 0 <= i < rest.len() implies 0 < #[trigger] rest[i].len()
            <= usize::MAX by {
            assert(rest[i] == chunks[i + 1]);
        }
        lemma_forwards_in_order(next, rest);
    }
}

/// A read of no bytes ends the forwarding: what was read before it is
/// written, what comes after it is not, and the loop is closed.
pub proof fn lemma_stops_at_end_of_stream(l: CopyLoop, before: Seq<Seq<u8>>, after: Seq<Seq<u8>>)
    requires
        l.state == LoopState::Reading,
        forall|i: int| 0 <= i < before.len() ==> 0 < #[trigger] before[i].len() <= usize::MAX,
    ensures
        spec_written(l, before + seq![Seq::<u8>::empty()] + after) == before.flatten(),
        spec_after(l, before + seq![Seq::<u8>::empty()] + after).state == LoopState::Closed,
    decreases before.len(),
{
    let all = before + seq![Seq::<u8>::empty()] + after;
    if before.len() == 0 {
        assert(all.first() == Seq::<u8>::empty());
        assert(before.flatten() =~= Seq::<u8>::empty());
    } else {
        let next = spec_on_write(spec_on_read(l, before.first()).0, true).0;
        let rest = before.drop_first();
        assert(before[0].len() > 0);
        assert(all.first() == before.first());
        assert(all.drop_first() =~= rest + seq![Seq::<u8>::empty()] + after);
        assert forall|i: int| 0 <= i < rest.len() implies 0 < #[trigger] rest[i].len()
            <= usize::MAX by {
            assert(rest[i] == before[i + 1]);
        }
        lemma_stops_at_end_of_stream(next, rest, after);
    }
}

/// A loop that reads the end of its stream ends at once and shuts its
/// endpoints, so that the other loop's read is released.
pub proof fn lemma_end_of_stream_closes(l: CopyLoop)
    requires
        l.state == LoopState::Reading,
    ensures
        spec_on_read(l, Seq::<u8>::empty()).0.state == LoopState::Closed,
        spec_on_read(l, Seq::<u8>::empty()).1 == LoopStep::Shutdown,
        spec_on_read(l, Seq::<u8>::empty()).0.forwarded == l.forwarded,
{
}

/// A loop that has ended stays ended: no event makes it read or write
/// again.
pub proof fn lemma_closed_is_final(l: CopyLoop, data: Seq<u8>, ok: bool)
    requires
        l.state == LoopState::Closed,
    ensures
        spec_on_read(l, data) == (l, LoopStep::Idle),
        spec_on_write(l, ok) == (l, LoopStep::Idle),
{
}

/// Every byte read is written before the next read: after a read the loop
/// asks for a write of exactly the bytes read, takes no further read until
/// the write is reported, and then counts them and reads again.
pub proof fn lemma_write_follows_read(l: CopyLoop, data: Seq<u8>, more: Seq<u8>)
    requires
        l.state == LoopState::Reading,
        0 < data.len() <= usize::MAX,
    ensures
        spec_on_read(l, data).1 == (LoopStep::Write { data }),
        spec_on_read(spec_on_read(l, data).0, more) == (spec_on_read(l, data).0, LoopStep::Idle),
        spec_on_write(spec_on_read(l, data).0, true).1 == LoopStep::Read,
        spec_on_write(spec_on_read(l, data).0, true).0.state == LoopState::Reading,
        spec_on_write(spec_on_read(l, data).0, true).0.forwarded == spec_saturating_total(
            l.forwarded,
            data.len() as usize,
        ),
{
}

/// Once the client's stream has ended, the relay is over as soon as the
/// remote stream has ended too, and not before: with one loop closed the
/// relay still waits for the other.
pub proof fn lemma_half_close(r: DuplexRelay)
    requires
        r.upstream.state == LoopState::Reading,
        r.downstream.state == LoopState::Reading,
    ensures
        ({
            let end = Seq::<u8>::empty();
            let a = r.spec_with(Direction::ClientToRemote, spec_on_read(r.upstream, end).0);
            let b = a.spec_with(Direction::RemoteToClient, spec_on_read(a.downstream, end).0);
            !a.spec_finished() && a.downstream == r.downstream && b.spec_finished()
        }),
{
}

/// An event in one direction leaves the other direction's loop untouched.
pub proof fn lemma_directions_are_independent(r: DuplexRelay, dir: Direction, l: CopyLoop)
    ensures
        r.spec_with(dir, l).spec_loop_of(dir) == l,
        dir == Direction::ClientToRemote ==> r.spec_with(dir, l).downstream == r.downstream,
        dir == Direction::RemoteToClient ==> r.spec_with(dir, l).upstream == r.upstream,
{
}

} // verus!
