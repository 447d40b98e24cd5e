//! The lifecycle of an RPC session, and a worker's record of the sessions
//! it runs. Each session moves on its own events only: what happens to one
//! session leaves every other session as it was.

use vstd::prelude::*;
use crate::pool::WorkerSlot;

verus! {

/// Why a session's protocol exchange ended in failure.
#[derive(Clone, Copy, Debug, PartialEq, Eq, Structural)]
pub enum SessionFault {
    /// The connection broke (an I/O failure).
    Disconnected,
    /// The peer broke the protocol, or the protocol layer failed.
    Protocol,
}

/// Where a session stands.
#[derive(Clone, Copy, Debug, PartialEq, Eq, Structural)]
pub enum SessionState {
    /// Spawned; the protocol layer is not yet bound to the connection.
    Handshaking,
    /// The protocol layer serves the connection.
    Active,
    /// The peer closed the connection.
    Closed,
    /// The exchange ended with an error.
    Failed(SessionFault),
}

/// What the protocol layer reports of a session.
#[derive(Clone, Copy, Debug, PartialEq, Eq, Structural)]
pub enum SessionEvent {
    /// The protocol layer is bound to the connection.
    Bound,
    /// The exchange ended cleanly.
    Ended,
    /// The exchange ended with an error.
    Broke(SessionFault),
}

/// Whether a session has ended for good.
pub open spec fn is_terminal(s: SessionState) -> bool {
    s is Closed || s is Failed
}

/// A session's transition on one of its own events. Ended sessions stay
/// as they are.
pub open spec fn session_step(s: SessionState, e: SessionEvent) -> SessionState {
    if is_terminal(s) {
        s
    } else {
        match e {
            SessionEvent::Bound => SessionState::Active,
            SessionEvent::Ended => SessionState::Closed,
            SessionEvent::Broke(f) => SessionState::Failed(f),
        }
    }
}

impl SessionState {
    /// The state after event `e`.
    pub fn next(self, e: SessionEvent) -> (r: SessionState)
        ensures
            r == session_step(self, e),
    {
        match self {
            SessionState::Closed | SessionState::Failed(_) => self,
            _ => match e {
                SessionEvent::Bound => SessionState::Active,
                SessionEvent::Ended => SessionState::Closed,
                SessionEvent::Broke(f) => SessionState::Failed(f),
            },
        }
    }

    /// Whether the session has ended for good.
    pub fn is_terminal(&self) -> (r: bool)
        ensures
            r == is_terminal(*self),
    {
        match self {
            SessionState::Closed | SessionState::Failed(_) => true,
            _ => false,
        }
    }
}

/// The sessions of a worker after event `e` on session `i`.
pub open spec fn after_event(sessions: Seq<SessionState>, i: int, e: SessionEvent) -> Seq<
    SessionState,
> {
    sessions.update(i, session_step(sessions[i], e))
}

/// A worker: its slot in the pool and the record of the sessions it runs,
/// indexed by a number local to the worker. The record of an ended
/// session is reused for a later one.
pub struct Worker {
    slot: WorkerSlot,
    sessions: Vec<SessionState>,
}

impl View for Worker {
    type V = Seq<SessionState>;

    closed spec fn view(&self) -> Seq<SessionState> {
        self.sessions@
    }
}

impl Worker {
    /// This worker's slot in the pool.
    pub closed spec fn spec_slot(&self) -> WorkerSlot {
        self.slot
    }

    /// A worker for `slot`, running no session.
    pub fn new(slot: WorkerSlot) -> (r: Worker)
        ensures
            r.spec_slot() == slot,
            r@.len() == 0,
    {
        Worker { slot, sessions: Vec::new() }
    }

    /// This worker's slot in the pool.
    pub fn slot(&self) -> (r: WorkerSlot)
        ensures
            r == self.spec_slot(),
    {
        self.slot
    }

    /// How many session records this worker holds, ended ones included.
    pub fn sessions(&self) -> (n: usize)
        ensures
            n == self@.len(),
    {
        self.sessions.len()
    }

    /// Records a new session, in the record of an ended one if there is
    /// one, and returns its index.
    pub fn open_session(&mut self) -> (idx: usize)
        ensures
            final(self).spec_slot() == old(self).spec_slot(),
            idx <= old(self)@.len(),
            idx < final(self)@.len(),
            final(self)@[idx as int] == SessionState::Handshaking,
            idx < old(self)@.len() ==> is_terminal(old(self)@[idx as int]),
            idx < old(self)@.len() ==> final(self)@ == old(self)@.update(
                idx as int,
                SessionState::Handshaking,
            ),
            idx == old(self)@.len() ==> final(self)@ == old(self)@.push(SessionState::Handshaking),
            (exists|j: int| 0 <= j < old(self)@.len() && is_terminal(old(self)@[j])) ==> idx < old(
                self,
            )@.len(),
    {
        let mut i: usize = 0;
        while i < self.sessions.len()
            invariant
                i <= self.sessions@.len(),
                self.sessions@ == old(self).sessions@,
                self.slot == old(self).slot,
                forall|j: int| 0 <= j < i ==> !is_terminal(#[trigger] self.sessions@[j]),
            decreases self.sessions.len() - i,
        {
            if self.sessions[i].is_terminal() {
                self.sessions.set(i, SessionState::Handshaking);
                return i;
            }
            i = i + 1;
        }
        self.sessions.push(SessionState::Handshaking);
        i
    }

    /// Applies event `e` to session `idx` and returns that session's new
    /// state. No other session changes.
    pub fn session_event(&mut self, idx: usize, e: SessionEvent) -> (r: SessionState)
        requires
            idx < old(self)@.len(),
        ensures
            final(self).spec_slot() == old(self).spec_slot(),
            final(self)@ == after_event(old(self)@, idx as int, e),
            r == session_step(old(self)@[idx as int], e),
    {
        let s = self.sessions[idx].next(e);
        self.sessions.set(idx, s);
        s
    }

    /// How many of this worker's sessions have not ended.
    pub fn live_sessions(&self) -> (n: usize)
        ensures
            n == self@.filter(|s: SessionState| !is_terminal(s)).len(),
    {
        let mut n: usize = 0;
        let mut i: usize = 0;
        while i < self.sessions.len()
            invariant
                i <= self.sessions@.len(),
                n == self.sessions@.subrange(0, i as int).filter(
                    |s: SessionState| !is_terminal(s),
                ).len(),
                n <= i,
            decreases self.sessions.len() - i,
        {
            proof {
                let pre = self.sessions@.subrange(0, i as int);
                assert(self.sessions@.subrange(0, i + 1) =~= pre.push(self.sessions@[i as int]));
                pre.lemma_filter_push(self.sessions@[i as int], |s: SessionState| !is_terminal(s));
            }
            if !self.sessions[i].is_terminal() {
                n = n + 1;
            }
            i = i + 1;
        }
        assert(self.sessions@.subrange(0, i as int) =~= self.sessions@);
        n
    }
}

/// Isolation: an event on session `i` of a worker, a failure included,
/// leaves every other session of that worker as it was.
pub proof fn event_leaves_other_sessions(sessions: Seq<SessionState>, i: int, e: SessionEvent, j: int)
    requires
        0 <= i < sessions.len(),
        0 <= j < sessions.len(),
        i != j,
    ensures
        after_event(sessions, i, e).len() == sessions.len(),
        after_event(sessions, i, e)[j] == sessions[j],
{
}

} // verus!
