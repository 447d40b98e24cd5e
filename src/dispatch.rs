//! The acceptor's decisions: which worker receives each accepted
//! connection (round robin over arrival order), and what to do with the
//! outcome of handing a connection to that worker's bounded queue.

use vstd::prelude::*;

verus! {

/// The number of workers for `detected` CPU cores: one per core, and a
/// single worker when no core was detected.
pub open spec fn effective_workers(detected: nat) -> nat {
    if detected == 0 {
        1
    } else {
        detected
    }
}

/// The number of workers to run for `detected` CPU cores.
pub fn worker_count(detected: usize) -> (n: usize)
    ensures
        n as nat == effective_workers(detected as nat),
        n >= 1,
{
    if detected == 0 {
        1
    } else {
        detected
    }
}

/// What happened to the acceptor.
#[derive(Clone, Copy, Debug, PartialEq, Eq, Structural)]
pub enum AcceptorEvent {
    /// A connection was accepted from the listener.
    Accepted,
    /// Accepting failed; the listener is still usable.
    AcceptFailed,
    /// The connection in hand was queued at its worker.
    Delivered,
    /// The target worker's queue is full: nothing was queued.
    QueueFull,
    /// The target worker's queue is closed: the connection cannot be queued.
    QueueClosed,
}

/// What the acceptor does next.
#[derive(Clone, Copy, Debug, PartialEq, Eq, Structural)]
pub enum AcceptorAction {
    /// Wait for the next connection.
    Accept,
    /// Hand the connection in hand to the queue of this worker.
    Dispatch(usize),
    /// Suspend until this worker's queue has room, then hand the
    /// connection in hand to it.
    WaitThenDispatch(usize),
    /// Drop the connection in hand, then wait for the next connection.
    DropThenAccept,
}

/// The abstract state of an acceptor.
pub struct AcceptorView {
    /// How many workers connections are spread over.
    pub workers: nat,
    /// How many connections have been accepted so far.
    pub accepted: nat,
    /// The worker that the connection in hand is bound for, if one is in hand.
    pub holding: Option<nat>,
}

/// The acceptor's transition: the next state and the action to take.
pub open spec fn acceptor_step(v: AcceptorView, e: AcceptorEvent) -> (AcceptorView, AcceptorAction) {
    match v.holding {
        None => match e {
            AcceptorEvent::Accepted => {
                let w = v.accepted % v.workers;
                (
                    AcceptorView { accepted: v.accepted + 1, holding: Some(w), ..v },
                    AcceptorAction::Dispatch(w as usize),
                )
            },
            _ => (v, AcceptorAction::Accept),
        },
        Some(w) => match e {
            AcceptorEvent::Delivered => (AcceptorView { holding: None, ..v }, AcceptorAction::Accept),
            AcceptorEvent::QueueFull => (v, AcceptorAction::WaitThenDispatch(w as usize)),
            AcceptorEvent::QueueClosed => (
                AcceptorView { holding: None, ..v },
                AcceptorAction::DropThenAccept,
            ),
            _ => (v, AcceptorAction::Dispatch(w as usize)),
        },
    }
}

/// Spreads accepted connections over a fixed number of workers, in
/// strict round-robin order of arrival.
pub struct Acceptor {
    workers: usize,
    next: usize,
    holding: Option<usize>,
    accepted: Ghost<nat>,
}

impl View for Acceptor {
    type V = AcceptorView;

    closed spec fn view(&self) -> AcceptorView {
        AcceptorView {
            workers: self.workers as nat,
            accepted: self.accepted@,
            holding: match self.holding {
                Some(w) => Some(w as nat),
                None => None,
            },
        }
    }
}

impl Acceptor {
    /// The acceptor's invariant: at least one worker, and the next target
    /// is the number of accepted connections modulo the worker count.
    pub closed spec fn wf(&self) -> bool {
        &&& self.workers >= 1
        &&& self.next < self.workers
        &&& self.next == self.accepted@ % (self.workers as nat)
        &&& self.holding matches Some(w) ==> w < self.workers
    }

    /// An acceptor over the workers for `detected` CPU cores, before any
    /// connection.
    pub fn new(detected: usize) -> (r: Acceptor)
        ensures
            r.wf(),
            r@.workers == effective_workers(detected as nat),
            r@.accepted == 0,
            r@.holding is None,
    {
        let workers = worker_count(detected);
        Acceptor { workers, next: 0, holding: None, accepted: Ghost(0) }
    }

    /// How many workers connections are spread over.
    pub fn workers(&self) -> (n: usize)
        requires
            self.wf(),
        ensures
            n as nat == self@.workers,
            n >= 1,
    {
        self.workers
    }

    /// Applies one event and returns the action to take.
    pub fn step(&mut self, e: AcceptorEvent) -> (act: AcceptorAction)
        requires
            old(self).wf(),
        ensures
            final(self).wf(),
            (final(self)@, act) == acceptor_step(old(self)@, e),
    {
        match self.holding {
            None => match e {
                AcceptorEvent::Accepted => {
                    let w = self.next;
                    let ghost a = self.accepted@;
                    let n = self.workers;
                    self.next = if w + 1 == n {
                        0
                    } else {
                        w + 1
                    };
                    self.accepted = Ghost(a + 1);
                    self.holding = Some(w);
                    proof {
                        lemma_mod_succ(a, n as nat);
                    }
                    AcceptorAction::Dispatch(w)
                },
                _ => AcceptorAction::Accept,
            },
            Some(w) => match e {
                AcceptorEvent::Delivered => {
                    self.holding = None;
                    AcceptorAction::Accept
                },
                AcceptorEvent::QueueFull => AcceptorAction::WaitThenDispatch(w),
                AcceptorEvent::QueueClosed => {
                    self.holding = None;
                    AcceptorAction::DropThenAccept
                },
                _ => AcceptorAction::Dispatch(w),
            },
        }
    }
}

/// A fresh acceptor's state for `detected` CPU cores.
pub open spec fn fresh_acceptor(detected: nat) -> AcceptorView {
    AcceptorView { workers: effective_workers(detected), accepted: 0, holding: None }
}

/// The actions chosen for `k` connections that are accepted one after the
/// other, each queued at the first try.
pub open spec fn uncontended_dispatches(v: AcceptorView, k: nat) -> Seq<AcceptorAction>
    decreases k,
{
    if k == 0 {
        seq![]
    } else {
        let (held, act) = acceptor_step(v, AcceptorEvent::Accepted);
        let (idle, _) = acceptor_step(held, AcceptorEvent::Delivered);
        seq![act] + uncontended_dispatches(idle, (k - 1) as nat)
    }
}

proof fn lemma_uncontended_from(v: AcceptorView, k: nat)
    requires
        v.workers >= 1,
        v.holding is None,
    ensures
        uncontended_dispatches(v, k).len() == k,
        forall|i: int|
            0 <= i < k ==> #[trigger] uncontended_dispatches(v, k)[i] == AcceptorAction::Dispatch(
                ((v.accepted + i) % (v.workers as int)) as usize,
            ),
    decreases k,
{
    if k > 0 {
        let (held, act) = acceptor_step(v, AcceptorEvent::Accepted);
        let (idle, _) = acceptor_step(held, AcceptorEvent::Delivered);
        lemma_uncontended_from(idle, (k - 1) as nat);
        assert forall|i: int| 0 <= i < k implies #[trigger] uncontended_dispatches(v, k)[i]
            == AcceptorAction::Dispatch(((v.accepted + i) % (v.workers as int)) as usize) by {
            if i > 0 {
                assert(uncontended_dispatches(v, k)[i] == uncontended_dispatches(
                    idle,
                    (k - 1) as nat,
                )[i - 1]);
                assert(idle.accepted + (i - 1) == v.accepted + i);
            }
        }
    }
}

/// Round-robin fairness: when `k` connections are accepted one after the
/// other and each is queued at the first try, connection `i` (counted from
/// zero in arrival order) goes to worker `i` modulo the worker count.
pub proof fn round_robin_fairness(detected: nat, k: nat)
    ensures
        uncontended_dispatches(fresh_acceptor(detected), k).len() == k,
        forall|i: int|
            0 <= i < k ==> #[trigger] uncontended_dispatches(fresh_acceptor(detected), k)[i]
                == AcceptorAction::Dispatch((i % (effective_workers(detected) as int)) as usize),
{
    lemma_uncontended_from(fresh_acceptor(detected), k);
}

/// Backpressure: while a connection is in hand, a full queue makes the
/// acceptor wait for the same worker, keeping the connection and the
/// round-robin position; once the connection is queued, accepting resumes.
pub proof fn full_queue_suspends(v: AcceptorView, w: nat)
    requires
        v.holding == Some(w),
    ensures
        acceptor_step(v, AcceptorEvent::QueueFull) == (v, AcceptorAction::WaitThenDispatch(w as usize)),
        acceptor_step(v, AcceptorEvent::Delivered) == (
            AcceptorView { holding: None, ..v },
            AcceptorAction::Accept,
        ),
{
}

/// Zero detected cores are served by a single worker, so the round-robin
/// modulus is never zero.
pub proof fn zero_cores_single_worker(detected: nat)
    ensures
        effective_workers(detected) >= 1,
        detected == 0 ==> effective_workers(detected) == 1,
        detected > 0 ==> effective_workers(detected) == detected,
{
}

proof fn lemma_mod_succ(a: nat, n: nat)
    requires
        n >= 1,
    ensures
        (a + 1) % n == if a % n + 1 == n { 0 } else { a % n + 1 },
{
    if n == 1 {
        vstd::arithmetic::div_mod::lemma_mod_bound(a as int, 1);
        vstd::arithmetic::div_mod::lemma_mod_bound((a + 1) as int, 1);
    } else {
        vstd::arithmetic::div_mod::lemma_add_mod_noop(a as int, 1, n as int);
        vstd::arithmetic::div_mod::lemma_small_mod(1, n);
        vstd::arithmetic::div_mod::lemma_mod_bound(a as int, n as int);
        if a % n + 1 == n {
            vstd::arithmetic::div_mod::lemma_mod_self_0(n as int);
        } else {
            vstd::arithmetic::div_mod::lemma_small_mod((a % n + 1) as nat, n);
        }
    }
}

} // verus!
