//! The worker pool's layout: one worker per available CPU core, each bound
//! to its core, and a single unbound worker when no core is known.

use vstd::prelude::*;
use crate::dispatch::effective_workers;

verus! {

/// One worker of the pool: its index and the core it is bound to, if any.
#[derive(Clone, Copy, Debug, PartialEq, Eq, Structural)]
pub struct WorkerSlot {
    pub id: usize,
    pub core: Option<usize>,
}

/// How binding a worker's thread to its core went.
#[derive(Clone, Copy, Debug, PartialEq, Eq, Structural)]
pub enum PinOutcome {
    /// The thread now runs on its core only.
    Pinned,
    /// The worker has a core but its thread could not be bound to it; the
    /// worker runs anyway.
    Degraded,
    /// The worker has no core to be bound to.
    Unpinned,
}

/// The workers for the available cores `cores`: worker `i` is bound to
/// `cores[i]`; with no core, a single worker bound to none.
pub open spec fn worker_plan(cores: Seq<usize>) -> Seq<WorkerSlot> {
    if cores.len() == 0 {
        seq![WorkerSlot { id: 0, core: None }]
    } else {
        Seq::new(cores.len(), |i: int| WorkerSlot { id: i as usize, core: Some(cores[i]) })
    }
}

/// Lays out the workers for the available cores `cores`.
pub fn plan_workers(cores: &Vec<usize>) -> (r: Vec<WorkerSlot>)
    ensures
        r@ == worker_plan(cores@),
        r@.len() == effective_workers(cores@.len()),
{
    let mut slots: Vec<WorkerSlot> = Vec::new();
    if cores.len() == 0 {
        slots.push(WorkerSlot { id: 0, core: None });
        assert(slots@ =~= worker_plan(cores@));
        return slots;
    }
    let mut i: usize = 0;
    while i < cores.len()
        invariant
            i <= cores.len(),
            slots@ =~= worker_plan(cores@).subrange(0, i as int),
            cores.len() > 0,
        decreases cores.len() - i,
    {
        slots.push(WorkerSlot { id: i, core: Some(cores[i]) });
        i = i + 1;
    }
    assert(slots@ =~= worker_plan(cores@));
    slots
}

/// Relies on core_affinity::get_core_ids: the identifiers of the cores the
/// process may run on, or `None` when the system does not tell. Nothing is
/// promised of them: they depend on the machine.
#[verifier::external_body]
fn available_cores() -> (r: Option<Vec<usize>>) {
    core_affinity::get_core_ids().map(|ids| ids.into_iter().map(|c| c.id).collect())
}

/// Lays out the workers for the cores of this machine: one per available
/// core, or a single unbound worker when none is known.
pub fn detect_workers() -> (r: Vec<WorkerSlot>)
    ensures
        exists|cores: Seq<usize>| r@ == worker_plan(cores),
        r@.len() >= 1,
{
    let cores = match available_cores() {
        Some(ids) => ids,
        None => Vec::new(),
    };
    plan_workers(&cores)
}

/// Core indices below this bound are ones that core_affinity can bind to on
/// every system it supports. The narrowest core set it builds is a single
/// 32-bit word (32-bit Android); larger indices would overflow it. On wider
/// systems, cores at or past the bound run unbound.
pub const PINNABLE_CORES: usize = 32;

/// Relies on core_affinity::set_for_current: it binds the calling thread to
/// the core and returns whether the system accepted that. It marks the core
/// in a fixed-size core set (one 32-bit word on 32-bit Android, 64 bits on
/// Windows) without a bounds check, so larger indices panic: hence the bound.
#[verifier::external_body]
fn pin_current_thread(core: usize) -> (r: bool)
    requires
        core < PINNABLE_CORES,
{
    core_affinity::set_for_current(core_affinity::CoreId { id: core })
}

impl WorkerSlot {
    /// Binds the calling thread to this worker's core, as far as possible.
    /// A worker without a core is left unbound; a failure to bind is a
    /// degraded outcome, never an error.
    pub fn pin_current_thread(&self) -> (r: PinOutcome)
        ensures
            self.core is None <==> r == PinOutcome::Unpinned,
            (self.core matches Some(c) && c >= PINNABLE_CORES) ==> r == PinOutcome::Degraded,
    {
        match self.core {
            None => PinOutcome::Unpinned,
            Some(c) => {
                if c < PINNABLE_CORES && pin_current_thread(c) {
                    PinOutcome::Pinned
                } else {
                    PinOutcome::Degraded
                }
            },
        }
    }
}

} // verus!
