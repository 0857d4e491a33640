//! Interleaved runs of the protocol and their laws.
//!
//! The owner and its children move one at a time; a run is the sequence
//! of states such an interleaving passes through. The lemmas here state
//! the protocol's guarantees over whole runs: well-formedness and the
//! set flag survive every interleaving, and a resume issued by a
//! finishing child stays pending through any activity of the other
//! children until the owner's own suspension consumes it — the reason a
//! wakeup cannot be lost, however the race falls out.

use vstd::prelude::*;

use crate::SyncSelect;

verus! {

/// One interleaved move: a spawn by the owner, a finishing child's
/// signal step, or the owner's completed suspension. The owner's flag
/// check moves no state, so it does not appear.
pub enum ProtocolStep {
    Spawn,
    Signal,
    Park,
}

/// Whether a step can be taken in a state: a spawn needs room in the
/// count, a signal needs a spawned child that has not yet completed, and
/// a suspension completes only on a pending resume.
pub open spec fn step_enabled(pre: SyncSelect, step: ProtocolStep) -> bool {
    match step {
        ProtocolStep::Spawn => pre.num_spawned() < u64::MAX,
        ProtocolStep::Signal => pre.num_completed() < pre.num_spawned(),
        ProtocolStep::Park => pre.pending_resume(),
    }
}

/// The transition one step makes, as the machine's step relations state
/// it.
pub open spec fn step_rel(pre: SyncSelect, step: ProtocolStep, post: SyncSelect) -> bool {
    match step {
        ProtocolStep::Spawn => SyncSelect::spawn_step(pre, post, (pre.num_spawned() + 1) as u64),
        ProtocolStep::Signal => SyncSelect::signal_step(pre, post),
        ProtocolStep::Park => SyncSelect::park_step(pre, post),
    }
}

/// A run of the protocol: `states[0]` is where it starts, and each step
/// of `steps` is enabled in the state it leaves and relates that state
/// to the next.
pub open spec fn is_run(states: Seq<SyncSelect>, steps: Seq<ProtocolStep>) -> bool {
    &&& states.len() == steps.len() + 1
    &&& forall|i: int|
        0 <= i < steps.len() ==> #[trigger] step_enabled(states[i], steps[i]) && step_rel(
            states[i],
            steps[i],
            states[i + 1],
        )
}

/// Well-formedness is inductive: every state of a run from a well-formed
/// start is well-formed.
pub proof fn lemma_run_preserves_wf(states: Seq<SyncSelect>, steps: Seq<ProtocolStep>, i: int)
    requires
        is_run(states, steps),
        states[0].wf(),
        0 <= i < states.len(),
    ensures
        states[i].wf(),
    decreases i,
{
    if i > 0 {
        lemma_run_preserves_wf(states, steps, i - 1);
        assert(step_enabled(states[i - 1], steps[i - 1]));
    }
}

/// The flag is sticky over whole runs: set at some state, it is set at
/// every later state, whatever the interleaving does in between.
pub proof fn lemma_run_flag_monotone(
    states: Seq<SyncSelect>,
    steps: Seq<ProtocolStep>,
    i: int,
    j: int,
)
    requires
        is_run(states, steps),
        0 <= i <= j < states.len(),
        states[i].signaled(),
    ensures
        states[j].signaled(),
    decreases j - i,
{
    if j > i {
        lemma_run_flag_monotone(states, steps, i, j - 1);
        assert(step_enabled(states[j - 1], steps[j - 1]));
    }
}

/// A pending resume is consumed only by the owner's own suspension: it
/// survives every spawn and every further signal in between. The owner,
/// once it has decided to suspend, therefore cannot have its resume
/// taken away by anything the children do.
pub proof fn lemma_resume_persists(
    states: Seq<SyncSelect>,
    steps: Seq<ProtocolStep>,
    i: int,
    j: int,
)
    requires
        is_run(states, steps),
        0 <= i <= j < states.len(),
        states[i].pending_resume(),
        forall|m: int| i <= m < j ==> (#[trigger] steps[m]) != ProtocolStep::Park,
    ensures
        states[j].pending_resume(),
    decreases j - i,
{
    if j > i {
        lemma_resume_persists(states, steps, i, j - 1);
        assert(step_enabled(states[j - 1], steps[j - 1]));
        assert(steps[j - 1] != ProtocolStep::Park);
    }
}

/// No lost wakeup, over whole runs: once some child has run its signal
/// step, then at any later point the owner has not yet suspended, a
/// resume is still pending and the flag is set. The suspension the
/// owner takes from such a state is enabled — it completes at once
/// rather than blocking — and the wait returns with the flag set. This
/// covers the racing interleaving in which the owner's check saw the
/// flag clear just before the child finished.
pub proof fn lemma_run_no_lost_wakeup(
    states: Seq<SyncSelect>,
    steps: Seq<ProtocolStep>,
    j: int,
    k: int,
)
    requires
        is_run(states, steps),
        0 <= j < k < states.len(),
        steps[j] == ProtocolStep::Signal,
        forall|m: int| j < m < k ==> (#[trigger] steps[m]) != ProtocolStep::Park,
    ensures
        states[k].pending_resume(),
        states[k].signaled(),
        step_enabled(states[k], ProtocolStep::Park),
        forall|after: SyncSelect|
            step_rel(states[k], ProtocolStep::Park, after) ==> #[trigger] after.signaled(),
{
    assert(step_enabled(states[j], steps[j]));
    assert(states[j + 1].pending_resume());
    lemma_resume_persists(states, steps, j + 1, k);
    lemma_run_flag_monotone(states, steps, j + 1, k);
}

} // verus!
