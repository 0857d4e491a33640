//! A first-responder coordination primitive: a thread spawns several
//! concurrent children and blocks until at least one of them — not all —
//! has completed, while the rest keep running.
//!
//! The handshake rests on two shared pieces: a sticky completion flag,
//! written `true` by every finishing child, and a sticky resume for the
//! owner, issued by every finishing child after its flag store. The
//! owner's wait returns at once when the flag is set and otherwise
//! suspends until a resume arrives; because the resume is sticky, a
//! child that finishes between the owner's flag check and its suspension
//! cannot be lost.
//!
//! This crate verifies the protocol itself. [`SyncSelect`] records, for
//! one coordinator, the flag, the owner's pending-resume token, and how
//! many children were spawned and have completed; each protocol step is
//! an executable method whose contract pins the transition, and the
//! protocol's laws are proved as lemmas over those transitions. The
//! shell that runs the machine on real execution units — one step per
//! interleaved thread — lives outside the verified library.

use vstd::prelude::*;

pub mod runs;

verus! {

/// A clonable handle naming the execution unit that owns a coordinator:
/// what external code holds if it wants to identify the unit a finishing
/// child must wake.
#[derive(Clone, Copy, Debug, PartialEq, Eq, Structural)]
pub struct OwnerHandle {
    id: u64,
}

impl OwnerHandle {
    /// The owning execution unit's number.
    pub closed spec fn id_spec(&self) -> u64 {
        self.id
    }

    /// The owning execution unit's number.
    pub fn id(&self) -> (r: u64)
        ensures
            r == self.id_spec(),
    {
        self.id
    }
}

/// The protocol state of one coordinator: its owner, the shared
/// completion flag, the owner's sticky resume token, and the population
/// of children spawned from it.
pub struct SyncSelect {
    owner: u64,
    any: bool,
    token: bool,
    n_spawned: u64,
    n_completed: u64,
}

impl SyncSelect {
    /// The shared completion flag, as the owner's acquire load sees it.
    pub closed spec fn signaled(&self) -> bool {
        self.any
    }

    /// Whether a sticky resume for the owner is pending and not yet
    /// consumed by a suspension.
    pub closed spec fn pending_resume(&self) -> bool {
        self.token
    }

    /// How many children were spawned from this coordinator.
    pub closed spec fn num_spawned(&self) -> u64 {
        self.n_spawned
    }

    /// How many of them have run their signal step.
    pub closed spec fn num_completed(&self) -> u64 {
        self.n_completed
    }

    /// The number of the execution unit that owns this coordinator.
    pub closed spec fn owner_id(&self) -> u64 {
        self.owner
    }

    /// Protocol invariant: no more children complete than were spawned;
    /// the flag is set exactly when some child has completed; and a
    /// resume is issued only after the flag store, so a pending resume
    /// implies the flag.
    pub open spec fn wf(&self) -> bool {
        &&& self.num_completed() <= self.num_spawned()
        &&& (self.signaled() <==> self.num_completed() >= 1)
        &&& (self.pending_resume() ==> self.signaled())
    }

    /// What construction yields: a clear flag, no pending resume, and no
    /// children yet, owned by the given execution unit.
    pub open spec fn fresh(&self, owner: u64) -> bool {
        &&& self.owner_id() == owner
        &&& !self.signaled()
        &&& !self.pending_resume()
        &&& self.num_spawned() == 0
        &&& self.num_completed() == 0
    }

    /// The spawn transition: one more child is registered; the flag,
    /// the resume token and the completions do not move. The new child
    /// is numbered by its position.
    pub open spec fn spawn_step(pre: Self, post: Self, child: u64) -> bool {
        &&& child == pre.num_spawned() + 1
        &&& post.num_spawned() == pre.num_spawned() + 1
        &&& post.num_completed() == pre.num_completed()
        &&& post.signaled() == pre.signaled()
        &&& post.pending_resume() == pre.pending_resume()
        &&& post.owner_id() == pre.owner_id()
    }

    /// A child's signal step: store `true` into the shared flag, then
    /// issue a sticky resume for the owner; one more child is complete.
    /// Writing `true` over `true` is harmless, so the step reads the
    /// same whether or not a sibling signaled first.
    pub open spec fn signal_step(pre: Self, post: Self) -> bool {
        &&& post.signaled()
        &&& post.pending_resume()
        &&& post.num_completed() == pre.num_completed() + 1
        &&& post.num_spawned() == pre.num_spawned()
        &&& post.owner_id() == pre.owner_id()
    }

    /// The owner's completed suspension: the pending resume is consumed;
    /// nothing else moves.
    pub open spec fn park_step(pre: Self, post: Self) -> bool {
        &&& !post.pending_resume()
        &&& post.signaled() == pre.signaled()
        &&& post.num_spawned() == pre.num_spawned()
        &&& post.num_completed() == pre.num_completed()
        &&& post.owner_id() == pre.owner_id()
    }

    /// One whole wait: with the flag already set it returns at once and
    /// moves nothing; otherwise it is a completed suspension.
    pub open spec fn join_step(pre: Self, post: Self) -> bool {
        if pre.signaled() {
            post == pre
        } else {
            Self::park_step(pre, post)
        }
    }

    /// Construct a coordinator for the calling execution unit (numbered
    /// 0 here; children are numbered from 1 within each coordinator).
    pub fn new() -> (s: Self)
        ensures
            s.wf(),
            s.fresh(0),
    {
        SyncSelect { owner: 0, any: false, token: false, n_spawned: 0, n_completed: 0 }
    }

    /// A clonable handle to the owning execution unit.
    pub fn thread(&self) -> (h: OwnerHandle)
        ensures
            h.id_spec() == self.owner_id(),
    {
        OwnerHandle { id: self.owner }
    }

    /// The owner's acquire load of the shared completion flag.
    pub fn poll(&self) -> (b: bool)
        ensures
            b == self.signaled(),
    {
        self.any
    }

    /// Register one spawned child; its number within this coordinator is
    /// returned. Spawning alone never sets the flag: only the child's
    /// later signal step does.
    pub fn spawn(&mut self) -> (child: u64)
        requires
            old(self).wf(),
            old(self).num_spawned() < u64::MAX,
        ensures
            final(self).wf(),
            Self::spawn_step(*old(self), *final(self), child),
    {
        self.n_spawned = self.n_spawned + 1;
        self.n_spawned
    }

    /// Register one spawned child and build the fresh coordinator that
    /// the child will own for its own fan-out group. The nested
    /// coordinator's flag and resume token are its own, owned by the
    /// child: nothing done through it touches this coordinator, and this
    /// coordinator's flag still transitions only through the child's own
    /// outer signal step, after the nested work is done.
    pub fn spawn_with(&mut self) -> (r: (u64, SyncSelect))
        requires
            old(self).wf(),
            old(self).num_spawned() < u64::MAX,
        ensures
            final(self).wf(),
            Self::spawn_step(*old(self), *final(self), r.0),
            r.1.wf(),
            r.1.fresh(r.0),
    {
        let child = self.spawn();
        let nested = SyncSelect {
            owner: child,
            any: false,
            token: false,
            n_spawned: 0,
            n_completed: 0,
        };
        (child, nested)
    }

    /// A child's signal step, run after its task finishes whether the
    /// task succeeded or failed: set the shared flag, then issue the
    /// sticky resume. Only a child that was spawned and has not yet
    /// completed runs it, hence the bound.
    pub fn signal(&mut self)
        requires
            old(self).wf(),
            old(self).num_completed() < old(self).num_spawned(),
        ensures
            final(self).wf(),
            Self::signal_step(*old(self), *final(self)),
    {
        self.any = true;
        self.token = true;
        self.n_completed = self.n_completed + 1;
    }

    /// The owner's suspension on the sticky-resume primitive, in the
    /// state in which it completes: a resume is pending, so the
    /// suspension returns at once and consumes it. With no pending
    /// resume the primitive blocks until one arrives — forever, if no
    /// child will ever issue one; waiting on a coordinator that never
    /// spawned is the documented hazard of this design, and the
    /// precondition keeps that state out.
    pub fn park(&mut self)
        requires
            old(self).wf(),
            old(self).pending_resume(),
        ensures
            final(self).wf(),
            Self::park_step(*old(self), *final(self)),
    {
        self.token = false;
    }

    /// The owner's wait: return at once when the shared flag is set,
    /// otherwise suspend until a resume arrives. It returns exactly when
    /// at least one child has run its signal step, which the
    /// precondition states; under it, and the invariant that a resume is
    /// only issued after the flag store, the suspension is never taken
    /// here. A wait that does suspend is the interleaved step sequence
    /// `poll`, `signal`, `park`, one step per thread that moves.
    pub fn join(&mut self)
        requires
            old(self).wf(),
            old(self).num_completed() >= 1,
        ensures
            final(self).wf(),
            Self::join_step(*old(self), *final(self)),
    {
        if !self.poll() {
            self.park();
        }
    }

    /// How many children were spawned from this coordinator.
    pub fn spawned(&self) -> (r: u64)
        ensures
            r == self.num_spawned(),
    {
        self.n_spawned
    }

    /// How many of them have run their signal step.
    pub fn completed(&self) -> (r: u64)
        ensures
            r == self.num_completed(),
    {
        self.n_completed
    }
}

impl Default for SyncSelect {
    /// Same as [`SyncSelect::new`].
    fn default() -> (s: Self)
        ensures
            s.wf(),
            s.fresh(0),
    {
        SyncSelect::new()
    }
}

/// The wait decision from the loaded flag alone: the owner suspends
/// exactly when its load of the shared flag saw `false`. A shell that
/// runs the protocol on real execution units feeds this the loaded value
/// and performs the suspension itself.
pub fn park_decision(flag_seen: bool) -> (b: bool)
    ensures
        b == !flag_seen,
{
    !flag_seen
}

/// The completion flag is sticky: no step of the protocol clears it, so
/// once any wait has observed it set, every later observation sees it
/// set too.
pub proof fn lemma_flag_monotone(pre: SyncSelect, post: SyncSelect, child: u64)
    requires
        pre.signaled(),
        SyncSelect::spawn_step(pre, post, child) || SyncSelect::signal_step(pre, post)
            || SyncSelect::park_step(pre, post) || SyncSelect::join_step(pre, post),
    ensures
        post.signaled(),
{
}

/// No lost wakeup: if the owner's flag check saw `false` and a child
/// then runs its whole signal step — the racing interleaving that a
/// plain, non-sticky notify would lose — a resume is pending when the
/// owner suspends, so the suspension completes, and the flag is set when
/// the wait returns.
pub proof fn lemma_no_lost_wakeup(s0: SyncSelect, s1: SyncSelect, s2: SyncSelect)
    requires
        s0.wf(),
        !s0.signaled(),
        SyncSelect::signal_step(s0, s1),
        SyncSelect::park_step(s1, s2),
    ensures
        s1.pending_resume(),
        s2.signaled(),
{
}

/// A wait is idempotent: once at least one child has completed, a wait
/// moves nothing, and so any number of further waits return at once with
/// the state unchanged.
pub proof fn lemma_join_idempotent(s0: SyncSelect, s1: SyncSelect, s2: SyncSelect)
    requires
        s0.wf(),
        s0.num_completed() >= 1,
        SyncSelect::join_step(s0, s1),
        SyncSelect::join_step(s1, s2),
    ensures
        s1 == s0,
        s2 == s0,
{
}

/// Nested coordinators are independent: the coordinator handed to a
/// child by `spawn_with` starts with its own clear flag, owned by that
/// child, and a grandchild's signal step through it sets only the nested
/// flag — the outer flag does not move, neither when the nested
/// coordinator is created nor when the nested group signals.
pub proof fn lemma_nested_independent(
    outer0: SyncSelect,
    outer1: SyncSelect,
    child: u64,
    nested0: SyncSelect,
    nested1: SyncSelect,
)
    requires
        SyncSelect::spawn_step(outer0, outer1, child),
        nested0.fresh(child),
        SyncSelect::signal_step(nested0, nested1),
    ensures
        outer1.signaled() == outer0.signaled(),
        !nested0.signaled(),
        nested1.signaled(),
        nested1.owner_id() == child,
{
}

} // verus!
