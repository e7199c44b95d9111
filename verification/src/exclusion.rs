//! Mutual exclusion, proved over traces of flag transitions.
//!
//! Shared memory interleaves the callers' atomic operations on the flag into
//! one total order. This module models that order as a sequence of events —
//! a successful compare-and-swap, one write inside the critical section, a
//! release store — each enabled only in the states the flag allows, and an
//! auxiliary counter `inside` records how many callers are in the critical
//! section at each instant. The laws here hold of every valid trace, that
//! is, of every interleaving the flag admits: `inside` never exceeds one,
//! the holder's own retry is never enabled, independent instances never
//! disable one another, and no guarded increment is ever lost.

use vstd::prelude::*;

verus! {

/// One lock instance's state at an instant of the interleaving: the flag,
/// how many callers are inside the critical section, and the value of a
/// guarded counter payload.
pub struct LockState {
    pub locked: bool,
    pub inside: nat,
    pub count: nat,
}

/// The flag transitions a trace is made of.
pub enum LockEvent {
    /// A successful compare-and-swap of unlocked to locked: the caller
    /// enters the critical section. A refused attempt changes nothing and
    /// so never appears in a trace.
    Acquire,
    /// One increment of the guarded counter, performed inside the critical
    /// section.
    Work,
    /// The release store: the holder leaves the critical section.
    Release,
}

/// A fresh lock: flag clear, nobody inside, the counter at its initial
/// value.
pub open spec fn initial_state(c0: nat) -> LockState {
    LockState { locked: false, inside: 0, count: c0 }
}

/// When the flag admits an event: the compare-and-swap succeeds only on a
/// clear flag, and only the holder of a set flag may touch the payload or
/// release.
pub open spec fn enabled(s: LockState, e: LockEvent) -> bool {
    match e {
        LockEvent::Acquire => !s.locked,
        LockEvent::Work => s.locked,
        LockEvent::Release => s.locked,
    }
}

/// The state after one event.
pub open spec fn apply(s: LockState, e: LockEvent) -> LockState {
    match e {
        LockEvent::Acquire => LockState { locked: true, inside: s.inside + 1, count: s.count },
        LockEvent::Work => LockState { locked: s.locked, inside: s.inside, count: s.count + 1 },
        LockEvent::Release => LockState {
            locked: false,
            inside: (s.inside - 1) as nat,
            count: s.count,
        },
    }
}

/// The state a trace reaches from `s`.
pub open spec fn run(s: LockState, tr: Seq<LockEvent>) -> LockState
    decreases tr.len(),
{
    if tr.len() == 0 {
        s
    } else {
        run(apply(s, tr[0]), tr.skip(1))
    }
}

/// Whether every event of the trace is enabled in the state it meets: the
/// valid traces are exactly the interleavings the flag admits.
pub open spec fn valid_from(s: LockState, tr: Seq<LockEvent>) -> bool
    decreases tr.len(),
{
    tr.len() == 0 || (enabled(s, tr[0]) && valid_from(apply(s, tr[0]), tr.skip(1)))
}

/// How many guarded increments a trace performs.
pub open spec fn work_count(tr: Seq<LockEvent>) -> nat
    decreases tr.len(),
{
    if tr.len() == 0 {
        0
    } else {
        (if tr[0] is Work {
            1nat
        } else {
            0nat
        }) + work_count(tr.skip(1))
    }
}

/// The lock's invariant: at most one caller inside, and exactly one when
/// and only when the flag is set.
pub open spec fn inv(s: LockState) -> bool {
    s.inside <= 1 && (s.locked <==> s.inside == 1)
}

/// Each enabled event preserves the invariant: taking the flag brings the
/// one holder in, releasing takes it out, work moves nobody.
pub proof fn lemma_step_preserves_inv(s: LockState, e: LockEvent)
    requires
        inv(s),
        enabled(s, e),
    ensures
        inv(apply(s, e)),
{
}

/// Mutual exclusion: along any valid trace from a well-formed state, at
/// every instant — after any prefix of the interleaving — at most one
/// caller is inside the critical section.
pub proof fn lemma_mutual_exclusion(s: LockState, tr: Seq<LockEvent>, i: int)
    requires
        inv(s),
        valid_from(s, tr),
        0 <= i <= tr.len(),
    ensures
        inv(run(s, tr.take(i))),
        run(s, tr.take(i)).inside <= 1,
    decreases i,
{
    if i == 0 {
        assert(tr.take(0).len() == 0);
    } else {
        let s1 = apply(s, tr[0]);
        lemma_step_preserves_inv(s, tr[0]);
        lemma_mutual_exclusion(s1, tr.skip(1), i - 1);
        assert(tr.take(i).skip(1) =~= tr.skip(1).take(i - 1));
        assert(tr.take(i)[0] == tr[0]);
    }
}

/// No increment is lost: the counter a trace reaches is exactly the
/// starting value plus the number of guarded increments the trace performs,
/// whatever the interleaving around them.
pub proof fn lemma_no_lost_updates(s: LockState, tr: Seq<LockEvent>)
    ensures
        run(s, tr).count == s.count + work_count(tr),
    decreases tr.len(),
{
    if tr.len() != 0 {
        lemma_no_lost_updates(apply(s, tr[0]), tr.skip(1));
    }
}

/// The linearized total: a trace carrying the increments of `n` callers
/// with `m` guarded increments each — `n * m` work events in all — leaves
/// the counter at exactly the starting value plus `n * m`.
pub proof fn lemma_counter_totals(s: LockState, tr: Seq<LockEvent>, n: nat, m: nat)
    requires
        work_count(tr) == n * m,
    ensures
        run(s, tr).count == s.count + n * m,
{
    lemma_no_lost_updates(s, tr);
}

/// Traces compose: running a trace made of two parts is running the first
/// part, then the second from where the first left off.
pub proof fn lemma_run_append(s: LockState, a: Seq<LockEvent>, b: Seq<LockEvent>)
    ensures
        run(s, a + b) == run(run(s, a), b),
    decreases a.len(),
{
    if a.len() == 0 {
        assert(a + b =~= b);
    } else {
        assert((a + b)[0] == a[0]);
        assert((a + b).skip(1) =~= a.skip(1) + b);
        lemma_run_append(apply(s, a[0]), a.skip(1), b);
    }
}

/// Guarded increments add up across the parts of a trace.
pub proof fn lemma_work_count_append(a: Seq<LockEvent>, b: Seq<LockEvent>)
    ensures
        work_count(a + b) == work_count(a) + work_count(b),
    decreases a.len(),
{
    if a.len() == 0 {
        assert(a + b =~= b);
    } else {
        assert((a + b)[0] == a[0]);
        assert((a + b).skip(1) =~= a.skip(1) + b);
        lemma_work_count_append(a.skip(1), b);
    }
}

/// Release visibility: the counter observed at any later instant is the
/// counter at any earlier instant plus exactly the guarded increments
/// performed in between. A critical section that runs after another's
/// release therefore observes every one of that section's increments — the
/// single total order of flag transitions carries each write forward. The
/// acquire and release orderings fixed in [`crate::protocol`] are what
/// entitle the flag to induce that order on real hardware.
pub proof fn lemma_release_visibility(s: LockState, tr: Seq<LockEvent>, i: int, j: int)
    requires
        0 <= i <= j <= tr.len(),
    ensures
        run(s, tr.take(j)).count == run(s, tr.take(i)).count + work_count(tr.subrange(i, j)),
{
    assert(tr.take(i) + tr.subrange(i, j) =~= tr.take(j));
    lemma_run_append(s, tr.take(i), tr.subrange(i, j));
    lemma_no_lost_updates(run(s, tr.take(i)), tr.subrange(i, j));
}

/// No reentry: while the flag is held, no acquisition — the holder's own
/// retry included — is enabled. A caller that takes the lock again from
/// inside its critical section therefore spins forever.
pub proof fn lemma_no_reentrant_acquire(s: LockState)
    requires
        s.locked,
    ensures
        !enabled(s, LockEvent::Acquire),
{
}

/// Independent instances never interact: two separate locks are separate
/// states, acquiring either leaves the other's acquisition enabled, and
/// both callers stand inside their critical sections at once.
pub proof fn lemma_instances_independent(a: LockState, b: LockState)
    requires
        inv(a),
        inv(b),
        !a.locked,
        !b.locked,
    ensures
        enabled(a, LockEvent::Acquire),
        enabled(b, LockEvent::Acquire),
        apply(a, LockEvent::Acquire).inside == 1,
        apply(b, LockEvent::Acquire).inside == 1,
{
}

} // verus!
