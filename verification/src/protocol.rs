//! The contended caller's policy, fixed as data.
//!
//! A caller that finds the lock held must busy-wait, and the design is
//! two-phase: attempt the compare-and-swap only when the flag was last seen
//! clear, and otherwise poll it with plain reads, yielding the rest of the
//! scheduling quantum between polls. Plain reads let the contended cache
//! line settle into a shared state instead of forcing it exclusive on every
//! attempt, so the holder keeps access to its own line.
//!
//! `acquire_step` is that decision procedure: from the waiter's phase and
//! what the atomic operation just observed, it gives the next phase and the
//! action to take before the next operation. `order_for` gives the memory
//! ordering each atomic step of the lock must use. An unverified front end
//! maps both onto real atomic calls; everything it decides is decided here.

use vstd::prelude::*;

verus! {

/// The memory ordering an atomic step of the lock protocol uses.
#[derive(Clone, Copy, Debug, PartialEq, Eq, Structural)]
pub enum MemOrder {
    /// Atomicity alone: no cross-thread visibility is claimed.
    Relaxed,
    /// Synchronizes with the previous holder's release: everything that
    /// holder wrote is visible after this step.
    Acquire,
    /// Publishes every write of the critical section to the next acquirer.
    Release,
}

/// The atomic steps the lock protocol performs on its flag.
#[derive(Clone, Copy, Debug, PartialEq, Eq, Structural)]
pub enum AtomicStep {
    /// The compare-and-swap of unlocked to locked, on its success path.
    CasSuccess,
    /// The same compare-and-swap, on its failure path.
    CasFailure,
    /// One plain read of the flag inside the busy-wait loop.
    SpinLoad,
    /// The store of unlocked that ends the critical section.
    ReleaseStore,
}

/// The ordering each atomic step must use.
///
/// The successful compare-and-swap synchronizes with the previous release —
/// that pair of orderings is the happens-before edge that makes the payload
/// safe to touch. A failed attempt and the polling reads learned nothing a
/// caller may act on, so they claim no ordering at all.
pub open spec fn order_spec(step: AtomicStep) -> MemOrder {
    match step {
        AtomicStep::CasSuccess => MemOrder::Acquire,
        AtomicStep::CasFailure => MemOrder::Relaxed,
        AtomicStep::SpinLoad => MemOrder::Relaxed,
        AtomicStep::ReleaseStore => MemOrder::Release,
    }
}

/// Hands the front end the ordering for one atomic step of the protocol.
pub fn order_for(step: AtomicStep) -> (order: MemOrder)
    ensures
        order == order_spec(step),
{
    match step {
        AtomicStep::CasSuccess => MemOrder::Acquire,
        AtomicStep::CasFailure => MemOrder::Relaxed,
        AtomicStep::SpinLoad => MemOrder::Relaxed,
        AtomicStep::ReleaseStore => MemOrder::Release,
    }
}

/// Where a waiter stands in the two-phase acquire loop.
#[derive(Clone, Copy, Debug, PartialEq, Eq, Structural)]
pub enum AcquirePhase {
    /// About to attempt, or just attempted, the compare-and-swap.
    Trying,
    /// Inside the plain-read loop, polling the flag.
    Polling,
    /// The compare-and-swap succeeded: inside the critical section.
    Holding,
}

/// What the last atomic operation of the acquire loop observed.
#[derive(Clone, Copy, Debug, PartialEq, Eq, Structural)]
pub enum Observation {
    /// The compare-and-swap took the flag.
    CasAcquired,
    /// The compare-and-swap was refused: another caller holds the lock.
    CasRefused,
    /// A plain read saw the flag still set.
    ReadLocked,
    /// A plain read saw the flag clear.
    ReadUnlocked,
}

/// What the waiter does next, before its next atomic operation.
#[derive(Clone, Copy, Debug, PartialEq, Eq, Structural)]
pub enum Action {
    /// Proceed into the critical section.
    Enter,
    /// Read the flag again at once.
    Read,
    /// Yield the rest of the quantum, then read the flag again.
    YieldThenRead,
    /// Yield once more, then retry the compare-and-swap.
    YieldThenCas,
}

/// Which observations can follow an operation of which phase: the
/// compare-and-swap answers a `Trying` waiter, a plain read a `Polling` one.
pub open spec fn observation_fits(phase: AcquirePhase, obs: Observation) -> bool {
    match phase {
        AcquirePhase::Trying => obs == Observation::CasAcquired || obs == Observation::CasRefused,
        AcquirePhase::Polling => obs == Observation::ReadLocked || obs == Observation::ReadUnlocked,
        AcquirePhase::Holding => false,
    }
}

/// The decision table of the acquire loop.
///
/// A refused compare-and-swap drops to the plain-read phase at once; a read
/// that still sees the flag set yields and reads again; a read that sees it
/// clear yields once more and only then retries the compare-and-swap; only
/// a successful compare-and-swap enters the critical section.
pub open spec fn step_spec(phase: AcquirePhase, obs: Observation) -> (AcquirePhase, Action) {
    match obs {
        Observation::CasAcquired => (AcquirePhase::Holding, Action::Enter),
        Observation::CasRefused => (AcquirePhase::Polling, Action::Read),
        Observation::ReadLocked => (AcquirePhase::Polling, Action::YieldThenRead),
        Observation::ReadUnlocked => (AcquirePhase::Trying, Action::YieldThenCas),
    }
}

/// One decision of the acquire loop: from the waiter's phase and what its
/// last atomic operation observed, the next phase and the action to take.
pub fn acquire_step(phase: AcquirePhase, obs: Observation) -> (r: (AcquirePhase, Action))
    requires
        observation_fits(phase, obs),
    ensures
        r == step_spec(phase, obs),
{
    match obs {
        Observation::CasAcquired => (AcquirePhase::Holding, Action::Enter),
        Observation::CasRefused => (AcquirePhase::Polling, Action::Read),
        Observation::ReadLocked => (AcquirePhase::Polling, Action::YieldThenRead),
        Observation::ReadUnlocked => (AcquirePhase::Trying, Action::YieldThenCas),
    }
}

/// A waiter enters the critical section only on a successful
/// compare-and-swap, and entering is where the holding phase begins: no
/// plain read, however it went, lets a waiter in.
pub proof fn lemma_enter_only_after_cas(phase: AcquirePhase, obs: Observation)
    requires
        observation_fits(phase, obs),
        step_spec(phase, obs).1 == Action::Enter,
    ensures
        obs == Observation::CasAcquired,
        phase == AcquirePhase::Trying,
        step_spec(phase, obs).0 == AcquirePhase::Holding,
{
}

/// While the flag is observed held, the waiter never issues another
/// compare-and-swap: it stays in the plain-read phase. This is the
/// two-phase design — read-modify-write traffic only when the flag was
/// actually seen clear.
pub proof fn lemma_no_cas_while_held(phase: AcquirePhase)
    requires
        observation_fits(phase, Observation::ReadLocked),
    ensures
        step_spec(phase, Observation::ReadLocked).0 == AcquirePhase::Polling,
        step_spec(phase, Observation::ReadLocked).1 == Action::YieldThenRead,
{
}

} // verus!
