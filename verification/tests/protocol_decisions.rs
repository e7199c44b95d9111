use spinlock::protocol::{acquire_step, order_for, AcquirePhase, Action, AtomicStep, MemOrder, Observation};

#[test]
fn orderings_follow_the_acquire_release_contract() {
    // The successful compare-and-swap synchronizes with the previous
    // release; the failure path and the polling reads claim nothing.
    assert_eq!(order_for(AtomicStep::CasSuccess), MemOrder::Acquire);
    assert_eq!(order_for(AtomicStep::CasFailure), MemOrder::Relaxed);
    assert_eq!(order_for(AtomicStep::SpinLoad), MemOrder::Relaxed);
    assert_eq!(order_for(AtomicStep::ReleaseStore), MemOrder::Release);
}

#[test]
fn successful_cas_enters_the_critical_section() {
    let (phase, action) = acquire_step(AcquirePhase::Trying, Observation::CasAcquired);
    assert_eq!(phase, AcquirePhase::Holding);
    assert_eq!(action, Action::Enter);
}

#[test]
fn refused_cas_drops_to_plain_reads() {
    let (phase, action) = acquire_step(AcquirePhase::Trying, Observation::CasRefused);
    assert_eq!(phase, AcquirePhase::Polling);
    assert_eq!(action, Action::Read);
}

#[test]
fn held_flag_keeps_polling_without_a_cas() {
    let (phase, action) = acquire_step(AcquirePhase::Polling, Observation::ReadLocked);
    assert_eq!(phase, AcquirePhase::Polling);
    assert_eq!(action, Action::YieldThenRead);
}

#[test]
fn clear_flag_yields_once_more_then_retries_the_cas() {
    let (phase, action) = acquire_step(AcquirePhase::Polling, Observation::ReadUnlocked);
    assert_eq!(phase, AcquirePhase::Trying);
    assert_eq!(action, Action::YieldThenCas);
}
