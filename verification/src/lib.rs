//! A spinlock: a mutual-exclusion primitive that guards a payload value with
//! a single atomic flag and busy-waiting, never an operating-system wait.
//!
//! The library verifies the lock's protocol:
//!
//! * [`lock`] holds the lock itself — construction, the flag transitions of
//!   acquire and release, and the synchronized-access operation `with_lock` —
//!   proved over an exclusive (single-caller) model of the flag and payload.
//! * [`protocol`] fixes the decisions a contended caller makes: the two-phase
//!   busy-wait (compare-and-swap, then cheap reads while the flag stays set)
//!   and the memory ordering each atomic step must use. An unverified front
//!   end drives real atomics with exactly these decisions.
//! * [`exclusion`] proves mutual exclusion over traces of flag transitions:
//!   at most one caller is ever inside the critical section, and no update of
//!   the guarded counter is lost, whatever the interleaving.

pub mod exclusion;
pub mod lock;
pub mod protocol;
