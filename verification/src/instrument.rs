//! Observed CPU/memory cost of one entrypoint invocation, as sampled by the
//! host-side budget harness.

use vstd::prelude::*;

verus! {

/// Observed CPU/memory cost for a single entrypoint invocation.
#[derive(Clone, Copy, Debug, PartialEq, Eq, Structural)]
pub struct BudgetSample {
    pub cpu_instructions: u64,
    pub memory_bytes: u64,
}

} // verus!
