//! Resource-aware worker-pool sizing: a pure mapping from available memory and
//! CPU count to a worker count.

use vstd::prelude::*;

verus! {

/// Worker count chosen for a host with `mem_mb` megabytes of available memory
/// and `cores` logical CPUs: capped at an 8-way ceiling, throttled further on
/// low-memory hosts, and never below 1.
pub open spec fn plan_spec(mem_mb: nat, cores: nat) -> nat {
    let base = if cores <= 8 { cores } else { 8 };
    let capped = if mem_mb < 512 {
        if base <= 2 { base } else { 2 }
    } else if mem_mb < 1024 {
        if base <= 4 { base } else { 4 }
    } else {
        base
    };
    if capped >= 1 { capped } else { 1 }
}

/// Computes how many parallel workers a batch may use, from the host's
/// available memory (in megabytes) and logical CPU count.
pub fn calculate_parallelism(available_memory_mb: u64, cpu_cores: usize) -> (r: usize)
    ensures
        r == plan_spec(available_memory_mb as nat, cpu_cores as nat),
        1 <= r <= 8,
{
    let mut parallelism: usize = if cpu_cores < 8 { cpu_cores } else { 8 };
    if available_memory_mb < 512 {
        if parallelism > 2 {
            parallelism = 2;
        }
    } else if available_memory_mb < 1024 {
        if parallelism > 4 {
            parallelism = 4;
        }
    }
    if parallelism < 1 {
        parallelism = 1;
    }
    parallelism
}

/// The planned worker count always lies in `[1, 8]`, whatever the host looks
/// like.
pub proof fn lemma_plan_bounds(mem_mb: nat, cores: nat)
    ensures
        1 <= plan_spec(mem_mb, cores) <= 8,
{
}

/// Holding the CPU count fixed, shrinking available memory never raises the
/// planned worker count: the plan is monotone in memory.
pub proof fn lemma_plan_monotone_in_memory(mem_lo: nat, mem_hi: nat, cores: nat)
    requires
        mem_lo <= mem_hi,
    ensures
        plan_spec(mem_lo, cores) <= plan_spec(mem_hi, cores),
{
}

} // verus!
