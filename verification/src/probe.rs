//! The host-resource probe: a snapshot read of available memory and CPU
//! count, and the planned worker count derived from it. The snapshot itself
//! is trusted; nothing is promised of what a given host reports.

use vstd::prelude::*;
use crate::planner;

verus! {

#[verifier::external_type_specification]
#[verifier::external_body]
pub struct ExSystem(sysinfo::System);

/// Relies on `sysinfo::System::new_all`: takes a full snapshot of host state.
pub assume_specification[ sysinfo::System::new_all ]() -> sysinfo::System;

/// Relies on `sysinfo::System::available_memory`: the memory available for
/// (re)use at snapshot time, in bytes. A machine-dependent reading, so
/// nothing is promised of its value.
pub assume_specification[ sysinfo::System::available_memory ](s: &sysinfo::System) -> u64;

/// Relies on `sysinfo::System::cpus`: the number of logical CPUs in the
/// snapshot. A machine-dependent reading, so nothing is promised of it.
#[verifier::external_body]
fn cpu_count(sys: &sysinfo::System) -> usize {
    sys.cpus().len()
}

/// Reads the host's available memory (in megabytes) and logical CPU count.
/// No failure path: a host that cannot report stats yields conservative
/// readings (zero), which the planner turns into a single worker.
pub fn probe_host_stats() -> (r: (u64, usize)) {
    let sys = sysinfo::System::new_all();
    let mem_bytes = sys.available_memory();
    let available_memory_mb = mem_bytes / (1024 * 1024);
    let cores = cpu_count(&sys);
    (available_memory_mb, cores)
}

/// Probes the host and plans the batch's worker count from the snapshot.
/// Whatever the host reports, the count lies in `[1, 8]`.
pub fn plan_parallelism_for_host() -> (r: usize)
    ensures
        1 <= r <= 8,
{
    let stats = probe_host_stats();
    planner::calculate_parallelism(stats.0, stats.1)
}

} // verus!
