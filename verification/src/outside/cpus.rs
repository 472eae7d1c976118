//! The number of logical CPUs, from `num_cpus`.
use vstd::prelude::*;

verus! {

/// Calls `num_cpus::get`, which depends on the machine: at least one.
#[verifier::external_body]
pub(crate) fn logical_cpus() -> (cpus: usize)
    ensures
        cpus >= 1,
{
    num_cpus::get()
}

} // verus!
