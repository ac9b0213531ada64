//! The errors that the vCPU table reports.

use vstd::prelude::*;

verus! {

/// Why a request to the vCPU table was turned down.
#[derive(Clone, Copy, Debug, PartialEq, Eq, Structural, PartialOrd, Ord, Hash)]
pub enum Error {
    /// The vCPU identifier is not below `MAX_CPUS`.
    BadCpuId,
    /// The slot has already been populated.
    VmCpuExists,
    /// The slot holds no vCPU.
    VmCpuNotFound,
    /// The vCPU is claimed for running on some physical CPU.
    VmCpuRunning,
    /// The page range handed to the table is smaller than `VM_CPUS_PAGES`.
    InsufficientVmCpuStorage,
}

} // verus!
