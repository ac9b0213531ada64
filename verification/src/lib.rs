//! The virtual-CPU core of a hypervisor for RISC-V harts with the
//! hypervisor extension: the register-state frame that is exchanged with
//! the world-switch, the vCPU engine that prepares a guest's entry state and
//! classifies its exits, and the table that arbitrates vCPU slots among
//! physical CPUs.

pub mod csr;
pub mod error;
pub mod exit;
pub mod frame;
pub mod imsic;
pub mod pages;
pub mod regs;
pub mod sbi;
pub mod status;
pub mod table;
pub mod vcpu;

pub use error::Error;
pub use exit::{TrapKind, VmCpuExit};
pub use frame::{
    GuestCpuState, GuestCsr, GuestVCpuState, HostCpuState, HostCsr, VmCpuState, VmCpuTrapState,
};
pub use imsic::ImsicGuestId;
pub use pages::{GuestPhysAddr, PageOwnerId, SequentialPages};
pub use regs::{GeneralPurposeRegisters, GprIndex, NUM_GPRS};
pub use sbi::{SbiReturn, SBI_SUCCESS};
pub use status::VmCpuStatus;
pub use table::{IdleVmCpu, RunningVmCpu, VmCpus, MAX_CPUS, VM_CPUS_PAGES};
pub use vcpu::{GuestEntry, GuestExit, VmCpu};
