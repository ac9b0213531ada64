//! Why a guest stopped running: the classification of a trap by its cause.

use vstd::prelude::*;
use crate::frame::VmCpuTrapState;
use crate::pages::{GuestPhysAddr, PageOwnerId};

verus! {

/// `scause` of an environment call from virtual-supervisor mode.
pub const SCAUSE_VS_ECALL: u64 = 10;

/// `scause` of a guest-stage page fault on an instruction fetch.
pub const SCAUSE_GUEST_INSTRUCTION_PAGE_FAULT: u64 = 20;

/// `scause` of a guest-stage page fault on a load.
pub const SCAUSE_GUEST_LOAD_PAGE_FAULT: u64 = 21;

/// `scause` of a guest-stage page fault on a store.
pub const SCAUSE_GUEST_STORE_PAGE_FAULT: u64 = 23;

/// Bytes in the `ecall` instruction, by which `sepc` advances to skip it.
pub const ECALL_BYTES: u64 = 4;

/// Why a vCPU exited. `M` is the type of a decoded SBI message.
#[derive(Debug, PartialEq, Eq)]
pub enum VmCpuExit<M> {
    /// The guest made an environment call; the message is present where
    /// its registers decode to one.
    Ecall(Option<M>),
    /// The guest faulted in guest-stage translation at this address.
    PageFault(GuestPhysAddr),
    /// Any other trap, with the trap CSRs as they were found.
    Other(VmCpuTrapState),
}

/// The kinds of trap that the engine tells apart.
#[derive(Clone, Copy, Debug, PartialEq, Eq, Structural)]
pub enum TrapKind {
    /// An environment call from virtual-supervisor mode.
    VirtualSupervisorEnvCall,
    /// A guest-stage page fault on a fetch, a load or a store.
    GuestPageFault,
    /// Anything else: interrupts, other exceptions, unknown causes.
    Other,
}

/// The kind of trap that `scause` reports.
pub open spec fn spec_trap_kind(scause: u64) -> TrapKind {
    if scause == SCAUSE_VS_ECALL {
        TrapKind::VirtualSupervisorEnvCall
    } else if scause == SCAUSE_GUEST_INSTRUCTION_PAGE_FAULT || scause
        == SCAUSE_GUEST_LOAD_PAGE_FAULT || scause == SCAUSE_GUEST_STORE_PAGE_FAULT {
        TrapKind::GuestPageFault
    } else {
        TrapKind::Other
    }
}

/// The guest-physical address of a guest-stage page fault: `htval` holds
/// the address shifted right by two, `stval` its two lowest bits.
pub open spec fn spec_fault_address(htval: u64, stval: u64) -> u64 {
    (htval << 2) | (stval & 0x3)
}

/// `sepc` moved past the `ecall` instruction; addresses wrap at 2^64.
pub open spec fn spec_skip_ecall(sepc: u64) -> u64 {
    if sepc + ECALL_BYTES <= u64::MAX {
        (sepc + ECALL_BYTES) as u64
    } else {
        (sepc + ECALL_BYTES - 0x1_0000_0000_0000_0000) as u64
    }
}

/// The kind of trap that `scause` reports.
pub fn trap_kind(scause: u64) -> (kind: TrapKind)
    ensures
        kind == spec_trap_kind(scause),
{
    if scause == SCAUSE_VS_ECALL {
        TrapKind::VirtualSupervisorEnvCall
    } else if scause == SCAUSE_GUEST_INSTRUCTION_PAGE_FAULT || scause
        == SCAUSE_GUEST_LOAD_PAGE_FAULT || scause == SCAUSE_GUEST_STORE_PAGE_FAULT {
        TrapKind::GuestPageFault
    } else {
        TrapKind::Other
    }
}

/// The guest-physical address at which guest `owner` faulted.
pub fn fault_address(trap: &VmCpuTrapState, owner: PageOwnerId) -> (addr: GuestPhysAddr)
    ensures
        addr.bits == spec_fault_address(trap.htval, trap.stval),
        addr.owner == owner,
{
    GuestPhysAddr::guest((trap.htval << 2) | (trap.stval & 0x3), owner)
}

/// `sepc` moved past the `ecall` instruction.
pub fn skip_ecall(sepc: u64) -> (next: u64)
    ensures
        next == spec_skip_ecall(sepc),
{
    sepc.wrapping_add(ECALL_BYTES)
}

/// A reconstructed fault address holds `stval`'s two lowest bits below
/// the bits of `htval`.
pub proof fn lemma_fault_address_parts(htval: u64, stval: u64)
    ensures
        spec_fault_address(htval, stval) & 0x3 == stval & 0x3,
        spec_fault_address(htval, stval) >> 2 == htval & 0x3fff_ffff_ffff_ffff,
{
    assert(((htval << 2) | (stval & 0x3)) & 0x3 == stval & 0x3) by (bit_vector);
    assert(((htval << 2) | (stval & 0x3)) >> 2 == htval & 0x3fff_ffff_ffff_ffff) by (bit_vector);
}

} // verus!
