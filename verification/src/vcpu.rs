//! The vCPU engine: one guest hart's state, the operations that prepare
//! its entry into the guest, and the round trip through the world-switch
//! that ends with a classified exit.
//!
//! The engine does not touch the hart. Its caller loads the CSRs and runs
//! the world-switch that `prepare_entry` describes, and hands what the hart
//! held afterwards to `run_to_exit`.

use vstd::prelude::*;
use crate::csr::{
    encode_hgatp, initial_hstatus, initial_scounteren, initial_sstatus, select_interrupt_file,
    spec_encode_hgatp, spec_initial_hstatus, spec_initial_scounteren, spec_initial_sstatus,
    spec_select_interrupt_file,
};
use crate::exit::{
    fault_address, skip_ecall, spec_fault_address, spec_skip_ecall, spec_trap_kind, trap_kind,
    TrapKind, VmCpuExit,
};
use crate::frame::{
    zero_words, GuestCpuState, GuestVCpuState, VmCpuState, VmCpuTrapState,
    HOST_WORDS, VCPU_CSR_WORDS,
};
use crate::imsic::ImsicGuestId;
use crate::pages::{GuestPhysAddr, PageOwnerId};
use crate::regs::{spec_a_regs, GeneralPurposeRegisters, GprIndex, NUM_GPRS};
use crate::sbi::{register_bits, spec_register_bits, SbiReturn, SBI_SUCCESS};

verus! {

/// One virtual CPU of a guest.
pub struct VmCpu {
    state: VmCpuState,
    interrupt_file: Option<ImsicGuestId>,
    guest_id: PageOwnerId,
}

/// What the hart is to be given to enter the guest.
#[derive(Clone, Copy, Debug)]
pub struct GuestEntry {
    /// The values to load into the CSRs that act only while a guest runs.
    pub vcpu_csrs: GuestVCpuState,
    /// Whether the timer-compare CSR is among the CSRs to load.
    pub load_timer_compare: bool,
    /// The frame to run the world-switch on.
    pub frame: VmCpuState,
}

/// What the hart held when the guest had trapped back to the host.
#[derive(Clone, Copy, Debug)]
pub struct GuestExit {
    /// The frame as the world-switch left it.
    pub frame: VmCpuState,
    /// The trap CSRs `scause`, `stval`, `htval` and `htinst`, read before
    /// any other CSR was written.
    pub trap_csrs: VmCpuTrapState,
    /// The CSRs that act only while a guest runs, read after the trap
    /// CSRs. The timer-compare CSR counts only where the hart has it.
    pub vcpu_csrs: GuestVCpuState,
}

/// The frame of a vCPU that has not run: all zero, but for the three CSRs
/// of the guest context that arrange its first entry.
pub open spec fn spec_is_initial_frame(state: VmCpuState) -> bool {
    &&& state.host_regs.words() == zero_words(HOST_WORDS)
    &&& state.guest_regs.gprs@ == zero_words(NUM_GPRS)
    &&& state.guest_regs.sstatus == spec_initial_sstatus()
    &&& state.guest_regs.hstatus == spec_initial_hstatus()
    &&& state.guest_regs.scounteren == spec_initial_scounteren()
    &&& state.guest_regs.sepc == 0
    &&& state.guest_vcpu_csrs.words() == zero_words(VCPU_CSR_WORDS)
    &&& state.trap_csrs == (VmCpuTrapState { scause: 0, stval: 0, htval: 0, htinst: 0 })
}

/// `state` with the guest's registers replaced by `gprs`.
pub open spec fn spec_with_guest_gprs(
    state: VmCpuState,
    gprs: GeneralPurposeRegisters,
) -> VmCpuState {
    VmCpuState { guest_regs: GuestCpuState { gprs, ..state.guest_regs }, ..state }
}

/// The guest's registers after the result of an SBI call is written: A0
/// takes the error code, and A1 the return value where the call succeeded.
pub open spec fn spec_ecall_result(regs: Seq<u64>, result: SbiReturn) -> Seq<u64> {
    let with_a0 = GeneralPurposeRegisters::spec_set_reg(
        regs,
        GprIndex::A0,
        spec_register_bits(result.error_code),
    );
    if result.error_code == SBI_SUCCESS {
        GeneralPurposeRegisters::spec_set_reg(with_a0, GprIndex::A1, result.return_value)
    } else {
        with_a0
    }
}

/// The virtualization CSRs that a vCPU keeps after an exit: those read
/// from the hart. Where the hart has no timer-compare CSR, that field of
/// the vCPU's own frame `before` is not touched.
pub open spec fn spec_saved_vcpu_csrs(
    before: VmCpuState,
    exit: GuestExit,
    has_sstc: bool,
) -> GuestVCpuState {
    if has_sstc {
        exit.vcpu_csrs
    } else {
        GuestVCpuState { vstimecmp: before.guest_vcpu_csrs.vstimecmp, ..exit.vcpu_csrs }
    }
}

/// The guest's `sepc` after an exit: moved past the `ecall` where the
/// guest made an environment call, else as the world-switch saved it.
pub open spec fn spec_sepc_after_exit(exit: GuestExit) -> u64 {
    if spec_trap_kind(exit.trap_csrs.scause) == TrapKind::VirtualSupervisorEnvCall {
        spec_skip_ecall(exit.frame.guest_regs.sepc)
    } else {
        exit.frame.guest_regs.sepc
    }
}

/// The frame of a vCPU after an exit, where `before` was its frame: the
/// host and guest contexts as the world-switch left them, the trap CSRs
/// and the virtualization CSRs as read from the hart.
pub open spec fn spec_frame_after_exit(
    before: VmCpuState,
    exit: GuestExit,
    has_sstc: bool,
) -> VmCpuState {
    VmCpuState {
        host_regs: exit.frame.host_regs,
        guest_regs: GuestCpuState { sepc: spec_sepc_after_exit(exit), ..exit.frame.guest_regs },
        guest_vcpu_csrs: spec_saved_vcpu_csrs(before, exit, has_sstc),
        trap_csrs: exit.trap_csrs,
    }
}

/// A round trip keeps what the world-switch saved: the host context and
/// the guest's registers and status CSRs come out as the world-switch left
/// them, bit for bit, so that a switch that leaves the host context as it
/// found it in `before` leaves it unmodified over the whole round trip.
/// Only `sepc` moves, and only past an environment call.
pub proof fn lemma_round_trip_keeps_contexts(before: VmCpuState, exit: GuestExit, has_sstc: bool)
    ensures
        spec_frame_after_exit(before, exit, has_sstc).host_regs == exit.frame.host_regs,
        exit.frame.host_regs == before.host_regs ==> spec_frame_after_exit(
            before,
            exit,
            has_sstc,
        ).host_regs.words() == before.host_regs.words(),
        spec_frame_after_exit(before, exit, has_sstc).guest_regs.gprs@ == exit.frame.guest_regs.gprs@,
        spec_frame_after_exit(before, exit, has_sstc).guest_regs.sstatus == exit.frame.guest_regs.sstatus,
        spec_frame_after_exit(before, exit, has_sstc).guest_regs.hstatus == exit.frame.guest_regs.hstatus,
        spec_frame_after_exit(before, exit, has_sstc).guest_regs.scounteren
            == exit.frame.guest_regs.scounteren,
        spec_trap_kind(exit.trap_csrs.scause) != TrapKind::VirtualSupervisorEnvCall
            ==> spec_frame_after_exit(before, exit, has_sstc).guest_regs.sepc
            == exit.frame.guest_regs.sepc,
        spec_frame_after_exit(before, exit, has_sstc).trap_csrs == exit.trap_csrs,
        has_sstc ==> spec_frame_after_exit(before, exit, has_sstc).guest_vcpu_csrs
            == exit.vcpu_csrs,
        !has_sstc ==> spec_frame_after_exit(before, exit, has_sstc).guest_vcpu_csrs.vstimecmp
            == before.guest_vcpu_csrs.vstimecmp,
{
}

impl VmCpu {
    /// The register-state frame of the vCPU.
    pub closed spec fn spec_state(&self) -> VmCpuState {
        self.state
    }

    /// The interrupt file bound to the vCPU, if one is.
    pub closed spec fn spec_interrupt_file(&self) -> Option<ImsicGuestId> {
        self.interrupt_file
    }

    /// The guest that the vCPU belongs to.
    pub closed spec fn spec_guest_id(&self) -> PageOwnerId {
        self.guest_id
    }

    /// A vCPU of guest `guest_id` that is ready for its first entry, once
    /// a translation root and an interrupt file are set.
    pub fn new(guest_id: PageOwnerId) -> (vcpu: Self)
        ensures
            spec_is_initial_frame(vcpu.spec_state()),
            vcpu.spec_interrupt_file() is None,
            vcpu.spec_guest_id() == guest_id,
    {
        let mut state = VmCpuState::new();
        proof {
            state.lemma_image_len();
            assert(state.host_regs.words() =~= zero_words(HOST_WORDS)) by {
                assert(state.host_regs.words() =~= state.image().subrange(0, 37));
            }
            assert(state.guest_regs.gprs@ =~= zero_words(NUM_GPRS)) by {
                assert(state.guest_regs.gprs@ =~= state.image().subrange(37, 69));
            }
            assert(state.guest_vcpu_csrs.words() =~= zero_words(VCPU_CSR_WORDS)) by {
                assert(state.guest_vcpu_csrs.words() =~= state.image().subrange(73, 84));
            }
            assert(state.guest_regs.sepc == state.image()[72]);
            assert(state.trap_csrs.scause == state.image()[84]);
            assert(state.trap_csrs.stval == state.image()[85]);
            assert(state.trap_csrs.htval == state.image()[86]);
            assert(state.trap_csrs.htinst == state.image()[87]);
        }
        state.guest_regs.hstatus = initial_hstatus();
        state.guest_regs.sstatus = initial_sstatus();
        state.guest_regs.scounteren = initial_scounteren();
        VmCpu { state, interrupt_file: None, guest_id }
    }

    /// The register-state frame of the vCPU.
    #[verifier::when_used_as_spec(spec_state)]
    pub fn state(&self) -> (state: VmCpuState)
        ensures
            state == self.spec_state(),
    {
        self.state
    }

    /// The interrupt file bound to the vCPU, if one is.
    #[verifier::when_used_as_spec(spec_interrupt_file)]
    pub fn interrupt_file(&self) -> (file: Option<ImsicGuestId>)
        ensures
            file == self.spec_interrupt_file(),
    {
        self.interrupt_file
    }

    /// The guest that the vCPU belongs to.
    #[verifier::when_used_as_spec(spec_guest_id)]
    pub fn guest_id(&self) -> (guest_id: PageOwnerId)
        ensures
            guest_id == self.spec_guest_id(),
    {
        self.guest_id
    }

    /// Points `hgatp` at the guest-stage page table rooted at byte address
    /// `root_address` and translated under scheme `mode`.
    pub fn set_hgatp(&mut self, root_address: u64, mode: u64)
        ensures
            final(self).state() == (VmCpuState {
                guest_vcpu_csrs: GuestVCpuState {
                    hgatp: spec_encode_hgatp(root_address, mode),
                    ..old(self).state().guest_vcpu_csrs
                },
                ..old(self).state()
            }),
            final(self).interrupt_file() == old(self).interrupt_file(),
            final(self).guest_id() == old(self).guest_id(),
    {
        self.state.guest_vcpu_csrs.hgatp = encode_hgatp(root_address, mode);
    }

    /// Sets `sepc`, the address at which the guest runs when it is entered.
    pub fn set_sepc(&mut self, sepc: u64)
        ensures
            final(self).state() == (VmCpuState {
                guest_regs: GuestCpuState { sepc, ..old(self).state().guest_regs },
                ..old(self).state()
            }),
            final(self).interrupt_file() == old(self).interrupt_file(),
            final(self).guest_id() == old(self).guest_id(),
    {
        self.state.guest_regs.sepc = sepc;
    }

    /// Sets one of the guest's general-purpose registers. The zero
    /// register cannot be written: it stays zero.
    pub fn set_gpr(&mut self, gpr: GprIndex, value: u64)
        ensures
            final(self).state() == spec_with_guest_gprs(
                old(self).state(),
                final(self).state().guest_regs.gprs,
            ),
            final(self).state().guest_regs.gprs@ == GeneralPurposeRegisters::spec_set_reg(
                old(self).state().guest_regs.gprs@,
                gpr,
                value,
            ),
            final(self).interrupt_file() == old(self).interrupt_file(),
            final(self).guest_id() == old(self).guest_id(),
    {
        self.state.guest_regs.gprs.set_reg(gpr, value);
    }

    /// Hands the result of an SBI call to the guest in A0 and A1.
    pub fn set_ecall_result(&mut self, result: SbiReturn)
        ensures
            final(self).state() == spec_with_guest_gprs(
                old(self).state(),
                final(self).state().guest_regs.gprs,
            ),
            final(self).state().guest_regs.gprs@ == spec_ecall_result(
                old(self).state().guest_regs.gprs@,
                result,
            ),
            final(self).interrupt_file() == old(self).interrupt_file(),
            final(self).guest_id() == old(self).guest_id(),
    {
        self.set_gpr(GprIndex::A0, register_bits(result.error_code));
        if result.error_code == SBI_SUCCESS {
            self.set_gpr(GprIndex::A1, result.return_value);
        }
    }

    /// Binds the interrupt file to the vCPU and selects it in the guest's
    /// `hstatus`, so that it is used when the vCPU next runs.
    pub fn set_interrupt_file(&mut self, interrupt_file: ImsicGuestId)
        ensures
            final(self).state() == (VmCpuState {
                guest_regs: GuestCpuState {
                    hstatus: spec_select_interrupt_file(
                        old(self).state().guest_regs.hstatus,
                        interrupt_file.raw_index,
                    ),
                    ..old(self).state().guest_regs
                },
                ..old(self).state()
            }),
            final(self).interrupt_file() == Some(interrupt_file),
            final(self).guest_id() == old(self).guest_id(),
    {
        self.interrupt_file = Some(interrupt_file);
        self.state.guest_regs.hstatus = select_interrupt_file(
            self.state.guest_regs.hstatus,
            interrupt_file.to_raw_index(),
        );
    }

    /// What the hart is to be given to enter the guest: the virtualization
    /// CSRs of the frame, the timer-compare CSR among them only where the
    /// hart has it (`has_sstc`), and the frame for the world-switch.
    pub fn prepare_entry(&self, has_sstc: bool) -> (entry: GuestEntry)
        ensures
            entry.vcpu_csrs == self.state().guest_vcpu_csrs,
            entry.load_timer_compare == has_sstc,
            entry.frame == self.state(),
    {
        GuestEntry {
            vcpu_csrs: self.state.guest_vcpu_csrs,
            load_timer_compare: has_sstc,
            frame: self.state,
        }
    }

    /// Completes the round trip through the guest: takes over what the hart
    /// held when the guest had trapped, and says why the guest exited.
    ///
    /// The host and guest contexts become those of the frame that the
    /// world-switch left, the trap CSRs and the virtualization CSRs those
    /// read from the hart; where the hart has no timer-compare CSR
    /// (`has_sstc` is false) the vCPU's own `vstimecmp` is not touched. An
    /// environment call is handed to `decode` by its registers A0 to A7, and
    /// `sepc` moves past the `ecall` whether or not they decode to a
    /// message. A guest-stage page fault is reported by its address. Any
    /// other cause is passed on with the trap CSRs.
    pub fn run_to_exit<M, D: FnOnce([u64; 8]) -> Option<M>>(
        &mut self,
        exit: GuestExit,
        has_sstc: bool,
        decode: D,
    ) -> (reason: VmCpuExit<M>)
        requires
            forall|args: [u64; 8]| call_requires(decode, (args,)),
        ensures
            final(self).state() == spec_frame_after_exit(old(self).state(), exit, has_sstc),
            final(self).interrupt_file() == old(self).interrupt_file(),
            final(self).guest_id() == old(self).guest_id(),
            match reason {
                VmCpuExit::Ecall(message) => {
                    &&& spec_trap_kind(exit.trap_csrs.scause)
                        == TrapKind::VirtualSupervisorEnvCall
                    &&& exists|args: [u64; 8]|
                        args@ == spec_a_regs(exit.frame.guest_regs.gprs@) && call_ensures(
                            decode,
                            (args,),
                            message,
                        )
                },
                VmCpuExit::PageFault(addr) => {
                    &&& spec_trap_kind(exit.trap_csrs.scause) == TrapKind::GuestPageFault
                    &&& addr == (GuestPhysAddr {
                        bits: spec_fault_address(exit.trap_csrs.htval, exit.trap_csrs.stval),
                        owner: old(self).guest_id(),
                    })
                },
                VmCpuExit::Other(trap) => {
                    &&& spec_trap_kind(exit.trap_csrs.scause) == TrapKind::Other
                    &&& trap == exit.trap_csrs
                },
            },
    {
        self.state.host_regs = exit.frame.host_regs;
        self.state.guest_regs = exit.frame.guest_regs;
        self.state.trap_csrs = exit.trap_csrs;
        let kept: u64 = self.state.guest_vcpu_csrs.vstimecmp;
        self.state.guest_vcpu_csrs = exit.vcpu_csrs;
        if !has_sstc {
            self.state.guest_vcpu_csrs.vstimecmp = kept;
        }
        match trap_kind(self.state.trap_csrs.scause) {
            TrapKind::VirtualSupervisorEnvCall => {
                let args: [u64; 8] = self.state.guest_regs.gprs.a_regs();
                let message = decode(args);
                self.state.guest_regs.sepc = skip_ecall(self.state.guest_regs.sepc);
                VmCpuExit::Ecall(message)
            },
            TrapKind::GuestPageFault => {
                VmCpuExit::PageFault(fault_address(&self.state.trap_csrs, self.guest_id))
            },
            TrapKind::Other => VmCpuExit::Other(self.state.trap_csrs),
        }
    }
}

} // verus!
