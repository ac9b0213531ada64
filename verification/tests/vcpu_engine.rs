use vcpu_core::csr::{encode_hgatp, initial_hstatus, initial_scounteren, initial_sstatus, Field};
use vcpu_core::exit::{fault_address, skip_ecall, trap_kind};
use vcpu_core::pages::num_4k_pages;
use vcpu_core::sbi::register_bits;
use vcpu_core::{
    GeneralPurposeRegisters, GprIndex, GuestExit, GuestPhysAddr, GuestVCpuState, ImsicGuestId,
    PageOwnerId, SbiReturn, TrapKind, VmCpu, VmCpuExit, VmCpuState, VmCpuTrapState,
};

const ALL_GPRS: [GprIndex; 32] = [
    GprIndex::Zero,
    GprIndex::RA,
    GprIndex::SP,
    GprIndex::GP,
    GprIndex::TP,
    GprIndex::T0,
    GprIndex::T1,
    GprIndex::T2,
    GprIndex::S0,
    GprIndex::S1,
    GprIndex::A0,
    GprIndex::A1,
    GprIndex::A2,
    GprIndex::A3,
    GprIndex::A4,
    GprIndex::A5,
    GprIndex::A6,
    GprIndex::A7,
    GprIndex::S2,
    GprIndex::S3,
    GprIndex::S4,
    GprIndex::S5,
    GprIndex::S6,
    GprIndex::S7,
    GprIndex::S8,
    GprIndex::S9,
    GprIndex::S10,
    GprIndex::S11,
    GprIndex::T3,
    GprIndex::T4,
    GprIndex::T5,
    GprIndex::T6,
];

/// A message of the SBI base extension, as far as these tests decode one.
#[derive(Debug, PartialEq, Eq)]
enum BaseMessage {
    ProbeExtension(u64),
}

fn decode_base(args: [u64; 8]) -> Option<BaseMessage> {
    if args[7] == 0x10 && args[6] == 3 {
        Some(BaseMessage::ProbeExtension(args[0]))
    } else {
        None
    }
}

/// A world-switch that leaves the frame as it finds it and reports `trap`.
fn switch_reporting(vcpu: &VmCpu, trap: VmCpuTrapState) -> GuestExit {
    let entry = vcpu.prepare_entry(false);
    GuestExit { frame: entry.frame, trap_csrs: trap, vcpu_csrs: entry.vcpu_csrs }
}

fn trap(scause: u64, stval: u64, htval: u64, htinst: u64) -> VmCpuTrapState {
    VmCpuTrapState { scause, stval, htval, htinst }
}

#[test]
fn new_vcpu_has_the_initial_csrs() {
    let vcpu = VmCpu::new(PageOwnerId::new(3));
    let state = vcpu.state();
    assert_eq!(state.guest_regs.hstatus, 0x180);
    assert_eq!(state.guest_regs.sstatus, 0x120);
    assert_eq!(state.guest_regs.scounteren, 0x7);
    let mut expected = [0u64; 88];
    expected[69] = 0x120;
    expected[70] = 0x180;
    expected[71] = 0x7;
    assert_eq!(state.to_words(), expected);
    assert_eq!(vcpu.interrupt_file(), None);
    assert_eq!(vcpu.guest_id(), PageOwnerId::new(3));
    assert_eq!(initial_hstatus(), 0x180);
    assert_eq!(initial_sstatus(), 0x120);
    assert_eq!(initial_scounteren(), 0x7);
}

#[test]
fn fields_are_written_and_read_in_place() {
    let vgein = Field { mask: 0x3f, shift: 12 };
    assert_eq!(vgein.write(0x180, 5), 0x5180);
    assert_eq!(vgein.write(0xffff_ffff_ffff_ffff, 0), 0xffff_ffff_fffc_0fff);
    assert_eq!(vgein.write(0, 0x47), 0x7000);
    assert_eq!(vgein.read(0x5180), 5);
    let mode = Field { mask: 0xf, shift: 60 };
    assert_eq!(mode.write(0, 9), 0x9000_0000_0000_0000);
    assert_eq!(mode.read(0x9000_0000_0000_0001), 9);
}

#[test]
fn set_hgatp_encodes_mode_root_and_vmid() {
    let mut vcpu = VmCpu::new(PageOwnerId::new(3));
    vcpu.set_hgatp(0x8020_0000, 8);
    assert_eq!(vcpu.state().guest_vcpu_csrs.hgatp, 0x8000_1000_0008_0200);
    vcpu.set_hgatp(0x1_2345_6000, 9);
    assert_eq!(vcpu.state().guest_vcpu_csrs.hgatp, 0x9000_1000_0012_3456);
    assert_eq!(encode_hgatp(0, 0), 0x0000_1000_0000_0000);
    assert_eq!(encode_hgatp(u64::MAX, 0x1f), 0xf000_1fff_ffff_ffff);
    let before = VmCpu::new(PageOwnerId::new(3)).state();
    let after = vcpu.state();
    assert_eq!(after.guest_regs.sepc, before.guest_regs.sepc);
    assert_eq!(after.guest_regs.hstatus, before.guest_regs.hstatus);
    assert_eq!(after.guest_vcpu_csrs.vsatp, 0);
}

#[test]
fn set_sepc_changes_only_sepc() {
    let mut vcpu = VmCpu::new(PageOwnerId::new(3));
    let mut expected = vcpu.state().to_words();
    vcpu.set_sepc(0x8020_0000);
    expected[72] = 0x8020_0000;
    assert_eq!(vcpu.state().to_words(), expected);
}

#[test]
fn set_gpr_writes_each_register_but_zero() {
    let mut vcpu = VmCpu::new(PageOwnerId::new(3));
    for (n, index) in ALL_GPRS.iter().enumerate() {
        assert_eq!(index.number(), n);
        vcpu.set_gpr(*index, 0x1000 + n as u64);
    }
    let gprs = vcpu.state().guest_regs.gprs;
    assert_eq!(gprs.reg(GprIndex::Zero), 0);
    for (n, index) in ALL_GPRS.iter().enumerate().skip(1) {
        assert_eq!(gprs.reg(*index), 0x1000 + n as u64);
    }
    assert_eq!(vcpu.state().host_regs.gprs.to_words(), [0u64; 32]);
}

#[test]
fn ecall_result_success_sets_a0_and_a1() {
    let mut vcpu = VmCpu::new(PageOwnerId::new(3));
    vcpu.set_gpr(GprIndex::A0, 111);
    vcpu.set_gpr(GprIndex::A1, 222);
    vcpu.set_ecall_result(SbiReturn::success(0xdead_beef));
    let gprs = vcpu.state().guest_regs.gprs;
    assert_eq!(gprs.reg(GprIndex::A0), 0);
    assert_eq!(gprs.reg(GprIndex::A1), 0xdead_beef);
    assert_eq!(gprs.reg(GprIndex::A2), 0);
}

#[test]
fn ecall_result_error_sets_only_a0() {
    let mut vcpu = VmCpu::new(PageOwnerId::new(3));
    vcpu.set_gpr(GprIndex::A1, 222);
    vcpu.set_ecall_result(SbiReturn { error_code: -2, return_value: 9 });
    let gprs = vcpu.state().guest_regs.gprs;
    assert_eq!(gprs.reg(GprIndex::A0), 0xffff_ffff_ffff_fffe);
    assert_eq!(gprs.reg(GprIndex::A1), 222);
    vcpu.set_ecall_result(SbiReturn { error_code: 1, return_value: 9 });
    assert_eq!(vcpu.state().guest_regs.gprs.reg(GprIndex::A0), 1);
    assert_eq!(vcpu.state().guest_regs.gprs.reg(GprIndex::A1), 222);
    assert_eq!(register_bits(-1), u64::MAX);
    assert_eq!(register_bits(i64::MIN), 0x8000_0000_0000_0000);
    assert_eq!(register_bits(i64::MAX), 0x7fff_ffff_ffff_ffff);
}

#[test]
fn interrupt_file_is_bound_and_selected() {
    let mut vcpu = VmCpu::new(PageOwnerId::new(3));
    vcpu.set_interrupt_file(ImsicGuestId::new(5));
    assert_eq!(vcpu.interrupt_file(), Some(ImsicGuestId::new(5)));
    assert_eq!(vcpu.state().guest_regs.hstatus, 0x5180);
    vcpu.set_interrupt_file(ImsicGuestId::new(2));
    assert_eq!(vcpu.interrupt_file(), Some(ImsicGuestId::new(2)));
    assert_eq!(vcpu.state().guest_regs.hstatus, 0x2180);
    vcpu.set_interrupt_file(ImsicGuestId::new(0x47));
    assert_eq!(vcpu.state().guest_regs.hstatus, 0x7180);
    assert_eq!(ImsicGuestId::new(0x47).to_raw_index(), 0x47);
}

#[test]
fn entry_hands_out_the_frame_and_its_csrs() {
    let mut vcpu = VmCpu::new(PageOwnerId::new(3));
    vcpu.set_hgatp(0x8020_0000, 8);
    vcpu.set_sepc(0x4000);
    let with_timer = vcpu.prepare_entry(true);
    assert!(with_timer.load_timer_compare);
    assert_eq!(with_timer.vcpu_csrs.hgatp, 0x8000_1000_0008_0200);
    assert_eq!(with_timer.frame.to_words(), vcpu.state().to_words());
    let without_timer = vcpu.prepare_entry(false);
    assert!(!without_timer.load_timer_compare);
    assert_eq!(without_timer.vcpu_csrs, with_timer.vcpu_csrs);
}

#[test]
fn ecall_is_decoded_and_skipped() {
    let mut vcpu = VmCpu::new(PageOwnerId::new(3));
    vcpu.set_sepc(0x8020_0000);
    let mut exit = switch_reporting(&vcpu, trap(10, 0, 0, 0));
    exit.frame.guest_regs.gprs.set_reg(GprIndex::A7, 0x10);
    exit.frame.guest_regs.gprs.set_reg(GprIndex::A6, 3);
    exit.frame.guest_regs.gprs.set_reg(GprIndex::A0, 0x54494D45);
    let reason = vcpu.run_to_exit(exit, false, decode_base);
    assert_eq!(reason, VmCpuExit::Ecall(Some(BaseMessage::ProbeExtension(0x54494D45))));
    assert_eq!(vcpu.state().guest_regs.sepc, 0x8020_0004);
    assert_eq!(vcpu.state().guest_regs.gprs.reg(GprIndex::A7), 0x10);
    assert_eq!(vcpu.state().trap_csrs, trap(10, 0, 0, 0));
}

#[test]
fn ecall_that_does_not_decode_is_still_skipped() {
    let mut vcpu = VmCpu::new(PageOwnerId::new(3));
    vcpu.set_sepc(0x8020_0000);
    let mut exit = switch_reporting(&vcpu, trap(10, 0, 0, 0));
    exit.frame.guest_regs.gprs.set_reg(GprIndex::A7, 0x1234);
    let reason = vcpu.run_to_exit(exit, false, decode_base);
    assert_eq!(reason, VmCpuExit::Ecall(None));
    assert_eq!(vcpu.state().guest_regs.sepc, 0x8020_0004);
}

#[test]
fn ecall_at_the_top_of_the_address_space_wraps() {
    let mut vcpu = VmCpu::new(PageOwnerId::new(3));
    vcpu.set_sepc(0xffff_ffff_ffff_fffc);
    let exit = switch_reporting(&vcpu, trap(10, 0, 0, 0));
    let reason = vcpu.run_to_exit(exit, false, decode_base);
    assert_eq!(reason, VmCpuExit::Ecall(None));
    assert_eq!(vcpu.state().guest_regs.sepc, 0);
    assert_eq!(skip_ecall(0xffff_ffff_ffff_fffe), 2);
    assert_eq!(skip_ecall(0xffff_ffff_ffff_fffb), 0xffff_ffff_ffff_ffff);
    assert_eq!(skip_ecall(0), 4);
}

#[test]
fn page_fault_address_is_reconstructed() {
    let mut vcpu = VmCpu::new(PageOwnerId::new(11));
    vcpu.set_sepc(0x8020_0000);
    let exit = switch_reporting(&vcpu, trap(21, 0x3, 0x000A_BCDE, 0));
    let reason: VmCpuExit<BaseMessage> = vcpu.run_to_exit(exit, false, decode_base);
    assert_eq!(
        reason,
        VmCpuExit::PageFault(GuestPhysAddr::guest(0x002A_F37B, PageOwnerId::new(11)))
    );
    assert_eq!(vcpu.state().guest_regs.sepc, 0x8020_0000);
    assert_eq!(vcpu.state().trap_csrs, trap(21, 0x3, 0x000A_BCDE, 0));
}

#[test]
fn every_guest_page_fault_is_reported_by_address() {
    for scause in [20u64, 21, 23] {
        let mut vcpu = VmCpu::new(PageOwnerId::new(11));
        let exit = switch_reporting(&vcpu, trap(scause, 0xffff_fff5, 0x1000, 7));
        let reason: VmCpuExit<BaseMessage> = vcpu.run_to_exit(exit, false, decode_base);
        assert_eq!(
            reason,
            VmCpuExit::PageFault(GuestPhysAddr::guest(0x4001, PageOwnerId::new(11)))
        );
    }
    let owner = PageOwnerId::new(2);
    let top = fault_address(&trap(21, 0, u64::MAX, 0), owner);
    assert_eq!(top, GuestPhysAddr::guest(0xffff_ffff_ffff_fffc, owner));
}

#[test]
fn unknown_trap_is_passed_through() {
    let mut vcpu = VmCpu::new(PageOwnerId::new(3));
    vcpu.set_sepc(0x8020_0000);
    let illegal_instruction = trap(2, 0xbad, 0x55, 0x66);
    let exit = switch_reporting(&vcpu, illegal_instruction);
    let reason: VmCpuExit<BaseMessage> = vcpu.run_to_exit(exit, false, decode_base);
    assert_eq!(reason, VmCpuExit::Other(illegal_instruction));
    assert_eq!(vcpu.state().guest_regs.sepc, 0x8020_0000);
    assert_eq!(vcpu.state().trap_csrs, illegal_instruction);
}

#[test]
fn traps_are_told_apart_by_cause() {
    assert_eq!(trap_kind(10), TrapKind::VirtualSupervisorEnvCall);
    assert_eq!(trap_kind(20), TrapKind::GuestPageFault);
    assert_eq!(trap_kind(21), TrapKind::GuestPageFault);
    assert_eq!(trap_kind(23), TrapKind::GuestPageFault);
    for scause in [0u64, 2, 8, 9, 11, 12, 13, 15, 19, 22, 24, 63, 1 << 20, u64::MAX] {
        assert_eq!(trap_kind(scause), TrapKind::Other);
    }
    for code in [10u64, 20, 21, 23] {
        assert_eq!(trap_kind((1 << 63) | code), TrapKind::Other);
    }
}

#[test]
fn round_trip_keeps_host_and_takes_guest_registers() {
    let mut vcpu = VmCpu::new(PageOwnerId::new(3));
    for (n, index) in ALL_GPRS.iter().enumerate() {
        vcpu.set_gpr(*index, 0x0101_0101_0101_0101 * n as u64);
    }
    vcpu.set_sepc(0x8020_0000);
    let before = vcpu.state();
    let entry = vcpu.prepare_entry(false);
    let mut image = entry.frame.to_words();
    let pattern = 0xa5a5_5a5a_a5a5_5a5a;
    for n in 1..32 {
        image[37 + n] ^= pattern;
    }
    let exit = GuestExit {
        frame: VmCpuState::from_words(&image),
        trap_csrs: trap(10, 0, 0, 0),
        vcpu_csrs: entry.vcpu_csrs,
    };
    let reason = vcpu.run_to_exit(exit, false, decode_base);
    assert_eq!(reason, VmCpuExit::Ecall(None));
    let after = vcpu.state();
    assert_eq!(after.to_words()[..37], before.to_words()[..37]);
    assert_eq!(after.guest_regs.gprs.reg(GprIndex::Zero), 0);
    for (n, index) in ALL_GPRS.iter().enumerate().skip(1) {
        assert_eq!(after.guest_regs.gprs.reg(*index), (0x0101_0101_0101_0101 * n as u64) ^ pattern);
    }
    assert_eq!(after.guest_regs.sstatus, before.guest_regs.sstatus);
    assert_eq!(after.guest_regs.hstatus, before.guest_regs.hstatus);
    assert_eq!(after.guest_regs.scounteren, before.guest_regs.scounteren);
    assert_eq!(after.guest_regs.sepc, 0x8020_0004);
}

#[test]
fn exit_saves_the_virtualization_csrs() {
    let live = GuestVCpuState {
        hgatp: 1,
        htimedelta: 2,
        vsstatus: 3,
        vsie: 4,
        vstvec: 5,
        vsscratch: 6,
        vsepc: 7,
        vscause: 8,
        vstval: 9,
        vsatp: 10,
        vstimecmp: 11,
    };
    let mut vcpu = VmCpu::new(PageOwnerId::new(3));
    let mut exit = switch_reporting(&vcpu, trap(2, 0, 0, 0));
    exit.vcpu_csrs = live;
    let _: VmCpuExit<BaseMessage> = vcpu.run_to_exit(exit, true, decode_base);
    assert_eq!(vcpu.state().guest_vcpu_csrs, live);

    let mut exit = switch_reporting(&vcpu, trap(2, 0, 0, 0));
    exit.vcpu_csrs = GuestVCpuState { hgatp: 21, vstimecmp: 99, ..live };
    exit.frame.guest_vcpu_csrs.vstimecmp = 77;
    let _: VmCpuExit<BaseMessage> = vcpu.run_to_exit(exit, false, decode_base);
    assert_eq!(vcpu.state().guest_vcpu_csrs, GuestVCpuState { hgatp: 21, vstimecmp: 11, ..live });

    let mut fresh = VmCpu::new(PageOwnerId::new(3));
    let mut exit = switch_reporting(&fresh, trap(2, 0, 0, 0));
    exit.vcpu_csrs = live;
    let _: VmCpuExit<BaseMessage> = fresh.run_to_exit(exit, false, decode_base);
    assert_eq!(fresh.state().guest_vcpu_csrs, GuestVCpuState { vstimecmp: 0, ..live });
}

#[test]
fn exit_keeps_owner_and_interrupt_file() {
    let mut vcpu = VmCpu::new(PageOwnerId::new(8));
    vcpu.set_interrupt_file(ImsicGuestId::new(4));
    let exit = switch_reporting(&vcpu, trap(23, 1, 2, 0));
    let reason: VmCpuExit<BaseMessage> = vcpu.run_to_exit(exit, true, decode_base);
    assert_eq!(reason, VmCpuExit::PageFault(GuestPhysAddr::guest(9, PageOwnerId::new(8))));
    assert_eq!(vcpu.guest_id(), PageOwnerId::new(8));
    assert_eq!(vcpu.interrupt_file(), Some(ImsicGuestId::new(4)));
}

#[test]
fn argument_registers_are_a0_to_a7() {
    let mut gprs = GeneralPurposeRegisters::new();
    for (n, index) in ALL_GPRS.iter().enumerate() {
        gprs.set_reg(*index, n as u64);
    }
    assert_eq!(gprs.a_regs(), [10, 11, 12, 13, 14, 15, 16, 17]);
    let mut words = [9u64; 32];
    words[5] = 50;
    let from_words = GeneralPurposeRegisters::from_words(&words);
    assert_eq!(from_words.reg(GprIndex::Zero), 0);
    assert_eq!(from_words.reg(GprIndex::T0), 50);
    assert_eq!(from_words.to_words()[1..], words[1..]);
}

#[test]
fn pages_are_counted_by_rounding_up() {
    assert_eq!(num_4k_pages(0), 0);
    assert_eq!(num_4k_pages(1), 1);
    assert_eq!(num_4k_pages(4096), 1);
    assert_eq!(num_4k_pages(4097), 2);
    assert_eq!(num_4k_pages(96280), 24);
    assert_eq!(num_4k_pages(u64::MAX), 0x10_0000_0000_0000);
}
