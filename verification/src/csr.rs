//! Bit fields of the control and status registers that the vCPU engine
//! composes: `sstatus`, `hstatus`, `scounteren` and `hgatp`.

use vstd::prelude::*;

verus! {

/// A field of a 64-bit register: `mask` is the field's width in ones,
/// right-aligned, and `shift` the position of its lowest bit.
#[derive(Clone, Copy, Debug, PartialEq, Eq, Structural)]
pub struct Field {
    pub mask: u64,
    pub shift: u64,
}

/// `sstatus.SPIE`: interrupts were enabled before the trap.
pub open spec fn sstatus_spie() -> Field {
    Field { mask: 0x1, shift: 5 }
}

/// `sstatus.SPP`: the privilege level before the trap.
pub open spec fn sstatus_spp() -> Field {
    Field { mask: 0x1, shift: 8 }
}

/// `hstatus.SPV`: virtualization was enabled before the trap.
pub open spec fn hstatus_spv() -> Field {
    Field { mask: 0x1, shift: 7 }
}

/// `hstatus.SPVP`: the privilege level of the guest before the trap.
pub open spec fn hstatus_spvp() -> Field {
    Field { mask: 0x1, shift: 8 }
}

/// `hstatus.VGEIN`: the guest interrupt file selected for the guest.
pub open spec fn hstatus_vgein() -> Field {
    Field { mask: 0x3f, shift: 12 }
}

/// `scounteren.CY`: the guest may read the cycle counter.
pub open spec fn scounteren_cycle() -> Field {
    Field { mask: 0x1, shift: 0 }
}

/// `scounteren.TM`: the guest may read the timer.
pub open spec fn scounteren_time() -> Field {
    Field { mask: 0x1, shift: 1 }
}

/// `scounteren.IR`: the guest may read the retired-instruction counter.
pub open spec fn scounteren_instret() -> Field {
    Field { mask: 0x1, shift: 2 }
}

/// `hgatp.PPN`: the page number of the root of the guest-stage table.
pub open spec fn hgatp_ppn() -> Field {
    Field { mask: 0xfff_ffff_ffff, shift: 0 }
}

/// `hgatp.VMID`: the virtual machine identifier.
pub open spec fn hgatp_vmid() -> Field {
    Field { mask: 0x3fff, shift: 44 }
}

/// `hgatp.MODE`: the guest-stage translation scheme.
pub open spec fn hgatp_mode() -> Field {
    Field { mask: 0xf, shift: 60 }
}

/// The encoding of supervisor privilege in `sstatus.SPP` and `hstatus.SPVP`.
pub const PRIVILEGE_SUPERVISOR: u64 = 1;

/// The VMID given to every guest until VMIDs are allocated.
pub const PLACEHOLDER_VMID: u64 = 1;

/// The shift that turns a byte address into a 4 KiB page number.
pub const PAGE_SHIFT: u64 = 12;

impl Field {
    /// The bits of a register that belong to the field.
    pub open spec fn bits(self) -> u64 {
        self.mask << self.shift
    }

    /// The field lies within a 64-bit register.
    pub open spec fn wf(self) -> bool {
        &&& self.shift < 64
        &&& (self.mask << self.shift) >> self.shift == self.mask
    }

    /// The value of the field in `reg`.
    pub open spec fn spec_read(self, reg: u64) -> u64 {
        (reg >> self.shift) & self.mask
    }

    /// `reg` with the field replaced by the low bits of `value`; bits of
    /// `value` above the field's width are dropped.
    pub open spec fn spec_write(self, reg: u64, value: u64) -> u64 {
        (reg & !(self.mask << self.shift)) | ((value & self.mask) << self.shift)
    }

    /// The value of the field in `reg`.
    pub fn read(self, reg: u64) -> (value: u64)
        requires
            self.shift < 64,
        ensures
            value == self.spec_read(reg),
    {
        (reg >> self.shift) & self.mask
    }

    /// `reg` with the field replaced by the low bits of `value`.
    pub fn write(self, reg: u64, value: u64) -> (updated: u64)
        requires
            self.shift < 64,
        ensures
            updated == self.spec_write(reg, value),
    {
        (reg & !(self.mask << self.shift)) | ((value & self.mask) << self.shift)
    }

    /// A field that was written reads back as the value written, cut to the
    /// field's width, and the bits outside the field keep their value.
    pub proof fn lemma_write_then_read(self, reg: u64, value: u64)
        requires
            self.wf(),
        ensures
            self.spec_read(self.spec_write(reg, value)) == value & self.mask,
            self.spec_write(reg, value) & !self.bits() == reg & !self.bits(),
    {
        let mask = self.mask;
        let shift = self.shift;
        assert(((((reg & !(mask << shift)) | ((value & mask) << shift)) >> shift) & mask) == value
            & mask) by (bit_vector)
            requires
                shift < 64,
                (mask << shift) >> shift == mask,
        ;
        assert(((reg & !(mask << shift)) | ((value & mask) << shift)) & !(mask << shift) == reg & !(
        mask << shift)) by (bit_vector)
            requires
                shift < 64,
        ;
    }
}

/// `sstatus` of a guest that has not run yet: interrupts enabled on entry,
/// entry at supervisor privilege.
pub open spec fn spec_initial_sstatus() -> u64 {
    sstatus_spp().spec_write(sstatus_spie().spec_write(0, 1), PRIVILEGE_SUPERVISOR)
}

/// `hstatus` of a guest that has not run yet: the first `sret` enters
/// virtual-supervisor mode.
pub open spec fn spec_initial_hstatus() -> u64 {
    hstatus_spvp().spec_write(hstatus_spv().spec_write(0, 1), PRIVILEGE_SUPERVISOR)
}

/// `scounteren` of a guest: the cycle, time and instret counters are
/// delegated.
pub open spec fn spec_initial_scounteren() -> u64 {
    scounteren_instret().spec_write(
        scounteren_time().spec_write(scounteren_cycle().spec_write(0, 1), 1),
        1,
    )
}

/// `hgatp` for a guest-stage table rooted at byte address `root_address`,
/// translated under scheme `mode`, with the placeholder VMID. Each value
/// is cut to its field: the scheme to four bits, the root's page number
/// to 44 bits.
pub open spec fn spec_encode_hgatp(root_address: u64, mode: u64) -> u64 {
    hgatp_mode().spec_write(
        hgatp_ppn().spec_write(
            hgatp_vmid().spec_write(0, PLACEHOLDER_VMID),
            root_address >> PAGE_SHIFT,
        ),
        mode,
    )
}

/// `hstatus` with interrupt file `raw_index` selected in `VGEIN`.
pub open spec fn spec_select_interrupt_file(hstatus: u64, raw_index: u64) -> u64 {
    hstatus_vgein().spec_write(hstatus, raw_index)
}

/// `sstatus` of a guest that has not run yet.
pub fn initial_sstatus() -> (sstatus: u64)
    ensures
        sstatus == spec_initial_sstatus(),
{
    let spie = Field { mask: 0x1, shift: 5 };
    let spp = Field { mask: 0x1, shift: 8 };
    spp.write(spie.write(0, 1), PRIVILEGE_SUPERVISOR)
}

/// `hstatus` of a guest that has not run yet.
pub fn initial_hstatus() -> (hstatus: u64)
    ensures
        hstatus == spec_initial_hstatus(),
{
    let spv = Field { mask: 0x1, shift: 7 };
    let spvp = Field { mask: 0x1, shift: 8 };
    spvp.write(spv.write(0, 1), PRIVILEGE_SUPERVISOR)
}

/// `scounteren` of a guest.
pub fn initial_scounteren() -> (scounteren: u64)
    ensures
        scounteren == spec_initial_scounteren(),
{
    let cycle = Field { mask: 0x1, shift: 0 };
    let time = Field { mask: 0x1, shift: 1 };
    let instret = Field { mask: 0x1, shift: 2 };
    instret.write(time.write(cycle.write(0, 1), 1), 1)
}

/// `hgatp` for a guest-stage table rooted at `root_address`.
pub fn encode_hgatp(root_address: u64, mode: u64) -> (hgatp: u64)
    ensures
        hgatp == spec_encode_hgatp(root_address, mode),
{
    let vmid = Field { mask: 0x3fff, shift: 44 };
    let ppn = Field { mask: 0xfff_ffff_ffff, shift: 0 };
    let scheme = Field { mask: 0xf, shift: 60 };
    let hgatp: u64 = vmid.write(0, PLACEHOLDER_VMID);
    let hgatp: u64 = ppn.write(hgatp, root_address >> PAGE_SHIFT);
    scheme.write(hgatp, mode)
}

/// `hstatus` with interrupt file `raw_index` selected.
pub fn select_interrupt_file(hstatus: u64, raw_index: u64) -> (updated: u64)
    ensures
        updated == spec_select_interrupt_file(hstatus, raw_index),
{
    let vgein = Field { mask: 0x3f, shift: 12 };
    vgein.write(hstatus, raw_index)
}

/// The CSRs of a guest that has not run, as numbers: `sstatus` has SPIE
/// and SPP set, `hstatus` has SPV and SPVP set, and `scounteren` delegates
/// the three counters.
pub proof fn lemma_initial_csrs()
    ensures
        spec_initial_sstatus() == 0x120,
        spec_initial_hstatus() == 0x180,
        spec_initial_scounteren() == 0x7,
        sstatus_spie().spec_read(spec_initial_sstatus()) == 1,
        sstatus_spp().spec_read(spec_initial_sstatus()) == PRIVILEGE_SUPERVISOR,
        hstatus_spv().spec_read(spec_initial_hstatus()) == 1,
        hstatus_spvp().spec_read(spec_initial_hstatus()) == PRIVILEGE_SUPERVISOR,
        hstatus_vgein().spec_read(spec_initial_hstatus()) == 0,
{
    assert(((0u64 & !(0x1u64 << 5u64)) | ((1u64 & 0x1u64) << 5u64)) == 0x20u64) by (bit_vector);
    assert(((0x20u64 & !(0x1u64 << 8u64)) | ((1u64 & 0x1u64) << 8u64)) == 0x120u64)
        by (bit_vector);
    assert(((0u64 & !(0x1u64 << 7u64)) | ((1u64 & 0x1u64) << 7u64)) == 0x80u64) by (bit_vector);
    assert(((0x80u64 & !(0x1u64 << 8u64)) | ((1u64 & 0x1u64) << 8u64)) == 0x180u64)
        by (bit_vector);
    assert(((0u64 & !(0x1u64 << 0u64)) | ((1u64 & 0x1u64) << 0u64)) == 0x1u64) by (bit_vector);
    assert(((0x1u64 & !(0x1u64 << 1u64)) | ((1u64 & 0x1u64) << 1u64)) == 0x3u64) by (bit_vector);
    assert(((0x3u64 & !(0x1u64 << 2u64)) | ((1u64 & 0x1u64) << 2u64)) == 0x7u64) by (bit_vector);
    assert((0x120u64 >> 5u64) & 0x1u64 == 1u64) by (bit_vector);
    assert((0x120u64 >> 8u64) & 0x1u64 == 1u64) by (bit_vector);
    assert((0x180u64 >> 7u64) & 0x1u64 == 1u64) by (bit_vector);
    assert((0x180u64 >> 8u64) & 0x1u64 == 1u64) by (bit_vector);
    assert((0x180u64 >> 12u64) & 0x3fu64 == 0u64) by (bit_vector);
}

/// The fields of an encoded `hgatp` read back as what went in: the scheme
/// cut to four bits, the root's page number cut to 44 bits, and VMID 1.
pub proof fn lemma_hgatp_fields(root_address: u64, mode: u64)
    ensures
        hgatp_mode().spec_read(spec_encode_hgatp(root_address, mode)) == mode & 0xf,
        hgatp_ppn().spec_read(spec_encode_hgatp(root_address, mode)) == (root_address >> 12)
            & 0xfff_ffff_ffff,
        hgatp_vmid().spec_read(spec_encode_hgatp(root_address, mode)) == PLACEHOLDER_VMID,
{
    let a: u64 = (0u64 & !(0x3fffu64 << 44u64)) | ((1u64 & 0x3fffu64) << 44u64);
    let p: u64 = root_address >> 12u64;
    let b: u64 = (a & !(0xfff_ffff_ffffu64 << 0u64)) | ((p & 0xfff_ffff_ffffu64) << 0u64);
    let c: u64 = (b & !(0xfu64 << 60u64)) | ((mode & 0xfu64) << 60u64);
    assert(c == spec_encode_hgatp(root_address, mode));
    assert((c >> 60u64) & 0xfu64 == mode & 0xfu64) by (bit_vector)
        requires
            c == (b & !(0xfu64 << 60u64)) | ((mode & 0xfu64) << 60u64),
    ;
    assert((c >> 0u64) & 0xfff_ffff_ffffu64 == p & 0xfff_ffff_ffffu64) by (bit_vector)
        requires
            c == (b & !(0xfu64 << 60u64)) | ((mode & 0xfu64) << 60u64),
            b == (a & !(0xfff_ffff_ffffu64 << 0u64)) | ((p & 0xfff_ffff_ffffu64) << 0u64),
    ;
    assert((c >> 44u64) & 0x3fffu64 == 1u64) by (bit_vector)
        requires
            c == (b & !(0xfu64 << 60u64)) | ((mode & 0xfu64) << 60u64),
            b == (a & !(0xfff_ffff_ffffu64 << 0u64)) | ((p & 0xfff_ffff_ffffu64) << 0u64),
            a == (0u64 & !(0x3fffu64 << 44u64)) | ((1u64 & 0x3fffu64) << 44u64),
    ;
}

/// Selecting an interrupt file sets `VGEIN` to the file's index, cut to
/// six bits, and leaves every other bit of `hstatus` as it was.
pub proof fn lemma_select_interrupt_file(hstatus: u64, raw_index: u64)
    ensures
        hstatus_vgein().spec_read(spec_select_interrupt_file(hstatus, raw_index)) == raw_index
            & 0x3f,
        spec_select_interrupt_file(hstatus, raw_index) & !hstatus_vgein().bits() == hstatus
            & !hstatus_vgein().bits(),
{
    assert(hstatus_vgein().wf()) by {
        assert((0x3fu64 << 12u64) >> 12u64 == 0x3fu64) by (bit_vector);
    }
    hstatus_vgein().lemma_write_then_read(hstatus, raw_index);
}

} // verus!
