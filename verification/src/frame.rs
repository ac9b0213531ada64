//! The register-state frame: the record that the vCPU engine and the
//! world-switch stub exchange, and the byte offsets at which the stub finds
//! each register in it.
//!
//! The frame is four sub-records in a fixed order: the host context, the
//! guest context, the CSRs that act only while a guest runs, and the trap
//! scratch area. Every field is one 64-bit word, so the frame in memory is
//! the sequence of its fields' words, 88 in all.

use vstd::prelude::*;
use crate::regs::{GeneralPurposeRegisters, GprIndex, NUM_GPRS};

verus! {

/// Bytes in one word of the frame.
pub const WORD_BYTES: usize = 8;

/// Words in the host context: 32 registers and 5 CSRs.
pub const HOST_WORDS: usize = 37;

/// Words in the guest context: 32 registers and 4 CSRs.
pub const GUEST_WORDS: usize = 36;

/// Words in the record of CSRs that act only while a guest runs.
pub const VCPU_CSR_WORDS: usize = 11;

/// Words in the trap scratch area.
pub const TRAP_WORDS: usize = 4;

/// Words in the whole frame.
pub const FRAME_WORDS: usize = HOST_WORDS + GUEST_WORDS + VCPU_CSR_WORDS + TRAP_WORDS;

/// Bytes in the whole frame.
pub const FRAME_BYTES: usize = FRAME_WORDS * WORD_BYTES;

/// Byte offset of the host context in the frame.
pub const HOST_REGS_OFFSET: usize = 0;

/// Byte offset of the guest context in the frame.
pub const GUEST_REGS_OFFSET: usize = HOST_REGS_OFFSET + HOST_WORDS * WORD_BYTES;

/// Byte offset of the guest's virtualization CSRs in the frame.
pub const GUEST_VCPU_CSRS_OFFSET: usize = GUEST_REGS_OFFSET + GUEST_WORDS * WORD_BYTES;

/// Byte offset of the trap scratch area in the frame.
pub const TRAP_CSRS_OFFSET: usize = GUEST_VCPU_CSRS_OFFSET + VCPU_CSR_WORDS * WORD_BYTES;

/// Byte offset of the register file within the host and the guest context.
pub const GPRS_OFFSET: usize = 0;

/// Byte offset of the CSRs within the host and the guest context.
pub const CSRS_OFFSET: usize = GPRS_OFFSET + NUM_GPRS * WORD_BYTES;

/// A run of `len` words that are all zero.
pub open spec fn zero_words(len: usize) -> Seq<u64> {
    Seq::new(len as nat, |i: int| 0u64)
}

/// A frame's image with the words of the two zero registers set to zero.
pub open spec fn spec_clear_zero_registers(image: Seq<u64>) -> Seq<u64> {
    image.update(0, 0u64).update(HOST_WORDS as int, 0u64)
}

/// The supervisor CSRs of the host that the world-switch saves and restores,
/// in the order in which the host context holds them.
#[derive(Clone, Copy, Debug, PartialEq, Eq, Structural)]
pub enum HostCsr {
    Sstatus,
    Hstatus,
    Scounteren,
    Stvec,
    Sscratch,
}

/// The supervisor CSRs of the guest that the world-switch restores and
/// saves, in the order in which the guest context holds them.
#[derive(Clone, Copy, Debug, PartialEq, Eq, Structural)]
pub enum GuestCsr {
    Sstatus,
    Hstatus,
    Scounteren,
    Sepc,
}

impl HostCsr {
    /// Position of the CSR among the CSRs of the host context.
    pub open spec fn spec_position(self) -> nat {
        match self {
            HostCsr::Sstatus => 0,
            HostCsr::Hstatus => 1,
            HostCsr::Scounteren => 2,
            HostCsr::Stvec => 3,
            HostCsr::Sscratch => 4,
        }
    }

    /// Position of the CSR among the CSRs of the host context.
    pub fn position(self) -> (n: usize)
        ensures
            n == self.spec_position(),
    {
        match self {
            HostCsr::Sstatus => 0,
            HostCsr::Hstatus => 1,
            HostCsr::Scounteren => 2,
            HostCsr::Stvec => 3,
            HostCsr::Sscratch => 4,
        }
    }
}

impl GuestCsr {
    /// Position of the CSR among the CSRs of the guest context.
    pub open spec fn spec_position(self) -> nat {
        match self {
            GuestCsr::Sstatus => 0,
            GuestCsr::Hstatus => 1,
            GuestCsr::Scounteren => 2,
            GuestCsr::Sepc => 3,
        }
    }

    /// Position of the CSR among the CSRs of the guest context.
    pub fn position(self) -> (n: usize)
        ensures
            n == self.spec_position(),
    {
        match self {
            GuestCsr::Sstatus => 0,
            GuestCsr::Hstatus => 1,
            GuestCsr::Scounteren => 2,
            GuestCsr::Sepc => 3,
        }
    }
}

/// Host registers and CSRs, saved when a guest is entered and restored when
/// it exits.
#[derive(Clone, Copy, Debug)]
pub struct HostCpuState {
    pub gprs: GeneralPurposeRegisters,
    pub sstatus: u64,
    pub hstatus: u64,
    pub scounteren: u64,
    pub stvec: u64,
    pub sscratch: u64,
}

/// Guest registers and CSRs, restored when the guest is entered and saved
/// when it exits.
#[derive(Clone, Copy, Debug)]
pub struct GuestCpuState {
    pub gprs: GeneralPurposeRegisters,
    pub sstatus: u64,
    pub hstatus: u64,
    pub scounteren: u64,
    pub sepc: u64,
}

/// The CSRs that act only while a guest runs (V=1). They are loaded before
/// the guest is entered and saved after it exits.
#[derive(Clone, Copy, Debug, PartialEq, Eq, Structural)]
pub struct GuestVCpuState {
    pub hgatp: u64,
    pub htimedelta: u64,
    pub vsstatus: u64,
    pub vsie: u64,
    pub vstvec: u64,
    pub vsscratch: u64,
    pub vsepc: u64,
    pub vscause: u64,
    pub vstval: u64,
    pub vsatp: u64,
    pub vstimecmp: u64,
}

/// The CSRs that tell the host why a guest exited.
#[derive(Clone, Copy, Debug, PartialEq, Eq, Structural)]
pub struct VmCpuTrapState {
    pub scause: u64,
    pub stval: u64,
    pub htval: u64,
    pub htinst: u64,
}

/// The register-state frame of one vCPU.
#[derive(Clone, Copy, Debug)]
pub struct VmCpuState {
    pub host_regs: HostCpuState,
    pub guest_regs: GuestCpuState,
    pub guest_vcpu_csrs: GuestVCpuState,
    pub trap_csrs: VmCpuTrapState,
}

impl HostCpuState {
    /// The words of the host context in memory order.
    pub open spec fn words(&self) -> Seq<u64> {
        self.gprs@ + seq![self.sstatus, self.hstatus, self.scounteren, self.stvec, self.sscratch]
    }

    /// The value of one of the host's CSRs.
    pub open spec fn csr(&self, csr: HostCsr) -> u64 {
        match csr {
            HostCsr::Sstatus => self.sstatus,
            HostCsr::Hstatus => self.hstatus,
            HostCsr::Scounteren => self.scounteren,
            HostCsr::Stvec => self.stvec,
            HostCsr::Sscratch => self.sscratch,
        }
    }

    /// A host context with every word zero.
    pub fn new() -> (host: Self)
        ensures
            host.words() == zero_words(HOST_WORDS),
    {
        let host = HostCpuState {
            gprs: GeneralPurposeRegisters::new(),
            sstatus: 0,
            hstatus: 0,
            scounteren: 0,
            stvec: 0,
            sscratch: 0,
        };
        assert(host.words() =~= zero_words(HOST_WORDS));
        host
    }
}

impl GuestCpuState {
    /// The words of the guest context in memory order.
    pub open spec fn words(&self) -> Seq<u64> {
        self.gprs@ + seq![self.sstatus, self.hstatus, self.scounteren, self.sepc]
    }

    /// The value of one of the guest's CSRs.
    pub open spec fn csr(&self, csr: GuestCsr) -> u64 {
        match csr {
            GuestCsr::Sstatus => self.sstatus,
            GuestCsr::Hstatus => self.hstatus,
            GuestCsr::Scounteren => self.scounteren,
            GuestCsr::Sepc => self.sepc,
        }
    }

    /// A guest context with every word zero.
    pub fn new() -> (guest: Self)
        ensures
            guest.words() == zero_words(GUEST_WORDS),
    {
        let guest = GuestCpuState {
            gprs: GeneralPurposeRegisters::new(),
            sstatus: 0,
            hstatus: 0,
            scounteren: 0,
            sepc: 0,
        };
        assert(guest.words() =~= zero_words(GUEST_WORDS));
        guest
    }
}

impl GuestVCpuState {
    /// The words of the record in memory order.
    pub open spec fn words(&self) -> Seq<u64> {
        seq![
            self.hgatp,
            self.htimedelta,
            self.vsstatus,
            self.vsie,
            self.vstvec,
            self.vsscratch,
            self.vsepc,
            self.vscause,
            self.vstval,
            self.vsatp,
            self.vstimecmp,
        ]
    }
}

impl Default for GuestVCpuState {
    /// A record with every CSR zero.
    fn default() -> (csrs: Self)
        ensures
            csrs.words() == zero_words(VCPU_CSR_WORDS),
    {
        let csrs = GuestVCpuState {
            hgatp: 0,
            htimedelta: 0,
            vsstatus: 0,
            vsie: 0,
            vstvec: 0,
            vsscratch: 0,
            vsepc: 0,
            vscause: 0,
            vstval: 0,
            vsatp: 0,
            vstimecmp: 0,
        };
        assert(csrs.words() =~= zero_words(VCPU_CSR_WORDS));
        csrs
    }
}

impl VmCpuTrapState {
    /// The words of the trap scratch area in memory order.
    pub open spec fn words(&self) -> Seq<u64> {
        seq![self.scause, self.stval, self.htval, self.htinst]
    }
}

impl Default for VmCpuTrapState {
    /// A trap record with every CSR zero.
    fn default() -> (trap: Self)
        ensures
            trap == (VmCpuTrapState { scause: 0, stval: 0, htval: 0, htinst: 0 }),
    {
        VmCpuTrapState { scause: 0, stval: 0, htval: 0, htinst: 0 }
    }
}

/// Byte offset in the frame of register `index` of the host context.
pub open spec fn spec_host_gpr_offset(index: GprIndex) -> nat {
    (HOST_REGS_OFFSET + GPRS_OFFSET + index.spec_number() * WORD_BYTES) as nat
}

/// Byte offset in the frame of register `index` of the guest context.
pub open spec fn spec_guest_gpr_offset(index: GprIndex) -> nat {
    (GUEST_REGS_OFFSET + GPRS_OFFSET + index.spec_number() * WORD_BYTES) as nat
}

/// Byte offset in the frame of CSR `csr` of the host context.
pub open spec fn spec_host_csr_offset(csr: HostCsr) -> nat {
    (HOST_REGS_OFFSET + CSRS_OFFSET + csr.spec_position() * WORD_BYTES) as nat
}

/// Byte offset in the frame of CSR `csr` of the guest context.
pub open spec fn spec_guest_csr_offset(csr: GuestCsr) -> nat {
    (GUEST_REGS_OFFSET + CSRS_OFFSET + csr.spec_position() * WORD_BYTES) as nat
}

/// Byte offset in the frame of register `index` of the host context.
pub fn host_gpr_offset(index: GprIndex) -> (offset: usize)
    ensures
        offset == spec_host_gpr_offset(index),
{
    HOST_REGS_OFFSET + GPRS_OFFSET + index.number() * WORD_BYTES
}

/// Byte offset in the frame of register `index` of the guest context.
pub fn guest_gpr_offset(index: GprIndex) -> (offset: usize)
    ensures
        offset == spec_guest_gpr_offset(index),
{
    GUEST_REGS_OFFSET + GPRS_OFFSET + index.number() * WORD_BYTES
}

/// Byte offset in the frame of CSR `csr` of the host context.
pub fn host_csr_offset(csr: HostCsr) -> (offset: usize)
    ensures
        offset == spec_host_csr_offset(csr),
{
    HOST_REGS_OFFSET + CSRS_OFFSET + csr.position() * WORD_BYTES
}

/// Byte offset in the frame of CSR `csr` of the guest context.
pub fn guest_csr_offset(csr: GuestCsr) -> (offset: usize)
    ensures
        offset == spec_guest_csr_offset(csr),
{
    GUEST_REGS_OFFSET + CSRS_OFFSET + csr.position() * WORD_BYTES
}

impl VmCpuState {
    /// The frame as it lies in memory: the words of the four sub-records,
    /// one after the other.
    pub open spec fn image(&self) -> Seq<u64> {
        self.host_regs.words() + self.guest_regs.words() + self.guest_vcpu_csrs.words()
            + self.trap_csrs.words()
    }

    /// The word of the frame that lies at byte offset `offset`.
    pub open spec fn word_at(&self, offset: nat) -> u64
        recommends
            offset % (WORD_BYTES as nat) == 0,
            offset < FRAME_BYTES,
    {
        self.image()[(offset / (WORD_BYTES as nat)) as int]
    }

    /// A frame with every word zero.
    pub fn new() -> (frame: Self)
        ensures
            frame.image() == zero_words(FRAME_WORDS),
    {
        let frame = VmCpuState {
            host_regs: HostCpuState::new(),
            guest_regs: GuestCpuState::new(),
            guest_vcpu_csrs: GuestVCpuState::default(),
            trap_csrs: VmCpuTrapState::default(),
        };
        assert(frame.image() =~= zero_words(FRAME_WORDS));
        frame
    }

    /// The frame's image in memory has 88 words: 37 of the host context,
    /// 36 of the guest context, and the rest.
    pub proof fn lemma_image_len(&self)
        ensures
            self.image().len() == FRAME_WORDS,
            self.host_regs.words().len() == HOST_WORDS,
            self.guest_regs.words().len() == GUEST_WORDS,
    {
        self.host_regs.gprs.lemma_len();
        self.guest_regs.gprs.lemma_len();
    }

    /// The offsets handed to the world-switch address the fields they are
    /// named after: the word of the frame's image at the offset of a
    /// register or CSR is the value of that register or CSR, each offset
    /// is a multiple of the word size and lies within the frame.
    pub proof fn lemma_offsets_address_fields(&self, index: GprIndex, host: HostCsr, guest: GuestCsr)
        ensures
            spec_host_gpr_offset(index) % (WORD_BYTES as nat) == 0,
            spec_guest_gpr_offset(index) % (WORD_BYTES as nat) == 0,
            spec_host_csr_offset(host) % (WORD_BYTES as nat) == 0,
            spec_guest_csr_offset(guest) % (WORD_BYTES as nat) == 0,
            spec_host_gpr_offset(index) < spec_host_csr_offset(host) < spec_guest_gpr_offset(index)
                < spec_guest_csr_offset(guest) < GUEST_VCPU_CSRS_OFFSET < TRAP_CSRS_OFFSET
                < FRAME_BYTES,
            self.word_at(spec_host_gpr_offset(index)) == self.host_regs.gprs@[index.spec_number() as int],
            self.word_at(spec_guest_gpr_offset(index)) == self.guest_regs.gprs@[index.spec_number() as int],
            self.word_at(spec_host_csr_offset(host)) == self.host_regs.csr(host),
            self.word_at(spec_guest_csr_offset(guest)) == self.guest_regs.csr(guest),
    {
        self.host_regs.gprs.lemma_len();
        self.guest_regs.gprs.lemma_len();
    }

    /// Offsets tell fields apart: two registers, or two CSRs, of one
    /// context lie at the same offset only if they are the same.
    pub proof fn lemma_offsets_distinct(a: GprIndex, b: GprIndex, h1: HostCsr, h2: HostCsr, g1: GuestCsr, g2: GuestCsr)
        ensures
            spec_host_gpr_offset(a) == spec_host_gpr_offset(b) <==> a == b,
            spec_guest_gpr_offset(a) == spec_guest_gpr_offset(b) <==> a == b,
            spec_host_csr_offset(h1) == spec_host_csr_offset(h2) <==> h1 == h2,
            spec_guest_csr_offset(g1) == spec_guest_csr_offset(g2) <==> g1 == g2,
    {
    }

    /// The frame as it lies in memory.
    pub fn to_words(&self) -> (words: [u64; 88])
        ensures
            words@ == self.image(),
            spec_clear_zero_registers(words@) == words@,
    {
        let host: [u64; 32] = self.host_regs.gprs.to_words();
        let guest: [u64; 32] = self.guest_regs.gprs.to_words();
        let mut words: [u64; 88] = [0u64; 88];
        let mut i: usize = 0;
        while i < 32
            invariant
                i <= 32,
                forall|j: int| 0 <= j < i ==> words@[j] == host@[j],
                forall|j: int| 0 <= j < i ==> words@[37 + j] == guest@[j],
            decreases 32 - i,
        {
            words[i] = host[i];
            words[37 + i] = guest[i];
            i += 1;
        }
        words[32] = self.host_regs.sstatus;
        words[33] = self.host_regs.hstatus;
        words[34] = self.host_regs.scounteren;
        words[35] = self.host_regs.stvec;
        words[36] = self.host_regs.sscratch;
        words[69] = self.guest_regs.sstatus;
        words[70] = self.guest_regs.hstatus;
        words[71] = self.guest_regs.scounteren;
        words[72] = self.guest_regs.sepc;
        words[73] = self.guest_vcpu_csrs.hgatp;
        words[74] = self.guest_vcpu_csrs.htimedelta;
        words[75] = self.guest_vcpu_csrs.vsstatus;
        words[76] = self.guest_vcpu_csrs.vsie;
        words[77] = self.guest_vcpu_csrs.vstvec;
        words[78] = self.guest_vcpu_csrs.vsscratch;
        words[79] = self.guest_vcpu_csrs.vsepc;
        words[80] = self.guest_vcpu_csrs.vscause;
        words[81] = self.guest_vcpu_csrs.vstval;
        words[82] = self.guest_vcpu_csrs.vsatp;
        words[83] = self.guest_vcpu_csrs.vstimecmp;
        words[84] = self.trap_csrs.scause;
        words[85] = self.trap_csrs.stval;
        words[86] = self.trap_csrs.htval;
        words[87] = self.trap_csrs.htinst;
        proof {
            self.host_regs.gprs.lemma_len();
            self.guest_regs.gprs.lemma_len();
            assert(words@ =~= self.image());
            assert(spec_clear_zero_registers(words@) =~= words@);
        }
        words
    }

    /// The frame whose image in memory is `words`, but with the zero
    /// register of each context zero.
    pub fn from_words(words: &[u64; 88]) -> (frame: Self)
        ensures
            frame.image() == spec_clear_zero_registers(words@),
    {
        let mut host: [u64; 32] = [0u64; 32];
        let mut guest: [u64; 32] = [0u64; 32];
        let mut i: usize = 0;
        while i < 32
            invariant
                i <= 32,
                forall|j: int| 0 <= j < i ==> host@[j] == words@[j],
                forall|j: int| 0 <= j < i ==> guest@[j] == words@[37 + j],
            decreases 32 - i,
        {
            host[i] = words[i];
            guest[i] = words[37 + i];
            i += 1;
        }
        let frame = VmCpuState {
            host_regs: HostCpuState {
                gprs: GeneralPurposeRegisters::from_words(&host),
                sstatus: words[32],
                hstatus: words[33],
                scounteren: words[34],
                stvec: words[35],
                sscratch: words[36],
            },
            guest_regs: GuestCpuState {
                gprs: GeneralPurposeRegisters::from_words(&guest),
                sstatus: words[69],
                hstatus: words[70],
                scounteren: words[71],
                sepc: words[72],
            },
            guest_vcpu_csrs: GuestVCpuState {
                hgatp: words[73],
                htimedelta: words[74],
                vsstatus: words[75],
                vsie: words[76],
                vstvec: words[77],
                vsscratch: words[78],
                vsepc: words[79],
                vscause: words[80],
                vstval: words[81],
                vsatp: words[82],
                vstimecmp: words[83],
            },
            trap_csrs: VmCpuTrapState {
                scause: words[84],
                stval: words[85],
                htval: words[86],
                htinst: words[87],
            },
        };
        proof {
            frame.host_regs.gprs.lemma_len();
            frame.guest_regs.gprs.lemma_len();
            assert(frame.image() =~= spec_clear_zero_registers(words@));
        }
        frame
    }

    /// Two frames with the same image in memory are the same frame.
    pub proof fn lemma_image_determines_frame(a: Self, b: Self)
        requires
            a.image() == b.image(),
        ensures
            a == b,
    {
        a.host_regs.gprs.lemma_len();
        a.guest_regs.gprs.lemma_len();
        b.host_regs.gprs.lemma_len();
        b.guest_regs.gprs.lemma_len();
        let ai = a.image();
        let bi = b.image();
        assert(a.host_regs.gprs@ =~= b.host_regs.gprs@) by {
            assert forall|j: int| 0 <= j < 32 implies a.host_regs.gprs@[j] == b.host_regs.gprs@[j] by {
                assert(ai[j] == a.host_regs.gprs@[j]);
                assert(bi[j] == b.host_regs.gprs@[j]);
            }
        }
        assert(a.guest_regs.gprs@ =~= b.guest_regs.gprs@) by {
            assert forall|j: int| 0 <= j < 32 implies a.guest_regs.gprs@[j] == b.guest_regs.gprs@[j] by {
                assert(ai[37 + j] == a.guest_regs.gprs@[j]);
                assert(bi[37 + j] == b.guest_regs.gprs@[j]);
            }
        }
        GeneralPurposeRegisters::lemma_same_values(a.host_regs.gprs, b.host_regs.gprs);
        GeneralPurposeRegisters::lemma_same_values(a.guest_regs.gprs, b.guest_regs.gprs);
        assert(ai[32] == a.host_regs.sstatus && bi[32] == b.host_regs.sstatus);
        assert(ai[33] == a.host_regs.hstatus && bi[33] == b.host_regs.hstatus);
        assert(ai[34] == a.host_regs.scounteren && bi[34] == b.host_regs.scounteren);
        assert(ai[35] == a.host_regs.stvec && bi[35] == b.host_regs.stvec);
        assert(ai[36] == a.host_regs.sscratch && bi[36] == b.host_regs.sscratch);
        assert(ai[69] == a.guest_regs.sstatus && bi[69] == b.guest_regs.sstatus);
        assert(ai[70] == a.guest_regs.hstatus && bi[70] == b.guest_regs.hstatus);
        assert(ai[71] == a.guest_regs.scounteren && bi[71] == b.guest_regs.scounteren);
        assert(ai[72] == a.guest_regs.sepc && bi[72] == b.guest_regs.sepc);
        assert(ai[73] == a.guest_vcpu_csrs.hgatp && bi[73] == b.guest_vcpu_csrs.hgatp);
        assert(ai[74] == a.guest_vcpu_csrs.htimedelta && bi[74] == b.guest_vcpu_csrs.htimedelta);
        assert(ai[75] == a.guest_vcpu_csrs.vsstatus && bi[75] == b.guest_vcpu_csrs.vsstatus);
        assert(ai[76] == a.guest_vcpu_csrs.vsie && bi[76] == b.guest_vcpu_csrs.vsie);
        assert(ai[77] == a.guest_vcpu_csrs.vstvec && bi[77] == b.guest_vcpu_csrs.vstvec);
        assert(ai[78] == a.guest_vcpu_csrs.vsscratch && bi[78] == b.guest_vcpu_csrs.vsscratch);
        assert(ai[79] == a.guest_vcpu_csrs.vsepc && bi[79] == b.guest_vcpu_csrs.vsepc);
        assert(ai[80] == a.guest_vcpu_csrs.vscause && bi[80] == b.guest_vcpu_csrs.vscause);
        assert(ai[81] == a.guest_vcpu_csrs.vstval && bi[81] == b.guest_vcpu_csrs.vstval);
        assert(ai[82] == a.guest_vcpu_csrs.vsatp && bi[82] == b.guest_vcpu_csrs.vsatp);
        assert(ai[83] == a.guest_vcpu_csrs.vstimecmp && bi[83] == b.guest_vcpu_csrs.vstimecmp);
        assert(ai[84] == a.trap_csrs.scause && bi[84] == b.trap_csrs.scause);
        assert(ai[85] == a.trap_csrs.stval && bi[85] == b.trap_csrs.stval);
        assert(ai[86] == a.trap_csrs.htval && bi[86] == b.trap_csrs.htval);
        assert(ai[87] == a.trap_csrs.htinst && bi[87] == b.trap_csrs.htinst);
    }
}

} // verus!
