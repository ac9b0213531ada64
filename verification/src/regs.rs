//! The general-purpose register file of a RISC-V hart.

use vstd::prelude::*;

verus! {

/// Number of general-purpose registers of a hart.
pub const NUM_GPRS: usize = 32;

/// Names of the general-purpose registers, in the order of their
/// architectural numbers `x0` to `x31`.
#[derive(Clone, Copy, Debug, PartialEq, Eq, Structural, Hash)]
pub enum GprIndex {
    Zero,
    RA,
    SP,
    GP,
    TP,
    T0,
    T1,
    T2,
    S0,
    S1,
    A0,
    A1,
    A2,
    A3,
    A4,
    A5,
    A6,
    A7,
    S2,
    S3,
    S4,
    S5,
    S6,
    S7,
    S8,
    S9,
    S10,
    S11,
    T3,
    T4,
    T5,
    T6,
}

impl GprIndex {
    /// The architectural number of the register: `x0` is 0, `x31` is 31.
    pub open spec fn spec_number(self) -> nat {
        match self {
            GprIndex::Zero => 0,
            GprIndex::RA => 1,
            GprIndex::SP => 2,
            GprIndex::GP => 3,
            GprIndex::TP => 4,
            GprIndex::T0 => 5,
            GprIndex::T1 => 6,
            GprIndex::T2 => 7,
            GprIndex::S0 => 8,
            GprIndex::S1 => 9,
            GprIndex::A0 => 10,
            GprIndex::A1 => 11,
            GprIndex::A2 => 12,
            GprIndex::A3 => 13,
            GprIndex::A4 => 14,
            GprIndex::A5 => 15,
            GprIndex::A6 => 16,
            GprIndex::A7 => 17,
            GprIndex::S2 => 18,
            GprIndex::S3 => 19,
            GprIndex::S4 => 20,
            GprIndex::S5 => 21,
            GprIndex::S6 => 22,
            GprIndex::S7 => 23,
            GprIndex::S8 => 24,
            GprIndex::S9 => 25,
            GprIndex::S10 => 26,
            GprIndex::S11 => 27,
            GprIndex::T3 => 28,
            GprIndex::T4 => 29,
            GprIndex::T5 => 30,
            GprIndex::T6 => 31,
        }
    }

    /// The architectural number of the register.
    pub fn number(self) -> (n: usize)
        ensures
            n == self.spec_number(),
            n < NUM_GPRS,
    {
        match self {
            GprIndex::Zero => 0,
            GprIndex::RA => 1,
            GprIndex::SP => 2,
            GprIndex::GP => 3,
            GprIndex::TP => 4,
            GprIndex::T0 => 5,
            GprIndex::T1 => 6,
            GprIndex::T2 => 7,
            GprIndex::S0 => 8,
            GprIndex::S1 => 9,
            GprIndex::A0 => 10,
            GprIndex::A1 => 11,
            GprIndex::A2 => 12,
            GprIndex::A3 => 13,
            GprIndex::A4 => 14,
            GprIndex::A5 => 15,
            GprIndex::A6 => 16,
            GprIndex::A7 => 17,
            GprIndex::S2 => 18,
            GprIndex::S3 => 19,
            GprIndex::S4 => 20,
            GprIndex::S5 => 21,
            GprIndex::S6 => 22,
            GprIndex::S7 => 23,
            GprIndex::S8 => 24,
            GprIndex::S9 => 25,
            GprIndex::S10 => 26,
            GprIndex::S11 => 27,
            GprIndex::T3 => 28,
            GprIndex::T4 => 29,
            GprIndex::T5 => 30,
            GprIndex::T6 => 31,
        }
    }
}

/// The values of the argument registers A0 to A7 of a register file.
pub open spec fn spec_a_regs(regs: Seq<u64>) -> Seq<u64> {
    regs.subrange(GprIndex::A0.spec_number() as int, GprIndex::A7.spec_number() as int + 1)
}

/// The 32 general-purpose registers of one context. Register `x0` reads as
/// zero and is never written.
#[derive(Clone, Copy, Debug)]
pub struct GeneralPurposeRegisters {
    regs: [u64; 32],
}

impl View for GeneralPurposeRegisters {
    type V = Seq<u64>;

    /// The register values, indexed by architectural number.
    closed spec fn view(&self) -> Seq<u64> {
        self.regs@
    }
}

impl GeneralPurposeRegisters {
    #[verifier::type_invariant]
    spec fn zero_register_is_zero(&self) -> bool {
        self.regs@[0] == 0
    }

    /// What the register file holds after `value` is written to `index`:
    /// a write to the zero register changes nothing.
    pub open spec fn spec_set_reg(regs: Seq<u64>, index: GprIndex, value: u64) -> Seq<u64> {
        if index == GprIndex::Zero {
            regs
        } else {
            regs.update(index.spec_number() as int, value)
        }
    }

    /// A register file has one value for each of the 32 registers.
    pub broadcast proof fn lemma_len(&self)
        ensures
            #[trigger] self@.len() == NUM_GPRS,
    {
    }

    /// Two register files with the same values are the same.
    pub proof fn lemma_same_values(a: Self, b: Self)
        requires
            a@ == b@,
        ensures
            a == b,
    {
        assert(a.regs =~= b.regs);
    }

    /// A register file with every register zero.
    pub fn new() -> (gprs: Self)
        ensures
            gprs@ == Seq::new(NUM_GPRS as nat, |i: int| 0u64),
    {
        let gprs = GeneralPurposeRegisters { regs: [0u64; 32] };
        assert(gprs@ =~= Seq::new(NUM_GPRS as nat, |i: int| 0u64));
        gprs
    }

    /// The value of register `index`; the zero register holds zero.
    pub fn reg(&self, index: GprIndex) -> (value: u64)
        ensures
            value == self@[index.spec_number() as int],
            index == GprIndex::Zero ==> value == 0,
    {
        proof {
            use_type_invariant(self);
        }
        self.regs[index.number()]
    }

    /// Writes `value` to register `index`; the zero register stays zero.
    pub fn set_reg(&mut self, index: GprIndex, value: u64)
        ensures
            final(self)@ == Self::spec_set_reg(old(self)@, index, value),
    {
        proof {
            use_type_invariant(&*self);
        }
        let n: usize = index.number();
        if n != 0 {
            self.regs[n] = value;
        }
    }

    /// The argument registers A0 to A7, in that order.
    pub fn a_regs(&self) -> (args: [u64; 8])
        ensures
            args@ == spec_a_regs(self@),
    {
        let args: [u64; 8] = [
            self.regs[10],
            self.regs[11],
            self.regs[12],
            self.regs[13],
            self.regs[14],
            self.regs[15],
            self.regs[16],
            self.regs[17],
        ];
        assert(args@ =~= spec_a_regs(self@));
        args
    }

    /// The register values, indexed by architectural number.
    pub fn to_words(&self) -> (words: [u64; 32])
        ensures
            words@ == self@,
            words@[0] == 0,
    {
        proof {
            use_type_invariant(self);
        }
        self.regs
    }

    /// The register file with the values of `words`, but with the zero
    /// register zero.
    pub fn from_words(words: &[u64; 32]) -> (gprs: Self)
        ensures
            gprs@ == words@.update(0, 0u64),
    {
        let mut regs: [u64; 32] = *words;
        regs[0] = 0;
        GeneralPurposeRegisters { regs }
    }
}

} // verus!
