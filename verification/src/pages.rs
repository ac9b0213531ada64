//! Guest-physical addresses, page owners and the page ranges that back the
//! vCPU table.

use vstd::prelude::*;

verus! {

/// Bytes in a 4 KiB page.
pub const PAGE_SIZE_4K: u64 = 4096;

/// Identifies the owner of a page: the guest that a vCPU belongs to.
#[derive(Clone, Copy, Debug, PartialEq, Eq, Structural, Hash)]
pub struct PageOwnerId {
    pub raw: u64,
}

/// An address in the physical address space of the guest `owner`.
#[derive(Clone, Copy, Debug, PartialEq, Eq, Structural, Hash)]
pub struct GuestPhysAddr {
    pub bits: u64,
    pub owner: PageOwnerId,
}

impl PageOwnerId {
    /// The owner with identifier `raw`.
    pub fn new(raw: u64) -> (id: Self)
        ensures
            id.raw == raw,
    {
        PageOwnerId { raw }
    }
}

impl GuestPhysAddr {
    /// The address `bits` in the address space of guest `owner`.
    pub fn guest(bits: u64, owner: PageOwnerId) -> (addr: Self)
        ensures
            addr.bits == bits,
            addr.owner == owner,
    {
        GuestPhysAddr { bits, owner }
    }
}

/// The number of 4 KiB pages that hold `bytes` bytes: the least `n` with
/// `n * 4096 >= bytes`.
pub open spec fn spec_num_4k_pages(bytes: nat) -> nat {
    if bytes % (PAGE_SIZE_4K as nat) == 0 {
        bytes / (PAGE_SIZE_4K as nat)
    } else {
        bytes / (PAGE_SIZE_4K as nat) + 1
    }
}

/// The number of 4 KiB pages that hold `bytes` bytes.
pub fn num_4k_pages(bytes: u64) -> (pages: u64)
    ensures
        pages == spec_num_4k_pages(bytes as nat),
{
    if bytes % PAGE_SIZE_4K == 0 {
        bytes / PAGE_SIZE_4K
    } else {
        bytes / PAGE_SIZE_4K + 1
    }
}

/// `spec_num_4k_pages(bytes)` pages hold `bytes` bytes, and no smaller
/// number of pages does.
pub proof fn lemma_num_4k_pages_is_least(bytes: nat, n: nat)
    ensures
        spec_num_4k_pages(bytes) * PAGE_SIZE_4K >= bytes,
        n * PAGE_SIZE_4K >= bytes <==> n >= spec_num_4k_pages(bytes),
{
}

/// A run of 4 KiB pages that follow one another in memory.
#[derive(Clone, Copy, Debug, PartialEq, Eq, Structural)]
pub struct SequentialPages {
    base: u64,
    count: u64,
}

impl SequentialPages {
    /// The range lies on a page boundary and ends within the address space.
    #[verifier::type_invariant]
    spec fn in_address_space(&self) -> bool {
        &&& self.base % PAGE_SIZE_4K == 0
        &&& self.base + self.count * PAGE_SIZE_4K <= u64::MAX
    }

    /// The address of the first page.
    pub closed spec fn spec_base(&self) -> u64 {
        self.base
    }

    /// The number of pages in the range.
    pub closed spec fn spec_len(&self) -> u64 {
        self.count
    }

    /// The range of `count` pages that starts at address `base`, if `base`
    /// lies on a page boundary and the range ends within the address space.
    pub fn new(base: u64, count: u64) -> (pages: Option<Self>)
        ensures
            pages is Some <==> base % PAGE_SIZE_4K == 0 && base + count * PAGE_SIZE_4K <= u64::MAX,
            pages matches Some(p) ==> p.spec_base() == base && p.spec_len() == count,
    {
        if base % PAGE_SIZE_4K != 0 {
            return None;
        }
        if count > (u64::MAX - base) / PAGE_SIZE_4K {
            return None;
        }
        Some(SequentialPages { base, count })
    }

    /// The address of the first page.
    #[verifier::when_used_as_spec(spec_base)]
    pub fn base(&self) -> (base: u64)
        ensures
            base == self.spec_base(),
    {
        self.base
    }

    /// The number of pages in the range.
    #[verifier::when_used_as_spec(spec_len)]
    pub fn len(&self) -> (count: u64)
        ensures
            count == self.spec_len(),
    {
        self.count
    }
}

} // verus!
