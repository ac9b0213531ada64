//! Guest interrupt files of the incoming MSI controller.

use vstd::prelude::*;

verus! {

/// Identifies the guest interrupt file that is bound to a vCPU.
#[derive(Clone, Copy, Debug, PartialEq, Eq, Structural, Hash)]
pub struct ImsicGuestId {
    pub raw_index: u64,
}

impl ImsicGuestId {
    /// The interrupt file with index `raw_index`.
    pub fn new(raw_index: u64) -> (id: Self)
        ensures
            id.raw_index == raw_index,
    {
        ImsicGuestId { raw_index }
    }

    /// The index by which `hstatus.VGEIN` selects the file.
    pub fn to_raw_index(&self) -> (raw_index: u64)
        ensures
            raw_index == self.raw_index,
    {
        self.raw_index
    }
}

} // verus!
