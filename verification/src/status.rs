//! The life of a vCPU slot: absent, available, or claimed for running.
//!
//! ```text
//!             add                  take
//! NotPresent ─────▶ Available ◀──────────▶ Running
//!                                release
//! ```
//!
//! Every request to the table reads a slot's status and either moves it
//! along one of these arrows or fails and leaves it as it is.

use vstd::prelude::*;
use crate::error::Error;

verus! {

/// The state of a vCPU slot.
#[derive(Clone, Copy, Debug, PartialEq, Eq, Structural, Hash)]
pub enum VmCpuStatus {
    /// The slot holds no vCPU.
    NotPresent,
    /// The slot holds a vCPU that is not running.
    Available,
    /// The vCPU has been claimed exclusively for running on a physical CPU.
    Running,
}

impl VmCpuStatus {
    /// Adding a vCPU: an absent slot becomes available; a populated slot
    /// refuses.
    pub open spec fn spec_on_add(self) -> Result<VmCpuStatus, Error> {
        match self {
            VmCpuStatus::NotPresent => Ok(VmCpuStatus::Available),
            _ => Err(Error::VmCpuExists),
        }
    }

    /// Inspecting a vCPU: an available slot stays available; a running or
    /// an absent slot refuses.
    pub open spec fn spec_on_get(self) -> Result<VmCpuStatus, Error> {
        match self {
            VmCpuStatus::Available => Ok(VmCpuStatus::Available),
            VmCpuStatus::Running => Err(Error::VmCpuRunning),
            VmCpuStatus::NotPresent => Err(Error::VmCpuNotFound),
        }
    }

    /// Claiming a vCPU: an available slot becomes running; a running or an
    /// absent slot refuses.
    pub open spec fn spec_on_take(self) -> Result<VmCpuStatus, Error> {
        match self {
            VmCpuStatus::Available => Ok(VmCpuStatus::Running),
            VmCpuStatus::Running => Err(Error::VmCpuRunning),
            VmCpuStatus::NotPresent => Err(Error::VmCpuNotFound),
        }
    }

    /// Releasing a claimed vCPU: a running slot becomes available. A slot
    /// that is found in another status has no claim on it, and is left as
    /// it is found.
    pub open spec fn spec_on_release(self) -> VmCpuStatus {
        match self {
            VmCpuStatus::Running => VmCpuStatus::Available,
            _ => self,
        }
    }

    /// The status of a slot after a request with the given outcome: the
    /// new status where the request was granted, the old one where it was
    /// refused.
    pub open spec fn spec_after(self, outcome: Result<VmCpuStatus, Error>) -> VmCpuStatus {
        match outcome {
            Ok(next) => next,
            Err(_) => self,
        }
    }

    /// The status that a slot takes when a vCPU is added, or why it cannot
    /// be.
    pub fn on_add(self) -> (outcome: Result<VmCpuStatus, Error>)
        ensures
            outcome == self.spec_on_add(),
    {
        match self {
            VmCpuStatus::NotPresent => Ok(VmCpuStatus::Available),
            _ => Err(Error::VmCpuExists),
        }
    }

    /// The status that a slot keeps while its vCPU is inspected, or why it
    /// cannot be.
    pub fn on_get(self) -> (outcome: Result<VmCpuStatus, Error>)
        ensures
            outcome == self.spec_on_get(),
    {
        match self {
            VmCpuStatus::Available => Ok(VmCpuStatus::Available),
            VmCpuStatus::Running => Err(Error::VmCpuRunning),
            VmCpuStatus::NotPresent => Err(Error::VmCpuNotFound),
        }
    }

    /// The status that a slot takes when its vCPU is claimed, or why it
    /// cannot be.
    pub fn on_take(self) -> (outcome: Result<VmCpuStatus, Error>)
        ensures
            outcome == self.spec_on_take(),
    {
        match self {
            VmCpuStatus::Available => Ok(VmCpuStatus::Running),
            VmCpuStatus::Running => Err(Error::VmCpuRunning),
            VmCpuStatus::NotPresent => Err(Error::VmCpuNotFound),
        }
    }

    /// The status that a slot takes when the claim on its vCPU is
    /// released: available where it is running, else the status it has.
    pub fn on_release(self) -> (next: VmCpuStatus)
        ensures
            next == self.spec_on_release(),
        opens_invariants none
        no_unwind
    {
        match self {
            VmCpuStatus::Running => VmCpuStatus::Available,
            VmCpuStatus::Available => VmCpuStatus::Available,
            VmCpuStatus::NotPresent => VmCpuStatus::NotPresent,
        }
    }

    /// A vCPU is added once. Adding to an absent slot makes it available.
    /// Whatever status an add finds, an add that finds the status that the
    /// first one left is refused with `VmCpuExists`. And no request returns
    /// a slot to absent, so that the refusal holds after any requests in
    /// between.
    pub proof fn lemma_added_once(self)
        ensures
            VmCpuStatus::NotPresent.spec_on_add() == Ok::<VmCpuStatus, Error>(VmCpuStatus::Available),
            self.spec_after(self.spec_on_add()).spec_on_add() == Err::<VmCpuStatus, Error>(
                Error::VmCpuExists,
            ),
            self != VmCpuStatus::NotPresent ==> self.spec_on_add() == Err::<VmCpuStatus, Error>(
                Error::VmCpuExists,
            ),
            self.spec_after(self.spec_on_add()) != VmCpuStatus::NotPresent,
            self != VmCpuStatus::NotPresent ==> {
                &&& self.spec_after(self.spec_on_get()) != VmCpuStatus::NotPresent
                &&& self.spec_after(self.spec_on_take()) != VmCpuStatus::NotPresent
                &&& self.spec_on_release() != VmCpuStatus::NotPresent
            },
    {
    }

    /// From a granted claim to its release the slot is running: the claim
    /// leaves it running, and a request that finds it running is refused,
    /// to inspect or to claim with `VmCpuRunning` and to add with
    /// `VmCpuExists`, and leaves it running.
    pub proof fn lemma_running_is_exclusive(self)
        requires
            self.spec_on_take() is Ok,
        ensures
            self.spec_after(self.spec_on_take()) == VmCpuStatus::Running,
            self.spec_after(self.spec_on_take()).spec_on_get() == Err::<VmCpuStatus, Error>(
                Error::VmCpuRunning,
            ),
            self.spec_after(self.spec_on_take()).spec_on_take() == Err::<VmCpuStatus, Error>(
                Error::VmCpuRunning,
            ),
            self.spec_after(self.spec_on_take()).spec_on_add() == Err::<VmCpuStatus, Error>(
                Error::VmCpuExists,
            ),
            VmCpuStatus::Running.spec_after(VmCpuStatus::Running.spec_on_get())
                == VmCpuStatus::Running,
            VmCpuStatus::Running.spec_after(VmCpuStatus::Running.spec_on_take())
                == VmCpuStatus::Running,
            VmCpuStatus::Running.spec_after(VmCpuStatus::Running.spec_on_add())
                == VmCpuStatus::Running,
    {
    }

    /// The release of a granted claim leaves the slot available, and a
    /// claim that finds what the release left is granted and leaves the
    /// slot running again. A release never leaves a slot running, and
    /// changes no status but running.
    pub proof fn lemma_release_then_take(self)
        ensures
            self.spec_on_take() is Ok ==> {
                &&& self.spec_after(self.spec_on_take()).spec_on_release()
                    == VmCpuStatus::Available
                &&& self.spec_after(self.spec_on_take()).spec_on_release().spec_on_take() == Ok::<
                    VmCpuStatus,
                    Error,
                >(VmCpuStatus::Running)
                &&& self.spec_after(self.spec_on_take()).spec_on_release().spec_on_get() == Ok::<
                    VmCpuStatus,
                    Error,
                >(VmCpuStatus::Available)
            },
            self.spec_on_release() != VmCpuStatus::Running,
            self != VmCpuStatus::Running ==> self.spec_on_release() == self,
    {
    }

    /// The arrows of the diagram are the only moves: a request changes a
    /// slot's status only from absent to available (add), from available
    /// to running (take) or from running to available (release).
    pub proof fn lemma_no_other_transitions(self)
        ensures
            self.spec_after(self.spec_on_add()) != self ==> self == VmCpuStatus::NotPresent
                && self.spec_after(self.spec_on_add()) == VmCpuStatus::Available,
            self.spec_after(self.spec_on_get()) == self,
            self.spec_after(self.spec_on_take()) != self ==> self == VmCpuStatus::Available
                && self.spec_after(self.spec_on_take()) == VmCpuStatus::Running,
            self.spec_on_release() != self ==> self == VmCpuStatus::Running
                && self.spec_on_release() == VmCpuStatus::Available,
            self.spec_on_get() is Ok <==> self == VmCpuStatus::Available,
            self.spec_on_take() is Ok <==> self == VmCpuStatus::Available,
            self.spec_on_add() is Ok <==> self == VmCpuStatus::NotPresent,
    {
    }
}

} // verus!
