//! The vCPU table: a fixed number of slots, each a vCPU behind a mutex
//! and a status behind a reader-writer lock, and the scoped references
//! that pin a slot's status while they are held.
//!
//! Locking order: a slot's status is locked before its vCPU, never the
//! other way round.

use vstd::prelude::*;
use crate::error::Error;
use crate::frame::FRAME_BYTES;
use crate::pages::{spec_num_4k_pages, PageOwnerId, SequentialPages, PAGE_SIZE_4K};
use crate::status::VmCpuStatus;
use crate::vcpu::{spec_is_initial_frame, VmCpu};

verus! {

/// The number of vCPU slots of a table, and so of vCPUs of a guest.
pub const MAX_CPUS: usize = 128;

/// Bytes that one vCPU takes in memory: its frame, its interrupt-file
/// binding and its owner.
pub const VM_CPU_BYTES: u64 = FRAME_BYTES as u64 + 16 + 8;

/// Bytes that one slot takes in memory: the vCPU with its mutex word and
/// the status with its lock word.
pub const VM_CPU_SLOT_BYTES: u64 = VM_CPU_BYTES + 8 + 16;

/// Bytes that the table takes besides its slots.
pub const VM_CPUS_HEADER_BYTES: u64 = 24;

/// Bytes that a table with all its `MAX_CPUS` slots takes.
pub const VM_CPUS_BYTES: u64 = 128 * VM_CPU_SLOT_BYTES + VM_CPUS_HEADER_BYTES;

/// The number of 4 KiB pages required to hold the vCPU state of a guest.
pub const VM_CPUS_PAGES: u64 = (VM_CPUS_BYTES + PAGE_SIZE_4K - 1) / PAGE_SIZE_4K;

/// `spin::relax::Spin`: the strategy of a lock that spins while it waits.
#[verifier::external_type_specification]
#[verifier::external_body]
pub struct ExSpin(spin::relax::Spin);

/// `spin::rwlock::RwLock`: a lock for one writer or many readers.
#[verifier::external_type_specification]
#[verifier::external_body]
#[verifier::reject_recursive_types(T)]
#[verifier::reject_recursive_types(R)]
pub struct ExRwLock<T: ?Sized, R>(spin::rwlock::RwLock<T, R>);

/// `spin::rwlock::RwLockReadGuard`: shared access to what a lock holds,
/// given up when the guard is dropped.
#[verifier::external_type_specification]
#[verifier::external_body]
#[verifier::reject_recursive_types(T)]
pub struct ExRwLockReadGuard<'a, T: ?Sized>(spin::rwlock::RwLockReadGuard<'a, T>);

/// `spin::rwlock::RwLockWriteGuard`: exclusive access to what a lock
/// holds, given up when the guard is dropped.
#[verifier::external_type_specification]
#[verifier::external_body]
#[verifier::reject_recursive_types(T)]
#[verifier::reject_recursive_types(R)]
pub struct ExRwLockWriteGuard<'a, T: 'a + ?Sized, R>(spin::rwlock::RwLockWriteGuard<'a, T, R>);

/// `spin::mutex::Mutex`: a lock for one holder.
#[verifier::external_type_specification]
#[verifier::external_body]
#[verifier::reject_recursive_types(T)]
#[verifier::reject_recursive_types(R)]
pub struct ExMutex<T: ?Sized, R>(spin::mutex::Mutex<T, R>);

/// The status that a status lock was created with.
pub uninterp spec fn status_at_creation(
    lock: spin::rwlock::RwLock<VmCpuStatus, spin::relax::Spin>,
) -> VmCpuStatus;

/// The vCPU that a vCPU mutex was created with.
pub uninterp spec fn vcpu_at_creation(lock: spin::mutex::Mutex<VmCpu, spin::relax::Spin>) -> VmCpu;

/// The status that a write guard gives access to.
pub uninterp spec fn held_for_write(
    guard: spin::rwlock::RwLockWriteGuard<'_, VmCpuStatus, spin::relax::Spin>,
) -> VmCpuStatus;

/// The status that a read guard gives access to.
pub uninterp spec fn held_for_read(
    guard: spin::rwlock::RwLockReadGuard<'_, VmCpuStatus>,
) -> VmCpuStatus;

/// The lock that a write guard holds.
pub uninterp spec fn write_guard_lock(
    guard: spin::rwlock::RwLockWriteGuard<'_, VmCpuStatus, spin::relax::Spin>,
) -> spin::rwlock::RwLock<VmCpuStatus, spin::relax::Spin>;

/// The lock that a read guard holds.
pub uninterp spec fn read_guard_lock(
    guard: spin::rwlock::RwLockReadGuard<'_, VmCpuStatus>,
) -> spin::rwlock::RwLock<VmCpuStatus, spin::relax::Spin>;

/// `spin::rwlock::RwLock::new`: a lock that holds `status` and is held by
/// nobody.
#[verifier::external_body]
fn new_status_lock(status: VmCpuStatus) -> (lock: spin::rwlock::RwLock<
    VmCpuStatus,
    spin::relax::Spin,
>)
    ensures
        status_at_creation(lock) == status,
{
    spin::rwlock::RwLock::new(status)
}

/// `spin::mutex::Mutex::new`: a mutex that holds `vcpu` and is held by
/// nobody.
#[verifier::external_body]
fn new_vcpu_lock(vcpu: VmCpu) -> (lock: spin::mutex::Mutex<VmCpu, spin::relax::Spin>)
    ensures
        vcpu_at_creation(lock) == vcpu,
{
    spin::mutex::Mutex::new(vcpu)
}

/// `spin::rwlock::RwLock::write`: spins until no reader and no writer
/// holds the lock, then holds it for writing: the guard is a guard of
/// `lock`. Nothing is claimed of the status found: other holders may have
/// changed it. The call does not return while the caller itself holds a
/// guard of the same lock.
#[verifier::external_body]
fn lock_for_write<'a>(
    lock: &'a spin::rwlock::RwLock<VmCpuStatus, spin::relax::Spin>,
) -> (guard: spin::rwlock::RwLockWriteGuard<'a, VmCpuStatus, spin::relax::Spin>)
    ensures
        write_guard_lock(guard) == *lock,
    opens_invariants none
    no_unwind
{
    lock.write()
}

/// `spin::rwlock::RwLock::read`: spins until no writer holds the lock,
/// then holds it for reading, together with any other readers: the guard
/// is a guard of `lock`. Nothing is claimed of the status found. The call
/// does not return while the caller itself holds the write guard, and
/// panics once more than `usize::MAX / 8` read guards of the lock are
/// alive.
#[verifier::external_body]
fn lock_for_read<'a>(
    lock: &'a spin::rwlock::RwLock<VmCpuStatus, spin::relax::Spin>,
) -> (guard: spin::rwlock::RwLockReadGuard<'a, VmCpuStatus>)
    ensures
        read_guard_lock(guard) == *lock,
{
    lock.read()
}

/// `Deref` of `spin::rwlock::RwLockWriteGuard`: the status that the guard
/// gives access to.
#[verifier::external_body]
fn written_status(
    guard: &spin::rwlock::RwLockWriteGuard<'_, VmCpuStatus, spin::relax::Spin>,
) -> (status: VmCpuStatus)
    ensures
        status == held_for_write(*guard),
    opens_invariants none
    no_unwind
{
    **guard
}

/// `Deref` of `spin::rwlock::RwLockReadGuard`: the status that the guard
/// gives access to.
#[verifier::external_body]
fn read_status(guard: &spin::rwlock::RwLockReadGuard<'_, VmCpuStatus>) -> (status: VmCpuStatus)
    ensures
        status == held_for_read(*guard),
{
    **guard
}

/// `DerefMut` of `spin::rwlock::RwLockWriteGuard`: stores `status` in the
/// lock that the guard holds, and the guard goes on holding that lock.
#[verifier::external_body]
fn write_status(
    guard: &mut spin::rwlock::RwLockWriteGuard<'_, VmCpuStatus, spin::relax::Spin>,
    status: VmCpuStatus,
)
    ensures
        held_for_write(*final(guard)) == status,
        write_guard_lock(*final(guard)) == write_guard_lock(*old(guard)),
    opens_invariants none
    no_unwind
{
    **guard = status;
}

/// `spin::rwlock::RwLockWriteGuard::downgrade`: turns the write guard into
/// a read guard of the same lock without letting go of the lock, so that
/// the status is the one last written. It panics once more than
/// `usize::MAX / 8` read guards of the lock are alive.
#[verifier::external_body]
fn downgrade<'a>(
    guard: spin::rwlock::RwLockWriteGuard<'a, VmCpuStatus, spin::relax::Spin>,
) -> (shared: spin::rwlock::RwLockReadGuard<'a, VmCpuStatus>)
    ensures
        held_for_read(shared) == held_for_write(guard),
        read_guard_lock(shared) == write_guard_lock(guard),
{
    guard.downgrade()
}

/// A holder of `lock` for writing found the status `found` and left the
/// status `left`.
pub open spec fn wrote_status(
    lock: spin::rwlock::RwLock<VmCpuStatus, spin::relax::Spin>,
    found: VmCpuStatus,
    left: VmCpuStatus,
) -> bool {
    exists|
        before: spin::rwlock::RwLockWriteGuard<'_, VmCpuStatus, spin::relax::Spin>,
        after: spin::rwlock::RwLockWriteGuard<'_, VmCpuStatus, spin::relax::Spin>,
    |
        {
            &&& write_guard_lock(before) == lock
            &&& write_guard_lock(after) == lock
            &&& #[trigger] held_for_write(before) == found
            &&& #[trigger] held_for_write(after) == left
        }
}

/// A holder of `lock` for reading found the status `found`.
pub open spec fn saw_status(
    lock: spin::rwlock::RwLock<VmCpuStatus, spin::relax::Spin>,
    found: VmCpuStatus,
) -> bool {
    exists|guard: spin::rwlock::RwLockReadGuard<'_, VmCpuStatus>|
        {
            &&& read_guard_lock(guard) == lock
            &&& #[trigger] held_for_read(guard) == found
        }
}

/// Adds a vCPU to the slot whose status lock `status` holds for writing:
/// an absent slot is left available, and any other status is refused with
/// `VmCpuExists` and left as it is found.
pub fn add_step(
    status: &mut spin::rwlock::RwLockWriteGuard<'_, VmCpuStatus, spin::relax::Spin>,
) -> (outcome: Result<VmCpuStatus, Error>)
    ensures
        outcome == held_for_write(*old(status)).spec_on_add(),
        held_for_write(*final(status)) == held_for_write(*old(status)).spec_after(outcome),
        write_guard_lock(*final(status)) == write_guard_lock(*old(status)),
{
    let outcome = written_status(status).on_add();
    match outcome {
        Ok(next) => {
            write_status(status, next);
        },
        Err(_) => {},
    }
    outcome
}

/// Looks at the slot whose status lock `status` holds for reading: granted
/// where the slot is available, refused with `VmCpuRunning` where it is
/// running and with `VmCpuNotFound` where it is absent.
pub fn get_step(status: &spin::rwlock::RwLockReadGuard<'_, VmCpuStatus>) -> (outcome: Result<
    VmCpuStatus,
    Error,
>)
    ensures
        outcome == held_for_read(*status).spec_on_get(),
{
    read_status(status).on_get()
}

/// Claims the vCPU of the slot whose status lock `status` holds for
/// writing: an available slot is left running; a running slot is refused
/// with `VmCpuRunning`, an absent one with `VmCpuNotFound`, and both are
/// left as they are found.
pub fn take_step(
    status: &mut spin::rwlock::RwLockWriteGuard<'_, VmCpuStatus, spin::relax::Spin>,
) -> (outcome: Result<VmCpuStatus, Error>)
    ensures
        outcome == held_for_write(*old(status)).spec_on_take(),
        held_for_write(*final(status)) == held_for_write(*old(status)).spec_after(outcome),
        write_guard_lock(*final(status)) == write_guard_lock(*old(status)),
{
    let outcome = written_status(status).on_take();
    match outcome {
        Ok(next) => {
            write_status(status, next);
        },
        Err(_) => {},
    }
    outcome
}

/// Releases the claim on the vCPU of the slot whose status lock `status`
/// holds for writing: a running slot is left available. A slot that is
/// found in another status is left as it is found.
pub fn release_step(
    status: &mut spin::rwlock::RwLockWriteGuard<'_, VmCpuStatus, spin::relax::Spin>,
)
    ensures
        held_for_write(*final(status)) == held_for_write(*old(status)).spec_on_release(),
        write_guard_lock(*final(status)) == write_guard_lock(*old(status)),
    opens_invariants none
    no_unwind
{
    let next = written_status(status).on_release();
    write_status(status, next);
}

/// One slot of the table. The status is locked before the vCPU.
struct VmCpusInner {
    status: spin::rwlock::RwLock<VmCpuStatus, spin::relax::Spin>,
    vcpu: spin::mutex::Mutex<VmCpu, spin::relax::Spin>,
}

/// A reference to an available (idle) vCPU. While it is held the slot
/// stays available: nobody can claim the vCPU for running.
pub struct IdleVmCpu<'a> {
    status: spin::rwlock::RwLockReadGuard<'a, VmCpuStatus>,
    vcpu: &'a spin::mutex::Mutex<VmCpu, spin::relax::Spin>,
}

/// A reference to a vCPU that its holder has claimed for running. The
/// slot becomes available again when the reference is dropped.
pub struct RunningVmCpu<'a> {
    status: &'a spin::rwlock::RwLock<VmCpuStatus, spin::relax::Spin>,
    vcpu: &'a spin::mutex::Mutex<VmCpu, spin::relax::Spin>,
    id: u64,
}

/// The vCPUs of one guest.
pub struct VmCpus {
    inner: Vec<VmCpusInner>,
}

impl<'a> IdleVmCpu<'a> {
    /// The status that the reference pins.
    pub closed spec fn status(&self) -> VmCpuStatus {
        held_for_read(self.status)
    }

    /// The lock of the status that the reference holds for reading.
    pub closed spec fn status_lock(&self) -> spin::rwlock::RwLock<VmCpuStatus, spin::relax::Spin> {
        read_guard_lock(self.status)
    }

    /// The mutex of the vCPU that the reference stands for.
    pub closed spec fn vcpu_lock(&self) -> &spin::mutex::Mutex<VmCpu, spin::relax::Spin> {
        self.vcpu
    }
}

impl<'a> RunningVmCpu<'a> {
    /// The identifier of the claimed vCPU.
    pub closed spec fn spec_id(&self) -> u64 {
        self.id
    }

    /// The lock of the status that the reference resets when it is
    /// dropped.
    pub closed spec fn status_lock(&self) -> &spin::rwlock::RwLock<VmCpuStatus, spin::relax::Spin> {
        self.status
    }

    /// The mutex of the vCPU that the reference stands for.
    pub closed spec fn vcpu_lock(&self) -> &spin::mutex::Mutex<VmCpu, spin::relax::Spin> {
        self.vcpu
    }

    /// The identifier of the claimed vCPU.
    #[verifier::when_used_as_spec(spec_id)]
    pub fn id(&self) -> (id: u64)
        ensures
            id == self.spec_id(),
    {
        self.id
    }
}

impl<'a> core::ops::Deref for IdleVmCpu<'a> {
    type Target = spin::mutex::Mutex<VmCpu, spin::relax::Spin>;

    /// The mutex that guards the vCPU.
    fn deref(&self) -> (vcpu: &spin::mutex::Mutex<VmCpu, spin::relax::Spin>)
        ensures
            vcpu == self.vcpu_lock(),
    {
        self.vcpu
    }
}

impl<'a> core::ops::Deref for RunningVmCpu<'a> {
    type Target = spin::mutex::Mutex<VmCpu, spin::relax::Spin>;

    /// The mutex that guards the vCPU.
    fn deref(&self) -> (vcpu: &spin::mutex::Mutex<VmCpu, spin::relax::Spin>)
        ensures
            vcpu == self.vcpu_lock(),
    {
        self.vcpu
    }
}

impl<'a> Drop for RunningVmCpu<'a> {
    /// Gives the claim up: under the write lock of its own slot's status,
    /// and of no other, a running slot is left available. A slot that is
    /// found in another status is left as it is found; the drop cannot
    /// report it.
    fn drop(&mut self)
        ensures
            exists|found: VmCpuStatus| #[trigger]
                wrote_status(*old(self).status_lock(), found, found.spec_on_release()),
        opens_invariants none
        no_unwind
    {
        let mut status = lock_for_write(self.status);
        let ghost before = status;
        release_step(&mut status);
        proof {
            let ghost after = status;
            assert(held_for_write(after) == held_for_write(before).spec_on_release());
            assert(wrote_status(
                *old(self).status_lock(),
                held_for_write(before),
                held_for_write(before).spec_on_release(),
            ));
        }
    }
}

impl VmCpus {
    #[verifier::type_invariant]
    spec fn has_all_slots(&self) -> bool {
        self.inner@.len() == MAX_CPUS
    }

    /// The lock of the status of slot `id`.
    pub closed spec fn status_lock(
        &self,
        id: int,
    ) -> &spin::rwlock::RwLock<VmCpuStatus, spin::relax::Spin> {
        &self.inner@[id].status
    }

    /// The mutex of the vCPU in slot `id`.
    pub closed spec fn vcpu_lock(&self, id: int) -> &spin::mutex::Mutex<VmCpu, spin::relax::Spin> {
        &self.inner@[id].vcpu
    }

    /// The status that slot `id` was created with.
    pub closed spec fn status_at_creation(&self, id: int) -> VmCpuStatus {
        status_at_creation(self.inner@[id].status)
    }

    /// The vCPU that slot `id` was created with.
    pub closed spec fn vcpu_at_creation(&self, id: int) -> VmCpu {
        vcpu_at_creation(self.inner@[id].vcpu)
    }

    /// A table for the guest `guest_id`, accounted against `pages`: every
    /// slot is created absent and with a fresh vCPU of that guest. The
    /// range must have at least `VM_CPUS_PAGES` pages.
    pub fn new(guest_id: PageOwnerId, pages: SequentialPages) -> (table: Result<Self, Error>)
        ensures
            table is Ok <==> pages.len() >= VM_CPUS_PAGES,
            table matches Err(e) ==> e == Error::InsufficientVmCpuStorage,
            table matches Ok(t) ==> forall|id: int|
                0 <= id < MAX_CPUS ==> {
                    &&& #[trigger] t.status_at_creation(id) == VmCpuStatus::NotPresent
                    &&& spec_is_initial_frame(t.vcpu_at_creation(id).state())
                    &&& t.vcpu_at_creation(id).interrupt_file() is None
                    &&& t.vcpu_at_creation(id).guest_id() == guest_id
                },
    {
        if pages.len() < VM_CPUS_PAGES {
            return Err(Error::InsufficientVmCpuStorage);
        }
        let mut inner: Vec<VmCpusInner> = Vec::new();
        let mut i: usize = 0;
        while i < MAX_CPUS
            invariant
                i <= MAX_CPUS,
                inner@.len() == i,
                forall|id: int|
                    0 <= id < i ==> {
                        &&& status_at_creation(#[trigger] inner@[id].status)
                            == VmCpuStatus::NotPresent
                        &&& spec_is_initial_frame(vcpu_at_creation(inner@[id].vcpu).state())
                        &&& vcpu_at_creation(inner@[id].vcpu).interrupt_file() is None
                        &&& vcpu_at_creation(inner@[id].vcpu).guest_id() == guest_id
                    },
            decreases MAX_CPUS - i,
        {
            let entry = VmCpusInner {
                status: new_status_lock(VmCpuStatus::NotPresent),
                vcpu: new_vcpu_lock(VmCpu::new(guest_id)),
            };
            inner.push(entry);
            i += 1;
        }
        Ok(VmCpus { inner })
    }

    /// Adds the vCPU `vcpu_id` to the guest and returns a reference that
    /// keeps it idle.
    ///
    /// Fails with `BadCpuId` where `vcpu_id` names no slot. Else the
    /// status of slot `vcpu_id`, and of no other, is locked for writing:
    /// a slot found absent is left available, and the reference holds its
    /// status lock for reading; a slot found populated is refused with
    /// `VmCpuExists` and left as it is found.
    pub fn add_vcpu(&self, vcpu_id: u64) -> (idle: Result<IdleVmCpu<'_>, Error>)
        ensures
            vcpu_id >= MAX_CPUS <==> idle matches Err(Error::BadCpuId),
            vcpu_id < MAX_CPUS ==> exists|found: VmCpuStatus|
                {
                    &&& #[trigger] wrote_status(
                        *self.status_lock(vcpu_id as int),
                        found,
                        found.spec_after(found.spec_on_add()),
                    )
                    &&& match idle {
                        Ok(_) => found.spec_on_add() is Ok,
                        Err(e) => found.spec_on_add() == Err::<VmCpuStatus, Error>(e),
                    }
                },
            idle matches Ok(handle) ==> {
                &&& handle.status() == VmCpuStatus::Available
                &&& handle.status_lock() == *self.status_lock(vcpu_id as int)
                &&& handle.vcpu_lock() == self.vcpu_lock(vcpu_id as int)
            },
    {
        proof {
            use_type_invariant(self);
        }
        if vcpu_id >= MAX_CPUS as u64 {
            return Err(Error::BadCpuId);
        }
        let entry = &self.inner[vcpu_id as usize];
        let mut status = lock_for_write(&entry.status);
        let ghost before = status;
        let outcome = add_step(&mut status);
        proof {
            let ghost after = status;
            assert(held_for_write(after) == held_for_write(before).spec_after(outcome));
            assert(wrote_status(
                *self.status_lock(vcpu_id as int),
                held_for_write(before),
                held_for_write(before).spec_after(held_for_write(before).spec_on_add()),
            ));
        }
        match outcome {
            Ok(_) => Ok(IdleVmCpu { status: downgrade(status), vcpu: &entry.vcpu }),
            Err(e) => Err(e),
        }
    }

    /// Returns a reference to the vCPU `vcpu_id` if it exists and is not
    /// running. The vCPU stays idle until the reference is dropped.
    ///
    /// Fails with `BadCpuId` where `vcpu_id` names no slot. Else the
    /// status of slot `vcpu_id` is locked for reading: a slot found
    /// available is granted, and the reference keeps the lock; a slot found
    /// running is refused with `VmCpuRunning`, one found absent with
    /// `VmCpuNotFound`.
    pub fn get_vcpu(&self, vcpu_id: u64) -> (idle: Result<IdleVmCpu<'_>, Error>)
        ensures
            vcpu_id >= MAX_CPUS <==> idle matches Err(Error::BadCpuId),
            vcpu_id < MAX_CPUS ==> exists|found: VmCpuStatus|
                {
                    &&& #[trigger] saw_status(*self.status_lock(vcpu_id as int), found)
                    &&& match idle {
                        Ok(_) => found.spec_on_get() is Ok,
                        Err(e) => found.spec_on_get() == Err::<VmCpuStatus, Error>(e),
                    }
                },
            idle matches Ok(handle) ==> {
                &&& handle.status() == VmCpuStatus::Available
                &&& handle.status_lock() == *self.status_lock(vcpu_id as int)
                &&& handle.vcpu_lock() == self.vcpu_lock(vcpu_id as int)
            },
    {
        proof {
            use_type_invariant(self);
        }
        if vcpu_id >= MAX_CPUS as u64 {
            return Err(Error::BadCpuId);
        }
        let entry = &self.inner[vcpu_id as usize];
        let status = lock_for_read(&entry.status);
        let outcome = get_step(&status);
        proof {
            assert(saw_status(*self.status_lock(vcpu_id as int), held_for_read(status)));
        }
        match outcome {
            Ok(_) => Ok(IdleVmCpu { status, vcpu: &entry.vcpu }),
            Err(e) => Err(e),
        }
    }

    /// Claims the vCPU `vcpu_id` for running. The vCPU becomes available
    /// again when the reference is dropped.
    ///
    /// Fails with `BadCpuId` where `vcpu_id` names no slot. Else the
    /// status of slot `vcpu_id`, and of no other, is locked for writing:
    /// a slot found available is left running; a slot found running is
    /// refused with `VmCpuRunning`, one found absent with `VmCpuNotFound`,
    /// and both are left as they are found.
    pub fn take_vcpu(&self, vcpu_id: u64) -> (running: Result<RunningVmCpu<'_>, Error>)
        ensures
            vcpu_id >= MAX_CPUS <==> running matches Err(Error::BadCpuId),
            vcpu_id < MAX_CPUS ==> exists|found: VmCpuStatus|
                {
                    &&& #[trigger] wrote_status(
                        *self.status_lock(vcpu_id as int),
                        found,
                        found.spec_after(found.spec_on_take()),
                    )
                    &&& match running {
                        Ok(_) => found.spec_on_take() is Ok,
                        Err(e) => found.spec_on_take() == Err::<VmCpuStatus, Error>(e),
                    }
                },
            running matches Ok(handle) ==> {
                &&& handle.id() == vcpu_id
                &&& handle.status_lock() == self.status_lock(vcpu_id as int)
                &&& handle.vcpu_lock() == self.vcpu_lock(vcpu_id as int)
            },
    {
        proof {
            use_type_invariant(self);
        }
        if vcpu_id >= MAX_CPUS as u64 {
            return Err(Error::BadCpuId);
        }
        let entry = &self.inner[vcpu_id as usize];
        let mut status = lock_for_write(&entry.status);
        let ghost before = status;
        let outcome = take_step(&mut status);
        proof {
            let ghost after = status;
            assert(held_for_write(after) == held_for_write(before).spec_after(outcome));
            assert(wrote_status(
                *self.status_lock(vcpu_id as int),
                held_for_write(before),
                held_for_write(before).spec_after(held_for_write(before).spec_on_take()),
            ));
        }
        match outcome {
            Ok(_) => Ok(RunningVmCpu { status: &entry.status, vcpu: &entry.vcpu, id: vcpu_id }),
            Err(e) => Err(e),
        }
    }
}

/// `VM_CPUS_PAGES` is the least number of 4 KiB pages that hold a table
/// with all its slots: that many pages are enough, one fewer is not.
pub proof fn lemma_vm_cpus_pages_is_least()
    ensures
        VM_CPUS_PAGES == spec_num_4k_pages(VM_CPUS_BYTES as nat),
        VM_CPUS_PAGES * PAGE_SIZE_4K >= VM_CPUS_BYTES,
        (VM_CPUS_PAGES - 1) * PAGE_SIZE_4K < VM_CPUS_BYTES,
        VM_CPUS_BYTES == MAX_CPUS * VM_CPU_SLOT_BYTES + VM_CPUS_HEADER_BYTES,
        VM_CPUS_PAGES == 24,
{
}

} // verus!
