use vcpu_core::table::{
    add_step, get_step, release_step, take_step, VM_CPUS_BYTES, VM_CPU_BYTES, VM_CPU_SLOT_BYTES,
};
use vcpu_core::{
    Error, GprIndex, PageOwnerId, SequentialPages, VmCpu, VmCpuStatus, VmCpus, MAX_CPUS,
    VM_CPUS_PAGES,
};

fn storage(count: u64) -> SequentialPages {
    SequentialPages::new(0x8000_0000, count).unwrap()
}

fn table() -> VmCpus {
    VmCpus::new(PageOwnerId::new(1), storage(VM_CPUS_PAGES)).ok().unwrap()
}

#[test]
fn fresh_table_has_no_vcpus() {
    let cpus = table();
    assert_eq!(cpus.get_vcpu(0).err(), Some(Error::VmCpuNotFound));
    for id in 0..MAX_CPUS as u64 {
        assert_eq!(cpus.get_vcpu(id).err(), Some(Error::VmCpuNotFound));
        assert_eq!(cpus.take_vcpu(id).err(), Some(Error::VmCpuNotFound));
    }
}

#[test]
fn new_accepts_exactly_the_required_pages() {
    assert_eq!(VM_CPUS_PAGES, 24);
    assert!(VmCpus::new(PageOwnerId::new(1), storage(VM_CPUS_PAGES)).is_ok());
    assert!(VmCpus::new(PageOwnerId::new(1), storage(VM_CPUS_PAGES + 1)).is_ok());
}

#[test]
fn new_refuses_one_page_fewer() {
    let short = VmCpus::new(PageOwnerId::new(1), storage(VM_CPUS_PAGES - 1));
    assert_eq!(short.err(), Some(Error::InsufficientVmCpuStorage));
    let none = VmCpus::new(PageOwnerId::new(1), storage(0));
    assert_eq!(none.err(), Some(Error::InsufficientVmCpuStorage));
}

#[test]
fn required_pages_hold_every_slot() {
    assert_eq!(VM_CPU_BYTES, 728);
    assert_eq!(VM_CPU_SLOT_BYTES, 752);
    assert_eq!(VM_CPUS_BYTES, 128 * 752 + 24);
    assert!(VM_CPUS_PAGES * 4096 >= VM_CPUS_BYTES);
    assert!((VM_CPUS_PAGES - 1) * 4096 < VM_CPUS_BYTES);
    assert_eq!(std::mem::size_of::<VmCpu>() as u64, VM_CPU_BYTES);
    let slot = std::mem::size_of::<spin::mutex::Mutex<VmCpu, spin::relax::Spin>>()
        + std::mem::size_of::<spin::rwlock::RwLock<VmCpuStatus, spin::relax::Spin>>();
    assert_eq!(slot as u64, VM_CPU_SLOT_BYTES);
}

#[test]
fn add_makes_every_slot_available_once() {
    let cpus = table();
    for id in 0..MAX_CPUS as u64 {
        assert!(cpus.add_vcpu(id).is_ok());
        assert_eq!(cpus.add_vcpu(id).err(), Some(Error::VmCpuExists));
        assert!(cpus.get_vcpu(id).is_ok());
    }
}

#[test]
fn add_then_inspect() {
    let cpus = table();
    drop(cpus.add_vcpu(3).ok().unwrap());
    let idle = cpus.get_vcpu(3).ok().unwrap();
    let second = cpus.get_vcpu(3).ok().unwrap();
    idle.lock().set_sepc(0x8020_0000);
    assert_eq!(second.lock().state().guest_regs.sepc, 0x8020_0000);
    drop(idle);
    drop(second);
    assert!(cpus.take_vcpu(3).is_ok());
    assert_eq!(cpus.get_vcpu(4).err(), Some(Error::VmCpuNotFound));
}

#[test]
fn added_vcpu_stays_idle_while_the_reference_is_held() {
    let cpus = table();
    let idle = cpus.add_vcpu(9).ok().unwrap();
    assert!(cpus.get_vcpu(9).is_ok());
    idle.lock().set_gpr(GprIndex::A0, 17);
    drop(idle);
    let running = cpus.take_vcpu(9).ok().unwrap();
    assert_eq!(running.lock().state().guest_regs.gprs.reg(GprIndex::A0), 17);
}

#[test]
fn claim_release_reclaim() {
    let cpus = table();
    drop(cpus.add_vcpu(5).ok().unwrap());
    let first = cpus.take_vcpu(5).ok().unwrap();
    assert_eq!(first.id(), 5);
    drop(first);
    let second = cpus.take_vcpu(5);
    assert!(second.is_ok());
}

#[test]
fn running_vcpu_refuses_lookups_until_dropped() {
    let cpus = table();
    for id in [0u64, 5, 127] {
        drop(cpus.add_vcpu(id).ok().unwrap());
        let running = cpus.take_vcpu(id).ok().unwrap();
        assert_eq!(cpus.get_vcpu(id).err(), Some(Error::VmCpuRunning));
        assert_eq!(cpus.take_vcpu(id).err(), Some(Error::VmCpuRunning));
        assert_eq!(cpus.add_vcpu(id).err(), Some(Error::VmCpuExists));
        assert_eq!(cpus.get_vcpu(id).err(), Some(Error::VmCpuRunning));
        drop(running);
        assert!(cpus.get_vcpu(id).is_ok());
        assert!(cpus.take_vcpu(id).is_ok());
        assert!(cpus.take_vcpu(id).is_ok());
    }
}

#[test]
fn released_slot_is_available() {
    let cpus = table();
    drop(cpus.add_vcpu(64).ok().unwrap());
    for _ in 0..10 {
        let running = cpus.take_vcpu(64).ok().unwrap();
        drop(running);
        assert!(cpus.get_vcpu(64).is_ok());
    }
}

#[test]
fn slots_do_not_affect_each_other() {
    let cpus = table();
    drop(cpus.add_vcpu(1).ok().unwrap());
    drop(cpus.add_vcpu(2).ok().unwrap());
    let running = cpus.take_vcpu(1).ok().unwrap();
    assert!(cpus.get_vcpu(2).is_ok());
    assert_eq!(cpus.get_vcpu(3).err(), Some(Error::VmCpuNotFound));
    running.lock().set_sepc(0x1000);
    assert_eq!(cpus.get_vcpu(2).ok().unwrap().lock().state().guest_regs.sepc, 0);
    drop(running);
    assert_eq!(cpus.get_vcpu(1).ok().unwrap().lock().state().guest_regs.sepc, 0x1000);
}

#[test]
fn bad_ids_are_refused_by_every_lookup() {
    let cpus = table();
    for id in [MAX_CPUS as u64, MAX_CPUS as u64 + 1, 1 << 32, u64::MAX] {
        assert_eq!(cpus.add_vcpu(id).err(), Some(Error::BadCpuId));
        assert_eq!(cpus.get_vcpu(id).err(), Some(Error::BadCpuId));
        assert_eq!(cpus.take_vcpu(id).err(), Some(Error::BadCpuId));
    }
    assert!(cpus.add_vcpu(MAX_CPUS as u64 - 1).is_ok());
}

#[test]
fn slots_hold_fresh_vcpus_of_the_owner() {
    let cpus = VmCpus::new(PageOwnerId::new(42), storage(VM_CPUS_PAGES)).ok().unwrap();
    let idle = cpus.add_vcpu(7).ok().unwrap();
    let vcpu = idle.lock();
    assert_eq!(vcpu.guest_id(), PageOwnerId::new(42));
    assert_eq!(vcpu.interrupt_file(), None);
    assert_eq!(vcpu.state().guest_regs.hstatus, 0x180);
    assert_eq!(vcpu.state().guest_regs.sepc, 0);
}

#[test]
fn page_ranges_are_aligned_and_bounded() {
    assert!(SequentialPages::new(0x1000, 4).is_some());
    assert!(SequentialPages::new(0x1001, 4).is_none());
    assert!(SequentialPages::new(0xffff_ffff_ffff_f000, 1).is_none());
    assert!(SequentialPages::new(0xffff_ffff_ffff_e000, 1).is_some());
    assert!(SequentialPages::new(0, u64::MAX / 4096).is_some());
    assert!(SequentialPages::new(0x1000, u64::MAX / 4096).is_none());
    let pages = SequentialPages::new(0x2000, 3).unwrap();
    assert_eq!(pages.base(), 0x2000);
    assert_eq!(pages.len(), 3);
}

#[test]
fn status_machine_follows_the_arrows() {
    let (not_present, available, running) =
        (VmCpuStatus::NotPresent, VmCpuStatus::Available, VmCpuStatus::Running);
    assert_eq!(not_present.on_add(), Ok(available));
    assert_eq!(available.on_add(), Err(Error::VmCpuExists));
    assert_eq!(running.on_add(), Err(Error::VmCpuExists));
    assert_eq!(not_present.on_get(), Err(Error::VmCpuNotFound));
    assert_eq!(available.on_get(), Ok(available));
    assert_eq!(running.on_get(), Err(Error::VmCpuRunning));
    assert_eq!(not_present.on_take(), Err(Error::VmCpuNotFound));
    assert_eq!(available.on_take(), Ok(running));
    assert_eq!(running.on_take(), Err(Error::VmCpuRunning));
    assert_eq!(running.on_release(), available);
    assert_eq!(available.on_release(), available);
    assert_eq!(not_present.on_release(), not_present);
}

fn status_lock(status: VmCpuStatus) -> spin::rwlock::RwLock<VmCpuStatus, spin::relax::Spin> {
    spin::rwlock::RwLock::new(status)
}

#[test]
fn add_step_writes_available_only_over_absent() {
    let lock = status_lock(VmCpuStatus::NotPresent);
    assert_eq!(add_step(&mut lock.write()), Ok(VmCpuStatus::Available));
    assert_eq!(*lock.read(), VmCpuStatus::Available);
    assert_eq!(add_step(&mut lock.write()), Err(Error::VmCpuExists));
    assert_eq!(*lock.read(), VmCpuStatus::Available);
    let running = status_lock(VmCpuStatus::Running);
    assert_eq!(add_step(&mut running.write()), Err(Error::VmCpuExists));
    assert_eq!(*running.read(), VmCpuStatus::Running);
}

#[test]
fn get_step_grants_only_available() {
    assert_eq!(get_step(&status_lock(VmCpuStatus::Available).read()), Ok(VmCpuStatus::Available));
    assert_eq!(get_step(&status_lock(VmCpuStatus::Running).read()), Err(Error::VmCpuRunning));
    assert_eq!(get_step(&status_lock(VmCpuStatus::NotPresent).read()), Err(Error::VmCpuNotFound));
}

#[test]
fn take_step_writes_running_only_over_available() {
    let lock = status_lock(VmCpuStatus::Available);
    assert_eq!(take_step(&mut lock.write()), Ok(VmCpuStatus::Running));
    assert_eq!(*lock.read(), VmCpuStatus::Running);
    assert_eq!(take_step(&mut lock.write()), Err(Error::VmCpuRunning));
    assert_eq!(*lock.read(), VmCpuStatus::Running);
    let absent = status_lock(VmCpuStatus::NotPresent);
    assert_eq!(take_step(&mut absent.write()), Err(Error::VmCpuNotFound));
    assert_eq!(*absent.read(), VmCpuStatus::NotPresent);
}

#[test]
fn release_step_writes_available_only_over_running() {
    let lock = status_lock(VmCpuStatus::Running);
    release_step(&mut lock.write());
    assert_eq!(*lock.read(), VmCpuStatus::Available);
    release_step(&mut lock.write());
    assert_eq!(*lock.read(), VmCpuStatus::Available);
    let absent = status_lock(VmCpuStatus::NotPresent);
    release_step(&mut absent.write());
    assert_eq!(*absent.read(), VmCpuStatus::NotPresent);
}

#[test]
fn requests_write_only_the_asked_slot() {
    let cpus = table();
    drop(cpus.add_vcpu(10).ok().unwrap());
    for id in 0..MAX_CPUS as u64 {
        if id != 10 {
            assert_eq!(cpus.get_vcpu(id).err(), Some(Error::VmCpuNotFound));
        }
    }
    let running = cpus.take_vcpu(10).ok().unwrap();
    drop(cpus.add_vcpu(11).ok().unwrap());
    assert_eq!(cpus.get_vcpu(10).err(), Some(Error::VmCpuRunning));
    assert!(cpus.get_vcpu(11).is_ok());
    running.lock().set_sepc(0x4004);
    drop(running);
    assert!(cpus.get_vcpu(11).is_ok());
    assert_eq!(cpus.get_vcpu(12).err(), Some(Error::VmCpuNotFound));
    let again = cpus.take_vcpu(10).ok().unwrap();
    assert_eq!(again.lock().state().guest_regs.sepc, 0x4004);
    assert_eq!(cpus.take_vcpu(10).err(), Some(Error::VmCpuRunning));
}
