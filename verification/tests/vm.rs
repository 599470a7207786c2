use std::cell::RefCell;

use vmm_aarch64::counter_io::{CounterIo, CounterLog};
use vmm_aarch64::errno::Errno;
use vmm_aarch64::error::{CounterError, KvmVmError};
use vmm_aarch64::memory::{GuestMemory, GuestMemoryRegionState, GuestRegionType};
use vmm_aarch64::regions::arch_memory_regions;
use vmm_aarch64::regs::{
    Aarch64RegisterRef, VcpuState, KVM_REG_ARM_TIMER_CNT, SYS_CNTPCT_EL0,
};
use vmm_aarch64::saved_counters::canonical_saved_counter;
use vmm_aarch64::vm::{KvmVm, VmCommon, VmState};

/// The counter of a host and the offset of a guest on it.
struct Host {
    counter: RefCell<u64>,
    offset: RefCell<u64>,
}

impl Host {
    fn at(counter: u64) -> Host {
        Host {
            counter: RefCell::new(counter),
            offset: RefCell::new(0),
        }
    }

    fn advance(&self, ticks: u64) {
        let counter = self.counter.borrow().wrapping_add(ticks);
        *self.counter.borrow_mut() = counter;
    }

    fn guest_counter(&self) -> u64 {
        self.counter.borrow().wrapping_sub(*self.offset.borrow())
    }
}

impl CounterIo for Host {
    fn read_counter(&self) -> Result<u64, CounterError> {
        Ok(self.guest_counter())
    }

    fn set_offset(&self, offset: u64) -> Result<(), CounterError> {
        *self.offset.borrow_mut() = offset;
        Ok(())
    }
}

type TestVm = KvmVm<&'static str, Vec<u32>>;

fn test_vm() -> TestVm {
    KvmVm::new(Ok::<_, ()>(VmCommon {
        guest_memory: GuestMemory::from_dram_ranges(&arch_memory_regions(1 << 20)),
        resource_allocator: vec![1, 2],
    }))
    .unwrap()
}

fn saved_state(physical: u64, virtual_: u64) -> VcpuState {
    let mut state = VcpuState::default();
    state.regs.push(Aarch64RegisterRef::new(
        SYS_CNTPCT_EL0,
        &physical.to_le_bytes(),
    ));
    state.regs.push(Aarch64RegisterRef::new(
        KVM_REG_ARM_TIMER_CNT,
        &virtual_.to_le_bytes(),
    ));
    state
}

#[test]
fn a_machine_needs_its_common_parts() {
    assert_eq!(TestVm::new(Err("no vm")).unwrap_err(), "no vm");
    let vm = test_vm();
    assert!(!vm.has_irqchip());
    assert_eq!(vm.common.resource_allocator, [1, 2]);
    assert_eq!(vm.ensure_counter_healthy(), Err(CounterError::Uninitialized));
}

#[test]
fn an_unknown_capability_is_an_error() {
    let host = Host::at(1);
    let mut vm = test_vm();
    assert_eq!(
        vm.configure_counter_for_boot(&mut CounterLog::new(&host), Err(Errno(9))),
        Err(CounterError::CheckCapability(Errno(9)))
    );
    assert_eq!(
        vm.configure_counter_for_restore(&mut CounterLog::new(&host), 5, Err(Errno(9))),
        Err(CounterError::CheckCapability(Errno(9)))
    );
    assert_eq!(vm.ensure_counter_healthy(), Err(CounterError::Uninitialized));
}

#[test]
fn a_restored_guest_continues_where_it_was_paused() {
    let host = Host::at(1000);
    let mut vm = test_vm();
    vm.configure_counter_for_boot(&mut CounterLog::new(&host), Ok(true)).unwrap();
    host.advance(50);
    vm.prepare_counter_resume(&mut [CounterLog::new(&host)]).unwrap();
    vm.mark_counter_running().unwrap();
    host.advance(300);
    vm.ensure_counter_can_pause().unwrap();
    vm.record_counter_pause(&mut [CounterLog::new(&host)]).unwrap();
    let paused_counter = vm.paused_counter_for_snapshot().unwrap();
    assert_eq!(paused_counter, 300);

    // Collecting the states takes a while, and longer for the second vCPU.
    host.advance(20);
    let first = saved_state(host.guest_counter(), host.guest_counter() - 7);
    host.advance(5);
    let second = saved_state(host.guest_counter(), host.guest_counter() - 7);
    let mut states = [first, second];
    vm.normalize_snapshot_counters(&mut states, paused_counter)
        .unwrap();
    for state in &states {
        assert_eq!(state.regs.get(0).value(), 300);
        assert_eq!(state.regs.get(1).value(), 293);
    }

    let other_host = Host::at(77);
    let mut restored = test_vm();
    let saved_counter = canonical_saved_counter(&states).unwrap();
    restored
        .configure_counter_for_restore(&mut CounterLog::new(&other_host), saved_counter, Ok(true))
        .unwrap();
    assert_eq!(other_host.guest_counter(), 300);
    other_host.advance(1_000_000);
    restored.prepare_counter_resume(&mut [CounterLog::new(&other_host)]).unwrap();
    restored.mark_counter_running().unwrap();
    other_host.advance(3);
    assert_eq!(other_host.guest_counter(), 303);
}

#[test]
fn snapshots_are_normalized_to_the_pause_point_alone() {
    let host = Host::at(1000);
    let mut vm = test_vm();
    let mut states = [saved_state(10, 10)];
    assert_eq!(
        vm.normalize_snapshot_counters(&mut states, 0),
        Err(CounterError::Uninitialized)
    );
    vm.configure_counter_for_boot(&mut CounterLog::new(&host), Ok(true)).unwrap();
    assert_eq!(
        vm.normalize_snapshot_counters(&mut states, 4),
        Err(CounterError::SnapshotPausePointChanged(4, 0))
    );
    assert_eq!(states[0].regs.get(0).value(), 10);
    assert_eq!(
        vm.normalize_snapshot_counters(&mut [], 0),
        Err(CounterError::NoVcpuState)
    );
    assert_eq!(vm.normalize_snapshot_counters(&mut states, 0), Ok(()));
    assert_eq!(states[0].regs.get(0).value(), 0);
}

#[test]
fn counter_transitions_need_a_boot_vcpu() {
    let mut vm = test_vm();
    let mut none: [CounterLog<'_, Host>; 0] = [];
    assert_eq!(vm.record_counter_pause(&mut none), Err(CounterError::NoBootVcpu));
    assert_eq!(vm.prepare_counter_resume(&mut none), Err(CounterError::NoBootVcpu));
}

#[test]
fn a_paused_guest_is_frozen() {
    let host = Host::at(u64::MAX - 10);
    let mut vm = test_vm();
    vm.configure_counter_for_restore(&mut CounterLog::new(&host), 40, Ok(true))
        .unwrap();
    host.advance(25);
    vm.prepare_counter_resume(&mut [CounterLog::new(&host)])
        .unwrap();
    assert_eq!(host.guest_counter(), 40);
    let offset = *host.offset.borrow();
    assert_eq!(offset, 14_u64.wrapping_sub(40));
    vm.prepare_counter_resume(&mut [CounterLog::new(&host)])
        .unwrap();
    assert_eq!(*host.offset.borrow(), offset);
    assert_eq!(vm.paused_counter_for_snapshot(), Ok(40));
}

#[test]
fn only_the_counter_of_the_boot_vcpu_is_used() {
    let boot = Host::at(100);
    let other = Host::at(7000);
    let mut vm = test_vm();
    vm.configure_counter_for_boot(&mut CounterLog::new(&boot), Ok(true))
        .unwrap();
    vm.prepare_counter_resume(&mut [CounterLog::new(&boot), CounterLog::new(&other)])
        .unwrap();
    vm.mark_counter_running().unwrap();
    boot.advance(5);
    vm.record_counter_pause(&mut [CounterLog::new(&boot), CounterLog::new(&other)])
        .unwrap();
    assert_eq!(vm.paused_counter_for_snapshot(), Ok(5));
    assert_eq!(*other.offset.borrow(), 0);
}

#[test]
fn a_faulted_machine_refuses_every_request() {
    let host = Host::at(0);
    let mut vm = test_vm();
    vm.configure_counter_for_boot(&mut CounterLog::new(&host), Ok(true)).unwrap();
    vm.mark_counter_faulted();
    assert_eq!(vm.ensure_counter_healthy(), Err(CounterError::Faulted));
    assert_eq!(vm.ensure_counter_can_pause(), Err(CounterError::Faulted));
    assert_eq!(vm.paused_counter_for_snapshot(), Err(CounterError::Faulted));
    assert_eq!(vm.record_counter_pause(&mut [CounterLog::new(&host)]), Err(CounterError::Faulted));
    assert_eq!(
        vm.prepare_counter_resume(&mut [CounterLog::new(&host)]),
        Err(CounterError::Faulted)
    );
    assert_eq!(vm.mark_counter_running(), Err(CounterError::Faulted));
    assert_eq!(
        vm.configure_counter_for_boot(&mut CounterLog::new(&host), Ok(true)),
        Err(CounterError::AlreadyConfigured)
    );
}

#[test]
fn the_interrupt_controller_is_created_after_the_vcpus() {
    let mut vm = test_vm();
    assert!(vm.arch_pre_create_vcpus::<()>(2).is_ok());
    assert!(!vm.has_irqchip());
    assert!(matches!(
        vm.arch_post_create_vcpus(2, |_| Err("no gic")),
        Err(KvmVmError::VmCreateGIC("no gic"))
    ));
    assert!(!vm.has_irqchip());
    let created = vm.arch_post_create_vcpus(2, |vcpu_count| {
        assert_eq!(vcpu_count, 2);
        Ok::<_, ()>("gic")
    });
    assert!(created.is_ok());
    assert_eq!(*vm.get_irqchip(), "gic");
    assert!(vm.setup_irqchip(3, |_| Ok::<_, ()>("other gic")).is_ok());
    assert_eq!(*vm.get_irqchip(), "other gic");
}

#[test]
fn a_machine_is_saved_and_restored() {
    let mut vm = test_vm();
    assert!(vm.setup_irqchip(1, |_| Ok::<_, ()>("gic")).is_ok());
    let state = vm
        .save_state(
            &[7, 8],
            |device, mpidrs| Ok::<_, ()>(format!("{device} {mpidrs:?}")),
            |allocator| allocator.len(),
        )
        .unwrap();
    assert_eq!(
        state.memory.regions,
        [GuestMemoryRegionState {
            base_address: 0x8000_0000,
            size: 1 << 20,
            region_type: GuestRegionType::Dram
        }]
    );
    assert_eq!(state.gic, "gic [7, 8]");
    assert_eq!(state.resource_allocator, 2);

    let restored = vm.restore_state(
        &[9],
        &state,
        |device, mpidrs, gic| {
            assert_eq!(*device, "gic");
            assert_eq!(mpidrs, [9]);
            assert_eq!(gic, "gic [7, 8]");
            Ok::<_, ()>(())
        },
        |saved| Ok(vec![*saved as u32]),
    );
    assert!(restored.is_ok());
    assert_eq!(vm.common.resource_allocator, [2]);
}

#[test]
fn a_failed_restore_leaves_the_allocator_alone() {
    let mut vm = test_vm();
    assert!(vm.setup_irqchip(1, |_| Ok::<_, ()>("gic")).is_ok());
    assert!(matches!(
        vm.save_state(&[], |_, _| Err::<(), _>("busy"), |_| ()),
        Err(KvmVmError::SaveGic("busy"))
    ));
    let state = VmState {
        memory: vm.common.guest_memory.describe(),
        gic: (),
        resource_allocator: (),
    };
    assert!(matches!(
        vm.restore_state(
            &[],
            &state,
            |_, _, _| Err("busy"),
            |_| unreachable!("the interrupt controller comes first"),
        ),
        Err(KvmVmError::RestoreGic("busy"))
    ));
    assert!(matches!(
        vm.restore_state(
            &[],
            &state,
            |_, _, _| Ok::<_, ()>(()),
            |_| Err(vm_allocator::Error::Overflow),
        ),
        Err(KvmVmError::ResourceAllocator(vm_allocator::Error::Overflow))
    ));
    assert_eq!(vm.common.resource_allocator, [1, 2]);
}
