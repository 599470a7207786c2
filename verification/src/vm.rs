//! A virtual machine: its memory and resources, its interrupt controller and its counter.

use vstd::prelude::*;

#[allow(unused_imports)]
use crate::counter::{
    can_step, counter_add, domain_view, health_refusal, is_configured_for_boot,
    is_configured_for_restore, is_marked_running, is_paused, is_prepared_to_resume, is_refused,
    law_restore_continues_at_the_saved_counter, pause_point, pause_refusal, reads_at, refused,
    CounterController, CounterState,
};
use crate::counter_io::{lemma_calls_since, CounterCall, CounterIo, CounterLog};
use crate::errno::Errno;
use crate::error::{CounterError, KvmVmError};
#[allow(unused_imports)]
use crate::memory::{region_state, GuestMemory, GuestMemoryState, GuestRegion};
#[allow(unused_imports)]
use crate::regs::{VcpuState, SYS_CNTPCT_EL0};
#[allow(unused_imports)]
use crate::saved_counters::{
    canonical_counter, is_normalized, law_a_normalized_snapshot_continues_at_the_pause_point,
    law_normalization_keeps_the_counters_apart, normalization_stopped,
    normalize_snapshot_counters, saved_counter, states_wf,
};

verus! {

/// The parts of a virtual machine that do not depend on the architecture. `A` is the allocator of
/// its resources.
#[derive(Debug)]
pub struct VmCommon<A> {
    /// The memory of the guest.
    pub guest_memory: GuestMemory,
    /// The allocator of resources.
    pub resource_allocator: A,
}

/// A virtual machine. `D` is its interrupt controller and `A` the allocator of its resources.
#[derive(Debug)]
pub struct KvmVm<D, A> {
    /// The parts that do not depend on the architecture.
    pub common: VmCommon<A>,
    irqchip_handle: Option<D>,
    counter_controller: CounterController,
}

/// The state of a virtual machine in a snapshot. `G` is the state of the interrupt controller and
/// `R` that of the resource allocator.
#[derive(Debug)]
pub struct VmState<G, R> {
    /// The memory of the guest.
    pub memory: GuestMemoryState,
    /// The interrupt controller.
    pub gic: G,
    /// The resource allocator.
    pub resource_allocator: R,
}

/// What configuring the counter of a fresh guest comes to, given whether the host supports counter
/// offsets, which may itself not be known.
pub open spec fn counter_is_configured_for_boot(
    supported: Result<bool, Errno>,
    before: CounterState,
    calls: Seq<CounterCall>,
    r: Result<(), CounterError>,
    after: CounterState,
) -> bool {
    match supported {
        Err(error) => is_refused(CounterError::CheckCapability(error), before, calls, r, after),
        Ok(supported) => is_configured_for_boot(before, supported, calls, r, after),
    }
}

/// What configuring the counter of a restored guest comes to, given whether the host supports
/// counter offsets, which may itself not be known.
pub open spec fn counter_is_configured_for_restore(
    saved_counter: u64,
    supported: Result<bool, Errno>,
    before: CounterState,
    calls: Seq<CounterCall>,
    r: Result<(), CounterError>,
    after: CounterState,
) -> bool {
    match supported {
        Err(error) => is_refused(CounterError::CheckCapability(error), before, calls, r, after),
        Ok(supported) => is_configured_for_restore(
            before,
            saved_counter,
            supported,
            calls,
            r,
            after,
        ),
    }
}

/// Why the counters of a snapshot cannot be moved back to `paused_counter` in a domain in the given
/// state, if they cannot: the domain is not paused, or not at that counter.
pub open spec fn pause_point_refusal(state: CounterState, paused_counter: u64) -> Option<
    CounterError,
> {
    match pause_point(state) {
        Err(error) => Some(error),
        Ok(current_counter) => if current_counter != paused_counter {
            Some(CounterError::SnapshotPausePointChanged(paused_counter, current_counter))
        } else {
            None
        },
    }
}

impl<D, A> KvmVm<D, A> {
    /// The parts that do not depend on the architecture.
    pub closed spec fn parts(&self) -> VmCommon<A> {
        self.common
    }

    /// The interrupt controller, once there is one.
    pub closed spec fn irqchip(&self) -> Option<D> {
        self.irqchip_handle
    }

    /// The state of the counter domain.
    pub closed spec fn counter_state(&self) -> CounterState {
        self.counter_controller.state
    }

    /// Returns a virtual machine with the given common parts, if they could be created.
    pub fn new<E>(common: Result<VmCommon<A>, E>) -> (r: Result<KvmVm<D, A>, E>)
        ensures
            match common {
                Err(error) => r == Err::<KvmVm<D, A>, _>(error),
                Ok(common) => {
                    &&& r matches Ok(vm)
                    &&& vm.parts() == common
                    &&& vm.irqchip() is None
                    &&& vm.counter_state() == CounterState::Uninitialized
                },
            },
    {
        match common {
            Ok(common) => Ok(
                KvmVm {
                    common,
                    irqchip_handle: None,
                    counter_controller: CounterController::default(),
                },
            ),
            Err(error) => Err(error),
        }
    }

    /// Makes the counter of a fresh guest start at zero.
    pub fn configure_counter_for_boot<I: CounterIo>(
        &mut self,
        io: &mut CounterLog<'_, I>,
        supported: Result<bool, Errno>,
    ) -> (r: Result<(), CounterError>)
        ensures
            final(io).continues(old(io)),
            counter_is_configured_for_boot(
                supported,
                old(self).counter_state(),
                final(io).since(old(io)),
                r,
                final(self).counter_state(),
            ),
            can_step(old(self).counter_state(), final(self).counter_state()),
            final(self).parts() == old(self).parts(),
            final(self).irqchip() == old(self).irqchip(),
    {
        proof {
            lemma_calls_since(io.calls());
        }
        match supported {
            Ok(supported) => self.counter_controller.configure_boot(io, supported),
            Err(error) => Err(CounterError::CheckCapability(error)),
        }
    }

    /// Makes the counter of a restored guest continue at `saved_counter`. No register of a vCPU may
    /// be replayed before.
    pub fn configure_counter_for_restore<I: CounterIo>(
        &mut self,
        io: &mut CounterLog<'_, I>,
        saved_counter: u64,
        supported: Result<bool, Errno>,
    ) -> (r: Result<(), CounterError>)
        ensures
            final(io).continues(old(io)),
            counter_is_configured_for_restore(
                saved_counter,
                supported,
                old(self).counter_state(),
                final(io).since(old(io)),
                r,
                final(self).counter_state(),
            ),
            can_step(old(self).counter_state(), final(self).counter_state()),
            final(self).parts() == old(self).parts(),
            final(self).irqchip() == old(self).irqchip(),
    {
        proof {
            lemma_calls_since(io.calls());
        }
        match supported {
            Ok(supported) => self.counter_controller.configure_restore(
                io,
                saved_counter,
                supported,
            ),
            Err(error) => Err(CounterError::CheckCapability(error)),
        }
    }

    /// Rejects every lifecycle request after an unrecoverable transition.
    pub fn ensure_counter_healthy(&self) -> (r: Result<(), CounterError>)
        ensures
            r == refused(health_refusal(self.counter_state())),
    {
        self.counter_controller.ensure_healthy()
    }

    /// Checks that the virtual machine can be paused.
    pub fn ensure_counter_can_pause(&self) -> (r: Result<(), CounterError>)
        ensures
            r == refused(pause_refusal(self.counter_state())),
    {
        self.counter_controller.ensure_can_pause()
    }

    /// Returns the physical counter that was captured when the vCPUs paused.
    ///
    /// Asking for it before the state of devices or vCPUs is collected also rejects snapshots of a
    /// virtual machine that cannot be saved.
    pub fn paused_counter_for_snapshot(&self) -> (r: Result<u64, CounterError>)
        ensures
            r == pause_point(self.counter_state()),
            self.counter_state() matches CounterState::Paused { guest_counter, .. } ==> r == Ok::<
                u64,
                CounterError,
            >(guest_counter),
            r is Ok ==> self.counter_state() is Paused,
    {
        self.counter_controller.paused_counter()
    }

    /// Moves the saved counters of every vCPU back to the point at which the vCPUs paused.
    pub fn normalize_snapshot_counters(
        &self,
        states: &mut [VcpuState],
        paused_counter: u64,
    ) -> (r: Result<(), CounterError>)
        requires
            states_wf(old(states)@),
        ensures
            final(states)@.len() == old(states)@.len(),
            states_wf(final(states)@),
            match pause_point_refusal(self.counter_state(), paused_counter) {
                Some(error) => {
                    &&& r == Err::<(), _>(error)
                    &&& final(states)@ == old(states)@
                },
                None => match r {
                    Ok(()) => {
                        &&& 0 < old(states)@.len()
                        &&& forall|i: int|
                            0 <= i < old(states)@.len() ==> #[trigger] is_normalized(
                                old(states)@,
                                final(states)@,
                                i,
                                paused_counter,
                            )
                    },
                    Err(error) => if old(states)@.len() == 0 {
                        error == CounterError::NoVcpuState
                    } else {
                        exists|k: int| #[trigger]
                            normalization_stopped(
                                old(states)@,
                                final(states)@,
                                k,
                                paused_counter,
                                error,
                            )
                    },
                },
            },
    {
        let current_counter: u64 = match self.counter_controller.paused_counter() {
            Ok(counter) => counter,
            Err(error) => {
                return Err(error);
            },
        };
        if current_counter != paused_counter {
            return Err(CounterError::SnapshotPausePointChanged(paused_counter, current_counter));
        }
        normalize_snapshot_counters(states, paused_counter)
    }

    /// Captures the counter of the guest once every vCPU has acknowledged the pause. `ios` has the
    /// counter as each vCPU sees it; that of the boot vCPU is read.
    pub fn record_counter_pause<I: CounterIo>(
        &mut self,
        ios: &mut [CounterLog<'_, I>],
    ) -> (r: Result<(), CounterError>)
        ensures
            final(ios)@.len() == old(ios)@.len(),
            if old(ios)@.len() == 0 {
                &&& r == Err::<(), _>(CounterError::NoBootVcpu)
                &&& final(self).counter_state() == old(self).counter_state()
            } else {
                &&& final(ios)@[0].continues(&old(ios)@[0])
                &&& is_paused(
                    old(self).counter_state(),
                    final(ios)@[0].since(&old(ios)@[0]),
                    r,
                    final(self).counter_state(),
                )
                &&& forall|i: int|
                    0 < i < old(ios)@.len() ==> #[trigger] final(ios)@[i] == old(ios)@[i]
            },
            can_step(old(self).counter_state(), final(self).counter_state()),
            final(self).parts() == old(self).parts(),
            final(self).irqchip() == old(self).irqchip(),
    {
        if ios.len() == 0 {
            return Err(CounterError::NoBootVcpu);
        }
        self.counter_controller.record_pause(&mut ios[0])
    }

    /// Moves the offset of the counter while all vCPUs remain paused. `ios` has the counter as each
    /// vCPU sees it; that of the boot vCPU is used.
    pub fn prepare_counter_resume<I: CounterIo>(
        &mut self,
        ios: &mut [CounterLog<'_, I>],
    ) -> (r: Result<(), CounterError>)
        ensures
            final(ios)@.len() == old(ios)@.len(),
            if old(ios)@.len() == 0 {
                &&& r == Err::<(), _>(CounterError::NoBootVcpu)
                &&& final(self).counter_state() == old(self).counter_state()
            } else {
                &&& final(ios)@[0].continues(&old(ios)@[0])
                &&& is_prepared_to_resume(
                    old(self).counter_state(),
                    final(ios)@[0].since(&old(ios)@[0]),
                    r,
                    final(self).counter_state(),
                )
                &&& forall|i: int|
                    0 < i < old(ios)@.len() ==> #[trigger] final(ios)@[i] == old(ios)@[i]
            },
            can_step(old(self).counter_state(), final(self).counter_state()),
            final(self).parts() == old(self).parts(),
            final(self).irqchip() == old(self).irqchip(),
    {
        if ios.len() == 0 {
            return Err(CounterError::NoBootVcpu);
        }
        self.counter_controller.prepare_resume(&mut ios[0])
    }

    /// Records that the vCPUs run again.
    pub fn mark_counter_running(&mut self) -> (r: Result<(), CounterError>)
        ensures
            is_marked_running(old(self).counter_state(), r, final(self).counter_state()),
            can_step(old(self).counter_state(), final(self).counter_state()),
            final(self).parts() == old(self).parts(),
            final(self).irqchip() == old(self).irqchip(),
    {
        self.counter_controller.mark_running()
    }

    /// Prevents further lifecycle requests after a transition that could not be undone.
    pub fn mark_counter_faulted(&mut self)
        ensures
            final(self).counter_state() == CounterState::Faulted,
            can_step(old(self).counter_state(), final(self).counter_state()),
            final(self).parts() == old(self).parts(),
            final(self).irqchip() == old(self).irqchip(),
    {
        self.counter_controller.mark_faulted()
    }

    /// Prepares the creation of vCPUs, which needs nothing on this architecture.
    pub fn arch_pre_create_vcpus<E>(&mut self, _nr_vcpus: u8) -> (r: Result<(), KvmVmError<E>>)
        ensures
            r == Ok::<_, KvmVmError<E>>(()),
            *final(self) == *old(self),
    {
        Ok(())
    }

    /// Completes the creation of vCPUs.
    ///
    /// The interrupt controller can be created only when the vCPUs have been.
    pub fn arch_post_create_vcpus<E>(
        &mut self,
        nr_vcpus: u8,
        create_gic: impl FnOnce(u64) -> Result<D, E>,
    ) -> (r: Result<(), KvmVmError<E>>)
        requires
            call_requires(create_gic, (nr_vcpus as u64,)),
        ensures
            match r {
                Ok(()) => {
                    &&& final(self).irqchip() matches Some(device)
                    &&& call_ensures(create_gic, (nr_vcpus as u64,), Ok(device))
                },
                Err(error) => {
                    &&& error matches KvmVmError::VmCreateGIC(error)
                    &&& call_ensures(create_gic, (nr_vcpus as u64,), Err(error))
                    &&& final(self).irqchip() == old(self).irqchip()
                },
            },
            final(self).parts() == old(self).parts(),
            final(self).counter_state() == old(self).counter_state(),
    {
        self.setup_irqchip(nr_vcpus, create_gic)
    }

    /// Creates the interrupt controller for the given number of vCPUs.
    pub fn setup_irqchip<E>(
        &mut self,
        vcpu_count: u8,
        create_gic: impl FnOnce(u64) -> Result<D, E>,
    ) -> (r: Result<(), KvmVmError<E>>)
        requires
            call_requires(create_gic, (vcpu_count as u64,)),
        ensures
            match r {
                Ok(()) => {
                    &&& final(self).irqchip() matches Some(device)
                    &&& call_ensures(create_gic, (vcpu_count as u64,), Ok(device))
                },
                Err(error) => {
                    &&& error matches KvmVmError::VmCreateGIC(error)
                    &&& call_ensures(create_gic, (vcpu_count as u64,), Err(error))
                    &&& final(self).irqchip() == old(self).irqchip()
                },
            },
            final(self).parts() == old(self).parts(),
            final(self).counter_state() == old(self).counter_state(),
    {
        match create_gic(vcpu_count as u64) {
            Ok(device) => {
                self.irqchip_handle = Some(device);
                Ok(())
            },
            Err(error) => Err(KvmVmError::VmCreateGIC(error)),
        }
    }

    /// Returns whether there is an interrupt controller.
    pub fn has_irqchip(&self) -> (present: bool)
        ensures
            present == (self.irqchip() is Some),
    {
        self.irqchip_handle.is_some()
    }

    /// Returns the interrupt controller.
    pub fn get_irqchip(&self) -> (device: &D)
        requires
            self.irqchip() is Some,
        ensures
            self.irqchip() == Some(*device),
    {
        match &self.irqchip_handle {
            Some(device) => device,
            None => vstd::pervasive::unreached(),
        }
    }

    /// Returns the state of the virtual machine for a snapshot.
    ///
    /// `save_device` saves the interrupt controller, given the affinities of the vCPUs, and
    /// `save_allocator` the resource allocator.
    pub fn save_state<G, R, E>(
        &self,
        mpidrs: &[u64],
        save_device: impl FnOnce(&D, &[u64]) -> Result<G, E>,
        save_allocator: impl FnOnce(&A) -> R,
    ) -> (r: Result<VmState<G, R>, KvmVmError<E>>)
        requires
            self.irqchip() is Some,
            call_requires(save_device, (&self.irqchip()->0, mpidrs)),
            forall|gic: G| #[trigger]
                call_ensures(save_device, (&self.irqchip()->0, mpidrs), Ok(gic)) ==> call_requires(
                    save_allocator,
                    (&self.parts().resource_allocator,),
                ),
        ensures
            match r {
                Ok(state) => {
                    &&& state.memory.regions@ == self.parts().guest_memory@.map_values(
                        |region: GuestRegion| region_state(region),
                    )
                    &&& state.memory.regions@.len() == self.parts().guest_memory@.len()
                    &&& forall|i: int|
                        0 <= i < state.memory.regions@.len() ==> (
                        #[trigger] state.memory.regions@[i]).base_address
                            == self.parts().guest_memory@[i].start.0
                            && state.memory.regions@[i].size
                            == self.parts().guest_memory@[i].size
                            && state.memory.regions@[i].region_type
                            == self.parts().guest_memory@[i].region_type
                    &&& call_ensures(save_device, (&self.irqchip()->0, mpidrs), Ok(state.gic))
                    &&& call_ensures(
                        save_allocator,
                        (&self.parts().resource_allocator,),
                        state.resource_allocator,
                    )
                },
                Err(error) => {
                    &&& error matches KvmVmError::SaveGic(error)
                    &&& call_ensures(save_device, (&self.irqchip()->0, mpidrs), Err(error))
                },
            },
    {
        let memory = self.common.guest_memory.describe();
        let gic = match save_device(self.get_irqchip(), mpidrs) {
            Ok(gic) => gic,
            Err(error) => {
                return Err(KvmVmError::SaveGic(error));
            },
        };
        assert(call_ensures(save_device, (&self.irqchip()->0, mpidrs), Ok(gic)));
        let resource_allocator = save_allocator(&self.common.resource_allocator);
        Ok(VmState { memory, gic, resource_allocator })
    }

    /// Restores the state of the virtual machine from a snapshot.
    ///
    /// `restore_device` restores the interrupt controller, given the affinities of the vCPUs, and
    /// `restore_allocator` the resource allocator.
    pub fn restore_state<G, R, E>(
        &mut self,
        mpidrs: &[u64],
        state: &VmState<G, R>,
        restore_device: impl FnOnce(&D, &[u64], &G) -> Result<(), E>,
        restore_allocator: impl FnOnce(&R) -> Result<A, vm_allocator::Error>,
    ) -> (r: Result<(), KvmVmError<E>>)
        requires
            old(self).irqchip() is Some,
            call_requires(restore_device, (&old(self).irqchip()->0, mpidrs, &state.gic)),
            call_ensures(restore_device, (&old(self).irqchip()->0, mpidrs, &state.gic), Ok(()))
                ==> call_requires(restore_allocator, (&state.resource_allocator,)),
        ensures
            match r {
                Ok(()) => {
                    &&& call_ensures(
                        restore_device,
                        (&old(self).irqchip()->0, mpidrs, &state.gic),
                        Ok(()),
                    )
                    &&& call_ensures(
                        restore_allocator,
                        (&state.resource_allocator,),
                        Ok(final(self).parts().resource_allocator),
                    )
                },
                Err(KvmVmError::RestoreGic(error)) => {
                    &&& call_ensures(
                        restore_device,
                        (&old(self).irqchip()->0, mpidrs, &state.gic),
                        Err(error),
                    )
                    &&& final(self).parts() == old(self).parts()
                },
                Err(KvmVmError::ResourceAllocator(error)) => {
                    &&& call_ensures(
                        restore_device,
                        (&old(self).irqchip()->0, mpidrs, &state.gic),
                        Ok(()),
                    )
                    &&& call_ensures(
                        restore_allocator,
                        (&state.resource_allocator,),
                        Err(error),
                    )
                    &&& final(self).parts() == old(self).parts()
                },
                Err(_) => false,
            },
            final(self).parts().guest_memory == old(self).parts().guest_memory,
            final(self).irqchip() == old(self).irqchip(),
            final(self).counter_state() == old(self).counter_state(),
    {
        match restore_device(self.get_irqchip(), mpidrs, &state.gic) {
            Ok(unit) => {
                assert(unit == ());
            },
            Err(error) => {
                return Err(KvmVmError::RestoreGic(error));
            },
        }
        match restore_allocator(&state.resource_allocator) {
            Ok(allocator) => {
                self.common.resource_allocator = allocator;
                Ok(())
            },
            Err(error) => Err(KvmVmError::ResourceAllocator(error)),
        }
    }
}

/// The parts, the interrupt controller and the counter state of a virtual machine are what its
/// fields hold.
proof fn law_a_vm_is_its_fields<D, A>(vm: KvmVm<D, A>)
    ensures
        vm.parts() == vm.common,
        vm.irqchip() == vm.irqchip_handle,
        vm.counter_state() == vm.counter_controller.state,
{
}

/// A guest that is restored from a snapshot continues where it was paused: it sees the counter that
/// was captured at the pause, and how the time passes since the counter of the host was read.
pub proof fn law_a_restored_guest_continues_where_it_was_paused(
    paused: CounterState,
    collected: Seq<VcpuState>,
    saved: Seq<VcpuState>,
    before: CounterState,
    calls: Seq<CounterCall>,
    after: CounterState,
    host_counter: u64,
    elapsed: u64,
)
    requires
        paused is Paused,
        0 < collected.len() == saved.len() <= usize::MAX,
        forall|i: int|
            0 <= i < collected.len() ==> #[trigger] is_normalized(
                collected,
                saved,
                i,
                paused->guest_counter,
            ),
        canonical_counter(saved) is Ok ==> counter_is_configured_for_restore(
            canonical_counter(saved)->Ok_0,
            Ok(true),
            before,
            calls,
            Ok(()),
            after,
        ),
        reads_at(calls, host_counter, 0),
    ensures
        canonical_counter(saved) is Ok,
        domain_view(counter_add(host_counter, elapsed), after) == counter_add(
            paused->guest_counter,
            elapsed,
        ),
{
    law_a_normalized_snapshot_continues_at_the_pause_point(
        collected,
        saved,
        paused->guest_counter,
    );
    law_restore_continues_at_the_saved_counter(
        before,
        paused->guest_counter,
        true,
        calls,
        after,
        host_counter,
        elapsed,
    );
}

/// The counters of a snapshot can be moved back to a counter exactly if the domain is paused at it.
/// If it is paused at another one, both are told apart in the error, and if it is not paused, the
/// error is why not.
pub proof fn law_counters_are_moved_to_the_pause_point_only(
    offset: u64,
    guest_counter: u64,
    paused_counter: u64,
    state: CounterState,
)
    ensures
        pause_point_refusal(
            CounterState::Paused { offset, guest_counter },
            paused_counter,
        ) is None <==> paused_counter == guest_counter,
        paused_counter != guest_counter ==> pause_point_refusal(
            CounterState::Paused { offset, guest_counter },
            paused_counter,
        ) == Some(CounterError::SnapshotPausePointChanged(paused_counter, guest_counter)),
        state is Running ==> pause_point_refusal(state, paused_counter) == Some(
            CounterError::NotPaused,
        ),
        state is Unsupported ==> pause_point_refusal(state, paused_counter) == Some(
            CounterError::Unsupported,
        ),
        state is Uninitialized ==> pause_point_refusal(state, paused_counter) == Some(
            CounterError::Uninitialized,
        ),
        state is Faulted ==> pause_point_refusal(state, paused_counter) == Some(
            CounterError::Faulted,
        ),
{
}

/// A snapshot is normalized to the counter that the pause has read: this is the one that is handed
/// out for the snapshot and the only one that the counters are moved back to, and it is then the
/// physical counter of every vCPU in the snapshot.
pub proof fn law_a_snapshot_holds_what_the_pause_read(
    running: CounterState,
    calls: Seq<CounterCall>,
    paused: CounterState,
    counter: u64,
    collected: Seq<VcpuState>,
    saved: Seq<VcpuState>,
    paused_counter: u64,
)
    requires
        running is Running,
        is_paused(running, calls, Ok(()), paused),
        calls[0] == CounterCall::ReadCounter(Ok(counter)),
        pause_point_refusal(paused, paused_counter) is None,
        0 < collected.len() == saved.len() <= usize::MAX,
        forall|i: int|
            0 <= i < collected.len() ==> #[trigger] is_normalized(
                collected,
                saved,
                i,
                paused_counter,
            ),
    ensures
        pause_point(paused) == Ok::<u64, CounterError>(counter),
        paused_counter == counter,
        canonical_counter(saved) == Ok::<u64, CounterError>(counter),
        forall|i: int|
            0 <= i < saved.len() ==> #[trigger] saved_counter(
                saved[i].regs@,
                i as usize,
                SYS_CNTPCT_EL0,
            ) == Ok::<u64, CounterError>(counter),
{
    law_a_normalized_snapshot_continues_at_the_pause_point(collected, saved, paused_counter);
}

/// If it is not known whether the host supports counter offsets, the counter is not configured: no
/// call is made, nothing changes, and the error says why it is not known.
pub proof fn law_an_unknown_support_configures_nothing(
    supported: Result<bool, Errno>,
    saved_counter: u64,
    before: CounterState,
    calls: Seq<CounterCall>,
    r: Result<(), CounterError>,
    after: CounterState,
)
    requires
        supported is Err,
    ensures
        counter_is_configured_for_boot(supported, before, calls, r, after) ==> {
            &&& calls.len() == 0
            &&& r == Err::<(), _>(CounterError::CheckCapability(supported->Err_0))
            &&& after == before
        },
        counter_is_configured_for_restore(saved_counter, supported, before, calls, r, after) ==> {
            &&& calls.len() == 0
            &&& r == Err::<(), _>(CounterError::CheckCapability(supported->Err_0))
            &&& after == before
        },
{
}

/// If it is known whether the host supports counter offsets, the counter is configured accordingly.
/// A fresh guest for which they are supported is paused at zero and a restored one at the saved
/// counter. Without support a fresh guest boots all the same and a restored one is turned away.
pub proof fn law_a_known_support_decides(
    supported: bool,
    saved_counter: u64,
    before: CounterState,
    calls: Seq<CounterCall>,
    r: Result<(), CounterError>,
    after: CounterState,
)
    requires
        before is Uninitialized,
    ensures
        counter_is_configured_for_boot(Ok(supported), before, calls, r, after) ==> {
            &&& !supported ==> calls.len() == 0 && r is Ok && after is Unsupported
            &&& supported ==> 0 < calls.len() && calls[0] is ReadCounter
            &&& supported && r is Ok ==> after is Paused && after->guest_counter == 0
            &&& r is Err ==> after == before
        },
        counter_is_configured_for_restore(
            saved_counter,
            Ok(supported),
            before,
            calls,
            r,
            after,
        ) ==> {
            &&& !supported ==> calls.len() == 0 && r == Err::<(), _>(CounterError::Unsupported)
            &&& supported ==> 0 < calls.len() && calls[0] is ReadCounter
            &&& supported && r is Ok ==> after is Paused && after->guest_counter == saved_counter
            &&& r is Err ==> after == before
        },
        counter_is_configured_for_boot(Ok(supported), before, calls, r, after) ==>
            is_configured_for_boot(before, supported, calls, r, after),
        counter_is_configured_for_restore(
            saved_counter,
            Ok(supported),
            before,
            calls,
            r,
            after,
        ) ==> is_configured_for_restore(before, saved_counter, supported, calls, r, after),
{
}

/// What [`KvmVm::paused_counter_for_snapshot`] hands out for a virtual machine that is paused at a
/// counter is this counter, whatever the offset is, and it hands out a counter for no other one.
pub proof fn law_the_paused_counter_is_handed_out<D, A>(
    vm: KvmVm<D, A>,
    r: Result<u64, CounterError>,
)
    requires
        call_ensures(KvmVm::<D, A>::paused_counter_for_snapshot, (&vm,), r),
    ensures
        match vm.counter_state() {
            CounterState::Paused { offset, guest_counter } => r == Ok::<u64, CounterError>(
                guest_counter,
            ),
            CounterState::Running { .. } => r == Err::<u64, _>(CounterError::NotPaused),
            CounterState::Unsupported => r == Err::<u64, _>(CounterError::Unsupported),
            CounterState::Uninitialized => r == Err::<u64, _>(CounterError::Uninitialized),
            CounterState::Faulted => r == Err::<u64, _>(CounterError::Faulted),
        },
{
}

/// [`KvmVm::normalize_snapshot_counters`] takes the counter that
/// [`KvmVm::paused_counter_for_snapshot`] hands out, and no other. With another one, or if none is
/// handed out, no state changes and the error says so.
pub proof fn law_snapshots_take_the_counter_that_is_handed_out<D, A>(
    vm: KvmVm<D, A>,
    handed_out: Result<u64, CounterError>,
    counter: u64,
    r: Result<(), CounterError>,
)
    requires
        call_ensures(KvmVm::<D, A>::paused_counter_for_snapshot, (&vm,), handed_out),
    ensures
        forall|states: &mut [VcpuState]| #[trigger]
            call_ensures(
                KvmVm::<D, A>::normalize_snapshot_counters,
                (&vm, states, counter),
                r,
            ) ==> {
                &&& handed_out matches Err(error) ==> r == Err::<(), _>(error) && final(states)@
                    == states@
                &&& handed_out matches Ok(paused_counter) ==> paused_counter != counter ==> {
                    &&& r == Err::<(), _>(
                        CounterError::SnapshotPausePointChanged(counter, paused_counter),
                    )
                    &&& final(states)@ == states@
                }
                &&& r is Ok ==> {
                    &&& handed_out == Ok::<u64, CounterError>(counter)
                    &&& final(states)@.len() == states@.len()
                    &&& forall|i: int|
                        0 <= i < states@.len() && i <= usize::MAX ==> {
                            &&& (#[trigger] final(states)@[i]).mpidr == states@[i].mpidr
                            &&& saved_counter(final(states)@[i].regs@, i as usize, SYS_CNTPCT_EL0)
                                == Ok::<u64, CounterError>(counter)
                        }
                }
            },
{
    assert forall|states: &mut [VcpuState]| #[trigger]
        call_ensures(KvmVm::<D, A>::normalize_snapshot_counters, (&vm, states, counter), r)
            && r is Ok implies (forall|i: int|
        0 <= i < states@.len() && i <= usize::MAX ==> {
            &&& (#[trigger] final(states)@[i]).mpidr == states@[i].mpidr
            &&& saved_counter(final(states)@[i].regs@, i as usize, SYS_CNTPCT_EL0) == Ok::<
                u64,
                CounterError,
            >(counter)
        }) by {
        assert forall|i: int| 0 <= i < states@.len() && i <= usize::MAX implies {
            &&& (#[trigger] final(states)@[i]).mpidr == states@[i].mpidr
            &&& saved_counter(final(states)@[i].regs@, i as usize, SYS_CNTPCT_EL0) == Ok::<
                u64,
                CounterError,
            >(counter)
        } by {
            assert(is_normalized(states@, final(states)@, i, counter));
            law_normalization_keeps_the_counters_apart(states@[i].regs@, i as usize, counter);
        }
    }
}

/// When [`KvmVm::record_counter_pause`] succeeds, the counter was read once as the boot vCPU sees
/// it, and [`KvmVm::paused_counter_for_snapshot`] then hands out the counter that was read.
pub proof fn law_what_the_pause_read_is_handed_out<'a, D, A, I: CounterIo>(
    paused: KvmVm<D, A>,
    handed_out: Result<u64, CounterError>,
)
    requires
        call_ensures(KvmVm::<D, A>::paused_counter_for_snapshot, (&paused,), handed_out),
    ensures
        forall|vm: &mut KvmVm<D, A>, ios: &mut [CounterLog<'a, I>]| #[trigger]
            call_ensures(KvmVm::<D, A>::record_counter_pause::<I>, (vm, ios), Ok(())) && *final(vm)
                == paused ==> {
                &&& 0 < ios@.len()
                &&& handed_out is Ok
                &&& final(ios)@[0].calls() == ios@[0].calls().push(
                    CounterCall::ReadCounter(handed_out),
                )
            },
{
    assert forall|vm: &mut KvmVm<D, A>, ios: &mut [CounterLog<'a, I>]| #[trigger]
        call_ensures(KvmVm::<D, A>::record_counter_pause::<I>, (vm, ios), Ok(())) && *final(vm)
            == paused implies {
        &&& 0 < ios@.len()
        &&& handed_out is Ok
        &&& final(ios)@[0].calls() == ios@[0].calls().push(CounterCall::ReadCounter(handed_out))
    } by {
        assert(final(ios)@[0].calls() =~= ios@[0].calls() + final(ios)@[0].since(&ios@[0]));
    }
}

/// A virtual machine is made of the common parts that could be created, without an interrupt
/// controller and without a configured counter. If they could not be created the error is handed
/// on.
pub proof fn law_a_new_vm_is_not_configured<D, A, E>(
    common: VmCommon<A>,
    error: E,
    r: Result<KvmVm<D, A>, E>,
    failed: Result<KvmVm<D, A>, E>,
)
    requires
        call_ensures(KvmVm::<D, A>::new::<E>, (Ok(common),), r),
        call_ensures(KvmVm::<D, A>::new::<E>, (Err(error),), failed),
    ensures
        r matches Ok(vm) && vm.parts() == common && vm.irqchip() is None
            && vm.counter_state() is Uninitialized,
        failed == Err::<KvmVm<D, A>, E>(error),
{
}

/// There is an interrupt controller exactly if [`KvmVm::has_irqchip`] says so, and it is the one
/// that [`KvmVm::get_irqchip`] returns.
pub proof fn law_the_irqchip_is_returned<D, A>(vm: KvmVm<D, A>, present: bool, device: D)
    requires
        call_ensures(KvmVm::<D, A>::has_irqchip, (&vm,), present),
        present ==> call_ensures(KvmVm::<D, A>::get_irqchip, (&vm,), &device),
    ensures
        present ==> vm.irqchip() == Some(device),
        !present ==> vm.irqchip() is None,
{
}

} // verus!
