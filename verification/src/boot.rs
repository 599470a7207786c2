//! Configuration of a system for booting Linux.
//!
//! The configuration is a fixed sequence of steps. Each step is work on KVM, on guest memory or on
//! the host that is done elsewhere, and what it comes to is handed back here, which decides on the
//! next step or on the error with which the configuration ends.

use vstd::prelude::*;

use crate::cpu_template::CustomCpuTemplate;
use crate::errno::Errno;
use crate::error::{
    ArmFeatureValidationError, ConfigurationError, CounterError, CpuConfigurationError, FdtError,
    KvmVcpuError,
};
use crate::features::{
    configuration_error_from_feature_validation, effective_words, feature_configuration_error,
    feature_mask, is_verdict, law_verdict_is_unique, resolve_arm_boot_mode, ArmBootMode,
    KVM_ARM_VCPU_POWER_OFF,
};
use crate::memory::{has_dram, regions_wf, GuestAddress, GuestMemory};
use crate::regions::{fdt_load_addr, get_fdt_addr};

verus! {

/// How a kernel is started.
#[derive(Clone, Copy, Debug, PartialEq, Eq, Structural)]
pub enum BootProtocol {
    /// By the Linux boot protocol.
    LinuxBoot,
}

/// Where and how a kernel is started.
#[derive(Clone, Copy, Debug, PartialEq, Eq, Structural)]
pub struct EntryPoint {
    /// The address of the first instruction.
    pub entry_addr: GuestAddress,
    /// How the kernel is started.
    pub protocol: BootProtocol,
}

/// Returns where and how a kernel is started, given what loading its image came to: the address at
/// which it was loaded.
pub fn kernel_entry_point(loaded: Result<GuestAddress, linux_loader::loader::Error>) -> (r: Result<
    EntryPoint,
    ConfigurationError,
>)
    ensures
        r == match loaded {
            Ok(entry_addr) => Ok(EntryPoint { entry_addr, protocol: BootProtocol::LinuxBoot }),
            Err(error) => Err(ConfigurationError::KernelLoader(error)),
        },
{
    match loaded {
        Ok(entry_addr) => Ok(EntryPoint { entry_addr, protocol: BootProtocol::LinuxBoot }),
        Err(error) => Err(ConfigurationError::KernelLoader(error)),
    }
}

/// A step of the configuration.
#[derive(Clone, Copy, Debug, PartialEq, Eq, Structural)]
pub enum BootStep {
    /// Initialize every vCPU and read the configuration that the template applies to.
    CreateCpuConfig,
    /// Make the counter of the guest start at zero, by way of the boot vCPU.
    ConfigureCounter,
    /// Apply the template to the configuration.
    ApplyTemplate,
    /// Configure the vCPU with this index.
    ConfigureVcpu(usize),
    /// Set the cache level register of every vCPU.
    OverrideClidr,
    /// Read the affinity of the vCPU with this index.
    ReadMpidr(usize),
    /// Build the device tree.
    CreateFdt,
    /// Write the device tree that was built to guest memory at this address.
    WriteFdt(GuestAddress),
    /// The system is configured.
    Done,
}

/// What a step came to.
#[derive(Debug)]
pub enum BootEvent {
    /// The vCPUs were initialized and the configuration was read.
    CpuConfigCreated(Result<(), CpuConfigurationError>),
    /// The counter was configured.
    CounterConfigured(Result<(), CounterError>),
    /// The template was applied.
    TemplateApplied,
    /// The vCPU was configured.
    VcpuConfigured(Result<(), KvmVcpuError>),
    /// The cache level registers were set.
    ClidrOverridden(Result<(), ConfigurationError>),
    /// The affinity of the vCPU was read.
    MpidrRead(Result<u64, Errno>),
    /// The device tree was built.
    FdtCreated(Result<Vec<u8>, FdtError>),
    /// The device tree was written.
    FdtWritten(Result<(), vm_memory::GuestMemoryError>),
}

/// Whether `event` is one that `step` comes to.
pub open spec fn event_fits(step: BootStep, event: BootEvent) -> bool {
    match step {
        BootStep::CreateCpuConfig => event is CpuConfigCreated,
        BootStep::ConfigureCounter => event is CounterConfigured,
        BootStep::ApplyTemplate => event is TemplateApplied,
        BootStep::ConfigureVcpu(_) => event is VcpuConfigured,
        BootStep::OverrideClidr => event is ClidrOverridden,
        BootStep::ReadMpidr(_) => event is MpidrRead,
        BootStep::CreateFdt => event is FdtCreated,
        BootStep::WriteFdt(_) => event is FdtWritten,
        BootStep::Done => false,
    }
}

/// The error with which `event` ends the configuration, if it does.
pub open spec fn boot_error(event: BootEvent) -> Option<ConfigurationError> {
    match event {
        BootEvent::CpuConfigCreated(Err(error)) => Some(ConfigurationError::VcpuConfig(error)),
        BootEvent::CounterConfigured(Err(error)) => Some(ConfigurationError::Counter(error)),
        BootEvent::VcpuConfigured(Err(error)) => Some(ConfigurationError::VcpuConfigure(error)),
        BootEvent::ClidrOverridden(Err(error)) => Some(error),
        BootEvent::MpidrRead(Err(error)) => Some(
            ConfigurationError::VcpuConfigure(KvmVcpuError::ConfigureRegisters(error)),
        ),
        BootEvent::FdtCreated(Err(error)) => Some(ConfigurationError::SetupFDT(error)),
        BootEvent::FdtWritten(Err(error)) => Some(ConfigurationError::MemoryError(error)),
        _ => None,
    }
}

/// The step that comes after `step` when there are `vcpu_count` vCPUs and the device tree goes to
/// `fdt_address`.
pub open spec fn next_step(step: BootStep, vcpu_count: int, fdt_address: u64) -> BootStep {
    match step {
        BootStep::CreateCpuConfig => BootStep::ConfigureCounter,
        BootStep::ConfigureCounter => BootStep::ApplyTemplate,
        BootStep::ApplyTemplate => BootStep::ConfigureVcpu(0),
        BootStep::ConfigureVcpu(i) => if i + 1 < vcpu_count {
            BootStep::ConfigureVcpu((i + 1) as usize)
        } else {
            BootStep::OverrideClidr
        },
        BootStep::OverrideClidr => BootStep::ReadMpidr(0),
        BootStep::ReadMpidr(i) => if i + 1 < vcpu_count {
            BootStep::ReadMpidr((i + 1) as usize)
        } else {
            BootStep::CreateFdt
        },
        BootStep::CreateFdt => BootStep::WriteFdt(GuestAddress(fdt_address)),
        BootStep::WriteFdt(_) => BootStep::Done,
        BootStep::Done => BootStep::Done,
    }
}

/// How many affinities have been read before `step`.
pub open spec fn mpidrs_before(step: BootStep, vcpu_count: int) -> int {
    match step {
        BootStep::ReadMpidr(i) => i as int,
        BootStep::CreateFdt => vcpu_count,
        BootStep::WriteFdt(_) => vcpu_count,
        BootStep::Done => vcpu_count,
        _ => 0,
    }
}

/// A configuration in progress.
#[derive(Debug)]
pub struct BootSequence {
    /// The number of vCPUs.
    pub vcpu_count: usize,
    /// The mode in which the guest boots, which the device tree describes.
    pub boot_mode: ArmBootMode,
    /// The step that is due.
    pub step: BootStep,
    /// The affinities of the vCPUs that have been read, in order.
    pub mpidrs: Vec<u64>,
    /// The device tree, once it has been built.
    pub fdt: Vec<u8>,
}

impl BootSequence {
    /// There is a vCPU, a step that is due for a vCPU is due for one that exists, and the
    /// affinities of all vCPUs before it have been read.
    pub open spec fn wf(&self) -> bool {
        &&& 0 < self.vcpu_count
        &&& self.step matches BootStep::ConfigureVcpu(i) ==> i < self.vcpu_count
        &&& self.step matches BootStep::ReadMpidr(i) ==> i < self.vcpu_count
        &&& self.mpidrs@.len() == mpidrs_before(self.step, self.vcpu_count as int)
    }

    /// Returns the configuration after the step that is due came to `event`, or the error with
    /// which it ends.
    pub fn advance(self, event: BootEvent, guest_memory: &GuestMemory) -> (r: Result<
        BootSequence,
        ConfigurationError,
    >)
        requires
            self.wf(),
            event_fits(self.step, event),
            self.step is CreateFdt && boot_error(event) is None ==> {
                &&& regions_wf(guest_memory@)
                &&& has_dram(guest_memory@)
            },
        ensures
            match boot_error(event) {
                Some(error) => r == Err::<BootSequence, _>(error),
                None => {
                    &&& r matches Ok(next)
                    &&& next.wf()
                    &&& next.vcpu_count == self.vcpu_count
                    &&& next.boot_mode == self.boot_mode
                    &&& next.step == next_step(
                        self.step,
                        self.vcpu_count as int,
                        fdt_load_addr(guest_memory@),
                    )
                    &&& next.mpidrs@ == match event {
                        BootEvent::MpidrRead(Ok(mpidr)) => self.mpidrs@.push(mpidr),
                        _ => self.mpidrs@,
                    }
                    &&& next.fdt@ == match event {
                        BootEvent::FdtCreated(Ok(fdt)) => fdt@,
                        _ => self.fdt@,
                    }
                },
            },
    {
        let mut next = self;
        match event {
            BootEvent::CpuConfigCreated(Err(error)) => {
                return Err(ConfigurationError::VcpuConfig(error));
            },
            BootEvent::CounterConfigured(Err(error)) => {
                return Err(ConfigurationError::Counter(error));
            },
            BootEvent::VcpuConfigured(Err(error)) => {
                return Err(ConfigurationError::VcpuConfigure(error));
            },
            BootEvent::ClidrOverridden(Err(error)) => {
                return Err(error);
            },
            BootEvent::MpidrRead(Err(error)) => {
                return Err(
                    ConfigurationError::VcpuConfigure(KvmVcpuError::ConfigureRegisters(error)),
                );
            },
            BootEvent::FdtCreated(Err(error)) => {
                return Err(ConfigurationError::SetupFDT(error));
            },
            BootEvent::FdtWritten(Err(error)) => {
                return Err(ConfigurationError::MemoryError(error));
            },
            BootEvent::MpidrRead(Ok(mpidr)) => {
                next.mpidrs.push(mpidr);
            },
            BootEvent::FdtCreated(Ok(fdt)) => {
                next.fdt = fdt;
            },
            _ => {},
        }
        next.step = match next.step {
            BootStep::CreateCpuConfig => BootStep::ConfigureCounter,
            BootStep::ConfigureCounter => BootStep::ApplyTemplate,
            BootStep::ApplyTemplate => BootStep::ConfigureVcpu(0),
            BootStep::ConfigureVcpu(i) => if i + 1 < next.vcpu_count {
                BootStep::ConfigureVcpu(i + 1)
            } else {
                BootStep::OverrideClidr
            },
            BootStep::OverrideClidr => BootStep::ReadMpidr(0),
            BootStep::ReadMpidr(i) => if i + 1 < next.vcpu_count {
                BootStep::ReadMpidr(i + 1)
            } else {
                BootStep::CreateFdt
            },
            BootStep::CreateFdt => BootStep::WriteFdt(GuestAddress(get_fdt_addr(guest_memory))),
            BootStep::WriteFdt(_) => BootStep::Done,
            BootStep::Done => BootStep::Done,
        };
        Ok(next)
    }
}

/// Begins to configure a system whose vCPUs have the given initial feature words.
///
/// No vCPU is initialized unless the features of all of them are accepted.
pub fn configure_system_for_boot(
    cpu_template: &CustomCpuTemplate,
    initial_feature_words: &[u32],
) -> (r: Result<BootSequence, ConfigurationError>)
    ensures
        exists|verdict| #[trigger]
            is_verdict(
                effective_words(initial_feature_words@, cpu_template.vcpu_features@),
                feature_mask(KVM_ARM_VCPU_POWER_OFF),
                verdict,
            ) && match verdict {
                Err(error) => r == Err::<BootSequence, _>(feature_configuration_error(error)),
                Ok(boot_mode) => {
                    &&& r matches Ok(sequence)
                    &&& sequence.wf()
                    &&& sequence.vcpu_count == initial_feature_words@.len()
                    &&& sequence.boot_mode == boot_mode
                    &&& sequence.step == BootStep::CreateCpuConfig
                    &&& sequence.mpidrs@ == Seq::<u64>::empty()
                    &&& sequence.fdt@ == Seq::<u8>::empty()
                },
            },
{
    match resolve_arm_boot_mode(cpu_template, initial_feature_words) {
        Ok(boot_mode) => Ok(
            BootSequence {
                vcpu_count: initial_feature_words.len(),
                boot_mode,
                step: BootStep::CreateCpuConfig,
                mpidrs: Vec::new(),
                fdt: Vec::new(),
            },
        ),
        Err(error) => Err(configuration_error_from_feature_validation(error)),
    }
}

/// How many steps come before `step`.
pub open spec fn steps_before(step: BootStep, vcpu_count: int) -> int {
    match step {
        BootStep::CreateCpuConfig => 0,
        BootStep::ConfigureCounter => 1,
        BootStep::ApplyTemplate => 2,
        BootStep::ConfigureVcpu(i) => 3 + i,
        BootStep::OverrideClidr => 3 + vcpu_count,
        BootStep::ReadMpidr(i) => 4 + vcpu_count + i,
        BootStep::CreateFdt => 4 + 2 * vcpu_count,
        BootStep::WriteFdt(_) => 5 + 2 * vcpu_count,
        BootStep::Done => 6 + 2 * vcpu_count,
    }
}

/// Whether the steps are those that a configuration goes through, from its first one on.
pub open spec fn is_boot(steps: Seq<BootStep>, vcpu_count: int, fdt_address: u64) -> bool {
    &&& 0 < steps.len() ==> steps[0] == BootStep::CreateCpuConfig
    &&& forall|i: int|
        0 < i < steps.len() ==> !(steps[i - 1] is Done) && #[trigger] steps[i] == next_step(
            steps[i - 1],
            vcpu_count,
            fdt_address,
        )
}

/// A configuration takes every step once and in order: first the vCPUs are initialized, then the
/// counter starts, and only after that vCPUs are configured, one after another. The cache level
/// registers are set before any affinity is read, and the device tree is built when all affinities
/// are known, then written to where it goes. Then the configuration is done.
pub proof fn law_boot_takes_every_step_in_order(
    steps: Seq<BootStep>,
    vcpu_count: int,
    fdt_address: u64,
    i: int,
)
    requires
        0 < vcpu_count <= usize::MAX,
        is_boot(steps, vcpu_count, fdt_address),
        0 <= i < steps.len(),
    ensures
        steps_before(steps[i], vcpu_count) == i,
        steps[i] matches BootStep::ConfigureVcpu(k) ==> k < vcpu_count,
        steps[i] matches BootStep::ReadMpidr(k) ==> k < vcpu_count,
        steps[i] matches BootStep::WriteFdt(address) ==> address == GuestAddress(fdt_address),
        steps[i] is Done <==> i == 6 + 2 * vcpu_count,
    decreases i,
{
    if 0 < i {
        law_boot_takes_every_step_in_order(steps, vcpu_count, fdt_address, i - 1);
        assert(steps[i] == next_step(steps[i - 1], vcpu_count, fdt_address));
    }
}

/// The steps of a configuration, by how many came before: the vCPUs are initialized, the counter
/// starts, the template is applied, each vCPU is configured, the cache level registers are set,
/// each affinity is read, and the device tree is built and then written.
pub proof fn law_each_step_has_its_place(
    steps: Seq<BootStep>,
    vcpu_count: int,
    fdt_address: u64,
    i: int,
)
    requires
        0 < vcpu_count <= usize::MAX,
        is_boot(steps, vcpu_count, fdt_address),
        0 <= i < steps.len(),
    ensures
        steps.len() <= 7 + 2 * vcpu_count,
        i == 0 ==> steps[i] == BootStep::CreateCpuConfig,
        i == 1 ==> steps[i] == BootStep::ConfigureCounter,
        i == 2 ==> steps[i] == BootStep::ApplyTemplate,
        3 <= i < 3 + vcpu_count ==> steps[i] == BootStep::ConfigureVcpu((i - 3) as usize),
        i == 3 + vcpu_count ==> steps[i] == BootStep::OverrideClidr,
        4 + vcpu_count <= i < 4 + 2 * vcpu_count ==> steps[i] == BootStep::ReadMpidr(
            (i - 4 - vcpu_count) as usize,
        ),
        i == 4 + 2 * vcpu_count ==> steps[i] == BootStep::CreateFdt,
        i == 5 + 2 * vcpu_count ==> steps[i] == BootStep::WriteFdt(GuestAddress(fdt_address)),
        i == 6 + 2 * vcpu_count ==> steps[i] == BootStep::Done,
{
    law_boot_takes_every_step_in_order(steps, vcpu_count, fdt_address, i);
    if 7 + 2 * vcpu_count < steps.len() {
        law_boot_takes_every_step_in_order(steps, vcpu_count, fdt_address, 6 + 2 * vcpu_count);
        assert(steps[7 + 2 * vcpu_count] == next_step(
            steps[6 + 2 * vcpu_count],
            vcpu_count,
            fdt_address,
        ));
    }
}

/// What comes after a step: the next one in the list, and after a step for a vCPU the same step for
/// the next vCPU, as long as there is one.
pub proof fn law_what_comes_next(vcpu_count: int, fdt_address: u64, i: usize)
    requires
        0 <= i < vcpu_count <= usize::MAX,
    ensures
        next_step(BootStep::CreateCpuConfig, vcpu_count, fdt_address) == BootStep::ConfigureCounter,
        next_step(BootStep::ConfigureCounter, vcpu_count, fdt_address) == BootStep::ApplyTemplate,
        next_step(BootStep::ApplyTemplate, vcpu_count, fdt_address) == BootStep::ConfigureVcpu(0),
        i + 1 < vcpu_count ==> next_step(BootStep::ConfigureVcpu(i), vcpu_count, fdt_address)
            == BootStep::ConfigureVcpu((i + 1) as usize),
        i + 1 == vcpu_count ==> next_step(BootStep::ConfigureVcpu(i), vcpu_count, fdt_address)
            == BootStep::OverrideClidr,
        next_step(BootStep::OverrideClidr, vcpu_count, fdt_address) == BootStep::ReadMpidr(0),
        i + 1 < vcpu_count ==> next_step(BootStep::ReadMpidr(i), vcpu_count, fdt_address)
            == BootStep::ReadMpidr((i + 1) as usize),
        i + 1 == vcpu_count ==> next_step(BootStep::ReadMpidr(i), vcpu_count, fdt_address)
            == BootStep::CreateFdt,
        next_step(BootStep::CreateFdt, vcpu_count, fdt_address) == BootStep::WriteFdt(
            GuestAddress(fdt_address),
        ),
        forall|address: GuestAddress|
            #[trigger] next_step(BootStep::WriteFdt(address), vcpu_count, fdt_address)
                == BootStep::Done,
{
}

/// Every failure of a step ends the configuration, with an error that holds what the step failed
/// with and tells which step it was. Nothing else ends it.
pub proof fn law_every_failure_ends_the_configuration(event: BootEvent)
    ensures
        event matches BootEvent::CpuConfigCreated(r) ==> match r {
            Ok(_) => boot_error(event) is None,
            Err(error) => boot_error(event) == Some(ConfigurationError::VcpuConfig(error)),
        },
        event matches BootEvent::CounterConfigured(r) ==> match r {
            Ok(_) => boot_error(event) is None,
            Err(error) => boot_error(event) == Some(ConfigurationError::Counter(error)),
        },
        event is TemplateApplied ==> boot_error(event) is None,
        event matches BootEvent::VcpuConfigured(r) ==> match r {
            Ok(_) => boot_error(event) is None,
            Err(error) => boot_error(event) == Some(ConfigurationError::VcpuConfigure(error)),
        },
        event matches BootEvent::ClidrOverridden(r) ==> match r {
            Ok(_) => boot_error(event) is None,
            Err(error) => boot_error(event) == Some(error),
        },
        event matches BootEvent::MpidrRead(r) ==> match r {
            Ok(_) => boot_error(event) is None,
            Err(error) => boot_error(event) == Some(
                ConfigurationError::VcpuConfigure(KvmVcpuError::ConfigureRegisters(error)),
            ),
        },
        event matches BootEvent::FdtCreated(r) ==> match r {
            Ok(_) => boot_error(event) is None,
            Err(error) => boot_error(event) == Some(ConfigurationError::SetupFDT(error)),
        },
        event matches BootEvent::FdtWritten(r) ==> match r {
            Ok(_) => boot_error(event) is None,
            Err(error) => boot_error(event) == Some(ConfigurationError::MemoryError(error)),
        },
{
}

/// Each event fits one kind of step, and each step but the last has an event that fits it.
pub proof fn law_events_belong_to_steps(step: BootStep, event: BootEvent)
    ensures
        event_fits(step, event) <==> {
            ||| step is CreateCpuConfig && event is CpuConfigCreated
            ||| step is ConfigureCounter && event is CounterConfigured
            ||| step is ApplyTemplate && event is TemplateApplied
            ||| step is ConfigureVcpu && event is VcpuConfigured
            ||| step is OverrideClidr && event is ClidrOverridden
            ||| step is ReadMpidr && event is MpidrRead
            ||| step is CreateFdt && event is FdtCreated
            ||| step is WriteFdt && event is FdtWritten
        },
{
}

/// A configuration in progress has a vCPU for each step that names one, and as many affinities as
/// were due: none before the first is read, `i` when that of vCPU `i` is due, and one for each vCPU
/// from the device tree on.
pub proof fn law_affinities_are_complete(sequence: BootSequence)
    ensures
        sequence.wf() <==> {
            &&& 1 <= sequence.vcpu_count
            &&& match sequence.step {
                BootStep::ReadMpidr(i) => i < sequence.vcpu_count && sequence.mpidrs@.len() == i,
                BootStep::CreateFdt | BootStep::WriteFdt(_) | BootStep::Done => {
                    sequence.mpidrs@.len() == sequence.vcpu_count
                },
                BootStep::ConfigureVcpu(i) => {
                    i < sequence.vcpu_count && sequence.mpidrs@.len() == 0
                },
                _ => sequence.mpidrs@.len() == 0,
            }
        },
{
}

/// [`BootSequence::advance`] keeps the number of vCPUs and the boot mode, adds an affinity that was
/// read behind those before it, keeps the device tree that was built, and goes on to the next step,
/// unless what it is given is a failure.
pub proof fn law_a_configuration_collects_what_it_is_given(
    sequence: BootSequence,
    event: BootEvent,
    guest_memory: GuestMemory,
    r: Result<BootSequence, ConfigurationError>,
)
    requires
        call_ensures(BootSequence::advance, (sequence, event, &guest_memory), r),
    ensures
        r is Err <==> boot_error(event) is Some,
        r matches Err(error) ==> boot_error(event) == Some(error),
        r matches Ok(next) ==> {
            &&& next.vcpu_count == sequence.vcpu_count
            &&& next.boot_mode == sequence.boot_mode
            &&& event matches BootEvent::MpidrRead(Ok(mpidr)) ==> next.mpidrs@
                == sequence.mpidrs@.push(mpidr)
            &&& !(event is MpidrRead) ==> next.mpidrs@ == sequence.mpidrs@
            &&& event matches BootEvent::FdtCreated(Ok(fdt)) ==> next.fdt@ == fdt@
            &&& !(event is FdtCreated) ==> next.fdt@ == sequence.fdt@
            &&& next.step == next_step(
                sequence.step,
                sequence.vcpu_count as int,
                fdt_load_addr(guest_memory@),
            )
        },
{
}

/// A kernel is started at the address at which it was loaded, by the Linux boot protocol.
pub proof fn law_a_kernel_starts_where_it_was_loaded(
    entry_addr: GuestAddress,
    error: linux_loader::loader::Error,
    r: Result<EntryPoint, ConfigurationError>,
    failed: Result<EntryPoint, ConfigurationError>,
)
    requires
        call_ensures(kernel_entry_point, (Ok(entry_addr),), r),
        call_ensures(kernel_entry_point, (Err(error),), failed),
    ensures
        r matches Ok(entry) && entry.entry_addr == entry_addr && entry.protocol is LinuxBoot,
        failed == Err::<EntryPoint, _>(ConfigurationError::KernelLoader(error)),
{
}

/// [`configure_system_for_boot`] begins with the initialization of the vCPUs, if
/// [`resolve_arm_boot_mode`] finds a boot mode for them, and keeps this mode. If it does not, the
/// configuration ends with what [`configuration_error_from_feature_validation`] makes of it.
pub proof fn law_a_configuration_begins_with_a_boot_mode(
    cpu_template: &CustomCpuTemplate,
    words: &[u32],
    r: Result<BootSequence, ConfigurationError>,
    resolved: Result<ArmBootMode, ArmFeatureValidationError>,
    rejected: ConfigurationError,
)
    requires
        call_ensures(configure_system_for_boot, (cpu_template, words), r),
        call_ensures(resolve_arm_boot_mode, (cpu_template, words), resolved),
        resolved matches Err(error) ==> call_ensures(
            configuration_error_from_feature_validation,
            (error,),
            rejected,
        ),
    ensures
        resolved is Err ==> r == Err::<BootSequence, _>(rejected),
        resolved matches Ok(boot_mode) ==> (r matches Ok(sequence) && {
            &&& sequence.boot_mode == boot_mode
            &&& sequence.vcpu_count == words@.len()
            &&& sequence.step is CreateCpuConfig
            &&& sequence.mpidrs@.len() == 0
            &&& sequence.fdt@.len() == 0
        }),
{
    let effective = effective_words(words@, cpu_template.vcpu_features@);
    let allowed = feature_mask(KVM_ARM_VCPU_POWER_OFF);
    let verdict = choose|verdict| #[trigger]
        is_verdict(effective, allowed, verdict) && match verdict {
            Err(error) => r == Err::<BootSequence, _>(feature_configuration_error(error)),
            Ok(boot_mode) => {
                &&& r matches Ok(sequence)
                &&& sequence.wf()
                &&& sequence.vcpu_count == words@.len()
                &&& sequence.boot_mode == boot_mode
                &&& sequence.step == BootStep::CreateCpuConfig
                &&& sequence.mpidrs@ == Seq::<u64>::empty()
                &&& sequence.fdt@ == Seq::<u8>::empty()
            },
        };
    law_verdict_is_unique(effective, allowed, verdict, resolved);
}

} // verus!
