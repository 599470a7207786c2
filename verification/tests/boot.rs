use vmm_aarch64::boot::{
    configure_system_for_boot, kernel_entry_point, BootEvent, BootProtocol, BootSequence, BootStep,
    EntryPoint,
};
use vmm_aarch64::cpu_template::CustomCpuTemplate;
use vmm_aarch64::errno::Errno;
use vmm_aarch64::error::{
    CacheInfoError, ConfigurationError, CounterError, CpuConfigurationError, FdtError,
    KvmVcpuError,
};
use vmm_aarch64::features::{
    cpu_template_with_nv2, ArmBootMode, KVM_ARM_VCPU_HAS_EL2, KVM_ARM_VCPU_HAS_EL2_E2H0,
};
use vmm_aarch64::layout::{DRAM_MEM_START, FDT_MAX_SIZE};
use vmm_aarch64::memory::{GuestAddress, GuestMemory};
use vmm_aarch64::regions::arch_memory_regions;

fn guest_memory() -> GuestMemory {
    GuestMemory::from_dram_ranges(&arch_memory_regions(1 << 28))
}

/// The event with which a step succeeds.
fn success(step: BootStep) -> BootEvent {
    match step {
        BootStep::CreateCpuConfig => BootEvent::CpuConfigCreated(Ok(())),
        BootStep::ConfigureCounter => BootEvent::CounterConfigured(Ok(())),
        BootStep::ApplyTemplate => BootEvent::TemplateApplied,
        BootStep::ConfigureVcpu(_) => BootEvent::VcpuConfigured(Ok(())),
        BootStep::OverrideClidr => BootEvent::ClidrOverridden(Ok(())),
        BootStep::ReadMpidr(index) => BootEvent::MpidrRead(Ok(0x8000_0000 + index as u64)),
        BootStep::CreateFdt => BootEvent::FdtCreated(Ok(vec![0xd0, 0x0d])),
        BootStep::WriteFdt(_) => BootEvent::FdtWritten(Ok(())),
        BootStep::Done => unreachable!("no step is due"),
    }
}

/// Runs a configuration with two vCPUs up to `step`.
fn sequence_at(step: BootStep) -> BootSequence {
    let memory = guest_memory();
    let mut sequence = configure_system_for_boot(&CustomCpuTemplate::default(), &[0, 1]).unwrap();
    while sequence.step != step {
        let event = success(sequence.step);
        sequence = sequence.advance(event, &memory).unwrap();
    }
    sequence
}

#[test]
fn steps_come_in_order() {
    let memory = guest_memory();
    let mut sequence = configure_system_for_boot(&CustomCpuTemplate::default(), &[0, 1]).unwrap();
    let mut steps = vec![sequence.step];
    while sequence.step != BootStep::Done {
        let event = success(sequence.step);
        sequence = sequence.advance(event, &memory).unwrap();
        steps.push(sequence.step);
    }
    assert_eq!(
        steps,
        [
            BootStep::CreateCpuConfig,
            BootStep::ConfigureCounter,
            BootStep::ApplyTemplate,
            BootStep::ConfigureVcpu(0),
            BootStep::ConfigureVcpu(1),
            BootStep::OverrideClidr,
            BootStep::ReadMpidr(0),
            BootStep::ReadMpidr(1),
            BootStep::CreateFdt,
            BootStep::WriteFdt(GuestAddress(
                DRAM_MEM_START + (1 << 28) - FDT_MAX_SIZE as u64
            )),
            BootStep::Done,
        ]
    );
    assert_eq!(sequence.mpidrs, [0x8000_0000, 0x8000_0001]);
    assert_eq!(sequence.fdt, [0xd0, 0x0d]);
    assert_eq!(sequence.boot_mode, ArmBootMode::El1);
    assert_eq!(sequence.vcpu_count, 2);
}

#[test]
fn nested_virtualization_boots_at_el2() {
    let template = cpu_template_with_nv2(&CustomCpuTemplate::default(), true);
    let sequence = configure_system_for_boot(&template, &[0]).unwrap();
    assert_eq!(sequence.boot_mode, ArmBootMode::El2Vhe);
}

#[test]
fn rejected_features_end_the_configuration_before_it_begins() {
    let template = CustomCpuTemplate::default();
    assert!(matches!(
        configure_system_for_boot(&template, &[]),
        Err(ConfigurationError::Counter(CounterError::NoBootVcpu))
    ));
    assert!(matches!(
        configure_system_for_boot(&template, &[1 << KVM_ARM_VCPU_HAS_EL2_E2H0]),
        Err(ConfigurationError::VcpuConfigure(KvmVcpuError::Init(Errno(22))))
    ));
    assert!(matches!(
        configure_system_for_boot(&template, &[0, 1 << KVM_ARM_VCPU_HAS_EL2]),
        Err(ConfigurationError::VcpuConfigure(KvmVcpuError::Init(Errno(22))))
    ));
}

#[test]
fn failed_steps_end_the_configuration() {
    let memory = guest_memory();
    assert!(matches!(
        sequence_at(BootStep::CreateCpuConfig).advance(
            BootEvent::CpuConfigCreated(Err(CpuConfigurationError("regs".to_string()))),
            &memory,
        ),
        Err(ConfigurationError::VcpuConfig(CpuConfigurationError(_)))
    ));
    assert!(matches!(
        sequence_at(BootStep::ConfigureCounter).advance(
            BootEvent::CounterConfigured(Err(CounterError::SetCounterOffset(Errno(22)))),
            &memory,
        ),
        Err(ConfigurationError::Counter(CounterError::SetCounterOffset(Errno(22))))
    ));
    assert!(matches!(
        sequence_at(BootStep::ConfigureVcpu(1)).advance(
            BootEvent::VcpuConfigured(Err(KvmVcpuError::Init(Errno(5)))),
            &memory,
        ),
        Err(ConfigurationError::VcpuConfigure(KvmVcpuError::Init(Errno(5))))
    ));
    assert!(matches!(
        sequence_at(BootStep::OverrideClidr).advance(
            BootEvent::ClidrOverridden(Err(ConfigurationError::CacheInfo(CacheInfoError(
                "sysfs".to_string()
            )))),
            &memory,
        ),
        Err(ConfigurationError::CacheInfo(_))
    ));
    assert!(matches!(
        sequence_at(BootStep::ReadMpidr(0)).advance(BootEvent::MpidrRead(Err(Errno(14))), &memory),
        Err(ConfigurationError::VcpuConfigure(
            KvmVcpuError::ConfigureRegisters(Errno(14))
        ))
    ));
    assert!(matches!(
        sequence_at(BootStep::CreateFdt).advance(
            BootEvent::FdtCreated(Err(FdtError("property".to_string()))),
            &memory,
        ),
        Err(ConfigurationError::SetupFDT(FdtError(_)))
    ));
    let address = GuestAddress(DRAM_MEM_START + (1 << 28) - FDT_MAX_SIZE as u64);
    assert!(matches!(
        sequence_at(BootStep::WriteFdt(address)).advance(
            BootEvent::FdtWritten(Err(vm_memory::GuestMemoryError::InvalidGuestAddress(
                vm_memory::GuestAddress(address.0)
            ))),
            &memory,
        ),
        Err(ConfigurationError::MemoryError(
            vm_memory::GuestMemoryError::InvalidGuestAddress(_)
        ))
    ));
}

#[test]
fn a_kernel_starts_where_it_was_loaded() {
    assert_eq!(
        kernel_entry_point(Ok(GuestAddress(0x8020_0000))).unwrap(),
        EntryPoint {
            entry_addr: GuestAddress(0x8020_0000),
            protocol: BootProtocol::LinuxBoot
        }
    );
    assert!(matches!(
        kernel_entry_point(Err(linux_loader::loader::Error::MemoryOverflow)),
        Err(ConfigurationError::KernelLoader(
            linux_loader::loader::Error::MemoryOverflow
        ))
    ));
}
