//! Errors of the vCPU, virtual machine and boot configuration.

use vstd::prelude::*;

use crate::errno::Errno;

verus! {

/// The error type of `vm_memory`: a failed access to guest memory.
#[verifier::external_type_specification]
#[verifier::external_body]
pub struct ExGuestMemoryError(vm_memory::GuestMemoryError);

/// The error type of `linux_loader`: a kernel image that could not be loaded.
#[verifier::external_type_specification]
#[verifier::external_body]
pub struct ExLoaderError(linux_loader::loader::Error);

/// The error type of `vm_allocator`: a resource that could not be managed.
#[verifier::external_type_specification]
#[verifier::external_body]
pub struct ExAllocatorError(vm_allocator::Error);

/// Failures while owning the Arm generic-counter domain.
#[derive(Clone, Copy, Debug, PartialEq, Eq)]
pub enum CounterError {
    /// The counter-offset capability is required for this operation.
    Unsupported,
    /// The counter-offset capability could not be queried.
    CheckCapability(Errno),
    /// The counter domain has not been configured.
    Uninitialized,
    /// The counter domain has already been configured.
    AlreadyConfigured,
    /// The counter domain is already paused.
    AlreadyPaused,
    /// The counter domain is not paused.
    NotPaused,
    /// The counter domain entered an unrecoverable lifecycle state.
    Faulted,
    /// The pause point changed, from the first value to the second, while snapshot state was
    /// collected.
    SnapshotPausePointChanged(u64, u64),
    /// The snapshot contains no vCPU state.
    NoVcpuState,
    /// No boot vCPU is available for a counter operation.
    NoBootVcpu,
    /// The state of this vCPU has no saved physical counter.
    MissingSavedCounter(usize),
    /// The state of this vCPU has more than one saved physical counter.
    DuplicateSavedCounter(usize),
    /// The state of this vCPU has no saved virtual counter.
    MissingSavedVirtualCounter(usize),
    /// The state of this vCPU has more than one saved virtual counter.
    DuplicateSavedVirtualCounter(usize),
    /// The number of saved vCPU states, which comes first, is not that of configured vCPUs.
    VcpuStateCount(usize, usize),
    /// The physical counter could not be read.
    ReadCounter(Errno),
    /// The counter offset could not be set.
    SetCounterOffset(Errno),
    /// A failure that a simulated counter backend reports.
    Injected(&'static str),
}

/// Why the initialization features of the vCPUs are rejected.
#[derive(Clone, Copy, Debug, PartialEq, Eq, Structural)]
pub enum ArmFeatureValidationError {
    /// No boot vCPU is available.
    NoBootVcpu,
    /// A vCPU asks for EL2 without the host extensions, which nested virtualization needs.
    UnsupportedE2h0,
    /// The features of some vCPU are not those of the boot vCPU.
    InconsistentVcpuFeatures,
}

/// Failures of a vCPU.
#[derive(Clone, Copy, Debug, PartialEq, Eq)]
pub enum KvmVcpuError {
    /// The vCPU could not be initialized.
    Init(Errno),
    /// The registers of the vCPU could not be read or written.
    ConfigureRegisters(Errno),
}

/// A device tree that could not be built, in words.
#[derive(Debug, PartialEq, Eq)]
pub struct FdtError(pub String);

/// A CPU configuration that could not be read, in words.
#[derive(Debug, PartialEq, Eq)]
pub struct CpuConfigurationError(pub String);

/// Cache information of the host that could not be read, in words.
#[derive(Debug, PartialEq, Eq)]
pub struct CacheInfoError(pub String);

/// Errors while configuring an aarch64 system.
#[derive(Debug)]
pub enum ConfigurationError {
    /// The device tree could not be built.
    SetupFDT(FdtError),
    /// Guest memory could not be written.
    MemoryError(vm_memory::GuestMemoryError),
    /// The descriptor of the kernel file could not be copied.
    KernelFile,
    /// The kernel could not be loaded.
    KernelLoader(linux_loader::loader::Error),
    /// The vCPU configuration could not be created.
    VcpuConfig(CpuConfigurationError),
    /// A vCPU could not be configured.
    VcpuConfigure(KvmVcpuError),
    /// The cache information of the host could not be read.
    CacheInfo(CacheInfoError),
    /// The VM-wide generic-counter domain could not be configured.
    Counter(CounterError),
}

/// Errors of a virtual machine. `E` is the error type of the interrupt controller.
#[derive(Debug, PartialEq, Eq)]
pub enum KvmVmError<E> {
    /// The interrupt controller could not be created.
    VmCreateGIC(E),
    /// The state of the interrupt controller could not be saved.
    SaveGic(E),
    /// The state of the interrupt controller could not be restored.
    RestoreGic(E),
    /// The resource allocator could not be restored.
    ResourceAllocator(vm_allocator::Error),
}

} // verus!
