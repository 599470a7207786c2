//! The KVM device and the numbers by which its operations go.

#[allow(unused_imports)]
use vstd::bytes::{
    lemma_auto_spec_u64_to_from_le_bytes, spec_u64_from_le_bytes, spec_u64_to_le_bytes,
    u64_from_le_bytes,
};
use vstd::prelude::*;

use crate::cpu_template::KvmCapability;
use crate::errno::Errno;
use crate::error::CounterError;

verus! {

/// The number of the operation that sets the counter offset of a virtual machine.
const COUNTER_OFFSET_OPERATION: u32 = 0xb5;

/// The size of the argument of that operation: the offset and a reserved word.
const COUNTER_OFFSET_ARGUMENT_SIZE: u32 = 16;

/// The error of an initialization that cannot fail.
pub type KvmArchError = core::convert::Infallible;

/// A KVM device and what goes with it. `F` is the descriptor of the device.
#[derive(Debug)]
pub struct Kvm<F> {
    /// The descriptor of the device.
    pub fd: F,
    /// Additional capabilities that the CPU template asks for.
    pub kvm_cap_modifiers: Vec<KvmCapability>,
}

impl<F> Kvm<F> {
    /// Returns the device for this architecture, which needs no initialization.
    pub fn init_arch(fd: F, kvm_cap_modifiers: Vec<KvmCapability>) -> (r: Result<
        Kvm<F>,
        KvmArchError,
    >)
        ensures
            r == Ok::<_, KvmArchError>(Kvm { fd, kvm_cap_modifiers }),
    {
        Ok(Kvm { fd, kvm_cap_modifiers })
    }

    /// Returns whether KVM can offset the counter of a virtual machine.
    ///
    /// `check_extension` asks the device for a capability, and hands back what the device answers.
    /// A question that fails is an error: it says neither that the capability is there nor that it
    /// is not.
    pub fn supports_counter_offset(
        &self,
        check_extension: impl FnOnce(&F, u64) -> i32,
    ) -> (r: Result<bool, Errno>)
        requires
            call_requires(check_extension, (&self.fd, COUNTER_OFFSET_CAPABILITY)),
        ensures
            exists|answer: i32| #[trigger]
                call_ensures(check_extension, (&self.fd, COUNTER_OFFSET_CAPABILITY), answer)
                    && match r {
                    Ok(supported) => 0 <= answer && supported == (answer != 0),
                    Err(error) => answer < 0 && error.is_last(),
                },
    {
        let answer: i32 = check_extension(&self.fd, counter_offset_capability());
        checked_capability(answer)
    }
}

/// Returns what an answer of the device to a question for a capability says.
pub fn checked_capability(raw_result: i32) -> (r: Result<bool, Errno>)
    ensures
        match r {
            Ok(supported) => 0 <= raw_result && supported == (raw_result != 0),
            Err(error) => raw_result < 0 && error.is_last(),
        },
{
    if raw_result < 0 {
        Err(Errno::last())
    } else {
        Ok(raw_result != 0)
    }
}

/// Returns the counter that KVM gave, as the eight bytes of the register that holds it.
pub fn counter_reading(register: Result<[u8; 8], Errno>) -> (r: Result<u64, CounterError>)
    ensures
        r == match register {
            Ok(bytes) => Ok(spec_u64_from_le_bytes(bytes@)),
            Err(error) => Err(CounterError::ReadCounter(error)),
        },
{
    match register {
        Ok(bytes) => Ok(u64_from_le_bytes(bytes.as_slice())),
        Err(error) => Err(CounterError::ReadCounter(error)),
    }
}

/// Returns what an answer of KVM to a request for a counter offset says.
pub fn offset_reply(raw_result: i32) -> (r: Result<(), CounterError>)
    ensures
        match r {
            Ok(()) => 0 <= raw_result,
            Err(error) => {
                &&& raw_result < 0
                &&& error matches CounterError::SetCounterOffset(number)
                &&& number.is_last()
            },
        },
{
    if raw_result < 0 {
        return Err(CounterError::SetCounterOffset(Errno::last()));
    }
    Ok(())
}

/// The number of the capability to offset the counter of a virtual machine.
pub const COUNTER_OFFSET_CAPABILITY: u64 = 227;

/// Returns `kvm_bindings::KVM_CAP_COUNTER_OFFSET`, which is 227.
#[verifier::external_body]
fn counter_offset_capability() -> (capability: u64)
    ensures
        capability == 227,
{
    kvm_bindings::KVM_CAP_COUNTER_OFFSET as u64
}

/// The number of an operation that hands the kernel an argument: a direction in the highest two
/// bits, then the size of the argument, the kind of device and the number of the operation.
pub open spec fn operation_number(direction: u32, kind: u32, number: u32, size: u32) -> u32 {
    (direction << 30) | (kind << 8) | (number << 0) | (size << 16)
}

/// Calls `vmm_sys_util::ioctl::ioctl_expr`, which puts the four parts of the number of an operation
/// side by side.
#[verifier::external_body]
fn ioctl_expr(direction: u32, kind: u32, number: u32, size: u32) -> (operation: u64)
    ensures
        operation == operation_number(direction, kind, number, size),
{
    vmm_sys_util::ioctl::ioctl_expr(direction, kind, number, size)
}

/// Returns `kvm_bindings::KVMIO`, the kind of device that KVM is, which is 0xae.
#[verifier::external_body]
fn kvm_device_kind() -> (kind: u32)
    ensures
        kind == 0xae,
{
    kvm_bindings::KVMIO
}

/// Returns `vmm_sys_util::ioctl::_IOC_WRITE`, the direction from the caller to the kernel, which
/// is 1.
#[verifier::external_body]
fn write_direction() -> (direction: u32)
    ensures
        direction == 1,
{
    vmm_sys_util::ioctl::_IOC_WRITE
}

/// Returns the number of the KVM operation `number`, whose argument has `size` bytes and goes to
/// the kernel.
pub fn write_operation(number: u32, size: u32) -> (operation: u64)
    ensures
        operation == operation_number(1, 0xae, number, size),
        number < 0x100 && size < 0x4000 ==> operation == 0x4000_ae00 + size * 0x1_0000 + number,
{
    proof {
        if number < 0x100 && size < 0x4000 {
            law_operation_numbers_lie_side_by_side(1, 0xae, number, size);
        }
    }
    ioctl_expr(write_direction(), kvm_device_kind(), number, size)
}

/// Returns the number of the operation that sets the counter offset of a virtual machine.
#[allow(non_snake_case)]
pub fn KVM_ARM_SET_COUNTER_OFFSET() -> (operation: u64)
    ensures
        operation == 0x4010_aeb5,
{
    assert(operation_number(1, 0xae, 0xb5, 16) == 0x4010_aeb5) by (bit_vector);
    write_operation(COUNTER_OFFSET_OPERATION, COUNTER_OFFSET_ARGUMENT_SIZE)
}

/// The parts of the number of an operation lie side by side: the direction in the highest two bits,
/// then fourteen bits of the size of the argument, eight of the kind of device and eight of the
/// number.
pub proof fn law_operation_numbers_lie_side_by_side(
    direction: u32,
    kind: u32,
    number: u32,
    size: u32,
)
    requires
        direction < 0x4,
        size < 0x4000,
        kind < 0x100,
        number < 0x100,
    ensures
        operation_number(direction, kind, number, size) == direction * 0x4000_0000 + size * 0x1_0000
            + kind * 0x100 + number,
{
    assert((direction << 30) | (kind << 8) | (number << 0) | (size << 16) == direction * 0x4000_0000
        + size * 0x1_0000 + kind * 0x100 + number) by (bit_vector)
        requires
            direction < 0x4,
            size < 0x4000,
            kind < 0x100,
            number < 0x100,
    ;
}

/// A capability is there if the device answers with a positive number and is not if it answers with
/// zero. A negative answer tells neither.
pub proof fn law_answers_are_told_apart(raw_result: i32, r: Result<bool, Errno>)
    requires
        call_ensures(checked_capability, (raw_result,), r),
    ensures
        r is Err <==> raw_result < 0,
        raw_result == 0 ==> r == Ok::<bool, Errno>(false),
        raw_result > 0 ==> r == Ok::<bool, Errno>(true),
        r matches Err(error) ==> error.is_last(),
{
}

/// Setting the offset failed exactly if the answer is negative.
pub proof fn law_negative_replies_are_failures(raw_result: i32, r: Result<(), CounterError>)
    requires
        call_ensures(offset_reply, (raw_result,), r),
    ensures
        r is Err <==> raw_result < 0,
        r matches Err(error) ==> (error matches CounterError::SetCounterOffset(number)
            && number.is_last()),
{
}

/// The reading of a register that holds a counter, least significant byte first, is this counter,
/// and a failure to read it is handed on.
pub proof fn law_readings_are_what_the_register_holds(
    counter: u64,
    bytes: [u8; 8],
    error: Errno,
    r: Result<u64, CounterError>,
    failed: Result<u64, CounterError>,
)
    requires
        bytes@ == spec_u64_to_le_bytes(counter),
        call_ensures(counter_reading, (Ok(bytes),), r),
        call_ensures(counter_reading, (Err(error),), failed),
    ensures
        r == Ok::<u64, CounterError>(counter),
        failed == Err::<u64, _>(CounterError::ReadCounter(error)),
{
    lemma_auto_spec_u64_to_from_le_bytes();
}

/// The operation that sets the counter offset writes the 16 bytes of its argument to the device of
/// kind 0xae, as its operation number 0xb5.
pub proof fn law_the_counter_offset_operation(operation: u64, written: u64)
    requires
        call_ensures(KVM_ARM_SET_COUNTER_OFFSET, (), operation),
        call_ensures(write_operation, (0xb5, 16), written),
    ensures
        operation == 0x4000_0000 + 16 * 0x1_0000 + 0xae * 0x100 + 0xb5,
        written == operation,
{
    law_operation_numbers_lie_side_by_side(1, 0xae, 0xb5, 16);
}

/// A device has the descriptor and the capabilities that it was made from.
pub proof fn law_a_device_keeps_its_parts<F>(
    fd: F,
    kvm_cap_modifiers: Vec<KvmCapability>,
    r: Result<Kvm<F>, KvmArchError>,
)
    requires
        call_ensures(Kvm::<F>::init_arch, (fd, kvm_cap_modifiers), r),
    ensures
        r matches Ok(kvm) && kvm.fd == fd && kvm.kvm_cap_modifiers == kvm_cap_modifiers,
{
}

} // verus!
