use std::mem::size_of;

use kvm_bindings::kvm_one_reg;
use vmm_aarch64::cpu_template::KvmCapability;
use vmm_aarch64::errno::Errno;
use vmm_aarch64::error::CounterError;
use vmm_aarch64::kvm::{
    checked_capability, offset_reply, write_operation, Kvm, KVM_ARM_SET_COUNTER_OFFSET,
};
use vmm_aarch64::regs::{KVM_REG_ARM_TIMER_CNT, KVM_REG_ARM_TIMER_CVAL, SYS_CNTPCT_EL0};
use vmm_sys_util::eventfd::EventFd;

const UAPI_SYS_CNTPCT_EL0: u64 = 0x6030_0000_0013_df01;
const UAPI_KVM_REG_ARM_TIMER_CVAL: u64 = 0x6030_0000_0013_df02;
const UAPI_KVM_REG_ARM_TIMER_CNT: u64 = 0x6030_0000_0013_df1a;

fn kvm_get_one_reg() -> u64 {
    write_operation(0xab, size_of::<kvm_one_reg>() as u32)
}

#[test]
fn counter_offset_ioctl_matches_the_linux_uapi() {
    assert_eq!(SYS_CNTPCT_EL0, UAPI_SYS_CNTPCT_EL0);
    // The virtual timer IDs intentionally preserve KVM's swapped UAPI,
    // rather than using the registers' architectural encodings.
    assert_eq!(KVM_REG_ARM_TIMER_CVAL, UAPI_KVM_REG_ARM_TIMER_CVAL);
    assert_eq!(KVM_REG_ARM_TIMER_CNT, UAPI_KVM_REG_ARM_TIMER_CNT);
    assert_eq!(kvm_get_one_reg(), 0x4010_aeab);
    assert_eq!(kvm_get_one_reg(), 1_074_835_115);
    assert_eq!(KVM_ARM_SET_COUNTER_OFFSET(), 0x4010_aeb5);
    assert_eq!(KVM_ARM_SET_COUNTER_OFFSET(), 1_074_835_125);
}

#[test]
fn capability_result_distinguishes_unsupported_from_ioctl_failure() {
    assert!(!checked_capability(0).unwrap());
    assert!(checked_capability(1).unwrap());
    checked_capability(-1).unwrap_err();
}

#[test]
fn the_counter_offset_capability_is_asked_for() {
    let kvm = Kvm::init_arch("kvm", vec![KvmCapability::Add(5)]).unwrap();
    assert_eq!(kvm.fd, "kvm");
    assert_eq!(kvm.kvm_cap_modifiers, [KvmCapability::Add(5)]);

    let supported = kvm.supports_counter_offset(|fd, capability| {
        assert_eq!(*fd, "kvm");
        assert_eq!(capability, 227);
        1
    });
    assert_eq!(supported, Ok(true));
    assert_eq!(kvm.supports_counter_offset(|_, _| 0), Ok(false));
    assert!(kvm.supports_counter_offset(|_, _| -1).is_err());
}

#[test]
fn a_failed_question_gives_the_error_of_the_system() {
    // Reading an event that has not come fails with `EAGAIN`, which is left as the last error.
    let event = EventFd::new(libc::EFD_NONBLOCK).unwrap();
    event.read().unwrap_err();
    assert_eq!(checked_capability(-1), Err(Errno::new(11)));
    assert_eq!(Errno::last().errno(), 11);
    assert_eq!(offset_reply(0), Ok(()));
    assert_eq!(
        offset_reply(-1),
        Err(CounterError::SetCounterOffset(Errno::new(11)))
    );
}

#[test]
fn operation_numbers_have_four_parts() {
    // Direction 1, size 8, kind 0xae and number 1.
    assert_eq!(write_operation(1, 8), 0x4008_ae01);
    assert_eq!(write_operation(0, 0), 0x4000_ae00);
}
