use serde_json::{from_value, Value};
use vmm_aarch64::errno::Errno;
use vmm_aarch64::error::CounterError;
use vmm_aarch64::kvm::counter_reading;
use vmm_aarch64::regs::{
    reg_size, Aarch64RegisterRef, Aarch64RegisterVec, RegisterSizeMismatch, VcpuState,
};
use vmm_aarch64::saved_counters::{
    canonical_saved_counter, normalize_snapshot_counters, unique_saved_counter,
};

// Independent copies of the Linux UAPI values, so that constants which are wrong everywhere do not
// go unnoticed.
const UAPI_SYS_CNTPCT_EL0: u64 = 0x6030_0000_0013_df01;
const UAPI_KVM_REG_ARM_TIMER_CVAL: u64 = 0x6030_0000_0013_df02;
const UAPI_KVM_REG_ARM_TIMER_CNT: u64 = 0x6030_0000_0013_df1a;

fn state_with_counters(counters: &[u64]) -> VcpuState {
    let mut regs = Aarch64RegisterVec::default();
    for counter in counters {
        regs.push(Aarch64RegisterRef::new(
            UAPI_SYS_CNTPCT_EL0,
            &counter.to_le_bytes(),
        ));
    }
    VcpuState {
        regs,
        ..Default::default()
    }
}

fn state_with_counter_domain(physical: &[u64], virtual_: &[u64]) -> VcpuState {
    let mut state = state_with_counters(physical);
    for counter in virtual_ {
        state.regs.push(Aarch64RegisterRef::new(
            UAPI_KVM_REG_ARM_TIMER_CNT,
            &counter.to_le_bytes(),
        ));
    }
    state
}

fn saved_counter(state: &VcpuState, register_id: u64) -> u64 {
    (0..state.regs.len())
        .map(|index| state.regs.get(index))
        .find(|register| register.id == register_id)
        .expect("test state must contain the requested counter")
        .value()
}

#[test]
fn saved_counter_requires_exactly_one_vcpu0_register() {
    assert!(matches!(
        canonical_saved_counter(&[]),
        Err(CounterError::NoVcpuState)
    ));
    assert!(matches!(
        canonical_saved_counter(&[state_with_counters(&[])]),
        Err(CounterError::MissingSavedCounter(0))
    ));
    assert!(matches!(
        canonical_saved_counter(&[state_with_counters(&[1, 2])]),
        Err(CounterError::DuplicateSavedCounter(0))
    ));

    let states = [state_with_counters(&[11]), state_with_counters(&[99])];
    assert_eq!(canonical_saved_counter(&states).unwrap(), 11);
}

#[test]
fn snapshot_counters_are_normalized_to_the_common_pause_point() {
    let mut states = [
        state_with_counter_domain(&[130], &[110]),
        state_with_counter_domain(&[135], &[105]),
    ];
    states[0].regs.push(Aarch64RegisterRef::new(
        UAPI_KVM_REG_ARM_TIMER_CVAL,
        &900_u64.to_le_bytes(),
    ));
    states[1].regs.push(Aarch64RegisterRef::new(
        UAPI_KVM_REG_ARM_TIMER_CVAL,
        &901_u64.to_le_bytes(),
    ));

    normalize_snapshot_counters(&mut states, 100).unwrap();

    assert_eq!(saved_counter(&states[0], UAPI_SYS_CNTPCT_EL0), 100);
    assert_eq!(saved_counter(&states[0], UAPI_KVM_REG_ARM_TIMER_CNT), 80);
    assert_eq!(saved_counter(&states[0], UAPI_KVM_REG_ARM_TIMER_CVAL), 900);
    assert_eq!(saved_counter(&states[1], UAPI_SYS_CNTPCT_EL0), 100);
    assert_eq!(saved_counter(&states[1], UAPI_KVM_REG_ARM_TIMER_CNT), 70);
    assert_eq!(saved_counter(&states[1], UAPI_KVM_REG_ARM_TIMER_CVAL), 901);
}

#[test]
fn snapshot_counter_normalization_rejects_incomplete_domains() {
    assert!(matches!(
        normalize_snapshot_counters(&mut [], 0),
        Err(CounterError::NoVcpuState)
    ));

    let mut missing_virtual = [state_with_counter_domain(&[10], &[])];
    assert!(matches!(
        normalize_snapshot_counters(&mut missing_virtual, 5),
        Err(CounterError::MissingSavedVirtualCounter(0))
    ));

    let mut duplicate_virtual = [state_with_counter_domain(&[10], &[8, 9])];
    assert!(matches!(
        normalize_snapshot_counters(&mut duplicate_virtual, 5),
        Err(CounterError::DuplicateSavedVirtualCounter(0))
    ));
}

#[test]
fn malformed_saved_counter_is_rejected_during_deserialization() {
    let malformed = Value::Array(vec![
        Value::Array(vec![Value::from(UAPI_SYS_CNTPCT_EL0)]),
        Value::Array(vec![
            Value::from(1),
            Value::from(2),
            Value::from(3),
            Value::from(4),
        ]),
    ]);
    let (ids, data) = from_value::<(Vec<u64>, Vec<u8>)>(malformed).unwrap();
    assert_eq!(
        Aarch64RegisterVec::from_parts(&ids, &data).unwrap_err(),
        RegisterSizeMismatch
    );
}

#[test]
fn registers_are_split_by_the_sizes_in_their_identifiers() {
    // An eight-byte register, a four-byte one and another of eight bytes.
    let ids = [
        UAPI_SYS_CNTPCT_EL0,
        0x6020_0000_0010_00d4,
        UAPI_KVM_REG_ARM_TIMER_CNT,
    ];
    assert_eq!(reg_size(ids[0]), 8);
    assert_eq!(reg_size(ids[1]), 4);
    assert_eq!(reg_size(0x6040_0000_0010_0040), 16);

    let data: Vec<u8> = (0..20).collect();
    let regs = Aarch64RegisterVec::from_parts(&ids, &data).unwrap();
    assert_eq!(regs.len(), 3);
    assert_eq!(regs.get(0).value(), 0x0706_0504_0302_0100);
    assert_eq!(regs.get(1).data, [8, 9, 10, 11]);
    assert_eq!(regs.get(2).id, UAPI_KVM_REG_ARM_TIMER_CNT);
    assert_eq!(regs.get(2).data, [12, 13, 14, 15, 16, 17, 18, 19]);

    assert!(Aarch64RegisterVec::from_parts(&ids, &data[..19]).is_err());
    let mut longer = data.clone();
    longer.push(0);
    assert!(Aarch64RegisterVec::from_parts(&ids, &longer).is_err());
    assert_eq!(Aarch64RegisterVec::from_parts(&[], &[]).unwrap().len(), 0);
}

#[test]
fn counters_are_little_endian() {
    assert_eq!(
        counter_reading(Ok([1, 2, 0, 0, 0, 0, 0, 0x80])),
        Ok(0x8000_0000_0000_0201)
    );
    assert_eq!(
        counter_reading(Err(Errno(5))),
        Err(CounterError::ReadCounter(Errno(5)))
    );
    let mut regs = Aarch64RegisterVec::default();
    regs.push(Aarch64RegisterRef::new(UAPI_SYS_CNTPCT_EL0, &[0; 8]));
    regs.set_value(0, 0x8000_0000_0000_0201);
    assert_eq!(regs.get(0).data, [1, 2, 0, 0, 0, 0, 0, 0x80]);
}

#[test]
fn errors_name_the_counter_and_the_vcpu() {
    let state = state_with_counter_domain(&[], &[1, 2]);
    assert_eq!(
        unique_saved_counter(&state, 3, UAPI_SYS_CNTPCT_EL0),
        Err(CounterError::MissingSavedCounter(3))
    );
    assert_eq!(
        unique_saved_counter(&state, 3, UAPI_KVM_REG_ARM_TIMER_CNT),
        Err(CounterError::DuplicateSavedVirtualCounter(3))
    );
    let state = state_with_counter_domain(&[5, 6, 7], &[]);
    assert_eq!(
        unique_saved_counter(&state, 2, UAPI_SYS_CNTPCT_EL0),
        Err(CounterError::DuplicateSavedCounter(2))
    );
    assert_eq!(
        unique_saved_counter(&state, 2, UAPI_KVM_REG_ARM_TIMER_CNT),
        Err(CounterError::MissingSavedVirtualCounter(2))
    );
}

#[test]
fn normalization_stops_at_the_first_faulty_vcpu() {
    let mut states = [
        state_with_counter_domain(&[130], &[110]),
        state_with_counter_domain(&[140], &[]),
        state_with_counter_domain(&[150], &[150]),
    ];
    assert_eq!(
        normalize_snapshot_counters(&mut states, 100),
        Err(CounterError::MissingSavedVirtualCounter(1))
    );
    assert_eq!(saved_counter(&states[0], UAPI_SYS_CNTPCT_EL0), 100);
    assert_eq!(saved_counter(&states[1], UAPI_SYS_CNTPCT_EL0), 140);
    assert_eq!(saved_counter(&states[2], UAPI_SYS_CNTPCT_EL0), 150);
}

#[test]
fn normalization_wraps_and_is_idempotent() {
    // The physical counter has wrapped since the pause, the virtual one is far from it.
    let mut states = [state_with_counter_domain(&[3], &[1])];
    normalize_snapshot_counters(&mut states, u64::MAX).unwrap();
    assert_eq!(saved_counter(&states[0], UAPI_SYS_CNTPCT_EL0), u64::MAX);
    assert_eq!(
        saved_counter(&states[0], UAPI_KVM_REG_ARM_TIMER_CNT),
        u64::MAX - 2
    );
    assert_eq!(canonical_saved_counter(&states), Ok(u64::MAX));

    normalize_snapshot_counters(&mut states, u64::MAX).unwrap();
    assert_eq!(saved_counter(&states[0], UAPI_SYS_CNTPCT_EL0), u64::MAX);
    assert_eq!(
        saved_counter(&states[0], UAPI_KVM_REG_ARM_TIMER_CNT),
        u64::MAX - 2
    );
}
