use vmm_aarch64::cpu_template::{
    CustomCpuTemplate, KvmCapability, RegisterValueFilter, VcpuFeatures,
};
use vmm_aarch64::errno::Errno;
use vmm_aarch64::error::{
    ArmFeatureValidationError, ConfigurationError, CounterError, KvmVcpuError,
};
use vmm_aarch64::features::{
    arm_boot_mode, configuration_error_from_feature_validation, cpu_template_with_nv2,
    effective_vcpu_feature_word, resolve_arm_boot_mode, validate_restored_vcpu_feature_words,
    validate_vcpu_feature_words, ArmBootMode, KVM_ARM_VCPU_HAS_EL2, KVM_ARM_VCPU_HAS_EL2_E2H0,
    KVM_ARM_VCPU_POWER_OFF,
};

#[test]
fn test_cpu_template_with_nv2_selects_vhe() {
    let original = CustomCpuTemplate::default();

    assert_eq!(cpu_template_with_nv2(&original, false), original);

    let enabled = cpu_template_with_nv2(&original, true);
    assert_eq!(original, CustomCpuTemplate::default());
    assert_eq!(enabled.vcpu_features.len(), 1);

    let nv2 = &enabled.vcpu_features[0];
    let has_el2 = 1 << KVM_ARM_VCPU_HAS_EL2;
    let has_el2_e2h0 = 1 << KVM_ARM_VCPU_HAS_EL2_E2H0;
    assert_eq!(nv2.index, 0);
    assert_eq!(nv2.bitmap.filter, has_el2 | has_el2_e2h0);
    assert_eq!(nv2.bitmap.value, has_el2);
    assert_eq!(nv2.bitmap.value & has_el2_e2h0, 0);
}

fn feature_modifier(filter: u32, value: u32) -> VcpuFeatures {
    VcpuFeatures {
        index: 0,
        bitmap: RegisterValueFilter { filter, value },
    }
}

#[test]
fn test_effective_has_el2_drives_boot_mode() {
    let has_el2 = 1 << KVM_ARM_VCPU_HAS_EL2;
    let cpu_template = CustomCpuTemplate {
        vcpu_features: vec![feature_modifier(has_el2, has_el2)],
        ..Default::default()
    };

    let boot_mode = resolve_arm_boot_mode(&cpu_template, &[0]).unwrap();

    assert_eq!(boot_mode, ArmBootMode::El2Vhe);
}

#[test]
fn test_e2h0_boot_mode_is_rejected() {
    let has_el2 = 1 << KVM_ARM_VCPU_HAS_EL2;
    let has_el2_e2h0 = 1 << KVM_ARM_VCPU_HAS_EL2_E2H0;
    let cpu_template = CustomCpuTemplate {
        vcpu_features: vec![feature_modifier(
            has_el2 | has_el2_e2h0,
            has_el2 | has_el2_e2h0,
        )],
        ..Default::default()
    };

    assert!(matches!(
        resolve_arm_boot_mode(&cpu_template, &[0]),
        Err(ArmFeatureValidationError::UnsupportedE2h0)
    ));
}

#[test]
fn test_primary_initial_e2h0_is_rejected() {
    let has_el2_e2h0 = 1 << KVM_ARM_VCPU_HAS_EL2_E2H0;

    assert!(matches!(
        resolve_arm_boot_mode(&CustomCpuTemplate::default(), &[has_el2_e2h0],),
        Err(ArmFeatureValidationError::UnsupportedE2h0)
    ));
}

#[test]
fn test_template_can_clear_initial_has_el2() {
    let has_el2 = 1 << KVM_ARM_VCPU_HAS_EL2;
    let cpu_template = CustomCpuTemplate {
        vcpu_features: vec![feature_modifier(has_el2, 0)],
        ..Default::default()
    };

    let boot_mode = resolve_arm_boot_mode(&cpu_template, &[has_el2]).unwrap();

    assert_eq!(boot_mode, ArmBootMode::El1);
}

#[test]
fn test_cli_nv2_modifier_is_last_and_selects_vhe() {
    let has_el2 = 1 << KVM_ARM_VCPU_HAS_EL2;
    let has_el2_e2h0 = 1 << KVM_ARM_VCPU_HAS_EL2_E2H0;
    let cpu_template = CustomCpuTemplate {
        vcpu_features: vec![feature_modifier(
            has_el2 | has_el2_e2h0,
            has_el2 | has_el2_e2h0,
        )],
        ..Default::default()
    };

    let effective_template = cpu_template_with_nv2(&cpu_template, true);
    let boot_mode = resolve_arm_boot_mode(&effective_template, &[0]).unwrap();
    let effective_word = effective_vcpu_feature_word(0, &effective_template);

    assert_eq!(boot_mode, ArmBootMode::El2Vhe);
    assert_ne!(effective_word & has_el2, 0);
    assert_eq!(effective_word & has_el2_e2h0, 0);
}

#[test]
fn test_secondary_e2h0_is_rejected_before_vcpu_init() {
    let has_el2_e2h0 = 1 << KVM_ARM_VCPU_HAS_EL2_E2H0;
    let power_off = 1 << KVM_ARM_VCPU_POWER_OFF;

    assert!(matches!(
        resolve_arm_boot_mode(
            &CustomCpuTemplate::default(),
            &[0, power_off | has_el2_e2h0],
        ),
        Err(ArmFeatureValidationError::UnsupportedE2h0)
    ));
}

#[test]
fn test_divergent_vcpu_features_are_rejected_before_vcpu_init() {
    let has_el2 = 1 << KVM_ARM_VCPU_HAS_EL2;
    let power_off = 1 << KVM_ARM_VCPU_POWER_OFF;

    assert!(matches!(
        resolve_arm_boot_mode(&CustomCpuTemplate::default(), &[has_el2, power_off],),
        Err(ArmFeatureValidationError::InconsistentVcpuFeatures)
    ));
}

#[test]
fn test_secondary_power_off_is_an_allowed_feature_difference() {
    let power_off = 1 << KVM_ARM_VCPU_POWER_OFF;

    let boot_mode =
        resolve_arm_boot_mode(&CustomCpuTemplate::default(), &[0, power_off]).unwrap();

    assert_eq!(boot_mode, ArmBootMode::El1);
}

#[test]
fn test_restore_rejects_secondary_e2h0_before_any_vcpu_init() {
    let has_el2_e2h0 = 1 << KVM_ARM_VCPU_HAS_EL2_E2H0;

    assert!(matches!(
        validate_vcpu_feature_words(&[0, has_el2_e2h0], 0),
        Err(ArmFeatureValidationError::UnsupportedE2h0)
    ));
}

#[test]
fn test_restore_rejects_divergent_features_before_any_vcpu_init() {
    let has_el2 = 1 << KVM_ARM_VCPU_HAS_EL2;

    assert!(matches!(
        validate_vcpu_feature_words(&[has_el2, 0], 0),
        Err(ArmFeatureValidationError::InconsistentVcpuFeatures)
    ));
}


#[test]
fn changes_to_other_feature_words_are_left_out() {
    let cpu_template = CustomCpuTemplate {
        kvm_capabilities: vec![KvmCapability::Add(1)],
        vcpu_features: vec![
            feature_modifier(0b0011, 0b0001),
            VcpuFeatures {
                index: 1,
                bitmap: RegisterValueFilter {
                    filter: u32::MAX,
                    value: 0,
                },
            },
            feature_modifier(0b0100, 0b0100),
        ],
        ..Default::default()
    };
    assert_eq!(effective_vcpu_feature_word(0b1010, &cpu_template), 0b1101);
    let enabled = cpu_template_with_nv2(&cpu_template, true);
    assert_eq!(enabled.kvm_capabilities, [KvmCapability::Add(1)]);
    assert_eq!(enabled.vcpu_features.len(), 4);
    assert_eq!(effective_vcpu_feature_word(0b1010, &enabled), 0b1000_1101);
}

#[test]
fn the_first_faulty_word_decides() {
    let has_el2 = 1 << KVM_ARM_VCPU_HAS_EL2;
    let has_el2_e2h0 = 1 << KVM_ARM_VCPU_HAS_EL2_E2H0;
    assert_eq!(
        validate_vcpu_feature_words(&[], 0),
        Err(ArmFeatureValidationError::NoBootVcpu)
    );
    assert_eq!(
        validate_vcpu_feature_words(&[0, has_el2, has_el2_e2h0], 0),
        Err(ArmFeatureValidationError::InconsistentVcpuFeatures)
    );
    assert_eq!(
        validate_vcpu_feature_words(&[0, has_el2_e2h0, has_el2], 0),
        Err(ArmFeatureValidationError::UnsupportedE2h0)
    );
    assert_eq!(
        validate_vcpu_feature_words(&[has_el2, has_el2], 0),
        Ok(ArmBootMode::El2Vhe)
    );
    assert_eq!(arm_boot_mode(0), Ok(ArmBootMode::El1));
    assert_eq!(arm_boot_mode(has_el2), Ok(ArmBootMode::El2Vhe));
}

#[test]
fn rejected_features_are_configuration_errors() {
    assert!(matches!(
        configuration_error_from_feature_validation(ArmFeatureValidationError::NoBootVcpu),
        ConfigurationError::Counter(CounterError::NoBootVcpu)
    ));
    assert!(matches!(
        configuration_error_from_feature_validation(ArmFeatureValidationError::UnsupportedE2h0),
        ConfigurationError::VcpuConfigure(KvmVcpuError::Init(Errno(22)))
    ));
    assert!(matches!(
        configuration_error_from_feature_validation(
            ArmFeatureValidationError::InconsistentVcpuFeatures
        ),
        ConfigurationError::VcpuConfigure(KvmVcpuError::Init(Errno(22)))
    ));
}

#[test]
fn restored_words_must_agree_exactly() {
    let power_off = 1 << KVM_ARM_VCPU_POWER_OFF;
    assert!(validate_restored_vcpu_feature_words(&[4, 4, 4]).is_ok());
    assert!(matches!(
        validate_restored_vcpu_feature_words(&[0, power_off]),
        Err(ConfigurationError::VcpuConfigure(KvmVcpuError::Init(Errno(22))))
    ));
    assert!(matches!(
        validate_restored_vcpu_feature_words(&[]),
        Err(ConfigurationError::Counter(CounterError::NoBootVcpu))
    ));
}
