//! Initialization features of the vCPUs and the boot mode that they select.

use vstd::prelude::*;

use crate::cpu_template::{CustomCpuTemplate, RegisterValueFilter, VcpuFeatures};
use crate::errno::{invalid_argument, Errno};
use crate::error::{ArmFeatureValidationError, ConfigurationError, CounterError, KvmVcpuError};

verus! {

/// The feature bit with which a vCPU starts powered off.
pub const KVM_ARM_VCPU_POWER_OFF: u32 = 0;

/// The feature bit with which a vCPU has EL2.
pub const KVM_ARM_VCPU_HAS_EL2: u32 = 7;

/// The feature bit with which EL2 of a vCPU lacks the host extensions.
pub const KVM_ARM_VCPU_HAS_EL2_E2H0: u32 = 8;

/// The word whose one set bit is `bit`.
pub open spec fn feature_mask(bit: u32) -> u32 {
    1u32 << bit
}

/// Whether feature `bit` is set in `word`.
pub open spec fn has_feature(word: u32, bit: u32) -> bool {
    word & feature_mask(bit) != 0
}

/// Exception level and host-extension mode in which an Arm guest boots.
#[derive(Clone, Copy, Debug, PartialEq, Eq, Structural)]
pub enum ArmBootMode {
    /// The guest kernel boots at EL1.
    El1,
    /// The guest kernel boots at EL2 with the host extensions.
    El2Vhe,
}

/// The change that selects EL2 with the host extensions.
pub open spec fn nv2_features() -> VcpuFeatures {
    VcpuFeatures {
        index: 0,
        bitmap: RegisterValueFilter {
            filter: feature_mask(KVM_ARM_VCPU_HAS_EL2) | feature_mask(KVM_ARM_VCPU_HAS_EL2_E2H0),
            value: feature_mask(KVM_ARM_VCPU_HAS_EL2),
        },
    }
}

/// The feature changes of a template with features `features`, with nested virtualization or
/// without it.
pub open spec fn features_with_nv2(
    features: Seq<VcpuFeatures>,
    nv2_enabled: bool,
) -> Seq<VcpuFeatures> {
    if nv2_enabled {
        features.push(nv2_features())
    } else {
        features
    }
}

/// Returns the template that `cpu_template` becomes when nested virtualization is enabled, or
/// not: the change that selects EL2 with the host extensions comes after every other change.
pub fn cpu_template_with_nv2(
    cpu_template: &CustomCpuTemplate,
    nv2_enabled: bool,
) -> (template: CustomCpuTemplate)
    ensures
        template.kvm_capabilities@ == cpu_template.kvm_capabilities@,
        template.vcpu_features@ == features_with_nv2(cpu_template.vcpu_features@, nv2_enabled),
        template.reg_modifiers@ == cpu_template.reg_modifiers@,
        !nv2_enabled ==> template.vcpu_features@ == cpu_template.vcpu_features@,
        nv2_enabled ==> template.vcpu_features@.len() == cpu_template.vcpu_features@.len() + 1
            && template.vcpu_features@.drop_last() == cpu_template.vcpu_features@,
{
    let mut template = cpu_template.copied();
    if nv2_enabled {
        let has_el2: u32 = 1u32 << KVM_ARM_VCPU_HAS_EL2;
        let has_el2_e2h0: u32 = 1u32 << KVM_ARM_VCPU_HAS_EL2_E2H0;
        template.vcpu_features.push(
            VcpuFeatures {
                index: 0,
                bitmap: RegisterValueFilter { filter: has_el2 | has_el2_e2h0, value: has_el2 },
            },
        );
    }
    template
}

/// What the changes to the first feature word make of `word`, applied in order.
pub open spec fn effective_word(word: u32, features: Seq<VcpuFeatures>) -> u32
    decreases features.len(),
{
    if features.len() == 0 {
        word
    } else {
        let before = effective_word(word, features.drop_last());
        if features.last().index == 0 {
            features.last().bitmap.applied(before)
        } else {
            before
        }
    }
}

/// What the changes to the first feature word make of each of `words`.
pub open spec fn effective_words(words: Seq<u32>, features: Seq<VcpuFeatures>) -> Seq<u32> {
    words.map_values(|word: u32| effective_word(word, features))
}

/// Returns the feature word that a vCPU is initialized with.
pub fn effective_vcpu_feature_word(
    initial_feature_word: u32,
    cpu_template: &CustomCpuTemplate,
) -> (word: u32)
    ensures
        word == effective_word(initial_feature_word, cpu_template.vcpu_features@),
{
    let mut word: u32 = initial_feature_word;
    let mut i: usize = 0;
    while i < cpu_template.vcpu_features.len()
        invariant
            i <= cpu_template.vcpu_features@.len(),
            word == effective_word(
                initial_feature_word,
                cpu_template.vcpu_features@.take(i as int),
            ),
        decreases cpu_template.vcpu_features@.len() - i,
    {
        let feature = cpu_template.vcpu_features[i];
        assert(cpu_template.vcpu_features@.take(i + 1).drop_last()
            == cpu_template.vcpu_features@.take(i as int));
        if feature.index == 0 {
            word = feature.bitmap.apply(word);
        }
        i += 1;
    }
    assert(cpu_template.vcpu_features@.take(i as int) == cpu_template.vcpu_features@);
    word
}

/// Rejects a feature word that asks for EL2 without the host extensions.
pub fn validate_arm_vcpu_init_feature_word(feature_word: u32) -> (r: Result<
    (),
    ArmFeatureValidationError,
>)
    ensures
        r == if has_feature(feature_word, KVM_ARM_VCPU_HAS_EL2_E2H0) {
            Err::<(), _>(ArmFeatureValidationError::UnsupportedE2h0)
        } else {
            Ok(())
        },
        r is Err <==> (feature_word >> 8) & 1 == 1,
{
    proof {
        law_a_feature_is_a_bit(feature_word, 8);
    }
    if feature_word & (1u32 << KVM_ARM_VCPU_HAS_EL2_E2H0) != 0 {
        Err(ArmFeatureValidationError::UnsupportedE2h0)
    } else {
        Ok(())
    }
}

/// The boot mode that a supported feature word selects.
pub open spec fn boot_mode_of(word: u32) -> ArmBootMode {
    if has_feature(word, KVM_ARM_VCPU_HAS_EL2) {
        ArmBootMode::El2Vhe
    } else {
        ArmBootMode::El1
    }
}

/// Returns the boot mode that a feature word selects.
pub fn arm_boot_mode(feature_word: u32) -> (r: Result<ArmBootMode, ArmFeatureValidationError>)
    ensures
        r == if has_feature(feature_word, KVM_ARM_VCPU_HAS_EL2_E2H0) {
            Err(ArmFeatureValidationError::UnsupportedE2h0)
        } else {
            Ok(boot_mode_of(feature_word))
        },
        r is Err <==> (feature_word >> 8) & 1 == 1,
        r matches Ok(mode) ==> (mode == ArmBootMode::El2Vhe <==> (feature_word >> 7) & 1 == 1),
{
    proof {
        law_a_feature_is_a_bit(feature_word, 7);
    }
    match validate_arm_vcpu_init_feature_word(feature_word) {
        Ok(()) => {},
        Err(error) => {
            return Err(error);
        },
    }
    if feature_word & (1u32 << KVM_ARM_VCPU_HAS_EL2) != 0 {
        Ok(ArmBootMode::El2Vhe)
    } else {
        Ok(ArmBootMode::El1)
    }
}

/// What is wrong with the feature word of vCPU `i`, if anything is: it asks for EL2 without the
/// host extensions, or it differs from the word of the boot vCPU in a bit outside `allowed`.
pub open spec fn word_fault(words: Seq<u32>, allowed: u32, i: int) -> Option<
    ArmFeatureValidationError,
> {
    if has_feature(words[i], KVM_ARM_VCPU_HAS_EL2_E2H0) {
        Some(ArmFeatureValidationError::UnsupportedE2h0)
    } else if words[i] & !allowed != words[0] & !allowed {
        Some(ArmFeatureValidationError::InconsistentVcpuFeatures)
    } else {
        None
    }
}

/// Whether `r` is the verdict on the feature words: the boot mode that the boot vCPU selects, if
/// there is a boot vCPU and nothing is wrong with any word, and else what is wrong with the first
/// faulty word.
pub open spec fn is_verdict(
    words: Seq<u32>,
    allowed: u32,
    r: Result<ArmBootMode, ArmFeatureValidationError>,
) -> bool {
    match r {
        Ok(mode) => {
            &&& 0 < words.len()
            &&& forall|i: int|
                0 <= i < words.len() ==> (#[trigger] word_fault(words, allowed, i)) is None
            &&& mode == boot_mode_of(words[0])
        },
        Err(ArmFeatureValidationError::NoBootVcpu) => words.len() == 0,
        Err(error) => exists|i: int|
            {
                &&& 0 <= i < words.len()
                &&& #[trigger] word_fault(words, allowed, i) == Some(error)
                &&& forall|j: int| 0 <= j < i ==> (#[trigger] word_fault(words, allowed, j)) is None
            },
    }
}

/// Checks that the feature words of all vCPUs are supported and agree with that of the boot vCPU
/// in every bit outside `allowed_difference_mask`, and returns the boot mode that they select.
pub fn validate_vcpu_feature_words(feature_words: &[u32], allowed_difference_mask: u32) -> (r:
    Result<ArmBootMode, ArmFeatureValidationError>)
    ensures
        is_verdict(feature_words@, allowed_difference_mask, r),
{
    if feature_words.len() == 0 {
        return Err(ArmFeatureValidationError::NoBootVcpu);
    }
    let boot_feature_word: u32 = feature_words[0];
    let boot_mode = match arm_boot_mode(boot_feature_word) {
        Ok(mode) => mode,
        Err(error) => {
            assert(word_fault(feature_words@, allowed_difference_mask, 0) == Some(error));
            return Err(error);
        },
    };
    let canonical_boot_word: u32 = boot_feature_word & !allowed_difference_mask;
    let mut i: usize = 1;
    while i < feature_words.len()
        invariant
            1 <= i <= feature_words@.len(),
            boot_feature_word == feature_words@[0],
            canonical_boot_word == boot_feature_word & !allowed_difference_mask,
            forall|j: int|
                0 <= j < i ==> (#[trigger] word_fault(
                    feature_words@,
                    allowed_difference_mask,
                    j,
                )) is None,
        decreases feature_words@.len() - i,
    {
        let feature_word: u32 = feature_words[i];
        match arm_boot_mode(feature_word) {
            Ok(_) => {},
            Err(error) => {
                assert(word_fault(feature_words@, allowed_difference_mask, i as int) == Some(
                    error,
                ));
                return Err(error);
            },
        }
        if feature_word & !allowed_difference_mask != canonical_boot_word {
            assert(word_fault(feature_words@, allowed_difference_mask, i as int) == Some(
                ArmFeatureValidationError::InconsistentVcpuFeatures,
            ));
            return Err(ArmFeatureValidationError::InconsistentVcpuFeatures);
        }
        i += 1;
    }
    Ok(boot_mode)
}

/// Returns the boot mode that the template and the initial feature words of the vCPUs select.
///
/// Secondary vCPUs start powered off. Every other feature must agree across vCPUs.
pub fn resolve_arm_boot_mode(
    cpu_template: &CustomCpuTemplate,
    initial_feature_words: &[u32],
) -> (r: Result<ArmBootMode, ArmFeatureValidationError>)
    ensures
        is_verdict(
            effective_words(initial_feature_words@, cpu_template.vcpu_features@),
            feature_mask(KVM_ARM_VCPU_POWER_OFF),
            r,
        ),
{
    let mut effective_feature_words: Vec<u32> = Vec::new();
    let ghost all = effective_words(initial_feature_words@, cpu_template.vcpu_features@);
    let mut i: usize = 0;
    while i < initial_feature_words.len()
        invariant
            i <= initial_feature_words@.len(),
            all == effective_words(initial_feature_words@, cpu_template.vcpu_features@),
            effective_feature_words@ == all.take(i as int),
        decreases initial_feature_words@.len() - i,
    {
        effective_feature_words.push(
            effective_vcpu_feature_word(initial_feature_words[i], cpu_template),
        );
        i += 1;
    }
    assert(all.take(i as int) == all);
    validate_vcpu_feature_words(&effective_feature_words, 1u32 << KVM_ARM_VCPU_POWER_OFF)
}

/// The configuration error that a rejection of feature words amounts to.
pub open spec fn feature_configuration_error(
    error: ArmFeatureValidationError,
) -> ConfigurationError {
    match error {
        ArmFeatureValidationError::NoBootVcpu => ConfigurationError::Counter(
            CounterError::NoBootVcpu,
        ),
        // `EINVAL`
        _ => ConfigurationError::VcpuConfigure(KvmVcpuError::Init(Errno(22))),
    }
}

/// Returns the configuration error that a rejection of feature words amounts to.
pub fn configuration_error_from_feature_validation(error: ArmFeatureValidationError) -> (r:
    ConfigurationError)
    ensures
        r == feature_configuration_error(error),
{
    match error {
        ArmFeatureValidationError::NoBootVcpu => {
            ConfigurationError::Counter(CounterError::NoBootVcpu)
        },
        ArmFeatureValidationError::UnsupportedE2h0
        | ArmFeatureValidationError::InconsistentVcpuFeatures => {
            ConfigurationError::VcpuConfigure(KvmVcpuError::Init(Errno::new(invalid_argument())))
        },
    }
}

/// Whether restored feature words are accepted: there is a boot vCPU, all words are the same and
/// they do not ask for EL2 without the host extensions.
pub open spec fn restored_words_agree(words: Seq<u32>) -> bool {
    &&& 0 < words.len()
    &&& !has_feature(words[0], KVM_ARM_VCPU_HAS_EL2_E2H0)
    &&& forall|i: int| 0 <= i < words.len() ==> #[trigger] words[i] == words[0]
}

/// Checks the feature words of the vCPUs of a snapshot.
///
/// Saving clears the power-off feature of every vCPU, so restored feature words must agree
/// exactly.
pub fn validate_restored_vcpu_feature_words(feature_words: &[u32]) -> (r: Result<
    (),
    ConfigurationError,
>)
    ensures
        r is Ok <==> restored_words_agree(feature_words@),
        r matches Err(error) ==> error == feature_configuration_error(
            if feature_words@.len() == 0 {
                ArmFeatureValidationError::NoBootVcpu
            } else {
                ArmFeatureValidationError::UnsupportedE2h0
            },
        ),
{
    let verdict = validate_vcpu_feature_words(feature_words, 0);
    proof {
        assert forall|i: int| 0 <= i < feature_words@.len() implies (#[trigger] word_fault(
            feature_words@,
            0,
            i,
        ) is None) == (!has_feature(feature_words@[i], KVM_ARM_VCPU_HAS_EL2_E2H0)
            && feature_words@[i] == feature_words@[0]) by {
            let word = feature_words@[i];
            let first = feature_words@[0];
            assert((word & !0u32 == first & !0u32) == (word == first)) by (bit_vector);
        }
        if verdict is Ok {
            assert(word_fault(feature_words@, 0, 0) is None);
            assert forall|i: int| 0 <= i < feature_words@.len() implies #[trigger] feature_words@[i]
                == feature_words@[0] by {
                assert(word_fault(feature_words@, 0, i) is None);
            }
        }
    }
    match verdict {
        Ok(_) => Ok(()),
        Err(error) => Err(configuration_error_from_feature_validation(error)),
    }
}

/// The verdict on feature words is unique.
pub proof fn law_verdict_is_unique(
    words: Seq<u32>,
    allowed: u32,
    r: Result<ArmBootMode, ArmFeatureValidationError>,
    other: Result<ArmBootMode, ArmFeatureValidationError>,
)
    requires
        is_verdict(words, allowed, r),
        is_verdict(words, allowed, other),
    ensures
        r == other,
{
    if r is Err && other is Err && words.len() != 0 {
        let i = choose|i: int|
            {
                &&& 0 <= i < words.len()
                &&& #[trigger] word_fault(words, allowed, i) == Some(r->Err_0)
                &&& forall|j: int| 0 <= j < i ==> (#[trigger] word_fault(words, allowed, j)) is None
            };
        let k = choose|k: int|
            {
                &&& 0 <= k < words.len()
                &&& #[trigger] word_fault(words, allowed, k) == Some(other->Err_0)
                &&& forall|j: int| 0 <= j < k ==> (#[trigger] word_fault(words, allowed, j)) is None
            };
        assert(i == k);
    }
}

/// With nested virtualization enabled, every vCPU has EL2 with the host extensions, whatever the
/// template and the initial feature word say.
pub proof fn law_nv2_comes_last(word: u32, features: Seq<VcpuFeatures>)
    ensures
        has_feature(
            effective_word(word, features_with_nv2(features, true)),
            KVM_ARM_VCPU_HAS_EL2,
        ),
        !has_feature(
            effective_word(word, features_with_nv2(features, true)),
            KVM_ARM_VCPU_HAS_EL2_E2H0,
        ),
{
    let with_nv2 = features_with_nv2(features, true);
    assert(with_nv2.drop_last() == features);
    let before = effective_word(word, features);
    assert(((before & !((1u32 << 7) | (1u32 << 8))) | (1u32 << 7)) & (1u32 << 7) != 0)
        by (bit_vector);
    assert(((before & !((1u32 << 7) | (1u32 << 8))) | (1u32 << 7)) & (1u32 << 8) == 0)
        by (bit_vector);
}

/// With nested virtualization enabled, a guest with a boot vCPU boots at EL2 with the host
/// extensions or is rejected because the features of its vCPUs disagree.
pub proof fn law_nv2_selects_vhe(
    words: Seq<u32>,
    features: Seq<VcpuFeatures>,
    allowed: u32,
    r: Result<ArmBootMode, ArmFeatureValidationError>,
)
    requires
        0 < words.len(),
        is_verdict(effective_words(words, features_with_nv2(features, true)), allowed, r),
    ensures
        r == Ok::<_, ArmFeatureValidationError>(ArmBootMode::El2Vhe) || r == Err::<ArmBootMode, _>(
            ArmFeatureValidationError::InconsistentVcpuFeatures,
        ),
{
    let effective = effective_words(words, features_with_nv2(features, true));
    assert forall|i: int| 0 <= i < words.len() implies #[trigger] word_fault(effective, allowed, i)
        != Some(ArmFeatureValidationError::UnsupportedE2h0) by {
        law_nv2_comes_last(words[i], features);
    }
    law_nv2_comes_last(words[0], features);
}

/// Whether a vCPU is powered off plays no part in the verdict that is reached at boot: words that
/// agree in every other bit get the same verdict.
pub proof fn law_power_off_is_an_allowed_difference(
    words: Seq<u32>,
    other: Seq<u32>,
    r: Result<ArmBootMode, ArmFeatureValidationError>,
)
    requires
        words.len() == other.len(),
        forall|i: int|
            0 <= i < words.len() ==> #[trigger] words[i] & !feature_mask(KVM_ARM_VCPU_POWER_OFF)
                == other[i] & !feature_mask(KVM_ARM_VCPU_POWER_OFF),
        is_verdict(words, feature_mask(KVM_ARM_VCPU_POWER_OFF), r),
    ensures
        is_verdict(other, feature_mask(KVM_ARM_VCPU_POWER_OFF), r),
{
    let allowed = feature_mask(KVM_ARM_VCPU_POWER_OFF);
    assert forall|i: int| 0 <= i < words.len() implies {
        &&& #[trigger] word_fault(other, allowed, i) == word_fault(words, allowed, i)
        &&& boot_mode_of(other[i]) == boot_mode_of(words[i])
    } by {
        let a = words[i];
        let b = other[i];
        assert(words[0] & !allowed == other[0] & !allowed);
        assert(a & !(1u32 << 0) == b & !(1u32 << 0) ==> a & (1u32 << 7) == b & (1u32 << 7) && a & (
        1u32 << 8) == b & (1u32 << 8)) by (bit_vector);
    }
    if r is Ok {
        assert(word_fault(other, allowed, 0) == word_fault(words, allowed, 0));
    } else if words.len() != 0 {
        let i = choose|i: int|
            {
                &&& 0 <= i < words.len()
                &&& #[trigger] word_fault(words, allowed, i) == Some(r->Err_0)
                &&& forall|j: int| 0 <= j < i ==> (#[trigger] word_fault(words, allowed, j)) is None
            };
        assert(word_fault(other, allowed, i) == Some(r->Err_0));
        assert forall|j: int| 0 <= j < i implies (#[trigger] word_fault(other, allowed, j)) is None
            by {
            assert(word_fault(words, allowed, j) is None);
        }
    }
}

/// All vCPUs of a guest that is accepted select the same boot mode, at boot as well as at restore.
pub proof fn law_accepted_vcpus_agree_on_the_boot_mode(
    words: Seq<u32>,
    allowed: u32,
    mode: ArmBootMode,
    i: int,
)
    requires
        is_verdict(words, allowed, Ok(mode)),
        allowed == feature_mask(KVM_ARM_VCPU_POWER_OFF) || allowed == 0,
        0 <= i < words.len(),
    ensures
        boot_mode_of(words[i]) == mode,
        !has_feature(words[i], KVM_ARM_VCPU_HAS_EL2_E2H0),
{
    let first = words[0];
    let word = words[i];
    assert(word_fault(words, allowed, i) is None);
    assert(word_fault(words, allowed, 0) is None);
    assert(word & !(1u32 << 0) == first & !(1u32 << 0) ==> word & (1u32 << 7) == first & (1u32
        << 7)) by (bit_vector);
    assert(word & !0u32 == first & !0u32 ==> word & (1u32 << 7) == first & (1u32 << 7))
        by (bit_vector);
}

/// A feature is one bit of the word: the one that its number counts.
pub proof fn law_a_feature_is_a_bit(word: u32, bit: u32)
    requires
        bit < 32,
    ensures
        has_feature(word, bit) <==> (word >> bit) & 1 == 1,
        (word >> bit) & 1 == 0 || (word >> bit) & 1 == 1,
        forall|other: u32|
            #![trigger feature_mask(bit) >> other]
            other < 32 ==> ((feature_mask(bit) >> other) & 1 == 1 <==> other == bit),
{
    assert(bit < 32 ==> ((word & (1u32 << bit) != 0) == ((word >> bit) & 1 == 1))) by (bit_vector);
    assert((word >> bit) & 1 == 0 || (word >> bit) & 1 == 1) by (bit_vector);
    assert forall|other: u32|
        #![trigger feature_mask(bit) >> other]
        other < 32 implies ((feature_mask(bit) >> other) & 1 == 1 <==> other == bit) by {
        assert(bit < 32 && other < 32 ==> ((((1u32 << bit) >> other) & 1 == 1) == (other == bit)))
            by (bit_vector);
    }
}

/// A word selects EL2 with the host extensions exactly if bit 7 is set in it, and EL1 if it is
/// clear, whatever its other bits are.
pub proof fn law_bit_7_selects_the_boot_mode(word: u32)
    ensures
        boot_mode_of(word) == ArmBootMode::El2Vhe <==> (word >> 7) & 1 == 1,
        boot_mode_of(word) == ArmBootMode::El1 <==> (word >> 7) & 1 == 0,
{
    law_a_feature_is_a_bit(word, 7);
}

/// Words that differ in bits other than bit 7 only select the same boot mode, and a word selects
/// the other one when bit 7 is flipped.
pub proof fn law_other_bits_keep_the_boot_mode(word: u32, other: u32)
    ensures
        word & 0x80 == other & 0x80 ==> boot_mode_of(word) == boot_mode_of(other),
        boot_mode_of(word) != boot_mode_of(word ^ 0x80),
{
    law_bit_7_selects_the_boot_mode(word);
    law_bit_7_selects_the_boot_mode(other);
    law_bit_7_selects_the_boot_mode(word ^ 0x80);
    assert(word & 0x80 == other & 0x80 ==> (word >> 7) & 1 == (other >> 7) & 1) by (bit_vector);
    assert((word >> 7) & 1 != ((word ^ 0x80) >> 7) & 1) by (bit_vector);
}

/// Without nested virtualization the feature changes are those of the template. With it they begin
/// with all of them, in order, and have one more: a change of the first word that sets bit 7 and
/// clears bit 8.
pub proof fn law_nv2_adds_one_change(features: Seq<VcpuFeatures>)
    ensures
        features_with_nv2(features, false).len() == features.len(),
        forall|i: int|
            0 <= i < features.len() ==> #[trigger] features_with_nv2(features, false)[i]
                == features[i],
        features_with_nv2(features, true).len() == features.len() + 1,
        forall|i: int|
            0 <= i < features.len() ==> #[trigger] features_with_nv2(features, true)[i]
                == features[i],
        features_with_nv2(features, true)[features.len() as int].index == 0,
        features_with_nv2(features, true)[features.len() as int].bitmap.filter == 0x180,
        features_with_nv2(features, true)[features.len() as int].bitmap.value == 0x80,
{
    assert((1u32 << 7) | (1u32 << 8) == 0x180 && (1u32 << 7) == 0x80) by (bit_vector);
}

/// Nested virtualization decides on bits 7 and 8 of the feature word of a vCPU and leaves every
/// other bit as the template and the initial feature word have it.
pub proof fn law_nv2_keeps_the_other_features(word: u32, features: Seq<VcpuFeatures>)
    ensures
        effective_word(word, features_with_nv2(features, true)) & !0x180 == effective_word(
            word,
            features,
        ) & !0x180,
        effective_word(word, features_with_nv2(features, false)) == effective_word(word, features),
{
    let with_nv2 = features_with_nv2(features, true);
    assert(with_nv2.drop_last() == features);
    let before = effective_word(word, features);
    assert(((before & !((1u32 << 7) | (1u32 << 8))) | (1u32 << 7)) & !0x180 == before & !0x180)
        by (bit_vector);
}

/// Changes take effect in order: without any the word stays as it is, one more change of the first
/// word clears the bits in its filter and sets those in its value, and one more change of another
/// word does nothing.
pub proof fn law_changes_take_effect_in_order(
    word: u32,
    features: Seq<VcpuFeatures>,
    next: VcpuFeatures,
)
    ensures
        effective_word(word, Seq::<VcpuFeatures>::empty()) == word,
        next.index == 0 ==> effective_word(word, features.push(next)) == (effective_word(
            word,
            features,
        ) & !next.bitmap.filter) | next.bitmap.value,
        next.index != 0 ==> effective_word(word, features.push(next)) == effective_word(
            word,
            features,
        ),
{
    assert(features.push(next).drop_last() == features);
}

/// The feature words of the vCPUs are changed one by one.
pub proof fn law_every_word_is_changed(words: Seq<u32>, features: Seq<VcpuFeatures>)
    ensures
        effective_words(words, features).len() == words.len(),
        forall|i: int|
            0 <= i < words.len() ==> #[trigger] effective_words(words, features)[i]
                == effective_word(words[i], features),
{
}

/// Feature words are accepted exactly if there is one, bit 8 is clear in each and each agrees with
/// the first in every bit outside `allowed`. The boot mode goes by bit 7 of the first.
pub proof fn law_accepted_words(words: Seq<u32>, allowed: u32, mode: ArmBootMode)
    ensures
        is_verdict(words, allowed, Ok(mode)) <==> {
            &&& 1 <= words.len()
            &&& forall|i: int|
                0 <= i < words.len() ==> ((#[trigger] words[i]) >> 8) & 1 == 0 && words[i]
                    & !allowed == words[0] & !allowed
            &&& mode == ArmBootMode::El2Vhe ==> (words[0] >> 7) & 1 == 1
            &&& mode == ArmBootMode::El1 ==> (words[0] >> 7) & 1 == 0
        },
{
    assert forall|i: int| 0 <= i < words.len() implies ((#[trigger] word_fault(
        words,
        allowed,
        i,
    )) is None <==> (words[i] >> 8) & 1 == 0 && words[i] & !allowed == words[0] & !allowed) by {
        law_a_feature_is_a_bit(words[i], 8);
    }
    if words.len() != 0 {
        law_bit_7_selects_the_boot_mode(words[0]);
    }
    if is_verdict(words, allowed, Ok(mode)) {
        assert forall|i: int| 0 <= i < words.len() implies ((#[trigger] words[i]) >> 8) & 1 == 0
            && words[i] & !allowed == words[0] & !allowed by {
            assert(word_fault(words, allowed, i) is None);
        }
    }
}

/// Feature words are rejected for want of a boot vCPU exactly if there are none. They are rejected
/// for one word, before which every word is fine: because bit 8 is set in it, or because bit 8 is
/// clear and it differs from the first in a bit outside `allowed`.
pub proof fn law_rejected_words(words: Seq<u32>, allowed: u32, error: ArmFeatureValidationError)
    ensures
        is_verdict(words, allowed, Err(error)) <==> match error {
            ArmFeatureValidationError::NoBootVcpu => words.len() == 0,
            ArmFeatureValidationError::UnsupportedE2h0 => exists|i: int|
                {
                    &&& 0 <= i < words.len()
                    &&& ((#[trigger] words[i]) >> 8) & 1 == 1
                    &&& forall|j: int|
                        0 <= j < i ==> ((#[trigger] words[j]) >> 8) & 1 == 0 && words[j] & !allowed
                            == words[0] & !allowed
                },
            ArmFeatureValidationError::InconsistentVcpuFeatures => exists|i: int|
                {
                    &&& 0 <= i < words.len()
                    &&& ((#[trigger] words[i]) >> 8) & 1 == 0
                    &&& words[i] & !allowed != words[0] & !allowed
                    &&& forall|j: int|
                        0 <= j < i ==> ((#[trigger] words[j]) >> 8) & 1 == 0 && words[j] & !allowed
                            == words[0] & !allowed
                },
        },
{
    assert forall|i: int| 0 <= i < words.len() implies {
        &&& (#[trigger] word_fault(words, allowed, i)) is None <==> (words[i] >> 8) & 1 == 0
            && words[i] & !allowed == words[0] & !allowed
        &&& word_fault(words, allowed, i) == Some(ArmFeatureValidationError::UnsupportedE2h0) <==> (
        words[i] >> 8) & 1 == 1
        &&& word_fault(words, allowed, i) == Some(
            ArmFeatureValidationError::InconsistentVcpuFeatures,
        ) <==> (words[i] >> 8) & 1 == 0 && words[i] & !allowed != words[0] & !allowed
    } by {
        law_a_feature_is_a_bit(words[i], 8);
    }
    if is_verdict(words, allowed, Err(error)) && words.len() != 0 {
        let i = choose|i: int|
            {
                &&& 0 <= i < words.len()
                &&& #[trigger] word_fault(words, allowed, i) == Some(error)
                &&& forall|j: int| 0 <= j < i ==> (#[trigger] word_fault(words, allowed, j)) is None
            };
        assert((words[i] >> 8) & 1 == 1 || (words[i] >> 8) & 1 == 0);
        assert forall|j: int| 0 <= j < i implies ((#[trigger] words[j]) >> 8) & 1 == 0 && words[j]
            & !allowed == words[0] & !allowed by {
            assert(word_fault(words, allowed, j) is None);
        }
    }
    if !(error is NoBootVcpu) {
        assert forall|i: int|
            {
                &&& 0 <= i < words.len()
                &&& (#[trigger] word_fault(words, allowed, i)) == Some(error)
                &&& forall|j: int|
                    0 <= j < i ==> ((#[trigger] words[j]) >> 8) & 1 == 0 && words[j] & !allowed
                        == words[0] & !allowed
            } implies is_verdict(words, allowed, Err(error)) by {}
        assert forall|i: int|
            {
                &&& 0 <= i < words.len()
                &&& ((#[trigger] words[i]) >> 8) & 1 == 1 || words[i] & !allowed != words[0]
                    & !allowed
            } implies word_fault(words, allowed, i) is Some by {
            assert(word_fault(words, allowed, i) is Some);
        }
    }
}

/// A rejection of feature words is an invalid argument to the initialization of a vCPU, unless
/// there is no vCPU to initialize.
pub proof fn law_rejected_words_are_invalid_arguments(error: ArmFeatureValidationError)
    ensures
        error is NoBootVcpu ==> feature_configuration_error(error) == ConfigurationError::Counter(
            CounterError::NoBootVcpu,
        ),
        !(error is NoBootVcpu) ==> feature_configuration_error(error)
            == ConfigurationError::VcpuConfigure(KvmVcpuError::Init(Errno(22))),
{
}

/// Restored feature words are accepted exactly if there is one, all are the same and bit 8 is
/// clear in them.
pub proof fn law_restored_words_are_the_same(words: Seq<u32>)
    ensures
        restored_words_agree(words) <==> {
            &&& 1 <= words.len()
            &&& forall|i: int|
                0 <= i < words.len() ==> ((#[trigger] words[i]) >> 8) & 1 == 0 && words[i]
                    == words[0]
        },
{
    if words.len() != 0 {
        law_a_feature_is_a_bit(words[0], 8);
    }
}

/// The features that count here are bit 0, with which a vCPU starts powered off, and bits 7 and 8,
/// with which it has EL2.
pub proof fn law_feature_masks()
    ensures
        feature_mask(KVM_ARM_VCPU_POWER_OFF) == 0x1,
        feature_mask(KVM_ARM_VCPU_HAS_EL2) == 0x80,
        feature_mask(KVM_ARM_VCPU_HAS_EL2_E2H0) == 0x100,
{
    assert((1u32 << 0) == 0x1 && (1u32 << 7) == 0x80 && (1u32 << 8) == 0x100) by (bit_vector);
}

/// [`arm_boot_mode`] accepts a word exactly if bit 8 is clear in it. An accepted word selects EL2
/// with the host extensions exactly if bit 7 is set in it, and EL1 if it is clear.
pub proof fn law_arm_boot_mode_goes_by_two_bits(
    word: u32,
    r: Result<ArmBootMode, ArmFeatureValidationError>,
)
    requires
        call_ensures(arm_boot_mode, (word,), r),
    ensures
        (word >> 8) & 1 == 1 ==> r == Err::<ArmBootMode, _>(
            ArmFeatureValidationError::UnsupportedE2h0,
        ),
        (word >> 8) & 1 == 0 && (word >> 7) & 1 == 1 ==> r == Ok::<_, ArmFeatureValidationError>(
            ArmBootMode::El2Vhe,
        ),
        (word >> 8) & 1 == 0 && (word >> 7) & 1 == 0 ==> r == Ok::<_, ArmFeatureValidationError>(
            ArmBootMode::El1,
        ),
{
    law_a_feature_is_a_bit(word, 8);
    law_bit_7_selects_the_boot_mode(word);
}

/// [`arm_boot_mode`] returns the same for words that agree in bits 7 and 8, whatever their other
/// bits are.
pub proof fn law_arm_boot_mode_ignores_other_bits(
    word: u32,
    r: Result<ArmBootMode, ArmFeatureValidationError>,
    other: u32,
    other_r: Result<ArmBootMode, ArmFeatureValidationError>,
)
    requires
        call_ensures(arm_boot_mode, (word,), r),
        call_ensures(arm_boot_mode, (other,), other_r),
        word & 0x180 == other & 0x180,
    ensures
        r == other_r,
{
    assert(word & 0x180 == other & 0x180 ==> (word >> 7) & 1 == (other >> 7) & 1 && (word >> 8) & 1
        == (other >> 8) & 1) by (bit_vector);
    law_a_feature_is_a_bit(word, 7);
    law_a_feature_is_a_bit(word, 8);
    law_arm_boot_mode_goes_by_two_bits(word, r);
    law_arm_boot_mode_goes_by_two_bits(other, other_r);
}

/// [`validate_arm_vcpu_init_feature_word`] rejects a word exactly if bit 8 is set in it.
pub proof fn law_bit_8_is_rejected(word: u32, r: Result<(), ArmFeatureValidationError>)
    requires
        call_ensures(validate_arm_vcpu_init_feature_word, (word,), r),
    ensures
        r is Ok <==> (word >> 8) & 1 == 0,
        r matches Err(error) ==> error is UnsupportedE2h0,
{
    law_a_feature_is_a_bit(word, 8);
}

/// [`cpu_template_with_nv2`] keeps the capabilities and the registers of a template. Without nested
/// virtualization it keeps the feature changes too. With it they begin with those of the template,
/// in order, and have one more.
pub proof fn law_the_template_is_kept(
    cpu_template: &CustomCpuTemplate,
    nv2_enabled: bool,
    template: CustomCpuTemplate,
    i: int,
)
    requires
        call_ensures(cpu_template_with_nv2, (cpu_template, nv2_enabled), template),
    ensures
        template.kvm_capabilities@ == cpu_template.kvm_capabilities@,
        template.reg_modifiers@ == cpu_template.reg_modifiers@,
        !nv2_enabled ==> template.vcpu_features@ == cpu_template.vcpu_features@,
        nv2_enabled ==> template.vcpu_features@.len() == cpu_template.vcpu_features@.len() + 1,
        0 <= i < cpu_template.vcpu_features@.len() ==> template.vcpu_features@[i]
            == cpu_template.vcpu_features@[i],
        nv2_enabled ==> {
            let last = template.vcpu_features@[cpu_template.vcpu_features@.len() as int];
            last.index == 0 && last.bitmap.filter == 0x180 && last.bitmap.value == 0x80
        },
{
    law_nv2_adds_one_change(cpu_template.vcpu_features@);
}

/// A template with nested virtualization that is applied by [`effective_vcpu_feature_word`] sets
/// bit 7, clears bit 8 and has the other bits as the template without it.
pub proof fn law_nv2_decides_on_two_bits(
    cpu_template: &CustomCpuTemplate,
    with_nv2: &CustomCpuTemplate,
    word: u32,
    plain: u32,
    effective: u32,
)
    requires
        call_ensures(cpu_template_with_nv2, (cpu_template, true), *with_nv2),
        call_ensures(effective_vcpu_feature_word, (word, cpu_template), plain),
        call_ensures(effective_vcpu_feature_word, (word, with_nv2), effective),
    ensures
        effective == (plain & !0x180) | 0x80,
{
    law_changes_take_effect_in_order(word, cpu_template.vcpu_features@, nv2_features());
    law_nv2_adds_one_change(cpu_template.vcpu_features@);
}

/// [`validate_vcpu_feature_words`] accepts words exactly if there is one, bit 8 is clear in each
/// and each agrees with the first in every bit outside the mask. The boot mode goes by bit 7 of
/// the first.
pub proof fn law_validation_compares_with_the_first_word(
    words: &[u32],
    mask: u32,
    r: Result<ArmBootMode, ArmFeatureValidationError>,
)
    requires
        call_ensures(validate_vcpu_feature_words, (words, mask), r),
    ensures
        r is Ok <==> 1 <= words@.len() && forall|i: int|
            0 <= i < words@.len() ==> ((#[trigger] words@[i]) >> 8) & 1 == 0 && words@[i] & !mask
                == words@[0] & !mask,
        r matches Ok(mode) ==> (mode is El2Vhe <==> (words@[0] >> 7) & 1 == 1),
        r == Err::<ArmBootMode, _>(ArmFeatureValidationError::NoBootVcpu) <==> words@.len() == 0,
        (exists|i: int|
            0 <= i < words@.len() && (forall|j: int|
                0 <= j < i ==> (#[trigger] words@[j]) & !mask == words@[0] & !mask && (words@[j]
                    >> 8) & 1 == 0) && ((#[trigger] words@[i]) >> 8) & 1 == 1) <==> r == Err::<
            ArmBootMode,
            _,
        >(ArmFeatureValidationError::UnsupportedE2h0),
{
    law_accepted_words(words@, mask, ArmBootMode::El1);
    law_accepted_words(words@, mask, ArmBootMode::El2Vhe);
    law_rejected_words(words@, mask, ArmFeatureValidationError::NoBootVcpu);
    law_rejected_words(words@, mask, ArmFeatureValidationError::UnsupportedE2h0);
    law_rejected_words(words@, mask, ArmFeatureValidationError::InconsistentVcpuFeatures);
    if words@.len() != 0 {
        law_a_feature_is_a_bit(words@[0], 7);
        law_a_feature_is_a_bit(words@[0], 8);
    }
    if r is Ok {
        assert(is_verdict(words@, mask, Ok(r->Ok_0)));
    } else {
        if is_verdict(words@, mask, Ok(ArmBootMode::El1)) {
            law_verdict_is_unique(words@, mask, r, Ok(ArmBootMode::El1));
        }
        if is_verdict(words@, mask, Ok(ArmBootMode::El2Vhe)) {
            law_verdict_is_unique(words@, mask, r, Ok(ArmBootMode::El2Vhe));
        }
    }
    if is_verdict(words@, mask, Err(ArmFeatureValidationError::UnsupportedE2h0)) {
        law_verdict_is_unique(words@, mask, r, Err(ArmFeatureValidationError::UnsupportedE2h0));
    }
}

/// [`resolve_arm_boot_mode`] ignores bit 0, with which secondary vCPUs start powered off: it
/// returns what [`validate_vcpu_feature_words`] returns for the words that
/// [`effective_vcpu_feature_word`] gives, when they may differ in this bit alone.
pub proof fn law_the_boot_mode_is_that_of_the_effective_words(
    cpu_template: &CustomCpuTemplate,
    words: &[u32],
    r: Result<ArmBootMode, ArmFeatureValidationError>,
    effective: &[u32],
    validated: Result<ArmBootMode, ArmFeatureValidationError>,
)
    requires
        call_ensures(resolve_arm_boot_mode, (cpu_template, words), r),
        effective@.len() == words@.len(),
        forall|i: int|
            0 <= i < words@.len() ==> call_ensures(
                effective_vcpu_feature_word,
                (words@[i], cpu_template),
                #[trigger] effective@[i],
            ),
        call_ensures(validate_vcpu_feature_words, (effective, 1), validated),
    ensures
        r == validated,
{
    law_feature_masks();
    assert(effective@ == effective_words(words@, cpu_template.vcpu_features@));
    law_verdict_is_unique(effective@, 1, r, validated);
}

/// [`validate_restored_vcpu_feature_words`] accepts words exactly if there is one, all are the
/// same and bit 8 is clear in them. Words that it rejects are an invalid argument, unless there
/// are none.
pub proof fn law_restored_words_are_validated(words: &[u32], r: Result<(), ConfigurationError>)
    requires
        call_ensures(validate_restored_vcpu_feature_words, (words,), r),
    ensures
        r is Ok <==> 1 <= words@.len() && forall|i: int|
            0 <= i < words@.len() ==> ((#[trigger] words@[i]) >> 8) & 1 == 0 && words@[i]
                == words@[0],
        words@.len() == 0 ==> r == Err::<(), _>(
            ConfigurationError::Counter(CounterError::NoBootVcpu),
        ),
        words@.len() != 0 && r is Err ==> r == Err::<(), _>(
            ConfigurationError::VcpuConfigure(KvmVcpuError::Init(Errno(22))),
        ),
{
    law_restored_words_are_the_same(words@);
}

} // verus!
