//! CPU templates: what a template changes about the capabilities, the initialization features
//! and the registers of every vCPU.

use vstd::prelude::*;

verus! {

/// A KVM capability that a template adds to, or removes from, the ones that are checked for.
#[derive(Clone, Copy, Debug, PartialEq, Eq, Structural)]
pub enum KvmCapability {
    /// Check for this capability too.
    Add(u32),
    /// Do not check for this capability.
    Remove(u32),
}

/// A change to some bits of a value: the bits in `filter` are cleared, then the bits in `value`
/// are set.
#[derive(Clone, Copy, Debug, PartialEq, Eq, Structural)]
pub struct RegisterValueFilter<V> {
    /// The bits that are cleared.
    pub filter: V,
    /// The bits that are set.
    pub value: V,
}

impl RegisterValueFilter<u32> {
    /// What the change makes of `word`.
    pub open spec fn applied(self, word: u32) -> u32 {
        (word & !self.filter) | self.value
    }

    /// Applies the change to `word`.
    pub fn apply(&self, word: u32) -> (changed: u32)
        ensures
            changed == self.applied(word),
    {
        (word & !self.filter) | self.value
    }
}

/// A change to one of the words of vCPU initialization features.
#[derive(Clone, Copy, Debug, PartialEq, Eq, Structural)]
pub struct VcpuFeatures {
    /// Which word is changed.
    pub index: u32,
    /// The change.
    pub bitmap: RegisterValueFilter<u32>,
}

/// A change to a register.
#[derive(Clone, Copy, Debug, PartialEq, Eq, Structural)]
pub struct RegisterModifier {
    /// The identifier of the register.
    pub addr: u64,
    /// The change.
    pub bitmap: RegisterValueFilter<u128>,
}

/// A CPU template.
#[derive(Clone, Debug, PartialEq, Eq)]
pub struct CustomCpuTemplate {
    /// Changes to the capabilities that are checked for.
    pub kvm_capabilities: Vec<KvmCapability>,
    /// Changes to the vCPU initialization features, in the order in which they are applied.
    pub vcpu_features: Vec<VcpuFeatures>,
    /// Changes to registers.
    pub reg_modifiers: Vec<RegisterModifier>,
}

impl CustomCpuTemplate {
    /// Whether the template makes the same changes as `other`.
    pub open spec fn same_as(self, other: CustomCpuTemplate) -> bool {
        &&& self.kvm_capabilities@ == other.kvm_capabilities@
        &&& self.vcpu_features@ == other.vcpu_features@
        &&& self.reg_modifiers@ == other.reg_modifiers@
    }

    /// Returns a template that makes the same changes.
    pub fn copied(&self) -> (copy: CustomCpuTemplate)
        ensures
            copy.same_as(*self),
            copy.kvm_capabilities@ == self.kvm_capabilities@,
            copy.vcpu_features@ == self.vcpu_features@,
            copy.reg_modifiers@ == self.reg_modifiers@,
    {
        CustomCpuTemplate {
            kvm_capabilities: self.kvm_capabilities.clone(),
            vcpu_features: self.vcpu_features.clone(),
            reg_modifiers: self.reg_modifiers.clone(),
        }
    }
}

impl Default for CustomCpuTemplate {
    /// Returns the template that changes nothing.
    fn default() -> (template: CustomCpuTemplate)
        ensures
            template.kvm_capabilities@ == Seq::<KvmCapability>::empty(),
            template.vcpu_features@ == Seq::<VcpuFeatures>::empty(),
            template.reg_modifiers@ == Seq::<RegisterModifier>::empty(),
    {
        CustomCpuTemplate {
            kvm_capabilities: Vec::new(),
            vcpu_features: Vec::new(),
            reg_modifiers: Vec::new(),
        }
    }
}

/// A change sets the bits in its value, clears the other bits in its filter and leaves every bit
/// outside of both as it is.
pub proof fn law_a_change_touches_its_bits(change: RegisterValueFilter<u32>, word: u32, bit: u32)
    requires
        bit < 32,
    ensures
        (change.value >> bit) & 1 == 1 ==> (change.applied(word) >> bit) & 1 == 1,
        (change.value >> bit) & 1 == 0 && (change.filter >> bit) & 1 == 1 ==> (change.applied(word)
            >> bit) & 1 == 0,
        (change.value >> bit) & 1 == 0 && (change.filter >> bit) & 1 == 0 ==> (change.applied(word)
            >> bit) & 1 == (word >> bit) & 1,
{
    let filter = change.filter;
    let value = change.value;
    let applied = (word & !filter) | value;
    assert(applied == (word & !filter) | value ==> {
        &&& (value >> bit) & 1 == 1 ==> (applied >> bit) & 1 == 1
        &&& (value >> bit) & 1 == 0 && (filter >> bit) & 1 == 1 ==> (applied >> bit) & 1 == 0
        &&& (value >> bit) & 1 == 0 && (filter >> bit) & 1 == 0 ==> (applied >> bit) & 1 == (word
            >> bit) & 1
    }) by (bit_vector);
}

} // verus!
