//! Saved registers of a vCPU.

use vstd::bytes::{
    spec_u64_from_le_bytes, spec_u64_to_le_bytes, u64_from_le_bytes, u64_to_le_bytes,
};
use vstd::prelude::*;

verus! {

/// The identifier of the physical counter, `CNTPCT_EL0`.
pub const SYS_CNTPCT_EL0: u64 = 0x6030_0000_0013_df01;

/// The identifier under which KVM has the compare value of the virtual timer.
///
/// KVM has the identifiers of the compare value and of the counter swapped with respect to their
/// architectural encodings.
pub const KVM_REG_ARM_TIMER_CVAL: u64 = 0x6030_0000_0013_df02;

/// The identifier under which KVM has the virtual counter, `CNTVCT_EL0`.
pub const KVM_REG_ARM_TIMER_CNT: u64 = 0x6030_0000_0013_df1a;

/// The number of bytes in the register with the given identifier: bits 52 to 55 of the
/// identifier hold its binary logarithm.
pub open spec fn register_size(id: u64) -> int {
    (1u64 << ((id >> 52) & 0xf)) as int
}

/// Returns the number of bytes in the register with the given identifier.
pub fn reg_size(id: u64) -> (size: usize)
    ensures
        size == register_size(id),
        1 <= size <= 0x8000,
{
    assert((id >> 52) & 0xf <= 15) by (bit_vector);
    let shift: u64 = (id >> 52) & 0xf;
    assert(1u64 <= (1u64 << shift) <= 0x8000u64) by (bit_vector)
        requires
            shift <= 15,
    ;
    (1u64 << shift) as usize
}

/// The registers that hold the counters have eight bytes.
pub proof fn lemma_counter_registers_have_eight_bytes()
    ensures
        register_size(SYS_CNTPCT_EL0) == 8,
        register_size(KVM_REG_ARM_TIMER_CNT) == 8,
{
    assert((1u64 << ((0x6030_0000_0013_df01u64 >> 52) & 0xf)) == 8u64) by (bit_vector);
    assert((1u64 << ((0x6030_0000_0013_df1au64 >> 52) & 0xf)) == 8u64) by (bit_vector);
}

/// A register of a vCPU: its identifier and its contents.
#[derive(Clone, Copy, Debug)]
pub struct Aarch64RegisterRef<'a> {
    /// The identifier of the register.
    pub id: u64,
    /// The contents of the register.
    pub data: &'a [u8],
}

impl<'a> Aarch64RegisterRef<'a> {
    /// Returns the register with the given identifier and contents.
    pub fn new(id: u64, data: &'a [u8]) -> (register: Aarch64RegisterRef<'a>)
        requires
            data@.len() == register_size(id),
        ensures
            register.id == id,
            register.data@ == data@,
    {
        Aarch64RegisterRef { id, data }
    }

    /// Returns the contents of an eight-byte register as an integer.
    pub fn value(&self) -> (value: u64)
        requires
            self.data@.len() == 8,
        ensures
            value == spec_u64_from_le_bytes(self.data@),
    {
        u64_from_le_bytes(self.data)
    }
}

/// An owned register.
#[derive(Debug, PartialEq, Eq)]
struct Aarch64Register {
    id: u64,
    data: Vec<u8>,
}

/// Register contents whose total size is not what the register identifiers say.
#[derive(Clone, Copy, Debug, PartialEq, Eq, Structural)]
pub struct RegisterSizeMismatch;

/// A list of saved registers. Its view has the identifier and the contents of each register.
#[derive(Debug, PartialEq, Eq)]
pub struct Aarch64RegisterVec {
    regs: Vec<Aarch64Register>,
}

impl View for Aarch64RegisterVec {
    type V = Seq<(u64, Seq<u8>)>;

    closed spec fn view(&self) -> Seq<(u64, Seq<u8>)> {
        self.regs@.map_values(|reg: Aarch64Register| (reg.id, reg.data@))
    }
}

/// Every register has as many bytes as its identifier says.
pub open spec fn registers_wf(regs: Seq<(u64, Seq<u8>)>) -> bool {
    forall|i: int| 0 <= i < regs.len() ==> (#[trigger] regs[i]).1.len() == register_size(regs[i].0)
}

/// The total number of bytes in the registers with the given identifiers.
pub open spec fn total_register_size(ids: Seq<u64>) -> int
    decreases ids.len(),
{
    if ids.len() == 0 {
        0
    } else {
        total_register_size(ids.drop_last()) + register_size(ids.last())
    }
}

/// The registers whose identifiers are `ids` and whose contents, one after the other, are `data`.
pub open spec fn split_registers(ids: Seq<u64>, data: Seq<u8>) -> Seq<(u64, Seq<u8>)> {
    Seq::new(
        ids.len(),
        |i: int|
            (
                ids[i],
                data.subrange(
                    total_register_size(ids.take(i)),
                    total_register_size(ids.take(i + 1)),
                ),
            ),
    )
}

/// Registers have at least one byte.
proof fn lemma_register_size_is_positive(id: u64)
    ensures
        1 <= register_size(id),
{
    assert((id >> 52) & 0xf <= 15) by (bit_vector);
    let shift = (id >> 52) & 0xf;
    assert(1u64 <= (1u64 << shift)) by (bit_vector)
        requires
            shift <= 15,
    ;
}

/// The total size of the first registers is not above that of all.
proof fn lemma_total_size_of_a_prefix(ids: Seq<u64>, i: int)
    requires
        0 <= i <= ids.len(),
    ensures
        0 <= total_register_size(ids.take(i)) <= total_register_size(ids),
    decreases ids.len() - i, ids.len(),
{
    if i == ids.len() {
        assert(ids.take(i) == ids);
        if 0 < i {
            lemma_total_size_of_a_prefix(ids.drop_last(), i - 1);
            assert(ids.drop_last().take(i - 1) == ids.drop_last());
            lemma_register_size_is_positive(ids.last());
        }
    } else {
        lemma_total_size_of_a_prefix(ids, i + 1);
        assert(ids.take(i + 1).drop_last() == ids.take(i));
        lemma_register_size_is_positive(ids[i]);
        lemma_total_size_is_not_negative(ids.take(i));
    }
}

proof fn lemma_total_size_is_not_negative(ids: Seq<u64>)
    ensures
        0 <= total_register_size(ids),
    decreases ids.len(),
{
    if 0 < ids.len() {
        lemma_total_size_is_not_negative(ids.drop_last());
        lemma_register_size_is_positive(ids.last());
    }
}

impl Default for Aarch64RegisterVec {
    /// Returns an empty list.
    fn default() -> (regs: Aarch64RegisterVec)
        ensures
            regs@ == Seq::<(u64, Seq<u8>)>::empty(),
    {
        let regs = Aarch64RegisterVec { regs: Vec::new() };
        assert(regs@ == Seq::<(u64, Seq<u8>)>::empty());
        regs
    }
}

impl Aarch64RegisterVec {
    /// Returns the registers whose identifiers are `ids` and whose contents, one after the other,
    /// are `data`.
    pub fn from_parts(ids: &[u64], data: &[u8]) -> (r: Result<
        Aarch64RegisterVec,
        RegisterSizeMismatch,
    >)
        ensures
            match r {
                Ok(regs) => {
                    &&& total_register_size(ids@) == data@.len()
                    &&& regs@ == split_registers(ids@, data@)
                    &&& registers_wf(regs@)
                    &&& regs@.len() == ids@.len()
                    &&& forall|i: int|
                        0 <= i < ids@.len() ==> (#[trigger] regs@[i]).0 == ids@[i]
                            && regs@[i].1.len() == register_size(ids@[i])
                },
                Err(_) => total_register_size(ids@) != data@.len(),
            },
    {
        let mut regs = Aarch64RegisterVec::default();
        let data_len: usize = data.len();
        let mut offset: usize = 0;
        let mut i: usize = 0;
        while i < ids.len()
            invariant
                i <= ids@.len(),
                offset <= data_len == data@.len(),
                offset == total_register_size(ids@.take(i as int)),
                regs@.len() == i,
                registers_wf(regs@),
                forall|j: int|
                    0 <= j < i ==> #[trigger] regs@[j] == split_registers(ids@, data@)[j],
            decreases ids@.len() - i,
        {
            let size: usize = reg_size(ids[i]);
            assert(ids@.take(i + 1).drop_last() == ids@.take(i as int));
            if data_len - offset < size {
                proof {
                    lemma_total_size_of_a_prefix(ids@, i + 1);
                }
                return Err(RegisterSizeMismatch);
            }
            let mut contents: Vec<u8> = Vec::new();
            let mut k: usize = 0;
            while k < size
                invariant
                    k <= size,
                    offset + size <= data_len == data@.len(),
                    contents@ == data@.subrange(offset as int, offset + k),
                decreases size - k,
            {
                contents.push(data[offset + k]);
                k += 1;
            }
            regs.push(Aarch64RegisterRef::new(ids[i], &contents));
            offset += size;
            i += 1;
        }
        assert(ids@.take(i as int) == ids@);
        if offset != data_len {
            return Err(RegisterSizeMismatch);
        }
        assert(regs@ == split_registers(ids@, data@));
        Ok(regs)
    }

    /// Returns the number of registers.
    pub fn len(&self) -> (count: usize)
        ensures
            count == self@.len(),
    {
        self.regs.len()
    }

    /// Appends a register.
    pub fn push(&mut self, register: Aarch64RegisterRef<'_>)
        ensures
            final(self)@ == old(self)@.push((register.id, register.data@)),
    {
        let mut data: Vec<u8> = Vec::new();
        let mut i: usize = 0;
        while i < register.data.len()
            invariant
                i <= register.data@.len(),
                data@ == register.data@.take(i as int),
            decreases register.data@.len() - i,
        {
            data.push(register.data[i]);
            i += 1;
        }
        assert(data@ == register.data@);
        self.regs.push(Aarch64Register { id: register.id, data });
        assert(self@ == old(self)@.push((register.id, register.data@)));
    }

    /// Returns a register.
    pub fn get(&self, index: usize) -> (register: Aarch64RegisterRef<'_>)
        requires
            index < self@.len(),
        ensures
            register.id == self@[index as int].0,
            register.data@ == self@[index as int].1,
    {
        let register = &self.regs[index];
        Aarch64RegisterRef { id: register.id, data: register.data.as_slice() }
    }

    /// Sets the contents of an eight-byte register.
    pub fn set_value(&mut self, index: usize, value: u64)
        requires
            index < old(self)@.len(),
            register_size(old(self)@[index as int].0) == 8,
        ensures
            final(self)@ == old(self)@.update(
                index as int,
                (old(self)@[index as int].0, spec_u64_to_le_bytes(value)),
            ),
    {
        let id: u64 = self.regs[index].id;
        let data = u64_to_le_bytes(value);
        self.regs[index] = Aarch64Register { id, data };
        assert(self@ == old(self)@.update(
            index as int,
            (old(self)@[index as int].0, spec_u64_to_le_bytes(value)),
        ));
    }
}

/// The saved state of a vCPU.
#[derive(Debug, PartialEq, Eq)]
pub struct VcpuState {
    /// The registers.
    pub regs: Aarch64RegisterVec,
    /// The affinity of the vCPU.
    pub mpidr: u64,
}

impl Default for VcpuState {
    /// Returns a state without registers.
    fn default() -> (state: VcpuState)
        ensures
            state.regs@ == Seq::<(u64, Seq<u8>)>::empty(),
            state.mpidr == 0,
    {
        VcpuState { regs: Aarch64RegisterVec::default(), mpidr: 0 }
    }
}

/// The size of a register is two to the power that bits 52 to 55 of its identifier hold, so that
/// the other bits of the identifier play no part.
pub proof fn law_register_size_is_a_power_of_two(id: u64, exponent: nat)
    requires
        exponent == id / 0x10_0000_0000_0000 % 16,
    ensures
        register_size(id) == vstd::arithmetic::power2::pow2(exponent),
{
    assert((id >> 52) & 0xf == id / 0x10_0000_0000_0000 % 16) by (bit_vector);
    let shift = (id >> 52) & 0xf;
    vstd::arithmetic::power2::lemma2_to64();
    vstd::bits::lemma_u64_pow2_no_overflow(shift as nat);
    vstd::bits::lemma_u64_shl_is_mul(1, shift);
}

/// The contents of registers, one after the other.
pub open spec fn concatenated(regs: Seq<(u64, Seq<u8>)>) -> Seq<u8>
    decreases regs.len(),
{
    if regs.len() == 0 {
        Seq::empty()
    } else {
        concatenated(regs.drop_last()) + regs.last().1
    }
}

/// Splitting contents among registers loses nothing and moves nothing: there is one register for
/// each identifier, in order, each has as many bytes as its identifier says, and their contents,
/// one after the other, are what was split.
pub proof fn law_split_registers_hold_the_data(ids: Seq<u64>, data: Seq<u8>)
    requires
        total_register_size(ids) == data.len(),
    ensures
        split_registers(ids, data).len() == ids.len(),
        forall|i: int|
            0 <= i < ids.len() ==> (#[trigger] split_registers(ids, data)[i]).0 == ids[i]
                && split_registers(ids, data)[i].1.len() == register_size(ids[i]),
        concatenated(split_registers(ids, data)) == data,
{
    let regs = split_registers(ids, data);
    assert forall|i: int| 0 <= i < ids.len() implies (#[trigger] regs[i]).1.len() == register_size(
        ids[i],
    ) by {
        assert(ids.take(i + 1).drop_last() == ids.take(i));
        lemma_total_size_of_a_prefix(ids, i + 1);
        lemma_total_size_of_a_prefix(ids, i);
        lemma_register_size_is_positive(ids[i]);
    }
    lemma_concatenated_prefix(ids, data, ids.len() as int);
    assert(regs.take(ids.len() as int) == regs);
    assert(ids.take(ids.len() as int) == ids);
    assert(data.take(data.len() as int) == data);
}

/// The first registers hold the first contents.
proof fn lemma_concatenated_prefix(ids: Seq<u64>, data: Seq<u8>, i: int)
    requires
        total_register_size(ids) == data.len(),
        0 <= i <= ids.len(),
    ensures
        0 <= total_register_size(ids.take(i)) <= data.len(),
        concatenated(split_registers(ids, data).take(i)) == data.take(
            total_register_size(ids.take(i)),
        ),
    decreases i,
{
    let regs = split_registers(ids, data);
    lemma_total_size_of_a_prefix(ids, i);
    if i == 0 {
        assert(data.take(0) == Seq::<u8>::empty());
    } else {
        lemma_concatenated_prefix(ids, data, i - 1);
        assert(regs.take(i).drop_last() == regs.take(i - 1));
        assert(ids.take(i).drop_last() == ids.take(i - 1));
        lemma_register_size_is_positive(ids[i - 1]);
        let start = total_register_size(ids.take(i - 1));
        let end = total_register_size(ids.take(i));
        assert(data.take(start) + data.subrange(start, end) == data.take(end));
    }
}

/// The total size of registers is the sum of their sizes.
pub proof fn law_total_register_size_is_a_sum(ids: Seq<u64>, id: u64)
    ensures
        total_register_size(Seq::<u64>::empty()) == 0,
        total_register_size(ids.push(id)) == total_register_size(ids) + register_size(id),
{
    assert(ids.push(id).drop_last() == ids);
}

/// Registers are well-formed exactly if each has as many bytes as its identifier says.
pub proof fn law_well_formed_registers_have_their_sizes(regs: Seq<(u64, Seq<u8>)>)
    ensures
        registers_wf(regs) <==> forall|i: int|
            0 <= i < regs.len() ==> (#[trigger] regs[i]).1.len() == register_size(regs[i].0),
{
}

/// What [`reg_size`] returns is two to the power that bits 52 to 55 of the identifier hold.
pub proof fn law_reg_size_is_a_power_of_two(id: u64, size: usize)
    requires
        call_ensures(reg_size, (id,), size),
    ensures
        size == vstd::arithmetic::power2::pow2((id / 0x10_0000_0000_0000 % 16) as nat),
{
    law_register_size_is_a_power_of_two(id, (id / 0x10_0000_0000_0000 % 16) as nat);
}

/// [`Aarch64RegisterVec::from_parts`] succeeds exactly if the contents are as long as all registers
/// together. The registers then have the given identifiers, in order, and hold the contents, one
/// after the other.
pub proof fn law_from_parts_keeps_the_parts(
    ids: &[u64],
    data: &[u8],
    r: Result<Aarch64RegisterVec, RegisterSizeMismatch>,
)
    requires
        call_ensures(Aarch64RegisterVec::from_parts, (ids, data), r),
    ensures
        r is Ok <==> total_register_size(ids@) == data@.len(),
        r matches Ok(regs) ==> {
            &&& concatenated(regs@) == data@
            &&& regs@.len() == ids@.len()
            &&& forall|i: int|
                0 <= i < ids@.len() ==> (#[trigger] regs@[i]).0 == ids@[i] && regs@[i].1.len()
                    == register_size(ids@[i])
        },
{
    if total_register_size(ids@) == data@.len() {
        law_split_registers_hold_the_data(ids@, data@);
    }
}

/// A register that is appended comes last and is returned as it was appended, and what was there
/// before stays.
pub proof fn law_appended_registers_are_returned<'a>(regs: Aarch64RegisterVec, i: usize)
    ensures
        forall|
            before: &mut Aarch64RegisterVec,
            register: Aarch64RegisterRef<'a>,
            got: Aarch64RegisterRef<'a>,
        | #[trigger]
            call_ensures(Aarch64RegisterVec::push, (before, register), ()) && *final(before) == regs
                && #[trigger] call_ensures(Aarch64RegisterVec::get, (&regs, i), got) ==> {
                &&& regs@.len() == before@.len() + 1
                &&& i == before@.len() ==> got.id == register.id && got.data@ == register.data@
                &&& i < before@.len() ==> got.id == before@[i as int].0 && got.data@
                    == before@[i as int].1
            },
{
}

/// A register is made of the identifier and the contents that it is given, and its value is the
/// number that the contents are, least significant byte first.
pub proof fn law_registers_have_values<'a>(
    id: u64,
    data: &'a [u8],
    register: Aarch64RegisterRef<'a>,
    number: u64,
    value: u64,
)
    requires
        call_ensures(Aarch64RegisterRef::<'a>::new, (id, data), register),
        data@ == spec_u64_to_le_bytes(number),
        call_ensures(Aarch64RegisterRef::<'a>::value, (&register,), value),
    ensures
        register.id == id,
        register.data@ == data@,
        value == number,
{
    vstd::bytes::lemma_auto_spec_u64_to_from_le_bytes();
}

/// A value that is set is the value of the register then, and of no other: its identifier and every
/// other register stay as they are.
pub proof fn law_set_values_are_returned<'a>(
    regs: Aarch64RegisterVec,
    index: usize,
    number: u64,
    i: usize,
    got: Aarch64RegisterRef<'a>,
    value: u64,
)
    requires
        call_ensures(Aarch64RegisterVec::get, (&regs, i), got),
        call_ensures(Aarch64RegisterRef::<'a>::value, (&got,), value),
    ensures
        forall|before: &mut Aarch64RegisterVec| #[trigger]
            call_ensures(Aarch64RegisterVec::set_value, (before, index, number), ()) && *final(
                before
            ) == regs && index < before@.len() && i < before@.len() ==> {
                &&& regs@.len() == before@.len()
                &&& got.id == before@[i as int].0
                &&& i == index ==> value == number
                &&& i != index ==> got.data@ == before@[i as int].1
            },
{
    vstd::bytes::lemma_auto_spec_u64_to_from_le_bytes();
}

} // verus!
