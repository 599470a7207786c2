//! Counters in the saved states of vCPUs.
//!
//! The state of a vCPU holds a physical and a virtual counter among its registers. Both go on while
//! the states of paused vCPUs are collected, so a snapshot is moved back to the pause point before
//! it is written.

use vstd::bytes::{
    lemma_auto_spec_u64_to_from_le_bytes, spec_u64_from_le_bytes, spec_u64_to_le_bytes,
};
use vstd::prelude::*;

#[allow(unused_imports)]
use crate::counter::{counter_sub, lemma_wrapped, lemma_wrapped_u64, wrapped};
use crate::error::CounterError;
use crate::regs::{
    lemma_counter_registers_have_eight_bytes, register_size, registers_wf, Aarch64RegisterVec,
    VcpuState, KVM_REG_ARM_TIMER_CNT, SYS_CNTPCT_EL0,
};

verus! {

/// The registers of a list that have the given identifier, in order.
pub open spec fn registers_with_id(regs: Seq<(u64, Seq<u8>)>, id: u64) -> Seq<(u64, Seq<u8>)> {
    regs.filter(|reg: (u64, Seq<u8>)| reg.0 == id)
}

/// The error when the state of a vCPU has no counter register with the given identifier.
pub open spec fn missing_counter(vcpu_index: usize, register_id: u64) -> CounterError {
    if register_id == SYS_CNTPCT_EL0 {
        CounterError::MissingSavedCounter(vcpu_index)
    } else {
        CounterError::MissingSavedVirtualCounter(vcpu_index)
    }
}

/// The error when the state of a vCPU has several counter registers with the given identifier.
pub open spec fn duplicate_counter(vcpu_index: usize, register_id: u64) -> CounterError {
    if register_id == SYS_CNTPCT_EL0 {
        CounterError::DuplicateSavedCounter(vcpu_index)
    } else {
        CounterError::DuplicateSavedVirtualCounter(vcpu_index)
    }
}

/// The counter that the one register with the given identifier holds, or why there is none.
pub open spec fn saved_counter(
    regs: Seq<(u64, Seq<u8>)>,
    vcpu_index: usize,
    register_id: u64,
) -> Result<u64, CounterError> {
    let found = registers_with_id(regs, register_id);
    if found.len() == 0 {
        Err(missing_counter(vcpu_index, register_id))
    } else if found.len() == 1 {
        Ok(spec_u64_from_le_bytes(found[0].1))
    } else {
        Err(duplicate_counter(vcpu_index, register_id))
    }
}

/// Whether `id` is the identifier of a counter.
pub open spec fn is_counter(id: u64) -> bool {
    id == SYS_CNTPCT_EL0 || id == KVM_REG_ARM_TIMER_CNT
}

/// Returns the counter that the one register with the given identifier holds.
pub fn unique_saved_counter(state: &VcpuState, vcpu_index: usize, register_id: u64) -> (r: Result<
    u64,
    CounterError,
>)
    requires
        registers_wf(state.regs@),
        is_counter(register_id) || {
            &&& register_size(register_id) == 8
            &&& registers_with_id(state.regs@, register_id).len() == 1
        },
    ensures
        r == saved_counter(state.regs@, vcpu_index, register_id),
{
    proof {
        lemma_counter_registers_have_eight_bytes();
    }
    let ghost regs = state.regs@;
    let mut counter: Option<u64> = None;
    let mut i: usize = 0;
    while i < state.regs.len()
        invariant
            i <= regs.len(),
            regs == state.regs@,
            registers_wf(regs),
            register_size(register_id) == 8,
            is_counter(register_id) || registers_with_id(regs, register_id).len() == 1,
            match counter {
                None => registers_with_id(regs.take(i as int), register_id).len() == 0,
                Some(value) => {
                    &&& registers_with_id(regs.take(i as int), register_id).len() == 1
                    &&& value == spec_u64_from_le_bytes(
                        registers_with_id(regs.take(i as int), register_id)[0].1,
                    )
                },
            },
        decreases regs.len() - i,
    {
        let register = state.regs.get(i);
        proof {
            lemma_registers_with_id_of_a_prefix(regs, i as int, register_id);
        }
        if register.id == register_id {
            if counter.is_some() {
                return Err(
                    if register_id == SYS_CNTPCT_EL0 {
                        CounterError::DuplicateSavedCounter(vcpu_index)
                    } else {
                        CounterError::DuplicateSavedVirtualCounter(vcpu_index)
                    },
                );
            }
            counter = Some(register.value());
        }
        i += 1;
    }
    assert(regs.take(i as int) == regs);
    match counter {
        Some(value) => Ok(value),
        None => Err(
            if register_id == SYS_CNTPCT_EL0 {
                CounterError::MissingSavedCounter(vcpu_index)
            } else {
                CounterError::MissingSavedVirtualCounter(vcpu_index)
            },
        ),
    }
}

/// One more register adds itself to the registers with its identifier, and the whole list has no
/// fewer of them.
proof fn lemma_registers_with_id_of_a_prefix(regs: Seq<(u64, Seq<u8>)>, i: int, id: u64)
    requires
        0 <= i < regs.len(),
    ensures
        registers_with_id(regs.take(i + 1), id) == if regs[i].0 == id {
            registers_with_id(regs.take(i), id).push(regs[i])
        } else {
            registers_with_id(regs.take(i), id)
        },
        registers_with_id(regs.take(i + 1), id).len() <= registers_with_id(regs, id).len(),
    decreases regs.len() - i,
{
    reveal(Seq::filter);
    assert(regs.take(i + 1).drop_last() == regs.take(i));
    if i + 1 == regs.len() {
        assert(regs.take(i + 1) == regs);
    } else {
        lemma_registers_with_id_of_a_prefix(regs, i + 1, id);
    }
}

/// The counter at which a snapshot continues: that of the first vCPU.
pub open spec fn canonical_counter(states: Seq<VcpuState>) -> Result<u64, CounterError> {
    if states.len() == 0 {
        Err(CounterError::NoVcpuState)
    } else {
        saved_counter(states[0].regs@, 0, SYS_CNTPCT_EL0)
    }
}

/// Returns the counter at which a snapshot continues.
///
/// Paused vCPU threads capture their states independently, so their counter samples need not
/// match. The sample of the first vCPU is the one that counts.
pub fn canonical_saved_counter(states: &[VcpuState]) -> (r: Result<u64, CounterError>)
    requires
        0 < states@.len() ==> registers_wf(states@[0].regs@),
    ensures
        r == canonical_counter(states@),
{
    if states.len() == 0 {
        return Err(CounterError::NoVcpuState);
    }
    unique_saved_counter(&states[0], 0, SYS_CNTPCT_EL0)
}

/// What a register becomes when the counters of its vCPU are moved back by `delta`, to the
/// physical counter `paused_counter`: the counters change and every other register stays.
pub open spec fn normalized_register(
    reg: (u64, Seq<u8>),
    paused_counter: u64,
    delta: u64,
) -> (u64, Seq<u8>) {
    if reg.0 == SYS_CNTPCT_EL0 {
        (reg.0, spec_u64_to_le_bytes(paused_counter))
    } else if reg.0 == KVM_REG_ARM_TIMER_CNT {
        (reg.0, spec_u64_to_le_bytes(counter_sub(spec_u64_from_le_bytes(reg.1), delta)))
    } else {
        reg
    }
}

/// What registers become when their counters are moved back by `delta`.
pub open spec fn moved_registers(
    regs: Seq<(u64, Seq<u8>)>,
    paused_counter: u64,
    delta: u64,
) -> Seq<(u64, Seq<u8>)> {
    regs.map_values(|reg: (u64, Seq<u8>)| normalized_register(reg, paused_counter, delta))
}

/// How far the saved physical counter of a vCPU is past the pause point.
pub open spec fn pause_to_save_delta(regs: Seq<(u64, Seq<u8>)>, paused_counter: u64) -> u64 {
    counter_sub(saved_counter(regs, 0, SYS_CNTPCT_EL0)->Ok_0, paused_counter)
}

/// What the registers of a vCPU become when its counters are moved back to the pause point.
pub open spec fn normalized_registers(
    regs: Seq<(u64, Seq<u8>)>,
    paused_counter: u64,
) -> Seq<(u64, Seq<u8>)> {
    moved_registers(regs, paused_counter, pause_to_save_delta(regs, paused_counter))
}

/// Why the counters of a vCPU cannot be moved back to the pause point, if they cannot.
pub open spec fn normalization_fault(
    regs: Seq<(u64, Seq<u8>)>,
    vcpu_index: usize,
) -> Option<CounterError> {
    match saved_counter(regs, vcpu_index, SYS_CNTPCT_EL0) {
        Err(error) => Some(error),
        Ok(_) => match saved_counter(regs, vcpu_index, KVM_REG_ARM_TIMER_CNT) {
            Err(error) => Some(error),
            Ok(_) => None,
        },
    }
}

/// Every vCPU has well-formed registers.
pub open spec fn states_wf(states: Seq<VcpuState>) -> bool {
    forall|i: int| 0 <= i < states.len() ==> registers_wf((#[trigger] states[i]).regs@)
}

/// Whether the counters of vCPU `i` can be moved back, and `after` is what `before` becomes.
pub open spec fn is_normalized(
    before: Seq<VcpuState>,
    after: Seq<VcpuState>,
    i: int,
    paused_counter: u64,
) -> bool {
    &&& normalization_fault(before[i].regs@, i as usize) is None
    &&& after[i].regs@ == normalized_registers(before[i].regs@, paused_counter)
    &&& after[i].mpidr == before[i].mpidr
}

/// Whether the counters of the vCPUs before vCPU `k` were moved back, and those of vCPU `k` cannot
/// be, for the reason `error`, so that neither its state nor those after it were changed.
pub open spec fn normalization_stopped(
    before: Seq<VcpuState>,
    after: Seq<VcpuState>,
    k: int,
    paused_counter: u64,
    error: CounterError,
) -> bool {
    &&& 0 <= k < before.len()
    &&& normalization_fault(before[k].regs@, k as usize) == Some(error)
    &&& forall|i: int| 0 <= i < k ==> #[trigger] is_normalized(before, after, i, paused_counter)
    &&& forall|i: int| k <= i < before.len() ==> #[trigger] after[i] == before[i]
}

/// Moves the counters in a list of registers back by `delta`.
fn move_registers(regs: &mut Aarch64RegisterVec, paused_counter: u64, delta: u64)
    requires
        registers_wf(old(regs)@),
    ensures
        final(regs)@ == moved_registers(old(regs)@, paused_counter, delta),
        registers_wf(final(regs)@),
{
    proof {
        lemma_counter_registers_have_eight_bytes();
        lemma_auto_spec_u64_to_from_le_bytes();
    }
    let ghost before = regs@;
    let count: usize = regs.len();
    let mut i: usize = 0;
    while i < count
        invariant
            i <= count == before.len() == regs@.len(),
            registers_wf(before),
            register_size(SYS_CNTPCT_EL0) == 8,
            register_size(KVM_REG_ARM_TIMER_CNT) == 8,
            forall|j: int|
                0 <= j < i ==> #[trigger] regs@[j] == normalized_register(
                    before[j],
                    paused_counter,
                    delta,
                ),
            forall|j: int| i <= j < count ==> #[trigger] regs@[j] == before[j],
        decreases count - i,
    {
        let register = regs.get(i);
        let id: u64 = register.id;
        if id == SYS_CNTPCT_EL0 {
            regs.set_value(i, paused_counter);
        } else if id == KVM_REG_ARM_TIMER_CNT {
            proof {
                reveal(wrapped);
            }
            let value: u64 = register.value().wrapping_sub(delta);
            regs.set_value(i, value);
        }
        i += 1;
    }
    assert(regs@ == moved_registers(before, paused_counter, delta));
    assert forall|j: int| 0 <= j < regs@.len() implies (#[trigger] regs@[j]).1.len()
        == register_size(regs@[j].0) by {
        assert(regs@[j] == normalized_register(before[j], paused_counter, delta));
    }
}

/// Moves the saved counters of every vCPU back to the point at which the vCPUs paused.
///
/// The counter keeps advancing after a vCPU acknowledges the pause. Saving its registers later
/// would age every timer by the delay. Both counters of a vCPU are moved back by that delay, which
/// keeps their relation.
///
/// The states of the vCPUs before the first one whose counters cannot be moved are changed; its
/// own state and those after it are not.
pub fn normalize_snapshot_counters(
    states: &mut [VcpuState],
    paused_physical_counter: u64,
) -> (r: Result<(), CounterError>)
    requires
        states_wf(old(states)@),
    ensures
        final(states)@.len() == old(states)@.len(),
        states_wf(final(states)@),
        match r {
            Ok(()) => {
                &&& 0 < old(states)@.len()
                &&& forall|i: int|
                    0 <= i < old(states)@.len() ==> #[trigger] is_normalized(
                        old(states)@,
                        final(states)@,
                        i,
                        paused_physical_counter,
                    )
            },
            Err(error) => if old(states)@.len() == 0 {
                error == CounterError::NoVcpuState
            } else {
                exists|k: int| #[trigger]
                    normalization_stopped(
                        old(states)@,
                        final(states)@,
                        k,
                        paused_physical_counter,
                        error,
                    )
            },
        },
{
    if states.len() == 0 {
        return Err(CounterError::NoVcpuState);
    }
    let ghost before = states@;
    let count: usize = states.len();
    let mut vcpu_index: usize = 0;
    while vcpu_index < count
        invariant
            0 < count == before.len() == states@.len(),
            before == old(states)@,
            vcpu_index <= count,
            states_wf(states@),
            forall|i: int|
                0 <= i < vcpu_index ==> #[trigger] is_normalized(
                    before,
                    states@,
                    i,
                    paused_physical_counter,
                ),
            forall|i: int| vcpu_index <= i < count ==> #[trigger] states@[i] == before[i],
        decreases count - vcpu_index,
    {
        let ghost current = states@;
        assert(current[vcpu_index as int] == before[vcpu_index as int]);
        let saved_physical: u64 = match unique_saved_counter(
            &states[vcpu_index],
            vcpu_index,
            SYS_CNTPCT_EL0,
        ) {
            Ok(counter) => counter,
            Err(error) => {
                assert(normalization_stopped(
                    before,
                    states@,
                    vcpu_index as int,
                    paused_physical_counter,
                    error,
                ));
                return Err(error);
            },
        };
        match unique_saved_counter(&states[vcpu_index], vcpu_index, KVM_REG_ARM_TIMER_CNT) {
            Ok(_) => {},
            Err(error) => {
                assert(normalization_stopped(
                    before,
                    states@,
                    vcpu_index as int,
                    paused_physical_counter,
                    error,
                ));
                return Err(error);
            },
        }
        proof {
            reveal(wrapped);
        }
        let pause_to_save_delta: u64 = saved_physical.wrapping_sub(paused_physical_counter);
        move_registers(&mut states[vcpu_index].regs, paused_physical_counter, pause_to_save_delta);
        proof {
            assert forall|i: int| 0 <= i < count && i != vcpu_index implies #[trigger] states@[i]
                == current[i] by {}
            assert forall|i: int| 0 <= i <= vcpu_index implies #[trigger] is_normalized(
                before,
                states@,
                i,
                paused_physical_counter,
            ) by {
                if i < vcpu_index {
                    assert(is_normalized(before, current, i, paused_physical_counter));
                    assert(states@[i] == current[i]);
                }
            }
        }
        vcpu_index += 1;
    }
    Ok(())
}

/// Moving counters changes no identifier, so it commutes with picking the registers that have one.
proof fn lemma_registers_with_id_of_moved(
    regs: Seq<(u64, Seq<u8>)>,
    id: u64,
    paused_counter: u64,
    delta: u64,
)
    ensures
        registers_with_id(moved_registers(regs, paused_counter, delta), id) == moved_registers(
            registers_with_id(regs, id),
            paused_counter,
            delta,
        ),
    decreases regs.len(),
{
    reveal(Seq::filter);
    let moved = moved_registers(regs, paused_counter, delta);
    if regs.len() > 0 {
        let rest = regs.drop_last();
        assert(moved.drop_last() == moved_registers(rest, paused_counter, delta));
        assert(moved.last() == normalized_register(regs.last(), paused_counter, delta));
        lemma_registers_with_id_of_moved(rest, id, paused_counter, delta);
        assert(registers_with_id(moved, id) == moved_registers(
            registers_with_id(regs, id),
            paused_counter,
            delta,
        ));
    } else {
        assert(registers_with_id(moved, id) == moved_registers(
            registers_with_id(regs, id),
            paused_counter,
            delta,
        ));
    }
}

/// The registers with an identifier have that identifier.
proof fn lemma_registers_with_id_have_it(regs: Seq<(u64, Seq<u8>)>, id: u64)
    ensures
        forall|i: int|
            0 <= i < registers_with_id(regs, id).len() ==> #[trigger] registers_with_id(
                regs,
                id,
            )[i].0 == id,
    decreases regs.len(),
{
    reveal(Seq::filter);
    if regs.len() > 0 {
        lemma_registers_with_id_have_it(regs.drop_last(), id);
    }
}

/// Moving the counters of a vCPU back keeps their relation: its physical counter becomes the pause
/// point, and its virtual counter stays as far from it as it was.
pub proof fn law_normalization_keeps_the_counters_apart(
    regs: Seq<(u64, Seq<u8>)>,
    vcpu_index: usize,
    paused_counter: u64,
)
    requires
        normalization_fault(regs, vcpu_index) is None,
    ensures
        ({
            let after = normalized_registers(regs, paused_counter);
            let physical = saved_counter(regs, vcpu_index, SYS_CNTPCT_EL0)->Ok_0;
            let virtual_counter = saved_counter(regs, vcpu_index, KVM_REG_ARM_TIMER_CNT)->Ok_0;
            let after_virtual = saved_counter(after, vcpu_index, KVM_REG_ARM_TIMER_CNT)->Ok_0;
            &&& normalization_fault(after, vcpu_index) is None
            &&& saved_counter(after, vcpu_index, SYS_CNTPCT_EL0) == Ok::<_, CounterError>(
                paused_counter,
            )
            &&& counter_sub(paused_counter, after_virtual) == counter_sub(physical, virtual_counter)
        }),
{
    let delta = pause_to_save_delta(regs, paused_counter);
    lemma_auto_spec_u64_to_from_le_bytes();
    lemma_registers_with_id_of_moved(regs, SYS_CNTPCT_EL0, paused_counter, delta);
    lemma_registers_with_id_of_moved(regs, KVM_REG_ARM_TIMER_CNT, paused_counter, delta);
    lemma_registers_with_id_have_it(regs, SYS_CNTPCT_EL0);
    lemma_registers_with_id_have_it(regs, KVM_REG_ARM_TIMER_CNT);
    let physical = saved_counter(regs, vcpu_index, SYS_CNTPCT_EL0)->Ok_0;
    let virtual_counter = saved_counter(regs, vcpu_index, KVM_REG_ARM_TIMER_CNT)->Ok_0;
    lemma_wrapped_u64(virtual_counter);
    lemma_wrapped_u64(paused_counter);
    lemma_wrapped(virtual_counter as int, physical - paused_counter);
    lemma_wrapped(paused_counter as int, virtual_counter - (physical - paused_counter));
}

/// Moving the counters of a vCPU back changes nothing but its counters.
pub proof fn law_normalization_keeps_other_registers(
    regs: Seq<(u64, Seq<u8>)>,
    paused_counter: u64,
)
    ensures
        normalized_registers(regs, paused_counter).len() == regs.len(),
        forall|i: int|
            0 <= i < regs.len() ==> (#[trigger] normalized_registers(regs, paused_counter)[i]).0
                == regs[i].0,
        forall|i: int|
            0 <= i < regs.len() && !is_counter(regs[i].0) ==> (#[trigger] normalized_registers(
                regs,
                paused_counter,
            )[i]) == regs[i],
{
}

/// Moving counters back to a pause point at which they are changes nothing.
pub proof fn law_normalization_is_idempotent(
    regs: Seq<(u64, Seq<u8>)>,
    vcpu_index: usize,
    paused_counter: u64,
)
    requires
        normalization_fault(regs, vcpu_index) is None,
    ensures
        ({
            let after = normalized_registers(regs, paused_counter);
            normalized_registers(after, paused_counter) == after
        }),
{
    let after = normalized_registers(regs, paused_counter);
    lemma_auto_spec_u64_to_from_le_bytes();
    law_normalization_keeps_the_counters_apart(regs, vcpu_index, paused_counter);
    lemma_wrapped_u64(0);
    assert(pause_to_save_delta(after, paused_counter) == 0);
    let again = normalized_registers(after, paused_counter);
    assert forall|i: int| 0 <= i < after.len() implies #[trigger] again[i] == after[i] by {
        assert(again[i] == normalized_register(after[i], paused_counter, 0));
        lemma_wrapped_u64(spec_u64_from_le_bytes(after[i].1));
    }
    assert(again == after);
}

/// A snapshot whose counters were moved back continues at the pause point, and all of its vCPUs
/// agree on it.
pub proof fn law_a_normalized_snapshot_continues_at_the_pause_point(
    before: Seq<VcpuState>,
    after: Seq<VcpuState>,
    paused_counter: u64,
)
    requires
        0 < before.len() == after.len() <= usize::MAX,
        forall|i: int|
            0 <= i < before.len() ==> #[trigger] is_normalized(before, after, i, paused_counter),
    ensures
        canonical_counter(after) == Ok::<_, CounterError>(paused_counter),
        forall|i: int|
            0 <= i < after.len() ==> #[trigger] saved_counter(
                after[i].regs@,
                i as usize,
                SYS_CNTPCT_EL0,
            ) == Ok::<_, CounterError>(paused_counter),
{
    assert forall|i: int| 0 <= i < after.len() implies #[trigger] saved_counter(
        after[i].regs@,
        i as usize,
        SYS_CNTPCT_EL0,
    ) == Ok::<_, CounterError>(paused_counter) by {
        assert(is_normalized(before, after, i, paused_counter));
        law_normalization_keeps_the_counters_apart(before[i].regs@, i as usize, paused_counter);
    }
    assert(saved_counter(after[0].regs@, 0int as usize, SYS_CNTPCT_EL0) is Ok);
}

/// How many registers of a list have an identifier, and which.
proof fn lemma_count_of_registers_with_id(regs: Seq<(u64, Seq<u8>)>, id: u64, i: int, j: int)
    requires
        0 <= i <= j < regs.len() || regs.len() == 0,
    ensures
        (forall|k: int| 0 <= k < regs.len() ==> (#[trigger] regs[k]).0 != id) ==> registers_with_id(
            regs,
            id,
        ).len() == 0,
        0 < regs.len() && regs[i].0 == id ==> 1 <= registers_with_id(regs, id).len(),
        0 < regs.len() && regs[i].0 == id && (forall|k: int|
            0 <= k < regs.len() && k != i ==> (#[trigger] regs[k]).0 != id) ==> registers_with_id(
            regs,
            id,
        ) == seq![regs[i]],
        i < j && 0 < regs.len() && regs[i].0 == id && regs[j].0 == id ==> 2 <= registers_with_id(
            regs,
            id,
        ).len(),
    decreases regs.len(),
{
    reveal(Seq::filter);
    if regs.len() > 0 {
        let rest = regs.drop_last();
        assert forall|k: int| 0 <= k < rest.len() implies #[trigger] rest[k] == regs[k] by {}
        if i == rest.len() {
            lemma_count_of_registers_with_id(rest, id, 0, 0);
            if (forall|k: int| 0 <= k < regs.len() && k != i ==> (#[trigger] regs[k]).0 != id) {
                assert forall|k: int| 0 <= k < rest.len() implies (#[trigger] rest[k]).0 != id by {
                    assert(regs[k].0 != id);
                }
            }
        } else if j == rest.len() {
            lemma_count_of_registers_with_id(rest, id, i, i);
        } else {
            lemma_count_of_registers_with_id(rest, id, i, j);
        }
        if (forall|k: int| 0 <= k < regs.len() ==> (#[trigger] regs[k]).0 != id) {
            assert forall|k: int| 0 <= k < rest.len() implies (#[trigger] rest[k]).0 != id by {
                assert(regs[k].0 != id);
            }
        }
        if i < rest.len() && (forall|k: int|
            0 <= k < regs.len() && k != i ==> (#[trigger] regs[k]).0 != id) {
            assert forall|k: int| 0 <= k < rest.len() && k != i implies (#[trigger] rest[k]).0
                != id by {
                assert(regs[k].0 != id);
            }
            assert(regs.last().0 != id);
        }
    }
}

/// The counters are the registers with these two identifiers, and no others.
pub proof fn law_two_registers_are_counters(id: u64)
    ensures
        is_counter(id) <==> id == 0x6030_0000_0013_df01 || id == 0x6030_0000_0013_df1a,
        SYS_CNTPCT_EL0 == 0x6030_0000_0013_df01,
        KVM_REG_ARM_TIMER_CNT == 0x6030_0000_0013_df1a,
{
}

/// The saved counter is what the one register with the identifier holds, in little-endian order,
/// wherever it is in the list.
pub proof fn law_one_register_is_the_saved_counter(
    regs: Seq<(u64, Seq<u8>)>,
    vcpu_index: usize,
    id: u64,
    i: int,
)
    requires
        0 <= i < regs.len(),
        regs[i].0 == id,
        forall|k: int| 0 <= k < regs.len() && k != i ==> (#[trigger] regs[k]).0 != id,
    ensures
        saved_counter(regs, vcpu_index, id) == Ok::<u64, CounterError>(
            spec_u64_from_le_bytes(regs[i].1),
        ),
{
    lemma_count_of_registers_with_id(regs, id, i, i);
}

/// Without a register that has the identifier, the counter of the vCPU is missing.
pub proof fn law_no_register_is_a_missing_counter(
    regs: Seq<(u64, Seq<u8>)>,
    vcpu_index: usize,
    id: u64,
)
    requires
        forall|k: int| 0 <= k < regs.len() ==> (#[trigger] regs[k]).0 != id,
    ensures
        id == SYS_CNTPCT_EL0 ==> saved_counter(regs, vcpu_index, id) == Err::<u64, _>(
            CounterError::MissingSavedCounter(vcpu_index),
        ),
        id != SYS_CNTPCT_EL0 ==> saved_counter(regs, vcpu_index, id) == Err::<u64, _>(
            CounterError::MissingSavedVirtualCounter(vcpu_index),
        ),
{
    lemma_count_of_registers_with_id(regs, id, 0, 0);
}

/// With two registers that have the identifier, whatever they hold, the counter of the vCPU is
/// there more than once.
pub proof fn law_two_registers_are_a_duplicate_counter(
    regs: Seq<(u64, Seq<u8>)>,
    vcpu_index: usize,
    id: u64,
    i: int,
    j: int,
)
    requires
        0 <= i < j < regs.len(),
        regs[i].0 == id,
        regs[j].0 == id,
    ensures
        id == SYS_CNTPCT_EL0 ==> saved_counter(regs, vcpu_index, id) == Err::<u64, _>(
            CounterError::DuplicateSavedCounter(vcpu_index),
        ),
        id != SYS_CNTPCT_EL0 ==> saved_counter(regs, vcpu_index, id) == Err::<u64, _>(
            CounterError::DuplicateSavedVirtualCounter(vcpu_index),
        ),
{
    lemma_count_of_registers_with_id(regs, id, i, j);
}

/// A snapshot continues at the physical counter of its first vCPU, whatever the states of the
/// others hold. Without any vCPU there is none.
pub proof fn law_the_first_vcpu_is_canonical(states: Seq<VcpuState>, other: Seq<VcpuState>)
    ensures
        states.len() == 0 ==> canonical_counter(states) == Err::<u64, _>(CounterError::NoVcpuState),
        0 < states.len() ==> canonical_counter(states) == saved_counter(
            states[0].regs@,
            0,
            SYS_CNTPCT_EL0,
        ),
        0 < states.len() && 0 < other.len() && states[0] == other[0] ==> canonical_counter(states)
            == canonical_counter(other),
{
}

/// When the one physical counter and the one virtual counter of a vCPU are moved back, the physical
/// one becomes the pause point and the virtual one goes back by as much. Every other register, and
/// every identifier, stays as it is.
pub proof fn law_normalization_moves_both_counters_alike(
    regs: Seq<(u64, Seq<u8>)>,
    paused_counter: u64,
    p: int,
    v: int,
)
    requires
        0 <= p < regs.len(),
        regs[p].0 == SYS_CNTPCT_EL0,
        forall|k: int| 0 <= k < regs.len() && k != p ==> (#[trigger] regs[k]).0 != SYS_CNTPCT_EL0,
        0 <= v < regs.len(),
        regs[v].0 == KVM_REG_ARM_TIMER_CNT,
        forall|k: int|
            0 <= k < regs.len() && k != v ==> (#[trigger] regs[k]).0 != KVM_REG_ARM_TIMER_CNT,
    ensures
        ({
            let after = normalized_registers(regs, paused_counter);
            &&& after.len() == regs.len()
            &&& after[p] == (regs[p].0, spec_u64_to_le_bytes(paused_counter))
            &&& after[v].0 == regs[v].0
            &&& after[v].1 == spec_u64_to_le_bytes(spec_u64_from_le_bytes(after[v].1))
            &&& (spec_u64_from_le_bytes(regs[v].1) - spec_u64_from_le_bytes(after[v].1))
                % 0x1_0000_0000_0000_0000 == (spec_u64_from_le_bytes(regs[p].1) - paused_counter)
                % 0x1_0000_0000_0000_0000
            &&& forall|k: int|
                0 <= k < regs.len() && k != p && k != v ==> #[trigger] after[k] == regs[k]
        }),
        forall|vcpu_index: usize| #[trigger] normalization_fault(regs, vcpu_index) is None,
{
    lemma_auto_spec_u64_to_from_le_bytes();
    law_one_register_is_the_saved_counter(regs, 0, SYS_CNTPCT_EL0, p);
    assert forall|vcpu_index: usize| #[trigger] normalization_fault(regs, vcpu_index) is None by {
        law_one_register_is_the_saved_counter(regs, vcpu_index, SYS_CNTPCT_EL0, p);
        law_one_register_is_the_saved_counter(regs, vcpu_index, KVM_REG_ARM_TIMER_CNT, v);
    }
    reveal(wrapped);
    let after = normalized_registers(regs, paused_counter);
    let delta = pause_to_save_delta(regs, paused_counter);
    assert(after[p] == normalized_register(regs[p], paused_counter, delta));
    assert(after[v] == normalized_register(regs[v], paused_counter, delta));
}

/// The counters of a vCPU can be moved back exactly if it has one of each. If it has not, the
/// physical counter is what is complained about first.
pub proof fn law_normalization_needs_both_counters(regs: Seq<(u64, Seq<u8>)>, vcpu_index: usize)
    ensures
        normalization_fault(regs, vcpu_index) is None <==> saved_counter(
            regs,
            vcpu_index,
            SYS_CNTPCT_EL0,
        ) is Ok && saved_counter(regs, vcpu_index, KVM_REG_ARM_TIMER_CNT) is Ok,
        saved_counter(regs, vcpu_index, SYS_CNTPCT_EL0) matches Err(error) ==> normalization_fault(
            regs,
            vcpu_index,
        ) == Some(error),
        saved_counter(regs, vcpu_index, SYS_CNTPCT_EL0) is Ok ==> (saved_counter(
            regs,
            vcpu_index,
            KVM_REG_ARM_TIMER_CNT,
        ) matches Err(error) ==> normalization_fault(regs, vcpu_index) == Some(error)),
{
}

/// A vCPU whose counters were moved back has one counter of each kind, keeps its affinity, has as
/// many registers as before with the same identifiers, and holds what it held in all that are no
/// counters.
pub proof fn law_a_normalized_vcpu_keeps_the_rest(
    before: Seq<VcpuState>,
    after: Seq<VcpuState>,
    i: int,
    paused_counter: u64,
)
    requires
        is_normalized(before, after, i, paused_counter),
    ensures
        saved_counter(before[i].regs@, i as usize, SYS_CNTPCT_EL0) is Ok,
        saved_counter(before[i].regs@, i as usize, KVM_REG_ARM_TIMER_CNT) is Ok,
        after[i].mpidr == before[i].mpidr,
        after[i].regs@ == normalized_registers(before[i].regs@, paused_counter),
        after[i].regs@.len() == before[i].regs@.len(),
        forall|k: int|
            0 <= k < before[i].regs@.len() ==> (#[trigger] after[i].regs@[k]).0
                == before[i].regs@[k].0 && (before[i].regs@[k].0 == SYS_CNTPCT_EL0
                || before[i].regs@[k].0 == KVM_REG_ARM_TIMER_CNT || after[i].regs@[k]
                == before[i].regs@[k]),
{
}

/// Moving back stops at the first vCPU whose counters cannot be moved, with what is wrong with it:
/// the vCPUs before it have their counters moved, and neither it nor any after it is changed.
pub proof fn law_normalization_stops_at_the_first_fault(
    before: Seq<VcpuState>,
    after: Seq<VcpuState>,
    k: int,
    paused_counter: u64,
    error: CounterError,
)
    requires
        normalization_stopped(before, after, k, paused_counter, error),
    ensures
        0 <= k < before.len(),
        normalization_fault(before[k].regs@, k as usize) == Some(error),
        forall|i: int|
            0 <= i < k ==> (#[trigger] before[i]).mpidr == after[i].mpidr && after[i].regs@
                == normalized_registers(before[i].regs@, paused_counter) && normalization_fault(
                before[i].regs@,
                i as usize,
            ) is None,
        forall|i: int| k <= i < before.len() ==> #[trigger] after[i] == before[i],
{
    assert forall|i: int| 0 <= i < k implies (#[trigger] before[i]).mpidr == after[i].mpidr
        && after[i].regs@ == normalized_registers(before[i].regs@, paused_counter)
        && normalization_fault(before[i].regs@, i as usize) is None by {
        assert(is_normalized(before, after, i, paused_counter));
    }
}

/// States are well-formed exactly if the registers of each vCPU have the sizes that their
/// identifiers say.
pub proof fn law_well_formed_states(states: Seq<VcpuState>)
    ensures
        states_wf(states) <==> forall|i: int, k: int|
            0 <= i < states.len() && 0 <= k < states[i].regs@.len() ==> (
            #[trigger] states[i].regs@[k]).1.len() == register_size(states[i].regs@[k].0),
{
    if forall|i: int, k: int|
        0 <= i < states.len() && 0 <= k < states[i].regs@.len() ==> (
        #[trigger] states[i].regs@[k]).1.len() == register_size(states[i].regs@[k].0) {
        assert forall|i: int| 0 <= i < states.len() implies registers_wf(
            (#[trigger] states[i]).regs@,
        ) by {}
    }
    if states_wf(states) {
        assert forall|i: int, k: int|
            0 <= i < states.len() && 0 <= k < states[i].regs@.len() implies (
        #[trigger] states[i].regs@[k]).1.len() == register_size(states[i].regs@[k].0) by {
            assert(registers_wf(states[i].regs@));
        }
    }
}

/// [`unique_saved_counter`] returns what the one register with the identifier holds. With none, or
/// with two, it returns an error that names the vCPU and the kind of counter.
pub proof fn law_unique_counters_are_returned(
    state: VcpuState,
    vcpu_index: usize,
    id: u64,
    r: Result<u64, CounterError>,
    i: int,
    j: int,
)
    requires
        call_ensures(unique_saved_counter, (&state, vcpu_index, id), r),
        0 <= i < state.regs@.len(),
        0 <= j < state.regs@.len(),
    ensures
        state.regs@[i].0 == id && (forall|k: int|
            0 <= k < state.regs@.len() && k != i ==> (#[trigger] state.regs@[k]).0 != id) ==> r
            == Ok::<u64, CounterError>(spec_u64_from_le_bytes(state.regs@[i].1)),
        state.regs@[i].0 == id && state.regs@[j].0 == id && i < j && id == SYS_CNTPCT_EL0 ==> r
            == Err::<u64, _>(CounterError::DuplicateSavedCounter(vcpu_index)),
        state.regs@[i].0 == id && state.regs@[j].0 == id && i < j && id != SYS_CNTPCT_EL0 ==> r
            == Err::<u64, _>(CounterError::DuplicateSavedVirtualCounter(vcpu_index)),
        (forall|k: int| 0 <= k < state.regs@.len() ==> (#[trigger] state.regs@[k]).0 != id) && id
            == SYS_CNTPCT_EL0 ==> r == Err::<u64, _>(CounterError::MissingSavedCounter(vcpu_index)),
        (forall|k: int| 0 <= k < state.regs@.len() ==> (#[trigger] state.regs@[k]).0 != id) && id
            != SYS_CNTPCT_EL0 ==> r == Err::<u64, _>(
            CounterError::MissingSavedVirtualCounter(vcpu_index),
        ),
{
    let regs = state.regs@;
    if i < j {
        lemma_count_of_registers_with_id(regs, id, i, j);
    } else {
        lemma_count_of_registers_with_id(regs, id, i, i);
    }
}

/// [`canonical_saved_counter`] returns what [`unique_saved_counter`] returns for the physical
/// counter of the first vCPU.
pub proof fn law_the_first_vcpu_gives_the_canonical_counter(
    states: &[VcpuState],
    r: Result<u64, CounterError>,
    first: Result<u64, CounterError>,
)
    requires
        call_ensures(canonical_saved_counter, (states,), r),
        0 < states@.len() ==> call_ensures(
            unique_saved_counter,
            (&states@[0], 0, 0x6030_0000_0013_df01),
            first,
        ),
    ensures
        states@.len() == 0 ==> r == Err::<u64, _>(CounterError::NoVcpuState),
        0 < states@.len() ==> r == first,
{
}

} // verus!
