//! The order in which the vCPUs, the devices and the counter of a virtual machine change state.
//!
//! Each transition is given as the operations it is made of. Pausing and resuming call an operation
//! at most once. It may be called only where its precondition holds, and what the contracts here
//! ask is that each may be called once those that must come before it have succeeded, so it cannot
//! be called out of order. Restoring calls an operation for each vCPU, and its contract says which
//! calls are made.

use vstd::prelude::*;

use crate::error::CounterError;
use crate::restore_operations::{
    installing_gives, is_visit, may_visit, visited, visited_before, RestoreCall, RestoreOperations,
    RestoreStage,
};

verus! {

/// Error of [`pause_in_order`].
pub enum PauseTransitionError<E> {
    /// Counter validation or capture failed and rollback succeeded.
    Counter(CounterError),
    /// Pausing the vCPUs failed before counter capture.
    Pause(E),
    /// Counter capture and the vCPU-resume rollback both failed.
    Rollback(CounterError, E),
}

/// Error of [`resume_in_order`].
pub enum ResumeTransitionError<E> {
    /// Preparing or completing the counter transition failed.
    Counter(CounterError),
    /// Resuming the vCPUs failed after the counter offset was installed.
    Resume(E),
}

/// Pauses vCPUs before their stable counter is captured, and resumes them if that fails.
///
/// If pausing fails, an unknown part of the vCPUs may be paused. No later transition of the counter
/// is safe then, nor when the vCPUs cannot be resumed: both are marked as a fault.
pub fn pause_in_order<E>(
    validate: impl FnOnce() -> Result<(), CounterError>,
    pause_vcpus: impl FnOnce() -> Result<(), E>,
    capture_counter: impl FnOnce() -> Result<(), CounterError>,
    rollback_vcpus: impl FnOnce() -> Result<(), E>,
    mark_faulted: impl FnOnce(),
) -> (r: Result<(), PauseTransitionError<E>>)
    requires
        call_requires(validate, ()),
        call_ensures(validate, (), Ok(())) ==> call_requires(pause_vcpus, ()),
        call_ensures(validate, (), Ok(())) && call_ensures(pause_vcpus, (), Ok(()))
            ==> call_requires(capture_counter, ()),
        forall|error: CounterError|
            call_ensures(validate, (), Ok(())) && call_ensures(pause_vcpus, (), Ok(()))
                && #[trigger] call_ensures(capture_counter, (), Err(error)) ==> call_requires(
                rollback_vcpus,
                (),
            ),
        forall|error: E|
            call_ensures(validate, (), Ok(())) && #[trigger] call_ensures(
                pause_vcpus,
                (),
                Err(error),
            ) ==> call_requires(mark_faulted, ()),
        forall|counter_error: CounterError, error: E|
            call_ensures(validate, (), Ok(())) && call_ensures(pause_vcpus, (), Ok(()))
                && #[trigger] call_ensures(capture_counter, (), Err(counter_error))
                && #[trigger] call_ensures(rollback_vcpus, (), Err(error)) ==> call_requires(
                mark_faulted,
                (),
            ),
    ensures
        match r {
            Ok(()) => {
                &&& call_ensures(validate, (), Ok(()))
                &&& call_ensures(pause_vcpus, (), Ok(()))
                &&& call_ensures(capture_counter, (), Ok(()))
            },
            Err(PauseTransitionError::Counter(error)) => {
                ||| call_ensures(validate, (), Err(error))
                ||| {
                    &&& call_ensures(validate, (), Ok(()))
                    &&& call_ensures(pause_vcpus, (), Ok(()))
                    &&& call_ensures(capture_counter, (), Err(error))
                    &&& call_ensures(rollback_vcpus, (), Ok(()))
                }
            },
            Err(PauseTransitionError::Pause(error)) => {
                &&& call_ensures(validate, (), Ok(()))
                &&& call_ensures(pause_vcpus, (), Err(error))
                &&& call_ensures(mark_faulted, (), ())
            },
            Err(PauseTransitionError::Rollback(counter_error, error)) => {
                &&& call_ensures(validate, (), Ok(()))
                &&& call_ensures(pause_vcpus, (), Ok(()))
                &&& call_ensures(capture_counter, (), Err(counter_error))
                &&& call_ensures(rollback_vcpus, (), Err(error))
                &&& call_ensures(mark_faulted, (), ())
            },
        },
{
    match validate() {
        Ok(unit) => {
            assert(unit == ());
        },
        Err(error) => {
            return Err(PauseTransitionError::Counter(error));
        },
    }
    match pause_vcpus() {
        Ok(unit) => {
            assert(unit == ());
        },
        Err(pause_error) => {
            mark_faulted();
            return Err(PauseTransitionError::Pause(pause_error));
        },
    }
    match capture_counter() {
        Ok(unit) => {
            assert(unit == ());
            Ok(())
        },
        Err(counter_error) => match rollback_vcpus() {
            Ok(unit) => {
                assert(unit == ());
                Err(PauseTransitionError::Counter(counter_error))
            },
            Err(rollback_error) => {
                mark_faulted();
                Err(PauseTransitionError::Rollback(counter_error, rollback_error))
            },
        },
    }
}

/// Installs the counter offset before any device is kicked or any vCPU resumes.
///
/// If resuming fails, some vCPUs may already run. Another offset could move their counter back, so
/// that is marked as a fault, and so is a counter that cannot be marked as running.
pub fn resume_in_order<E>(
    prepare_counter: impl FnOnce() -> Result<(), CounterError>,
    kick_devices: impl FnOnce(),
    resume_vcpus: impl FnOnce() -> Result<(), E>,
    mark_running: impl FnOnce() -> Result<(), CounterError>,
    mark_faulted: impl FnOnce(),
) -> (r: Result<(), ResumeTransitionError<E>>)
    requires
        call_requires(prepare_counter, ()),
        call_ensures(prepare_counter, (), Ok(())) ==> call_requires(kick_devices, ()),
        call_ensures(prepare_counter, (), Ok(())) && call_ensures(kick_devices, (), ())
            ==> call_requires(resume_vcpus, ()),
        call_ensures(prepare_counter, (), Ok(())) && call_ensures(kick_devices, (), ())
            && call_ensures(resume_vcpus, (), Ok(())) ==> call_requires(mark_running, ()),
        forall|error: E|
            call_ensures(prepare_counter, (), Ok(())) && call_ensures(kick_devices, (), ())
                && #[trigger] call_ensures(resume_vcpus, (), Err(error)) ==> call_requires(
                mark_faulted,
                (),
            ),
        forall|error: CounterError|
            call_ensures(prepare_counter, (), Ok(())) && call_ensures(kick_devices, (), ())
                && call_ensures(resume_vcpus, (), Ok(())) && #[trigger] call_ensures(
                mark_running,
                (),
                Err(error),
            ) ==> call_requires(mark_faulted, ()),
    ensures
        match r {
            Ok(()) => {
                &&& call_ensures(prepare_counter, (), Ok(()))
                &&& call_ensures(kick_devices, (), ())
                &&& call_ensures(resume_vcpus, (), Ok(()))
                &&& call_ensures(mark_running, (), Ok(()))
            },
            Err(ResumeTransitionError::Counter(error)) => {
                ||| call_ensures(prepare_counter, (), Err(error))
                ||| {
                    &&& call_ensures(prepare_counter, (), Ok(()))
                    &&& call_ensures(kick_devices, (), ())
                    &&& call_ensures(resume_vcpus, (), Ok(()))
                    &&& call_ensures(mark_running, (), Err(error))
                    &&& call_ensures(mark_faulted, (), ())
                }
            },
            Err(ResumeTransitionError::Resume(error)) => {
                &&& call_ensures(prepare_counter, (), Ok(()))
                &&& call_ensures(kick_devices, (), ())
                &&& call_ensures(resume_vcpus, (), Err(error))
                &&& call_ensures(mark_faulted, (), ())
            },
        },
{
    match prepare_counter() {
        Ok(unit) => {
            assert(unit == ());
        },
        Err(error) => {
            return Err(ResumeTransitionError::Counter(error));
        },
    }
    kick_devices();
    match resume_vcpus() {
        Ok(unit) => {
            assert(unit == ());
        },
        Err(resume_error) => {
            mark_faulted();
            return Err(ResumeTransitionError::Resume(resume_error));
        },
    }
    match mark_running() {
        Ok(unit) => {
            assert(unit == ());
            Ok(())
        },
        Err(counter_error) => {
            mark_faulted();
            Err(ResumeTransitionError::Counter(counter_error))
        },
    }
}

/// Whether `i` is the index of one of `count` vCPUs.
pub open spec fn is_index(count: nat, i: usize) -> bool {
    i < count
}

/// Whether `vcpus` are `count` vCPUs.
pub open spec fn has_count<T>(vcpus: Seq<T>, count: nat) -> bool {
    vcpus.len() == count
}

/// The call of a stage that took vCPU `i` from `before` to `after`.
pub open spec fn visit_call<T, E>(
    stage: RestoreStage,
    i: usize,
    before: T,
    after: T,
) -> RestoreCall<T, E> {
    RestoreCall::Visit(stage, i, before, after, Ok(()))
}

/// The calls of a stage that took the first `count` vCPUs from `before` to `after`, one call for
/// each of them, in order.
pub open spec fn visits<T, E>(
    stage: RestoreStage,
    before: Seq<T>,
    after: Seq<T>,
    count: nat,
) -> Seq<RestoreCall<T, E>> {
    Seq::new(count, |i: int| visit_call(stage, i as usize, before[i], after[i]))
}

/// Whether `calls` are those of a stage that failed on vCPU `k`: the vCPUs before it went from
/// `before` to `after` by one call each, the call for it gave `error`, and there was none for those
/// after it, which stay as they were.
pub open spec fn stops_at<T, E>(
    stage: RestoreStage,
    before: Seq<T>,
    after: Seq<T>,
    k: nat,
    calls: Seq<RestoreCall<T, E>>,
    error: E,
) -> bool {
    &&& k < before.len()
    &&& calls == visits::<T, E>(stage, before, after, k).push(
        RestoreCall::Visit(stage, k as usize, before[k as int], after[k as int], Err(error)),
    )
    &&& forall|i: int| k < i < before.len() ==> #[trigger] after[i] == before[i]
}

/// Whether `calls` are those of a stage that failed.
pub open spec fn stops<T, E>(
    stage: RestoreStage,
    before: Seq<T>,
    after: Seq<T>,
    calls: Seq<RestoreCall<T, E>>,
    error: E,
) -> bool {
    exists|k: nat| #[trigger] stops_at(stage, before, after, k, calls, error)
}

/// The calls that prepare vCPUs, which takes them from `before` to `prepared`, and install the
/// counter on them.
pub open spec fn installs<T, E>(before: Seq<T>, prepared: Seq<T>) -> Seq<RestoreCall<T, E>> {
    visits::<T, E>(RestoreStage::Prepare, before, prepared, before.len()).push(
        RestoreCall::InstallCounter(prepared, Ok(())),
    )
}

/// Whether `calls` are those of a restore that took vCPUs from `before` through `prepared` and
/// `finalized` to `after`.
pub open spec fn restores<T, E>(
    before: Seq<T>,
    prepared: Seq<T>,
    finalized: Seq<T>,
    after: Seq<T>,
    calls: Seq<RestoreCall<T, E>>,
) -> bool {
    &&& prepared.len() == before.len()
    &&& finalized.len() == before.len()
    &&& calls == installs::<T, E>(before, prepared) + visits::<T, E>(
        RestoreStage::Finalize,
        prepared,
        finalized,
        before.len(),
    ) + visits::<T, E>(RestoreStage::Replay, finalized, after, before.len())
}

/// Whether `calls` are those of a restore in which a vCPU could not be finalized.
pub open spec fn stops_finalizing<T, E>(
    before: Seq<T>,
    prepared: Seq<T>,
    after: Seq<T>,
    calls: Seq<RestoreCall<T, E>>,
    error: E,
) -> bool {
    let installing = installs::<T, E>(before, prepared);
    &&& prepared.len() == before.len()
    &&& installing.is_prefix_of(calls)
    &&& stops(
        RestoreStage::Finalize,
        prepared,
        after,
        calls.skip(installing.len() as int),
        error,
    )
}

/// Whether `calls` are those of a restore in which the registers of a vCPU could not be replayed.
pub open spec fn stops_replaying<T, E>(
    before: Seq<T>,
    prepared: Seq<T>,
    finalized: Seq<T>,
    after: Seq<T>,
    calls: Seq<RestoreCall<T, E>>,
    error: E,
) -> bool {
    let finalizing = installs::<T, E>(before, prepared) + visits::<T, E>(
        RestoreStage::Finalize,
        prepared,
        finalized,
        before.len(),
    );
    &&& prepared.len() == before.len()
    &&& finalized.len() == before.len()
    &&& finalizing.is_prefix_of(calls)
    &&& stops(
        RestoreStage::Replay,
        finalized,
        after,
        calls.skip(finalizing.len() as int),
        error,
    )
}

/// What restoring vCPUs comes to: the calls that are made, and the vCPUs that they leave.
pub open spec fn is_restore<T, E>(
    before: Seq<T>,
    calls: Seq<RestoreCall<T, E>>,
    r: Result<(), E>,
    after: Seq<T>,
) -> bool {
    match r {
        Ok(()) => exists|prepared: Seq<T>, finalized: Seq<T>| #[trigger]
            restores(before, prepared, finalized, after, calls),
        Err(error) => {
            ||| stops(RestoreStage::Prepare, before, after, calls, error)
            ||| calls == visits::<T, E>(RestoreStage::Prepare, before, after, before.len()).push(
                RestoreCall::InstallCounter(after, Err(error)),
            )
            ||| exists|prepared: Seq<T>| #[trigger]
                stops_finalizing(before, prepared, after, calls, error)
            ||| exists|prepared: Seq<T>, finalized: Seq<T>| #[trigger]
                stops_replaying(before, prepared, finalized, after, calls, error)
        },
    }
}

/// Calls the operation of a stage on each vCPU in order, until one call fails.
fn visit_in_order<T, E, P, N, F, R>(
    vcpus: &mut [T],
    operations: &mut RestoreOperations<T, E, P, N, F, R>,
    stage: RestoreStage,
) -> (r: Result<(), E>) where
    P: FnMut(usize, &mut T) -> Result<(), E>,
    N: FnOnce(&[T]) -> Result<(), E>,
    F: FnMut(usize, &mut T) -> Result<(), E>,
    R: FnMut(usize, &mut T) -> Result<(), E>,

    requires
        forall|i: usize|
            is_index(old(vcpus)@.len(), i) && visited_before(
                old(operations).visitors(),
                stage,
                i,
                old(vcpus)@,
            ) ==> #[trigger] may_visit(
                old(operations).visitors(),
                stage,
                i,
                old(vcpus)@[i as int],
            ),
    ensures
        final(vcpus)@.len() == old(vcpus)@.len(),
        final(operations).continues(old(operations)),
        final(operations).installer() == old(operations).installer(),
        match r {
            Ok(()) => final(operations).since(old(operations)) == visits::<T, E>(
                stage,
                old(vcpus)@,
                final(vcpus)@,
                old(vcpus)@.len(),
            ),
            Err(error) => stops(
                stage,
                old(vcpus)@,
                final(vcpus)@,
                final(operations).since(old(operations)),
                error,
            ),
        },
        forall|k: int|
            old(operations).calls().len() <= k < final(operations).calls().len() ==> (
            #[trigger] final(operations).calls()[k]) is Visit,
        forall|k: int|
            #![trigger final(operations).calls()[k]]
            old(operations).calls().len() <= k < final(operations).calls().len()
                && final(operations).calls()[k] is Visit ==> exists|vcpu: &mut T| #[trigger]
                is_visit(
                    old(operations).visitors(),
                    vcpu,
                    *final(vcpu),
                    final(operations).calls()[k],
                ),
{
    let ghost before = vcpus@;
    let ghost start = *operations;
    let count: usize = vcpus.len();
    let mut i: usize = 0;
    assert(operations.since(&start) =~= visits::<T, E>(stage, before, vcpus@, 0));
    while i < count
        invariant
            i <= count == before.len() == vcpus@.len(),
            before == old(vcpus)@,
            start == *old(operations),
            operations.continues(&start),
            operations.installer() == start.installer(),
            operations.since(&start) =~= visits::<T, E>(stage, before, vcpus@, i as nat),
            forall|i: usize|
                is_index(before.len(), i) && visited_before(
                    start.visitors(),
                    stage,
                    i,
                    before,
                ) ==> #[trigger] may_visit(
                    start.visitors(),
                    stage,
                    i,
                    before[i as int],
                ),
            visited_before(start.visitors(), stage, i, before),
            forall|k: int|
                start.calls().len() <= k < operations.calls().len() ==> (
                #[trigger] operations.calls()[k]) is Visit,
            forall|k: int|
                #![trigger operations.calls()[k]]
                start.calls().len() <= k < operations.calls().len()
                    && operations.calls()[k] is Visit ==> exists|vcpu: &mut T| #[trigger]
                    is_visit(start.visitors(), vcpu, *final(vcpu), operations.calls()[k]),
            forall|j: int| i <= j < count ==> #[trigger] vcpus@[j] == before[j],
        decreases count - i,
    {
        let ghost current = vcpus@;
        let ghost so_far = *operations;
        assert(current[i as int] == before[i as int]);
        assert(may_visit(start.visitors(), stage, i, before[i as int]));
        let reply = operations.visit(stage, i, &mut vcpus[i]);
        assert(vcpus@ == current.update(i as int, vcpus@[i as int]));
        let ghost call = RestoreCall::Visit(stage, i, before[i as int], vcpus@[i as int], reply);
        assert(operations.calls().last() == call);
        assert(operations.since(&start) =~= so_far.since(&start).push(call));
        assert(visits::<T, E>(stage, before, vcpus@, i as nat) =~= visits::<T, E>(
            stage,
            before,
            current,
            i as nat,
        ));
        match reply {
            Ok(unit) => {
                assert(unit == ());
                assert(visited(start.visitors(), stage, i, before[i as int]));
            },
            Err(error) => {
                assert(stops_at(
                    stage,
                    before,
                    vcpus@,
                    i as nat,
                    operations.since(&start),
                    error,
                ));
                return Err(error);
            },
        }
        assert(visits::<T, E>(stage, before, vcpus@, (i + 1) as nat) =~= visits::<T, E>(
            stage,
            before,
            vcpus@,
            i as nat,
        ).push(call));
        i += 1;
    }
    Ok(())
}

/// Restores all vCPUs in the order that the VM-wide counter needs.
///
/// Every vCPU is prepared before the counter is read. The offset of the counter is then installed
/// before any vCPU is finalized, and every vCPU is finalized before the registers of any are
/// replayed. Each operation is called once for each vCPU, and the first failure ends the restore.
pub fn restore_vcpus_in_order<T, E, P, N, F, R>(
    vcpus: &mut [T],
    operations: &mut RestoreOperations<T, E, P, N, F, R>,
) -> (r: Result<(), E>) where
    P: FnMut(usize, &mut T) -> Result<(), E>,
    N: FnOnce(&[T]) -> Result<(), E>,
    F: FnMut(usize, &mut T) -> Result<(), E>,
    R: FnMut(usize, &mut T) -> Result<(), E>,

    requires
        old(operations).installer() is Some,
        forall|i: usize|
            is_index(old(vcpus)@.len(), i) && visited_before(
                old(operations).visitors(),
                RestoreStage::Prepare,
                i,
                old(vcpus)@,
            ) ==> #[trigger] may_visit(
                old(operations).visitors(),
                RestoreStage::Prepare,
                i,
                old(vcpus)@[i as int],
            ),
        forall|prepared: &[T]|
            prepared@.len() == old(vcpus)@.len() && (forall|i: usize| #[trigger]
                is_index(old(vcpus)@.len(), i) ==> exists|vcpu: &mut T| #[trigger]
                    is_visit(
                        old(operations).visitors(),
                        vcpu,
                        *final(vcpu),
                        visit_call(
                            RestoreStage::Prepare,
                            i,
                            old(vcpus)@[i as int],
                            prepared@[i as int],
                        ),
                    ))
                ==> #[trigger] call_requires(old(operations).installer()->0, (prepared,)),
        forall|prepared: Seq<T>, i: usize|
            prepared.len() == old(vcpus)@.len() && (forall|i: usize| #[trigger]
                is_index(old(vcpus)@.len(), i) ==> exists|vcpu: &mut T| #[trigger]
                    is_visit(
                        old(operations).visitors(),
                        vcpu,
                        *final(vcpu),
                        visit_call(
                            RestoreStage::Prepare,
                            i,
                            old(vcpus)@[i as int],
                            prepared[i as int],
                        ),
                    ))
                && #[trigger] installing_gives(old(operations).installer()->0, prepared, Ok(()))
                && is_index(old(vcpus)@.len(), i) && visited_before(
                    old(operations).visitors(),
                    RestoreStage::Finalize,
                    i,
                    prepared,
                ) ==> #[trigger] may_visit(
                    old(operations).visitors(),
                    RestoreStage::Finalize,
                    i,
                    prepared[i as int],
                ),
        forall|prepared: Seq<T>, finalized: Seq<T>, i: usize|
            prepared.len() == old(vcpus)@.len() && (forall|i: usize| #[trigger]
                is_index(old(vcpus)@.len(), i) ==> exists|vcpu: &mut T| #[trigger]
                    is_visit(
                        old(operations).visitors(),
                        vcpu,
                        *final(vcpu),
                        visit_call(
                            RestoreStage::Prepare,
                            i,
                            old(vcpus)@[i as int],
                            prepared[i as int],
                        ),
                    ))
                && #[trigger] installing_gives(old(operations).installer()->0, prepared, Ok(()))
                && #[trigger] has_count(finalized, old(vcpus)@.len())
                && (forall|i: usize| #[trigger]
                    is_index(old(vcpus)@.len(), i) ==> exists|vcpu: &mut T| #[trigger]
                        is_visit(
                            old(operations).visitors(),
                            vcpu,
                            *final(vcpu),
                            visit_call(
                                RestoreStage::Finalize,
                                i,
                                prepared[i as int],
                                finalized[i as int],
                            ),
                        ))
                && is_index(old(vcpus)@.len(), i) && visited_before(
                    old(operations).visitors(),
                    RestoreStage::Replay,
                    i,
                    finalized,
                ) ==> #[trigger] may_visit(
                    old(operations).visitors(),
                    RestoreStage::Replay,
                    i,
                    finalized[i as int],
                ),
    ensures
        final(vcpus)@.len() == old(vcpus)@.len(),
        final(operations).continues(old(operations)),
        is_restore(old(vcpus)@, final(operations).since(old(operations)), r, final(vcpus)@),
        forall|k: int|
            #![trigger final(operations).calls()[k]]
            old(operations).calls().len() <= k < final(operations).calls().len()
                && final(operations).calls()[k] is Visit ==> exists|vcpu: &mut T| #[trigger]
                is_visit(
                    old(operations).visitors(),
                    vcpu,
                    *final(vcpu),
                    final(operations).calls()[k],
                ),
        forall|k: int|
            old(operations).calls().len() <= k < final(operations).calls().len() ==> (
            #[trigger] final(operations).calls()[k] matches RestoreCall::InstallCounter(
                prepared,
                reply,
            ) ==> installing_gives(old(operations).installer()->0, prepared, reply)),
{
    let ghost before = vcpus@;
    let ghost count = vcpus@.len();
    let ghost start = *operations;
    match visit_in_order(vcpus, operations, RestoreStage::Prepare) {
        Ok(_) => {},
        Err(error) => {
            return Err(error);
        },
    }
    let ghost prepared = vcpus@;
    let ghost after_prepare = *operations;
    proof {
        let base = start.calls().len() as int;
        assert(operations.since(&start).len() == count);
        assert forall|i: usize| #[trigger]
            is_index(count, i) implies exists|vcpu: &mut T| #[trigger]
            is_visit(
                start.visitors(),
                vcpu,
                *final(vcpu),
                visit_call(RestoreStage::Prepare, i, before[i as int], prepared[i as int]),
            ) by {
            assert(operations.since(&start)[i as int] == operations.calls()[base + i as int]);
        }
    }
    let installed = operations.install_counter(vcpus);
    let ghost after_install = *operations;
    match installed {
        Ok(unit) => {
            assert(unit == ());
        },
        Err(error) => {
            assert(operations.since(&start) =~= after_prepare.since(&start).push(
                RestoreCall::InstallCounter(prepared, Err(error)),
            ));
            return Err(error);
        },
    }
    let ghost installing = installs::<T, E>(before, prepared);
    assert(operations.since(&start) =~= installing);
    match visit_in_order(vcpus, operations, RestoreStage::Finalize) {
        Ok(_) => {},
        Err(error) => {
            let ghost calls = operations.since(&start);
            assert(calls =~= installing + operations.since(&after_install));
            assert(calls.skip(installing.len() as int) =~= operations.since(&after_install));
            assert(stops_finalizing(before, prepared, vcpus@, calls, error));
            return Err(error);
        },
    }
    let ghost finalized = vcpus@;
    let ghost after_finalize = *operations;
    let ghost finalizing = installing + visits::<T, E>(
        RestoreStage::Finalize,
        prepared,
        finalized,
        count,
    );
    assert(operations.since(&start) =~= finalizing);
    proof {
        let base = after_install.calls().len() as int;
        assert(has_count(finalized, count));
        assert(operations.since(&after_install).len() == count);
        assert forall|i: usize| #[trigger]
            is_index(count, i) implies exists|vcpu: &mut T| #[trigger]
            is_visit(
                start.visitors(),
                vcpu,
                *final(vcpu),
                visit_call(
                    RestoreStage::Finalize,
                    i,
                    prepared[i as int],
                    finalized[i as int],
                ),
            ) by {
            assert(operations.since(&after_install)[i as int] == operations.calls()[base
                + i as int]);
        }
    }
    let replayed = visit_in_order(vcpus, operations, RestoreStage::Replay);
    let ghost calls = operations.since(&start);
    assert(calls =~= finalizing + operations.since(&after_finalize));
    match replayed {
        Ok(_) => {
            assert(restores(before, prepared, finalized, vcpus@, calls));
            Ok(())
        },
        Err(error) => {
            assert(calls.skip(finalizing.len() as int) =~= operations.since(&after_finalize));
            assert(stops_replaying(before, prepared, finalized, vcpus@, calls, error));
            Err(error)
        },
    }
}

/// What the calls of a restore of vCPUs have to do with one another, whether it succeeds or not.
spec fn comes_in_stages<T, E>(
    before: Seq<T>,
    calls: Seq<RestoreCall<T, E>>,
    r: Result<(), E>,
    after: Seq<T>,
) -> bool {
    let n = before.len() as int;
    &&& calls.len() <= 3 * n + 1
    &&& forall|k: int|
        0 <= k < calls.len() && k < n ==> {
            &&& #[trigger] calls[k] is Visit
            &&& calls[k]->Visit_0 is Prepare
            &&& calls[k]->Visit_1 == k
            &&& calls[k]->Visit_2 == before[k]
        }
    &&& n < calls.len() ==> {
        &&& calls[n] is InstallCounter
        &&& calls[n]->InstallCounter_0.len() == n
        &&& forall|i: int|
            0 <= i < n ==> #[trigger] calls[n]->InstallCounter_0[i] == calls[i]->Visit_3
    }
    &&& forall|k: int|
        n < k < calls.len() && k <= 2 * n ==> {
            &&& #[trigger] calls[k] is Visit
            &&& calls[k]->Visit_0 is Finalize
            &&& calls[k]->Visit_1 == k - n - 1
            &&& calls[k]->Visit_2 == calls[k - n - 1]->Visit_3
        }
    &&& forall|k: int|
        2 * n < k < calls.len() && n < k ==> {
            &&& #[trigger] calls[k] is Visit
            &&& calls[k]->Visit_0 is Replay
            &&& calls[k]->Visit_1 == k - 2 * n - 1
            &&& calls[k]->Visit_2 == calls[k - n]->Visit_3
        }
    &&& forall|k: int|
        0 <= k < calls.len() - 1 ==> if #[trigger] calls[k] is Visit {
            calls[k]->Visit_4 is Ok
        } else {
            calls[k]->InstallCounter_1 is Ok
        }
    &&& 0 < calls.len()
    &&& calls.last() is Visit ==> calls.last()->Visit_4 == r
    &&& calls.last() is InstallCounter ==> calls.last()->InstallCounter_1 == r
    &&& r is Ok ==> calls.len() == 3 * n + 1
    &&& forall|i: int|
        0 <= i < n ==> #[trigger] after[i] == if 2 * n + 1 + i < calls.len() {
            calls[2 * n + 1 + i]->Visit_3
        } else if n + 1 + i < calls.len() {
            calls[n + 1 + i]->Visit_3
        } else if i < calls.len() {
            calls[i]->Visit_3
        } else {
            before[i]
        }
}

/// The calls of a restore that succeeds come in stages.
#[verifier::spinoff_prover]
proof fn lemma_success_comes_in_stages<T, E>(
    before: Seq<T>,
    prepared: Seq<T>,
    finalized: Seq<T>,
    after: Seq<T>,
    calls: Seq<RestoreCall<T, E>>,
)
    requires
        before.len() == after.len(),
        before.len() <= usize::MAX,
        restores(before, prepared, finalized, after, calls),
    ensures
        comes_in_stages(before, calls, Ok(()), after),
{
}

/// The calls of a restore in which a vCPU cannot be prepared come in stages.
#[verifier::spinoff_prover]
proof fn lemma_failed_preparation_comes_in_stages<T, E>(
    before: Seq<T>,
    after: Seq<T>,
    calls: Seq<RestoreCall<T, E>>,
    error: E,
    k: nat,
)
    requires
        before.len() == after.len(),
        before.len() <= usize::MAX,
        stops_at(RestoreStage::Prepare, before, after, k, calls, error),
    ensures
        comes_in_stages(before, calls, Err(error), after),
{
}

/// The calls of a restore in which the counter cannot be installed come in stages.
#[verifier::spinoff_prover]
proof fn lemma_failed_installation_comes_in_stages<T, E>(
    before: Seq<T>,
    after: Seq<T>,
    calls: Seq<RestoreCall<T, E>>,
    error: E,
)
    requires
        before.len() == after.len(),
        before.len() <= usize::MAX,
        calls == visits::<T, E>(RestoreStage::Prepare, before, after, before.len()).push(
            RestoreCall::InstallCounter(after, Err(error)),
        ),
    ensures
        comes_in_stages(before, calls, Err(error), after),
{
}

/// The calls of a restore in which a vCPU cannot be finalized come in stages.
#[verifier::spinoff_prover]
proof fn lemma_failed_finalization_comes_in_stages<T, E>(
    before: Seq<T>,
    prepared: Seq<T>,
    after: Seq<T>,
    calls: Seq<RestoreCall<T, E>>,
    error: E,
)
    requires
        before.len() == after.len(),
        before.len() <= usize::MAX,
        stops_finalizing(before, prepared, after, calls, error),
    ensures
        comes_in_stages(before, calls, Err(error), after),
{
    let installing = installs::<T, E>(before, prepared);
    let rest = calls.skip(installing.len() as int);
    let k = choose|k: nat| #[trigger]
        stops_at(RestoreStage::Finalize, prepared, after, k, rest, error);
    assert(stops_at(RestoreStage::Finalize, prepared, after, k, rest, error));
    assert(calls =~= installing + rest);
}

/// The calls of a restore in which the registers of a vCPU cannot be replayed come in stages.
#[verifier::spinoff_prover]
proof fn lemma_failed_replay_comes_in_stages<T, E>(
    before: Seq<T>,
    prepared: Seq<T>,
    finalized: Seq<T>,
    after: Seq<T>,
    calls: Seq<RestoreCall<T, E>>,
    error: E,
)
    requires
        before.len() == after.len(),
        before.len() <= usize::MAX,
        stops_replaying(before, prepared, finalized, after, calls, error),
    ensures
        comes_in_stages(before, calls, Err(error), after),
{
    let finalizing = installs::<T, E>(before, prepared) + visits::<T, E>(
        RestoreStage::Finalize,
        prepared,
        finalized,
        before.len(),
    );
    let rest = calls.skip(finalizing.len() as int);
    let k = choose|k: nat| #[trigger]
        stops_at(RestoreStage::Replay, finalized, after, k, rest, error);
    assert(stops_at(RestoreStage::Replay, finalized, after, k, rest, error));
    assert(calls =~= finalizing + rest);
}

/// The calls of a restore come in stages.
proof fn lemma_restore_comes_in_stages<T, E>(
    before: Seq<T>,
    calls: Seq<RestoreCall<T, E>>,
    r: Result<(), E>,
    after: Seq<T>,
)
    requires
        before.len() == after.len(),
        before.len() <= usize::MAX,
        is_restore(before, calls, r, after),
    ensures
        comes_in_stages(before, calls, r, after),
{
    match r {
        Ok(unit) => {
            assert(unit == ());
            let (prepared, finalized) = choose|prepared: Seq<T>, finalized: Seq<T>| #[trigger]
                restores(before, prepared, finalized, after, calls);
            lemma_success_comes_in_stages(before, prepared, finalized, after, calls);
        },
        Err(error) => {
            if stops(RestoreStage::Prepare, before, after, calls, error) {
                let k = choose|k: nat| #[trigger]
                    stops_at(RestoreStage::Prepare, before, after, k, calls, error);
                lemma_failed_preparation_comes_in_stages(before, after, calls, error, k);
            } else if exists|prepared: Seq<T>| #[trigger]
                stops_finalizing(before, prepared, after, calls, error) {
                let prepared = choose|prepared: Seq<T>| #[trigger]
                    stops_finalizing(before, prepared, after, calls, error);
                lemma_failed_finalization_comes_in_stages(before, prepared, after, calls, error);
            } else if exists|prepared: Seq<T>, finalized: Seq<T>| #[trigger]
                stops_replaying(before, prepared, finalized, after, calls, error) {
                let (prepared, finalized) = choose|prepared: Seq<T>, finalized: Seq<T>| #[trigger]
                    stops_replaying(before, prepared, finalized, after, calls, error);
                lemma_failed_replay_comes_in_stages(
                    before,
                    prepared,
                    finalized,
                    after,
                    calls,
                    error,
                );
            } else {
                lemma_failed_installation_comes_in_stages(before, after, calls, error);
            }
        },
    }
}

/// A restore goes by stages. The first calls prepare the vCPUs in order, the next one installs the
/// counter, the next ones finalize the vCPUs in order and the last ones replay the registers of
/// the vCPUs in order: no vCPU is visited twice in a stage, and none before a stage has come to
/// its end.
pub proof fn law_a_restore_goes_by_stages<T, E>(
    before: Seq<T>,
    calls: Seq<RestoreCall<T, E>>,
    r: Result<(), E>,
    after: Seq<T>,
)
    requires
        before.len() == after.len(),
        before.len() <= usize::MAX,
        is_restore(before, calls, r, after),
    ensures
        calls.len() <= 3 * before.len() + 1,
        forall|k: int|
            0 <= k < calls.len() && k < before.len() ==> {
                &&& #[trigger] calls[k] is Visit
                &&& calls[k]->Visit_0 is Prepare
                &&& calls[k]->Visit_1 == k
            },
        before.len() < calls.len() ==> calls[before.len() as int] is InstallCounter,
        forall|k: int|
            before.len() < k < calls.len() && k <= 2 * before.len() ==> {
                &&& #[trigger] calls[k] is Visit
                &&& calls[k]->Visit_0 is Finalize
                &&& calls[k]->Visit_1 == k - before.len() - 1
            },
        forall|k: int|
            2 * before.len() < k < calls.len() && before.len() < k ==> {
                &&& #[trigger] calls[k] is Visit
                &&& calls[k]->Visit_0 is Replay
                &&& calls[k]->Visit_1 == k - 2 * before.len() - 1
            },
{
    lemma_restore_comes_in_stages(before, calls, r, after);
}

/// A restore succeeds exactly if all of its calls do. The first call that fails is the last one,
/// and its error is that of the restore.
pub proof fn law_a_restore_ends_with_the_first_failure<T, E>(
    before: Seq<T>,
    calls: Seq<RestoreCall<T, E>>,
    r: Result<(), E>,
    after: Seq<T>,
)
    requires
        before.len() == after.len(),
        before.len() <= usize::MAX,
        is_restore(before, calls, r, after),
    ensures
        0 < calls.len(),
        forall|k: int|
            0 <= k < calls.len() - 1 ==> if #[trigger] calls[k] is Visit {
                calls[k]->Visit_4 is Ok
            } else {
                calls[k]->InstallCounter_1 is Ok
            },
        calls.last() is Visit ==> calls.last()->Visit_4 == r,
        calls.last() is InstallCounter ==> calls.last()->InstallCounter_1 == r,
        r is Ok ==> calls.len() == 3 * before.len() + 1,
{
    lemma_restore_comes_in_stages(before, calls, r, after);
}

/// Each stage of a restore takes a vCPU as the stage before it left it, the counter is installed on
/// all vCPUs as they were prepared, and a vCPU is left as its last visit left it: one that was not
/// visited is as it was.
pub proof fn law_a_restore_hands_vcpus_on<T, E>(
    before: Seq<T>,
    calls: Seq<RestoreCall<T, E>>,
    r: Result<(), E>,
    after: Seq<T>,
    i: int,
)
    requires
        before.len() == after.len(),
        before.len() <= usize::MAX,
        is_restore(before, calls, r, after),
        0 <= i < before.len(),
    ensures
        i < calls.len() ==> calls[i]->Visit_2 == before[i],
        before.len() < calls.len() ==> {
            &&& calls[before.len() as int]->InstallCounter_0.len() == before.len()
            &&& calls[before.len() as int]->InstallCounter_0[i] == calls[i]->Visit_3
        },
        before.len() + 1 + i < calls.len() ==> calls[before.len() + 1 + i]->Visit_2
            == calls[i]->Visit_3,
        2 * before.len() + 1 + i < calls.len() ==> calls[2 * before.len() + 1 + i]->Visit_2
            == calls[before.len() + 1 + i]->Visit_3,
        after[i] == if 2 * before.len() + 1 + i < calls.len() {
            calls[2 * before.len() + 1 + i]->Visit_3
        } else if before.len() + 1 + i < calls.len() {
            calls[before.len() + 1 + i]->Visit_3
        } else if i < calls.len() {
            calls[i]->Visit_3
        } else {
            before[i]
        },
{
    lemma_restore_comes_in_stages(before, calls, r, after);
}

/// What the requirements of a restore go by: an index is below the number of vCPUs, vCPUs are
/// counted, and a successful visit names its stage, its vCPU and what it did to it.
pub proof fn law_restore_requirements<T, E>(
    vcpus: Seq<T>,
    count: nat,
    stage: RestoreStage,
    i: usize,
    before: T,
    after: T,
)
    ensures
        is_index(count, i) <==> i < count,
        has_count(vcpus, count) <==> vcpus.len() == count,
        visit_call::<T, E>(stage, i, before, after) == RestoreCall::<T, E>::Visit(
            stage,
            i,
            before,
            after,
            Ok(()),
        ),
{
}

} // verus!
