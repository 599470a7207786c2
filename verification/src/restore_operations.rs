//! The operations that restore vCPUs and the calls that are made to them.

use vstd::prelude::*;

verus! {

/// A stage of restoring vCPUs, in which one operation visits each of them.
#[derive(Clone, Copy, Debug, PartialEq, Eq, Structural)]
pub enum RestoreStage {
    /// vCPUs are initialized.
    Prepare,
    /// What the registers of vCPUs need is set up.
    Finalize,
    /// The registers of vCPUs are replayed.
    Replay,
}

/// A call to an operation and the reply to it.
pub enum RestoreCall<T, E> {
    /// The operation of the stage visited the vCPU with this index, which was the first value
    /// before and the second one after.
    Visit(RestoreStage, usize, T, T, Result<(), E>),
    /// The counter was installed on these vCPUs.
    InstallCounter(Seq<T>, Result<(), E>),
}

/// Whether `call` is a visit that one of `visitors`, which are the operations of the three stages,
/// can have made to `vcpu`, which it left as `left`.
pub open spec fn is_visit<
    T,
    E,
    P: FnMut(usize, &mut T) -> Result<(), E>,
    F: FnMut(usize, &mut T) -> Result<(), E>,
    R: FnMut(usize, &mut T) -> Result<(), E>,
>(visitors: (P, F, R), vcpu: &mut T, left: T, call: RestoreCall<T, E>) -> bool {
    match call {
        RestoreCall::Visit(stage, i, before, after, reply) => {
            &&& *vcpu == before
            &&& left == after
            &&& match stage {
                RestoreStage::Prepare => call_ensures(visitors.0, (i, vcpu), reply),
                RestoreStage::Finalize => call_ensures(visitors.1, (i, vcpu), reply),
                RestoreStage::Replay => call_ensures(visitors.2, (i, vcpu), reply),
            }
        },
        RestoreCall::InstallCounter(..) => false,
    }
}

/// Whether the operation of a stage may visit vCPU `i`, which is `before`.
pub open spec fn may_visit<
    T,
    E,
    P: FnMut(usize, &mut T) -> Result<(), E>,
    F: FnMut(usize, &mut T) -> Result<(), E>,
    R: FnMut(usize, &mut T) -> Result<(), E>,
>(visitors: (P, F, R), stage: RestoreStage, i: usize, before: T) -> bool {
    match stage {
        RestoreStage::Prepare => forall|vcpu: &mut T|
            *vcpu == before ==> #[trigger] call_requires(visitors.0, (i, vcpu)),
        RestoreStage::Finalize => forall|vcpu: &mut T|
            *vcpu == before ==> #[trigger] call_requires(visitors.1, (i, vcpu)),
        RestoreStage::Replay => forall|vcpu: &mut T|
            *vcpu == before ==> #[trigger] call_requires(visitors.2, (i, vcpu)),
    }
}

/// Whether the operation of a stage can have succeeded on vCPU `i`, which was `before`.
pub open spec fn visited<
    T,
    E,
    P: FnMut(usize, &mut T) -> Result<(), E>,
    F: FnMut(usize, &mut T) -> Result<(), E>,
    R: FnMut(usize, &mut T) -> Result<(), E>,
>(visitors: (P, F, R), stage: RestoreStage, i: usize, before: T) -> bool {
    exists|vcpu: &mut T, left: T, after: T| #[trigger]
        is_visit(visitors, vcpu, left, RestoreCall::Visit(stage, i, before, after, Ok(())))
}

/// Whether the operation of a stage can have succeeded on each vCPU before vCPU `i`.
pub open spec fn visited_before<
    T,
    E,
    P: FnMut(usize, &mut T) -> Result<(), E>,
    F: FnMut(usize, &mut T) -> Result<(), E>,
    R: FnMut(usize, &mut T) -> Result<(), E>,
>(visitors: (P, F, R), stage: RestoreStage, i: usize, before: Seq<T>) -> bool {
    forall|j: usize| j < i ==> #[trigger] visited(visitors, stage, j, before[j as int])
}

/// Whether installing the counter on `vcpus` can have given `reply`.
pub open spec fn installing_gives<T, E, N: FnOnce(&[T]) -> Result<(), E>>(
    install_counter: N,
    vcpus: Seq<T>,
    reply: Result<(), E>,
) -> bool {
    exists|slice: &[T]| slice@ == vcpus && #[trigger] call_ensures(install_counter, (slice,), reply)
}

/// The operations that restore vCPUs and the calls that have been made to them. There is no other
/// way to the operations, so no call is left out. `P`, `F` and `R` visit the vCPUs in the three
/// stages, and `N` installs the counter.
pub struct RestoreOperations<T, E, P, N, F, R> {
    prepare: P,
    install_counter: Option<N>,
    finalize: F,
    replay: R,
    calls: Ghost<Seq<RestoreCall<T, E>>>,
}

impl<
    T,
    E,
    P: FnMut(usize, &mut T) -> Result<(), E>,
    N: FnOnce(&[T]) -> Result<(), E>,
    F: FnMut(usize, &mut T) -> Result<(), E>,
    R: FnMut(usize, &mut T) -> Result<(), E>,
> RestoreOperations<T, E, P, N, F, R> {
    /// The operations of the three stages.
    pub closed spec fn visitors(&self) -> (P, F, R) {
        (self.prepare, self.finalize, self.replay)
    }

    /// What installs the counter, until it has done so.
    pub closed spec fn installer(&self) -> Option<N> {
        self.install_counter
    }

    /// The calls that have been made, in order.
    pub closed spec fn calls(&self) -> Seq<RestoreCall<T, E>> {
        self.calls@
    }

    /// The calls that have been made since the operations were `before`.
    pub open spec fn since(&self, before: &Self) -> Seq<RestoreCall<T, E>> {
        self.calls().skip(before.calls().len() as int)
    }

    /// Whether the operations of the stages are those of `before`, to which calls have been added.
    pub open spec fn continues(&self, before: &Self) -> bool {
        &&& self.visitors() == before.visitors()
        &&& before.calls().len() <= self.calls().len()
        &&& forall|k: int|
            0 <= k < before.calls().len() ==> #[trigger] self.calls()[k] == before.calls()[k]
    }

    /// Returns the given operations, without any call.
    pub fn new(prepare: P, install_counter: N, finalize: F, replay: R) -> (operations:
        RestoreOperations<T, E, P, N, F, R>)
        ensures
            operations.visitors() == (prepare, finalize, replay),
            operations.installer() == Some(install_counter),
            operations.calls() == Seq::<RestoreCall<T, E>>::empty(),
    {
        RestoreOperations {
            prepare,
            install_counter: Some(install_counter),
            finalize,
            replay,
            calls: Ghost(Seq::empty()),
        }
    }

    /// Visits a vCPU with the operation of a stage.
    pub fn visit(&mut self, stage: RestoreStage, i: usize, vcpu: &mut T) -> (reply: Result<(), E>)
        requires
            may_visit(old(self).visitors(), stage, i, *old(vcpu)),
        ensures
            final(self).calls() == old(self).calls().push(
                RestoreCall::Visit(stage, i, *old(vcpu), *final(vcpu), reply),
            ),
            final(self).continues(old(self)),
            final(self).installer() == old(self).installer(),
            exists|x: &mut T| #[trigger]
                is_visit(old(self).visitors(), x, *final(x), final(self).calls().last()),
    {
        let ghost before = *vcpu;
        let ghost visitors = self.visitors();
        assert(visitors.0 == self.prepare && visitors.1 == self.finalize && visitors.2
            == self.replay);
        let reply = match stage {
            RestoreStage::Prepare => {
                let reply = (self.prepare)(i, vcpu);
                assert(exists|x: &mut T|
                    #![trigger call_ensures(visitors.0, (i, x), reply)]
                    is_visit(
                        visitors,
                        x,
                        *final(x),
                        RestoreCall::Visit(stage, i, before, *vcpu, reply),
                    ));
                reply
            },
            RestoreStage::Finalize => {
                let reply = (self.finalize)(i, vcpu);
                assert(exists|x: &mut T|
                    #![trigger call_ensures(visitors.1, (i, x), reply)]
                    is_visit(
                        visitors,
                        x,
                        *final(x),
                        RestoreCall::Visit(stage, i, before, *vcpu, reply),
                    ));
                reply
            },
            RestoreStage::Replay => {
                let reply = (self.replay)(i, vcpu);
                assert(exists|x: &mut T|
                    #![trigger call_ensures(visitors.2, (i, x), reply)]
                    is_visit(
                        visitors,
                        x,
                        *final(x),
                        RestoreCall::Visit(stage, i, before, *vcpu, reply),
                    ));
                reply
            },
        };
        proof {
            self.calls@ = self.calls@.push(
                RestoreCall::Visit(stage, i, before, *vcpu, reply),
            );
        }
        assert(self.calls().last() == RestoreCall::Visit(stage, i, before, *vcpu, reply));
        reply
    }

    /// Installs the counter on the given vCPUs.
    pub fn install_counter(&mut self, vcpus: &[T]) -> (reply: Result<(), E>)
        requires
            old(self).installer() is Some,
            call_requires(old(self).installer()->0, (vcpus,)),
        ensures
            final(self).calls() == old(self).calls().push(
                RestoreCall::InstallCounter(vcpus@, reply),
            ),
            final(self).continues(old(self)),
            final(self).installer() is None,
            installing_gives(old(self).installer()->0, vcpus@, reply),
    {
        match self.install_counter.take() {
            Some(install_counter) => {
                let reply = install_counter(vcpus);
                proof {
                    self.calls@ = self.calls@.push(RestoreCall::InstallCounter(vcpus@, reply));
                }
                reply
            },
            None => vstd::pervasive::unreached(),
        }
    }
}

/// A visit is a call of the operation of its stage, with the index and the vCPU that it names, and
/// it leaves the vCPU as it says.
pub proof fn law_a_visit_calls_the_operation_of_its_stage<
    T,
    E,
    P: FnMut(usize, &mut T) -> Result<(), E>,
    F: FnMut(usize, &mut T) -> Result<(), E>,
    R: FnMut(usize, &mut T) -> Result<(), E>,
>(visitors: (P, F, R), i: usize, before: T, after: T, reply: Result<(), E>)
    ensures
        forall|vcpu: &mut T, left: T|
            #[trigger] is_visit(
                visitors,
                vcpu,
                left,
                RestoreCall::Visit(RestoreStage::Prepare, i, before, after, reply),
            ) <==> *vcpu == before && left == after && call_ensures(visitors.0, (i, vcpu), reply),
        forall|vcpu: &mut T, left: T|
            #[trigger] is_visit(
                visitors,
                vcpu,
                left,
                RestoreCall::Visit(RestoreStage::Finalize, i, before, after, reply),
            ) <==> *vcpu == before && left == after && call_ensures(visitors.1, (i, vcpu), reply),
        forall|vcpu: &mut T, left: T|
            #[trigger] is_visit(
                visitors,
                vcpu,
                left,
                RestoreCall::Visit(RestoreStage::Replay, i, before, after, reply),
            ) <==> *vcpu == before && left == after && call_ensures(visitors.2, (i, vcpu), reply),
{
}

/// Calls are only added: what has been made is what was made before, followed by the calls since
/// then, and the operations of the stages stay the same.
pub proof fn law_restore_calls_are_added<T, E, P, N, F, R>(
    before: &RestoreOperations<T, E, P, N, F, R>,
    after: &RestoreOperations<T, E, P, N, F, R>,
) where
    P: FnMut(usize, &mut T) -> Result<(), E>,
    N: FnOnce(&[T]) -> Result<(), E>,
    F: FnMut(usize, &mut T) -> Result<(), E>,
    R: FnMut(usize, &mut T) -> Result<(), E>,

    requires
        after.continues(before),
    ensures
        after.visitors() == before.visitors(),
        after.calls() == before.calls() + after.since(before),
{
    assert(after.calls() =~= before.calls() + after.since(before));
}

/// The counter was installed on vCPUs exactly if what installs it was called on them and replied
/// so.
pub proof fn law_installing_is_a_call<T, E, N: FnOnce(&[T]) -> Result<(), E>>(
    install_counter: N,
    vcpus: Seq<T>,
    reply: Result<(), E>,
)
    ensures
        installing_gives(install_counter, vcpus, reply) <==> exists|slice: &[T]|
            slice@ == vcpus && #[trigger] call_ensures(install_counter, (slice,), reply),
{
}

/// A vCPU may be visited exactly where the operation of the stage may be called on it.
pub proof fn law_a_visit_may_be_made<
    T,
    E,
    P: FnMut(usize, &mut T) -> Result<(), E>,
    F: FnMut(usize, &mut T) -> Result<(), E>,
    R: FnMut(usize, &mut T) -> Result<(), E>,
>(visitors: (P, F, R), i: usize, before: T)
    ensures
        may_visit(visitors, RestoreStage::Prepare, i, before) <==> forall|vcpu: &mut T|
            *vcpu == before ==> #[trigger] call_requires(visitors.0, (i, vcpu)),
        may_visit(visitors, RestoreStage::Finalize, i, before) <==> forall|vcpu: &mut T|
            *vcpu == before ==> #[trigger] call_requires(visitors.1, (i, vcpu)),
        may_visit(visitors, RestoreStage::Replay, i, before) <==> forall|vcpu: &mut T|
            *vcpu == before ==> #[trigger] call_requires(visitors.2, (i, vcpu)),
{
}

} // verus!
