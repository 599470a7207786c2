//! The counter of a virtual machine and its offset, and the calls that are made to them.

use vstd::prelude::*;

use crate::error::CounterError;

verus! {

/// The counter of a virtual machine and its offset.
///
/// A backend may give another reply each time that it is asked: the counter goes on, and setting
/// the offset changes what is read after it.
pub trait CounterIo {
    /// Reads the counter that the guest sees.
    fn read_counter(&self) -> Result<u64, CounterError>;

    /// Sets the VM-wide offset.
    fn set_offset(&self, offset: u64) -> Result<(), CounterError>;
}

/// A call to a backend and the reply to it.
#[derive(Clone, Copy, Debug, PartialEq, Eq)]
pub enum CounterCall {
    /// The counter was read.
    ReadCounter(Result<u64, CounterError>),
    /// The offset was set to this value.
    SetOffset(u64, Result<(), CounterError>),
}

/// Whether `io` can have given the reply to `call`.
pub open spec fn gives<I: CounterIo>(io: &I, call: CounterCall) -> bool {
    match call {
        CounterCall::ReadCounter(reply) => call_ensures(I::read_counter, (io,), reply),
        CounterCall::SetOffset(offset, reply) => call_ensures(I::set_offset, (io, offset), reply),
    }
}

/// The offsets that `calls` set, in order: those of the calls that succeeded.
pub open spec fn offsets_set(calls: Seq<CounterCall>) -> Seq<u64>
    decreases calls.len(),
{
    if calls.len() == 0 {
        Seq::empty()
    } else {
        let before = offsets_set(calls.drop_last());
        match calls.last() {
            CounterCall::SetOffset(offset, Ok(())) => before.push(offset),
            _ => before,
        }
    }
}

/// What is left of a list of calls when the first ones are skipped, after no call, one or two were
/// added.
pub proof fn lemma_calls_since(calls: Seq<CounterCall>)
    ensures
        calls.skip(calls.len() as int) == Seq::<CounterCall>::empty(),
        forall|first: CounterCall| #[trigger]
            calls.push(first).skip(calls.len() as int) == seq![first],
        forall|first: CounterCall, second: CounterCall| #[trigger]
            calls.push(first).push(second).skip(calls.len() as int) == seq![first, second],
{
    assert(calls.skip(calls.len() as int) == Seq::<CounterCall>::empty());
    assert forall|first: CounterCall| #[trigger]
        calls.push(first).skip(calls.len() as int) == seq![first] by {
        assert(calls.push(first).skip(calls.len() as int) =~= seq![first]);
    }
    assert forall|first: CounterCall, second: CounterCall| #[trigger]
        calls.push(first).push(second).skip(calls.len() as int) == seq![first, second] by {
        assert(calls.push(first).push(second).skip(calls.len() as int) =~= seq![first, second]);
    }
}

/// A backend and the calls that have been made to it. There is no other way to the backend, so no
/// call is left out.
pub struct CounterLog<'a, I> {
    io: &'a I,
    calls: Ghost<Seq<CounterCall>>,
}

impl<'a, I: CounterIo> CounterLog<'a, I> {
    /// The backend.
    pub closed spec fn io(&self) -> &'a I {
        self.io
    }

    /// The calls that have been made to the backend, in order.
    pub closed spec fn calls(&self) -> Seq<CounterCall> {
        self.calls@
    }

    /// The calls that have been made since the log was `before`.
    pub open spec fn since(&self, before: &Self) -> Seq<CounterCall> {
        self.calls().skip(before.calls().len() as int)
    }

    /// Whether the log is what `before` can have become: calls have been added to it, and the
    /// backend gave the replies to them.
    pub open spec fn continues(&self, before: &Self) -> bool {
        &&& self.io() == before.io()
        &&& before.calls().is_prefix_of(self.calls())
        &&& forall|i: int|
            before.calls().len() <= i < self.calls().len() ==> gives(
                self.io(),
                #[trigger] self.calls()[i],
            )
    }

    /// Returns a log of the given backend, without any call.
    pub fn new(io: &'a I) -> (log: CounterLog<'a, I>)
        ensures
            log.io() == io,
            log.calls() == Seq::<CounterCall>::empty(),
    {
        CounterLog { io, calls: Ghost(Seq::empty()) }
    }

    /// Reads the counter that the guest sees.
    pub fn read_counter(&mut self) -> (reply: Result<u64, CounterError>)
        ensures
            final(self).calls() == old(self).calls().push(CounterCall::ReadCounter(reply)),
            final(self).io() == old(self).io(),
            gives(old(self).io(), CounterCall::ReadCounter(reply)),
            call_ensures(I::read_counter, (old(self).io(),), reply),
    {
        let reply = self.io.read_counter();
        proof {
            self.calls@ = self.calls@.push(CounterCall::ReadCounter(reply));
        }
        reply
    }

    /// Sets the VM-wide offset.
    pub fn set_offset(&mut self, offset: u64) -> (reply: Result<(), CounterError>)
        ensures
            final(self).calls() == old(self).calls().push(CounterCall::SetOffset(offset, reply)),
            final(self).io() == old(self).io(),
            gives(old(self).io(), CounterCall::SetOffset(offset, reply)),
            call_ensures(I::set_offset, (old(self).io(), offset), reply),
    {
        let reply = self.io.set_offset(offset);
        proof {
            self.calls@ = self.calls@.push(CounterCall::SetOffset(offset, reply));
        }
        reply
    }
}

/// The offsets that are set are those of the calls that succeeded: one more call adds its offset if
/// it sets one and succeeds, and adds nothing if it reads or fails.
pub proof fn law_successful_calls_set_offsets(
    calls: Seq<CounterCall>,
    offset: u64,
    error: CounterError,
    reply: Result<u64, CounterError>,
)
    ensures
        offsets_set(Seq::<CounterCall>::empty()) == Seq::<u64>::empty(),
        offsets_set(calls.push(CounterCall::SetOffset(offset, Ok(())))) == offsets_set(calls).push(
            offset,
        ),
        offsets_set(calls.push(CounterCall::SetOffset(offset, Err(error)))) == offsets_set(calls),
        offsets_set(calls.push(CounterCall::ReadCounter(reply))) == offsets_set(calls),
{
    assert(calls.push(CounterCall::SetOffset(offset, Ok(()))).drop_last() == calls);
    assert(calls.push(CounterCall::SetOffset(offset, Err(error))).drop_last() == calls);
    assert(calls.push(CounterCall::ReadCounter(reply)).drop_last() == calls);
}

/// A log only grows: what it has become is what it was, followed by the calls since then, and the
/// backend gave the replies to these.
pub proof fn law_a_log_grows<I: CounterIo>(before: &CounterLog<'_, I>, after: &CounterLog<'_, I>)
    requires
        after.continues(before),
    ensures
        after.io() == before.io(),
        after.calls() == before.calls() + after.since(before),
        forall|i: int|
            0 <= i < after.since(before).len() ==> match #[trigger] after.since(before)[i] {
                CounterCall::ReadCounter(reply) => call_ensures(
                    I::read_counter,
                    (after.io(),),
                    reply,
                ),
                CounterCall::SetOffset(offset, reply) => call_ensures(
                    I::set_offset,
                    (after.io(), offset),
                    reply,
                ),
            },
{
    assert(after.calls() =~= before.calls() + after.since(before));
    assert forall|i: int| 0 <= i < after.since(before).len() implies match #[trigger] after.since(
        before,
    )[i] {
        CounterCall::ReadCounter(reply) => call_ensures(I::read_counter, (after.io(),), reply),
        CounterCall::SetOffset(offset, reply) => call_ensures(
            I::set_offset,
            (after.io(), offset),
            reply,
        ),
    } by {
        assert(gives(after.io(), after.calls()[before.calls().len() + i]));
    }
}

} // verus!
