//! The VM-wide Arm generic-counter domain.
//!
//! A guest sees the counter of the host less an offset that holds for the whole virtual machine,
//! in 64-bit wrapping arithmetic. Moving the offset while the guest is paused keeps the time that
//! passes on the host from passing in the guest.

use vstd::arithmetic::div_mod::{lemma_add_mod_noop, lemma_sub_mod_noop};
use vstd::prelude::*;

use crate::counter_io::{lemma_calls_since, offsets_set, CounterCall, CounterIo, CounterLog};
use crate::error::CounterError;

verus! {

/// Runtime state of the VM-wide Arm generic-counter domain.
#[derive(Clone, Copy, Debug, PartialEq, Eq, Structural)]
pub enum CounterState {
    /// Counter configuration has not run yet.
    Uninitialized,
    /// The host cannot offset the counter.
    Unsupported,
    /// The guest is running with the given VM-wide offset.
    Running { offset: u64 },
    /// The guest is paused at `guest_counter` with the given VM-wide offset.
    Paused { offset: u64, guest_counter: u64 },
    /// A lifecycle transition became ambiguous, so no further operation is safe.
    Faulted,
}

/// `x` modulo 2^64.
#[verifier::opaque]
pub open spec fn wrapped(x: int) -> u64 {
    (x % 0x1_0000_0000_0000_0000) as u64
}

/// `a + b` modulo 2^64.
pub open spec fn counter_add(a: u64, b: u64) -> u64 {
    wrapped(a + b)
}

/// `a - b` modulo 2^64.
pub open spec fn counter_sub(a: u64, b: u64) -> u64 {
    wrapped(a - b)
}

/// Wrapping arithmetic on wrapped numbers is arithmetic on the numbers.
pub proof fn lemma_wrapped(x: int, y: int)
    ensures
        counter_add(wrapped(x), wrapped(y)) == wrapped(x + y),
        counter_sub(wrapped(x), wrapped(y)) == wrapped(x - y),
{
    reveal(wrapped);
    lemma_add_mod_noop(x, y, 0x1_0000_0000_0000_0000);
    lemma_sub_mod_noop(x, y, 0x1_0000_0000_0000_0000);
}

/// A 64-bit number is its own wrapped value.
pub proof fn lemma_wrapped_u64(x: u64)
    ensures
        wrapped(x as int) == x,
{
    reveal(wrapped);
}

/// The offset with which a guest continues at `saved_counter` when the counter is `counter`.
pub fn restore_offset(counter: u64, saved_counter: u64) -> (offset: u64)
    ensures
        offset == counter_sub(counter, saved_counter),
        (offset + saved_counter) % 0x1_0000_0000_0000_0000 == counter,
{
    proof {
        reveal(wrapped);
    }
    counter.wrapping_sub(saved_counter)
}

/// The offset with which a guest that was paused at `guest_counter` continues there, when its
/// offset is `offset` and it would now see `current_counter`.
pub open spec fn resumed_offset(offset: u64, guest_counter: u64, current_counter: u64) -> u64 {
    counter_add(offset, counter_sub(current_counter, guest_counter))
}

/// Returns the offset with which a guest that was paused at `guest_counter` continues there.
pub fn resume_offset(offset: u64, guest_counter: u64, current_counter: u64) -> (new_offset: u64)
    ensures
        new_offset == resumed_offset(offset, guest_counter, current_counter),
        (new_offset - offset) % 0x1_0000_0000_0000_0000 == (current_counter - guest_counter)
            % 0x1_0000_0000_0000_0000,
{
    proof {
        reveal(wrapped);
        law_the_offset_grows_by_the_pause(offset, guest_counter, current_counter);
    }
    let elapsed: u64 = current_counter.wrapping_sub(guest_counter);
    offset.wrapping_add(elapsed)
}

/// Why a domain in the given state cannot serve lifecycle requests, if it cannot.
pub open spec fn health_refusal(state: CounterState) -> Option<CounterError> {
    match state {
        CounterState::Faulted => Some(CounterError::Faulted),
        CounterState::Uninitialized => Some(CounterError::Uninitialized),
        _ => None,
    }
}

/// Why a domain in the given state cannot be paused, if it cannot.
pub open spec fn pause_refusal(state: CounterState) -> Option<CounterError> {
    match state {
        CounterState::Running { .. } => None,
        CounterState::Paused { .. } => Some(CounterError::AlreadyPaused),
        CounterState::Unsupported => Some(CounterError::Unsupported),
        CounterState::Uninitialized => Some(CounterError::Uninitialized),
        CounterState::Faulted => Some(CounterError::Faulted),
    }
}

/// Why a domain in the given state cannot be saved in a snapshot, if it cannot.
pub open spec fn snapshot_refusal(state: CounterState) -> Option<CounterError> {
    match state {
        CounterState::Paused { .. } => None,
        CounterState::Running { .. } => Some(CounterError::NotPaused),
        CounterState::Unsupported => Some(CounterError::Unsupported),
        CounterState::Uninitialized => Some(CounterError::Uninitialized),
        CounterState::Faulted => Some(CounterError::Faulted),
    }
}

/// Why a domain in the given state cannot be resumed, if it cannot. Without support for counter
/// offsets there is nothing to resume, which is no error.
pub open spec fn resume_refusal(state: CounterState) -> Option<CounterError> {
    match state {
        CounterState::Paused { .. } => None,
        CounterState::Unsupported => None,
        CounterState::Running { .. } => Some(CounterError::NotPaused),
        CounterState::Uninitialized => Some(CounterError::Uninitialized),
        CounterState::Faulted => Some(CounterError::Faulted),
    }
}

/// Whether one operation can take a domain from state `from` to state `to`.
pub open spec fn can_step(from: CounterState, to: CounterState) -> bool {
    ||| to == from
    ||| to is Faulted
    ||| from is Uninitialized && (to is Unsupported || to is Paused)
    ||| from is Paused && to is Running && to->Running_offset == from->Paused_offset
    ||| from is Paused && to is Paused && to->guest_counter == from->guest_counter
    ||| from is Running && to is Paused && to->Paused_offset == from->Running_offset
}

/// What configuring a domain that is not configured on a host that supports it comes to, when its
/// guest is to continue at `saved_counter`: the counter is read once, and the offset is set once so
/// that the guest sees `saved_counter`. If one of the two fails nothing changes.
pub open spec fn is_configured(
    before: CounterState,
    saved_counter: u64,
    calls: Seq<CounterCall>,
    r: Result<(), CounterError>,
    after: CounterState,
) -> bool {
    &&& 0 < calls.len()
    &&& match calls[0] {
        CounterCall::ReadCounter(Ok(counter)) => {
            let offset = counter_sub(counter, saved_counter);
            &&& calls == seq![calls[0], CounterCall::SetOffset(offset, r)]
            &&& after == match r {
                Ok(()) => CounterState::Paused { offset, guest_counter: saved_counter },
                Err(_) => before,
            }
        },
        CounterCall::ReadCounter(Err(error)) => {
            &&& calls == seq![calls[0]]
            &&& r == Err::<(), _>(error)
            &&& after == before
        },
        CounterCall::SetOffset(..) => false,
    }
}

/// What a request that is refused comes to: no call is made and nothing changes.
pub open spec fn is_refused(
    error: CounterError,
    before: CounterState,
    calls: Seq<CounterCall>,
    r: Result<(), CounterError>,
    after: CounterState,
) -> bool {
    &&& calls == Seq::<CounterCall>::empty()
    &&& r == Err::<(), _>(error)
    &&& after == before
}

/// What configuring a domain for a fresh guest comes to. Without support for counter offsets the
/// guest boots all the same.
pub open spec fn is_configured_for_boot(
    before: CounterState,
    supported: bool,
    calls: Seq<CounterCall>,
    r: Result<(), CounterError>,
    after: CounterState,
) -> bool {
    if !(before is Uninitialized) {
        is_refused(CounterError::AlreadyConfigured, before, calls, r, after)
    } else if !supported {
        &&& calls == Seq::<CounterCall>::empty()
        &&& r == Ok::<_, CounterError>(())
        &&& after == CounterState::Unsupported
    } else {
        is_configured(before, 0, calls, r, after)
    }
}

/// What configuring a domain for a restored guest comes to. Without support for counter offsets the
/// guest cannot be restored.
pub open spec fn is_configured_for_restore(
    before: CounterState,
    saved_counter: u64,
    supported: bool,
    calls: Seq<CounterCall>,
    r: Result<(), CounterError>,
    after: CounterState,
) -> bool {
    if !(before is Uninitialized) {
        is_refused(CounterError::AlreadyConfigured, before, calls, r, after)
    } else if !supported {
        is_refused(CounterError::Unsupported, before, calls, r, after)
    } else {
        is_configured(before, saved_counter, calls, r, after)
    }
}

/// What capturing the counter of a domain comes to: that of a running domain is read once, and the
/// domain is then paused at it.
pub open spec fn is_paused(
    before: CounterState,
    calls: Seq<CounterCall>,
    r: Result<(), CounterError>,
    after: CounterState,
) -> bool {
    match pause_refusal(before) {
        Some(error) => is_refused(error, before, calls, r, after),
        None => {
            &&& calls.len() == 1
            &&& match calls[0] {
                CounterCall::ReadCounter(Ok(counter)) => {
                    &&& r == Ok::<_, CounterError>(())
                    &&& after == CounterState::Paused {
                        offset: before->Running_offset,
                        guest_counter: counter,
                    }
                },
                CounterCall::ReadCounter(Err(error)) => r == Err::<(), _>(error) && after == before,
                CounterCall::SetOffset(..) => false,
            }
        },
    }
}

/// What preparing a domain to resume comes to: the counter of a paused domain is read once, and its
/// offset is set once so that its guest continues where it was paused. The domain stays paused.
pub open spec fn is_prepared_to_resume(
    before: CounterState,
    calls: Seq<CounterCall>,
    r: Result<(), CounterError>,
    after: CounterState,
) -> bool {
    match before {
        CounterState::Paused { offset, guest_counter } => {
            &&& 0 < calls.len()
            &&& match calls[0] {
                CounterCall::ReadCounter(Ok(counter)) => {
                    let new_offset = resumed_offset(offset, guest_counter, counter);
                    &&& calls == seq![calls[0], CounterCall::SetOffset(new_offset, r)]
                    &&& after == match r {
                        Ok(()) => CounterState::Paused { offset: new_offset, guest_counter },
                        Err(_) => before,
                    }
                },
                CounterCall::ReadCounter(Err(error)) => {
                    &&& calls == seq![calls[0]]
                    &&& r == Err::<(), _>(error)
                    &&& after == before
                },
                CounterCall::SetOffset(..) => false,
            }
        },
        _ => {
            &&& calls == Seq::<CounterCall>::empty()
            &&& r == refused(resume_refusal(before))
            &&& after == before
        },
    }
}

/// What marking a domain as running comes to.
pub open spec fn is_marked_running(
    before: CounterState,
    r: Result<(), CounterError>,
    after: CounterState,
) -> bool {
    &&& r == refused(resume_refusal(before))
    &&& after == match before {
        CounterState::Paused { offset, .. } => CounterState::Running { offset },
        state => state,
    }
}

/// A refusal, as the result of a request that returns nothing.
pub open spec fn refused(refusal: Option<CounterError>) -> Result<(), CounterError> {
    match refusal {
        Some(error) => Err(error),
        None => Ok(()),
    }
}

/// The counter at which a domain is paused, or why it cannot be saved.
pub open spec fn pause_point(state: CounterState) -> Result<u64, CounterError> {
    match snapshot_refusal(state) {
        Some(error) => Err(error),
        None => Ok(state->guest_counter),
    }
}

/// Owns counter lifecycle state that is not part of a snapshot.
#[derive(Debug)]
pub struct CounterController {
    /// The state of the counter domain.
    pub state: CounterState,
}

impl Default for CounterController {
    /// Returns the controller of a domain that is not configured.
    fn default() -> (controller: CounterController)
        ensures
            controller.state == CounterState::Uninitialized,
    {
        CounterController { state: CounterState::Uninitialized }
    }
}

impl CounterController {
    /// Rejects a domain that is faulted or not configured.
    pub fn ensure_healthy(&self) -> (r: Result<(), CounterError>)
        ensures
            r == refused(health_refusal(self.state)),
    {
        match self.state {
            CounterState::Faulted => Err(CounterError::Faulted),
            CounterState::Uninitialized => Err(CounterError::Uninitialized),
            _ => Ok(()),
        }
    }

    /// Makes the counter of a fresh guest start at zero.
    pub fn configure_boot<I: CounterIo>(
        &mut self,
        io: &mut CounterLog<'_, I>,
        supported: bool,
    ) -> (r: Result<(), CounterError>)
        ensures
            final(io).continues(old(io)),
            is_configured_for_boot(
                old(self).state,
                supported,
                final(io).since(old(io)),
                r,
                final(self).state,
            ),
            can_step(old(self).state, final(self).state),
    {
        proof {
            lemma_calls_since(io.calls());
        }
        if self.state != CounterState::Uninitialized {
            return Err(CounterError::AlreadyConfigured);
        }
        if !supported {
            self.state = CounterState::Unsupported;
            return Ok(());
        }
        let offset: u64 = match io.read_counter() {
            Ok(counter) => counter,
            Err(error) => {
                return Err(error);
            },
        };
        proof {
            lemma_wrapped_u64(offset);
        }
        match io.set_offset(offset) {
            Ok(unit) => {
                assert(unit == ());
            },
            Err(error) => {
                return Err(error);
            },
        }
        self.state = CounterState::Paused { offset, guest_counter: 0 };
        Ok(())
    }

    /// Makes the counter of a restored guest continue at `saved_counter`.
    pub fn configure_restore<I: CounterIo>(
        &mut self,
        io: &mut CounterLog<'_, I>,
        saved_counter: u64,
        supported: bool,
    ) -> (r: Result<(), CounterError>)
        ensures
            final(io).continues(old(io)),
            is_configured_for_restore(
                old(self).state,
                saved_counter,
                supported,
                final(io).since(old(io)),
                r,
                final(self).state,
            ),
            can_step(old(self).state, final(self).state),
    {
        proof {
            lemma_calls_since(io.calls());
        }
        if self.state != CounterState::Uninitialized {
            return Err(CounterError::AlreadyConfigured);
        }
        if !supported {
            return Err(CounterError::Unsupported);
        }
        let kvm_counter: u64 = match io.read_counter() {
            Ok(counter) => counter,
            Err(error) => {
                return Err(error);
            },
        };
        let offset: u64 = restore_offset(kvm_counter, saved_counter);
        match io.set_offset(offset) {
            Ok(unit) => {
                assert(unit == ());
            },
            Err(error) => {
                return Err(error);
            },
        }
        self.state = CounterState::Paused { offset, guest_counter: saved_counter };
        Ok(())
    }

    /// Checks that the domain can be paused.
    pub fn ensure_can_pause(&self) -> (r: Result<(), CounterError>)
        ensures
            r == refused(pause_refusal(self.state)),
    {
        match self.state {
            CounterState::Running { .. } => Ok(()),
            CounterState::Paused { .. } => Err(CounterError::AlreadyPaused),
            CounterState::Unsupported => Err(CounterError::Unsupported),
            CounterState::Uninitialized => Err(CounterError::Uninitialized),
            CounterState::Faulted => Err(CounterError::Faulted),
        }
    }

    /// Returns the guest counter that was captured after every vCPU acknowledged the pause.
    ///
    /// This is also the check whether the domain can be saved: a domain that is unsupported,
    /// running, not configured or faulted never produces a snapshot.
    pub fn paused_counter(&self) -> (r: Result<u64, CounterError>)
        ensures
            r == pause_point(self.state),
            self.state matches CounterState::Paused { guest_counter, .. } ==> r == Ok::<
                u64,
                CounterError,
            >(guest_counter),
            r is Ok ==> self.state is Paused,
    {
        match self.state {
            CounterState::Paused { guest_counter, .. } => Ok(guest_counter),
            CounterState::Running { .. } => Err(CounterError::NotPaused),
            CounterState::Unsupported => Err(CounterError::Unsupported),
            CounterState::Uninitialized => Err(CounterError::Uninitialized),
            CounterState::Faulted => Err(CounterError::Faulted),
        }
    }

    /// Captures the guest counter of a running domain, which is then paused.
    pub fn record_pause<I: CounterIo>(&mut self, io: &mut CounterLog<'_, I>) -> (r: Result<
        (),
        CounterError,
    >)
        ensures
            final(io).continues(old(io)),
            is_paused(old(self).state, final(io).since(old(io)), r, final(self).state),
            can_step(old(self).state, final(self).state),
    {
        proof {
            lemma_calls_since(io.calls());
        }
        match self.state {
            CounterState::Running { offset } => {
                let guest_counter: u64 = match io.read_counter() {
                    Ok(counter) => counter,
                    Err(error) => {
                        return Err(error);
                    },
                };
                self.state = CounterState::Paused { offset, guest_counter };
                Ok(())
            },
            CounterState::Paused { .. } => Err(CounterError::AlreadyPaused),
            CounterState::Unsupported => Err(CounterError::Unsupported),
            CounterState::Uninitialized => Err(CounterError::Uninitialized),
            CounterState::Faulted => Err(CounterError::Faulted),
        }
    }

    /// Moves the offset of a paused domain so that its guest continues where it was paused.
    pub fn prepare_resume<I: CounterIo>(&mut self, io: &mut CounterLog<'_, I>) -> (r: Result<
        (),
        CounterError,
    >)
        ensures
            final(io).continues(old(io)),
            is_prepared_to_resume(old(self).state, final(io).since(old(io)), r, final(self).state),
            can_step(old(self).state, final(self).state),
    {
        proof {
            lemma_calls_since(io.calls());
        }
        match self.state {
            CounterState::Paused { offset, guest_counter } => {
                let current_counter: u64 = match io.read_counter() {
                    Ok(counter) => counter,
                    Err(error) => {
                        return Err(error);
                    },
                };
                let new_offset: u64 = resume_offset(offset, guest_counter, current_counter);
                match io.set_offset(new_offset) {
                    Ok(unit) => {
                        assert(unit == ());
                    },
                    Err(error) => {
                        return Err(error);
                    },
                }
                self.state = CounterState::Paused { offset: new_offset, guest_counter };
                Ok(())
            },
            // A fresh guest also boots on a host without support for counter offsets.
            CounterState::Unsupported => Ok(()),
            CounterState::Running { .. } => Err(CounterError::NotPaused),
            CounterState::Uninitialized => Err(CounterError::Uninitialized),
            CounterState::Faulted => Err(CounterError::Faulted),
        }
    }

    /// Records that the guest of a paused domain runs again.
    pub fn mark_running(&mut self) -> (r: Result<(), CounterError>)
        ensures
            is_marked_running(old(self).state, r, final(self).state),
            can_step(old(self).state, final(self).state),
    {
        match self.state {
            CounterState::Paused { offset, .. } => {
                self.state = CounterState::Running { offset };
                Ok(())
            },
            CounterState::Unsupported => Ok(()),
            CounterState::Running { .. } => Err(CounterError::NotPaused),
            CounterState::Uninitialized => Err(CounterError::Uninitialized),
            CounterState::Faulted => Err(CounterError::Faulted),
        }
    }

    /// Prevents further operations after a lifecycle transition became ambiguous.
    pub fn mark_faulted(&mut self)
        ensures
            final(self).state == CounterState::Faulted,
            can_step(old(self).state, final(self).state),
    {
        self.state = CounterState::Faulted;
    }
}

/// The counter that a guest with the given offset sees when that of the host is `host_counter`.
pub open spec fn guest_view(host_counter: u64, offset: u64) -> u64 {
    counter_sub(host_counter, offset)
}

/// Whether the first of `calls` read the counter when that of the host was `host_counter` and the
/// guest had the given offset.
pub open spec fn reads_at(calls: Seq<CounterCall>, host_counter: u64, offset: u64) -> bool {
    &&& 0 < calls.len()
    &&& calls[0] == CounterCall::ReadCounter(Ok(guest_view(host_counter, offset)))
}

/// The counter that the guest of a configured domain sees.
pub open spec fn domain_view(host_counter: u64, state: CounterState) -> u64 {
    match state {
        CounterState::Running { offset } => guest_view(host_counter, offset),
        CounterState::Paused { offset, .. } => guest_view(host_counter, offset),
        _ => guest_view(host_counter, 0),
    }
}

/// A restored guest continues at the saved counter, and sees how the time passes since the counter
/// of the host was read.
pub proof fn law_restore_continues_at_the_saved_counter(
    before: CounterState,
    saved_counter: u64,
    supported: bool,
    calls: Seq<CounterCall>,
    after: CounterState,
    host_counter: u64,
    elapsed: u64,
)
    requires
        is_configured_for_restore(before, saved_counter, supported, calls, Ok(()), after),
        reads_at(calls, host_counter, 0),
    ensures
        domain_view(counter_add(host_counter, elapsed), after) == counter_add(
            saved_counter,
            elapsed,
        ),
{
    lemma_wrapped_u64(host_counter);
    lemma_wrapped(host_counter + elapsed, host_counter - saved_counter);
}

/// Where counter offsets are supported a fresh guest counts from zero: it sees the time that has
/// passed since the counter of the host was read.
pub proof fn law_boot_starts_at_zero(
    before: CounterState,
    calls: Seq<CounterCall>,
    after: CounterState,
    host_counter: u64,
    elapsed: u64,
)
    requires
        is_configured_for_boot(before, true, calls, Ok(()), after),
        reads_at(calls, host_counter, 0),
    ensures
        domain_view(counter_add(host_counter, elapsed), after) == elapsed,
{
    law_restore_continues_at_the_saved_counter(
        before,
        0,
        true,
        calls,
        after,
        host_counter,
        elapsed,
    );
    lemma_wrapped_u64(elapsed);
}

/// No time passes in a paused guest: once it is prepared to resume, it sees the counter at which it
/// was paused, and how the time passes since the counter of the host was read.
pub proof fn law_resume_continues_at_the_pause_point(
    before: CounterState,
    calls: Seq<CounterCall>,
    after: CounterState,
    host_counter: u64,
    elapsed: u64,
)
    requires
        before is Paused,
        is_prepared_to_resume(before, calls, Ok(()), after),
        reads_at(calls, host_counter, before->Paused_offset),
    ensures
        domain_view(counter_add(host_counter, elapsed), after) == counter_add(
            before->guest_counter,
            elapsed,
        ),
        after is Paused && after->guest_counter == before->guest_counter,
{
    let offset = before->Paused_offset;
    let guest_counter = before->guest_counter;
    lemma_wrapped_u64(offset);
    lemma_resumed_offset(host_counter, offset as int, guest_counter);
    lemma_wrapped(host_counter + elapsed, host_counter - guest_counter);
}

/// A pause is invisible to the guest, however long it takes: when it is paused, prepared to resume
/// and marked as running, it sees the counter that it saw when it was paused, and how the time
/// passes since the counter of the host was read.
pub proof fn law_a_pause_is_invisible(
    running: CounterState,
    pause_calls: Seq<CounterCall>,
    paused: CounterState,
    resume_calls: Seq<CounterCall>,
    prepared: CounterState,
    resumed: CounterState,
    pause_host_counter: u64,
    resume_host_counter: u64,
    elapsed: u64,
)
    requires
        is_paused(running, pause_calls, Ok(()), paused),
        reads_at(pause_calls, pause_host_counter, running->Running_offset),
        is_prepared_to_resume(paused, resume_calls, Ok(()), prepared),
        reads_at(resume_calls, resume_host_counter, running->Running_offset),
        is_marked_running(prepared, Ok(()), resumed),
    ensures
        resumed is Running,
        domain_view(counter_add(resume_host_counter, elapsed), resumed) == counter_add(
            domain_view(pause_host_counter, running),
            elapsed,
        ),
{
    law_resume_continues_at_the_pause_point(
        paused,
        resume_calls,
        prepared,
        resume_host_counter,
        elapsed,
    );
}

/// The offset that is in place after `calls`, when `offset` was before: the last one that was set.
pub open spec fn installed_offset(calls: Seq<CounterCall>, offset: u64) -> u64 {
    if offsets_set(calls).len() == 0 {
        offset
    } else {
        offsets_set(calls).last()
    }
}

/// Whether `calls` are calls to KVM while the counter of the host is `host_counter`, when `offset`
/// was in place before: none fails, and reading gives the counter of the host less the offset that
/// is in place by then.
pub open spec fn is_kvm_run(calls: Seq<CounterCall>, host_counter: u64, offset: u64) -> bool {
    forall|i: int|
        0 <= i < calls.len() ==> match #[trigger] calls[i] {
            CounterCall::ReadCounter(reply) => reply == Ok::<_, CounterError>(
                guest_view(host_counter, installed_offset(calls.take(i), offset)),
            ),
            CounterCall::SetOffset(_, reply) => reply == Ok::<_, CounterError>(()),
        }
}

/// The offset in the state of a domain is the one that is in place: configuring a domain and
/// preparing it to resume keep it so, whether they succeed or fail.
pub proof fn law_the_offset_in_the_state_is_in_place(
    before: CounterState,
    saved_counter: u64,
    calls: Seq<CounterCall>,
    r: Result<(), CounterError>,
    after: CounterState,
    offset: u64,
)
    ensures
        is_configured(before, saved_counter, calls, r, after) && r is Ok ==> {
            &&& offsets_set(calls) == seq![after->Paused_offset]
            &&& installed_offset(calls, offset) == after->Paused_offset
        },
        is_configured(before, saved_counter, calls, r, after) && r is Err ==> offsets_set(calls)
            == Seq::<u64>::empty(),
        before is Paused && is_prepared_to_resume(before, calls, r, after) && r is Ok ==> {
            &&& offsets_set(calls) == seq![after->Paused_offset]
            &&& installed_offset(calls, offset) == after->Paused_offset
        },
        before is Paused && is_prepared_to_resume(before, calls, r, after) && r is Err ==> {
            &&& offsets_set(calls) == Seq::<u64>::empty()
            &&& installed_offset(calls, before->Paused_offset) == after->Paused_offset
        },
{
    lemma_offsets_set_of_two(calls);
}

/// The offsets that at most two calls set.
proof fn lemma_offsets_set_of_two(calls: Seq<CounterCall>)
    ensures
        calls.len() == 0 ==> offsets_set(calls) == Seq::<u64>::empty(),
        calls.len() == 1 && calls[0] is ReadCounter ==> offsets_set(calls) == Seq::<u64>::empty(),
        calls.len() == 2 && calls[0] is ReadCounter && calls[1] is SetOffset ==> offsets_set(calls)
            == match calls[1]->SetOffset_1 {
            Ok(()) => seq![calls[1]->SetOffset_0],
            Err(_) => Seq::<u64>::empty(),
        },
{
    reveal_with_fuel(offsets_set, 3);
    if 0 < calls.len() {
        assert(calls.drop_last().len() == calls.len() - 1);
    }
}

/// On KVM, while the counter of the host stands still, preparing a paused guest to resume succeeds.
/// The guest then sees the counter at which it was paused, and preparing it once more changes
/// nothing.
pub proof fn law_kvm_freezes_a_paused_guest(
    before: CounterState,
    calls: Seq<CounterCall>,
    r: Result<(), CounterError>,
    after: CounterState,
    second_calls: Seq<CounterCall>,
    second_r: Result<(), CounterError>,
    second_after: CounterState,
    host_counter: u64,
)
    requires
        before is Paused,
        is_prepared_to_resume(before, calls, r, after),
        is_kvm_run(calls, host_counter, before->Paused_offset),
        is_prepared_to_resume(after, second_calls, second_r, second_after),
        is_kvm_run(
            second_calls,
            host_counter,
            installed_offset(calls, before->Paused_offset),
        ),
    ensures
        r is Ok,
        after == (CounterState::Paused {
            offset: counter_sub(host_counter, before->guest_counter),
            guest_counter: before->guest_counter,
        }),
        offsets_set(calls) == seq![counter_sub(host_counter, before->guest_counter)],
        guest_view(host_counter, installed_offset(calls, before->Paused_offset))
            == before->guest_counter,
        second_r is Ok,
        second_after == after,
        offsets_set(second_calls) == offsets_set(calls),
{
    let guest_counter = before->guest_counter;
    lemma_kvm_prepares_to_resume(before, calls, r, after, host_counter);
    lemma_kvm_prepares_to_resume(after, second_calls, second_r, second_after, host_counter);
    lemma_wrapped_u64(host_counter);
    lemma_wrapped_u64(guest_counter);
    lemma_wrapped(host_counter as int, host_counter - guest_counter);
}

/// What preparing a paused guest to resume comes to on KVM.
proof fn lemma_kvm_prepares_to_resume(
    before: CounterState,
    calls: Seq<CounterCall>,
    r: Result<(), CounterError>,
    after: CounterState,
    host_counter: u64,
)
    requires
        before is Paused,
        is_prepared_to_resume(before, calls, r, after),
        is_kvm_run(calls, host_counter, before->Paused_offset),
    ensures
        r is Ok,
        after == (CounterState::Paused {
            offset: counter_sub(host_counter, before->guest_counter),
            guest_counter: before->guest_counter,
        }),
        offsets_set(calls) == seq![counter_sub(host_counter, before->guest_counter)],
        installed_offset(calls, before->Paused_offset) == after->Paused_offset,
{
    let offset = before->Paused_offset;
    assert(offsets_set(calls.take(0)) == Seq::<u64>::empty());
    assert(calls[0] == CounterCall::ReadCounter(Ok(guest_view(host_counter, offset))));
    assert(calls[1] is SetOffset && calls[1]->SetOffset_1 is Ok);
    lemma_wrapped_u64(offset);
    lemma_resumed_offset(host_counter, offset as int, before->guest_counter);
    lemma_offsets_set_of_two(calls);
}

/// Preparing to resume again, at a later time, undoes what the first preparation set: the offset
/// depends on the last one alone.
pub proof fn law_resume_can_be_prepared_again(
    first_host_counter: u64,
    host_counter: u64,
    offset: u64,
    guest_counter: u64,
)
    ensures
        ({
            let first = resumed_offset(
                offset,
                guest_counter,
                guest_view(first_host_counter, offset),
            );
            resumed_offset(first, guest_counter, guest_view(host_counter, first))
        }) == resumed_offset(offset, guest_counter, guest_view(host_counter, offset)),
{
    lemma_wrapped_u64(offset);
    lemma_resumed_offset(first_host_counter, offset as int, guest_counter);
    lemma_resumed_offset(host_counter, first_host_counter - guest_counter, guest_counter);
    lemma_resumed_offset(host_counter, offset as int, guest_counter);
}

/// The offset with which a guest is resumed is how far the counter of the host is past the pause
/// point, whatever the offset was before.
proof fn lemma_resumed_offset(host_counter: u64, offset: int, guest_counter: u64)
    ensures
        resumed_offset(wrapped(offset), guest_counter, guest_view(host_counter, wrapped(offset)))
            == counter_sub(host_counter, guest_counter),
{
    lemma_wrapped_u64(host_counter);
    lemma_wrapped_u64(guest_counter);
    lemma_wrapped(host_counter as int, offset);
    lemma_wrapped(host_counter - offset, guest_counter as int);
    lemma_wrapped(offset, host_counter - offset - guest_counter);
}

/// Whether the states are those that a domain goes through, one operation after another.
pub open spec fn is_history(states: Seq<CounterState>) -> bool {
    forall|i: int| 0 <= i < states.len() - 1 ==> can_step(#[trigger] states[i], states[i + 1])
}

/// A faulted domain stays faulted, and refuses every request.
pub proof fn law_a_fault_is_final(states: Seq<CounterState>, i: int, j: int)
    requires
        is_history(states),
        0 <= i <= j < states.len(),
        states[i] is Faulted,
    ensures
        states[j] is Faulted,
        health_refusal(states[j]) == Some(CounterError::Faulted),
        pause_refusal(states[j]) == Some(CounterError::Faulted),
        snapshot_refusal(states[j]) == Some(CounterError::Faulted),
        resume_refusal(states[j]) == Some(CounterError::Faulted),
    decreases j - i,
{
    if i < j {
        law_a_fault_is_final(states, i, j - 1);
        assert(can_step(states[j - 1], states[j - 1 + 1]));
    }
}

/// Without support for counter offsets a domain can never be paused or saved. It stays as it is
/// until it is faulted, and resuming it is no error.
pub proof fn law_an_unsupported_domain_is_never_paused(states: Seq<CounterState>, i: int, j: int)
    requires
        is_history(states),
        0 <= i <= j < states.len(),
        states[i] is Unsupported,
    ensures
        states[j] is Unsupported || states[j] is Faulted,
        pause_refusal(states[j]) is Some,
        snapshot_refusal(states[j]) is Some,
        states[j] is Unsupported ==> resume_refusal(states[j]) is None,
    decreases j - i,
{
    if i < j {
        law_an_unsupported_domain_is_never_paused(states, i, j - 1);
        assert(can_step(states[j - 1], states[j - 1 + 1]));
    }
}

/// A domain is configured once: after that it never again is without a configuration.
pub proof fn law_a_domain_is_configured_once(states: Seq<CounterState>, i: int, j: int)
    requires
        is_history(states),
        0 <= i <= j < states.len(),
        !(states[i] is Uninitialized),
    ensures
        !(states[j] is Uninitialized),
    decreases j - i,
{
    if i < j {
        law_a_domain_is_configured_once(states, i, j - 1);
        assert(can_step(states[j - 1], states[j - 1 + 1]));
    }
}

/// Only a paused domain can be saved, only a running one can be paused, and no domain can be both
/// paused and resumed.
pub proof fn law_requests_exclude_each_other(state: CounterState)
    ensures
        snapshot_refusal(state) is None <==> state is Paused,
        pause_refusal(state) is None <==> state is Running,
        resume_refusal(state) is None <==> state is Paused || state is Unsupported,
        health_refusal(state) is None <==> !(state is Faulted || state is Uninitialized),
        pause_refusal(state) is Some || resume_refusal(state) is Some,
{
}

/// A sum or a difference of counters is the one of the numbers, less or plus 2^64 if it does not
/// fit.
pub proof fn law_counters_wrap_around(a: u64, b: u64)
    ensures
        counter_add(a, b) == a + b || counter_add(a, b) == a + b - 0x1_0000_0000_0000_0000,
        counter_sub(a, b) == a - b || counter_sub(a, b) == a - b + 0x1_0000_0000_0000_0000,
        counter_sub(counter_add(a, b), b) == a,
        counter_add(counter_sub(a, b), b) == a,
{
    reveal(wrapped);
}

/// A guest sees the counter of the host less its offset: what it sees and the offset add up to the
/// counter of the host.
pub proof fn law_a_guest_sees_the_host_less_the_offset(host_counter: u64, offset: u64)
    ensures
        (guest_view(host_counter, offset) + offset) % 0x1_0000_0000_0000_0000 == host_counter,
        guest_view(host_counter, 0) == host_counter,
{
    reveal(wrapped);
}

/// The offset with which a guest is resumed grows by what its counter went on during the pause.
pub proof fn law_the_offset_grows_by_the_pause(
    offset: u64,
    guest_counter: u64,
    current_counter: u64,
)
    ensures
        (resumed_offset(offset, guest_counter, current_counter) - offset) % 0x1_0000_0000_0000_0000
            == (current_counter - guest_counter) % 0x1_0000_0000_0000_0000,
        resumed_offset(offset, guest_counter, guest_counter) == offset,
{
    reveal(wrapped);
}

/// The pause point of a domain that is paused at a counter is this counter, whatever its offset is.
/// So two domains with the same pause point are paused at the same counter, and what preparing to
/// resume and its offset change is not seen in the snapshot.
pub proof fn law_the_pause_point_is_the_paused_counter(
    offset: u64,
    guest_counter: u64,
    other_offset: u64,
    other_counter: u64,
)
    ensures
        pause_point(CounterState::Paused { offset, guest_counter }) == Ok::<u64, CounterError>(
            guest_counter,
        ),
        pause_point(CounterState::Paused { offset, guest_counter }) == pause_point(
            CounterState::Paused { offset: other_offset, guest_counter: other_counter },
        ) ==> guest_counter == other_counter,
{
}

/// A domain has a pause point exactly if it is paused, and every other one is refused a snapshot
/// for the reason why it is not paused.
pub proof fn law_only_a_paused_domain_has_a_pause_point(state: CounterState)
    ensures
        pause_point(state) is Ok <==> state is Paused,
        state is Running ==> pause_point(state) == Err::<u64, _>(CounterError::NotPaused),
        state is Unsupported ==> pause_point(state) == Err::<u64, _>(CounterError::Unsupported),
        state is Uninitialized ==> pause_point(state) == Err::<u64, _>(CounterError::Uninitialized),
        state is Faulted ==> pause_point(state) == Err::<u64, _>(CounterError::Faulted),
{
}

/// The counter that is handed out for a snapshot is the one that the pause has read, also after the
/// domain was prepared to resume and it failed, or the resumption was not gone through with.
pub proof fn law_a_snapshot_is_taken_at_what_the_pause_read(
    running: CounterState,
    calls: Seq<CounterCall>,
    r: Result<(), CounterError>,
    paused: CounterState,
    counter: u64,
    resume_calls: Seq<CounterCall>,
    resume_r: Result<(), CounterError>,
    prepared: CounterState,
)
    requires
        running is Running,
        is_paused(running, calls, r, paused),
        calls[0] == CounterCall::ReadCounter(Ok(counter)),
        is_prepared_to_resume(paused, resume_calls, resume_r, prepared),
    ensures
        r == Ok::<(), CounterError>(()),
        pause_point(paused) == Ok::<u64, CounterError>(counter),
        pause_point(prepared) == Ok::<u64, CounterError>(counter),
{
}

/// A domain that is configured for restore is paused at the saved counter, so that a snapshot of it
/// that is taken before it runs holds the counter that it was restored with. A fresh domain is
/// paused at zero.
pub proof fn law_a_configured_domain_is_paused_at_its_counter(
    before: CounterState,
    saved_counter: u64,
    calls: Seq<CounterCall>,
    after: CounterState,
)
    ensures
        is_configured_for_restore(before, saved_counter, true, calls, Ok(()), after)
            ==> pause_point(after) == Ok::<u64, CounterError>(saved_counter),
        is_configured_for_boot(before, true, calls, Ok(()), after) ==> pause_point(after) == Ok::<
            u64,
            CounterError,
        >(0),
{
}

/// Why a request is refused, by the state of the domain.
pub proof fn law_refusals(state: CounterState)
    ensures
        state is Uninitialized ==> {
            &&& health_refusal(state) == Some(CounterError::Uninitialized)
            &&& pause_refusal(state) == Some(CounterError::Uninitialized)
            &&& snapshot_refusal(state) == Some(CounterError::Uninitialized)
            &&& resume_refusal(state) == Some(CounterError::Uninitialized)
        },
        state is Faulted ==> {
            &&& health_refusal(state) == Some(CounterError::Faulted)
            &&& pause_refusal(state) == Some(CounterError::Faulted)
            &&& snapshot_refusal(state) == Some(CounterError::Faulted)
            &&& resume_refusal(state) == Some(CounterError::Faulted)
        },
        state is Unsupported ==> {
            &&& health_refusal(state) is None
            &&& pause_refusal(state) == Some(CounterError::Unsupported)
            &&& snapshot_refusal(state) == Some(CounterError::Unsupported)
            &&& resume_refusal(state) is None
        },
        state is Running ==> {
            &&& health_refusal(state) is None
            &&& pause_refusal(state) is None
            &&& snapshot_refusal(state) == Some(CounterError::NotPaused)
            &&& resume_refusal(state) == Some(CounterError::NotPaused)
        },
        state is Paused ==> {
            &&& health_refusal(state) is None
            &&& pause_refusal(state) == Some(CounterError::AlreadyPaused)
            &&& snapshot_refusal(state) is None
            &&& resume_refusal(state) is None
        },
        forall|refusal: Option<CounterError>|
            match refusal {
                Some(error) => #[trigger] refused(refusal) == Err::<(), _>(error),
                None => refused(refusal) == Ok::<(), CounterError>(()),
            },
{
}

/// A domain is configured at most once. Without support for counter offsets a fresh guest boots all
/// the same and a restored one is turned away. No call is made in any of these cases, and but for
/// the fresh guest nothing changes.
pub proof fn law_configuring_is_refused(
    before: CounterState,
    saved_counter: u64,
    supported: bool,
    calls: Seq<CounterCall>,
    r: Result<(), CounterError>,
    after: CounterState,
)
    requires
        !supported || !(before is Uninitialized),
    ensures
        is_configured_for_boot(before, supported, calls, r, after) ==> {
            &&& calls.len() == 0
            &&& !(before is Uninitialized) ==> r == Err::<(), _>(CounterError::AlreadyConfigured)
                && after == before
            &&& before is Uninitialized ==> r == Ok::<(), CounterError>(()) && after is Unsupported
        },
        is_configured_for_restore(before, saved_counter, supported, calls, r, after) ==> {
            &&& calls.len() == 0
            &&& after == before
            &&& !(before is Uninitialized) ==> r == Err::<(), _>(CounterError::AlreadyConfigured)
            &&& before is Uninitialized ==> r == Err::<(), _>(CounterError::Unsupported)
        },
{
}

/// Where counter offsets are supported, configuring a fresh domain reads the counter first and then
/// sets the offset, once each. The offset and the counter at which the guest is to continue add up
/// to the counter that was read. The first call that fails is the last one: its error is returned
/// and nothing changes.
pub proof fn law_configuring_reads_and_sets_once(
    before: CounterState,
    saved_counter: u64,
    calls: Seq<CounterCall>,
    r: Result<(), CounterError>,
    after: CounterState,
)
    requires
        before is Uninitialized,
        is_configured_for_restore(before, saved_counter, true, calls, r, after) || (
        is_configured_for_boot(before, true, calls, r, after) && saved_counter == 0),
    ensures
        1 <= calls.len() <= 2,
        calls[0] is ReadCounter,
        calls[0] matches CounterCall::ReadCounter(Err(error)) ==> {
            &&& calls.len() == 1
            &&& r == Err::<(), _>(error)
        },
        calls[0] matches CounterCall::ReadCounter(Ok(counter)) ==> {
            &&& calls.len() == 2
            &&& calls[1] matches CounterCall::SetOffset(offset, reply) && {
                &&& (offset + saved_counter) % 0x1_0000_0000_0000_0000 == counter
                &&& reply == r
                &&& r is Ok ==> after == (CounterState::Paused {
                    offset,
                    guest_counter: saved_counter,
                })
            }
        },
        r is Err ==> after == before,
{
    reveal(wrapped);
}

/// Pausing a running domain reads the counter once. If that succeeds, the domain is paused at what
/// was read, with the offset that it had. If it fails, its error is returned and the domain goes on
/// running. A domain that does not run is left alone.
pub proof fn law_pausing_reads_once(
    before: CounterState,
    calls: Seq<CounterCall>,
    r: Result<(), CounterError>,
    after: CounterState,
)
    requires
        is_paused(before, calls, r, after),
    ensures
        before matches CounterState::Running { offset } ==> {
            &&& calls.len() == 1
            &&& calls[0] matches CounterCall::ReadCounter(reply) && match reply {
                Ok(counter) => r == Ok::<(), CounterError>(()) && after == (CounterState::Paused {
                    offset,
                    guest_counter: counter,
                }),
                Err(error) => r == Err::<(), _>(error) && after == before,
            }
        },
        !(before is Running) ==> calls.len() == 0 && after == before && r is Err,
        before is Paused ==> r == Err::<(), _>(CounterError::AlreadyPaused),
        before is Unsupported ==> r == Err::<(), _>(CounterError::Unsupported),
        before is Uninitialized ==> r == Err::<(), _>(CounterError::Uninitialized),
        before is Faulted ==> r == Err::<(), _>(CounterError::Faulted),
{
}

/// Preparing a paused domain to resume reads the counter first and then sets the offset, once each.
/// The offset grows by as much as the counter is past the pause point. The first call that fails is
/// the last one: its error is returned and nothing changes. A domain that is not paused is left
/// alone.
pub proof fn law_preparing_to_resume_reads_and_sets_once(
    before: CounterState,
    calls: Seq<CounterCall>,
    r: Result<(), CounterError>,
    after: CounterState,
)
    requires
        is_prepared_to_resume(before, calls, r, after),
    ensures
        before matches CounterState::Paused { offset, guest_counter } ==> {
            &&& 1 <= calls.len() <= 2
            &&& calls[0] is ReadCounter
            &&& calls[0] matches CounterCall::ReadCounter(Err(error)) ==> {
                &&& calls.len() == 1
                &&& r == Err::<(), _>(error)
            }
            &&& calls[0] matches CounterCall::ReadCounter(Ok(counter)) ==> {
                &&& calls.len() == 2
                &&& calls[1] matches CounterCall::SetOffset(new_offset, reply) && {
                    &&& (new_offset - offset) % 0x1_0000_0000_0000_0000 == (counter - guest_counter)
                        % 0x1_0000_0000_0000_0000
                    &&& reply == r
                    &&& r is Ok ==> after == (CounterState::Paused {
                        offset: new_offset,
                        guest_counter,
                    })
                }
            }
            &&& r is Err ==> after == before
        },
        !(before is Paused) ==> calls.len() == 0 && after == before,
        before is Unsupported ==> r == Ok::<(), CounterError>(()),
        before is Running ==> r == Err::<(), _>(CounterError::NotPaused),
        before is Uninitialized ==> r == Err::<(), _>(CounterError::Uninitialized),
        before is Faulted ==> r == Err::<(), _>(CounterError::Faulted),
{
    if let CounterState::Paused { offset, guest_counter } = before {
        if let CounterCall::ReadCounter(Ok(counter)) = calls[0] {
            law_the_offset_grows_by_the_pause(offset, guest_counter, counter);
        }
    }
}

/// A paused domain that is marked as running runs with the offset that it was paused with. A domain
/// that is not paused is left alone, and only without support for counter offsets is that no error.
pub proof fn law_marking_as_running_keeps_the_offset(
    before: CounterState,
    r: Result<(), CounterError>,
    after: CounterState,
)
    requires
        is_marked_running(before, r, after),
    ensures
        before matches CounterState::Paused { offset, .. } ==> r == Ok::<(), CounterError>(())
            && after == (CounterState::Running { offset }),
        !(before is Paused) ==> after == before,
        before is Unsupported ==> r == Ok::<(), CounterError>(()),
        before is Running ==> r == Err::<(), _>(CounterError::NotPaused),
        before is Uninitialized ==> r == Err::<(), _>(CounterError::Uninitialized),
        before is Faulted ==> r == Err::<(), _>(CounterError::Faulted),
{
}

/// What [`CounterController::paused_counter`] returns for a domain that is paused at a counter is
/// this counter, whatever the offset is, and it returns a counter for no other domain.
pub proof fn law_paused_counter_is_the_paused_counter(
    controller: CounterController,
    r: Result<u64, CounterError>,
)
    requires
        call_ensures(CounterController::paused_counter, (&controller,), r),
    ensures
        match controller.state {
            CounterState::Paused { offset, guest_counter } => r == Ok::<u64, CounterError>(
                guest_counter,
            ),
            CounterState::Running { .. } => r == Err::<u64, _>(CounterError::NotPaused),
            CounterState::Unsupported => r == Err::<u64, _>(CounterError::Unsupported),
            CounterState::Uninitialized => r == Err::<u64, _>(CounterError::Uninitialized),
            CounterState::Faulted => r == Err::<u64, _>(CounterError::Faulted),
        },
{
}

/// [`CounterController::ensure_healthy`] rejects a domain that is faulted or not configured, and
/// [`CounterController::ensure_can_pause`] every domain that does not run.
pub proof fn law_unfit_domains_are_rejected(
    controller: CounterController,
    healthy: Result<(), CounterError>,
    can_pause: Result<(), CounterError>,
)
    requires
        call_ensures(CounterController::ensure_healthy, (&controller,), healthy),
        call_ensures(CounterController::ensure_can_pause, (&controller,), can_pause),
    ensures
        match controller.state {
            CounterState::Running { .. } => healthy is Ok && can_pause is Ok,
            CounterState::Paused { .. } => healthy is Ok && can_pause == Err::<(), _>(
                CounterError::AlreadyPaused,
            ),
            CounterState::Unsupported => healthy is Ok && can_pause == Err::<(), _>(
                CounterError::Unsupported,
            ),
            CounterState::Uninitialized => healthy == Err::<(), _>(CounterError::Uninitialized)
                && can_pause == healthy,
            CounterState::Faulted => healthy == Err::<(), _>(CounterError::Faulted) && can_pause
                == healthy,
        },
{
}

/// What [`restore_offset`] returns and the saved counter add up to the counter, and what
/// [`resume_offset`] returns is past the old offset by as much as the counter is past the pause.
pub proof fn law_offsets_add_up(
    counter: u64,
    saved_counter: u64,
    offset: u64,
    old_offset: u64,
    new_offset: u64,
)
    requires
        call_ensures(restore_offset, (counter, saved_counter), offset),
        call_ensures(resume_offset, (old_offset, saved_counter, counter), new_offset),
    ensures
        (offset + saved_counter) % 0x1_0000_0000_0000_0000 == counter,
        (new_offset - old_offset) % 0x1_0000_0000_0000_0000 == (counter - saved_counter)
            % 0x1_0000_0000_0000_0000,
{
}

/// When [`CounterController::record_pause`] succeeds, the counter was read once, and
/// [`CounterController::paused_counter`] then returns the counter that was read. The offset is the
/// one with which the domain ran.
pub proof fn law_a_pause_is_handed_out<'a, I: CounterIo>(
    paused: CounterController,
    handed_out: Result<u64, CounterError>,
)
    requires
        call_ensures(CounterController::paused_counter, (&paused,), handed_out),
    ensures
        forall|controller: &mut CounterController, io: &mut CounterLog<'a, I>| #[trigger]
            call_ensures(CounterController::record_pause::<I>, (controller, io), Ok(()))
                && *final(controller) == paused ==> {
                &&& controller.state is Running
                &&& paused.state is Paused
                &&& paused.state->Paused_offset == controller.state->Running_offset
                &&& handed_out is Ok
                &&& final(io).calls() == io.calls().push(CounterCall::ReadCounter(handed_out))
            },
{
    assert forall|controller: &mut CounterController, io: &mut CounterLog<'a, I>| #[trigger]
        call_ensures(CounterController::record_pause::<I>, (controller, io), Ok(()))
            && *final(controller) == paused implies {
        &&& controller.state is Running
        &&& paused.state is Paused
        &&& paused.state->Paused_offset == controller.state->Running_offset
        &&& handed_out is Ok
        &&& final(io).calls() == io.calls().push(CounterCall::ReadCounter(handed_out))
    } by {
        assert(final(io).calls() =~= io.calls() + final(io).since(io));
    }
}

/// When [`CounterController::record_pause`] fails, the domain is as it was. If it ran, the error is
/// that of the one read, and if it did not, no call was made.
pub proof fn law_a_failed_pause_changes_nothing<'a, I: CounterIo>(error: CounterError)
    ensures
        forall|controller: &mut CounterController, io: &mut CounterLog<'a, I>| #[trigger]
            call_ensures(CounterController::record_pause::<I>, (controller, io), Err(error)) ==> {
                &&& final(controller).state == controller.state
                &&& controller.state is Running ==> final(io).calls() == io.calls().push(
                    CounterCall::ReadCounter(Err(error)),
                )
                &&& !(controller.state is Running) ==> final(io).calls() == io.calls()
            },
{
    assert forall|controller: &mut CounterController, io: &mut CounterLog<'a, I>| #[trigger]
        call_ensures(CounterController::record_pause::<I>, (controller, io), Err(error)) implies {
        &&& final(controller).state == controller.state
        &&& controller.state is Running ==> final(io).calls() == io.calls().push(
            CounterCall::ReadCounter(Err(error)),
        )
        &&& !(controller.state is Running) ==> final(io).calls() == io.calls()
    } by {
        assert(final(io).calls() =~= io.calls() + final(io).since(io));
    }
}

/// When [`CounterController::prepare_resume`] succeeds on a paused domain, the counter was read and
/// then the offset was set, once each. The offset has moved by as much as the counter that was read
/// is past the pause point. The domain stays paused where it was, with the offset that was set.
pub proof fn law_resuming_undoes_the_pause<'a, I: CounterIo>()
    ensures
        forall|controller: &mut CounterController, io: &mut CounterLog<'a, I>| #[trigger]
            call_ensures(CounterController::prepare_resume::<I>, (controller, io), Ok(()))
                && controller.state is Paused ==> {
                let made = final(io).since(io);
                &&& final(controller).state is Paused
                &&& final(controller).state->guest_counter == controller.state->guest_counter
                &&& made.len() == 2
                &&& made[0] is ReadCounter && made[0]->ReadCounter_0 is Ok
                &&& made[1] == CounterCall::SetOffset(
                    final(controller).state->Paused_offset,
                    Ok(()),
                )
                &&& (final(controller).state->Paused_offset - controller.state->Paused_offset)
                    % 0x1_0000_0000_0000_0000 == (made[0]->ReadCounter_0->Ok_0
                    - controller.state->guest_counter) % 0x1_0000_0000_0000_0000
            },
{
    assert forall|controller: &mut CounterController, io: &mut CounterLog<'a, I>| #[trigger]
        call_ensures(CounterController::prepare_resume::<I>, (controller, io), Ok(()))
            && controller.state is Paused implies {
        let made = final(io).since(io);
        &&& final(controller).state is Paused
        &&& final(controller).state->guest_counter == controller.state->guest_counter
        &&& made.len() == 2
        &&& made[0] is ReadCounter && made[0]->ReadCounter_0 is Ok
        &&& made[1] == CounterCall::SetOffset(final(controller).state->Paused_offset, Ok(()))
        &&& (final(controller).state->Paused_offset - controller.state->Paused_offset)
            % 0x1_0000_0000_0000_0000 == (made[0]->ReadCounter_0->Ok_0
            - controller.state->guest_counter) % 0x1_0000_0000_0000_0000
    } by {
        law_preparing_to_resume_reads_and_sets_once(
            controller.state,
            final(io).since(io),
            Ok(()),
            final(controller).state,
        );
    }
}

/// When [`CounterController::configure_restore`] succeeds, the counter was read and then the offset
/// was set, once each. The offset and the saved counter add up to the counter that was read, and
/// the domain is paused at the saved counter with this offset. A fresh domain that
/// [`CounterController::configure_boot`] configures is paused at zero in the same way.
pub proof fn law_configured_guests_continue_at_their_counters<'a, I: CounterIo>(saved_counter: u64)
    ensures
        forall|controller: &mut CounterController, io: &mut CounterLog<'a, I>, supported: bool|
            #[trigger] call_ensures(
                CounterController::configure_restore::<I>,
                (controller, io, saved_counter, supported),
                Ok(()),
            ) ==> {
                let made = final(io).since(io);
                &&& supported && controller.state is Uninitialized
                &&& final(controller).state is Paused
                &&& final(controller).state->guest_counter == saved_counter
                &&& made.len() == 2
                &&& made[1] == CounterCall::SetOffset(
                    final(controller).state->Paused_offset,
                    Ok(()),
                )
                &&& made[0] is ReadCounter && made[0]->ReadCounter_0 is Ok
                &&& (final(controller).state->Paused_offset + saved_counter)
                    % 0x1_0000_0000_0000_0000 == made[0]->ReadCounter_0->Ok_0
            },
        forall|controller: &mut CounterController, io: &mut CounterLog<'a, I>, supported: bool|
            #[trigger] call_ensures(
                CounterController::configure_boot::<I>,
                (controller, io, supported),
                Ok(()),
            ) ==> {
                let made = final(io).since(io);
                &&& controller.state is Uninitialized
                &&& !supported ==> made.len() == 0 && final(controller).state is Unsupported
                &&& supported ==> {
                    &&& final(controller).state is Paused
                    &&& final(controller).state->guest_counter == 0
                    &&& made.len() == 2
                    &&& made[0] == CounterCall::ReadCounter(
                        Ok(final(controller).state->Paused_offset),
                    )
                    &&& made[1] == CounterCall::SetOffset(
                        final(controller).state->Paused_offset,
                        Ok(()),
                    )
                }
            },
{
    reveal(wrapped);
}

/// [`CounterController::mark_running`] keeps the offset of a paused domain, and
/// [`CounterController::mark_faulted`] leaves nothing of any.
pub proof fn law_marks_keep_what_they_must(r: Result<(), CounterError>)
    ensures
        forall|controller: &mut CounterController| #[trigger]
            call_ensures(CounterController::mark_running, (controller,), r) ==> {
                &&& controller.state matches CounterState::Paused { offset, .. } ==> r is Ok
                    && final(controller).state == (CounterState::Running { offset })
                &&& controller.state is Unsupported ==> r is Ok
                &&& controller.state is Running ==> r == Err::<(), _>(CounterError::NotPaused)
                &&& controller.state is Faulted ==> r == Err::<(), _>(CounterError::Faulted)
                &&& controller.state is Uninitialized ==> r == Err::<(), _>(
                    CounterError::Uninitialized,
                )
                &&& !(controller.state is Paused) ==> final(controller).state == controller.state
            },
        forall|controller: &mut CounterController| #[trigger]
            call_ensures(CounterController::mark_faulted, (controller,), ())
                ==> final(controller).state is Faulted,
{
}

} // verus!
