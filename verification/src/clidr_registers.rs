//! The cache level registers of vCPUs and the calls that are made to them.

use vstd::prelude::*;

use crate::errno::Errno;

verus! {

/// A call to the cache level register of a vCPU, which is named by its index, and the reply to it.
#[derive(Clone, Copy, Debug, PartialEq, Eq)]
pub enum ClidrCall {
    /// The register was read.
    Read(usize, Result<u64, Errno>),
    /// The register was set to this value.
    Write(usize, u64, Result<(), Errno>),
}

/// The cache level registers of vCPUs and the calls that have been made to them. There is no other
/// way to the registers, so no call is left out. `G` reads the register of a vCPU and `W` sets it.
pub struct ClidrRegisters<'a, V, G, W> {
    vcpus: &'a [V],
    read: G,
    write: W,
    calls: Ghost<Seq<ClidrCall>>,
}

impl<
    'a,
    V,
    G: FnMut(&V) -> Result<u64, Errno>,
    W: FnMut(&V, u64) -> Result<(), Errno>,
> ClidrRegisters<'a, V, G, W> {
    /// The vCPUs.
    pub closed spec fn vcpus(&self) -> Seq<V> {
        self.vcpus@
    }

    /// What reads a register.
    pub closed spec fn reader(&self) -> G {
        self.read
    }

    /// What sets a register.
    pub closed spec fn writer(&self) -> W {
        self.write
    }

    /// The calls that have been made, in order.
    pub closed spec fn calls(&self) -> Seq<ClidrCall> {
        self.calls@
    }

    /// The calls that have been made since the registers were `before`.
    pub open spec fn since(&self, before: &Self) -> Seq<ClidrCall> {
        self.calls().skip(before.calls().len() as int)
    }

    /// Whether the register of vCPU `i` may be read.
    pub open spec fn can_read(&self, i: int) -> bool {
        call_requires(self.reader(), (&self.vcpus()[i],))
    }

    /// Whether the register of vCPU `i` may be set to `clidr`.
    pub open spec fn can_write(&self, i: int, clidr: u64) -> bool {
        call_requires(self.writer(), (&self.vcpus()[i], clidr))
    }

    /// Whether the reply to `call` can have been given.
    pub open spec fn gives(&self, call: ClidrCall) -> bool {
        match call {
            ClidrCall::Read(i, reply) => call_ensures(
                self.reader(),
                (&self.vcpus()[i as int],),
                reply,
            ),
            ClidrCall::Write(i, clidr, reply) => call_ensures(
                self.writer(),
                (&self.vcpus()[i as int], clidr),
                reply,
            ),
        }
    }

    /// Whether the registers are what `before` can have become: calls have been made, and the
    /// replies to them were given.
    pub open spec fn continues(&self, before: &Self) -> bool {
        &&& self.vcpus() == before.vcpus()
        &&& self.reader() == before.reader()
        &&& self.writer() == before.writer()
        &&& before.calls().is_prefix_of(self.calls())
        &&& forall|i: int|
            before.calls().len() <= i < self.calls().len() ==> self.gives(
                #[trigger] self.calls()[i],
            )
    }

    /// Returns the registers of the given vCPUs, without any call.
    pub fn new(vcpus: &'a [V], read: G, write: W) -> (registers: ClidrRegisters<'a, V, G, W>)
        ensures
            registers.vcpus() == vcpus@,
            registers.reader() == read,
            registers.writer() == write,
            registers.calls() == Seq::<ClidrCall>::empty(),
    {
        ClidrRegisters { vcpus, read, write, calls: Ghost(Seq::empty()) }
    }

    /// Returns the number of vCPUs.
    pub fn len(&self) -> (count: usize)
        ensures
            count == self.vcpus().len(),
    {
        self.vcpus.len()
    }

    /// Reads the register of vCPU `i`.
    pub fn read(&mut self, i: usize) -> (reply: Result<u64, Errno>)
        requires
            i < old(self).vcpus().len(),
            old(self).can_read(i as int),
        ensures
            final(self).calls() == old(self).calls().push(ClidrCall::Read(i, reply)),
            final(self).continues(old(self)),
            old(self).gives(ClidrCall::Read(i, reply)),
            call_ensures(old(self).reader(), (&old(self).vcpus()[i as int],), reply),
    {
        let reply = (self.read)(&self.vcpus[i]);
        proof {
            self.calls@ = self.calls@.push(ClidrCall::Read(i, reply));
        }
        reply
    }

    /// Sets the register of vCPU `i`.
    pub fn write(&mut self, i: usize, clidr: u64) -> (reply: Result<(), Errno>)
        requires
            i < old(self).vcpus().len(),
            old(self).can_write(i as int, clidr),
        ensures
            final(self).calls() == old(self).calls().push(ClidrCall::Write(i, clidr, reply)),
            final(self).continues(old(self)),
            old(self).gives(ClidrCall::Write(i, clidr, reply)),
            call_ensures(old(self).writer(), (&old(self).vcpus()[i as int], clidr), reply),
    {
        let reply = (self.write)(&self.vcpus[i], clidr);
        proof {
            self.calls@ = self.calls@.push(ClidrCall::Write(i, clidr, reply));
        }
        reply
    }
}

/// Calls are only added: what has been made is what was made before, followed by the calls since
/// then, and the replies to these were given for the vCPU that each names.
pub proof fn law_clidr_calls_are_added<V, G, W>(
    before: &ClidrRegisters<'_, V, G, W>,
    after: &ClidrRegisters<'_, V, G, W>,
) where G: FnMut(&V) -> Result<u64, Errno>, W: FnMut(&V, u64) -> Result<(), Errno>
    requires
        after.continues(before),
    ensures
        after.vcpus() == before.vcpus(),
        after.calls() == before.calls() + after.since(before),
        forall|k: int|
            0 <= k < after.since(before).len() ==> match #[trigger] after.since(before)[k] {
                ClidrCall::Read(i, reply) => call_ensures(
                    before.reader(),
                    (&before.vcpus()[i as int],),
                    reply,
                ),
                ClidrCall::Write(i, clidr, reply) => call_ensures(
                    before.writer(),
                    (&before.vcpus()[i as int], clidr),
                    reply,
                ),
            },
{
    assert(after.calls() =~= before.calls() + after.since(before));
    assert forall|k: int| 0 <= k < after.since(before).len() implies match #[trigger] after.since(
        before,
    )[k] {
        ClidrCall::Read(i, reply) => call_ensures(
            before.reader(),
            (&before.vcpus()[i as int],),
            reply,
        ),
        ClidrCall::Write(i, clidr, reply) => call_ensures(
            before.writer(),
            (&before.vcpus()[i as int], clidr),
            reply,
        ),
    } by {
        assert(after.gives(after.calls()[before.calls().len() + k]));
    }
}

/// A register may be read or set exactly where what reads or sets it may be called.
pub proof fn law_registers_may_be_used<V, G, W>(
    registers: &ClidrRegisters<'_, V, G, W>,
    i: int,
    clidr: u64,
) where G: FnMut(&V) -> Result<u64, Errno>, W: FnMut(&V, u64) -> Result<(), Errno>
    ensures
        registers.can_read(i) <==> call_requires(registers.reader(), (&registers.vcpus()[i],)),
        registers.can_write(i, clidr) <==> call_requires(
            registers.writer(),
            (&registers.vcpus()[i], clidr),
        ),
{
}

} // verus!
