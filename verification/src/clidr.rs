//! The cache level register of the guest.
//!
//! KVM may make up the register that tells a guest which caches there are. The device tree that the
//! guest gets is built from the caches of the host, and the two must agree. So the fields of the
//! register that describe caches are set to what the host has, and all others stay as KVM has them.

use vstd::prelude::*;

use crate::clidr_registers::{ClidrCall, ClidrRegisters};
use crate::errno::Errno;
use crate::error::{CacheInfoError, ConfigurationError};

verus! {

/// The bits of the register that describe caches: the type of the cache at each of seven levels,
/// three bits a level, and the level of coherence in bits 24 to 26.
pub const CACHE_FIELDS: u64 = 0x071f_ffff;

/// The register whose cache fields are those of `host_clidr` and whose other fields are those of
/// `current_clidr`.
pub open spec fn merged_clidr(current_clidr: u64, host_clidr: u64) -> u64 {
    (current_clidr & !CACHE_FIELDS) | (host_clidr & CACHE_FIELDS)
}

/// Returns `current_clidr` with the cache fields of `host_clidr`.
pub fn merge_clidr(current_clidr: u64, host_clidr: u64) -> (clidr: u64)
    ensures
        clidr == merged_clidr(current_clidr, host_clidr),
{
    (current_clidr & !CACHE_FIELDS) | (host_clidr & CACHE_FIELDS)
}

/// What became of the attempt to set the cache level register of the vCPUs.
#[derive(Clone, Copy, Debug, PartialEq, Eq, Structural)]
pub enum ClidrOverride {
    /// The host reports no first-level cache, so nothing sensible can be written. A register that
    /// says that there are no caches would be worse than one that KVM made up.
    NoL1Caches,
    /// The register could not be read. Kernels that do not allow it show the guest the register of
    /// the host, which needs no change.
    ReadFailed(Errno),
    /// The register has the cache fields of the host already.
    Unchanged,
    /// The register of every vCPU was set to this value.
    Written(u64),
    /// The register could not be set to this value on the vCPU with this index. Those before it
    /// have the value.
    WriteFailed(u64, usize, Errno),
}

/// The calls that set the registers of the first `count` vCPUs to `clidr`, in order.
pub open spec fn writes(clidr: u64, count: nat) -> Seq<ClidrCall> {
    Seq::new(count, |i: int| ClidrCall::Write(i as usize, clidr, Ok(())))
}

/// Whether `calls` and `outcome` are what setting the registers of `vcpu_count` vCPUs comes to when
/// `host_clidr` describes the caches of the host.
pub open spec fn is_override(
    host_clidr: u64,
    vcpu_count: nat,
    calls: Seq<ClidrCall>,
    outcome: ClidrOverride,
) -> bool {
    &&& 0 < calls.len()
    &&& match calls[0] {
        ClidrCall::Read(0, Err(error)) => {
            &&& calls == seq![calls[0]]
            &&& outcome == ClidrOverride::ReadFailed(error)
        },
        ClidrCall::Read(0, Ok(current_clidr)) => {
            let new_clidr = merged_clidr(current_clidr, host_clidr);
            if new_clidr == current_clidr {
                &&& calls == seq![calls[0]]
                &&& outcome == ClidrOverride::Unchanged
            } else {
                match outcome {
                    ClidrOverride::Written(clidr) => {
                        &&& clidr == new_clidr
                        &&& calls == seq![calls[0]] + writes(new_clidr, vcpu_count)
                    },
                    ClidrOverride::WriteFailed(clidr, index, error) => {
                        &&& clidr == new_clidr
                        &&& index < vcpu_count
                        &&& calls == seq![calls[0]] + writes(new_clidr, index as nat).push(
                            ClidrCall::Write(index, new_clidr, Err(error)),
                        )
                    },
                    _ => false,
                }
            }
        },
        _ => false,
    }
}

/// Whether `host_clidr` can be what describes the caches of the host, which are at least one of the
/// first level.
pub open spec fn is_host_clidr<
    C,
    R: FnOnce() -> Result<(Vec<C>, Vec<C>), CacheInfoError>,
    B: FnOnce(Vec<C>, Vec<C>) -> u64,
>(read_cache_config: R, build_clidr: B, host_clidr: u64) -> bool {
    exists|l1_caches: Vec<C>, non_l1_caches: Vec<C>|
        {
            &&& #[trigger] call_ensures(read_cache_config, (), Ok((l1_caches, non_l1_caches)))
            &&& 0 < l1_caches@.len()
            &&& call_ensures(build_clidr, (l1_caches, non_l1_caches), host_clidr)
        }
}

/// Sets the cache fields in the cache level register of every vCPU to what the host has.
///
/// `read_cache_config` reads the caches of the host, those of the first level and the others, and
/// `build_clidr` gives the register that describes them. The register of the boot vCPU is read
/// once. If it is to change, that of each vCPU is written once, in order, until one cannot be
/// written. A register that cannot be read or written is no error: the guest then keeps what KVM
/// shows it.
pub fn override_clidr<C, V, G, W>(
    registers: &mut ClidrRegisters<'_, V, G, W>,
    read_cache_config: impl FnOnce() -> Result<(Vec<C>, Vec<C>), CacheInfoError>,
    build_clidr: impl FnOnce(Vec<C>, Vec<C>) -> u64,
) -> (r: Result<ClidrOverride, ConfigurationError>) where
    G: FnMut(&V) -> Result<u64, Errno>,
    W: FnMut(&V, u64) -> Result<(), Errno>,

    requires
        call_requires(read_cache_config, ()),
        forall|l1_caches: Vec<C>, non_l1_caches: Vec<C>|
            #[trigger] call_ensures(read_cache_config, (), Ok((l1_caches, non_l1_caches))) && 0
                < l1_caches@.len() ==> 0 < old(registers).vcpus().len() && call_requires(
                build_clidr,
                (l1_caches, non_l1_caches),
            ),
        forall|host_clidr: u64| #[trigger]
            is_host_clidr(read_cache_config, build_clidr, host_clidr) ==> old(
                registers,
            ).can_read(0),
        forall|host_clidr: u64, current_clidr: u64, i: int|
            {
                &&& #[trigger] is_host_clidr(read_cache_config, build_clidr, host_clidr)
                &&& old(registers).gives(ClidrCall::Read(0, Ok(current_clidr)))
                &&& merged_clidr(current_clidr, host_clidr) != current_clidr
                &&& 0 <= i < old(registers).vcpus().len()
            } ==> #[trigger] old(registers).can_write(i, merged_clidr(current_clidr, host_clidr)),
    ensures
        final(registers).continues(old(registers)),
        match r {
            Err(error) => {
                &&& error matches ConfigurationError::CacheInfo(cache_error)
                &&& call_ensures(read_cache_config, (), Err(cache_error))
                &&& final(registers).since(old(registers)) == Seq::<ClidrCall>::empty()
            },
            Ok(ClidrOverride::NoL1Caches) => {
                &&& exists|l1_caches: Vec<C>, non_l1_caches: Vec<C>|
                    #[trigger] call_ensures(read_cache_config, (), Ok((l1_caches, non_l1_caches)))
                        && l1_caches@.len() == 0
                &&& final(registers).since(old(registers)) == Seq::<ClidrCall>::empty()
            },
            Ok(outcome) => exists|host_clidr: u64|
                {
                    &&& #[trigger] is_host_clidr(read_cache_config, build_clidr, host_clidr)
                    &&& is_override(
                        host_clidr,
                        old(registers).vcpus().len(),
                        final(registers).since(old(registers)),
                        outcome,
                    )
                },
        },
{
    let (l1_caches, non_l1_caches) = match read_cache_config() {
        Ok(caches) => caches,
        Err(error) => {
            return Err(ConfigurationError::CacheInfo(error));
        },
    };
    assert(call_ensures(read_cache_config, (), Ok((l1_caches, non_l1_caches))));
    if l1_caches.len() == 0 {
        return Ok(ClidrOverride::NoL1Caches);
    }
    let host_clidr: u64 = build_clidr(l1_caches, non_l1_caches);
    assert(is_host_clidr(read_cache_config, build_clidr, host_clidr));
    let ghost before = *registers;
    let ghost count = registers.vcpus().len();
    let current_clidr: u64 = match registers.read(0) {
        Ok(clidr) => clidr,
        Err(error) => {
            assert(registers.since(&before) =~= seq![ClidrCall::Read(0, Err(error))]);
            return Ok(ClidrOverride::ReadFailed(error));
        },
    };
    let ghost reading = ClidrCall::Read(0, Ok(current_clidr));
    assert(registers.since(&before) =~= seq![reading]);
    let new_clidr: u64 = merge_clidr(current_clidr, host_clidr);
    if new_clidr == current_clidr {
        return Ok(ClidrOverride::Unchanged);
    }
    let mut i: usize = 0;
    assert(writes(new_clidr, 0) =~= Seq::<ClidrCall>::empty());
    while i < registers.len()
        invariant
            i <= registers.vcpus().len() == count,
            before == *old(registers),
            count == before.vcpus().len(),
            is_host_clidr(read_cache_config, build_clidr, host_clidr),
            reading == ClidrCall::Read(0, Ok(current_clidr)),
            new_clidr == merged_clidr(current_clidr, host_clidr),
            new_clidr != current_clidr,
            registers.continues(&before),
            registers.since(&before) =~= seq![reading] + writes(new_clidr, i as nat),
            forall|j: int| 0 <= j < count ==> #[trigger] before.can_write(j, new_clidr),
        decreases count - i,
    {
        let ghost current = *registers;
        assert(before.can_write(i as int, new_clidr));
        match registers.write(i, new_clidr) {
            Ok(unit) => {
                assert(unit == ());
                assert(writes(new_clidr, (i + 1) as nat) =~= writes(new_clidr, i as nat).push(
                    ClidrCall::Write(i, new_clidr, Ok(())),
                ));
                assert(registers.since(&before) =~= current.since(&before).push(
                    ClidrCall::Write(i, new_clidr, Ok(())),
                ));
            },
            Err(error) => {
                let ghost failure = ClidrCall::Write(i, new_clidr, Err(error));
                assert(registers.since(&before) =~= current.since(&before).push(failure));
                assert(registers.since(&before) =~= seq![reading] + writes(
                    new_clidr,
                    i as nat,
                ).push(failure));
                return Ok(ClidrOverride::WriteFailed(new_clidr, i, error));
            },
        }
        i += 1;
    }
    Ok(ClidrOverride::Written(new_clidr))
}

/// The change takes the cache fields from the host and nothing else, and so a second change by the
/// same host makes no difference.
pub proof fn law_only_cache_fields_change(current_clidr: u64, host_clidr: u64)
    ensures
        merged_clidr(current_clidr, host_clidr) & CACHE_FIELDS == host_clidr & CACHE_FIELDS,
        merged_clidr(current_clidr, host_clidr) & !CACHE_FIELDS == current_clidr & !CACHE_FIELDS,
        merged_clidr(merged_clidr(current_clidr, host_clidr), host_clidr) == merged_clidr(
            current_clidr,
            host_clidr,
        ),
{
    assert(((current_clidr & !0x071f_ffffu64) | (host_clidr & 0x071f_ffffu64)) & 0x071f_ffffu64
        == host_clidr & 0x071f_ffffu64) by (bit_vector);
    assert(((current_clidr & !0x071f_ffffu64) | (host_clidr & 0x071f_ffffu64)) & !0x071f_ffffu64
        == current_clidr & !0x071f_ffffu64) by (bit_vector);
}

/// A register is left alone exactly if it describes the caches of the host.
pub proof fn law_matching_registers_are_left_alone(current_clidr: u64, host_clidr: u64)
    ensures
        merged_clidr(current_clidr, host_clidr) == current_clidr <==> current_clidr & CACHE_FIELDS
            == host_clidr & CACHE_FIELDS,
{
    assert(((current_clidr & !0x071f_ffffu64) | (host_clidr & 0x071f_ffffu64)) == current_clidr <==>
        current_clidr & 0x071f_ffffu64 == host_clidr & 0x071f_ffffu64) by (bit_vector);
}

/// Bits 0 to 20, which hold the types of seven levels of caches, and bits 24 to 26, which hold the
/// level of coherence, are those of the host. Every other bit stays as it is.
pub proof fn law_each_bit_has_its_origin(current_clidr: u64, host_clidr: u64, bit: u64)
    requires
        bit < 64,
    ensures
        bit < 21 || 24 <= bit < 27 ==> (merged_clidr(current_clidr, host_clidr) >> bit) & 1 == (
        host_clidr >> bit) & 1,
        21 <= bit < 24 || 27 <= bit ==> (merged_clidr(current_clidr, host_clidr) >> bit) & 1 == (
        current_clidr >> bit) & 1,
{
    let merged = (current_clidr & !0x071f_ffffu64) | (host_clidr & 0x071f_ffffu64);
    assert(bit < 64 && merged == (current_clidr & !0x071f_ffffu64) | (host_clidr & 0x071f_ffffu64)
        ==> {
        &&& bit < 21 || 24 <= bit < 27 ==> (merged >> bit) & 1 == (host_clidr >> bit) & 1
        &&& 21 <= bit < 24 || 27 <= bit ==> (merged >> bit) & 1 == (current_clidr >> bit) & 1
    }) by (bit_vector);
}

/// The register of the boot vCPU is read first, and once. If that fails nothing is set. If it
/// succeeds, every register is set to the one value that has the cache fields of the host and the
/// other fields that were read: that of the first vCPU first, each once, until one cannot be set.
/// Nothing is set exactly if the cache fields that were read are those of the host.
pub proof fn law_registers_are_read_once_and_set_in_order(
    host_clidr: u64,
    vcpu_count: nat,
    calls: Seq<ClidrCall>,
    outcome: ClidrOverride,
)
    requires
        0 < vcpu_count <= usize::MAX,
        is_override(host_clidr, vcpu_count, calls, outcome),
    ensures
        1 <= calls.len() <= vcpu_count + 1,
        calls[0] matches ClidrCall::Read(i, reply) && i == 0 && match reply {
            Err(error) => calls.len() == 1 && outcome == ClidrOverride::ReadFailed(error),
            Ok(current_clidr) => {
                &&& calls.len() == 1 <==> current_clidr & 0x071f_ffff == host_clidr & 0x071f_ffff
                &&& calls.len() == 1 <==> outcome is Unchanged
                &&& forall|k: int|
                    1 <= k < calls.len() ==> (#[trigger] calls[k] matches ClidrCall::Write(
                        index,
                        clidr,
                        written,
                    ) && {
                        &&& index == k - 1
                        &&& clidr & 0x071f_ffff == host_clidr & 0x071f_ffff
                        &&& clidr & !0x071f_ffff == current_clidr & !0x071f_ffff
                        &&& k < calls.len() - 1 ==> written is Ok
                        &&& k == calls.len() - 1 && written is Ok ==> calls.len() == vcpu_count + 1
                            && outcome == ClidrOverride::Written(clidr)
                        &&& written matches Err(error) ==> outcome == ClidrOverride::WriteFailed(
                            clidr,
                            index,
                            error,
                        )
                    })
            },
        },
{
    if let ClidrCall::Read(_, Ok(current_clidr)) = calls[0] {
        law_only_cache_fields_change(current_clidr, host_clidr);
        law_matching_registers_are_left_alone(current_clidr, host_clidr);
    }
}

/// What describes the caches of the host was built from caches that were read, those of the first
/// level and the others, with at least one of the first level.
pub proof fn law_the_host_clidr_is_built_from_its_caches<
    C,
    R: FnOnce() -> Result<(Vec<C>, Vec<C>), CacheInfoError>,
    B: FnOnce(Vec<C>, Vec<C>) -> u64,
>(read_cache_config: R, build_clidr: B, host_clidr: u64)
    ensures
        is_host_clidr(read_cache_config, build_clidr, host_clidr) <==> exists|
            l1_caches: Vec<C>,
            non_l1_caches: Vec<C>,
        |
            {
                &&& #[trigger] call_ensures(read_cache_config, (), Ok((l1_caches, non_l1_caches)))
                &&& 1 <= l1_caches@.len()
                &&& call_ensures(build_clidr, (l1_caches, non_l1_caches), host_clidr)
            },
{
}

/// What [`merge_clidr`] returns has bits 0 to 20 and 24 to 26 of the host and all others as they
/// were.
pub proof fn law_merging_takes_bits_from_both(
    current_clidr: u64,
    host_clidr: u64,
    clidr: u64,
    bit: u64,
)
    requires
        call_ensures(merge_clidr, (current_clidr, host_clidr), clidr),
        bit < 64,
    ensures
        bit < 21 || 24 <= bit < 27 ==> (clidr >> bit) & 1 == (host_clidr >> bit) & 1,
        21 <= bit < 24 || 27 <= bit ==> (clidr >> bit) & 1 == (current_clidr >> bit) & 1,
{
    law_each_bit_has_its_origin(current_clidr, host_clidr, bit);
}

} // verus!
