use std::cell::RefCell;

use vmm_aarch64::clidr::{merge_clidr, override_clidr, ClidrOverride};
use vmm_aarch64::clidr_registers::ClidrRegisters;
use vmm_aarch64::errno::Errno;
use vmm_aarch64::error::{CacheInfoError, ConfigurationError};

/// Sets the registers of three vCPUs, which are `current`, on a host whose register is `host`.
/// Returns what became of it and the writes that were made.
fn run(
    l1_caches: usize,
    host: u64,
    current: Result<u64, Errno>,
    failing: Option<usize>,
) -> (Result<ClidrOverride, ConfigurationError>, Vec<(usize, u64)>) {
    let writes = RefCell::new(Vec::new());
    let outcome = override_clidr(
        &mut ClidrRegisters::new(
            &[0_usize, 1, 2],
            |vcpu| {
                assert_eq!(*vcpu, 0);
                current
            },
            |vcpu, clidr| {
                writes.borrow_mut().push((*vcpu, clidr));
                if failing == Some(*vcpu) {
                    Err(Errno::new(22))
                } else {
                    Ok(())
                }
            },
        ),
        || Ok((vec!["l1"; l1_caches], vec!["l2"])),
        |l1, others| {
            assert_eq!(l1.len(), l1_caches);
            assert_eq!(others, ["l2"]);
            host
        },
    );
    (outcome, writes.into_inner())
}

#[test]
fn only_the_cache_fields_are_merged() {
    assert_eq!(merge_clidr(u64::MAX, 0), 0xffff_ffff_f8e0_0000);
    assert_eq!(merge_clidr(0, u64::MAX), 0x071f_ffff);
    // Two cache levels instead of one; the levels of unification stay.
    assert_eq!(merge_clidr(0x0920_0003, 0x0200_0123), 0x0a20_0123);
    assert_eq!(merge_clidr(0x0a20_0123, 0x0200_0123), 0x0a20_0123);
}

#[test]
fn every_vcpu_gets_the_cache_fields_of_the_host() {
    let (outcome, writes) = run(2, 0x0200_0123, Ok(0x0920_0003), None);
    assert!(matches!(outcome, Ok(ClidrOverride::Written(0x0a20_0123))));
    assert_eq!(writes, [(0, 0x0a20_0123), (1, 0x0a20_0123), (2, 0x0a20_0123)]);
}

#[test]
fn matching_registers_are_not_written() {
    let (outcome, writes) = run(2, 0x0200_0123, Ok(0x0a20_0123), None);
    assert!(matches!(outcome, Ok(ClidrOverride::Unchanged)));
    assert!(writes.is_empty());
}

#[test]
fn without_first_level_caches_nothing_is_read_or_written() {
    let (outcome, writes) = run(0, 0, Ok(7), None);
    assert!(matches!(outcome, Ok(ClidrOverride::NoL1Caches)));
    assert!(writes.is_empty());
}

#[test]
fn registers_that_cannot_be_read_are_left_alone() {
    let (outcome, writes) = run(1, 1, Err(Errno::new(2)), None);
    assert!(matches!(outcome, Ok(ClidrOverride::ReadFailed(Errno(2)))));
    assert!(writes.is_empty());
}

#[test]
fn a_failed_write_ends_the_override() {
    let (outcome, writes) = run(1, 1, Ok(0), Some(1));
    assert!(matches!(
        outcome,
        Ok(ClidrOverride::WriteFailed(1, 1, Errno(22)))
    ));
    assert_eq!(writes, [(0, 1), (1, 1)]);
}

#[test]
fn unreadable_cache_information_is_an_error() {
    let outcome = override_clidr(
        &mut ClidrRegisters::new(
            &[0_usize],
            |_| unreachable!("there is nothing to write"),
            |_, _| unreachable!("there is nothing to write"),
        ),
        || Err::<(Vec<u8>, Vec<u8>), _>(CacheInfoError("no sysfs".to_string())),
        |_, _| unreachable!("there are no caches to describe"),
    );
    match outcome {
        Err(ConfigurationError::CacheInfo(CacheInfoError(message))) => {
            assert_eq!(message, "no sysfs");
        }
        _ => panic!("expected an error"),
    }
}
