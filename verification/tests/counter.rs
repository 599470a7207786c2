use std::cell::RefCell;
use std::collections::VecDeque;

use vmm_aarch64::counter::{restore_offset, resume_offset, CounterController, CounterState};
use vmm_aarch64::counter_io::{CounterIo, CounterLog};
use vmm_aarch64::error::CounterError;

#[derive(Default)]
struct FakeCounterIo {
    reads: RefCell<VecDeque<Result<u64, &'static str>>>,
    offsets: RefCell<Vec<u64>>,
    set_error: RefCell<Option<&'static str>>,
}

impl FakeCounterIo {
    fn with_reads(reads: impl IntoIterator<Item = u64>) -> Self {
        Self {
            reads: RefCell::new(reads.into_iter().map(Ok).collect()),
            ..Default::default()
        }
    }

    fn push_read(&self, value: Result<u64, &'static str>) {
        self.reads.borrow_mut().push_back(value);
    }

    fn fail_next_set(&self, message: &'static str) {
        *self.set_error.borrow_mut() = Some(message);
    }
}

impl CounterIo for FakeCounterIo {
    fn read_counter(&self) -> Result<u64, CounterError> {
        self.reads
            .borrow_mut()
            .pop_front()
            .expect("test must provide every counter read")
            .map_err(CounterError::Injected)
    }

    fn set_offset(&self, offset: u64) -> Result<(), CounterError> {
        if let Some(message) = self.set_error.borrow_mut().take() {
            return Err(CounterError::Injected(message));
        }
        self.offsets.borrow_mut().push(offset);
        Ok(())
    }
}

#[test]
fn boot_and_initial_resume_freeze_pre_run_time() {
    let io = FakeCounterIo::with_reads([100]);
    let mut controller = CounterController::default();

    controller.configure_boot(&mut CounterLog::new(&io), true).unwrap();
    assert_eq!(
        controller.state,
        CounterState::Paused {
            offset: 100,
            guest_counter: 0
        }
    );
    assert_eq!(*io.offsets.borrow(), [100]);

    io.push_read(Ok(40));
    controller.prepare_resume(&mut CounterLog::new(&io)).unwrap();
    assert_eq!(
        controller.state,
        CounterState::Paused {
            offset: 140,
            guest_counter: 0
        }
    );
    controller.mark_running().unwrap();
    assert_eq!(controller.state, CounterState::Running { offset: 140 });
    assert_eq!(*io.offsets.borrow(), [100, 140]);
}

#[test]
fn restore_uses_wrapping_subtraction() {
    let io = FakeCounterIo::with_reads([5]);
    let mut controller = CounterController::default();

    controller.configure_restore(&mut CounterLog::new(&io), 10, true).unwrap();
    assert_eq!(
        controller.state,
        CounterState::Paused {
            offset: 5_u64.wrapping_sub(10),
            guest_counter: 10
        }
    );
    assert_eq!(*io.offsets.borrow(), [5_u64.wrapping_sub(10)]);

    io.push_read(Ok(13));
    controller.prepare_resume(&mut CounterLog::new(&io)).unwrap();
    controller.mark_running().unwrap();
    assert_eq!(
        *io.offsets.borrow(),
        [
            5_u64.wrapping_sub(10),
            5_u64.wrapping_sub(10).wrapping_add(3)
        ]
    );
}

#[test]
fn unsupported_host_boots_but_cannot_pause_or_restore() {
    let io = FakeCounterIo::default();
    let mut controller = CounterController::default();

    controller.configure_boot(&mut CounterLog::new(&io), false).unwrap();
    assert_eq!(controller.state, CounterState::Unsupported);
    controller.prepare_resume(&mut CounterLog::new(&io)).unwrap();
    controller.mark_running().unwrap();
    assert!(matches!(
        controller.record_pause(&mut CounterLog::new(&io)),
        Err(CounterError::Unsupported)
    ));

    let mut restored = CounterController::default();
    assert!(matches!(
        restored.configure_restore(&mut CounterLog::new(&io), 7, false),
        Err(CounterError::Unsupported)
    ));
}

#[test]
fn pause_resume_is_repeatable_and_wraps() {
    let io = FakeCounterIo::with_reads([u64::MAX - 2]);
    let mut controller = CounterController::default();
    controller.configure_boot(&mut CounterLog::new(&io), true).unwrap();

    io.push_read(Ok(0));
    controller.prepare_resume(&mut CounterLog::new(&io)).unwrap();
    controller.mark_running().unwrap();

    io.push_read(Ok(u64::MAX - 1));
    controller.record_pause(&mut CounterLog::new(&io)).unwrap();
    assert!(matches!(
        controller.record_pause(&mut CounterLog::new(&io)),
        Err(CounterError::AlreadyPaused)
    ));

    io.push_read(Ok(2));
    controller.prepare_resume(&mut CounterLog::new(&io)).unwrap();
    controller.mark_running().unwrap();
    assert!(matches!(
        controller.prepare_resume(&mut CounterLog::new(&io)),
        Err(CounterError::NotPaused)
    ));

    io.push_read(Ok(9));
    controller.record_pause(&mut CounterLog::new(&io)).unwrap();
    io.push_read(Ok(20));
    controller.prepare_resume(&mut CounterLog::new(&io)).unwrap();
    controller.mark_running().unwrap();

    assert_eq!(*io.offsets.borrow(), [u64::MAX - 2, u64::MAX - 2, 1, 12]);
}

#[test]
fn backend_failures_do_not_commit_lifecycle_state() {
    let io = FakeCounterIo::with_reads([]);
    let mut controller = CounterController::default();
    io.push_read(Err("boot read"));
    assert!(matches!(
        controller.configure_boot(&mut CounterLog::new(&io), true),
        Err(CounterError::Injected("boot read"))
    ));
    assert_eq!(controller.state, CounterState::Uninitialized);

    io.push_read(Ok(100));
    io.fail_next_set("boot set");
    assert!(matches!(
        controller.configure_boot(&mut CounterLog::new(&io), true),
        Err(CounterError::Injected("boot set"))
    ));
    assert_eq!(controller.state, CounterState::Uninitialized);

    io.push_read(Ok(100));
    controller.configure_boot(&mut CounterLog::new(&io), true).unwrap();
    io.push_read(Ok(0));
    controller.prepare_resume(&mut CounterLog::new(&io)).unwrap();
    controller.mark_running().unwrap();

    io.push_read(Err("pause read"));
    assert!(matches!(
        controller.record_pause(&mut CounterLog::new(&io)),
        Err(CounterError::Injected("pause read"))
    ));
    assert_eq!(controller.state, CounterState::Running { offset: 100 });

    io.push_read(Ok(10));
    controller.record_pause(&mut CounterLog::new(&io)).unwrap();
    io.push_read(Ok(20));
    io.fail_next_set("resume set");
    assert!(matches!(
        controller.prepare_resume(&mut CounterLog::new(&io)),
        Err(CounterError::Injected("resume set"))
    ));
    assert_eq!(
        controller.state,
        CounterState::Paused {
            offset: 100,
            guest_counter: 10
        }
    );
}

#[test]
fn restore_backend_failures_do_not_commit_lifecycle_state() {
    let io = FakeCounterIo::with_reads([]);
    let mut controller = CounterController::default();

    io.push_read(Err("restore read"));
    assert!(matches!(
        controller.configure_restore(&mut CounterLog::new(&io), 50, true),
        Err(CounterError::Injected("restore read"))
    ));
    assert_eq!(controller.state, CounterState::Uninitialized);

    io.push_read(Ok(100));
    io.fail_next_set("restore set");
    assert!(matches!(
        controller.configure_restore(&mut CounterLog::new(&io), 50, true),
        Err(CounterError::Injected("restore set"))
    ));
    assert_eq!(controller.state, CounterState::Uninitialized);
}

#[test]
fn uninitialized_and_faulted_controllers_fail_closed() {
    let io = FakeCounterIo::with_reads([100]);
    let mut controller = CounterController::default();

    assert!(matches!(
        controller.ensure_healthy(),
        Err(CounterError::Uninitialized)
    ));
    controller.configure_boot(&mut CounterLog::new(&io), true).unwrap();
    controller.mark_faulted();
    assert!(matches!(
        controller.ensure_healthy(),
        Err(CounterError::Faulted)
    ));
    assert!(matches!(
        controller.prepare_resume(&mut CounterLog::new(&io)),
        Err(CounterError::Faulted)
    ));
    assert!(matches!(
        controller.record_pause(&mut CounterLog::new(&io)),
        Err(CounterError::Faulted)
    ));
    assert!(matches!(
        controller.paused_counter(),
        Err(CounterError::Faulted)
    ));
}

#[test]
fn only_a_supported_paused_domain_is_snapshotable() {
    let io = FakeCounterIo::with_reads([100]);
    let mut controller = CounterController::default();
    assert!(matches!(
        controller.paused_counter(),
        Err(CounterError::Uninitialized)
    ));

    controller.configure_boot(&mut CounterLog::new(&io), true).unwrap();
    assert_eq!(controller.paused_counter().unwrap(), 0);
    io.push_read(Ok(0));
    controller.prepare_resume(&mut CounterLog::new(&io)).unwrap();
    controller.mark_running().unwrap();
    assert!(matches!(
        controller.paused_counter(),
        Err(CounterError::NotPaused)
    ));

    let mut unsupported = CounterController::default();
    unsupported.configure_boot(&mut CounterLog::new(&io), false).unwrap();
    assert!(matches!(
        unsupported.paused_counter(),
        Err(CounterError::Unsupported)
    ));
}

#[test]
fn a_domain_is_configured_only_once() {
    let io = FakeCounterIo::with_reads([7]);
    let mut controller = CounterController::default();
    controller.configure_boot(&mut CounterLog::new(&io), true).unwrap();
    assert_eq!(
        controller.configure_boot(&mut CounterLog::new(&io), true),
        Err(CounterError::AlreadyConfigured)
    );
    assert_eq!(
        controller.configure_restore(&mut CounterLog::new(&io), 3, true),
        Err(CounterError::AlreadyConfigured)
    );
    assert_eq!(
        controller.state,
        CounterState::Paused {
            offset: 7,
            guest_counter: 0
        }
    );
    assert_eq!(*io.offsets.borrow(), [7]);
}

#[test]
fn requests_are_answered_by_the_state() {
    let io = FakeCounterIo::default();
    let mut controller = CounterController {
        state: CounterState::Running { offset: 1 },
    };
    assert_eq!(controller.ensure_healthy(), Ok(()));
    assert_eq!(controller.ensure_can_pause(), Ok(()));
    assert_eq!(controller.mark_running(), Err(CounterError::NotPaused));

    controller.state = CounterState::Paused {
        offset: 1,
        guest_counter: 2,
    };
    assert_eq!(controller.ensure_healthy(), Ok(()));
    assert_eq!(controller.ensure_can_pause(), Err(CounterError::AlreadyPaused));

    controller.state = CounterState::Unsupported;
    assert_eq!(controller.ensure_healthy(), Ok(()));
    assert_eq!(controller.ensure_can_pause(), Err(CounterError::Unsupported));

    controller.state = CounterState::Uninitialized;
    assert_eq!(controller.ensure_can_pause(), Err(CounterError::Uninitialized));
    assert_eq!(
        controller.record_pause(&mut CounterLog::new(&io)),
        Err(CounterError::Uninitialized)
    );
    assert_eq!(
        controller.prepare_resume(&mut CounterLog::new(&io)),
        Err(CounterError::Uninitialized)
    );
    assert_eq!(controller.mark_running(), Err(CounterError::Uninitialized));

    controller.state = CounterState::Faulted;
    assert_eq!(controller.ensure_can_pause(), Err(CounterError::Faulted));
    assert_eq!(controller.mark_running(), Err(CounterError::Faulted));
    assert_eq!(controller.state, CounterState::Faulted);
}

#[test]
fn a_pause_is_invisible_to_the_guest() {
    // A guest that started when the host was at 1000 pauses at 1250, when it sees 250, and is
    // resumed at 9000. At 9030 it sees 280.
    let host = |offset: u64, host_counter: u64| host_counter.wrapping_sub(offset);
    let io = FakeCounterIo::with_reads([1000]);
    let mut controller = CounterController::default();
    controller.configure_boot(&mut CounterLog::new(&io), true).unwrap();
    io.push_read(Ok(host(1000, 1000)));
    controller.prepare_resume(&mut CounterLog::new(&io)).unwrap();
    controller.mark_running().unwrap();

    io.push_read(Ok(host(1000, 1250)));
    controller.record_pause(&mut CounterLog::new(&io)).unwrap();
    assert_eq!(controller.paused_counter(), Ok(250));
    io.push_read(Ok(host(1000, 9000)));
    controller.prepare_resume(&mut CounterLog::new(&io)).unwrap();
    controller.mark_running().unwrap();

    assert_eq!(controller.state, CounterState::Running { offset: 8750 });
    assert_eq!(host(8750, 9030), 280);
}

#[test]
fn preparing_to_resume_again_replaces_the_first_preparation() {
    let io = FakeCounterIo::with_reads([50]);
    let mut controller = CounterController {
        state: CounterState::Paused {
            offset: 100,
            guest_counter: 30,
        },
    };
    // The host is at 150.
    controller.prepare_resume(&mut CounterLog::new(&io)).unwrap();
    assert_eq!(
        controller.state,
        CounterState::Paused {
            offset: 120,
            guest_counter: 30
        }
    );
    // The host is at 200, so the guest would see 80.
    io.push_read(Ok(80));
    controller.prepare_resume(&mut CounterLog::new(&io)).unwrap();
    assert_eq!(
        controller.state,
        CounterState::Paused {
            offset: 170,
            guest_counter: 30
        }
    );
}

#[test]
fn offsets_wrap() {
    assert_eq!(restore_offset(5, 10), u64::MAX - 4);
    assert_eq!(restore_offset(10, 5), 5);
    assert_eq!(resume_offset(u64::MAX, 10, 12), 1);
    assert_eq!(resume_offset(7, 3, 1), 5);
}
