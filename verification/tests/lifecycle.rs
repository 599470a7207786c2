use std::cell::RefCell;
use std::rc::Rc;

use vmm_aarch64::error::CounterError;
use vmm_aarch64::lifecycle::{
    pause_in_order, restore_vcpus_in_order, resume_in_order, PauseTransitionError,
    ResumeTransitionError,
};
use vmm_aarch64::restore_operations::RestoreOperations;

#[test]
fn counter_is_installed_before_any_register_replay() {
    let trace = Rc::new(RefCell::new(Vec::new()));
    let mut vcpus = [0_u8, 1_u8];

    restore_vcpus_in_order(
        &mut vcpus,
        &mut RestoreOperations::new(
            {
                let trace = trace.clone();
                move |index, _| {
                    trace.borrow_mut().push(format!("prepare-{index}"));
                    Ok::<_, ()>(())
                }
            },
            {
                let trace = trace.clone();
                move |_| {
                    trace.borrow_mut().push("counter".to_string());
                    Ok::<_, ()>(())
                }
            },
            {
                let trace = trace.clone();
                move |index, _| {
                    trace.borrow_mut().push(format!("finalize-{index}"));
                    Ok::<_, ()>(())
                }
            },
            {
                let trace = trace.clone();
                move |index, _| {
                    trace.borrow_mut().push(format!("replay-{index}"));
                    Ok::<_, ()>(())
                }
            },
        ),
    )
    .unwrap();

    assert_eq!(
        *trace.borrow(),
        [
            "prepare-0",
            "prepare-1",
            "counter",
            "finalize-0",
            "finalize-1",
            "replay-0",
            "replay-1"
        ]
    );
}

#[test]
fn restore_stops_before_replay_when_counter_install_fails() {
    let trace = Rc::new(RefCell::new(Vec::new()));
    let mut vcpus = [0_u8, 1_u8];

    let result = restore_vcpus_in_order(
        &mut vcpus,
        &mut RestoreOperations::new(
            {
                let trace = trace.clone();
                move |index, _| {
                    trace.borrow_mut().push(format!("prepare-{index}"));
                    Ok::<_, &'static str>(())
                }
            },
            {
                let trace = trace.clone();
                move |_| {
                    trace.borrow_mut().push("counter".to_string());
                    Err("counter ioctl")
                }
            },
            {
                let trace = trace.clone();
                move |index, _| {
                    trace.borrow_mut().push(format!("finalize-{index}"));
                    Ok::<_, &'static str>(())
                }
            },
            {
                let trace = trace.clone();
                move |index, _| {
                    trace.borrow_mut().push(format!("replay-{index}"));
                    Ok::<_, &'static str>(())
                }
            },
        ),
    );

    assert_eq!(result.unwrap_err(), "counter ioctl");
    assert_eq!(*trace.borrow(), ["prepare-0", "prepare-1", "counter"]);
}

#[test]
fn restore_stops_before_counter_when_vcpu_prepare_fails() {
    let trace = Rc::new(RefCell::new(Vec::new()));
    let mut vcpus = [0_u8, 1_u8];

    let result = restore_vcpus_in_order(
        &mut vcpus,
        &mut RestoreOperations::new(
            {
                let trace = trace.clone();
                move |index, _| {
                    trace.borrow_mut().push(format!("prepare-{index}"));
                    if index == 1 { Err("vcpu init") } else { Ok(()) }
                }
            },
            {
                let trace = trace.clone();
                move |_| {
                    trace.borrow_mut().push("counter".to_string());
                    Ok::<_, &'static str>(())
                }
            },
            {
                let trace = trace.clone();
                move |index, _| {
                    trace.borrow_mut().push(format!("finalize-{index}"));
                    Ok::<_, &'static str>(())
                }
            },
            {
                let trace = trace.clone();
                move |index, _| {
                    trace.borrow_mut().push(format!("replay-{index}"));
                    Ok::<_, &'static str>(())
                }
            },
        ),
    );

    assert_eq!(result.unwrap_err(), "vcpu init");
    assert_eq!(*trace.borrow(), ["prepare-0", "prepare-1"]);
}

#[test]
fn vcpu_pause_failure_never_captures_the_counter() {
    let trace = Rc::new(RefCell::new(Vec::new()));
    let result = pause_in_order(
        {
            let trace = trace.clone();
            move || {
                trace.borrow_mut().push("validate");
                Ok(())
            }
        },
        {
            let trace = trace.clone();
            move || {
                trace.borrow_mut().push("pause");
                Err("pause failed")
            }
        },
        {
            let trace = trace.clone();
            move || {
                trace.borrow_mut().push("capture");
                Ok(())
            }
        },
        {
            let trace = trace.clone();
            move || {
                trace.borrow_mut().push("rollback");
                Ok(())
            }
        },
        {
            let trace = trace.clone();
            move || trace.borrow_mut().push("fault")
        },
    );

    assert!(matches!(
        result,
        Err(PauseTransitionError::Pause("pause failed"))
    ));
    assert_eq!(*trace.borrow(), ["validate", "pause", "fault"]);
}

#[test]
fn pause_validation_failure_has_no_lifecycle_side_effects() {
    let trace = Rc::new(RefCell::new(Vec::new()));
    let result = pause_in_order(
        {
            let trace = trace.clone();
            move || {
                trace.borrow_mut().push("validate");
                Err(CounterError::Unsupported)
            }
        },
        {
            let trace = trace.clone();
            move || {
                trace.borrow_mut().push("pause");
                Ok::<_, ()>(())
            }
        },
        {
            let trace = trace.clone();
            move || {
                trace.borrow_mut().push("capture");
                Ok(())
            }
        },
        {
            let trace = trace.clone();
            move || {
                trace.borrow_mut().push("rollback");
                Ok(())
            }
        },
        {
            let trace = trace.clone();
            move || trace.borrow_mut().push("fault")
        },
    );

    assert!(matches!(
        result,
        Err(PauseTransitionError::Counter(CounterError::Unsupported))
    ));
    assert_eq!(*trace.borrow(), ["validate"]);
}

#[test]
fn counter_capture_failure_rolls_back_or_faults() {
    let faulted = Rc::new(RefCell::new(false));
    let rollback_ok = pause_in_order(
        || Ok(()),
        || Ok::<_, &'static str>(()),
        || Err(CounterError::Injected("capture")),
        || Ok(()),
        || unreachable!("successful rollback must not fault the controller"),
    );
    assert!(matches!(
        rollback_ok,
        Err(PauseTransitionError::Counter(CounterError::Injected(
            "capture"
        )))
    ));

    let rollback_failed = pause_in_order(
        || Ok(()),
        || Ok(()),
        || Err(CounterError::Injected("capture")),
        || Err("resume failed"),
        {
            let faulted = faulted.clone();
            move || *faulted.borrow_mut() = true
        },
    );
    assert!(matches!(
        rollback_failed,
        Err(PauseTransitionError::Rollback(
            CounterError::Injected("capture"),
            "resume failed"
        ))
    ));
    assert!(*faulted.borrow());
}

#[test]
fn resume_installs_offset_before_device_kick_and_vcpu_resume() {
    let trace = Rc::new(RefCell::new(Vec::new()));
    let result = resume_in_order(
        {
            let trace = trace.clone();
            move || {
                trace.borrow_mut().push("counter");
                Ok(())
            }
        },
        {
            let trace = trace.clone();
            move || trace.borrow_mut().push("devices")
        },
        {
            let trace = trace.clone();
            move || {
                trace.borrow_mut().push("vcpus");
                Ok::<_, ()>(())
            }
        },
        {
            let trace = trace.clone();
            move || {
                trace.borrow_mut().push("running");
                Ok(())
            }
        },
        {
            let trace = trace.clone();
            move || trace.borrow_mut().push("fault")
        },
    );

    assert!(result.is_ok());
    assert_eq!(*trace.borrow(), ["counter", "devices", "vcpus", "running"]);
}

#[test]
fn counter_prepare_failure_never_kicks_devices_or_resumes_vcpus() {
    let trace = Rc::new(RefCell::new(Vec::new()));
    let result = resume_in_order(
        {
            let trace = trace.clone();
            move || {
                trace.borrow_mut().push("counter");
                Err(CounterError::Injected("set offset"))
            }
        },
        {
            let trace = trace.clone();
            move || trace.borrow_mut().push("devices")
        },
        {
            let trace = trace.clone();
            move || {
                trace.borrow_mut().push("vcpus");
                Ok::<_, ()>(())
            }
        },
        {
            let trace = trace.clone();
            move || {
                trace.borrow_mut().push("running");
                Ok(())
            }
        },
        {
            let trace = trace.clone();
            move || trace.borrow_mut().push("fault")
        },
    );

    assert!(matches!(
        result,
        Err(ResumeTransitionError::Counter(CounterError::Injected(
            "set offset"
        )))
    ));
    assert_eq!(*trace.borrow(), ["counter"]);
}

#[test]
fn vcpu_resume_failure_faults_after_the_counter_transition() {
    let trace = Rc::new(RefCell::new(Vec::new()));
    let result = resume_in_order(
        {
            let trace = trace.clone();
            move || {
                trace.borrow_mut().push("counter");
                Ok(())
            }
        },
        {
            let trace = trace.clone();
            move || trace.borrow_mut().push("devices")
        },
        {
            let trace = trace.clone();
            move || {
                trace.borrow_mut().push("vcpus");
                Err("resume failed")
            }
        },
        {
            let trace = trace.clone();
            move || {
                trace.borrow_mut().push("running");
                Ok(())
            }
        },
        {
            let trace = trace.clone();
            move || trace.borrow_mut().push("fault")
        },
    );

    assert!(matches!(
        result,
        Err(ResumeTransitionError::Resume("resume failed"))
    ));
    assert_eq!(*trace.borrow(), ["counter", "devices", "vcpus", "fault"]);
}

#[test]
fn a_restore_hands_vcpus_from_stage_to_stage() {
    let mut vcpus = [1_u32, 2, 3];
    let result = restore_vcpus_in_order(
        &mut vcpus,
        &mut RestoreOperations::new(
            |index, vcpu: &mut u32| {
                *vcpu += 10 * index as u32;
                Ok::<_, &'static str>(())
            },
            |prepared: &[u32]| {
                assert_eq!(prepared, [1, 12, 23]);
                Ok(())
            },
            |_, vcpu: &mut u32| {
                *vcpu *= 2;
                Ok(())
            },
            |_, vcpu: &mut u32| {
                *vcpu += 1;
                Ok(())
            },
        ),
    );
    assert_eq!(result, Ok(()));
    assert_eq!(vcpus, [3, 25, 47]);
}

#[test]
fn a_restore_ends_with_the_first_failure() {
    let mut vcpus = [1_u32, 2, 3];
    let result = restore_vcpus_in_order(
        &mut vcpus,
        &mut RestoreOperations::new(
            |_, _: &mut u32| Ok(()),
            |_: &[u32]| Ok(()),
            |_, vcpu: &mut u32| {
                *vcpu += 100;
                if *vcpu == 102 {
                    Err("finalize")
                } else {
                    Ok(())
                }
            },
            |_, _: &mut u32| unreachable!("no register may be replayed"),
        ),
    );
    assert_eq!(result, Err("finalize"));
    assert_eq!(vcpus, [101, 102, 3]);

    let mut vcpus = [1_u32, 2, 3];
    let result = restore_vcpus_in_order(
        &mut vcpus,
        &mut RestoreOperations::new(
            |_, _: &mut u32| Ok(()),
            |_: &[u32]| Ok(()),
            |_, _: &mut u32| Ok(()),
            |index, vcpu: &mut u32| {
                *vcpu = 0;
                if index == 2 {
                    Err("replay")
                } else {
                    Ok(())
                }
            },
        ),
    );
    assert_eq!(result, Err("replay"));
    assert_eq!(vcpus, [0, 0, 0]);
}

#[test]
fn a_pause_that_goes_well_is_not_undone() {
    let trace = RefCell::new(Vec::new());
    let result = pause_in_order(
        || {
            trace.borrow_mut().push("validate");
            Ok(())
        },
        || {
            trace.borrow_mut().push("pause");
            Ok::<_, ()>(())
        },
        || {
            trace.borrow_mut().push("capture");
            Ok(())
        },
        || unreachable!("nothing has to be undone"),
        || unreachable!("there is no fault"),
    );
    assert!(result.is_ok());
    assert_eq!(*trace.borrow(), ["validate", "pause", "capture"]);
}

#[test]
fn a_counter_that_cannot_be_marked_as_running_is_a_fault() {
    let faulted = RefCell::new(false);
    let result = resume_in_order(
        || Ok(()),
        || {},
        || Ok::<_, ()>(()),
        || Err(CounterError::NotPaused),
        || *faulted.borrow_mut() = true,
    );
    assert!(matches!(
        result,
        Err(ResumeTransitionError::Counter(CounterError::NotPaused))
    ));
    assert!(*faulted.borrow());
}
