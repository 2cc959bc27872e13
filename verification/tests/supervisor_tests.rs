use cbuildrt::supervisor::{
    outer_wait_step, reap_step, OuterDecision, ReapDecision, WaitEvent, EXEC_FAILURE_EXIT_CODE,
};

#[test]
fn tracked_clean_exit_is_adopted_without_warning() {
    let d = reap_step(42, WaitEvent::Exited { pid: 42, code: 0 });
    assert_eq!(
        d,
        ReapDecision::ExitWith {
            code: 0,
            warn: false
        }
    );
}

#[test]
fn tracked_non_zero_exit_is_adopted_with_warning() {
    let d = reap_step(42, WaitEvent::Exited { pid: 42, code: 1 });
    assert_eq!(
        d,
        ReapDecision::ExitWith {
            code: 1,
            warn: true
        }
    );
}

#[test]
fn other_descendants_are_reaped_and_discarded() {
    let d = reap_step(42, WaitEvent::Exited { pid: 7, code: 3 });
    assert_eq!(d, ReapDecision::ContinueReaping);
}

#[test]
fn signaled_children_keep_the_loop_reaping() {
    assert_eq!(
        reap_step(42, WaitEvent::Signaled { pid: 42, signal: 9 }),
        ReapDecision::ContinueReaping
    );
    assert_eq!(
        reap_step(42, WaitEvent::Other { pid: 42 }),
        ReapDecision::ContinueReaping
    );
}

#[test]
fn outer_waiter_propagates_clean_exit_codes() {
    assert_eq!(
        outer_wait_step(WaitEvent::Exited { pid: 5, code: 0 }),
        OuterDecision::Propagate { code: 0 }
    );
    assert_eq!(
        outer_wait_step(WaitEvent::Exited { pid: 5, code: 77 }),
        OuterDecision::Propagate { code: 77 }
    );
}

#[test]
fn outer_waiter_faults_on_unexpected_status_shapes() {
    assert_eq!(
        outer_wait_step(WaitEvent::Signaled { pid: 5, signal: 15 }),
        OuterDecision::InternalFault
    );
    assert_eq!(
        outer_wait_step(WaitEvent::Other { pid: 5 }),
        OuterDecision::InternalFault
    );
}

#[test]
fn exec_failure_code_is_one() {
    assert_eq!(EXEC_FAILURE_EXIT_CODE, 1);
}

#[test]
fn exit_code_passes_both_hops_unchanged() {
    // The target exits with some code; the supervisor adopts it, and the
    // outer waiter observes the supervisor's exit and adopts it in turn.
    for code in [0, 1, 2, 101] {
        let supervisor = reap_step(9, WaitEvent::Exited { pid: 9, code });
        let ReapDecision::ExitWith {
            code: init_code, ..
        } = supervisor
        else {
            panic!("supervisor did not adopt the tracked exit");
        };
        assert_eq!(init_code, code);
        let outer = outer_wait_step(WaitEvent::Exited {
            pid: 2,
            code: init_code,
        });
        assert_eq!(outer, OuterDecision::Propagate { code });
    }
}
