use unix_experiments::pgrp::DesiredPgrpState;
use unix_experiments::reaper::{
    check_child_report, ChildReport, PgrpReaper, ReaperAction, ReaperEvent, ReaperFailure,
    ReaperPhase, ReportProblem, SoleChildWaiter, WaitCodes, NUM_CHILDREN,
};

fn codes() -> WaitCodes {
    WaitCodes { sigchld: libc::SIGCHLD, cld_exited: libc::CLD_EXITED, echild: libc::ECHILD }
}

fn clean(pid: i32) -> ReaperEvent {
    ReaperEvent::Reaped(ChildReport { pid, signo: libc::SIGCHLD, code: libc::CLD_EXITED, status: 0 })
}

fn spawned(n: usize) -> (PgrpReaper, Vec<i32>) {
    let (mut r, first) = PgrpReaper::new(n, codes());
    assert_eq!(
        first,
        ReaperAction::Spawn { pgrp_state: DesiredPgrpState::Leader, spawn_shortlived_grandchild: true }
    );
    let pids: Vec<i32> = (0..n as i32).map(|i| 500 + 3 * i).collect();
    for (i, pid) in pids.iter().enumerate() {
        let a = r.step(ReaperEvent::Spawned { pid: *pid });
        if i + 1 < n {
            assert_eq!(
                a,
                ReaperAction::Spawn {
                    pgrp_state: DesiredPgrpState::NonLeaderMemberOf { pgid: 500 },
                    spawn_shortlived_grandchild: false
                }
            );
        } else {
            assert_eq!(a, ReaperAction::WaitOnPgrp { pgid: 500 });
        }
    }
    (r, pids)
}

#[test]
fn twenty_children_reaped_in_any_order_finish() {
    assert_eq!(NUM_CHILDREN, 20);
    let (mut r, pids) = spawned(NUM_CHILDREN);
    let mut order = pids.clone();
    order.reverse();
    order.swap(3, 11);
    for pid in order {
        assert_eq!(r.step(clean(pid)), ReaperAction::WaitOnPgrp { pgid: 500 });
    }
    assert_eq!(r.step(ReaperEvent::WaitFailed { errno: libc::ECHILD }), ReaperAction::Finished);
    assert_eq!(r.phase(), ReaperPhase::Done);
}

#[test]
fn grandchild_exit_is_rejected() {
    let (mut r, _) = spawned(3);
    assert_eq!(
        r.step(ReaperEvent::Reaped(ChildReport {
            pid: 999,
            signo: libc::SIGCHLD,
            code: libc::CLD_EXITED,
            status: 1
        })),
        ReaperAction::Failed(ReaperFailure::BadReport(ReportProblem::NonzeroStatus { status: 1 }))
    );
    assert_eq!(r.phase(), ReaperPhase::Failed);
}

#[test]
fn killed_child_is_rejected() {
    let (mut r, _) = spawned(2);
    assert_eq!(
        r.step(ReaperEvent::Reaped(ChildReport {
            pid: 500,
            signo: libc::SIGCHLD,
            code: libc::CLD_KILLED,
            status: libc::SIGKILL
        })),
        ReaperAction::Failed(ReaperFailure::BadReport(ReportProblem::NotExited { code: libc::CLD_KILLED }))
    );
}

#[test]
fn wrong_signo_is_rejected() {
    let (mut r, _) = spawned(1);
    assert_eq!(
        r.step(ReaperEvent::Reaped(ChildReport { pid: 500, signo: 0, code: libc::CLD_EXITED, status: 0 })),
        ReaperAction::Failed(ReaperFailure::BadReport(ReportProblem::NotSigchld { signo: 0 }))
    );
}

#[test]
fn too_many_reaped() {
    let (mut r, _) = spawned(2);
    r.step(clean(500));
    r.step(clean(503));
    assert_eq!(r.step(clean(777)), ReaperAction::Failed(ReaperFailure::TooManyReaped { pid: 777 }));
}

#[test]
fn too_few_reaped() {
    let (mut r, _) = spawned(3);
    r.step(clean(500));
    assert_eq!(
        r.step(ReaperEvent::WaitFailed { errno: libc::ECHILD }),
        ReaperAction::Failed(ReaperFailure::WrongCount { reaped: 1, expected: 3 })
    );
}

#[test]
fn other_pids_reaped() {
    let (mut r, _) = spawned(2);
    r.step(clean(500));
    r.step(clean(500));
    assert_eq!(
        r.step(ReaperEvent::WaitFailed { errno: libc::ECHILD }),
        ReaperAction::Failed(ReaperFailure::ReapedOtherPids)
    );
}

#[test]
fn wait_error_other_than_echild() {
    let (mut r, _) = spawned(1);
    assert_eq!(
        r.step(ReaperEvent::WaitFailed { errno: libc::EINTR }),
        ReaperAction::Failed(ReaperFailure::UnexpectedErrno { errno: libc::EINTR })
    );
}

#[test]
fn leader_pid_must_be_positive() {
    let (mut r, _) = PgrpReaper::new(2, codes());
    assert_eq!(
        r.step(ReaperEvent::Spawned { pid: -1 }),
        ReaperAction::Failed(ReaperFailure::LeaderPidNotPositive { pid: -1 })
    );
}

#[test]
fn events_out_of_order_fail() {
    let (mut r, _) = PgrpReaper::new(2, codes());
    assert_eq!(r.step(clean(5)), ReaperAction::Failed(ReaperFailure::UnexpectedEvent));
    let (mut r, _) = spawned(1);
    assert_eq!(r.step(ReaperEvent::Spawned { pid: 7 }), ReaperAction::Failed(ReaperFailure::UnexpectedEvent));
}

#[test]
fn report_checks_in_order() {
    let c = codes();
    let good = ChildReport { pid: 10, signo: libc::SIGCHLD, code: libc::CLD_EXITED, status: 0 };
    assert_eq!(check_child_report(&good, Some(10), &c), Ok(()));
    assert_eq!(check_child_report(&good, None, &c), Ok(()));
    assert_eq!(
        check_child_report(&ChildReport { pid: 11, signo: 0, ..good }, Some(10), &c),
        Err(ReportProblem::WrongPid { found: 11 })
    );
}

#[test]
fn sole_child_is_waited_on_group_then_pid() {
    let (mut w, a) = SoleChildWaiter::new(4000, codes());
    assert_eq!(a, ReaperAction::WaitOnPgrp { pgid: 4000 });
    assert_eq!(w.step(clean(4000)), ReaperAction::WaitOnPid { pid: 4000 });
    assert_eq!(w.step(ReaperEvent::WaitFailed { errno: libc::ECHILD }), ReaperAction::Finished);
    assert_eq!(w.phase(), ReaperPhase::Done);
}

#[test]
fn sole_child_wrong_pid_or_errno_fails() {
    let (mut w, _) = SoleChildWaiter::new(4000, codes());
    assert_eq!(
        w.step(clean(4001)),
        ReaperAction::Failed(ReaperFailure::BadReport(ReportProblem::WrongPid { found: 4001 }))
    );
    let (mut w, _) = SoleChildWaiter::new(4000, codes());
    assert_eq!(
        w.step(ReaperEvent::WaitFailed { errno: libc::EINVAL }),
        ReaperAction::Failed(ReaperFailure::UnexpectedErrno { errno: libc::EINVAL })
    );
}
