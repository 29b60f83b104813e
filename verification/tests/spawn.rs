use unix_experiments::pgrp::DesiredPgrpState;
use unix_experiments::spawn::{
    ChildSpawner, SpawnAction, SpawnEvent, SpawnFailure, SpawnPhase, CHILD_SLEEP_SECS,
    GRANDCHILD_SLEEP_SECS,
};

#[test]
fn parent_places_child_and_returns_its_pid() {
    let (mut s, a) = ChildSpawner::new(DesiredPgrpState::non_leader_member_of(700), false);
    assert_eq!(a, SpawnAction::Fork);
    assert_eq!(s.step(SpawnEvent::Forked { ret: 701 }), SpawnAction::SetPgid { pid: 701, pgid: 700 });
    assert_eq!(s.step(SpawnEvent::PgidSet), SpawnAction::ReturnChild { pid: 701 });
    assert_eq!(s.current_phase(), SpawnPhase::Finished);
}

#[test]
fn leader_child_without_grandchild() {
    let (mut s, _) = ChildSpawner::new(DesiredPgrpState::Leader, false);
    assert_eq!(s.step(SpawnEvent::Forked { ret: 0 }), SpawnAction::SetPgid { pid: 0, pgid: 0 });
    assert_eq!(s.step(SpawnEvent::PgidSet), SpawnAction::Sleep { secs: 0 });
    assert_eq!(s.step(SpawnEvent::Slept), SpawnAction::Exit { code: 0 });
}

#[test]
fn child_forks_grandchild_that_exits_with_failure() {
    let (mut child, _) = ChildSpawner::new(DesiredPgrpState::Leader, true);
    assert_eq!(child.step(SpawnEvent::Forked { ret: 0 }), SpawnAction::SetPgid { pid: 0, pgid: 0 });
    assert_eq!(child.step(SpawnEvent::PgidSet), SpawnAction::Fork);
    // The same state, seen from the grandchild and from the child.
    let (mut grandchild, _) = ChildSpawner::new(DesiredPgrpState::Leader, true);
    grandchild.step(SpawnEvent::Forked { ret: 0 });
    grandchild.step(SpawnEvent::PgidSet);
    assert_eq!(grandchild.step(SpawnEvent::Forked { ret: 0 }), SpawnAction::Sleep { secs: 2 });
    assert_eq!(grandchild.step(SpawnEvent::Slept), SpawnAction::Exit { code: 1 });
    assert_eq!(child.step(SpawnEvent::Forked { ret: 9001 }), SpawnAction::Sleep { secs: 0 });
    assert_eq!(child.step(SpawnEvent::Slept), SpawnAction::Exit { code: 0 });
}

#[test]
fn grandchild_outlives_child() {
    assert_eq!(CHILD_SLEEP_SECS, 0);
    assert_eq!(GRANDCHILD_SLEEP_SECS, 2);
    assert!(CHILD_SLEEP_SECS < GRANDCHILD_SLEEP_SECS);
}

#[test]
fn out_of_order_event_aborts() {
    let (mut s, _) = ChildSpawner::new(DesiredPgrpState::Leader, false);
    assert_eq!(s.step(SpawnEvent::Slept), SpawnAction::Abort(SpawnFailure::UnexpectedEvent));
    assert_eq!(s.current_phase(), SpawnPhase::Finished);
}
