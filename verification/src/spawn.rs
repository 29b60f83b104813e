use vstd::prelude::*;
use crate::pgrp::DesiredPgrpState;

verus! {

/// How long a spawned child sleeps before it exits, in seconds.
pub const CHILD_SLEEP_SECS: u64 = 0;

/// How long the short-lived grandchild sleeps before it exits, in seconds:
/// longer than the child, so that the grandchild outlives the experiment
/// and can be seen afterwards, reparented, with `pgrep`.
pub const GRANDCHILD_SLEEP_SECS: u64 = 2;

/// Exit code of a spawned child.
pub const CHILD_EXIT_CODE: i32 = 0;

/// Exit code of the grandchild: a failure, so that a wait that reaped it
/// would be noticed.
pub const GRANDCHILD_EXIT_CODE: i32 = 1;

/// Where a process stands in spawning a child into a process group.
#[derive(PartialEq, Eq, Structural, Debug, Clone, Copy)]
pub enum SpawnPhase {
    /// Nothing done yet: the next step forks the child.
    Start,
    /// In the parent, placing the child `child` in its group.
    ParentPlacing { child: libc::pid_t },
    /// In the child, placing itself in its group.
    ChildPlacing,
    /// In the child, forking the grandchild.
    ChildForkingGrandchild,
    /// In the child, sleeping before it exits.
    ChildSleeping,
    /// In the grandchild, sleeping before it exits.
    GrandchildSleeping,
    /// Nothing is left to do.
    Finished,
}

/// Why spawning stopped short.
#[derive(PartialEq, Eq, Structural, Debug, Clone, Copy)]
pub enum SpawnFailure {
    /// An event arrived that does not answer the last action.
    UnexpectedEvent,
}

/// What the caller must do next.
#[derive(PartialEq, Eq, Structural, Debug, Clone, Copy)]
pub enum SpawnAction {
    /// Call `fork` and report its return value.
    Fork,
    /// Call `setpgid(pid, pgid)`; its result is not consulted.
    SetPgid { pid: libc::pid_t, pgid: libc::pid_t },
    /// Sleep for `secs` seconds.
    Sleep { secs: u64 },
    /// Terminate this process with exit code `code`.
    Exit { code: i32 },
    /// Spawning is done in the parent: `pid` is the child's pid.
    ReturnChild { pid: libc::pid_t },
    /// Stop: the events do not follow the actions.
    Abort(SpawnFailure),
}

/// What the caller observed after performing the last action.
#[derive(PartialEq, Eq, Structural, Debug, Clone, Copy)]
pub enum SpawnEvent {
    /// `fork` returned `ret` in this process.
    Forked { ret: libc::pid_t },
    /// `setpgid` returned.
    PgidSet,
    /// The sleep is over.
    Slept,
}

/// A `fork` that failed: it returned a negative value. Spawning cannot go
/// on then, so the caller must stop before handing such a result in.
pub open spec fn is_failed_fork(event: SpawnEvent) -> bool {
    event matches SpawnEvent::Forked { ret } && ret < 0
}

/// The phase and action that follow `phase` on `event`, for a spawn into the
/// group given by `pgid_arg`, with or without a short-lived grandchild.
pub open spec fn spawn_transition(
    pgid_arg: libc::pid_t,
    grandchild: bool,
    phase: SpawnPhase,
    event: SpawnEvent,
) -> (SpawnPhase, SpawnAction) {
    match (phase, event) {
        (SpawnPhase::Start, SpawnEvent::Forked { ret }) => if ret == 0 {
            (SpawnPhase::ChildPlacing, SpawnAction::SetPgid { pid: 0, pgid: pgid_arg })
        } else {
            (
                SpawnPhase::ParentPlacing { child: ret },
                SpawnAction::SetPgid { pid: ret, pgid: pgid_arg },
            )
        },
        (SpawnPhase::ParentPlacing { child }, SpawnEvent::PgidSet) => (
            SpawnPhase::Finished,
            SpawnAction::ReturnChild { pid: child },
        ),
        (SpawnPhase::ChildPlacing, SpawnEvent::PgidSet) => if grandchild {
            (SpawnPhase::ChildForkingGrandchild, SpawnAction::Fork)
        } else {
            (SpawnPhase::ChildSleeping, SpawnAction::Sleep { secs: CHILD_SLEEP_SECS })
        },
        (SpawnPhase::ChildForkingGrandchild, SpawnEvent::Forked { ret }) => if ret == 0 {
            (SpawnPhase::GrandchildSleeping, SpawnAction::Sleep { secs: GRANDCHILD_SLEEP_SECS })
        } else {
            (SpawnPhase::ChildSleeping, SpawnAction::Sleep { secs: CHILD_SLEEP_SECS })
        },
        (SpawnPhase::GrandchildSleeping, SpawnEvent::Slept) => (
            SpawnPhase::Finished,
            SpawnAction::Exit { code: GRANDCHILD_EXIT_CODE },
        ),
        (SpawnPhase::ChildSleeping, SpawnEvent::Slept) => (
            SpawnPhase::Finished,
            SpawnAction::Exit { code: CHILD_EXIT_CODE },
        ),
        _ => (SpawnPhase::Finished, SpawnAction::Abort(SpawnFailure::UnexpectedEvent)),
    }
}

/// Spawns a child into a process group, one system call at a time: the caller
/// performs each returned action and feeds back what it observed. The child
/// sleeps `CHILD_SLEEP_SECS` and exits with 0; if asked, it first forks a
/// grandchild that sleeps `GRANDCHILD_SLEEP_SECS` and exits with 1.
pub struct ChildSpawner {
    pgrp_state: DesiredPgrpState,
    spawn_shortlived_grandchild: bool,
    phase: SpawnPhase,
}

impl ChildSpawner {
    /// The placement the child is spawned for.
    pub closed spec fn pgrp_state(&self) -> DesiredPgrpState {
        self.pgrp_state
    }

    /// Whether the child forks a short-lived grandchild.
    pub closed spec fn spawns_grandchild(&self) -> bool {
        self.spawn_shortlived_grandchild
    }

    /// Where the spawn stands.
    pub closed spec fn phase(&self) -> SpawnPhase {
        self.phase
    }

    /// The parent only ever holds the pid of a child that `fork` created.
    #[verifier::type_invariant]
    closed spec fn inv(&self) -> bool {
        self.phase matches SpawnPhase::ParentPlacing { child } ==> child > 0
    }

    /// Where the spawn stands.
    pub fn current_phase(&self) -> (p: SpawnPhase)
        ensures
            p == self.phase(),
    {
        self.phase
    }

    /// A spawner at its start; the first action is to fork.
    pub fn new(pgrp_state: DesiredPgrpState, spawn_shortlived_grandchild: bool) -> (r: (
        Self,
        SpawnAction,
    ))
        ensures
            r.0.pgrp_state() == pgrp_state,
            r.0.spawns_grandchild() == spawn_shortlived_grandchild,
            r.0.phase() == SpawnPhase::Start,
            r.1 == SpawnAction::Fork,
    {
        (ChildSpawner { pgrp_state, spawn_shortlived_grandchild, phase: SpawnPhase::Start }, SpawnAction::Fork)
    }

    /// Takes in what the last action produced and returns the next action.
    /// A failed `fork` is not handed in: spawning stops there.
    pub fn step(&mut self, event: SpawnEvent) -> (action: SpawnAction)
        requires
            !is_failed_fork(event),
        ensures
            final(self).pgrp_state() == old(self).pgrp_state(),
            final(self).spawns_grandchild() == old(self).spawns_grandchild(),
            (final(self).phase(), action) == spawn_transition(
                old(self).pgrp_state().spec_pgid_arg(),
                old(self).spawns_grandchild(),
                old(self).phase(),
                event,
            ),
            action matches SpawnAction::ReturnChild { pid } ==> pid > 0,
            action matches SpawnAction::SetPgid { pid, pgid } ==> pgid
                == old(self).pgrp_state().spec_pgid_arg(),
            action is SetPgid && old(self).pgrp_state() is NonLeaderMemberOf ==> action->pgid
                == old(self).pgrp_state()->pgid,
            action is SetPgid && old(self).pgrp_state() is Leader ==> action->pgid == 0,
            action is Exit ==> (action->code == 0 && old(self).phase() == SpawnPhase::ChildSleeping)
                || (action->code == 1 && old(self).phase() == SpawnPhase::GrandchildSleeping),
    {
        proof {
            use_type_invariant(&*self);
        }
        let pgid = self.pgrp_state.pgid_arg();
        let (phase, action) = match (self.phase, event) {
            (SpawnPhase::Start, SpawnEvent::Forked { ret }) => if ret == 0 {
                (SpawnPhase::ChildPlacing, SpawnAction::SetPgid { pid: 0, pgid })
            } else {
                (SpawnPhase::ParentPlacing { child: ret }, SpawnAction::SetPgid { pid: ret, pgid })
            },
            (SpawnPhase::ParentPlacing { child }, SpawnEvent::PgidSet) => (
                SpawnPhase::Finished,
                SpawnAction::ReturnChild { pid: child },
            ),
            (SpawnPhase::ChildPlacing, SpawnEvent::PgidSet) => if self.spawn_shortlived_grandchild {
                (SpawnPhase::ChildForkingGrandchild, SpawnAction::Fork)
            } else {
                (SpawnPhase::ChildSleeping, SpawnAction::Sleep { secs: CHILD_SLEEP_SECS })
            },
            (SpawnPhase::ChildForkingGrandchild, SpawnEvent::Forked { ret }) => if ret == 0 {
                (SpawnPhase::GrandchildSleeping, SpawnAction::Sleep { secs: GRANDCHILD_SLEEP_SECS })
            } else {
                (SpawnPhase::ChildSleeping, SpawnAction::Sleep { secs: CHILD_SLEEP_SECS })
            },
            (SpawnPhase::GrandchildSleeping, SpawnEvent::Slept) => (
                SpawnPhase::Finished,
                SpawnAction::Exit { code: GRANDCHILD_EXIT_CODE },
            ),
            (SpawnPhase::ChildSleeping, SpawnEvent::Slept) => (
                SpawnPhase::Finished,
                SpawnAction::Exit { code: CHILD_EXIT_CODE },
            ),
            _ => (SpawnPhase::Finished, SpawnAction::Abort(SpawnFailure::UnexpectedEvent)),
        };
        self.phase = phase;
        action
    }
}

/// The grandchild sleeps longer than the child, so it outlives the child.
pub proof fn lemma_grandchild_outlives_child()
    ensures
        CHILD_SLEEP_SECS < GRANDCHILD_SLEEP_SECS,
{
}

/// In the parent, a successful fork leads to placing the new child in the
/// requested group and then to returning the child's pid.
pub proof fn lemma_parent_places_then_returns_child(
    pgid_arg: libc::pid_t,
    grandchild: bool,
    ret: libc::pid_t,
)
    requires
        ret > 0,
    ensures
        spawn_transition(pgid_arg, grandchild, SpawnPhase::Start, SpawnEvent::Forked { ret }) == (
            SpawnPhase::ParentPlacing { child: ret },
            SpawnAction::SetPgid { pid: ret, pgid: pgid_arg },
        ),
        spawn_transition(
            pgid_arg,
            grandchild,
            SpawnPhase::ParentPlacing { child: ret },
            SpawnEvent::PgidSet,
        ) == (SpawnPhase::Finished, SpawnAction::ReturnChild { pid: ret }),
{
}

/// In the child, after placing itself in the requested group, the child
/// sleeps `CHILD_SLEEP_SECS` (0) and exits with 0; when it forks a
/// grandchild, the grandchild sleeps `GRANDCHILD_SLEEP_SECS` (2) and exits
/// with the failure code 1, while the child goes on to its own sleep.
pub proof fn lemma_child_and_grandchild_exit_codes(
    pgid_arg: libc::pid_t,
    grandchild: bool,
    grandchild_pid: libc::pid_t,
)
    requires
        grandchild_pid > 0,
    ensures
        spawn_transition(pgid_arg, grandchild, SpawnPhase::Start, SpawnEvent::Forked { ret: 0 })
            == (SpawnPhase::ChildPlacing, SpawnAction::SetPgid { pid: 0, pgid: pgid_arg }),
        !grandchild ==> spawn_transition(
            pgid_arg,
            grandchild,
            SpawnPhase::ChildPlacing,
            SpawnEvent::PgidSet,
        ) == (SpawnPhase::ChildSleeping, SpawnAction::Sleep { secs: 0 }),
        grandchild ==> spawn_transition(
            pgid_arg,
            grandchild,
            SpawnPhase::ChildPlacing,
            SpawnEvent::PgidSet,
        ) == (SpawnPhase::ChildForkingGrandchild, SpawnAction::Fork),
        spawn_transition(
            pgid_arg,
            grandchild,
            SpawnPhase::ChildForkingGrandchild,
            SpawnEvent::Forked { ret: 0 },
        ) == (SpawnPhase::GrandchildSleeping, SpawnAction::Sleep { secs: 2 }),
        spawn_transition(pgid_arg, grandchild, SpawnPhase::GrandchildSleeping, SpawnEvent::Slept)
            == (SpawnPhase::Finished, SpawnAction::Exit { code: 1 }),
        spawn_transition(
            pgid_arg,
            grandchild,
            SpawnPhase::ChildForkingGrandchild,
            SpawnEvent::Forked { ret: grandchild_pid },
        ) == (SpawnPhase::ChildSleeping, SpawnAction::Sleep { secs: 0 }),
        spawn_transition(pgid_arg, grandchild, SpawnPhase::ChildSleeping, SpawnEvent::Slept) == (
            SpawnPhase::Finished,
            SpawnAction::Exit { code: 0 },
        ),
{
}

/// What each action answers: `setpgid` is only asked right after the first
/// `fork`, with that fork's result as pid (0 in the child) and the requested
/// group; the parent returns exactly the pid `fork` gave it; only the child
/// forks, and only when a grandchild is wanted; the child sleeps 0 s and
/// exits with 0, the grandchild sleeps 2 s and exits with 1.
pub proof fn lemma_spawn_actions_answer_events(
    pgid_arg: libc::pid_t,
    grandchild: bool,
    phase: SpawnPhase,
    e: SpawnEvent,
)
    ensures
        ({
            let (p, a) = spawn_transition(pgid_arg, grandchild, phase, e);
            &&& a is SetPgid ==> a->pgid == pgid_arg && phase == SpawnPhase::Start && e
                == (SpawnEvent::Forked { ret: a->SetPgid_pid })
            &&& phase == SpawnPhase::Start && e is Forked && e->ret >= 0 ==> a
                == (SpawnAction::SetPgid { pid: e->ret, pgid: pgid_arg })
            &&& a is ReturnChild ==> phase == (SpawnPhase::ParentPlacing { child: a->ReturnChild_pid })
            &&& a is Fork ==> grandchild && phase == SpawnPhase::ChildPlacing
            &&& a is Exit ==> e == SpawnEvent::Slept && ((a->code == 0 && phase
                == SpawnPhase::ChildSleeping) || (a->code == 1 && phase
                == SpawnPhase::GrandchildSleeping))
            &&& a is Sleep ==> (a->secs == 0 && p == SpawnPhase::ChildSleeping) || (a->secs == 2
                && p == SpawnPhase::GrandchildSleeping)
            &&& phase == SpawnPhase::ChildForkingGrandchild && e == (SpawnEvent::Forked { ret: 0 })
                ==> a == (SpawnAction::Sleep { secs: 2 }) && p == SpawnPhase::GrandchildSleeping
            &&& phase == SpawnPhase::ChildForkingGrandchild && e is Forked && e->ret > 0 ==> a
                == (SpawnAction::Sleep { secs: 0 }) && p == SpawnPhase::ChildSleeping
        }),
{
}

} // verus!
