use vstd::prelude::*;
use crate::pgrp::DesiredPgrpState;
use crate::pidset::{same_pids, same_pid_multiset};

verus! {

/// How many children the process-group experiment spawns.
pub const NUM_CHILDREN: usize = 20;

/// The platform's numbers for the codes a `waitid` reply is judged by: the
/// signal number of `SIGCHLD`, the `si_code` value `CLD_EXITED`, and the
/// errno `ECHILD`. They differ between architectures, so the caller hands
/// in the values of its own target.
#[derive(PartialEq, Eq, Structural, Debug, Clone, Copy)]
pub struct WaitCodes {
    pub sigchld: libc::c_int,
    pub cld_exited: libc::c_int,
    pub echild: libc::c_int,
}

/// The fields of the `siginfo_t` that a successful `waitid` filled in.
#[derive(PartialEq, Eq, Structural, Debug, Clone, Copy)]
pub struct ChildReport {
    /// `si_pid`: the process whose state changed.
    pub pid: libc::pid_t,
    /// `si_signo`: always `SIGCHLD` for `waitid`.
    pub signo: libc::c_int,
    /// `si_code`: how the process changed state.
    pub code: libc::c_int,
    /// `si_status`: the exit code, or the signal, depending on `si_code`.
    pub status: libc::c_int,
}

/// Why a `waitid` reply is not the clean exit of an expected child; the
/// variants come in the order in which the checks are made.
#[derive(PartialEq, Eq, Structural, Debug, Clone, Copy)]
pub enum ReportProblem {
    /// The reply is about another process than the one expected.
    WrongPid { found: libc::pid_t },
    /// `si_signo` is not `SIGCHLD`.
    NotSigchld { signo: libc::c_int },
    /// `si_code` is not `CLD_EXITED`: the process was killed, stopped, ...
    NotExited { code: libc::c_int },
    /// The process exited with a nonzero code.
    NonzeroStatus { status: libc::c_int },
}

/// The verdict on `report`: the pid check (when a pid is expected), then
/// `SIGCHLD`, then `CLD_EXITED`, then exit code 0; the first that fails decides.
pub open spec fn report_verdict(
    report: ChildReport,
    expected_pid: Option<libc::pid_t>,
    codes: WaitCodes,
) -> Result<(), ReportProblem> {
    if expected_pid matches Some(p) && report.pid != p {
        Err(ReportProblem::WrongPid { found: report.pid })
    } else if report.signo != codes.sigchld {
        Err(ReportProblem::NotSigchld { signo: report.signo })
    } else if report.code != codes.cld_exited {
        Err(ReportProblem::NotExited { code: report.code })
    } else if report.status != 0 {
        Err(ReportProblem::NonzeroStatus { status: report.status })
    } else {
        Ok(())
    }
}

/// Checks that `report` describes a clean exit (code 0) of a child, and of
/// `expected_pid` when one is given.
pub fn check_child_report(
    report: &ChildReport,
    expected_pid: Option<libc::pid_t>,
    codes: &WaitCodes,
) -> (r: Result<(), ReportProblem>)
    ensures
        r == report_verdict(*report, expected_pid, *codes),
        r is Ok <==> ((expected_pid matches Some(p) ==> report.pid == p) && report.signo
            == codes.sigchld && report.code == codes.cld_exited && report.status == 0),
        expected_pid matches Some(p) && report.pid != p ==> r == Err::<(), ReportProblem>(
            ReportProblem::WrongPid { found: report.pid },
        ),
{
    if let Some(p) = expected_pid {
        if report.pid != p {
            return Err(ReportProblem::WrongPid { found: report.pid });
        }
    }
    if report.signo != codes.sigchld {
        return Err(ReportProblem::NotSigchld { signo: report.signo });
    }
    if report.code != codes.cld_exited {
        return Err(ReportProblem::NotExited { code: report.code });
    }
    if report.status != 0 {
        return Err(ReportProblem::NonzeroStatus { status: report.status });
    }
    Ok(())
}

/// Why a wait experiment stopped: a check on what the kernel reported failed.
#[derive(PartialEq, Eq, Structural, Debug, Clone, Copy)]
pub enum ReaperFailure {
    /// The leader's pid, which names the group, is not positive.
    LeaderPidNotPositive { pid: libc::pid_t },
    /// A `waitid` reply is not the clean exit of an expected child.
    BadReport(ReportProblem),
    /// More processes were reaped than children were spawned.
    TooManyReaped { pid: libc::pid_t },
    /// `waitid` failed with another errno than `ECHILD`.
    UnexpectedErrno { errno: libc::c_int },
    /// `waitid` ran out of children before all spawned ones were reaped.
    WrongCount { reaped: usize, expected: usize },
    /// The reaped pids are not the spawned pids.
    ReapedOtherPids,
    /// An event arrived that does not answer the last action.
    UnexpectedEvent,
}

/// What the caller must do next.
#[derive(PartialEq, Eq, Structural, Debug, Clone, Copy)]
pub enum ReaperAction {
    /// Spawn a child (see `spawn::ChildSpawner`) and report its pid.
    Spawn { pgrp_state: DesiredPgrpState, spawn_shortlived_grandchild: bool },
    /// Call `waitid(P_PGID, pgid, .., WEXITED)` and report the outcome.
    WaitOnPgrp { pgid: libc::pid_t },
    /// Call `waitid(P_PID, pid, .., WEXITED)` and report the outcome.
    WaitOnPid { pid: libc::pid_t },
    /// The experiment is over and every check passed.
    Finished,
    /// The experiment is over and a check failed.
    Failed(ReaperFailure),
}

/// What the caller observed after performing the last action.
#[derive(PartialEq, Eq, Structural, Debug, Clone, Copy)]
pub enum ReaperEvent {
    /// A child was spawned with pid `pid`.
    Spawned { pid: libc::pid_t },
    /// `waitid` returned 0 and filled in this report.
    Reaped(ChildReport),
    /// `waitid` returned -1 with `errno`.
    WaitFailed { errno: libc::c_int },
}

/// Where a process-group reaping experiment stands.
#[derive(PartialEq, Eq, Structural, Debug, Clone, Copy)]
pub enum ReaperPhase {
    Spawning,
    Waiting,
    Done,
    Failed,
}

/// The abstract state of a `PgrpReaper`.
pub struct ReaperView {
    pub num_children: nat,
    pub codes: WaitCodes,
    pub spawned: Seq<libc::pid_t>,
    pub waited: Seq<libc::pid_t>,
    pub phase: ReaperPhase,
}

/// A view in the failed phase.
pub open spec fn failed_view(v: ReaperView) -> ReaperView {
    ReaperView { phase: ReaperPhase::Failed, ..v }
}

/// The state and action that follow `v` on event `e`.
///
/// Spawning: the first child leads a new group and forks a short-lived
/// grandchild; every later child joins the leader's group without one. Once
/// `num_children` are spawned, wait on the leader's group. Each reply must be
/// the clean exit of a child, and no more than `num_children` are taken.
/// When `waitid` fails, it must be with `ECHILD`, after exactly
/// `num_children` replies, whose pids are the spawned ones.
pub open spec fn reaper_next(v: ReaperView, e: ReaperEvent) -> (ReaperView, ReaperAction) {
    match (v.phase, e) {
        (ReaperPhase::Spawning, ReaperEvent::Spawned { pid }) => {
            if v.spawned.len() == 0 && pid <= 0 {
                (
                    failed_view(v),
                    ReaperAction::Failed(ReaperFailure::LeaderPidNotPositive { pid }),
                )
            } else {
                let s = v.spawned.push(pid);
                if s.len() < v.num_children {
                    (
                        ReaperView { spawned: s, ..v },
                        ReaperAction::Spawn {
                            pgrp_state: DesiredPgrpState::NonLeaderMemberOf { pgid: s[0] },
                            spawn_shortlived_grandchild: false,
                        },
                    )
                } else {
                    (
                        ReaperView { spawned: s, phase: ReaperPhase::Waiting, ..v },
                        ReaperAction::WaitOnPgrp { pgid: s[0] },
                    )
                }
            }
        },
        (ReaperPhase::Waiting, ReaperEvent::Reaped(report)) => {
            match report_verdict(report, None, v.codes) {
                Err(p) => (failed_view(v), ReaperAction::Failed(ReaperFailure::BadReport(p))),
                Ok(_) => if v.waited.len() >= v.num_children {
                    (
                        failed_view(v),
                        ReaperAction::Failed(ReaperFailure::TooManyReaped { pid: report.pid }),
                    )
                } else {
                    (
                        ReaperView { waited: v.waited.push(report.pid), ..v },
                        ReaperAction::WaitOnPgrp { pgid: v.spawned[0] },
                    )
                },
            }
        },
        (ReaperPhase::Waiting, ReaperEvent::WaitFailed { errno }) => {
            if errno != v.codes.echild {
                (failed_view(v), ReaperAction::Failed(ReaperFailure::UnexpectedErrno { errno }))
            } else if v.waited.len() != v.num_children {
                (
                    failed_view(v),
                    ReaperAction::Failed(
                        ReaperFailure::WrongCount {
                            reaped: v.waited.len() as usize,
                            expected: v.num_children as usize,
                        },
                    ),
                )
            } else if !same_pid_multiset(v.spawned, v.waited) {
                (failed_view(v), ReaperAction::Failed(ReaperFailure::ReapedOtherPids))
            } else {
                (ReaperView { phase: ReaperPhase::Done, ..v }, ReaperAction::Finished)
            }
        },
        _ => (failed_view(v), ReaperAction::Failed(ReaperFailure::UnexpectedEvent)),
    }
}

/// The view every experiment starts from.
pub open spec fn initial_view(num_children: nat, codes: WaitCodes) -> ReaperView {
    ReaperView {
        num_children,
        codes,
        spawned: Seq::empty(),
        waited: Seq::empty(),
        phase: ReaperPhase::Spawning,
    }
}

/// Spawns `num_children` children into one process group, waits on that
/// group until `waitid` runs out of children, and checks that exactly the
/// spawned children, and none of the grandchild, were reaped, each after a
/// clean exit. The caller performs each action and reports the event.
pub struct PgrpReaper {
    num_children: usize,
    codes: WaitCodes,
    spawned: Vec<libc::pid_t>,
    waited: Vec<libc::pid_t>,
    phase: ReaperPhase,
}

impl View for PgrpReaper {
    type V = ReaperView;

    /// The abstract state: the plan, the pids spawned and reaped so far, and
    /// the phase.
    closed spec fn view(&self) -> ReaperView {
        ReaperView {
            num_children: self.num_children as nat,
            codes: self.codes,
            spawned: self.spawned@,
            waited: self.waited@,
            phase: self.phase,
        }
    }
}

/// The bookkeeping of a reaper in state `v` is consistent: counts stay
/// within the number of children and the group leader's pid is positive.
pub open spec fn reaper_view_wf(v: ReaperView) -> bool {
    &&& v.num_children >= 1
    &&& v.spawned.len() <= v.num_children
    &&& v.waited.len() <= v.num_children
    &&& v.spawned.len() > 0 ==> v.spawned[0] > 0
    &&& v.phase == ReaperPhase::Spawning ==> v.spawned.len() < v.num_children
    &&& v.phase == ReaperPhase::Waiting ==> v.spawned.len() == v.num_children
}

impl PgrpReaper {
    #[verifier::type_invariant]
    closed spec fn inv(&self) -> bool {
        reaper_view_wf(self@)
    }

    /// A new experiment with `num_children` children; the first action spawns
    /// the group leader, which also forks a short-lived grandchild.
    pub fn new(num_children: usize, codes: WaitCodes) -> (r: (Self, ReaperAction))
        requires
            num_children >= 1,
        ensures
            r.0@ == initial_view(num_children as nat, codes),
            r.1 == (ReaperAction::Spawn {
                pgrp_state: DesiredPgrpState::Leader,
                spawn_shortlived_grandchild: true,
            }),
    {
        let reaper = PgrpReaper {
            num_children,
            codes,
            spawned: Vec::new(),
            waited: Vec::new(),
            phase: ReaperPhase::Spawning,
        };
        (
            reaper,
            ReaperAction::Spawn {
                pgrp_state: DesiredPgrpState::Leader,
                spawn_shortlived_grandchild: true,
            },
        )
    }

    /// Where the experiment stands.
    pub fn phase(&self) -> (p: ReaperPhase)
        ensures
            p == self@.phase,
    {
        self.phase
    }

    /// Takes in what the last action produced and returns the next action.
    pub fn step(&mut self, event: ReaperEvent) -> (action: ReaperAction)
        ensures
            (final(self)@, action) == reaper_next(old(self)@, event),
            action is Finished ==> same_pid_multiset(final(self)@.spawned, final(self)@.waited)
                && final(self)@.waited.len() == final(self)@.num_children,
            action is Finished ==> event == (ReaperEvent::WaitFailed {
                errno: old(self)@.codes.echild,
            }),
            event is WaitFailed && event->errno != old(self)@.codes.echild && old(self)@.phase
                == ReaperPhase::Waiting ==> action == ReaperAction::Failed(
                ReaperFailure::UnexpectedErrno { errno: event->errno },
            ),
            event matches ReaperEvent::Reaped(r) && r.status != 0 ==> action is Failed,
    {
        proof {
            use_type_invariant(&*self);
        }
        let mut current = PgrpReaper {
            num_children: 1,
            codes: self.codes,
            spawned: Vec::new(),
            waited: Vec::new(),
            phase: ReaperPhase::Failed,
        };
        std::mem::swap(self, &mut current);
        let PgrpReaper { num_children, codes, mut spawned, mut waited, phase } = current;
        let (phase, action) = match (phase, event) {
            (ReaperPhase::Spawning, ReaperEvent::Spawned { pid }) => {
                if spawned.len() == 0 && pid <= 0 {
                    (
                        ReaperPhase::Failed,
                        ReaperAction::Failed(ReaperFailure::LeaderPidNotPositive { pid }),
                    )
                } else {
                    spawned.push(pid);
                    let leader = spawned[0];
                    if spawned.len() < num_children {
                        (
                            ReaperPhase::Spawning,
                            ReaperAction::Spawn {
                                pgrp_state: DesiredPgrpState::non_leader_member_of(leader),
                                spawn_shortlived_grandchild: false,
                            },
                        )
                    } else {
                        (ReaperPhase::Waiting, ReaperAction::WaitOnPgrp { pgid: leader })
                    }
                }
            },
            (ReaperPhase::Waiting, ReaperEvent::Reaped(report)) => {
                match check_child_report(&report, None, &codes) {
                    Err(p) => (ReaperPhase::Failed, ReaperAction::Failed(ReaperFailure::BadReport(p))),
                    Ok(_) => {
                        if waited.len() >= num_children {
                            (
                                ReaperPhase::Failed,
                                ReaperAction::Failed(
                                    ReaperFailure::TooManyReaped { pid: report.pid },
                                ),
                            )
                        } else {
                            waited.push(report.pid);
                            (ReaperPhase::Waiting, ReaperAction::WaitOnPgrp { pgid: spawned[0] })
                        }
                    },
                }
            },
            (ReaperPhase::Waiting, ReaperEvent::WaitFailed { errno }) => {
                if errno != codes.echild {
                    (
                        ReaperPhase::Failed,
                        ReaperAction::Failed(ReaperFailure::UnexpectedErrno { errno }),
                    )
                } else if waited.len() != num_children {
                    (
                        ReaperPhase::Failed,
                        ReaperAction::Failed(
                            ReaperFailure::WrongCount {
                                reaped: waited.len(),
                                expected: num_children,
                            },
                        ),
                    )
                } else if !same_pids(&spawned, &waited) {
                    (ReaperPhase::Failed, ReaperAction::Failed(ReaperFailure::ReapedOtherPids))
                } else {
                    (ReaperPhase::Done, ReaperAction::Finished)
                }
            },
            _ => (ReaperPhase::Failed, ReaperAction::Failed(ReaperFailure::UnexpectedEvent)),
        };
        *self = PgrpReaper { num_children, codes, spawned, waited, phase };
        action
    }
}

/// The phase and action that follow `phase` on `e` while waiting for the
/// sole child `child`: every reply must be that child's clean exit, and the
/// wait must end with `ECHILD`.
pub open spec fn sole_child_next(
    child: libc::pid_t,
    codes: WaitCodes,
    phase: ReaperPhase,
    e: ReaperEvent,
) -> (ReaperPhase, ReaperAction) {
    match (phase, e) {
        (ReaperPhase::Waiting, ReaperEvent::Reaped(report)) => match report_verdict(
            report,
            Some(child),
            codes,
        ) {
            Err(p) => (ReaperPhase::Failed, ReaperAction::Failed(ReaperFailure::BadReport(p))),
            Ok(_) => (ReaperPhase::Waiting, ReaperAction::WaitOnPid { pid: child }),
        },
        (ReaperPhase::Waiting, ReaperEvent::WaitFailed { errno }) => if errno == codes.echild {
            (ReaperPhase::Done, ReaperAction::Finished)
        } else {
            (ReaperPhase::Failed, ReaperAction::Failed(ReaperFailure::UnexpectedErrno { errno }))
        },
        _ => (ReaperPhase::Failed, ReaperAction::Failed(ReaperFailure::UnexpectedEvent)),
    }
}

/// Waits for a single child that leads its own process group: first on the
/// group, then on the pid, until `waitid` reports that no child is left.
pub struct SoleChildWaiter {
    child: libc::pid_t,
    codes: WaitCodes,
    phase: ReaperPhase,
}

impl SoleChildWaiter {
    /// The child waited for.
    pub closed spec fn child(&self) -> libc::pid_t {
        self.child
    }

    /// The codes replies are judged by.
    pub closed spec fn codes(&self) -> WaitCodes {
        self.codes
    }

    /// Where the wait stands.
    pub closed spec fn spec_phase(&self) -> ReaperPhase {
        self.phase
    }

    /// Starts waiting for `child`; the first action waits on its group.
    pub fn new(child: libc::pid_t, codes: WaitCodes) -> (r: (Self, ReaperAction))
        requires
            child >= 0,
        ensures
            r.0.child() == child,
            r.0.codes() == codes,
            r.0.spec_phase() == ReaperPhase::Waiting,
            r.1 == (ReaperAction::WaitOnPgrp { pgid: child }),
    {
        (SoleChildWaiter { child, codes, phase: ReaperPhase::Waiting }, ReaperAction::WaitOnPgrp {
            pgid: child,
        })
    }

    /// Where the wait stands.
    pub fn phase(&self) -> (p: ReaperPhase)
        ensures
            p == self.spec_phase(),
    {
        self.phase
    }

    /// Takes in what the last wait produced and returns the next action.
    pub fn step(&mut self, event: ReaperEvent) -> (action: ReaperAction)
        ensures
            final(self).child() == old(self).child(),
            final(self).codes() == old(self).codes(),
            (final(self).spec_phase(), action) == sole_child_next(
                old(self).child(),
                old(self).codes(),
                old(self).spec_phase(),
                event,
            ),
            action is Finished ==> event == (ReaperEvent::WaitFailed {
                errno: old(self).codes().echild,
            }),
            action matches ReaperAction::WaitOnPid { pid } ==> pid == old(self).child() && (
            event matches ReaperEvent::Reaped(r) && r.pid == old(self).child() && r.signo == old(
                self,
            ).codes().sigchld && r.code == old(self).codes().cld_exited && r.status == 0),
            event matches ReaperEvent::Reaped(r) && r.status != 0 ==> action is Failed,
    {
        let (phase, action) = match (self.phase, event) {
            (ReaperPhase::Waiting, ReaperEvent::Reaped(report)) => match check_child_report(
                &report,
                Some(self.child),
                &self.codes,
            ) {
                Err(p) => (ReaperPhase::Failed, ReaperAction::Failed(ReaperFailure::BadReport(p))),
                Ok(_) => (ReaperPhase::Waiting, ReaperAction::WaitOnPid { pid: self.child }),
            },
            (ReaperPhase::Waiting, ReaperEvent::WaitFailed { errno }) => if errno
                == self.codes.echild {
                (ReaperPhase::Done, ReaperAction::Finished)
            } else {
                (
                    ReaperPhase::Failed,
                    ReaperAction::Failed(ReaperFailure::UnexpectedErrno { errno }),
                )
            },
            _ => (ReaperPhase::Failed, ReaperAction::Failed(ReaperFailure::UnexpectedEvent)),
        };
        self.phase = phase;
        action
    }
}

/// The state and last action after feeding `events`, in order, to a reaper
/// in state `v`.
pub open spec fn run_reaper(v: ReaperView, events: Seq<ReaperEvent>) -> (ReaperView, ReaperAction)
    decreases events.len(),
{
    if events.len() <= 1 {
        reaper_next(v, events[0])
    } else {
        run_reaper(reaper_next(v, events[0]).0, events.drop_first())
    }
}

/// The events of spawning children with pids `pids`, in that order.
pub open spec fn spawn_events(pids: Seq<libc::pid_t>) -> Seq<ReaperEvent> {
    pids.map_values(|p: libc::pid_t| ReaperEvent::Spawned { pid: p })
}

/// The report `waitid` gives for a child `pid` that exited with code 0.
pub open spec fn clean_exit_report(pid: libc::pid_t, codes: WaitCodes) -> ChildReport {
    ChildReport { pid, signo: codes.sigchld, code: codes.cld_exited, status: 0 }
}

/// The events of reaping the clean exits of `pids`, in that order.
pub open spec fn reap_events(pids: Seq<libc::pid_t>, codes: WaitCodes) -> Seq<ReaperEvent> {
    pids.map_values(|p: libc::pid_t| ReaperEvent::Reaped(clean_exit_report(p, codes)))
}

/// A reaper midway through spawning `pids`: the first `k` are spawned.
pub open spec fn spawning_view(pids: Seq<libc::pid_t>, codes: WaitCodes, k: int) -> ReaperView {
    ReaperView {
        num_children: pids.len(),
        codes,
        spawned: pids.take(k),
        waited: Seq::empty(),
        phase: if k < pids.len() {
            ReaperPhase::Spawning
        } else {
            ReaperPhase::Waiting
        },
    }
}

/// A reaper midway through reaping: the first `j` of `order` are reaped.
pub open spec fn reaping_view(
    pids: Seq<libc::pid_t>,
    order: Seq<libc::pid_t>,
    codes: WaitCodes,
    j: int,
) -> ReaperView {
    ReaperView {
        num_children: pids.len(),
        codes,
        spawned: pids,
        waited: order.take(j),
        phase: ReaperPhase::Waiting,
    }
}

proof fn lemma_run_first(v: ReaperView, events: Seq<ReaperEvent>)
    requires
        events.len() >= 2,
    ensures
        run_reaper(v, events) == run_reaper(reaper_next(v, events[0]).0, events.drop_first()),
{
}

proof fn lemma_spawning_rest(
    pids: Seq<libc::pid_t>,
    codes: WaitCodes,
    k: int,
    rest: Seq<ReaperEvent>,
)
    requires
        pids.len() >= 1,
        pids[0] > 0,
        0 <= k <= pids.len(),
        rest.len() >= 1,
    ensures
        run_reaper(spawning_view(pids, codes, k), spawn_events(pids).skip(k) + rest) == run_reaper(
            spawning_view(pids, codes, pids.len() as int),
            rest,
        ),
    decreases pids.len() - k,
{
    if k < pids.len() {
        let evs = spawn_events(pids).skip(k) + rest;
        assert(evs[0] == ReaperEvent::Spawned { pid: pids[k] });
        assert(evs.drop_first() =~= spawn_events(pids).skip(k + 1) + rest);
        let v = spawning_view(pids, codes, k);
        assert(pids.take(k).push(pids[k]) =~= pids.take(k + 1));
        assert(reaper_next(v, evs[0]).0 == spawning_view(pids, codes, k + 1));
        lemma_run_first(v, evs);
        lemma_spawning_rest(pids, codes, k + 1, rest);
    } else {
        assert(spawn_events(pids).skip(k) + rest =~= rest);
    }
}

proof fn lemma_reaping_rest(
    pids: Seq<libc::pid_t>,
    order: Seq<libc::pid_t>,
    codes: WaitCodes,
    j: int,
    rest: Seq<ReaperEvent>,
)
    requires
        pids.len() >= 1,
        order.len() == pids.len(),
        0 <= j <= order.len(),
        rest.len() >= 1,
    ensures
        run_reaper(reaping_view(pids, order, codes, j), reap_events(order, codes).skip(j) + rest)
            == run_reaper(reaping_view(pids, order, codes, order.len() as int), rest),
    decreases order.len() - j,
{
    if j < order.len() {
        let evs = reap_events(order, codes).skip(j) + rest;
        assert(evs[0] == ReaperEvent::Reaped(clean_exit_report(order[j], codes)));
        assert(evs.drop_first() =~= reap_events(order, codes).skip(j + 1) + rest);
        let v = reaping_view(pids, order, codes, j);
        assert(order.take(j).push(order[j]) =~= order.take(j + 1));
        assert(reaper_next(v, evs[0]).0 == reaping_view(pids, order, codes, j + 1));
        lemma_run_first(v, evs);
        lemma_reaping_rest(pids, order, codes, j + 1, rest);
    } else {
        assert(reap_events(order, codes).skip(j) + rest =~= rest);
    }
}

/// The experiment succeeds when the world behaves as expected: whatever
/// positive pid the leader gets, whatever pids the other children get, and
/// in whatever order `waitid` hands the clean exits of exactly those
/// children back, a run that ends with `ECHILD` finishes with every check
/// passed.
pub proof fn lemma_faithful_run_finishes(
    pids: Seq<libc::pid_t>,
    order: Seq<libc::pid_t>,
    codes: WaitCodes,
)
    requires
        pids.len() >= 1,
        pids[0] > 0,
        order.to_multiset() =~= pids.to_multiset(),
    ensures
        run_reaper(
            initial_view(pids.len(), codes),
            spawn_events(pids) + reap_events(order, codes) + seq![
                ReaperEvent::WaitFailed { errno: codes.echild },
            ],
        ).1 == ReaperAction::Finished,
{
    broadcast use vstd::seq_lib::group_to_multiset_ensures;

    let last = seq![ReaperEvent::WaitFailed { errno: codes.echild }];
    assert(order.len() == pids.len()) by {
        assert(order.to_multiset().len() == pids.to_multiset().len());
    }
    let reaps = reap_events(order, codes) + last;
    assert(spawn_events(pids) + reap_events(order, codes) + last =~= spawn_events(pids).skip(0)
        + reaps);
    assert(initial_view(pids.len(), codes) == spawning_view(pids, codes, 0)) by {
        assert(pids.take(0) =~= Seq::<libc::pid_t>::empty());
    }
    lemma_spawning_rest(pids, codes, 0, reaps);
    assert(pids.take(pids.len() as int) =~= pids);
    assert(order.take(0) =~= Seq::<libc::pid_t>::empty());
    assert(spawning_view(pids, codes, pids.len() as int) == reaping_view(pids, order, codes, 0));
    assert(reaps =~= reap_events(order, codes).skip(0) + last);
    lemma_reaping_rest(pids, order, codes, 0, last);
    assert(order.take(order.len() as int) =~= order);
}

/// The grandchild exits with a failure code, so a wait that reaped it could
/// not go unnoticed: while waiting, a report of that exit fails the run.
pub proof fn lemma_grandchild_exit_rejected(v: ReaperView, pid: libc::pid_t)
    requires
        v.phase == ReaperPhase::Waiting,
    ensures
        reaper_next(
            v,
            ReaperEvent::Reaped(
                ChildReport {
                    pid,
                    signo: v.codes.sigchld,
                    code: v.codes.cld_exited,
                    status: crate::spawn::GRANDCHILD_EXIT_CODE,
                },
            ),
        ).1 == ReaperAction::Failed(
            ReaperFailure::BadReport(
                ReportProblem::NonzeroStatus { status: crate::spawn::GRANDCHILD_EXIT_CODE },
            ),
        ),
{
}

/// A reply passes exactly when it is about the expected process (if one is
/// expected), carries `SIGCHLD`, says `CLD_EXITED` and has exit code 0; a
/// reply about another process is named as such.
pub proof fn lemma_report_acceptance(
    report: ChildReport,
    expected_pid: Option<libc::pid_t>,
    codes: WaitCodes,
)
    ensures
        report_verdict(report, expected_pid, codes) is Ok <==> ((expected_pid matches Some(p)
            ==> report.pid == p) && report.signo == codes.sigchld && report.code
            == codes.cld_exited && report.status == 0),
        expected_pid matches Some(p) && report.pid != p ==> report_verdict(
            report,
            expected_pid,
            codes,
        ) == Err::<(), ReportProblem>(ReportProblem::WrongPid { found: report.pid }),
        (expected_pid matches Some(p) ==> report.pid == p) && report.signo != codes.sigchld
            ==> report_verdict(report, expected_pid, codes) == Err::<(), ReportProblem>(
            ReportProblem::NotSigchld { signo: report.signo },
        ),
        (expected_pid matches Some(p) ==> report.pid == p) && report.signo == codes.sigchld
            && report.code != codes.cld_exited ==> report_verdict(report, expected_pid, codes)
            == Err::<(), ReportProblem>(ReportProblem::NotExited { code: report.code }),
        (expected_pid matches Some(p) ==> report.pid == p) && report.signo == codes.sigchld
            && report.code == codes.cld_exited && report.status != 0 ==> report_verdict(
            report,
            expected_pid,
            codes,
        ) == Err::<(), ReportProblem>(ReportProblem::NonzeroStatus { status: report.status }),
{
}

/// The group experiment is declared successful only in answer to a wait
/// that failed with `ECHILD`, while waiting, after exactly `num_children`
/// replies whose pids are the spawned pids; any other errno while waiting
/// fails it, naming that errno.
pub proof fn lemma_reaper_finishes_only_on_echild(v: ReaperView, e: ReaperEvent)
    ensures
        reaper_next(v, e).1 is Finished ==> v.phase == ReaperPhase::Waiting && e
            == (ReaperEvent::WaitFailed { errno: v.codes.echild }) && v.waited.len()
            == v.num_children && v.waited.to_multiset() == v.spawned.to_multiset()
            && reaper_next(v, e).0 == (ReaperView { phase: ReaperPhase::Done, ..v }),
        e is WaitFailed && e->errno != v.codes.echild && v.phase == ReaperPhase::Waiting
            ==> reaper_next(v, e).1 == ReaperAction::Failed(
            ReaperFailure::UnexpectedErrno { errno: e->errno },
        ),
{
}

/// While waiting, a reply is taken (its pid recorded, the wait repeated on
/// the leader's group) exactly when it is a clean exit and fewer than
/// `num_children` replies were taken before; otherwise the run fails.
pub proof fn lemma_reaper_takes_only_clean_exits(v: ReaperView, r: ChildReport)
    requires
        v.phase == ReaperPhase::Waiting,
    ensures
        ({
            let (w, a) = reaper_next(v, ReaperEvent::Reaped(r));
            let clean = r.signo == v.codes.sigchld && r.code == v.codes.cld_exited && r.status
                == 0;
            &&& clean && v.waited.len() < v.num_children ==> a == (ReaperAction::WaitOnPgrp {
                pgid: v.spawned[0],
            }) && w == (ReaperView { waited: v.waited.push(r.pid), ..v })
            &&& !(clean && v.waited.len() < v.num_children) ==> a is Failed && w.phase
                == ReaperPhase::Failed
            &&& r.status != 0 ==> a is Failed
        }),
{
}

/// While spawning, every child after the leader joins the leader's group
/// without a grandchild, its pid is recorded, and once `num_children` are
/// spawned the wait starts on the leader's group; a leader without a
/// positive pid fails the run.
pub proof fn lemma_reaper_spawns_into_leader_group(v: ReaperView, pid: libc::pid_t)
    requires
        v.phase == ReaperPhase::Spawning,
    ensures
        ({
            let (w, a) = reaper_next(v, ReaperEvent::Spawned { pid });
            let s = v.spawned.push(pid);
            &&& v.spawned.len() == 0 && pid <= 0 ==> a == ReaperAction::Failed(
                ReaperFailure::LeaderPidNotPositive { pid },
            )
            &&& !(v.spawned.len() == 0 && pid <= 0) ==> w.spawned == s && w.waited == v.waited
                && w.num_children == v.num_children
            &&& !(v.spawned.len() == 0 && pid <= 0) && s.len() < v.num_children ==> a
                == (ReaperAction::Spawn {
                pgrp_state: DesiredPgrpState::NonLeaderMemberOf { pgid: s[0] },
                spawn_shortlived_grandchild: false,
            })
            &&& !(v.spawned.len() == 0 && pid <= 0) && s.len() >= v.num_children ==> a
                == (ReaperAction::WaitOnPgrp { pgid: s[0] }) && w.phase == ReaperPhase::Waiting
        }),
{
}

/// When the wait ends with `ECHILD`, the run finishes exactly when it took
/// `num_children` replies whose pids are the spawned pids; a short count is
/// reported with both numbers, and a full count of other pids as such. A
/// clean reply beyond `num_children` is reported with its pid. Events that
/// do not answer the last action fail the run.
pub proof fn lemma_reaper_end_of_wait(v: ReaperView, e: ReaperEvent)
    ensures
        v.phase == ReaperPhase::Waiting && e == (ReaperEvent::WaitFailed { errno: v.codes.echild })
            ==> {
            let a = reaper_next(v, e).1;
            &&& v.waited.len() != v.num_children ==> a == ReaperAction::Failed(
                ReaperFailure::WrongCount {
                    reaped: v.waited.len() as usize,
                    expected: v.num_children as usize,
                },
            )
            &&& v.waited.len() == v.num_children && v.waited.to_multiset()
                != v.spawned.to_multiset() ==> a == ReaperAction::Failed(
                ReaperFailure::ReapedOtherPids,
            )
            &&& v.waited.len() == v.num_children && v.waited.to_multiset()
                == v.spawned.to_multiset() ==> a == ReaperAction::Finished
        },
        v.phase == ReaperPhase::Waiting && e is Reaped && e->0.signo == v.codes.sigchld
            && e->0.code == v.codes.cld_exited && e->0.status == 0 && v.waited.len()
            >= v.num_children ==> reaper_next(v, e).1 == ReaperAction::Failed(
            ReaperFailure::TooManyReaped { pid: e->0.pid },
        ),
        (v.phase == ReaperPhase::Done || v.phase == ReaperPhase::Failed || (v.phase
            == ReaperPhase::Spawning && !(e is Spawned)) || (v.phase == ReaperPhase::Waiting
            && e is Spawned)) ==> reaper_next(v, e) == (
            ReaperView { phase: ReaperPhase::Failed, ..v },
            ReaperAction::Failed(ReaperFailure::UnexpectedEvent),
        ),
{
    broadcast use vstd::seq_lib::group_to_multiset_ensures;
}

/// Waiting for the sole child goes on (on its pid) only after a clean exit
/// of that very child; any other reply fails the wait; the wait is over
/// with success only on `ECHILD`, and any other errno fails it.
pub proof fn lemma_sole_child_waits_only_on_clean_exit(
    child: libc::pid_t,
    codes: WaitCodes,
    phase: ReaperPhase,
    e: ReaperEvent,
)
    ensures
        ({
            let (p, a) = sole_child_next(child, codes, phase, e);
            let clean_child_exit = e is Reaped && e->0.pid == child && e->0.signo == codes.sigchld
                && e->0.code == codes.cld_exited && e->0.status == 0;
            &&& a is WaitOnPid ==> a->pid == child && phase == ReaperPhase::Waiting && p
                == ReaperPhase::Waiting && clean_child_exit
            &&& phase == ReaperPhase::Waiting && e is Reaped && !clean_child_exit ==> a is Failed
                && p == ReaperPhase::Failed
            &&& phase == ReaperPhase::Waiting && clean_child_exit ==> a == (ReaperAction::WaitOnPid {
                pid: child,
            })
            &&& a is Finished ==> phase == ReaperPhase::Waiting && e == (ReaperEvent::WaitFailed {
                errno: codes.echild,
            }) && p == ReaperPhase::Done
            &&& phase == ReaperPhase::Waiting && e is WaitFailed && e->errno != codes.echild ==> a
                == ReaperAction::Failed(ReaperFailure::UnexpectedErrno { errno: e->errno })
        }),
{
}

} // verus!
