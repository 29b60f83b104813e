use vstd::prelude::*;

verus! {

/// Where a freshly spawned child should end up in the process-group hierarchy.
#[derive(PartialEq, Eq, Structural, Debug, Clone, Copy)]
pub enum DesiredPgrpState {
    /// Join the existing process group `pgid` without leading it.
    NonLeaderMemberOf { pgid: libc::pid_t },
    /// Become the leader of a new process group whose id is the child's pid.
    Leader,
}

impl DesiredPgrpState {
    /// A state that places the child in the existing group `pgid`.
    pub fn non_leader_member_of(pgid: libc::pid_t) -> (s: Self)
        requires
            pgid > 0,
        ensures
            s == (DesiredPgrpState::NonLeaderMemberOf { pgid }),
    {
        DesiredPgrpState::NonLeaderMemberOf { pgid: pgid }
    }

    /// The `pgid` argument that `setpgid` receives for this state.
    pub open spec fn spec_pgid_arg(self) -> libc::pid_t {
        match self {
            DesiredPgrpState::NonLeaderMemberOf { pgid } => pgid,
            DesiredPgrpState::Leader => 0,
        }
    }

    /// The `pgid` argument handed to `setpgid`: the group to join, or 0, which
    /// makes the process the leader of a group named after its own pid.
    pub fn pgid_arg(&self) -> (arg: libc::pid_t)
        ensures
            arg == self.spec_pgid_arg(),
            *self matches DesiredPgrpState::NonLeaderMemberOf { pgid } ==> arg == pgid,
            *self is Leader ==> arg == 0,
    {
        match self {
            DesiredPgrpState::NonLeaderMemberOf { pgid } => *pgid,
            DesiredPgrpState::Leader => 0,
        }
    }
}

/// `setpgid` receives the requested group unchanged for a non-leader
/// member, and 0 (a new group named after the caller) for a leader.
pub proof fn lemma_pgid_arg_is_requested_group(state: DesiredPgrpState)
    ensures
        state matches DesiredPgrpState::NonLeaderMemberOf { pgid } ==> state.spec_pgid_arg()
            == pgid,
        state is Leader ==> state.spec_pgid_arg() == 0,
{
}

} // verus!
