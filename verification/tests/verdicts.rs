use unix_experiments::pgrp::DesiredPgrpState;
use unix_experiments::verdicts::{
    mapped_copy_plan, open_fds_limits_from_getrlimit, stdin_write_verdict, MappedCopyPlan,
    OpenFdsLimits, StdinWriteVerdict,
};

#[test]
fn missing_input_is_reported() {
    assert_eq!(mapped_copy_plan(-1), MappedCopyPlan::ReportMissingInput);
}

#[test]
fn present_input_is_copied_from_fd_3_to_fd_1() {
    assert_eq!(mapped_copy_plan(0), MappedCopyPlan::CopyMappedFile { from_fd: 3, to_fd: 1 });
}

#[test]
fn stdin_write_verdicts() {
    let ebadf = libc::EBADF;
    assert_eq!(stdin_write_verdict(Ok(113), ebadf), StdinWriteVerdict::WroteToStdin { bytes: 113 });
    assert_eq!(stdin_write_verdict(Err(ebadf), ebadf), StdinWriteVerdict::RefusedWithEbadf);
    assert_eq!(
        stdin_write_verdict(Err(libc::EIO), ebadf),
        StdinWriteVerdict::RefusedWithOtherErrno { errno: libc::EIO }
    );
}

#[test]
fn getrlimit_results() {
    assert_eq!(
        open_fds_limits_from_getrlimit(0, 1024, 524288),
        OpenFdsLimits { soft: 1024, hard: 524288 }
    );
}

#[test]
fn pgrp_arguments() {
    let s = DesiredPgrpState::non_leader_member_of(4242);
    assert_eq!(s, DesiredPgrpState::NonLeaderMemberOf { pgid: 4242 });
    assert_eq!(s.pgid_arg(), 4242);
    assert_eq!(DesiredPgrpState::Leader.pgid_arg(), 0);
}
