use vstd::prelude::*;

verus! {

/// The descriptor at which the mapped-copy experiment expects its input file.
pub const MAPPED_INPUT_FD: libc::c_int = 3;

/// The descriptor the mapped-copy experiment writes the file's bytes to.
pub const MAPPED_OUTPUT_FD: libc::c_int = 1;

/// What the mapped-copy experiment does once `fstat` on its input descriptor
/// has answered.
#[derive(PartialEq, Eq, Structural, Debug, Clone, Copy)]
pub enum MappedCopyPlan {
    /// Map the file open at `from_fd` and write it whole to `to_fd`, then
    /// exit with success.
    CopyMappedFile { from_fd: libc::c_int, to_fd: libc::c_int },
    /// No file is open at the input descriptor: explain, exit with failure.
    ReportMissingInput,
}

/// Decides on the mapped copy from the return value of `fstat` on the input
/// descriptor: -1 means that nothing is open there.
pub fn mapped_copy_plan(fstat_ret: libc::c_int) -> (plan: MappedCopyPlan)
    ensures
        fstat_ret == -1 ==> plan == MappedCopyPlan::ReportMissingInput,
        fstat_ret != -1 ==> plan == (MappedCopyPlan::CopyMappedFile {
            from_fd: MAPPED_INPUT_FD,
            to_fd: MAPPED_OUTPUT_FD,
        }),
{
    if fstat_ret == -1 {
        MappedCopyPlan::ReportMissingInput
    } else {
        MappedCopyPlan::CopyMappedFile { from_fd: MAPPED_INPUT_FD, to_fd: MAPPED_OUTPUT_FD }
    }
}

/// How a `write` to standard input turned out, when standard input was
/// redirected from a file opened for reading only.
#[derive(PartialEq, Eq, Structural, Debug, Clone, Copy)]
pub enum StdinWriteVerdict {
    /// The write went through: the shell opened standard input writable, or
    /// no redirection took place. The experiment fails.
    WroteToStdin { bytes: usize },
    /// The write was refused with `EBADF`, as expected. The experiment passes.
    RefusedWithEbadf,
    /// The write was refused with another errno, which is not expected.
    RefusedWithOtherErrno { errno: libc::c_int },
}

/// Judges the result of writing to descriptor 0: `Ok` with the byte count,
/// or `Err` with the errno; `ebadf` is the platform's `EBADF`.
pub fn stdin_write_verdict(result: Result<usize, libc::c_int>, ebadf: libc::c_int) -> (v:
    StdinWriteVerdict)
    ensures
        v == match result {
            Ok(bytes) => StdinWriteVerdict::WroteToStdin { bytes },
            Err(errno) => if errno == ebadf {
                StdinWriteVerdict::RefusedWithEbadf
            } else {
                StdinWriteVerdict::RefusedWithOtherErrno { errno }
            },
        },
{
    match result {
        Ok(bytes) => StdinWriteVerdict::WroteToStdin { bytes },
        Err(errno) => if errno == ebadf {
            StdinWriteVerdict::RefusedWithEbadf
        } else {
            StdinWriteVerdict::RefusedWithOtherErrno { errno }
        },
    }
}

/// The limits on the number of open file descriptors of this process.
#[derive(PartialEq, Eq, Structural, Debug, Clone, Copy)]
pub struct OpenFdsLimits {
    /// The soft limit, which the process may change.
    pub soft: u64,
    /// The hard limit, which an unprivileged process can only lower.
    pub hard: u64,
}

/// The limits reported by `getrlimit64(RLIMIT_NOFILE, ..)`, which returned
/// `ret` and filled in `rlim_cur` and `rlim_max`. The call must have
/// succeeded (returned 0): otherwise the fields hold no limits.
pub fn open_fds_limits_from_getrlimit(ret: libc::c_int, rlim_cur: u64, rlim_max: u64) -> (r:
    OpenFdsLimits)
    requires
        ret == 0,
    ensures
        r == (OpenFdsLimits { soft: rlim_cur, hard: rlim_max }),
{
    OpenFdsLimits { soft: rlim_cur, hard: rlim_max }
}

} // verus!
