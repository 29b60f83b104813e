use vstd::prelude::*;

verus! {

/// The low seven bits of a status word: 0 for a normal exit, the signal number
/// for a death by signal, 0x7f for a stop.
pub open spec fn low_bits(status: libc::c_int) -> libc::c_int {
    status & 0x7f
}

/// `WIFEXITED` as the Linux branch of libc computes it.
pub open spec fn spec_exited(status: libc::c_int) -> bool {
    low_bits(status) == 0
}

/// `WIFSIGNALED` as the Linux branch of libc computes it: the low seven bits
/// name a signal (neither 0, a normal exit, nor 0x7f, a stop).
pub open spec fn spec_signaled(status: libc::c_int) -> bool {
    1 <= low_bits(status) && low_bits(status) <= 126
}

/// `WTERMSIG` as the Linux branch of libc computes it.
pub open spec fn spec_term_signal(status: libc::c_int) -> libc::c_int {
    status & 0x7f
}

/// `WEXITSTATUS` as the Linux branch of libc computes it.
pub open spec fn spec_exit_status(status: libc::c_int) -> libc::c_int {
    (status >> 8) & 0xff
}

/// Calls `libc::WIFEXITED`. Its Linux definition is `(status & 0x7f) == 0`;
/// the contract states exactly that.
#[verifier::external_body]
fn wifexited(status: libc::c_int) -> (r: bool)
    ensures
        r == spec_exited(status),
{
    libc::WIFEXITED(status)
}

/// Calls `libc::WIFSIGNALED`. Its Linux definition is
/// `((status & 0x7f) + 1) as i8 >= 2`, which holds exactly when the low seven
/// bits lie in 1..=126; the contract states that range.
#[verifier::external_body]
fn wifsignaled(status: libc::c_int) -> (r: bool)
    ensures
        r == spec_signaled(status),
{
    libc::WIFSIGNALED(status)
}

/// Calls `libc::WTERMSIG`. Its Linux definition is `status & 0x7f`; the
/// contract states exactly that.
#[verifier::external_body]
fn wtermsig(status: libc::c_int) -> (r: libc::c_int)
    ensures
        r == spec_term_signal(status),
{
    libc::WTERMSIG(status)
}

/// Calls `libc::WEXITSTATUS`. Its Linux definition is `(status >> 8) & 0xff`;
/// the contract states exactly that.
#[verifier::external_body]
fn wexitstatus(status: libc::c_int) -> (r: libc::c_int)
    ensures
        r == spec_exit_status(status),
{
    libc::WEXITSTATUS(status)
}

/// The exit status that a POSIX shell such as bash reports in `$?` for a
/// command killed by signal `signal`: 128 plus the signal number.
pub open spec fn spec_shell_exit_status_for_signal(signal: int) -> int {
    128 + signal
}

/// The exit status that bash (and, by POSIX, any shell: it must exceed 128)
/// reports for a command killed by `signal`.
pub fn shell_exit_status_for_signal(signal: libc::c_int) -> (code: libc::c_int)
    requires
        signal <= i32::MAX - 128,
    ensures
        code == spec_shell_exit_status_for_signal(signal as int),
{
    128 + signal
}

/// Why a wait status does not describe a death by the expected signal; the
/// variants come in the order in which the checks are made.
#[derive(PartialEq, Eq, Structural, Debug, Clone, Copy)]
pub enum TerminationMismatch {
    /// `WIFEXITED` holds: the child exited normally.
    ExitedNormally,
    /// Neither `WIFEXITED` nor `WIFSIGNALED` holds (a stop or continue word).
    NotSignaled,
    /// The child died by signal `found`, not the expected one.
    WrongSignal { found: libc::c_int },
    /// `WEXITSTATUS` of the word equals the shell's status for the signal.
    ExitStatusEqualsShellStatus,
}

/// The verdict on wait status `status` when the child was expected to die by
/// `signal`: each check in turn, the first that fails decides.
pub open spec fn termination_verdict(status: libc::c_int, signal: libc::c_int) -> Result<
    (),
    TerminationMismatch,
> {
    if spec_exited(status) {
        Err(TerminationMismatch::ExitedNormally)
    } else if !spec_signaled(status) {
        Err(TerminationMismatch::NotSignaled)
    } else if spec_term_signal(status) != signal {
        Err(TerminationMismatch::WrongSignal { found: spec_term_signal(status) })
    } else if spec_exit_status(status) == spec_shell_exit_status_for_signal(signal as int) {
        Err(TerminationMismatch::ExitStatusEqualsShellStatus)
    } else {
        Ok(())
    }
}

/// Checks that `status`, as filled in by `waitpid`, reports a child killed by
/// `signal`, and that `WEXITSTATUS` does not pretend to be the shell's `$?`.
pub fn check_signal_termination(status: libc::c_int, signal: libc::c_int) -> (r: Result<
    (),
    TerminationMismatch,
>)
    requires
        signal <= i32::MAX - 128,
    ensures
        r == termination_verdict(status, signal),
        r is Ok ==> spec_shell_exit_status_for_signal(spec_term_signal(status) as int)
            == spec_shell_exit_status_for_signal(signal as int),
{
    if wifexited(status) {
        return Err(TerminationMismatch::ExitedNormally);
    }
    if !wifsignaled(status) {
        return Err(TerminationMismatch::NotSignaled);
    }
    let found = wtermsig(status);
    if found != signal {
        return Err(TerminationMismatch::WrongSignal { found });
    }
    let expected = shell_exit_status_for_signal(signal);
    if wexitstatus(status) == expected {
        return Err(TerminationMismatch::ExitStatusEqualsShellStatus);
    }
    Ok(())
}

/// The status word the kernel reports for a child killed by `signal`, with
/// the core-dump flag (0x80) set when `core_dumped`.
pub open spec fn signal_death_status(signal: libc::c_int, core_dumped: bool) -> libc::c_int {
    if core_dumped {
        signal | 0x80
    } else {
        signal
    }
}

/// The status word the kernel reports for a child that exited with `code`.
pub open spec fn normal_exit_status(code: libc::c_int) -> libc::c_int {
    code << 8
}

/// A child killed by any signal 1..=126, with or without a core dump, passes
/// the check for that signal: it is not seen as exited, it is seen as
/// signalled by that very signal, and `WEXITSTATUS` of its word is not the
/// shell's `128 + signal`.
pub proof fn lemma_signal_death_passes_check(signal: libc::c_int, core_dumped: bool)
    requires
        1 <= signal <= 126,
    ensures
        termination_verdict(signal_death_status(signal, core_dumped), signal) == Ok::<
            (),
            TerminationMismatch,
        >(()),
        spec_exit_status(signal_death_status(signal, core_dumped)) == 0,
{
    let s = signal_death_status(signal, core_dumped);
    assert(s & 0x7f == signal && (s >> 8) & 0xff == 0) by (bit_vector)
        requires
            1 <= signal <= 126,
            s == signal | 0x80 || s == signal,
    ;
}

/// A child that exited normally with `code` is decoded as exited with that
/// code, is not seen as signalled, and fails the signal check as exited.
pub proof fn lemma_normal_exit_decodes(code: libc::c_int, signal: libc::c_int)
    requires
        0 <= code <= 255,
    ensures
        spec_exited(normal_exit_status(code)),
        !spec_signaled(normal_exit_status(code)),
        spec_exit_status(normal_exit_status(code)) == code,
        termination_verdict(normal_exit_status(code), signal) == Err::<(), TerminationMismatch>(
            TerminationMismatch::ExitedNormally,
        ),
{
    let s = normal_exit_status(code);
    assert(s & 0x7f == 0 && (s >> 8) & 0xff == code) by (bit_vector)
        requires
            0 <= code <= 255,
            s == code << 8,
    ;
}

/// The shell's status for a death by signal 1..=127 is a valid exit code
/// (at most 255) and is exactly what a normal exit with code `128 + signal`
/// reports, so `$?` cannot tell the two apart; it always exceeds 128.
pub proof fn lemma_shell_status_collides_with_exit_code(signal: libc::c_int)
    requires
        1 <= signal <= 127,
    ensures
        128 < spec_shell_exit_status_for_signal(signal as int) <= 255,
        spec_exited(normal_exit_status((128 + signal) as libc::c_int)),
        spec_exit_status(normal_exit_status((128 + signal) as libc::c_int))
            == spec_shell_exit_status_for_signal(signal as int),
{
    lemma_normal_exit_decodes((128 + signal) as libc::c_int, signal);
}

/// The check passes exactly when the low seven bits of the word name
/// `signal` (a number in 1..=126) and the exit-status byte is not
/// `128 + signal`; a word whose low bits are 0 is a normal exit; a word
/// whose low bits name another signal reports that signal.
pub proof fn lemma_termination_verdict_by_bits(status: libc::c_int, signal: libc::c_int)
    ensures
        termination_verdict(status, signal) is Ok <==> (1 <= (status & 0x7f) <= 126 && (status
            & 0x7f) == signal && ((status >> 8) & 0xff) != 128 + signal),
        (status & 0x7f) == 0 ==> termination_verdict(status, signal) == Err::<
            (),
            TerminationMismatch,
        >(TerminationMismatch::ExitedNormally),
        1 <= (status & 0x7f) <= 126 && (status & 0x7f) != signal ==> termination_verdict(
            status,
            signal,
        ) == Err::<(), TerminationMismatch>(
            TerminationMismatch::WrongSignal { found: status & 0x7f },
        ),
        1 <= (status & 0x7f) <= 126 && (status & 0x7f) == signal && ((status >> 8) & 0xff) == 128
            + signal ==> termination_verdict(status, signal) == Err::<(), TerminationMismatch>(
            TerminationMismatch::ExitStatusEqualsShellStatus,
        ),
        (status & 0x7f) == 0x7f ==> termination_verdict(status, signal) == Err::<
            (),
            TerminationMismatch,
        >(TerminationMismatch::NotSignaled),
{
}

} // verus!
