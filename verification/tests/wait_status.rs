use unix_experiments::wait_status::{
    check_signal_termination, shell_exit_status_for_signal, TerminationMismatch,
};

const SIGINT: i32 = 2;
const SIGTERM: i32 = 15;

#[test]
fn sigint_death_passes_check() {
    // A child killed by SIGINT is reported with status word 2.
    assert_eq!(check_signal_termination(SIGINT, SIGINT), Ok(()));
}

#[test]
fn sigint_death_with_core_dump_passes_check() {
    assert_eq!(check_signal_termination(SIGINT | 0x80, SIGINT), Ok(()));
}

#[test]
fn shell_status_for_sigint_is_130() {
    assert_eq!(shell_exit_status_for_signal(SIGINT), 130);
    assert_eq!(shell_exit_status_for_signal(SIGTERM), 143);
}

#[test]
fn normal_exit_is_reported_as_exited() {
    assert_eq!(check_signal_termination(0, SIGINT), Err(TerminationMismatch::ExitedNormally));
    // exit(130) looks, to the shell, like a death by SIGINT, but not to WIFEXITED.
    assert_eq!(check_signal_termination(130 << 8, SIGINT), Err(TerminationMismatch::ExitedNormally));
}

#[test]
fn stop_and_continue_words_are_not_signal_deaths() {
    // Stopped by SIGSTOP (19): low byte 0x7f.
    assert_eq!(check_signal_termination((19 << 8) | 0x7f, SIGINT), Err(TerminationMismatch::NotSignaled));
    // WIFCONTINUED word.
    assert_eq!(check_signal_termination(0xffff, SIGINT), Err(TerminationMismatch::NotSignaled));
}

#[test]
fn other_signal_is_named() {
    assert_eq!(
        check_signal_termination(SIGTERM, SIGINT),
        Err(TerminationMismatch::WrongSignal { found: SIGTERM })
    );
    assert_eq!(
        check_signal_termination(SIGTERM | 0x80, SIGINT),
        Err(TerminationMismatch::WrongSignal { found: SIGTERM })
    );
}

#[test]
fn exit_status_bits_equal_to_shell_status_are_caught() {
    // Low bits say SIGINT, the exit-status byte says 130.
    assert_eq!(
        check_signal_termination((130 << 8) | SIGINT, SIGINT),
        Err(TerminationMismatch::ExitStatusEqualsShellStatus)
    );
    // Another value in the exit-status byte is not a problem.
    assert_eq!(check_signal_termination((7 << 8) | SIGINT, SIGINT), Ok(()));
}

#[test]
fn status_words_agree_with_libc_decoding() {
    for status in [0, 2, 0x82, 0x7f, 0xffff, 130 << 8, (130 << 8) | 2, 15, 126, 127, 1] {
        let expected = if libc::WIFEXITED(status) {
            Err(TerminationMismatch::ExitedNormally)
        } else if !libc::WIFSIGNALED(status) {
            Err(TerminationMismatch::NotSignaled)
        } else if libc::WTERMSIG(status) != SIGINT {
            Err(TerminationMismatch::WrongSignal { found: libc::WTERMSIG(status) })
        } else if libc::WEXITSTATUS(status) == 128 + SIGINT {
            Err(TerminationMismatch::ExitStatusEqualsShellStatus)
        } else {
            Ok(())
        };
        assert_eq!(check_signal_termination(status, SIGINT), expected);
    }
}

#[test]
fn shell_status_of_signal_death_collides_with_an_exit_code() {
    for signal in 1..=127 {
        let code = shell_exit_status_for_signal(signal);
        assert!(code > 128 && code <= 255);
        let exit_word = code << 8;
        assert!(libc::WIFEXITED(exit_word));
        assert_eq!(libc::WEXITSTATUS(exit_word), code);
    }
}
