use run_editor::bytes::{bytes_eq, push_decimal, push_str, to_vec};
use run_editor::error::{Inner, OsError, Termination, EISDIR};
use run_editor::imp::editor_outcome;
use run_editor::Error;

fn check(editor: &str, want: Result<(), &'static str>, status: Termination) {
    let got = editor_outcome(editor.as_bytes().to_vec(), Ok(status)).map_err(|err| err.message());
    let got = if let Err(err) = &got { Err(err.as_str()) } else { Ok(()) };
    assert_eq!(want, got)
}

#[test]
fn test_editor_failure() {
    check("true", Ok(()), Termination::Exited { code: 0 });
    check(
        "false",
        Err("false: terminated with exit status: 1"),
        Termination::Exited { code: 1 },
    );
    check(
        "sleep",
        Err("sleep: terminated by signal: 9 (SIGKILL)"),
        Termination::Signaled { signal: 9, core_dumped: false },
    );
}

#[test]
fn exit_statuses_are_written_in_decimal() {
    check("e", Err("e: terminated with exit status: 2"), Termination::Exited { code: 2 });
    check("e", Err("e: terminated with exit status: 10"), Termination::Exited { code: 10 });
    check("e", Err("e: terminated with exit status: 127"), Termination::Exited { code: 127 });
    check("e", Err("e: terminated with exit status: 255"), Termination::Exited { code: 255 });
    check("e", Err("e: terminated with exit status: -1"), Termination::Exited { code: -1 });
    check(
        "e",
        Err("e: terminated with exit status: 2147483647"),
        Termination::Exited { code: i32::MAX },
    );
    check(
        "e",
        Err("e: terminated with exit status: -2147483648"),
        Termination::Exited { code: i32::MIN },
    );
}

#[test]
fn signals_are_named_where_they_have_a_name() {
    let signaled = |signal| Termination::Signaled { signal, core_dumped: false };
    check("e", Err("e: terminated by signal: 1 (SIGHUP)"), signaled(1));
    check("e", Err("e: terminated by signal: 2 (SIGINT)"), signaled(2));
    check("e", Err("e: terminated by signal: 15 (SIGTERM)"), signaled(15));
    check("e", Err("e: terminated by signal: 31 (SIGSYS)"), signaled(31));
    check("e", Err("e: terminated by signal: 0"), signaled(0));
    check("e", Err("e: terminated by signal: 32"), signaled(32));
    check("e", Err("e: terminated by signal: 64"), signaled(64));
    check("e", Err("e: terminated by signal: -3"), signaled(-3));
}

#[test]
fn every_signal_name() {
    let names = [
        "SIGHUP", "SIGINT", "SIGQUIT", "SIGILL", "SIGTRAP", "SIGABRT", "SIGBUS", "SIGFPE",
        "SIGKILL", "SIGUSR1", "SIGSEGV", "SIGUSR2", "SIGPIPE", "SIGALRM", "SIGTERM", "SIGSTKFLT",
        "SIGCHLD", "SIGCONT", "SIGSTOP", "SIGTSTP", "SIGTTIN", "SIGTTOU", "SIGURG", "SIGXCPU",
        "SIGXFSZ", "SIGVTALRM", "SIGPROF", "SIGWINCH", "SIGIO", "SIGPWR", "SIGSYS",
    ];
    for (index, name) in names.iter().enumerate() {
        let status = Termination::Signaled { signal: index as i32 + 1, core_dumped: false };
        assert_eq!(status.signal_name(), Some(*name));
    }
    let unnamed = Termination::Signaled { signal: 40, core_dumped: false };
    assert_eq!(unnamed.signal_name(), None);
    assert_eq!(Termination::Exited { code: 9 }.signal_name(), None);
}

#[test]
fn a_core_dump_is_mentioned() {
    check(
        "e",
        Err("e: terminated by signal: 11 (SIGSEGV) (core dumped)"),
        Termination::Signaled { signal: 11, core_dumped: true },
    );
    check(
        "e",
        Err("e: terminated by signal: 33 (core dumped)"),
        Termination::Signaled { signal: 33, core_dumped: true },
    );
}

#[test]
fn only_exit_status_0_is_success() {
    assert!(Termination::Exited { code: 0 }.success());
    assert!(!Termination::Exited { code: 1 }.success());
    assert!(!Termination::Exited { code: -1 }.success());
    assert!(!Termination::Signaled { signal: 0, core_dumped: false }.success());
    assert!(!Termination::Signaled { signal: 9, core_dumped: false }.success());
}

#[test]
fn editor_failure_carries_command_and_status() {
    let status = Termination::Exited { code: 3 };
    let err = editor_outcome(b"nano -w".to_vec(), Ok(status)).unwrap_err();
    assert_eq!(err.0, Inner::EditorError { editor: b"nano -w".to_vec(), status });
    assert_eq!(err, Error::editor(b"nano -w".to_vec(), status));
}

#[test]
fn spawn_failure_message() {
    let os = OsError { code: Some(2), message: b"No such file or directory (os error 2)".to_vec() };
    let err = editor_outcome(b"vi".to_vec(), Err(os.clone())).unwrap_err();
    assert_eq!(err.0, Inner::CmdError { error: os.clone() });
    assert_eq!(err, Error::spawn(os));
    assert_eq!(err.message(), "sh: No such file or directory (os error 2)");
}

#[test]
fn path_failure_message() {
    let os = OsError { code: Some(13), message: b"Permission denied (os error 13)".to_vec() };
    let err = Error::path(b"/etc/shadow".to_vec(), os.clone());
    assert_eq!(err.0, Inner::PathError { path: b"/etc/shadow".to_vec(), error: os });
    assert_eq!(err.message(), "/etc/shadow: Permission denied (os error 13)");
    assert_eq!(err.to_bytes(), b"/etc/shadow: Permission denied (os error 13)");
}

#[test]
fn path_failure_without_a_number() {
    let os = OsError { code: None, message: b"failed to fill whole buffer".to_vec() };
    let err = Error::path(b"".to_vec(), os);
    assert_eq!(err.message(), ": failed to fill whole buffer");
}

#[test]
fn is_a_directory_error() {
    let os = OsError::is_a_directory();
    assert_eq!(EISDIR, 21);
    assert_eq!(os.code, Some(21));
    assert_eq!(os.message, b"Is a directory (os error 21)");
    assert_eq!(Error::path(b"/".to_vec(), os).message(), "/: Is a directory (os error 21)");
}

#[test]
fn message_keeps_utf8_and_replaces_what_is_not() {
    let status = Termination::Exited { code: 1 };
    let err = Error::editor("éditeur ✎".as_bytes().to_vec(), status);
    assert_eq!(err.message(), "éditeur ✎: terminated with exit status: 1");

    let err = Error::editor(b"ed\xffit\xc3".to_vec(), status);
    assert_eq!(err.to_bytes(), b"ed\xffit\xc3: terminated with exit status: 1");
    assert_eq!(err.message(), "ed\u{fffd}it\u{fffd}: terminated with exit status: 1");
}

#[test]
fn decimal_rendering() {
    for (n, want) in [
        (0, "0"),
        (7, "7"),
        (9, "9"),
        (10, "10"),
        (99, "99"),
        (100, "100"),
        (1001, "1001"),
        (-1, "-1"),
        (-10, "-10"),
        (i32::MAX, "2147483647"),
        (i32::MIN, "-2147483648"),
    ] {
        let mut out = b"n=".to_vec();
        push_decimal(&mut out, n);
        assert_eq!(out, format!("n={want}").into_bytes());
    }
}

#[test]
fn byte_string_helpers() {
    assert!(bytes_eq(b"", b""));
    assert!(bytes_eq(b"abc", b"abc"));
    assert!(!bytes_eq(b"abc", b"abd"));
    assert!(!bytes_eq(b"abc", b"ab"));
    assert!(!bytes_eq(b"ab", b"abc"));
    assert_eq!(to_vec(b"\x00\xffx"), b"\x00\xffx");
    let mut out = b"a".to_vec();
    push_str(&mut out, "bc é");
    assert_eq!(out, "abc é".as_bytes());
}
