//! Error definitions.

use vstd::prelude::*;
use vstd::string::StringSliceAdditionalSpecFns;
use vstd::utf8::{decode_utf8, valid_utf8};

use crate::bytes::{decimal, push_decimal, push_str};

verus! {

/// An error of the operating system: its number where it has one, and the
/// text that the platform gives for it.
#[derive(Debug, Clone, PartialEq, Eq)]
pub struct OsError {
    pub code: Option<i32>,
    pub message: Vec<u8>,
}

/// What an [`OsError`] stands for.
pub struct OsErrorView {
    pub code: Option<int>,
    pub message: Seq<u8>,
}

impl View for OsError {
    type V = OsErrorView;

    open spec fn view(&self) -> OsErrorView {
        OsErrorView {
            code: match self.code {
                Some(code) => Some(code as int),
                None => None,
            },
            message: self.message@,
        }
    }
}

/// The number that Unix gives to "is a directory".
pub const EISDIR: i32 = 21;

/// The error of a path that names no file: one without a last component.
pub open spec fn is_a_directory() -> OsErrorView {
    OsErrorView {
        code: Some(EISDIR as int),
        message: "Is a directory (os error 21)".spec_bytes(),
    }
}

impl OsError {
    /// The error of a path that names no file: one without a last component.
    pub fn is_a_directory() -> (error: OsError)
        ensures
            error@ == is_a_directory(),
    {
        let mut message: Vec<u8> = Vec::new();
        push_str(&mut message, "Is a directory (os error 21)");
        OsError { code: Some(EISDIR), message }
    }
}

/// How a process ended.
#[derive(Debug, Clone, Copy, PartialEq, Eq)]
pub enum Termination {
    /// It exited, with this status.
    Exited { code: i32 },
    /// A signal ended it.
    Signaled { signal: i32, core_dumped: bool },
}

/// The name of a signal, by its number on Linux, where it has one.
pub open spec fn signal_name(signal: int) -> Option<Seq<u8>> {
    if signal == 1 {
        Some("SIGHUP".spec_bytes())
    } else if signal == 2 {
        Some("SIGINT".spec_bytes())
    } else if signal == 3 {
        Some("SIGQUIT".spec_bytes())
    } else if signal == 4 {
        Some("SIGILL".spec_bytes())
    } else if signal == 5 {
        Some("SIGTRAP".spec_bytes())
    } else if signal == 6 {
        Some("SIGABRT".spec_bytes())
    } else if signal == 7 {
        Some("SIGBUS".spec_bytes())
    } else if signal == 8 {
        Some("SIGFPE".spec_bytes())
    } else if signal == 9 {
        Some("SIGKILL".spec_bytes())
    } else if signal == 10 {
        Some("SIGUSR1".spec_bytes())
    } else if signal == 11 {
        Some("SIGSEGV".spec_bytes())
    } else if signal == 12 {
        Some("SIGUSR2".spec_bytes())
    } else if signal == 13 {
        Some("SIGPIPE".spec_bytes())
    } else if signal == 14 {
        Some("SIGALRM".spec_bytes())
    } else if signal == 15 {
        Some("SIGTERM".spec_bytes())
    } else if signal == 16 {
        Some("SIGSTKFLT".spec_bytes())
    } else if signal == 17 {
        Some("SIGCHLD".spec_bytes())
    } else if signal == 18 {
        Some("SIGCONT".spec_bytes())
    } else if signal == 19 {
        Some("SIGSTOP".spec_bytes())
    } else if signal == 20 {
        Some("SIGTSTP".spec_bytes())
    } else if signal == 21 {
        Some("SIGTTIN".spec_bytes())
    } else if signal == 22 {
        Some("SIGTTOU".spec_bytes())
    } else if signal == 23 {
        Some("SIGURG".spec_bytes())
    } else if signal == 24 {
        Some("SIGXCPU".spec_bytes())
    } else if signal == 25 {
        Some("SIGXFSZ".spec_bytes())
    } else if signal == 26 {
        Some("SIGVTALRM".spec_bytes())
    } else if signal == 27 {
        Some("SIGPROF".spec_bytes())
    } else if signal == 28 {
        Some("SIGWINCH".spec_bytes())
    } else if signal == 29 {
        Some("SIGIO".spec_bytes())
    } else if signal == 30 {
        Some("SIGPWR".spec_bytes())
    } else if signal == 31 {
        Some("SIGSYS".spec_bytes())
    } else {
        None
    }
}

impl Termination {
    /// The process exited with status 0.
    pub open spec fn succeeded(self) -> bool {
        self == (Termination::Exited { code: 0 })
    }

    /// Tells whether the process exited with status 0.
    pub fn success(&self) -> (yes: bool)
        ensures
            yes == self.succeeded(),
    {
        match self {
            Termination::Exited { code } => *code == 0,
            Termination::Signaled { .. } => false,
        }
    }

    /// The name of the signal that ended the process, where a signal did and
    /// its number has a name.
    pub fn signal_name(&self) -> (name: Option<&'static str>)
        ensures
            match name {
                Some(text) => self is Signaled && signal_name(self->signal as int) == Some(
                    text.spec_bytes(),
                ),
                None => self is Signaled ==> signal_name(self->signal as int) is None,
            },
    {
        match self {
            Termination::Exited { .. } => None,
            Termination::Signaled { signal, .. } => match *signal {
                1 => Some("SIGHUP"),
                2 => Some("SIGINT"),
                3 => Some("SIGQUIT"),
                4 => Some("SIGILL"),
                5 => Some("SIGTRAP"),
                6 => Some("SIGABRT"),
                7 => Some("SIGBUS"),
                8 => Some("SIGFPE"),
                9 => Some("SIGKILL"),
                10 => Some("SIGUSR1"),
                11 => Some("SIGSEGV"),
                12 => Some("SIGUSR2"),
                13 => Some("SIGPIPE"),
                14 => Some("SIGALRM"),
                15 => Some("SIGTERM"),
                16 => Some("SIGSTKFLT"),
                17 => Some("SIGCHLD"),
                18 => Some("SIGCONT"),
                19 => Some("SIGSTOP"),
                20 => Some("SIGTSTP"),
                21 => Some("SIGTTIN"),
                22 => Some("SIGTTOU"),
                23 => Some("SIGURG"),
                24 => Some("SIGXCPU"),
                25 => Some("SIGXFSZ"),
                26 => Some("SIGVTALRM"),
                27 => Some("SIGPROF"),
                28 => Some("SIGWINCH"),
                29 => Some("SIGIO"),
                30 => Some("SIGPWR"),
                31 => Some("SIGSYS"),
                _ => None,
            },
        }
    }

    /// The word that joins "terminated" to the description: a process
    /// terminates with an exit status, and by a signal.
    pub open spec fn preposition(self) -> Seq<u8> {
        match self {
            Termination::Exited { .. } => "with".spec_bytes(),
            Termination::Signaled { .. } => "by".spec_bytes(),
        }
    }

    /// The description of the way the process ended: `exit status: 1`, or
    /// `signal: 9 (SIGKILL)`.  The name in brackets is there where the signal
    /// has one, and ` (core dumped)` follows where the process dumped core.
    pub open spec fn description(self) -> Seq<u8> {
        match self {
            Termination::Exited { code } => "exit status: ".spec_bytes() + decimal(code as int),
            Termination::Signaled { signal, core_dumped } => {
                "signal: ".spec_bytes() + decimal(signal as int) + (match signal_name(
                    signal as int,
                ) {
                    Some(name) => " (".spec_bytes() + name + ")".spec_bytes(),
                    None => Seq::empty(),
                }) + (if core_dumped {
                    " (core dumped)".spec_bytes()
                } else {
                    Seq::empty()
                })
            },
        }
    }

    /// Appends [`Self::preposition`], a space and [`Self::description`] to
    /// `out`.
    fn describe(&self, out: &mut Vec<u8>)
        ensures
            final(out)@ == old(out)@ + self.preposition() + " ".spec_bytes() + self.description(),
    {
        match self {
            Termination::Exited { code } => {
                push_str(out, "with");
                push_str(out, " ");
                push_str(out, "exit status: ");
                push_decimal(out, *code);
            },
            Termination::Signaled { signal, core_dumped } => {
                push_str(out, "by");
                push_str(out, " ");
                push_str(out, "signal: ");
                push_decimal(out, *signal);
                match self.signal_name() {
                    Some(name) => {
                        push_str(out, " (");
                        push_str(out, name);
                        push_str(out, ")");
                    },
                    None => {},
                }
                if *core_dumped {
                    push_str(out, " (core dumped)");
                }
            },
        }
        assert(final(out)@ =~= old(out)@ + self.preposition() + " ".spec_bytes()
            + self.description());
    }
}

/// The failures of an operation.
#[derive(Debug, Clone, PartialEq, Eq)]
pub enum Inner {
    /// The shell that runs the editor could not be started.
    CmdError { error: OsError },
    /// The editor command ended unsuccessfully.
    EditorError { editor: Vec<u8>, status: Termination },
    /// An operation on a file failed.
    PathError { path: Vec<u8>, error: OsError },
}

/// Failure when running user editor.
#[derive(Debug, Clone, PartialEq, Eq)]
pub struct Error(pub Inner);

/// What an [`Error`] stands for.
pub enum Failure {
    /// The shell that runs the editor could not be started.
    Spawn { error: OsErrorView },
    /// The editor command ended unsuccessfully: with an exit status other
    /// than 0, or by a signal.
    Editor { editor: Seq<u8>, status: Termination },
    /// An operation on the file at `path` failed.
    Path { path: Seq<u8>, error: OsErrorView },
}

impl Failure {
    /// The one line that describes the failure: what failed, a colon, and why.
    pub open spec fn message(self) -> Seq<u8> {
        match self {
            Failure::Spawn { error } => "sh: ".spec_bytes() + error.message,
            Failure::Editor { editor, status } => editor + ": terminated ".spec_bytes()
                + status.preposition() + " ".spec_bytes() + status.description(),
            Failure::Path { path, error } => path + ": ".spec_bytes() + error.message,
        }
    }
}

impl View for Error {
    type V = Failure;

    open spec fn view(&self) -> Failure {
        match self.0 {
            Inner::CmdError { error } => Failure::Spawn { error: error@ },
            Inner::EditorError { editor, status } => Failure::Editor { editor: editor@, status },
            Inner::PathError { path, error } => Failure::Path { path: path@, error: error@ },
        }
    }
}

/// The bytes of a text in ASCII are its characters, one byte each.
proof fn lemma_ascii_bytes(text: &str)
    requires
        vstd::string::is_ascii(text),
    ensures
        text.spec_bytes().len() == text@.len(),
        forall|i: int| 0 <= i < text@.len() ==> text.spec_bytes()[i] == text@[i] as u8,
{
    vstd::string::is_ascii_spec_bytes(text);
}

/// A command that exits with status 1 is reported as
/// `<command>: terminated with exit status: 1`.
pub proof fn message_of_exit_status_1(editor: Seq<u8>)
    ensures
        (Failure::Editor { editor, status: Termination::Exited { code: 1 } }).message() == editor
            + ": terminated with exit status: 1".spec_bytes(),
{
    reveal_strlit(": terminated with exit status: 1");
    reveal_strlit(": terminated ");
    reveal_strlit("with");
    reveal_strlit(" ");
    reveal_strlit("exit status: ");
    lemma_ascii_bytes(": terminated with exit status: 1");
    lemma_ascii_bytes(": terminated ");
    lemma_ascii_bytes("with");
    lemma_ascii_bytes(" ");
    lemma_ascii_bytes("exit status: ");
    assert(decimal(1) =~= seq![49u8]);
    let status = Termination::Exited { code: 1 };
    assert(": terminated ".spec_bytes() + status.preposition() + " ".spec_bytes()
        + status.description() =~= ": terminated with exit status: 1".spec_bytes());
    assert((Failure::Editor { editor, status }).message() =~= editor
        + ": terminated with exit status: 1".spec_bytes());
}

/// A command that signal 9 ends is reported as
/// `<command>: terminated by signal: 9 (SIGKILL)`.
pub proof fn message_of_signal_9(editor: Seq<u8>)
    ensures
        (Failure::Editor {
            editor,
            status: Termination::Signaled { signal: 9, core_dumped: false },
        }).message() == editor + ": terminated by signal: 9 (SIGKILL)".spec_bytes(),
{
    reveal_strlit(": terminated by signal: 9 (SIGKILL)");
    reveal_strlit(": terminated ");
    reveal_strlit("by");
    reveal_strlit(" ");
    reveal_strlit("signal: ");
    reveal_strlit(" (");
    reveal_strlit("SIGKILL");
    reveal_strlit(")");
    lemma_ascii_bytes(": terminated by signal: 9 (SIGKILL)");
    lemma_ascii_bytes(": terminated ");
    lemma_ascii_bytes("by");
    lemma_ascii_bytes(" ");
    lemma_ascii_bytes("signal: ");
    lemma_ascii_bytes(" (");
    lemma_ascii_bytes("SIGKILL");
    lemma_ascii_bytes(")");
    assert(decimal(9) =~= seq![57u8]);
    let status = Termination::Signaled { signal: 9, core_dumped: false };
    assert(status.description() =~= "signal: ".spec_bytes() + seq![57u8] + " (".spec_bytes()
        + "SIGKILL".spec_bytes() + ")".spec_bytes());
    assert(": terminated ".spec_bytes() + status.preposition() + " ".spec_bytes()
        + status.description() =~= ": terminated by signal: 9 (SIGKILL)".spec_bytes());
    assert((Failure::Editor { editor, status }).message() =~= editor
        + ": terminated by signal: 9 (SIGKILL)".spec_bytes());
}

/// What the result of an operation stands for.
pub open spec fn result_view<T: View>(result: Result<T, Error>) -> Result<T::V, Failure> {
    match result {
        Ok(value) => Ok(value@),
        Err(error) => Err(error@),
    }
}

/// What the outcome of starting a process and waiting for it stands for.
pub open spec fn outcome_view(
    outcome: Result<Termination, OsError>,
) -> Result<Termination, OsErrorView> {
    match outcome {
        Ok(status) => Ok(status),
        Err(error) => Err(error@),
    }
}

/// The text that `String::from_utf8_lossy` makes of a byte string.
pub uninterp spec fn utf8_lossy(bytes: Seq<u8>) -> Seq<char>;

/// Calls `String::from_utf8_lossy`, which turns bytes into text and puts
/// U+FFFD in place of what is not UTF-8.  Believed of it: the text depends on
/// the bytes alone, and bytes that are UTF-8 give the text that they encode.
#[verifier::external_body]
fn lossy_text(bytes: &[u8]) -> (text: String)
    ensures
        text@ == utf8_lossy(bytes@),
        valid_utf8(bytes@) ==> text@ == decode_utf8(bytes@),
{
    String::from_utf8_lossy(bytes).into_owned()
}

impl Error {
    /// The failure to start the shell.
    pub fn spawn(error: OsError) -> (failure: Error)
        ensures
            failure@ == (Failure::Spawn { error: error@ }),
    {
        Error(Inner::CmdError { error })
    }

    /// The failure of the command `editor`, which ended as `status` says.
    pub fn editor(editor: Vec<u8>, status: Termination) -> (failure: Error)
        ensures
            failure@ == (Failure::Editor { editor: editor@, status }),
    {
        Error(Inner::EditorError { editor, status })
    }

    /// The failure of an operation on the file at `path`.
    pub fn path(path: Vec<u8>, error: OsError) -> (failure: Error)
        ensures
            failure@ == (Failure::Path { path: path@, error: error@ }),
    {
        Error(Inner::PathError { path, error })
    }

    /// The message as bytes: what failed, a colon, and why.  A path or a
    /// command in it stands as it was given, also where it is not UTF-8.
    pub fn to_bytes(&self) -> (line: Vec<u8>)
        ensures
            line@ == self@.message(),
    {
        let mut line: Vec<u8> = Vec::new();
        match &self.0 {
            Inner::CmdError { error } => {
                push_str(&mut line, "sh: ");
                line.extend_from_slice(error.message.as_slice());
            },
            Inner::EditorError { editor, status } => {
                line.extend_from_slice(editor.as_slice());
                push_str(&mut line, ": terminated ");
                status.describe(&mut line);
            },
            Inner::PathError { path, error } => {
                line.extend_from_slice(path.as_slice());
                push_str(&mut line, ": ");
                line.extend_from_slice(error.message.as_slice());
            },
        }
        assert(line@ =~= self@.message());
        line
    }

    /// The message as text, with U+FFFD in place of what is not UTF-8.
    pub fn message(&self) -> (text: String)
        ensures
            text@ == utf8_lossy(self@.message()),
            valid_utf8(self@.message()) ==> text@ == decode_utf8(self@.message()),
    {
        let line = self.to_bytes();
        lossy_text(line.as_slice())
    }
}

} // verus!
