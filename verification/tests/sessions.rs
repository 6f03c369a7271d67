use std::collections::BTreeMap;

use run_editor::error::{Inner, OsError, Termination};
use run_editor::imp::{BufferEdit, CopyEdit, FileEdit};
use run_editor::session::{Action, Event, Invocation, Progress};
use run_editor::{edit, Edit, Environment, Error};

/// Files held in memory, with a shell that knows a few commands, to drive
/// the operations without touching the machine.
struct World {
    files: BTreeMap<Vec<u8>, Vec<u8>>,
    temp_dir: Vec<u8>,
    current_dir: Result<Vec<u8>, OsError>,
    has_shell: bool,
    /// The action at which the operating system is to refuse, by its name.
    refuse: Option<&'static str>,
    opened: Option<Vec<u8>>,
    created: u32,
    log: Vec<Action>,
}

fn denied() -> OsError {
    OsError { code: Some(13), message: b"Permission denied (os error 13)".to_vec() }
}

fn missing() -> OsError {
    OsError { code: Some(2), message: b"No such file or directory (os error 2)".to_vec() }
}

fn name_of(action: &Action) -> &'static str {
    match action {
        Action::TempDir => "TempDir",
        Action::CurrentDir => "CurrentDir",
        Action::Parent { .. } => "Parent",
        Action::Open { .. } => "Open",
        Action::Create { .. } => "Create",
        Action::Write { .. } => "Write",
        Action::Copy { .. } => "Copy",
        Action::Run { .. } => "Run",
        Action::Read { .. } => "Read",
        Action::Persist { .. } => "Persist",
        Action::Remove { .. } => "Remove",
    }
}

fn replace_all(data: &[u8], from: &[u8], to: &[u8]) -> Vec<u8> {
    let mut out = Vec::new();
    let mut i = 0;
    while i < data.len() {
        if data[i..].starts_with(from) {
            out.extend_from_slice(to);
            i += from.len();
        } else {
            out.push(data[i]);
            i += 1;
        }
    }
    out
}

impl World {
    fn new() -> World {
        World {
            files: BTreeMap::new(),
            temp_dir: b"/tmp".to_vec(),
            current_dir: Ok(b"/home/lex".to_vec()),
            has_shell: true,
            refuse: None,
            opened: None,
            created: 0,
            log: Vec::new(),
        }
    }

    fn with_file(mut self, path: &[u8], data: &[u8]) -> World {
        self.files.insert(path.to_vec(), data.to_vec());
        self
    }

    fn read(&self, path: &[u8]) -> Option<&[u8]> {
        self.files.get(path).map(|data| data.as_slice())
    }

    fn actions(&self) -> Vec<&'static str> {
        self.log.iter().map(name_of).collect()
    }

    /// What `/bin/sh -c` makes of the command lines that the tests use.
    fn shell(&mut self, shell: &Invocation) -> Event {
        assert_eq!(shell.program, b"/bin/sh");
        assert_eq!(shell.flag, b"-c");
        assert_eq!(shell.variable, b"TMP_file_path");
        let command = shell.command.strip_suffix(b" \"$TMP_file_path\"").unwrap();
        let code = match command {
            b"sed -i -e s/foo/bar/" => match self.files.remove(&shell.path) {
                // As `sed -i` does: a new file takes the place of the old one.
                Some(old) => {
                    self.files.insert(shell.path.clone(), replace_all(&old, b"foo", b"bar"));
                    0
                }
                None => 4,
            },
            b"tee" => match self.files.get_mut(&shell.path) {
                // Writes in place, and creates the file where there is none.
                Some(data) => {
                    data.extend_from_slice(b"tee\n");
                    0
                }
                None => {
                    self.files.insert(shell.path.clone(), b"tee\n".to_vec());
                    0
                }
            },
            b"rm" => {
                self.files.remove(&shell.path);
                0
            }
            b"false" => 1,
            b"kill -9 $$;" => {
                return Event::Exited {
                    status: Termination::Signaled { signal: 9, core_dumped: false },
                }
            }
            _ => 127,
        };
        Event::Exited { status: Termination::Exited { code } }
    }

    fn temp(&self) -> Option<&Vec<u8>> {
        self.files.keys().find(|path| {
            path.rsplit(|byte| *byte == b'/').next().unwrap().starts_with(b".tmp")
        })
    }

    fn perform(&mut self, action: Action) -> Event {
        self.log.push(action.clone());
        let refused = self.refuse == Some(name_of(&action));
        match action {
            Action::TempDir => Event::Dir { path: self.temp_dir.clone() },
            Action::CurrentDir => match &self.current_dir {
                Ok(path) => Event::Dir { path: path.clone() },
                Err(error) => Event::Failed { error: error.clone() },
            },
            Action::Parent { path } => {
                let text = String::from_utf8(path).unwrap();
                let parent = std::path::Path::new(&text).parent();
                Event::Parent { parent: parent.map(|dir| dir.to_str().unwrap().as_bytes().to_vec()) }
            }
            Action::Open { path } => match self.files.get(&path) {
                Some(data) if !refused => {
                    self.opened = Some(data.clone());
                    Event::Done
                }
                Some(_) => Event::Failed { error: denied() },
                None => Event::Failed { error: missing() },
            },
            Action::Create { dir } => {
                if refused {
                    return Event::Failed { error: denied() };
                }
                self.created += 1;
                let mut path = dir;
                path.extend_from_slice(format!("/.tmp{:06}", self.created).as_bytes());
                assert!(!self.files.contains_key(&path));
                self.files.insert(path.clone(), Vec::new());
                Event::Created { path }
            }
            Action::Write { path, data } => {
                assert!(self.files.contains_key(&path));
                if refused {
                    // Part of the data got there.
                    self.files.insert(path, data[..data.len() / 2].to_vec());
                    return Event::Failed { error: denied() };
                }
                self.files.insert(path, data);
                Event::Done
            }
            Action::Copy { src: _, path } => {
                assert!(self.files.contains_key(&path));
                let data = self.opened.take().unwrap();
                if refused {
                    self.files.insert(path, data[..data.len() / 2].to_vec());
                    return Event::Failed { error: denied() };
                }
                self.files.insert(path, data);
                Event::Done
            }
            Action::Run { invocation } => {
                if !self.has_shell {
                    return Event::Failed { error: missing() };
                }
                self.shell(&invocation)
            }
            Action::Read { path } => match self.files.get(&path) {
                Some(data) if !refused => Event::Data { data: data.clone() },
                Some(_) => Event::Failed { error: denied() },
                None => Event::Failed { error: missing() },
            },
            Action::Persist { path, dst } => {
                if refused {
                    return Event::Failed { error: denied() };
                }
                match self.files.remove(&path) {
                    Some(data) => {
                        self.files.insert(dst, data);
                        Event::Done
                    }
                    None => Event::Failed { error: missing() },
                }
            }
            Action::Remove { path } => {
                self.files.remove(&path);
                Event::Done
            }
        }
    }

    fn answer(&mut self, action: Action) -> Event {
        let event = self.perform(action.clone());
        assert!(action.accepts(&event), "{action:?} answered by {event:?}");
        event
    }

    fn file(&mut self, edit: &Edit<'_>, path: &[u8]) -> Result<(), Error> {
        let mut progress: Progress<FileEdit, ()> = edit.file(&Environment::new(), path);
        loop {
            match progress {
                Progress::Finished(result) => return result,
                Progress::Perform(state) => {
                    let event = self.answer(state.action());
                    progress = state.step(event);
                }
            }
        }
    }

    fn buffer(&mut self, edit: &Edit<'_>, buf: Vec<u8>) -> Result<Vec<u8>, Error> {
        let mut progress: Progress<BufferEdit, Vec<u8>> = edit.buffer(&Environment::new(), buf);
        loop {
            match progress {
                Progress::Finished(result) => return result,
                Progress::Perform(state) => {
                    let event = self.answer(state.action());
                    progress = state.step(event);
                }
            }
        }
    }

    fn file_copy(&mut self, edit: &Edit<'_>, src: &[u8], dst: &[u8]) -> Result<(), Error> {
        let mut progress: Progress<CopyEdit, ()> = edit.file_copy(&Environment::new(), src, dst);
        loop {
            match progress {
                Progress::Finished(result) => return result,
                Progress::Perform(state) => {
                    let event = self.answer(state.action());
                    progress = state.step(event);
                }
            }
        }
    }
}

/// Constructs an `Edit` object which changes `foo` on each line in the file
/// with `bar`.
fn substitute_foo_bar<'a>() -> Edit<'a> {
    let mut edit = edit();
    edit.with(b"sed -i -e s/foo/bar/");
    edit
}

#[test]
fn test_edit_file() {
    let path = b"/tmpdir/temp-file";
    let mut world = World::new();

    // Using ":" or "true" as editor should result in a no-op.
    world.file(edit().with(b":"), path).unwrap();
    assert!(world.read(path).is_none());
    assert!(world.log.is_empty());

    world.files.insert(path.to_vec(), b"foo\n".to_vec());
    world.file(&substitute_foo_bar(), path).unwrap();
    assert_eq!(b"bar\n", world.read(path).unwrap());
}

#[test]
fn test_edit_buffer() {
    let mut world = World::new();
    let got = world.buffer(edit().with(b":"), b"foo\n".to_vec()).unwrap();
    assert_eq!(b"foo\n", got.as_slice());

    let got = world.buffer(&substitute_foo_bar(), b"foo\n".to_vec()).unwrap();
    assert_eq!(b"bar\n", got.as_slice());
}

#[test]
fn test_edit_file_copy() {
    let src = b"/tmpdir/src";
    let dst = b"/tmpdir/dst";
    let mut world = World::new().with_file(src, b"foo\n").with_file(dst, b"oof\n");

    // Test destination is not changed on failure.
    let res = world.file_copy(edit().with(b"false"), src, dst);
    assert_eq!("false: terminated with exit status: 1", res.unwrap_err().message());
    assert_eq!(b"foo\n", world.read(src).unwrap());
    assert_eq!(b"oof\n", world.read(dst).unwrap());

    world.file_copy(&substitute_foo_bar(), src, dst).unwrap();
    assert_eq!(b"foo\n", world.read(src).unwrap());
    assert_eq!(b"bar\n", world.read(dst).unwrap());
}

#[test]
fn file_with_no_editor_asks_for_nothing() {
    let env = Environment::new();
    for command in [&b":"[..], b"true"] {
        let progress = edit().with(command).file(&env, b"/does/not/exist");
        assert_eq!(progress, Progress::Finished(Ok(())));
    }
    let mut env = Environment::new();
    env.set(b"VISUAL", b":");
    assert_eq!(edit().file(&env, b"/x"), Progress::Finished(Ok(())));
}

#[test]
fn file_runs_the_editor_once() {
    let mut world = World::new().with_file(b"/f", b"foo foo\n");
    world.file(&substitute_foo_bar(), b"/f").unwrap();
    assert_eq!(world.actions(), ["Run"]);
    assert_eq!(world.read(b"/f").unwrap(), b"bar bar\n");
    match &world.log[0] {
        Action::Run { invocation } => {
            assert_eq!(invocation.command, b"sed -i -e s/foo/bar/ \"$TMP_file_path\"");
            assert_eq!(invocation.path, b"/f");
        }
        other => panic!("{other:?}"),
    }
}

#[test]
fn file_reports_how_the_editor_ended() {
    let mut world = World::new().with_file(b"/f", b"foo\n");
    let err = world.file(edit().with(b"false"), b"/f").unwrap_err();
    assert_eq!(
        err.0,
        Inner::EditorError { editor: b"false".to_vec(), status: Termination::Exited { code: 1 } }
    );

    let err = world.file(edit().with(b"kill -9 $$;"), b"/f").unwrap_err();
    assert_eq!(err.message(), "kill -9 $$;: terminated by signal: 9 (SIGKILL)");

    let err = world.file(edit().with(b"no-such-editor"), b"/f").unwrap_err();
    assert_eq!(err.message(), "no-such-editor: terminated with exit status: 127");
    assert_eq!(world.read(b"/f").unwrap(), b"foo\n");
}

#[test]
fn file_reports_a_shell_that_does_not_start() {
    let mut world = World::new().with_file(b"/f", b"foo\n");
    world.has_shell = false;
    let err = world.file(edit().with(b"vi"), b"/f").unwrap_err();
    assert_eq!(err.0, Inner::CmdError { error: missing() });
    assert_eq!(err.message(), "sh: No such file or directory (os error 2)");
}

#[test]
fn file_uses_the_editor_of_the_environment() {
    let mut env = Environment::new();
    env.set(b"EDITOR", b"nano");
    match edit().file(&env, b"/f") {
        Progress::Perform(state) => {
            assert_eq!(state, FileEdit { editor: b"nano".to_vec(), path: b"/f".to_vec() });
        }
        other => panic!("{other:?}"),
    }
}

#[test]
fn buffer_goes_through_a_temporary_file() {
    let mut world = World::new();
    let got = world.buffer(&substitute_foo_bar(), b"a foo\nfoo b\n".to_vec()).unwrap();
    assert_eq!(got, b"a bar\nbar b\n");
    assert_eq!(world.actions(), ["TempDir", "Create", "Write", "Run", "Read", "Remove"]);
    assert_eq!(world.log[1], Action::Create { dir: b"/tmp".to_vec() });
    assert_eq!(
        world.log[2],
        Action::Write { path: b"/tmp/.tmp000001".to_vec(), data: b"a foo\nfoo b\n".to_vec() }
    );
    assert_eq!(world.log[4], Action::Read { path: b"/tmp/.tmp000001".to_vec() });
    assert_eq!(world.log[5], Action::Remove { path: b"/tmp/.tmp000001".to_vec() });
    assert!(world.files.is_empty());
}

#[test]
fn buffer_with_no_editor_still_makes_the_round_trip() {
    for command in [&b":"[..], b"true"] {
        let mut world = World::new();
        let input = b"\x00raw \xff bytes\r\n".to_vec();
        let got = world.buffer(edit().with(command), input.clone()).unwrap();
        assert_eq!(got, input);
        assert_eq!(world.actions(), ["TempDir", "Create", "Write", "Read", "Remove"]);
        assert!(world.files.is_empty());
    }
}

#[test]
fn buffer_may_be_empty() {
    let mut world = World::new();
    assert_eq!(world.buffer(edit().with(b":"), Vec::new()).unwrap(), b"");
    assert_eq!(world.buffer(edit().with(b"tee"), Vec::new()).unwrap(), b"tee\n");
}

#[test]
fn buffer_sees_a_file_that_the_editor_put_in_place_of_the_old_one() {
    // The substitution deletes the file and makes a new one at its path.
    let mut world = World::new();
    let got = world.buffer(&substitute_foo_bar(), b"foo\n".to_vec()).unwrap();
    assert_eq!(got, b"bar\n");
    // An editor that writes in place is read back just the same.
    let got = world.buffer(edit().with(b"tee"), b"foo\n".to_vec()).unwrap();
    assert_eq!(got, b"foo\ntee\n");
}

#[test]
fn buffer_failure_to_create() {
    let mut world = World::new();
    world.temp_dir = b"/var/tmp".to_vec();
    world.refuse = Some("Create");
    let err = world.buffer(edit().with(b"tee"), b"foo\n".to_vec()).unwrap_err();
    assert_eq!(err.0, Inner::PathError { path: b"/var/tmp".to_vec(), error: denied() });
    assert_eq!(err.message(), "/var/tmp: Permission denied (os error 13)");
    assert_eq!(world.actions(), ["TempDir", "Create"]);
    assert!(world.files.is_empty());
}

#[test]
fn buffer_failure_to_write_deletes_the_file() {
    let mut world = World::new();
    world.refuse = Some("Write");
    let err = world.buffer(edit().with(b"tee"), b"foo\n".to_vec()).unwrap_err();
    assert_eq!(err.0, Inner::PathError { path: b"/tmp/.tmp000001".to_vec(), error: denied() });
    assert_eq!(world.actions(), ["TempDir", "Create", "Write", "Remove"]);
    assert!(world.files.is_empty());
}

#[test]
fn buffer_editor_failure_deletes_the_file() {
    let mut world = World::new();
    let err = world.buffer(edit().with(b"false"), b"foo\n".to_vec()).unwrap_err();
    assert_eq!(err.message(), "false: terminated with exit status: 1");
    assert_eq!(world.actions(), ["TempDir", "Create", "Write", "Run", "Remove"]);
    assert!(world.files.is_empty());

    let mut world = World::new();
    world.has_shell = false;
    let err = world.buffer(edit().with(b"vi"), b"foo\n".to_vec()).unwrap_err();
    assert_eq!(err.0, Inner::CmdError { error: missing() });
    assert_eq!(world.actions(), ["TempDir", "Create", "Write", "Run", "Remove"]);
    assert!(world.files.is_empty());
}

#[test]
fn buffer_failure_to_read_deletes_the_file() {
    let mut world = World::new();
    world.refuse = Some("Read");
    let err = world.buffer(edit().with(b"tee"), b"foo\n".to_vec()).unwrap_err();
    assert_eq!(err.0, Inner::PathError { path: b"/tmp/.tmp000001".to_vec(), error: denied() });
    assert_eq!(world.actions(), ["TempDir", "Create", "Write", "Run", "Read", "Remove"]);
    assert!(world.files.is_empty());

    // The editor deleted the file and ended well.
    let mut world = World::new();
    let err = world.buffer(edit().with(b"rm"), b"foo\n".to_vec()).unwrap_err();
    assert_eq!(err.0, Inner::PathError { path: b"/tmp/.tmp000001".to_vec(), error: missing() });
    assert!(world.files.is_empty());
}

#[test]
fn copy_puts_the_temporary_file_beside_the_destination() {
    let mut world = World::new().with_file(b"/etc/skel/rc", b"foo\n");
    world.file_copy(&substitute_foo_bar(), b"/etc/skel/rc", b"/home/lex/.rc").unwrap();
    assert_eq!(
        world.actions(),
        ["Parent", "Open", "Create", "Copy", "Run", "Persist"]
    );
    assert_eq!(world.log[0], Action::Parent { path: b"/home/lex/.rc".to_vec() });
    assert_eq!(world.log[1], Action::Open { path: b"/etc/skel/rc".to_vec() });
    assert_eq!(world.log[2], Action::Create { dir: b"/home/lex".to_vec() });
    assert_eq!(
        world.log[3],
        Action::Copy { src: b"/etc/skel/rc".to_vec(), path: b"/home/lex/.tmp000001".to_vec() }
    );
    assert_eq!(
        world.log[5],
        Action::Persist { path: b"/home/lex/.tmp000001".to_vec(), dst: b"/home/lex/.rc".to_vec() }
    );
    assert_eq!(world.read(b"/home/lex/.rc").unwrap(), b"bar\n");
    assert_eq!(world.read(b"/etc/skel/rc").unwrap(), b"foo\n");
    assert_eq!(world.files.len(), 2);
}

#[test]
fn copy_with_no_editor_copies() {
    for command in [&b":"[..], b"true"] {
        let mut world = World::new().with_file(b"/a/src", b"foo\n").with_file(b"/b/dst", b"old");
        world.file_copy(edit().with(command), b"/a/src", b"/b/dst").unwrap();
        assert_eq!(world.actions(), ["Parent", "Open", "Create", "Copy", "Persist"]);
        assert_eq!(world.read(b"/b/dst").unwrap(), b"foo\n");
        assert_eq!(world.read(b"/a/src").unwrap(), b"foo\n");
        assert_eq!(world.files.len(), 2);
    }
}

#[test]
fn copy_creates_a_destination_that_was_not_there() {
    let mut world = World::new().with_file(b"/a/src", b"foo\n");
    world.file_copy(&substitute_foo_bar(), b"/a/src", b"/a/dst").unwrap();
    assert_eq!(world.read(b"/a/dst").unwrap(), b"bar\n");

    let mut world = World::new().with_file(b"/a/src", b"foo\n");
    world.file_copy(edit().with(b"false"), b"/a/src", b"/a/dst").unwrap_err();
    assert!(world.read(b"/a/dst").is_none());
    assert_eq!(world.files.len(), 1);
}

#[test]
fn copy_onto_the_source_itself() {
    let mut world = World::new().with_file(b"/a/f", b"foo\n");
    world.file_copy(&substitute_foo_bar(), b"/a/f", b"/a/f").unwrap();
    assert_eq!(world.read(b"/a/f").unwrap(), b"bar\n");
    assert_eq!(world.files.len(), 1);
}

#[test]
fn copy_to_a_path_without_parent_is_refused() {
    for dst in [&b"/"[..], b""] {
        let mut world = World::new().with_file(b"/a/src", b"foo\n");
        let err = world.file_copy(edit().with(b"tee"), b"/a/src", dst).unwrap_err();
        assert_eq!(
            err.0,
            Inner::PathError { path: dst.to_vec(), error: OsError::is_a_directory() }
        );
        assert_eq!(world.actions(), ["Parent"]);
        assert_eq!(world.files.len(), 1);
    }
    let mut world = World::new().with_file(b"/a/src", b"foo\n");
    let err = world.file_copy(edit().with(b"tee"), b"/a/src", b"/").unwrap_err();
    assert_eq!(err.message(), "/: Is a directory (os error 21)");
}

#[test]
fn copy_to_a_bare_file_name_uses_the_current_directory() {
    let mut world = World::new().with_file(b"/a/src", b"foo\n");
    world.file_copy(&substitute_foo_bar(), b"/a/src", b"dst").unwrap();
    assert_eq!(
        world.actions(),
        ["Parent", "CurrentDir", "Open", "Create", "Copy", "Run", "Persist"]
    );
    assert_eq!(world.log[3], Action::Create { dir: b"/home/lex".to_vec() });
    assert_eq!(
        world.log[6],
        Action::Persist { path: b"/home/lex/.tmp000001".to_vec(), dst: b"dst".to_vec() }
    );
    assert_eq!(world.read(b"dst").unwrap(), b"bar\n");
}

#[test]
fn copy_without_a_current_directory() {
    let mut world = World::new().with_file(b"/a/src", b"foo\n");
    world.current_dir = Err(missing());
    let err = world.file_copy(edit().with(b"tee"), b"/a/src", b"dst").unwrap_err();
    assert_eq!(err.0, Inner::PathError { path: Vec::new(), error: missing() });
    assert_eq!(err.message(), ": No such file or directory (os error 2)");
    assert_eq!(world.actions(), ["Parent", "CurrentDir"]);
}

#[test]
fn copy_from_a_source_that_cannot_be_opened() {
    let mut world = World::new().with_file(b"/b/dst", b"oof\n");
    let err = world.file_copy(edit().with(b"tee"), b"/a/src", b"/b/dst").unwrap_err();
    assert_eq!(err.0, Inner::PathError { path: b"/a/src".to_vec(), error: missing() });
    assert_eq!(world.actions(), ["Parent", "Open"]);
    assert_eq!(world.read(b"/b/dst").unwrap(), b"oof\n");
    assert_eq!(world.files.len(), 1);
}

#[test]
fn copy_failure_to_create() {
    let mut world = World::new().with_file(b"/a/src", b"foo\n").with_file(b"/b/dst", b"oof\n");
    world.refuse = Some("Create");
    let err = world.file_copy(edit().with(b"tee"), b"/a/src", b"/b/dst").unwrap_err();
    assert_eq!(err.0, Inner::PathError { path: b"/b".to_vec(), error: denied() });
    assert_eq!(world.actions(), ["Parent", "Open", "Create"]);
    assert_eq!(world.read(b"/b/dst").unwrap(), b"oof\n");
    assert_eq!(world.files.len(), 2);
}

#[test]
fn copy_failure_while_copying_is_laid_on_the_temporary_file() {
    let mut world = World::new().with_file(b"/a/src", b"foo\n").with_file(b"/b/dst", b"oof\n");
    world.refuse = Some("Copy");
    let err = world.file_copy(edit().with(b"tee"), b"/a/src", b"/b/dst").unwrap_err();
    assert_eq!(err.0, Inner::PathError { path: b"/b/.tmp000001".to_vec(), error: denied() });
    assert_eq!(world.actions(), ["Parent", "Open", "Create", "Copy", "Remove"]);
    assert_eq!(world.read(b"/b/dst").unwrap(), b"oof\n");
    assert_eq!(world.read(b"/a/src").unwrap(), b"foo\n");
    assert_eq!(world.files.len(), 2);
}

#[test]
fn copy_editor_failure_leaves_everything_as_it_was() {
    for command in [&b"false"[..], b"kill -9 $$;", b"no-such-editor"] {
        let mut world = World::new().with_file(b"/a/src", b"foo\n").with_file(b"/b/dst", b"oof\n");
        let before = world.files.clone();
        let err = world.file_copy(edit().with(command), b"/a/src", b"/b/dst").unwrap_err();
        assert!(matches!(err.0, Inner::EditorError { .. }));
        assert_eq!(world.actions(), ["Parent", "Open", "Create", "Copy", "Run", "Remove"]);
        assert_eq!(world.files, before);
    }
    let mut world = World::new().with_file(b"/a/src", b"foo\n").with_file(b"/b/dst", b"oof\n");
    world.has_shell = false;
    let before = world.files.clone();
    let err = world.file_copy(edit().with(b"vi"), b"/a/src", b"/b/dst").unwrap_err();
    assert_eq!(err.0, Inner::CmdError { error: missing() });
    assert_eq!(world.files, before);
}

#[test]
fn copy_failure_to_persist_deletes_the_temporary_file() {
    let mut world = World::new().with_file(b"/a/src", b"foo\n").with_file(b"/b/dst", b"oof\n");
    world.refuse = Some("Persist");
    let before = world.files.clone();
    let err = world.file_copy(&substitute_foo_bar(), b"/a/src", b"/b/dst").unwrap_err();
    assert_eq!(err.0, Inner::PathError { path: b"/b/.tmp000001".to_vec(), error: denied() });
    assert_eq!(
        world.actions(),
        ["Parent", "Open", "Create", "Copy", "Run", "Persist", "Remove"]
    );
    assert_eq!(world.files, before);

    // The editor deleted the copy and ended well: there is nothing to rename.
    let mut world = World::new().with_file(b"/a/src", b"foo\n").with_file(b"/b/dst", b"oof\n");
    let err = world.file_copy(edit().with(b"rm"), b"/a/src", b"/b/dst").unwrap_err();
    assert_eq!(err.0, Inner::PathError { path: b"/b/.tmp000001".to_vec(), error: missing() });
    assert_eq!(world.files, before);
}

#[test]
fn the_destination_is_untouched_until_the_rename() {
    let mut world = World::new().with_file(b"/a/src", b"foo\n").with_file(b"/b/dst", b"oof\n");
    let mut progress = substitute_foo_bar().file_copy(&Environment::new(), b"/a/src", b"/b/dst");
    loop {
        match progress {
            Progress::Finished(result) => {
                result.unwrap();
                break;
            }
            Progress::Perform(state) => {
                let action = state.action();
                if !matches!(action, Action::Persist { .. }) {
                    assert_eq!(world.read(b"/b/dst").unwrap(), b"oof\n");
                }
                let event = world.answer(action);
                if let Some(temp) = world.temp() {
                    assert!(temp.starts_with(b"/b/"));
                }
                progress = state.step(event);
            }
        }
    }
    assert_eq!(world.read(b"/b/dst").unwrap(), b"bar\n");
    assert!(world.temp().is_none());
}

#[test]
fn an_answer_that_does_not_fit_is_ignored() {
    let env = Environment::new();
    let state = match edit().with(b"vi").buffer(&env, b"foo".to_vec()) {
        Progress::Perform(state) => state,
        other => panic!("{other:?}"),
    };
    assert_eq!(state.action(), Action::TempDir);
    assert!(!state.action().accepts(&Event::Done));
    let state = match state.step(Event::Done) {
        Progress::Perform(state) => state,
        other => panic!("{other:?}"),
    };
    assert_eq!(state.action(), Action::TempDir);
    assert_eq!(
        state,
        BufferEdit::Locating { editor: Some(b"vi".to_vec()), data: b"foo".to_vec() }
    );

    let state = match edit().with(b"vi").file_copy(&env, b"/s", b"/d") {
        Progress::Perform(state) => state,
        other => panic!("{other:?}"),
    };
    let state = match state.step(Event::Data { data: b"x".to_vec() }) {
        Progress::Perform(state) => state,
        other => panic!("{other:?}"),
    };
    assert_eq!(state.action(), Action::Parent { path: b"/d".to_vec() });

    let state = match edit().with(b"vi").file(&env, b"/f") {
        Progress::Perform(state) => state,
        other => panic!("{other:?}"),
    };
    let state = match state.step(Event::Created { path: b"/t".to_vec() }) {
        Progress::Perform(state) => state,
        other => panic!("{other:?}"),
    };
    assert!(matches!(state.action(), Action::Run { .. }));
}

#[test]
fn each_action_has_its_answers() {
    let path = || b"/p".to_vec();
    let events = [
        Event::Done,
        Event::Dir { path: path() },
        Event::Parent { parent: None },
        Event::Created { path: path() },
        Event::Data { data: path() },
        Event::Exited { status: Termination::Exited { code: 0 } },
        Event::Failed { error: denied() },
    ];
    let invocation = run_editor::imp::shell_invocation(b"vi", b"/p");
    let table: [(Action, [bool; 7]); 11] = [
        (Action::TempDir, [false, true, false, false, false, false, false]),
        (Action::CurrentDir, [false, true, false, false, false, false, true]),
        (Action::Parent { path: path() }, [false, false, true, false, false, false, false]),
        (Action::Open { path: path() }, [true, false, false, false, false, false, true]),
        (Action::Create { dir: path() }, [false, false, false, true, false, false, true]),
        (Action::Write { path: path(), data: path() }, [true, false, false, false, false, false, true]),
        (Action::Copy { src: path(), path: path() }, [true, false, false, false, false, false, true]),
        (Action::Run { invocation }, [false, false, false, false, false, true, true]),
        (Action::Read { path: path() }, [false, false, false, false, true, false, true]),
        (Action::Persist { path: path(), dst: path() }, [true, false, false, false, false, false, true]),
        (Action::Remove { path: path() }, [true, false, false, false, false, false, false]),
    ];
    for (action, want) in &table {
        for (event, fits) in events.iter().zip(want) {
            assert_eq!(action.accepts(event), *fits, "{action:?} and {event:?}");
        }
    }
}
