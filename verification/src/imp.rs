//! Implementations of the operations.
//!
//! Each operation is a state machine.  A state names the action that the
//! driver is to perform next ([`FileEdit::action`] and its like), and the
//! answer to that action leads to the next state or to the result of the
//! operation ([`FileEdit::step`] and its like).  An answer that does not fit
//! the action is ignored: the state stays, and the action is asked for again.

use vstd::prelude::*;
use vstd::string::StringSliceAdditionalSpecFns;

use crate::bytes::{option_view, to_vec};
use crate::error::{
    is_a_directory, outcome_view, result_view, Error, Failure, OsError, OsErrorView, Termination,
};
use crate::session::{
    Action, ActionView, Event, EventView, Invocation, InvocationView, Progress, ProgressView,
    Protocol,
};

verus! {

/// Concatenates two byte strings into a newly allocated one.
pub fn concat_os_str(x: &[u8], y: &[u8]) -> (joined: Vec<u8>)
    ensures
        joined@ == x@ + y@,
{
    let mut joined: Vec<u8> = Vec::new();
    joined.extend_from_slice(x);
    joined.extend_from_slice(y);
    joined
}

/// The shell invocation that runs the command `editor` on the file at
/// `path`: `/bin/sh -c '<editor> "$TMP_file_path"'`, with `TMP_file_path` set
/// to the path.  The path goes through the environment, so no byte in it
/// can be taken for shell syntax.
pub open spec fn invocation(editor: Seq<u8>, path: Seq<u8>) -> InvocationView {
    InvocationView {
        program: "/bin/sh".spec_bytes(),
        flag: "-c".spec_bytes(),
        command: editor + " \"$TMP_file_path\"".spec_bytes(),
        variable: "TMP_file_path".spec_bytes(),
        path,
    }
}

/// What the way the shell ended means for the edit: success where the
/// command exited with status 0, an editor failure where it ended otherwise,
/// a spawn failure where the shell did not start.
pub open spec fn editor_result(
    editor: Seq<u8>,
    outcome: Result<Termination, OsErrorView>,
) -> Result<(), Failure> {
    match outcome {
        Ok(status) => if status.succeeded() {
            Ok(())
        } else {
            Err(Failure::Editor { editor, status })
        },
        Err(error) => Err(Failure::Spawn { error }),
    }
}

/// Builds [`invocation`].
pub fn shell_invocation(editor: &[u8], path: &[u8]) -> (shell: Invocation)
    ensures
        shell@ == invocation(editor@, path@),
{
    Invocation {
        program: to_vec("/bin/sh".as_bytes()),
        flag: to_vec("-c".as_bytes()),
        command: concat_os_str(editor, " \"$TMP_file_path\"".as_bytes()),
        variable: to_vec("TMP_file_path".as_bytes()),
        path: to_vec(path),
    }
}

/// Computes [`editor_result`].
pub fn editor_outcome(
    editor: Vec<u8>,
    outcome: Result<Termination, OsError>,
) -> (result: Result<(), Error>)
    ensures
        result_view(result) == editor_result(editor@, outcome_view(outcome)),
{
    match outcome {
        Ok(status) => if status.success() {
            Ok(())
        } else {
            Err(Error::editor(editor, status))
        },
        Err(error) => Err(Error::spawn(error)),
    }
}

/// The File Editor at work: the shell runs `editor` on the file at `path`.
#[derive(Debug, PartialEq, Eq)]
pub struct FileEdit {
    pub editor: Vec<u8>,
    pub path: Vec<u8>,
}

/// What a [`FileEdit`] stands for.
pub struct FileEditView {
    pub editor: Seq<u8>,
    pub path: Seq<u8>,
}

impl View for FileEdit {
    type V = FileEditView;

    open spec fn view(&self) -> FileEditView {
        FileEditView { editor: self.editor@, path: self.path@ }
    }
}

impl Protocol for FileEditView {
    type Output = ();

    open spec fn action(self) -> ActionView {
        ActionView::Run { invocation: invocation(self.editor, self.path) }
    }

    open spec fn next(self, event: EventView) -> ProgressView<FileEditView, ()> {
        match event {
            EventView::Exited { status } => ProgressView::Finished(
                editor_result(self.editor, Ok(status)),
            ),
            EventView::Failed { error } => ProgressView::Finished(
                editor_result(self.editor, Err(error)),
            ),
            _ => ProgressView::Perform(self),
        }
    }
}

impl FileEdit {
    /// The action to perform now.
    pub fn action(&self) -> (action: Action)
        ensures
            action@ == self@.action(),
    {
        Action::Run { invocation: shell_invocation(self.editor.as_slice(), self.path.as_slice()) }
    }

    /// Takes the answer to [`Self::action`].
    pub fn step(self, event: Event) -> (progress: Progress<FileEdit, ()>)
        ensures
            progress@ == self@.next(event@),
    {
        match event {
            Event::Exited { status } => Progress::Finished(editor_outcome(self.editor, Ok(status))),
            Event::Failed { error } => Progress::Finished(editor_outcome(self.editor, Err(error))),
            _ => Progress::Perform(self),
        }
    }
}

/// Runs user's preferred editor on given file; see [`crate::Edit::file`].
pub fn edit_file(editor: Vec<u8>, path: &[u8]) -> (progress: Progress<FileEdit, ()>)
    ensures
        progress@ == ProgressView::<FileEditView, ()>::Perform(
            FileEditView { editor: editor@, path: path@ },
        ),
{
    Progress::Perform(FileEdit { editor, path: to_vec(path) })
}

/// The Buffer Editor at work.  It writes the buffer to a temporary file,
/// lets the editor change that file, reads the file again by its path, and
/// deletes it.
#[derive(Debug, PartialEq, Eq)]
pub enum BufferEdit {
    /// Asks where temporary files go.  `editor` is the command, or `None`
    /// where no editor is to run.
    Locating { editor: Option<Vec<u8>>, data: Vec<u8> },
    /// Creates the temporary file in `dir`.
    Creating { editor: Option<Vec<u8>>, data: Vec<u8>, dir: Vec<u8> },
    /// Writes the buffer to the temporary file.
    Writing { editor: Option<Vec<u8>>, data: Vec<u8>, path: Vec<u8> },
    /// Runs the editor on the temporary file.
    Running { editor: Vec<u8>, path: Vec<u8> },
    /// Reads what is now at the path of the temporary file.
    Reading { path: Vec<u8> },
    /// Deletes the temporary file; `result` is what the operation then
    /// finishes with.
    Removing { path: Vec<u8>, result: Result<Vec<u8>, Error> },
}

/// What a [`BufferEdit`] stands for.
pub enum BufferEditView {
    Locating { editor: Option<Seq<u8>>, data: Seq<u8> },
    Creating { editor: Option<Seq<u8>>, data: Seq<u8>, dir: Seq<u8> },
    Writing { editor: Option<Seq<u8>>, data: Seq<u8>, path: Seq<u8> },
    Running { editor: Seq<u8>, path: Seq<u8> },
    Reading { path: Seq<u8> },
    Removing { path: Seq<u8>, result: Result<Seq<u8>, Failure> },
}

impl View for BufferEdit {
    type V = BufferEditView;

    open spec fn view(&self) -> BufferEditView {
        match self {
            BufferEdit::Locating { editor, data } => BufferEditView::Locating {
                editor: option_view(*editor),
                data: data@,
            },
            BufferEdit::Creating { editor, data, dir } => BufferEditView::Creating {
                editor: option_view(*editor),
                data: data@,
                dir: dir@,
            },
            BufferEdit::Writing { editor, data, path } => BufferEditView::Writing {
                editor: option_view(*editor),
                data: data@,
                path: path@,
            },
            BufferEdit::Running { editor, path } => BufferEditView::Running {
                editor: editor@,
                path: path@,
            },
            BufferEdit::Reading { path } => BufferEditView::Reading { path: path@ },
            BufferEdit::Removing { path, result } => BufferEditView::Removing {
                path: path@,
                result: result_view(*result),
            },
        }
    }
}

impl Protocol for BufferEditView {
    type Output = Seq<u8>;

    open spec fn action(self) -> ActionView {
        match self {
            BufferEditView::Locating { .. } => ActionView::TempDir,
            BufferEditView::Creating { dir, .. } => ActionView::Create { dir },
            BufferEditView::Writing { data, path, .. } => ActionView::Write { path, data },
            BufferEditView::Running { editor, path } => ActionView::Run {
                invocation: invocation(editor, path),
            },
            BufferEditView::Reading { path } => ActionView::Read { path },
            BufferEditView::Removing { path, .. } => ActionView::Remove { path },
        }
    }

    open spec fn next(self, event: EventView) -> ProgressView<BufferEditView, Seq<u8>> {
        match (self, event) {
            (BufferEditView::Locating { editor, data }, EventView::Dir { path }) => {
                ProgressView::Perform(BufferEditView::Creating { editor, data, dir: path })
            },
            (BufferEditView::Creating { editor, data, .. }, EventView::Created { path }) => {
                ProgressView::Perform(BufferEditView::Writing { editor, data, path })
            },
            (BufferEditView::Creating { dir, .. }, EventView::Failed { error }) => {
                ProgressView::Finished(Err(Failure::Path { path: dir, error }))
            },
            (BufferEditView::Writing { editor, path, .. }, EventView::Done) => match editor {
                Some(editor) => ProgressView::Perform(BufferEditView::Running { editor, path }),
                None => Self::read_back(path),
            },
            (BufferEditView::Writing { path, .. }, EventView::Failed { error }) => Self::give_up(
                path,
                Failure::Path { path, error },
            ),
            (BufferEditView::Running { editor, path }, EventView::Exited { status }) => {
                Self::after_editor(editor, path, Ok(status))
            },
            (BufferEditView::Running { editor, path }, EventView::Failed { error }) => {
                Self::after_editor(editor, path, Err(error))
            },
            (BufferEditView::Reading { path }, EventView::Data { data }) => ProgressView::Perform(
                BufferEditView::Removing { path, result: Ok(data) },
            ),
            (BufferEditView::Reading { path }, EventView::Failed { error }) => Self::give_up(
                path,
                Failure::Path { path, error },
            ),
            (BufferEditView::Removing { result, .. }, EventView::Done) => ProgressView::Finished(
                result,
            ),
            _ => ProgressView::Perform(self),
        }
    }
}

impl BufferEditView {
    /// The state after the file is written, or after the editor has
    /// succeeded: the one that reads the file again.
    pub open spec fn read_back(path: Seq<u8>) -> ProgressView<BufferEditView, Seq<u8>> {
        ProgressView::Perform(BufferEditView::Reading { path })
    }

    /// The state that deletes the temporary file after `failure`.
    pub open spec fn give_up(path: Seq<u8>, failure: Failure) -> ProgressView<
        BufferEditView,
        Seq<u8>,
    > {
        ProgressView::Perform(BufferEditView::Removing { path, result: Err(failure) })
    }

    /// Where the outcome of running the editor leads.
    pub open spec fn after_editor(
        editor: Seq<u8>,
        path: Seq<u8>,
        outcome: Result<Termination, OsErrorView>,
    ) -> ProgressView<BufferEditView, Seq<u8>> {
        match editor_result(editor, outcome) {
            Ok(()) => Self::read_back(path),
            Err(failure) => Self::give_up(path, failure),
        }
    }
}

impl BufferEdit {
    /// The action to perform now.
    pub fn action(&self) -> (action: Action)
        ensures
            action@ == self@.action(),
    {
        match self {
            BufferEdit::Locating { .. } => Action::TempDir,
            BufferEdit::Creating { dir, .. } => Action::Create { dir: dir.clone() },
            BufferEdit::Writing { data, path, .. } => Action::Write {
                path: path.clone(),
                data: data.clone(),
            },
            BufferEdit::Running { editor, path } => Action::Run {
                invocation: shell_invocation(editor.as_slice(), path.as_slice()),
            },
            BufferEdit::Reading { path } => Action::Read { path: path.clone() },
            BufferEdit::Removing { path, .. } => Action::Remove { path: path.clone() },
        }
    }

    /// The state that deletes the temporary file after `error`.
    fn give_up(path: Vec<u8>, error: Error) -> (progress: Progress<BufferEdit, Vec<u8>>)
        ensures
            progress@ == BufferEditView::give_up(path@, error@),
    {
        Progress::Perform(BufferEdit::Removing { path, result: Err(error) })
    }

    /// Where the outcome of running the editor leads.
    fn after_editor(
        editor: Vec<u8>,
        path: Vec<u8>,
        outcome: Result<Termination, OsError>,
    ) -> (progress: Progress<BufferEdit, Vec<u8>>)
        ensures
            progress@ == BufferEditView::after_editor(editor@, path@, outcome_view(outcome)),
    {
        match editor_outcome(editor, outcome) {
            Ok(()) => Progress::Perform(BufferEdit::Reading { path }),
            Err(error) => Self::give_up(path, error),
        }
    }

    /// Takes the answer to [`Self::action`].
    pub fn step(self, event: Event) -> (progress: Progress<BufferEdit, Vec<u8>>)
        ensures
            progress@ == self@.next(event@),
    {
        match (self, event) {
            (BufferEdit::Locating { editor, data }, Event::Dir { path }) => Progress::Perform(
                BufferEdit::Creating { editor, data, dir: path },
            ),
            (BufferEdit::Creating { editor, data, .. }, Event::Created { path }) => {
                Progress::Perform(BufferEdit::Writing { editor, data, path })
            },
            (BufferEdit::Creating { dir, .. }, Event::Failed { error }) => Progress::Finished(
                Err(Error::path(dir, error)),
            ),
            (BufferEdit::Writing { editor, path, .. }, Event::Done) => match editor {
                Some(editor) => Progress::Perform(BufferEdit::Running { editor, path }),
                None => Progress::Perform(BufferEdit::Reading { path }),
            },
            (BufferEdit::Writing { path, .. }, Event::Failed { error }) => {
                let failure = Error::path(path.clone(), error);
                Self::give_up(path, failure)
            },
            (BufferEdit::Running { editor, path }, Event::Exited { status }) => Self::after_editor(
                editor,
                path,
                Ok(status),
            ),
            (BufferEdit::Running { editor, path }, Event::Failed { error }) => Self::after_editor(
                editor,
                path,
                Err(error),
            ),
            (BufferEdit::Reading { path }, Event::Data { data }) => Progress::Perform(
                BufferEdit::Removing { path, result: Ok(data) },
            ),
            (BufferEdit::Reading { path }, Event::Failed { error }) => {
                let failure = Error::path(path.clone(), error);
                Self::give_up(path, failure)
            },
            (BufferEdit::Removing { result, .. }, Event::Done) => Progress::Finished(result),
            (state, _) => Progress::Perform(state),
        }
    }
}

/// Runs user's preferred editor to edit data held in memory; see
/// [`crate::Edit::buffer`].  `editor` is the command, or `None` where no
/// editor is to run.
pub fn edit_buffer(
    editor: Option<Vec<u8>>,
    buf: Vec<u8>,
) -> (progress: Progress<BufferEdit, Vec<u8>>)
    ensures
        progress@ == ProgressView::<BufferEditView, Seq<u8>>::Perform(
            BufferEditView::Locating { editor: option_view(editor), data: buf@ },
        ),
{
    Progress::Perform(BufferEdit::Locating { editor, data: buf })
}

/// The Atomic Copy Editor at work.  It copies `src` to a temporary file
/// beside `dst`, lets the editor change the copy, and renames the copy to
/// `dst`.  Until that one rename nothing at `dst` is touched.
#[derive(Debug, PartialEq, Eq)]
pub enum CopyEdit {
    /// Asks for the parent of `dst`: the directory for the temporary file.
    /// `editor` is the command, or `None` where no editor is to run.
    Locating { editor: Option<Vec<u8>>, src: Vec<u8>, dst: Vec<u8> },
    /// The parent is the empty path: asks for the current directory.
    Resolving { editor: Option<Vec<u8>>, src: Vec<u8>, dst: Vec<u8> },
    /// Opens `src`.
    Opening { editor: Option<Vec<u8>>, src: Vec<u8>, dst: Vec<u8>, dir: Vec<u8> },
    /// Creates the temporary file in `dir`.
    Creating { editor: Option<Vec<u8>>, src: Vec<u8>, dst: Vec<u8>, dir: Vec<u8> },
    /// Copies `src` to the temporary file.
    Copying { editor: Option<Vec<u8>>, src: Vec<u8>, dst: Vec<u8>, path: Vec<u8> },
    /// Runs the editor on the temporary file.
    Running { editor: Vec<u8>, dst: Vec<u8>, path: Vec<u8> },
    /// Renames the temporary file to `dst`.
    Persisting { dst: Vec<u8>, path: Vec<u8> },
    /// Deletes the temporary file; `error` is what the operation then
    /// finishes with.
    Removing { path: Vec<u8>, error: Error },
}

/// What a [`CopyEdit`] stands for.
pub enum CopyEditView {
    Locating { editor: Option<Seq<u8>>, src: Seq<u8>, dst: Seq<u8> },
    Resolving { editor: Option<Seq<u8>>, src: Seq<u8>, dst: Seq<u8> },
    Opening { editor: Option<Seq<u8>>, src: Seq<u8>, dst: Seq<u8>, dir: Seq<u8> },
    Creating { editor: Option<Seq<u8>>, src: Seq<u8>, dst: Seq<u8>, dir: Seq<u8> },
    Copying { editor: Option<Seq<u8>>, src: Seq<u8>, dst: Seq<u8>, path: Seq<u8> },
    Running { editor: Seq<u8>, dst: Seq<u8>, path: Seq<u8> },
    Persisting { dst: Seq<u8>, path: Seq<u8> },
    Removing { path: Seq<u8>, error: Failure },
}

impl View for CopyEdit {
    type V = CopyEditView;

    open spec fn view(&self) -> CopyEditView {
        match self {
            CopyEdit::Locating { editor, src, dst } => CopyEditView::Locating {
                editor: option_view(*editor),
                src: src@,
                dst: dst@,
            },
            CopyEdit::Resolving { editor, src, dst } => CopyEditView::Resolving {
                editor: option_view(*editor),
                src: src@,
                dst: dst@,
            },
            CopyEdit::Opening { editor, src, dst, dir } => CopyEditView::Opening {
                editor: option_view(*editor),
                src: src@,
                dst: dst@,
                dir: dir@,
            },
            CopyEdit::Creating { editor, src, dst, dir } => CopyEditView::Creating {
                editor: option_view(*editor),
                src: src@,
                dst: dst@,
                dir: dir@,
            },
            CopyEdit::Copying { editor, src, dst, path } => CopyEditView::Copying {
                editor: option_view(*editor),
                src: src@,
                dst: dst@,
                path: path@,
            },
            CopyEdit::Running { editor, dst, path } => CopyEditView::Running {
                editor: editor@,
                dst: dst@,
                path: path@,
            },
            CopyEdit::Persisting { dst, path } => CopyEditView::Persisting {
                dst: dst@,
                path: path@,
            },
            CopyEdit::Removing { path, error } => CopyEditView::Removing {
                path: path@,
                error: error@,
            },
        }
    }
}

impl Protocol for CopyEditView {
    type Output = ();

    open spec fn action(self) -> ActionView {
        match self {
            CopyEditView::Locating { dst, .. } => ActionView::Parent { path: dst },
            CopyEditView::Resolving { .. } => ActionView::CurrentDir,
            CopyEditView::Opening { src, .. } => ActionView::Open { path: src },
            CopyEditView::Creating { dir, .. } => ActionView::Create { dir },
            CopyEditView::Copying { src, path, .. } => ActionView::Copy { src, path },
            CopyEditView::Running { editor, path, .. } => ActionView::Run {
                invocation: invocation(editor, path),
            },
            CopyEditView::Persisting { dst, path } => ActionView::Persist { path, dst },
            CopyEditView::Removing { path, .. } => ActionView::Remove { path },
        }
    }

    open spec fn next(self, event: EventView) -> ProgressView<CopyEditView, ()> {
        match (self, event) {
            (CopyEditView::Locating { dst, .. }, EventView::Parent { parent: None }) => {
                ProgressView::Finished(Err(Failure::Path { path: dst, error: is_a_directory() }))
            },
            (
                CopyEditView::Locating { editor, src, dst },
                EventView::Parent { parent: Some(dir) },
            ) => if dir.len() == 0 {
                ProgressView::Perform(CopyEditView::Resolving { editor, src, dst })
            } else {
                ProgressView::Perform(CopyEditView::Opening { editor, src, dst, dir })
            },
            (CopyEditView::Resolving { editor, src, dst }, EventView::Dir { path }) => {
                ProgressView::Perform(CopyEditView::Opening { editor, src, dst, dir: path })
            },
            (CopyEditView::Resolving { .. }, EventView::Failed { error }) => {
                ProgressView::Finished(Err(Failure::Path { path: Seq::empty(), error }))
            },
            (CopyEditView::Opening { editor, src, dst, dir }, EventView::Done) => {
                ProgressView::Perform(CopyEditView::Creating { editor, src, dst, dir })
            },
            (CopyEditView::Opening { src, .. }, EventView::Failed { error }) => {
                ProgressView::Finished(Err(Failure::Path { path: src, error }))
            },
            (CopyEditView::Creating { editor, src, dst, .. }, EventView::Created { path }) => {
                ProgressView::Perform(CopyEditView::Copying { editor, src, dst, path })
            },
            (CopyEditView::Creating { dir, .. }, EventView::Failed { error }) => {
                ProgressView::Finished(Err(Failure::Path { path: dir, error }))
            },
            (CopyEditView::Copying { editor, dst, path, .. }, EventView::Done) => match editor {
                Some(editor) => ProgressView::Perform(
                    CopyEditView::Running { editor, dst, path },
                ),
                None => Self::persist(dst, path),
            },
            (CopyEditView::Copying { path, .. }, EventView::Failed { error }) => Self::give_up(
                path,
                Failure::Path { path, error },
            ),
            (CopyEditView::Running { editor, dst, path }, EventView::Exited { status }) => {
                Self::after_editor(editor, dst, path, Ok(status))
            },
            (CopyEditView::Running { editor, dst, path }, EventView::Failed { error }) => {
                Self::after_editor(editor, dst, path, Err(error))
            },
            (CopyEditView::Persisting { .. }, EventView::Done) => ProgressView::Finished(Ok(())),
            (CopyEditView::Persisting { path, .. }, EventView::Failed { error }) => Self::give_up(
                path,
                Failure::Path { path, error },
            ),
            (CopyEditView::Removing { error, .. }, EventView::Done) => ProgressView::Finished(
                Err(error),
            ),
            _ => ProgressView::Perform(self),
        }
    }
}

impl CopyEditView {
    /// The path of the temporary file, in the states that have one.
    pub open spec fn temporary(self) -> Option<Seq<u8>> {
        match self {
            CopyEditView::Copying { path, .. } => Some(path),
            CopyEditView::Running { path, .. } => Some(path),
            CopyEditView::Persisting { path, .. } => Some(path),
            CopyEditView::Removing { path, .. } => Some(path),
            _ => None,
        }
    }

    /// The state that renames the temporary file to `dst`.
    pub open spec fn persist(dst: Seq<u8>, path: Seq<u8>) -> ProgressView<CopyEditView, ()> {
        ProgressView::Perform(CopyEditView::Persisting { dst, path })
    }

    /// The state that deletes the temporary file after `failure`.
    pub open spec fn give_up(path: Seq<u8>, failure: Failure) -> ProgressView<CopyEditView, ()> {
        ProgressView::Perform(CopyEditView::Removing { path, error: failure })
    }

    /// Where the outcome of running the editor leads.
    pub open spec fn after_editor(
        editor: Seq<u8>,
        dst: Seq<u8>,
        path: Seq<u8>,
        outcome: Result<Termination, OsErrorView>,
    ) -> ProgressView<CopyEditView, ()> {
        match editor_result(editor, outcome) {
            Ok(()) => Self::persist(dst, path),
            Err(failure) => Self::give_up(path, failure),
        }
    }
}

impl CopyEdit {
    /// The action to perform now.
    pub fn action(&self) -> (action: Action)
        ensures
            action@ == self@.action(),
    {
        match self {
            CopyEdit::Locating { dst, .. } => Action::Parent { path: dst.clone() },
            CopyEdit::Resolving { .. } => Action::CurrentDir,
            CopyEdit::Opening { src, .. } => Action::Open { path: src.clone() },
            CopyEdit::Creating { dir, .. } => Action::Create { dir: dir.clone() },
            CopyEdit::Copying { src, path, .. } => Action::Copy {
                src: src.clone(),
                path: path.clone(),
            },
            CopyEdit::Running { editor, path, .. } => Action::Run {
                invocation: shell_invocation(editor.as_slice(), path.as_slice()),
            },
            CopyEdit::Persisting { dst, path } => Action::Persist {
                path: path.clone(),
                dst: dst.clone(),
            },
            CopyEdit::Removing { path, .. } => Action::Remove { path: path.clone() },
        }
    }

    /// The state that deletes the temporary file after `error`.
    fn give_up(path: Vec<u8>, error: Error) -> (progress: Progress<CopyEdit, ()>)
        ensures
            progress@ == CopyEditView::give_up(path@, error@),
    {
        Progress::Perform(CopyEdit::Removing { path, error })
    }

    /// Where the outcome of running the editor leads.
    fn after_editor(
        editor: Vec<u8>,
        dst: Vec<u8>,
        path: Vec<u8>,
        outcome: Result<Termination, OsError>,
    ) -> (progress: Progress<CopyEdit, ()>)
        ensures
            progress@ == CopyEditView::after_editor(editor@, dst@, path@, outcome_view(outcome)),
    {
        match editor_outcome(editor, outcome) {
            Ok(()) => Progress::Perform(CopyEdit::Persisting { dst, path }),
            Err(error) => Self::give_up(path, error),
        }
    }

    /// Takes the answer to [`Self::action`].
    pub fn step(self, event: Event) -> (progress: Progress<CopyEdit, ()>)
        ensures
            progress@ == self@.next(event@),
    {
        match self {
            CopyEdit::Running { editor, dst, path } => match event {
                Event::Exited { status } => Self::after_editor(editor, dst, path, Ok(status)),
                Event::Failed { error } => Self::after_editor(editor, dst, path, Err(error)),
                _ => Progress::Perform(CopyEdit::Running { editor, dst, path }),
            },
            CopyEdit::Persisting { dst, path } => persist(path, dst, event),
            CopyEdit::Removing { path, error } => match event {
                Event::Done => Progress::Finished(Err(error)),
                _ => Progress::Perform(CopyEdit::Removing { path, error }),
            },
            state => copy_temp(state, event),
        }
    }
}

/// Copies source file into a temporary file located next to destination:
/// the steps of [`CopyEdit`] up to the copy.
///
/// Destination path is not touched in any way.  It's only needed to determine
/// its parent directory to put a temporary file in.
fn copy_temp(state: CopyEdit, event: Event) -> (progress: Progress<CopyEdit, ()>)
    requires
        !(state is Running),
        !(state is Persisting),
        !(state is Removing),
    ensures
        progress@ == state@.next(event@),
{
    match (state, event) {
        (CopyEdit::Locating { dst, .. }, Event::Parent { parent: None }) => Progress::Finished(
            Err(Error::path(dst, OsError::is_a_directory())),
        ),
        (CopyEdit::Locating { editor, src, dst }, Event::Parent { parent: Some(dir) }) => {
            if dir.len() == 0 {
                Progress::Perform(CopyEdit::Resolving { editor, src, dst })
            } else {
                Progress::Perform(CopyEdit::Opening { editor, src, dst, dir })
            }
        },
        (CopyEdit::Resolving { editor, src, dst }, Event::Dir { path }) => Progress::Perform(
            CopyEdit::Opening { editor, src, dst, dir: path },
        ),
        (CopyEdit::Resolving { .. }, Event::Failed { error }) => Progress::Finished(
            Err(Error::path(Vec::new(), error)),
        ),
        (CopyEdit::Opening { editor, src, dst, dir }, Event::Done) => Progress::Perform(
            CopyEdit::Creating { editor, src, dst, dir },
        ),
        (CopyEdit::Opening { src, .. }, Event::Failed { error }) => Progress::Finished(
            Err(Error::path(src, error)),
        ),
        (CopyEdit::Creating { editor, src, dst, .. }, Event::Created { path }) => {
            Progress::Perform(CopyEdit::Copying { editor, src, dst, path })
        },
        (CopyEdit::Creating { dir, .. }, Event::Failed { error }) => Progress::Finished(
            Err(Error::path(dir, error)),
        ),
        (CopyEdit::Copying { editor, dst, path, .. }, Event::Done) => match editor {
            Some(editor) => Progress::Perform(CopyEdit::Running { editor, dst, path }),
            None => Progress::Perform(CopyEdit::Persisting { dst, path }),
        },
        (CopyEdit::Copying { path, .. }, Event::Failed { error }) => {
            let failure = Error::path(path.clone(), error);
            CopyEdit::give_up(path, failure)
        },
        (state, _) => Progress::Perform(state),
    }
}

/// Persist a temporary file into given destination location: the step of
/// [`CopyEdit`] that takes the answer to the rename.
fn persist(path: Vec<u8>, dst: Vec<u8>, event: Event) -> (progress: Progress<CopyEdit, ()>)
    ensures
        progress@ == (CopyEditView::Persisting { dst: dst@, path: path@ }).next(event@),
{
    match event {
        Event::Done => Progress::Finished(Ok(())),
        Event::Failed { error } => {
            let failure = Error::path(path.clone(), error);
            CopyEdit::give_up(path, failure)
        },
        _ => Progress::Perform(CopyEdit::Persisting { dst, path }),
    }
}

/// Copies `src` to `dst` letting the editor change the copy on the way; see
/// [`crate::Edit::file_copy`].  `editor` is the command, or `None` where no
/// editor is to run.
pub fn edit_file_copy(
    editor: Option<Vec<u8>>,
    src: &[u8],
    dst: &[u8],
) -> (progress: Progress<CopyEdit, ()>)
    ensures
        progress@ == ProgressView::<CopyEditView, ()>::Perform(
            CopyEditView::Locating { editor: option_view(editor), src: src@, dst: dst@ },
        ),
{
    Progress::Perform(CopyEdit::Locating { editor, src: to_vec(src), dst: to_vec(dst) })
}

} // verus!
