//! Lets a host application hand a file, or a buffer held in memory, to the
//! text editor that the user prefers.
//!
//! The crate decides; it performs no input or output itself.  It resolves the
//! editor command, recognises the commands that stand for "do not edit", and
//! runs each operation as a session: a state machine that names the next
//! action to perform on the outside world and takes the result of that
//! action as its next event.

use vstd::prelude::*;
use vstd::string::StringSliceAdditionalSpecFns;

pub mod bytes;
pub mod environment;
pub mod error;
pub mod imp;
pub mod session;
pub mod storage;

pub use environment::Environment;
pub use error::Error;

use bytes::{bytes_eq, option_view, to_vec};
use imp::{BufferEdit, BufferEditView, CopyEdit, CopyEditView, FileEdit, FileEditView};
use session::{Progress, ProgressView};

verus! {

/// Interface for allowing users to edit file in CLI applications.
///
/// Holds two optional settings: the name of an environment variable to read
/// the editor command from, and an editor command to use in preference to
/// the user's general choice.
pub struct Edit<'a> {
    /// Name of an additional environment variable to read editor command from.
    editor_variable: Option<&'a [u8]>,
    /// Command to use in preference to those determined by default methods of
    /// getting user preferences.
    editor_command: Option<&'a [u8]>,
}

/// What an [`Edit`] stands for.
pub struct EditView {
    pub editor_variable: Option<Seq<u8>>,
    pub editor_command: Option<Seq<u8>>,
}

impl<'a> View for Edit<'a> {
    type V = EditView;

    closed spec fn view(&self) -> EditView {
        EditView {
            editor_variable: match self.editor_variable {
                Some(name) => Some(name@),
                None => None,
            },
            editor_command: match self.editor_command {
                Some(command) => Some(command@),
                None => None,
            },
        }
    }
}

/// The editor command for a configuration in an environment.  The first of
/// these that is set wins: the variable that the configuration names, the
/// command that it holds, the variable `VISUAL`, the variable `EDITOR`.
/// Where none is set the command is `vi`.
pub open spec fn resolve(config: EditView, env: Map<Seq<u8>, Seq<u8>>) -> Seq<u8> {
    if config.editor_variable is Some && env.contains_key(config.editor_variable->0) {
        env[config.editor_variable->0]
    } else if config.editor_command is Some {
        config.editor_command->0
    } else if env.contains_key("VISUAL".spec_bytes()) {
        env["VISUAL".spec_bytes()]
    } else if env.contains_key("EDITOR".spec_bytes()) {
        env["EDITOR".spec_bytes()]
    } else {
        "vi".spec_bytes()
    }
}

/// The command is one of those that stand for "do not edit": `:` or `true`.
pub open spec fn is_nop(command: Seq<u8>) -> bool {
    command == ":".spec_bytes() || command == "true".spec_bytes()
}

/// The command to run, or `None` where it stands for "do not edit".
pub open spec fn unless_nop(command: Seq<u8>) -> Option<Seq<u8>> {
    if is_nop(command) {
        None
    } else {
        Some(command)
    }
}

/// Constructs default [`Edit`] object.
pub fn edit<'a>() -> (config: Edit<'a>)
    ensures
        config@ == (EditView { editor_variable: None, editor_command: None }),
{
    Edit { editor_variable: None, editor_command: None }
}

impl<'a> Default for Edit<'a> {
    fn default() -> (config: Edit<'a>)
        ensures
            config@ == (EditView { editor_variable: None, editor_command: None }),
    {
        edit()
    }
}

impl<'a> Edit<'a> {
    /// Executes text editor letting user modify the file.
    ///
    /// Where the editor command stands for "do not edit", the operation has
    /// finished as it begins, with success: nothing is asked of the driver,
    /// and the file is not touched.  Otherwise the shell is to run the
    /// command on the file.
    pub fn file(&self, env: &Environment, path: &[u8]) -> (progress: Progress<FileEdit, ()>)
        ensures
            progress@ == match unless_nop(resolve(self@, env@)) {
                Some(editor) => ProgressView::<FileEditView, ()>::Perform(
                    FileEditView { editor, path: path@ },
                ),
                None => ProgressView::Finished(Ok(())),
            },
    {
        match self.editor_unless_nop(env) {
            Some(editor) => imp::edit_file(editor, path),
            None => Progress::Finished(Ok(())),
        }
    }

    /// Writes contents of a buffer to temporary file to let user edit it.
    ///
    /// The buffer goes to a temporary file, the editor runs on that file,
    /// and what is then found at the file's path is the result.  The
    /// temporary file is deleted whatever happens.  Where the editor command
    /// stands for "do not edit", only the editor run is left out.
    pub fn buffer(
        &self,
        env: &Environment,
        buf: Vec<u8>,
    ) -> (progress: Progress<BufferEdit, Vec<u8>>)
        ensures
            progress@ == ProgressView::<BufferEditView, Seq<u8>>::Perform(
                BufferEditView::Locating {
                    editor: unless_nop(resolve(self@, env@)),
                    data: buf@,
                },
            ),
    {
        imp::edit_buffer(self.editor_unless_nop(env), buf)
    }

    /// Copies file from `src` to `dst` letting user edit it.
    ///
    /// This is a bit like first copying the file and then running
    /// [`file`](`Self::file`) on it except that the write is atomic and on
    /// failure the destination location is not affected at all.  That is, on
    /// failure if the destination file didn't exist, it won't be created and
    /// if it existed it won't be edited.  Where the editor command stands
    /// for "do not edit", the copy is made and put in place unchanged.
    pub fn file_copy(
        &self,
        env: &Environment,
        src: &[u8],
        dst: &[u8],
    ) -> (progress: Progress<CopyEdit, ()>)
        ensures
            progress@ == ProgressView::<CopyEditView, ()>::Perform(
                CopyEditView::Locating {
                    editor: unless_nop(resolve(self@, env@)),
                    src: src@,
                    dst: dst@,
                },
            ),
    {
        imp::edit_file_copy(self.editor_unless_nop(env), src, dst)
    }

    /// Returns the editor command to use to let user edit files.
    ///
    /// The resolution of the editor command goes as follows:
    /// 1. If variable name has been provided via
    ///    [`with_editor_variable`](`Self::with_editor_variable`) and such
    ///    environment variable is set, use its value.
    /// 2. Otherwise, if editor command has been provided via
    ///    [`with`](`Self::with`) method, use that command.
    /// 3. Otherwise, use the value of the `VISUAL` environment variable, and
    ///    where it is not set that of `EDITOR`.
    /// 4. If that fails as well, use `vi`.
    ///
    /// Note that returned string is a *command*: it needs to be executed
    /// through a shell.
    pub fn editor(&self, env: &Environment) -> (command: Vec<u8>)
        ensures
            command@ == resolve(self@, env@),
    {
        if let Some(name) = self.editor_variable {
            if let Some(value) = env.get(name) {
                return to_vec(value);
            }
        }
        if let Some(command) = self.editor_command {
            return to_vec(command);
        }
        if let Some(value) = env.get("VISUAL".as_bytes()) {
            return to_vec(value);
        }
        if let Some(value) = env.get("EDITOR".as_bytes()) {
            return to_vec(value);
        }
        to_vec("vi".as_bytes())
    }

    /// Returns the editor command or `None` if the command is a nop.
    ///
    /// Works like [`editor`](`Self::editor`) except that it returns `None` if
    /// the editor command is `":"` or `"true"`.  If the command is set to one
    /// of those, the file won't be edited so there's no need to execute the
    /// editor.
    pub fn editor_unless_nop(&self, env: &Environment) -> (command: Option<Vec<u8>>)
        ensures
            option_view(command) == unless_nop(resolve(self@, env@)),
    {
        let editor = self.editor(env);
        if bytes_eq(editor.as_slice(), ":".as_bytes()) || bytes_eq(
            editor.as_slice(),
            "true".as_bytes(),
        ) {
            None
        } else {
            Some(editor)
        }
    }

    /// Specifies environment variable to read user-preferred editor command
    /// from.
    ///
    /// If the variable is set, its value overrides any other methods of
    /// determining the editor command.  See [`editor`](`Self::editor`) for full
    /// description of the resolution priorities.
    pub fn with_editor_variable(&mut self, variable: &'a [u8]) -> (config: &mut Self)
        ensures
            config@ == (EditView { editor_variable: Some(variable@), ..old(self)@ }),
            *final(self) == *final(config),
    {
        self.editor_variable = Some(variable);
        self
    }

    /// Specifies editor command to edit the file with.
    ///
    /// If this option is set, it overrides the `VISUAL` and `EDITOR`
    /// environment variables but is shadowed by value of environment variable
    /// specified via [`with_editor_variable`](`Self::with_editor_variable`).
    /// See [`editor`](`Self::editor`) for full description of the resolution
    /// priorities.
    pub fn with(&mut self, editor_command: &'a [u8]) -> (config: &mut Self)
        ensures
            config@ == (EditView { editor_command: Some(editor_command@), ..old(self)@ }),
            *final(self) == *final(config),
    {
        self.editor_command = Some(editor_command);
        self
    }
}

} // verus!
