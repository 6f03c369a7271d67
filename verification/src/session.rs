//! The vocabulary of a session: the actions that an operation asks its
//! driver to perform, and the events with which the driver answers.
//!
//! An operation never touches the outside world.  It is a state machine:
//! each state names one action, the driver performs it and reports what
//! happened, and the machine moves on or finishes.

use vstd::prelude::*;

use crate::error::{result_view, Error, Failure, OsError, OsErrorView, Termination};

verus! {

/// A shell command line to run: `program flag command`, with the
/// environment variable `variable` set to `path` for it.
#[derive(Debug, Clone, PartialEq, Eq)]
pub struct Invocation {
    pub program: Vec<u8>,
    pub flag: Vec<u8>,
    pub command: Vec<u8>,
    pub variable: Vec<u8>,
    pub path: Vec<u8>,
}

/// What an [`Invocation`] stands for.
pub struct InvocationView {
    pub program: Seq<u8>,
    pub flag: Seq<u8>,
    pub command: Seq<u8>,
    pub variable: Seq<u8>,
    pub path: Seq<u8>,
}

impl View for Invocation {
    type V = InvocationView;

    open spec fn view(&self) -> InvocationView {
        InvocationView {
            program: self.program@,
            flag: self.flag@,
            command: self.command@,
            variable: self.variable@,
            path: self.path@,
        }
    }
}

/// One thing for the driver to do.  Each has one answer, an [`Event`].
#[derive(Debug, Clone, PartialEq, Eq)]
pub enum Action {
    /// Find the directory for temporary files.
    TempDir,
    /// Find the current working directory.
    CurrentDir,
    /// Find the parent of `path`: the path without its last component.
    Parent { path: Vec<u8> },
    /// Open the file at `path` for reading, and keep it open.
    Open { path: Vec<u8> },
    /// Create a temporary file with a new name in the directory `dir`.
    Create { dir: Vec<u8> },
    /// Write `data` to the temporary file at `path`, then close it.
    Write { path: Vec<u8>, data: Vec<u8> },
    /// Copy all of the open file `src` to the temporary file at `path`, then
    /// close both.
    Copy { src: Vec<u8>, path: Vec<u8> },
    /// Run the shell, wait for it to end, and capture nothing.
    Run { invocation: Invocation },
    /// Open the file that is now at `path`, and read all of it.
    Read { path: Vec<u8> },
    /// Rename the temporary file at `path` to `dst`, in one step, replacing
    /// a file that is there.
    Persist { path: Vec<u8>, dst: Vec<u8> },
    /// Delete the temporary file at `path`.  A failure to do so is not
    /// reported.
    Remove { path: Vec<u8> },
}

/// What an [`Action`] stands for.
pub enum ActionView {
    TempDir,
    CurrentDir,
    Parent { path: Seq<u8> },
    Open { path: Seq<u8> },
    Create { dir: Seq<u8> },
    Write { path: Seq<u8>, data: Seq<u8> },
    Copy { src: Seq<u8>, path: Seq<u8> },
    Run { invocation: InvocationView },
    Read { path: Seq<u8> },
    Persist { path: Seq<u8>, dst: Seq<u8> },
    Remove { path: Seq<u8> },
}

impl View for Action {
    type V = ActionView;

    open spec fn view(&self) -> ActionView {
        match self {
            Action::TempDir => ActionView::TempDir,
            Action::CurrentDir => ActionView::CurrentDir,
            Action::Parent { path } => ActionView::Parent { path: path@ },
            Action::Open { path } => ActionView::Open { path: path@ },
            Action::Create { dir } => ActionView::Create { dir: dir@ },
            Action::Write { path, data } => ActionView::Write { path: path@, data: data@ },
            Action::Copy { src, path } => ActionView::Copy { src: src@, path: path@ },
            Action::Run { invocation } => ActionView::Run { invocation: invocation@ },
            Action::Read { path } => ActionView::Read { path: path@ },
            Action::Persist { path, dst } => ActionView::Persist { path: path@, dst: dst@ },
            Action::Remove { path } => ActionView::Remove { path: path@ },
        }
    }
}

/// What the driver reports of the action it performed.
#[derive(Debug, Clone, PartialEq, Eq)]
pub enum Event {
    /// The action was carried out, and there is nothing more to say of it.
    Done,
    /// The directory that was asked for.
    Dir { path: Vec<u8> },
    /// The parent that was asked for, or `None` where the path has none.
    Parent { parent: Option<Vec<u8>> },
    /// The temporary file was created, at `path`.
    Created { path: Vec<u8> },
    /// The contents of the file that was read.
    Data { data: Vec<u8> },
    /// The shell ran, and ended so.
    Exited { status: Termination },
    /// The operating system refused the action.
    Failed { error: OsError },
}

/// What an [`Event`] stands for.
pub enum EventView {
    Done,
    Dir { path: Seq<u8> },
    Parent { parent: Option<Seq<u8>> },
    Created { path: Seq<u8> },
    Data { data: Seq<u8> },
    Exited { status: Termination },
    Failed { error: OsErrorView },
}

impl View for Event {
    type V = EventView;

    open spec fn view(&self) -> EventView {
        match self {
            Event::Done => EventView::Done,
            Event::Dir { path } => EventView::Dir { path: path@ },
            Event::Parent { parent } => EventView::Parent {
                parent: match parent {
                    Some(path) => Some(path@),
                    None => None,
                },
            },
            Event::Created { path } => EventView::Created { path: path@ },
            Event::Data { data } => EventView::Data { data: data@ },
            Event::Exited { status } => EventView::Exited { status: *status },
            Event::Failed { error } => EventView::Failed { error: error@ },
        }
    }
}

impl ActionView {
    /// `event` is an answer to this action.
    pub open spec fn answered_by(self, event: EventView) -> bool {
        match self {
            ActionView::TempDir => event is Dir,
            ActionView::CurrentDir => event is Dir || event is Failed,
            ActionView::Parent { .. } => event is Parent,
            ActionView::Open { .. } => event is Done || event is Failed,
            ActionView::Create { .. } => event is Created || event is Failed,
            ActionView::Write { .. } => event is Done || event is Failed,
            ActionView::Copy { .. } => event is Done || event is Failed,
            ActionView::Run { .. } => event is Exited || event is Failed,
            ActionView::Read { .. } => event is Data || event is Failed,
            ActionView::Persist { .. } => event is Done || event is Failed,
            ActionView::Remove { .. } => event is Done,
        }
    }
}

impl Action {
    /// Tells whether `event` is an answer to this action.
    pub fn accepts(&self, event: &Event) -> (yes: bool)
        ensures
            yes == self@.answered_by(event@),
    {
        match self {
            Action::TempDir => matches!(event, Event::Dir { .. }),
            Action::CurrentDir => matches!(event, Event::Dir { .. } | Event::Failed { .. }),
            Action::Parent { .. } => matches!(event, Event::Parent { .. }),
            Action::Open { .. } => matches!(event, Event::Done | Event::Failed { .. }),
            Action::Create { .. } => matches!(event, Event::Created { .. } | Event::Failed { .. }),
            Action::Write { .. } => matches!(event, Event::Done | Event::Failed { .. }),
            Action::Copy { .. } => matches!(event, Event::Done | Event::Failed { .. }),
            Action::Run { .. } => matches!(event, Event::Exited { .. } | Event::Failed { .. }),
            Action::Read { .. } => matches!(event, Event::Data { .. } | Event::Failed { .. }),
            Action::Persist { .. } => matches!(event, Event::Done | Event::Failed { .. }),
            Action::Remove { .. } => matches!(event, Event::Done),
        }
    }
}

/// Where an operation stands: it waits in a state for the answer to that
/// state's action, or it has finished with a result.
#[derive(Debug, PartialEq, Eq)]
pub enum Progress<S, T> {
    Perform(S),
    Finished(Result<T, Error>),
}

/// What a [`Progress`] stands for.
pub enum ProgressView<S, T> {
    Perform(S),
    Finished(Result<T, Failure>),
}

/// A state machine of the kind that an operation is: each state asks for one
/// action, and the answer leads to the next state or to the result.
pub trait Protocol: Sized {
    /// What the operation returns where it succeeds.
    type Output;

    /// The action that the state waits for.
    spec fn action(self) -> ActionView;

    /// Where the answer `event` leads.
    spec fn next(self, event: EventView) -> ProgressView<Self, Self::Output>;
}

impl<S: View, T: View> View for Progress<S, T> {
    type V = ProgressView<S::V, T::V>;

    open spec fn view(&self) -> ProgressView<S::V, T::V> {
        match self {
            Progress::Perform(state) => ProgressView::Perform(state@),
            Progress::Finished(result) => ProgressView::Finished(result_view(*result)),
        }
    }
}

} // verus!
