//! A model of the files that the operations work on, and what the
//! operations guarantee in it.
//!
//! The model is sequential: the files change only through the actions of
//! the operation at hand.  A temporary file gets a name that no file has.
//! The editor and a failed write may leave anything at the one path they
//! were given, the file's absence included, and touch no other path.
//! A rename happens as a whole or not at all, and a file that is deleted is
//! gone.  [`performs`] says so action by action; what is proved here holds
//! of every course that it allows.

use vstd::prelude::*;

use crate::error::{Failure, Termination};
use crate::imp::{editor_result, BufferEditView, CopyEditView, FileEditView};
use crate::session::{ActionView, EventView, ProgressView, Protocol};

verus! {

/// The files: the paths at which there is one, each with its contents.
pub type Storage = Map<Seq<u8>, Seq<u8>>;

/// `left` and `right` hold the same files, but for what is at `path`.
pub open spec fn same_but_at(left: Storage, right: Storage, path: Seq<u8>) -> bool {
    left.remove(path) == right.remove(path)
}

/// Performing `action` with the files as in `before` can be answered by
/// `event` and leave the files as in `after`.
pub open spec fn performs(
    action: ActionView,
    event: EventView,
    before: Storage,
    after: Storage,
) -> bool {
    &&& action.answered_by(event)
    &&& match action {
        ActionView::TempDir | ActionView::CurrentDir | ActionView::Parent { .. } => after
            == before,
        ActionView::Open { path } => after == before && (event is Done ==> before.contains_key(
            path,
        )),
        ActionView::Create { .. } => match event {
            EventView::Created { path } => !before.contains_key(path) && after == before.insert(
                path,
                Seq::empty(),
            ),
            _ => after == before,
        },
        ActionView::Write { path, data } => match event {
            EventView::Done => after == before.insert(path, data),
            _ => same_but_at(after, before, path),
        },
        ActionView::Copy { src, path } => match event {
            EventView::Done => before.contains_key(src) && after == before.insert(
                path,
                before[src],
            ),
            _ => same_but_at(after, before, path),
        },
        ActionView::Run { invocation } => same_but_at(after, before, invocation.path),
        ActionView::Read { path } => after == before && (event matches EventView::Data { data }
            ==> before.contains_key(path) && data == before[path]),
        ActionView::Persist { path, dst } => match event {
            EventView::Done => before.contains_key(path) && after == before.remove(path).insert(
                dst,
                before[path],
            ),
            _ => after == before,
        },
        ActionView::Remove { path } => after == before.remove(path),
    }
}

/// One exchange between an operation and its driver: the state that asked
/// for an action, the answer, and the files as the action left them.
pub struct Turn<S> {
    pub state: S,
    pub event: EventView,
    pub after: Storage,
}

/// The files as they are when turn `i` of `run` begins.
pub open spec fn files_before<S>(initial: Storage, run: Seq<Turn<S>>, i: int) -> Storage {
    if i <= 0 {
        initial
    } else {
        run[i - 1].after
    }
}

/// Turn `i` of `run` is one that the model allows, and it leads to the next
/// turn's state, or from the last turn to `result`.
pub open spec fn follows<S: Protocol>(
    initial: Storage,
    run: Seq<Turn<S>>,
    result: Result<S::Output, Failure>,
    i: int,
) -> bool {
    &&& performs(run[i].state.action(), run[i].event, files_before(initial, run, i), run[i].after)
    &&& run[i].state.next(run[i].event) == if i + 1 < run.len() {
        ProgressView::Perform(run[i + 1].state)
    } else {
        ProgressView::Finished(result)
    }
}

/// `run` is a whole course of an operation, from its first state to
/// `result`, that starts with the files as in `initial`.
pub open spec fn course<S: Protocol>(
    initial: Storage,
    run: Seq<Turn<S>>,
    result: Result<S::Output, Failure>,
) -> bool {
    &&& run.len() > 0
    &&& forall|i: int| 0 <= i < run.len() ==> #[trigger] follows(initial, run, result, i)
}

/// The File Editor has one turn, the editor's, and so touches no file but
/// the one it was given.
pub proof fn file_edit_touches_its_file_alone(
    initial: Storage,
    run: Seq<Turn<FileEditView>>,
    result: Result<(), Failure>,
)
    requires
        course(initial, run, result),
    ensures
        run.len() == 1,
        same_but_at(run.last().after, initial, run[0].state.path),
        match run[0].event {
            EventView::Exited { status } => result == editor_result(
                run[0].state.editor,
                Ok(status),
            ),
            EventView::Failed { error } => result == editor_result(
                run[0].state.editor,
                Err(error),
            ),
            _ => false,
        },
{
    assert(follows(initial, run, result, 0));
}

/// What holds of the files while a Buffer Editor for `data` is in `state`:
/// they are the initial ones, and the temporary file once it is made.
/// Without an editor, the file holds `data` from the time it is written.
spec fn buffer_holds(
    editor: Option<Seq<u8>>,
    data: Seq<u8>,
    state: BufferEditView,
    initial: Storage,
    now: Storage,
) -> bool {
    match state {
        BufferEditView::Locating { editor: e, data: d } => e == editor && d == data && now
            == initial,
        BufferEditView::Creating { editor: e, data: d, .. } => e == editor && d == data && now
            == initial,
        BufferEditView::Writing { editor: e, data: d, path } => {
            &&& e == editor
            &&& d == data
            &&& !initial.contains_key(path)
            &&& now.remove(path) == initial
        },
        BufferEditView::Running { editor: e, path } => {
            &&& editor == Some(e)
            &&& !initial.contains_key(path)
            &&& now.remove(path) == initial
        },
        BufferEditView::Reading { path } => {
            &&& !initial.contains_key(path)
            &&& now.remove(path) == initial
            &&& editor is None ==> now.contains_key(path) && now[path] == data
        },
        BufferEditView::Removing { path, result } => {
            &&& !initial.contains_key(path)
            &&& now.remove(path) == initial
            &&& editor is None && result is Ok ==> result->Ok_0 == data
        },
    }
}

proof fn lemma_buffer_holds(
    editor: Option<Seq<u8>>,
    data: Seq<u8>,
    initial: Storage,
    run: Seq<Turn<BufferEditView>>,
    result: Result<Seq<u8>, Failure>,
    i: int,
)
    requires
        course(initial, run, result),
        run[0].state == (BufferEditView::Locating { editor, data }),
        0 <= i < run.len(),
    ensures
        buffer_holds(editor, data, run[i].state, initial, files_before(initial, run, i)),
    decreases i,
{
    if i > 0 {
        lemma_buffer_holds(editor, data, initial, run, result, i - 1);
        assert(follows(initial, run, result, i - 1));
        let after = run[i - 1].after;
        match run[i - 1].state {
            BufferEditView::Creating { .. } => {
                if let EventView::Created { path } = run[i - 1].event {
                    assert(after.remove(path) =~= initial);
                }
            },
            BufferEditView::Writing { path, .. } => {
                assert(after.remove(path) =~= initial);
            },
            BufferEditView::Running { path, .. } => {
                assert(after.remove(path) =~= initial);
            },
            _ => {},
        }
    }
}

/// The Buffer Editor leaves no file behind and changes none: when the
/// operation has finished, with whatever result, the files are what they
/// were when it began.
pub proof fn buffer_edit_leaves_files_as_they_were(
    editor: Option<Seq<u8>>,
    data: Seq<u8>,
    initial: Storage,
    run: Seq<Turn<BufferEditView>>,
    result: Result<Seq<u8>, Failure>,
)
    requires
        course(initial, run, result),
        run[0].state == (BufferEditView::Locating { editor, data }),
    ensures
        run.last().after == initial,
{
    let last = run.len() - 1;
    lemma_buffer_holds(editor, data, initial, run, result, last);
    assert(follows(initial, run, result, last));
}

/// Without an editor the Buffer Editor returns the buffer it was given:
/// where the operation succeeds, its result is the input, byte for byte.
pub proof fn buffer_edit_without_editor_returns_input(
    data: Seq<u8>,
    initial: Storage,
    run: Seq<Turn<BufferEditView>>,
    result: Result<Seq<u8>, Failure>,
)
    requires
        course(initial, run, result),
        run[0].state == (BufferEditView::Locating { editor: None, data }),
        result is Ok,
    ensures
        result == Ok::<Seq<u8>, Failure>(data),
{
    let last = run.len() - 1;
    lemma_buffer_holds(None, data, initial, run, result, last);
    assert(follows(initial, run, result, last));
}

/// The Buffer Editor returns what is at the temporary file's path once the
/// editor has ended.  The file is read by its path, in a turn of its own
/// that comes straight after the editor's: so the result is what the editor
/// left there, also where the editor put a new file in place of the old one.
pub proof fn buffer_edit_returns_what_the_editor_left(
    editor: Seq<u8>,
    data: Seq<u8>,
    initial: Storage,
    run: Seq<Turn<BufferEditView>>,
    result: Result<Seq<u8>, Failure>,
)
    requires
        course(initial, run, result),
        run[0].state == (BufferEditView::Locating { editor: Some(editor), data }),
        result is Ok,
    ensures
        run.len() >= 3,
        run[run.len() - 3].state is Running,
        run[run.len() - 3].after.contains_key(run[run.len() - 3].state->Running_path),
        result->Ok_0 == run[run.len() - 3].after[run[run.len() - 3].state->Running_path],
{
    let last = run.len() - 1;
    assert(follows(initial, run, result, last));
    assert(follows(initial, run, result, 0));
    assert(last >= 1);
    assert(follows(initial, run, result, last - 1));
    lemma_buffer_holds(Some(editor), data, initial, run, result, last - 1);
    assert(run[last - 1].state is Reading);
    assert(last >= 2);
    assert(follows(initial, run, result, last - 2));
    lemma_buffer_holds(Some(editor), data, initial, run, result, last - 2);
}

/// The Buffer Editor hands on the failure of the editor: where the editor
/// ends without success, or the shell does not start, the operation ends
/// with the error that says so.
pub proof fn buffer_edit_reports_the_editor_failure(
    initial: Storage,
    run: Seq<Turn<BufferEditView>>,
    result: Result<Seq<u8>, Failure>,
    i: int,
)
    requires
        course(initial, run, result),
        0 <= i < run.len(),
        run[i].state is Running,
    ensures
        match run[i].event {
            EventView::Exited { status } => !status.succeeded() ==> result == Err::<
                Seq<u8>,
                Failure,
            >(Failure::Editor { editor: run[i].state->Running_editor, status }),
            EventView::Failed { error } => result == Err::<Seq<u8>, Failure>(
                Failure::Spawn { error },
            ),
            _ => false,
        },
{
    assert(follows(initial, run, result, i));
    if i + 1 < run.len() {
        assert(follows(initial, run, result, i + 1));
    }
}

/// How many turns a Buffer Editor in `state` has before it at most.
spec fn buffer_turns_left(state: BufferEditView) -> int {
    match state {
        BufferEditView::Locating { .. } => 6,
        BufferEditView::Creating { .. } => 5,
        BufferEditView::Writing { .. } => 4,
        BufferEditView::Running { .. } => 3,
        BufferEditView::Reading { .. } => 2,
        BufferEditView::Removing { .. } => 1,
    }
}

proof fn lemma_buffer_turns_left(
    initial: Storage,
    run: Seq<Turn<BufferEditView>>,
    result: Result<Seq<u8>, Failure>,
    i: int,
)
    requires
        course(initial, run, result),
        0 <= i < run.len(),
    ensures
        i + buffer_turns_left(run[i].state) <= buffer_turns_left(run[0].state),
    decreases i,
{
    if i > 0 {
        lemma_buffer_turns_left(initial, run, result, i - 1);
        assert(follows(initial, run, result, i - 1));
    }
}

/// The Buffer Editor tries nothing twice: it finishes within six turns.
pub proof fn buffer_edit_finishes_within_six_turns(
    initial: Storage,
    run: Seq<Turn<BufferEditView>>,
    result: Result<Seq<u8>, Failure>,
)
    requires
        course(initial, run, result),
    ensures
        run.len() <= 6,
{
    lemma_buffer_turns_left(initial, run, result, run.len() - 1);
}

/// The model allows the Buffer Editor to succeed: where the path `path` is
/// free, there is a course in which the buffer is written there, the editor
/// leaves `edited` in its place, and that is the result.
pub proof fn buffer_edit_can_succeed(
    editor: Seq<u8>,
    data: Seq<u8>,
    edited: Seq<u8>,
    dir: Seq<u8>,
    path: Seq<u8>,
    initial: Storage,
) -> (run: Seq<Turn<BufferEditView>>)
    requires
        !initial.contains_key(path),
    ensures
        run[0].state == (BufferEditView::Locating { editor: Some(editor), data }),
        course(initial, run, Ok(edited)),
{
    let written = initial.insert(path, data);
    let changed = initial.insert(path, edited);
    let run = seq![
        Turn {
            state: BufferEditView::Locating { editor: Some(editor), data },
            event: EventView::Dir { path: dir },
            after: initial,
        },
        Turn {
            state: BufferEditView::Creating { editor: Some(editor), data, dir },
            event: EventView::Created { path },
            after: initial.insert(path, Seq::empty()),
        },
        Turn {
            state: BufferEditView::Writing { editor: Some(editor), data, path },
            event: EventView::Done,
            after: written,
        },
        Turn {
            state: BufferEditView::Running { editor, path },
            event: EventView::Exited { status: Termination::Exited { code: 0 } },
            after: changed,
        },
        Turn {
            state: BufferEditView::Reading { path },
            event: EventView::Data { data: edited },
            after: changed,
        },
        Turn {
            state: BufferEditView::Removing { path, result: Ok(edited) },
            event: EventView::Done,
            after: initial,
        },
    ];
    let result = Ok::<Seq<u8>, Failure>(edited);
    assert(written =~= initial.insert(path, Seq::empty()).insert(path, data));
    assert(changed.remove(path) =~= written.remove(path));
    assert(initial =~= changed.remove(path));
    assert(follows(initial, run, result, 0));
    assert(follows(initial, run, result, 1));
    assert(follows(initial, run, result, 2));
    assert(follows(initial, run, result, 3));
    assert(follows(initial, run, result, 4));
    assert(follows(initial, run, result, 5));
    run
}

/// What holds of the files while an Atomic Copy Editor from `src` to `dst`
/// is in `state`: they are the initial ones, and the temporary file once it
/// is made.  Without an editor, the file holds what `src` held from the
/// time it is copied.
spec fn copy_holds(
    editor: Option<Seq<u8>>,
    src: Seq<u8>,
    dst: Seq<u8>,
    state: CopyEditView,
    initial: Storage,
    now: Storage,
) -> bool {
    &&& match state.temporary() {
        Some(path) => !initial.contains_key(path) && now.remove(path) == initial,
        None => now == initial,
    }
    &&& match state {
        CopyEditView::Locating { editor: e, src: s, dst: d } => e == editor && s == src && d
            == dst,
        CopyEditView::Resolving { editor: e, src: s, dst: d } => e == editor && s == src && d
            == dst,
        CopyEditView::Opening { editor: e, src: s, dst: d, .. } => e == editor && s == src && d
            == dst,
        CopyEditView::Creating { editor: e, src: s, dst: d, .. } => {
            &&& e == editor
            &&& s == src
            &&& d == dst
            &&& initial.contains_key(src)
        },
        CopyEditView::Copying { editor: e, src: s, dst: d, .. } => {
            &&& e == editor
            &&& s == src
            &&& d == dst
            &&& initial.contains_key(src)
        },
        CopyEditView::Running { editor: e, dst: d, .. } => editor == Some(e) && d == dst,
        CopyEditView::Persisting { dst: d, path } => {
            &&& d == dst
            &&& editor is None ==> initial.contains_key(src) && now.contains_key(path)
                && now[path] == initial[src]
        },
        CopyEditView::Removing { .. } => true,
    }
}

proof fn lemma_copy_holds(
    editor: Option<Seq<u8>>,
    src: Seq<u8>,
    dst: Seq<u8>,
    initial: Storage,
    run: Seq<Turn<CopyEditView>>,
    result: Result<(), Failure>,
    i: int,
)
    requires
        course(initial, run, result),
        run[0].state == (CopyEditView::Locating { editor, src, dst }),
        0 <= i < run.len(),
    ensures
        copy_holds(editor, src, dst, run[i].state, initial, files_before(initial, run, i)),
    decreases i,
{
    if i > 0 {
        lemma_copy_holds(editor, src, dst, initial, run, result, i - 1);
        assert(follows(initial, run, result, i - 1));
        let after = run[i - 1].after;
        match run[i - 1].state {
            CopyEditView::Creating { .. } => {
                if let EventView::Created { path } = run[i - 1].event {
                    assert(after.remove(path) =~= initial);
                }
            },
            CopyEditView::Copying { path, .. } => {
                assert(after.remove(path) =~= initial);
            },
            CopyEditView::Running { path, .. } => {
                assert(after.remove(path) =~= initial);
            },
            _ => {},
        }
    }
}

/// Until its last turn the Atomic Copy Editor works on the temporary file
/// alone: when a turn begins, the files are what they were when the
/// operation began, but for the temporary file, whose path was free then.
/// So nothing is written to the destination bit by bit, and nothing is
/// created there before its time.
pub proof fn copy_edit_works_on_the_temporary_file_alone(
    editor: Option<Seq<u8>>,
    src: Seq<u8>,
    dst: Seq<u8>,
    initial: Storage,
    run: Seq<Turn<CopyEditView>>,
    result: Result<(), Failure>,
    i: int,
)
    requires
        course(initial, run, result),
        run[0].state == (CopyEditView::Locating { editor, src, dst }),
        0 <= i < run.len(),
    ensures
        match run[i].state.temporary() {
            Some(path) => !initial.contains_key(path) && files_before(initial, run, i).remove(
                path,
            ) == initial,
            None => files_before(initial, run, i) == initial,
        },
{
    lemma_copy_holds(editor, src, dst, initial, run, result, i);
}

/// A failure of the Atomic Copy Editor leaves the files as they were: where
/// the operation ends with an error, whichever it is, the destination holds
/// what it held when the operation began, or is absent as it was then, the
/// source is unchanged, and the temporary file is gone.
pub proof fn copy_edit_failure_leaves_files_as_they_were(
    editor: Option<Seq<u8>>,
    src: Seq<u8>,
    dst: Seq<u8>,
    initial: Storage,
    run: Seq<Turn<CopyEditView>>,
    result: Result<(), Failure>,
)
    requires
        course(initial, run, result),
        run[0].state == (CopyEditView::Locating { editor, src, dst }),
        result is Err,
    ensures
        run.last().after == initial,
{
    let last = run.len() - 1;
    lemma_copy_holds(editor, src, dst, initial, run, result, last);
    assert(follows(initial, run, result, last));
}

/// Success of the Atomic Copy Editor changes the destination and nothing
/// else.  The last turn renames the temporary file to the destination: the
/// files are then the initial ones with the destination holding what the
/// temporary file held, and no temporary file is left.  Without an editor
/// that is what the source held.  With one, the turn before the rename is
/// the editor's, so it is what the editor left.
pub proof fn copy_edit_success_replaces_destination(
    editor: Option<Seq<u8>>,
    src: Seq<u8>,
    dst: Seq<u8>,
    initial: Storage,
    run: Seq<Turn<CopyEditView>>,
    result: Result<(), Failure>,
)
    requires
        course(initial, run, result),
        run[0].state == (CopyEditView::Locating { editor, src, dst }),
        result is Ok,
    ensures
        run.len() >= 2,
        run.last().state is Persisting,
        run.last().state->Persisting_dst == dst,
        ({
            let path = run.last().state->Persisting_path;
            let copy = run[run.len() - 2].after;
            &&& copy.contains_key(path)
            &&& run.last().after == initial.insert(dst, copy[path])
            &&& editor is None ==> initial.contains_key(src) && copy[path] == initial[src]
            &&& editor is Some ==> run[run.len() - 2].state is Running
                && run[run.len() - 2].state->Running_path == path
        }),
{
    let last = run.len() - 1;
    assert(follows(initial, run, result, 0));
    assert(follows(initial, run, result, last));
    lemma_copy_holds(editor, src, dst, initial, run, result, last);
    assert(last >= 1);
    assert(follows(initial, run, result, last - 1));
    lemma_copy_holds(editor, src, dst, initial, run, result, last - 1);
    let path = run.last().state->Persisting_path;
    let copy = run[last - 1].after;
    assert(run.last().after =~= initial.insert(dst, copy[path]));
}

/// The Atomic Copy Editor hands on the failure of the editor: where the
/// editor ends without success, or the shell does not start, the operation
/// ends with the error that says so.
pub proof fn copy_edit_reports_the_editor_failure(
    initial: Storage,
    run: Seq<Turn<CopyEditView>>,
    result: Result<(), Failure>,
    i: int,
)
    requires
        course(initial, run, result),
        0 <= i < run.len(),
        run[i].state is Running,
    ensures
        match run[i].event {
            EventView::Exited { status } => !status.succeeded() ==> result == Err::<(), Failure>(
                Failure::Editor { editor: run[i].state->Running_editor, status },
            ),
            EventView::Failed { error } => result == Err::<(), Failure>(
                Failure::Spawn { error },
            ),
            _ => false,
        },
{
    assert(follows(initial, run, result, i));
    if i + 1 < run.len() {
        assert(follows(initial, run, result, i + 1));
    }
}

/// How many turns an Atomic Copy Editor in `state` has before it at most.
spec fn copy_turns_left(state: CopyEditView) -> int {
    match state {
        CopyEditView::Locating { .. } => 8,
        CopyEditView::Resolving { .. } => 7,
        CopyEditView::Opening { .. } => 6,
        CopyEditView::Creating { .. } => 5,
        CopyEditView::Copying { .. } => 4,
        CopyEditView::Running { .. } => 3,
        CopyEditView::Persisting { .. } => 2,
        CopyEditView::Removing { .. } => 1,
    }
}

proof fn lemma_copy_turns_left(
    initial: Storage,
    run: Seq<Turn<CopyEditView>>,
    result: Result<(), Failure>,
    i: int,
)
    requires
        course(initial, run, result),
        0 <= i < run.len(),
    ensures
        i + copy_turns_left(run[i].state) <= copy_turns_left(run[0].state),
    decreases i,
{
    if i > 0 {
        lemma_copy_turns_left(initial, run, result, i - 1);
        assert(follows(initial, run, result, i - 1));
    }
}

/// The Atomic Copy Editor tries nothing twice: it finishes within eight
/// turns.
pub proof fn copy_edit_finishes_within_eight_turns(
    initial: Storage,
    run: Seq<Turn<CopyEditView>>,
    result: Result<(), Failure>,
)
    requires
        course(initial, run, result),
    ensures
        run.len() <= 8,
{
    lemma_copy_turns_left(initial, run, result, run.len() - 1);
}

/// The model allows the Atomic Copy Editor to succeed: where there is a
/// file at `src` and the path `path` in the directory `dir` is free, there
/// is a course in which the file is copied there, the editor leaves `edited`
/// in its place, and the copy is renamed to `dst`.
pub proof fn copy_edit_can_succeed(
    editor: Seq<u8>,
    src: Seq<u8>,
    dst: Seq<u8>,
    edited: Seq<u8>,
    dir: Seq<u8>,
    path: Seq<u8>,
    initial: Storage,
) -> (run: Seq<Turn<CopyEditView>>)
    requires
        initial.contains_key(src),
        !initial.contains_key(path),
        dir.len() > 0,
    ensures
        run[0].state == (CopyEditView::Locating { editor: Some(editor), src, dst }),
        course(initial, run, Ok(())),
        run.last().after == initial.insert(dst, edited),
{
    let editor_or_none = Some(editor);
    let copied = initial.insert(path, initial[src]);
    let changed = initial.insert(path, edited);
    let run = seq![
        Turn {
            state: CopyEditView::Locating { editor: editor_or_none, src, dst },
            event: EventView::Parent { parent: Some(dir) },
            after: initial,
        },
        Turn {
            state: CopyEditView::Opening { editor: editor_or_none, src, dst, dir },
            event: EventView::Done,
            after: initial,
        },
        Turn {
            state: CopyEditView::Creating { editor: editor_or_none, src, dst, dir },
            event: EventView::Created { path },
            after: initial.insert(path, Seq::empty()),
        },
        Turn {
            state: CopyEditView::Copying { editor: editor_or_none, src, dst, path },
            event: EventView::Done,
            after: copied,
        },
        Turn {
            state: CopyEditView::Running { editor, dst, path },
            event: EventView::Exited { status: Termination::Exited { code: 0 } },
            after: changed,
        },
        Turn {
            state: CopyEditView::Persisting { dst, path },
            event: EventView::Done,
            after: initial.insert(dst, edited),
        },
    ];
    let result = Ok::<(), Failure>(());
    assert(copied =~= initial.insert(path, Seq::empty()).insert(path, initial[src]));
    assert(changed.remove(path) =~= copied.remove(path));
    assert(initial.insert(dst, edited) =~= changed.remove(path).insert(dst, changed[path]));
    assert(follows(initial, run, result, 0));
    assert(follows(initial, run, result, 1));
    assert(follows(initial, run, result, 2));
    assert(follows(initial, run, result, 3));
    assert(follows(initial, run, result, 4));
    assert(follows(initial, run, result, 5));
    run
}

/// The model allows the editor to fail under the Atomic Copy Editor: there
/// is a course like that of [`copy_edit_can_succeed`] in which the editor
/// ends with `status`, which is no success, whatever it left of the copy.
pub proof fn copy_edit_can_fail(
    editor: Seq<u8>,
    src: Seq<u8>,
    dst: Seq<u8>,
    status: Termination,
    dir: Seq<u8>,
    path: Seq<u8>,
    initial: Storage,
    left: Storage,
) -> (run: Seq<Turn<CopyEditView>>)
    requires
        initial.contains_key(src),
        !initial.contains_key(path),
        dir.len() > 0,
        !status.succeeded(),
        same_but_at(left, initial, path),
    ensures
        run[0].state == (CopyEditView::Locating { editor: Some(editor), src, dst }),
        course(initial, run, Err(Failure::Editor { editor, status })),
{
    let editor_or_none = Some(editor);
    let copied = initial.insert(path, initial[src]);
    let failure = Failure::Editor { editor, status };
    let run = seq![
        Turn {
            state: CopyEditView::Locating { editor: editor_or_none, src, dst },
            event: EventView::Parent { parent: Some(dir) },
            after: initial,
        },
        Turn {
            state: CopyEditView::Opening { editor: editor_or_none, src, dst, dir },
            event: EventView::Done,
            after: initial,
        },
        Turn {
            state: CopyEditView::Creating { editor: editor_or_none, src, dst, dir },
            event: EventView::Created { path },
            after: initial.insert(path, Seq::empty()),
        },
        Turn {
            state: CopyEditView::Copying { editor: editor_or_none, src, dst, path },
            event: EventView::Done,
            after: copied,
        },
        Turn {
            state: CopyEditView::Running { editor, dst, path },
            event: EventView::Exited { status },
            after: left,
        },
        Turn {
            state: CopyEditView::Removing { path, error: failure },
            event: EventView::Done,
            after: initial,
        },
    ];
    let result = Err::<(), Failure>(failure);
    assert(copied =~= initial.insert(path, Seq::empty()).insert(path, initial[src]));
    assert(left.remove(path) =~= copied.remove(path));
    assert(initial =~= left.remove(path));
    assert(follows(initial, run, result, 0));
    assert(follows(initial, run, result, 1));
    assert(follows(initial, run, result, 2));
    assert(follows(initial, run, result, 3));
    assert(follows(initial, run, result, 4));
    assert(follows(initial, run, result, 5));
    run
}

} // verus!
