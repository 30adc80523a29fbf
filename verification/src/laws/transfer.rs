//! Moving buffers, terminals and files, and taking the move back.
use vstd::prelude::*;

use crate::artifacts::all_relocations;
use crate::artifacts::decide_move;
use crate::artifacts::ends_at;
use crate::artifacts::moves_after_cutover;
use crate::artifacts::relocated;
use crate::artifacts::starts_at;
use crate::artifacts::unrelocated;
use crate::artifacts::ArtifactFile;
use crate::artifacts::ArtifactRun;
use crate::artifacts::MoveDecision;
use crate::artifacts::Relocation;
use crate::artifacts::SavedTerminal;
use crate::editor::EditorModel;
use crate::ids::BufferId;
use crate::ids::TerminalId;
use crate::ids::WindowId;
use crate::lists::lemma_first_match_found;
use crate::membership::value_of;
use crate::terminals::TerminalsModel;
use crate::transfer::can_transfer;
use crate::transfer::is_transferred;
use crate::window::DocumentsModel;

verus! {

/// Whether nothing is known of a buffer.
pub open spec fn lacks_buffer(documents: DocumentsModel, buffer: BufferId) -> bool {
    &&& !documents.buffers.contains_key(buffer.0)
    &&& !documents.metadata.contains_key(buffer.0)
    &&& !documents.event_logs.contains_key(buffer.0)
}

/// A buffer has one home: once it has moved the source has nothing of it left,
/// and the target has all of it.
pub proof fn a_moved_buffer_has_one_home(
    editor: EditorModel,
    buffer: BufferId,
    source: WindowId,
    target: WindowId,
)
    requires
        editor.can_rehome(buffer, source, target),
        lacks_buffer(editor.window(target).documents, buffer),
    ensures
        ({
            let after = editor.rehomed(buffer, source, target);
            let from = editor.window(source).documents;
            let there = after.window(target).documents;
            &&& lacks_buffer(after.window(source).documents, buffer)
            &&& there.buffers.contains_key(buffer.0) && there.buffers[buffer.0]
                == from.buffers[buffer.0]
            &&& value_of(there.metadata, buffer.0) == value_of(from.metadata, buffer.0)
            &&& value_of(there.event_logs, buffer.0) == value_of(from.event_logs, buffer.0)
        }),
{
}

/// Moving a buffer there and back restores what both windows have of all
/// buffers.
pub proof fn moving_a_buffer_back_restores_both_windows(
    editor: EditorModel,
    buffer: BufferId,
    source: WindowId,
    target: WindowId,
)
    requires
        editor.can_rehome(buffer, source, target),
        lacks_buffer(editor.window(target).documents, buffer),
    ensures
        ({
            let back = editor.rehomed(buffer, source, target).rehomed(buffer, target, source);
            let (from, to) = (editor.window(source).documents, editor.window(target).documents);
            let (from2, to2) = (back.window(source).documents, back.window(target).documents);
            &&& from2.buffers == from.buffers
            &&& from2.metadata == from.metadata
            &&& from2.event_logs == from.event_logs
            &&& to2.buffers == to.buffers
            &&& to2.metadata == to.metadata
            &&& to2.event_logs == to.event_logs
        }),
{
    let back = editor.rehomed(buffer, source, target).rehomed(buffer, target, source);
    let (from, to) = (editor.window(source).documents, editor.window(target).documents);
    let (from2, to2) = (back.window(source).documents, back.window(target).documents);
    assert(from2.buffers =~= from.buffers);
    assert(from2.metadata =~= from.metadata);
    assert(from2.event_logs =~= from.event_logs);
    assert(to2.buffers =~= to.buffers);
    assert(to2.metadata =~= to.metadata);
    assert(to2.event_logs =~= to.event_logs);
}

/// An extraction that is taken back leaves the source window with the buffers
/// that it had, and showing what it showed.
pub proof fn a_rolled_back_extraction_restores_the_source(
    editor: EditorModel,
    buffer: BufferId,
    source: WindowId,
    target: WindowId,
    ids: Seq<u64>,
)
    requires
        editor.can_rehome(buffer, source, target),
        lacks_buffer(editor.window(target).documents, buffer),
        editor.window(source).documents.layout is Some,
        forall|k: u64| #[trigger]
            ids.contains(k) <==> editor.window(source).documents.buffers.contains_key(k),
    ensures
        ({
            let before = editor.window(source).documents;
            let restored = editor.rehomed(buffer, source, target).membership_restored(
                source,
                target,
                buffer,
                ids,
                before.layout,
            ).window(source).documents;
            &&& restored.buffers == before.buffers
            &&& restored.metadata == before.metadata
            &&& restored.event_logs == before.event_logs
            &&& restored.layout == before.layout
        }),
{
    moving_a_buffer_back_restores_both_windows(editor, buffer, source, target);
    let before = editor.window(source).documents;
    let back = editor.rehomed(buffer, source, target).rehomed(buffer, target, source);
    let restored = back.window(source).documents.restored(ids, before.layout);
    assert(restored.buffers =~= before.buffers);
    assert(restored.metadata =~= before.metadata);
    assert(restored.event_logs =~= before.event_logs);
}

/// Whether a path that moves comes back where it was.
pub open spec fn comes_back(relocations: Seq<Relocation>, path: Option<Seq<char>>) -> bool {
    path matches Some(path) ==> {
        &&& relocated(relocations, path) is Some
        &&& unrelocated(relocations, relocated(relocations, path)->0@) matches Some(back)
            && back@ == path
    }
}

/// Where no two files move from or to the same path, every one comes back.
pub proof fn relocations_are_undone(relocations: Seq<Relocation>, i: int)
    requires
        0 <= i < relocations.len(),
        forall|j: int|
            0 <= j < relocations.len() && j != i ==> (#[trigger] relocations[j]).source@
                != relocations[i].source@ && relocations[j].destination@
                != relocations[i].destination@,
    ensures
        comes_back(relocations, Some(relocations[i].source@)),
{
    let r = relocations[i];
    lemma_first_match_found(relocations, starts_at(r.source@), i);
    lemma_first_match_found(relocations, ends_at(r.destination@), i);
}

/// Whether nothing is filed under a terminal and a buffer.
pub open spec fn lacks_terminal(tables: TerminalsModel, buffer: BufferId, terminal: TerminalId) -> bool {
    let k = terminal.0;
    &&& !tables.live.contains_key(k)
    &&& !tables.bindings.contains_key(buffer.0)
    &&& !tables.backing_files.contains_key(k)
    &&& !tables.history_files.contains_key(k)
    &&& !tables.log_files.contains_key(k)
    &&& !tables.commands.contains_key(k)
    &&& !tables.resume_commands.contains_key(k)
    &&& !tables.ephemeral.contains(k)
    &&& !tables.explicit_titles.contains(buffer.0)
    &&& !tables.foreground_names.contains_key(buffer.0)
    &&& tables.tracked_agent != Some(terminal)
}

/// Whether two windows have the same filed under all terminals, but for the
/// registrations of process groups, which are new ones.
pub open spec fn same_tables(a: TerminalsModel, b: TerminalsModel) -> bool {
    a == (TerminalsModel { groups: a.groups, next_incarnation: a.next_incarnation, ..b })
}

/// Moving a terminal there and back restores what is filed under it in both
/// windows, its files where they were and its command lines too. A window that
/// has a tracked agent of its own loses it to one that comes, so that the
/// target has none, or the terminal is none.
pub proof fn moving_a_terminal_back_restores_both_windows(
    editor: EditorModel,
    source: WindowId,
    target: WindowId,
    buffer: BufferId,
    terminal: TerminalId,
    new_terminal: TerminalId,
    relocations: Seq<Relocation>,
    moved: EditorModel,
    back: EditorModel,
)
    requires
        can_transfer(editor, source, target, buffer, terminal),
        lacks_terminal(editor.window(target).terminals, buffer, new_terminal),
        editor.window(target).terminals.tracked_agent is None || editor.window(
            source,
        ).terminals.tracked_agent != Some(terminal),
        ({
            let baggage = editor.window(source).terminals.baggage(buffer, terminal);
            &&& comes_back(relocations, baggage.backing)
            &&& comes_back(relocations, baggage.history)
            &&& comes_back(relocations, baggage.log)
        }),
        is_transferred(
            editor,
            source,
            target,
            buffer,
            terminal,
            new_terminal,
            relocations,
            true,
            moved,
        ),
        is_transferred(
            moved,
            target,
            source,
            buffer,
            new_terminal,
            terminal,
            relocations,
            false,
            back,
        ),
    ensures
        same_tables(back.window(source).terminals, editor.window(source).terminals),
        same_tables(back.window(target).terminals, editor.window(target).terminals),
{
    let from = editor.window(source).terminals;
    let to = editor.window(target).terminals;
    let baggage = from.baggage(buffer, terminal);
    let there = to.received(buffer, new_terminal, baggage.moved(relocations, true));
    let tables = moved.window(target).terminals;
    assert(same_tables(tables, there));
    let returned = tables.baggage(buffer, new_terminal);
    assert(returned.moved(relocations, false) == baggage);
    let home = from.released(buffer, terminal).received(buffer, terminal, baggage);
    assert(home.live =~= from.live);
    assert(home.bindings =~= from.bindings);
    assert(home.backing_files =~= from.backing_files);
    assert(home.history_files =~= from.history_files);
    assert(home.log_files =~= from.log_files);
    assert(home.commands =~= from.commands);
    assert(home.resume_commands =~= from.resume_commands);
    assert(home.ephemeral =~= from.ephemeral);
    assert(home.explicit_titles =~= from.explicit_titles);
    assert(home.foreground_names =~= from.foreground_names);
    assert(same_tables(home, from));
    let left = there.released(buffer, new_terminal);
    assert(left.live =~= to.live);
    assert(left.bindings =~= to.bindings);
    assert(left.backing_files =~= to.backing_files);
    assert(left.history_files =~= to.history_files);
    assert(left.log_files =~= to.log_files);
    assert(left.commands =~= to.commands);
    assert(left.resume_commands =~= to.resume_commands);
    assert(left.ephemeral =~= to.ephemeral);
    assert(left.explicit_titles =~= to.explicit_titles);
    assert(left.foreground_names =~= to.foreground_names);
}

/// The files that exist once one relocation was settled, forward or back, where
/// every rename works; none where nothing can be done.
pub open spec fn settled(files: Set<Seq<char>>, relocation: Relocation, forward: bool) -> Option<
    Set<Seq<char>>,
> {
    let (from, to) = if forward {
        (relocation.source@, relocation.destination@)
    } else {
        (relocation.destination@, relocation.source@)
    };
    match decide_move(files.contains(from), files.contains(to)) {
        MoveDecision::InPlace => Some(files),
        MoveDecision::Rename => Some(files.remove(from).insert(to)),
        MoveDecision::Stuck => None,
    }
}

/// The files that exist once all relocations were settled in order.
pub open spec fn all_finished(files: Set<Seq<char>>, relocations: Seq<Relocation>) -> Option<
    Set<Seq<char>>,
>
    decreases relocations.len(),
{
    if relocations.len() == 0 {
        Some(files)
    } else {
        match all_finished(files, relocations.drop_last()) {
            Some(done) => settled(done, relocations.last(), true),
            None => None,
        }
    }
}

/// The files that exist once all relocations were taken back, the last one
/// first.
pub open spec fn all_rolled_back(files: Set<Seq<char>>, relocations: Seq<Relocation>) -> Option<
    Set<Seq<char>>,
>
    decreases relocations.len(),
{
    if relocations.len() == 0 {
        Some(files)
    } else {
        match settled(files, relocations.last(), false) {
            Some(left) => all_rolled_back(left, relocations.drop_last()),
            None => None,
        }
    }
}

/// Whether all files are where they move from, nothing is where they move to,
/// and no two relocations share a path.
pub open spec fn is_ready(files: Set<Seq<char>>, relocations: Seq<Relocation>) -> bool {
    &&& forall|i: int|
        0 <= i < relocations.len() ==> files.contains((#[trigger] relocations[i]).source@)
            && !files.contains(relocations[i].destination@)
    &&& forall|i: int, j: int|
        0 <= i < relocations.len() && 0 <= j < relocations.len() && i != j ==> (
        #[trigger] relocations[i]).source@ != (#[trigger] relocations[j]).source@
            && relocations[i].destination@ != relocations[j].destination@
}

proof fn lemma_finished_rest(files: Set<Seq<char>>, relocations: Seq<Relocation>, path: Seq<char>)
    requires
        is_ready(files, relocations),
        forall|i: int|
            0 <= i < relocations.len() ==> (#[trigger] relocations[i]).source@ != path
                && relocations[i].destination@ != path,
    ensures
        all_finished(files, relocations) matches Some(done) && (done.contains(path)
            <==> files.contains(path)),
    decreases relocations.len(),
{
    if relocations.len() > 0 {
        let rest = relocations.drop_last();
        let last = relocations.last();
        assert(is_ready(files, rest)) by {
            assert forall|i: int| 0 <= i < rest.len() implies files.contains(
                (#[trigger] rest[i]).source@,
            ) && !files.contains(rest[i].destination@) by {
                assert(rest[i] == relocations[i]);
            }
        }
        assert forall|i: int| 0 <= i < rest.len() implies (#[trigger] rest[i]).source@ != path
            && rest[i].destination@ != path by {
            assert(rest[i] == relocations[i]);
        }
        lemma_finished_rest(files, rest, path);
        lemma_last_is_ready(files, relocations);
        lemma_finished_rest(files, rest, last.source@);
        lemma_finished_rest(files, rest, last.destination@);
    }
}

proof fn lemma_last_is_ready(files: Set<Seq<char>>, relocations: Seq<Relocation>)
    requires
        relocations.len() > 0,
        is_ready(files, relocations),
    ensures
        is_ready(files, relocations.drop_last()),
        files.contains(relocations.last().source@),
        !files.contains(relocations.last().destination@),
        forall|i: int|
            0 <= i < relocations.len() - 1 ==> (#[trigger] relocations.drop_last()[i]).source@
                != relocations.last().source@ && relocations.drop_last()[i].destination@
                != relocations.last().source@ && relocations.drop_last()[i].source@
                != relocations.last().destination@ && relocations.drop_last()[i].destination@
                != relocations.last().destination@,
{
    let rest = relocations.drop_last();
    let n = relocations.len() - 1;
    assert(relocations[n] == relocations.last());
    assert forall|i: int| 0 <= i < rest.len() implies files.contains((#[trigger] rest[i]).source@)
        && !files.contains(rest[i].destination@) && rest[i].source@ != relocations[n].source@
        && rest[i].destination@ != relocations[n].destination@ by {
        assert(rest[i] == relocations[i]);
    }
}

/// Moving the files of a terminal and moving them back restores exactly the
/// files that were there.
pub proof fn rolling_back_restores_the_files(files: Set<Seq<char>>, relocations: Seq<Relocation>)
    requires
        is_ready(files, relocations),
    ensures
        all_finished(files, relocations) matches Some(done) && all_rolled_back(done, relocations)
            == Some(files),
    decreases relocations.len(),
{
    if relocations.len() > 0 {
        let rest = relocations.drop_last();
        let last = relocations.last();
        lemma_last_is_ready(files, relocations);
        rolling_back_restores_the_files(files, rest);
        lemma_finished_rest(files, rest, last.source@);
        lemma_finished_rest(files, rest, last.destination@);
        let done = all_finished(files, rest)->0;
        assert(done.remove(last.source@).insert(last.destination@).remove(
            last.destination@,
        ).insert(last.source@) =~= done);
    }
}

/// Whether no path occurs twice among where files move from and to.
pub open spec fn paths_are_distinct(relocations: Seq<Relocation>) -> bool {
    &&& forall|i: int, j: int|
        0 <= i < relocations.len() && 0 <= j < relocations.len() ==> (
        #[trigger] relocations[i]).source@ != (#[trigger] relocations[j]).destination@
    &&& forall|i: int, j: int|
        0 <= i < relocations.len() && 0 <= j < relocations.len() && i != j ==> (
        #[trigger] relocations[i]).source@ != (#[trigger] relocations[j]).source@
            && relocations[i].destination@ != relocations[j].destination@
}

/// Whether a file is in exactly one of its two places.
pub open spec fn is_in_one_place(files: Set<Seq<char>>, relocation: Relocation) -> bool {
    files.contains(relocation.source@) != files.contains(relocation.destination@)
}

/// Whether every file is in exactly one of its two places.
pub open spec fn are_in_one_place(files: Set<Seq<char>>, relocations: Seq<Relocation>) -> bool {
    forall|i: int|
        0 <= i < relocations.len() ==> is_in_one_place(files, #[trigger] relocations[i])
}

/// Whether every file is where it moves from, and not where it moves to.
pub open spec fn are_home(files: Set<Seq<char>>, relocations: Seq<Relocation>) -> bool {
    forall|i: int|
        0 <= i < relocations.len() ==> files.contains((#[trigger] relocations[i]).source@)
            && !files.contains(relocations[i].destination@)
}

/// Whether a path is none that files move from or to.
pub open spec fn is_elsewhere(path: Seq<char>, relocations: Seq<Relocation>) -> bool {
    forall|i: int|
        0 <= i < relocations.len() ==> (#[trigger] relocations[i]).source@ != path
            && relocations[i].destination@ != path
}

/// The files that exist once as many relocations were taken back as could be,
/// the last one first.
pub open spec fn left_by_rollback(files: Set<Seq<char>>, relocations: Seq<Relocation>) -> Set<
    Seq<char>,
>
    decreases relocations.len(),
{
    if relocations.len() == 0 {
        files
    } else {
        match settled(files, relocations.last(), false) {
            Some(left) => left_by_rollback(left, relocations.drop_last()),
            None => files,
        }
    }
}

/// The files that exist once the relocations that are `chosen` were settled,
/// in order; none where nothing can be done about one of them.
pub open spec fn partly_finished(
    files: Set<Seq<char>>,
    relocations: Seq<Relocation>,
    chosen: spec_fn(int) -> bool,
) -> Option<Set<Seq<char>>>
    decreases relocations.len(),
{
    if relocations.len() == 0 {
        Some(files)
    } else {
        match partly_finished(files, relocations.drop_last(), chosen) {
            Some(done) => if chosen(relocations.len() - 1) {
                settled(done, relocations.last(), true)
            } else {
                Some(done)
            },
            None => None,
        }
    }
}

/// A run and the files that exist once it has come to its end, where every
/// rename works.
pub open spec fn driven(
    run: ArtifactRun,
    files: Set<Seq<char>>,
    relocations: Seq<Relocation>,
) -> (ArtifactRun, Set<Seq<char>>)
    decreases run.total - run.done,
{
    match run.spec_current() {
        None => (run, files),
        Some(i) => match settled(files, relocations[i as int], run.forward) {
            Some(left) => driven(run.advanced(), left, relocations),
            None => (run.stopped(), files),
        },
    }
}

proof fn lemma_drop_last_distinct(relocations: Seq<Relocation>)
    requires
        relocations.len() > 0,
        paths_are_distinct(relocations),
    ensures
        paths_are_distinct(relocations.drop_last()),
        is_elsewhere(relocations.last().source@, relocations.drop_last()),
        is_elsewhere(relocations.last().destination@, relocations.drop_last()),
        relocations.last().source@ != relocations.last().destination@,
{
    let rest = relocations.drop_last();
    let n = relocations.len() - 1;
    assert(relocations[n] == relocations.last());
    assert forall|i: int| 0 <= i < rest.len() implies #[trigger] rest[i] == relocations[i] by {}
    assert forall|i: int| 0 <= i < rest.len() implies (#[trigger] rest[i]).source@
        != relocations[n].source@ && rest[i].destination@ != relocations[n].source@
        && rest[i].source@ != relocations[n].destination@ && rest[i].destination@
        != relocations[n].destination@ by {
        assert(rest[i] == relocations[i]);
        assert(relocations[n].source@ != relocations[i].destination@);
    }
}

/// What one step back makes of the places of the other files: nothing.
proof fn lemma_step_back(files: Set<Seq<char>>, relocations: Seq<Relocation>)
    requires
        relocations.len() > 0,
        paths_are_distinct(relocations),
        settled(files, relocations.last(), false) is Some,
    ensures
        ({
            let left = settled(files, relocations.last(), false)->0;
            let rest = relocations.drop_last();
            &&& is_in_one_place(files, relocations.last())
            &&& left.contains(relocations.last().source@)
            &&& !left.contains(relocations.last().destination@)
            &&& forall|path: Seq<char>|
                path != relocations.last().source@ && path != relocations.last().destination@
                    ==> (#[trigger] left.contains(path) <==> files.contains(path))
            &&& forall|i: int|
                0 <= i < rest.len() ==> (left.contains((#[trigger] rest[i]).source@)
                    <==> files.contains(rest[i].source@)) && (left.contains(rest[i].destination@)
                    <==> files.contains(rest[i].destination@))
        }),
{
    lemma_drop_last_distinct(relocations);
}

proof fn lemma_rolled_back(files: Set<Seq<char>>, relocations: Seq<Relocation>)
    requires
        paths_are_distinct(relocations),
    ensures
        all_rolled_back(files, relocations) is Some <==> are_in_one_place(files, relocations),
        all_rolled_back(files, relocations) is Some ==> all_rolled_back(files, relocations)->0
            == left_by_rollback(files, relocations) && are_home(
            left_by_rollback(files, relocations),
            relocations,
        ),
        forall|path: Seq<char>|
            is_elsewhere(path, relocations) ==> (#[trigger] left_by_rollback(
                files,
                relocations,
            ).contains(path) <==> files.contains(path)),
        !are_in_one_place(files, relocations) ==> exists|bad: int| #[trigger]
            stops_at(files, relocations, left_by_rollback(files, relocations), bad),
    decreases relocations.len(),
{
    if relocations.len() > 0 {
        let rest = relocations.drop_last();
        let last = relocations.last();
        let n = relocations.len() - 1;
        let after = left_by_rollback(files, relocations);
        lemma_drop_last_distinct(relocations);
        assert(relocations[n] == last);
        if let Some(left) = settled(files, last, false) {
            lemma_step_back(files, relocations);
            lemma_rolled_back(left, rest);
            assert(are_in_one_place(files, relocations) <==> are_in_one_place(left, rest)) by {
                if are_in_one_place(files, relocations) {
                    assert forall|i: int| 0 <= i < rest.len() implies is_in_one_place(
                        left,
                        #[trigger] rest[i],
                    ) by {
                        assert(is_in_one_place(files, relocations[i]));
                    }
                }
                if are_in_one_place(left, rest) {
                    assert forall|i: int| 0 <= i < relocations.len() implies is_in_one_place(
                        files,
                        #[trigger] relocations[i],
                    ) by {
                        if i < n {
                            assert(rest[i] == relocations[i]);
                            assert(is_in_one_place(left, rest[i]));
                        }
                    }
                }
            }
            if all_rolled_back(files, relocations) is Some {
                assert forall|i: int| 0 <= i < relocations.len() implies after.contains(
                    (#[trigger] relocations[i]).source@,
                ) && !after.contains(relocations[i].destination@) by {
                    if i < n {
                        assert(rest[i] == relocations[i]);
                    }
                }
            }
            assert forall|path: Seq<char>| is_elsewhere(path, relocations) implies (
            #[trigger] after.contains(path) <==> files.contains(path)) by {
                assert(relocations[n].source@ != path && relocations[n].destination@ != path);
                assert forall|i: int| 0 <= i < rest.len() implies (#[trigger] rest[i]).source@
                    != path && rest[i].destination@ != path by {
                    assert(rest[i] == relocations[i]);
                }
                assert(is_elsewhere(path, rest));
            }
            if !are_in_one_place(files, relocations) {
                let bad = choose|bad: int| #[trigger] stops_at(left, rest, after, bad);
                assert(rest[bad] == relocations[bad]);
                assert forall|i: int| bad < i < relocations.len() implies is_in_one_place(
                    files,
                    #[trigger] relocations[i],
                ) && after.contains(relocations[i].source@) && !after.contains(
                    relocations[i].destination@,
                ) by {
                    if i < n {
                        assert(rest[i] == relocations[i]);
                    }
                }
                assert forall|i: int| 0 <= i <= bad implies (after.contains(
                    (#[trigger] relocations[i]).source@,
                ) <==> files.contains(relocations[i].source@)) && (after.contains(
                    relocations[i].destination@,
                ) <==> files.contains(relocations[i].destination@)) by {
                    assert(rest[i] == relocations[i]);
                }
                assert(stops_at(files, relocations, after, bad));
            }
        } else {
            assert(!is_in_one_place(files, relocations[n]));
            assert(stops_at(files, relocations, after, n));
        }
    }
}

/// Whether `after` are the files where taking relocations back has stopped at
/// `bad`: that one and those before it were not touched, and those behind it were
/// taken back.
pub open spec fn stops_at(
    files: Set<Seq<char>>,
    relocations: Seq<Relocation>,
    after: Set<Seq<char>>,
    bad: int,
) -> bool {
    &&& 0 <= bad < relocations.len()
    &&& !is_in_one_place(files, relocations[bad])
    &&& forall|i: int|
        bad < i < relocations.len() ==> is_in_one_place(files, #[trigger] relocations[i])
            && after.contains(relocations[i].source@) && !after.contains(
            relocations[i].destination@,
        )
    &&& forall|i: int|
        0 <= i <= bad ==> (after.contains((#[trigger] relocations[i]).source@) <==> files.contains(
            relocations[i].source@,
        )) && (after.contains(relocations[i].destination@) <==> files.contains(
            relocations[i].destination@,
        ))
}

proof fn lemma_driven_back(
    run: ArtifactRun,
    files: Set<Seq<char>>,
    relocations: Seq<Relocation>,
)
    requires
        !run.forward,
        !run.failed,
        run.done <= run.total,
        run.total == relocations.len(),
    ensures
        ({
            let rest = relocations.take(run.total - run.done);
            let (after, left) = driven(run, files, relocations);
            &&& left == left_by_rollback(files, rest)
            &&& after.spec_outcome() == Some(all_rolled_back(files, rest) is Some)
            &&& !after.forward && after.total == run.total
        }),
    decreases run.total - run.done,
{
    let rest = relocations.take(run.total - run.done);
    if run.done < run.total {
        assert(rest.last() == relocations[run.total - 1 - run.done]);
        assert(rest.drop_last() =~= relocations.take(run.total - run.done - 1));
        if let Some(left) = settled(files, rest.last(), false) {
            lemma_driven_back(run.advanced(), left, relocations);
        }
    }
}

/// Taking relocations back settles everything just where each file is in exactly
/// one of its two places. Then every file is where it came from, nothing else has
/// changed, and taking them back once more renames nothing. Otherwise the run
/// stops at the last relocation that nothing can be done about: it and those
/// before it are not touched, and no file is lost or overwritten.
pub proof fn a_rollback_brings_every_file_home_or_stops(
    files: Set<Seq<char>>,
    relocations: Seq<Relocation>,
    total: usize,
)
    requires
        paths_are_distinct(relocations),
        total == relocations.len(),
    ensures
        ({
            let run = ArtifactRun { forward: false, total, done: 0, failed: false };
            let (after, left) = driven(run, files, relocations);
            let (again, still) = driven(run, left, relocations);
            &&& after.spec_outcome() == Some(are_in_one_place(files, relocations))
            &&& after.spec_outcome() == Some(true) ==> {
                &&& are_home(left, relocations)
                &&& again.spec_outcome() == Some(true)
                &&& still == left
                &&& forall|i: int|
                    0 <= i < relocations.len() ==> decide_move(
                        left.contains((#[trigger] relocations[i]).destination@),
                        left.contains(relocations[i].source@),
                    ) is InPlace
            }
            &&& after.spec_outcome() == Some(false) ==> exists|bad: int| #[trigger]
                stops_at(files, relocations, left, bad)
            &&& forall|path: Seq<char>|
                is_elsewhere(path, relocations) ==> (#[trigger] left.contains(path)
                    <==> files.contains(path))
        }),
{
    let run = ArtifactRun { forward: false, total, done: 0, failed: false };
    let left = driven(run, files, relocations).1;
    assert(relocations.take(total as int) =~= relocations);
    lemma_driven_back(run, files, relocations);
    lemma_driven_back(run, left, relocations);
    lemma_rolled_back(files, relocations);
    lemma_rolled_back(left, relocations);
    if are_in_one_place(files, relocations) {
        assert(are_home(left, relocations));
        assert forall|i: int| 0 <= i < relocations.len() implies is_in_one_place(
            left,
            #[trigger] relocations[i],
        ) by {}
        lemma_home_stays(left, relocations);
    }
}

proof fn lemma_home_stays(files: Set<Seq<char>>, relocations: Seq<Relocation>)
    requires
        are_home(files, relocations),
    ensures
        left_by_rollback(files, relocations) == files,
    decreases relocations.len(),
{
    if relocations.len() > 0 {
        let rest = relocations.drop_last();
        assert(relocations[relocations.len() - 1] == relocations.last());
        assert forall|i: int| 0 <= i < rest.len() implies files.contains(
            (#[trigger] rest[i]).source@,
        ) && !files.contains(rest[i].destination@) by {
            assert(rest[i] == relocations[i]);
        }
        lemma_home_stays(files, rest);
    }
}

proof fn lemma_partly(
    files: Set<Seq<char>>,
    relocations: Seq<Relocation>,
    chosen: spec_fn(int) -> bool,
)
    requires
        paths_are_distinct(relocations),
        are_home(files, relocations),
    ensures
        partly_finished(files, relocations, chosen) is Some,
        ({
            let done = partly_finished(files, relocations, chosen)->0;
            &&& are_in_one_place(done, relocations)
            &&& forall|path: Seq<char>|
                is_elsewhere(path, relocations) ==> (#[trigger] done.contains(path)
                    <==> files.contains(path))
        }),
    decreases relocations.len(),
{
    if relocations.len() > 0 {
        let rest = relocations.drop_last();
        let last = relocations.last();
        let n = relocations.len() - 1;
        lemma_drop_last_distinct(relocations);
        assert(relocations[n] == last);
        assert forall|i: int| 0 <= i < rest.len() implies files.contains(
            (#[trigger] rest[i]).source@,
        ) && !files.contains(rest[i].destination@) by {
            assert(rest[i] == relocations[i]);
        }
        lemma_partly(files, rest, chosen);
        let half = partly_finished(files, rest, chosen)->0;
        assert(half.contains(last.source@));
        assert(!half.contains(last.destination@));
        let done = partly_finished(files, relocations, chosen)->0;
        assert forall|i: int| 0 <= i < relocations.len() implies is_in_one_place(
            done,
            #[trigger] relocations[i],
        ) by {
            if i < n {
                assert(rest[i] == relocations[i]);
                assert(is_in_one_place(half, rest[i]));
            }
        }
        assert forall|path: Seq<char>| is_elsewhere(path, relocations) implies (
        #[trigger] done.contains(path) <==> files.contains(path)) by {
            assert(relocations[n].source@ != path && relocations[n].destination@ != path);
            assert forall|i: int| 0 <= i < rest.len() implies (#[trigger] rest[i]).source@ != path
                && rest[i].destination@ != path by {
                assert(rest[i] == relocations[i]);
            }
            assert(is_elsewhere(path, rest));
        }
    }
}

/// However far the files of a terminal have moved, all of them, those that move
/// early, or those up to where a move was interrupted, taking them back restores
/// exactly the files that were there.
pub proof fn a_partial_move_is_undone(
    files: Set<Seq<char>>,
    relocations: Seq<Relocation>,
    chosen: spec_fn(int) -> bool,
)
    requires
        paths_are_distinct(relocations),
        are_home(files, relocations),
    ensures
        partly_finished(files, relocations, chosen) matches Some(moved) && all_rolled_back(
            moved,
            relocations,
        ) == Some(files),
{
    lemma_partly(files, relocations, chosen);
    let moved = partly_finished(files, relocations, chosen)->0;
    lemma_rolled_back(moved, relocations);
    let back = left_by_rollback(moved, relocations);
    assert forall|path: Seq<char>| back.contains(path) <==> files.contains(path) by {
        if !is_elsewhere(path, relocations) {
            let i = choose|i: int|
                0 <= i < relocations.len() && ((#[trigger] relocations[i]).source@ == path
                    || relocations[i].destination@ == path);
            assert(back.contains(relocations[i].source@));
            assert(files.contains(relocations[i].source@));
        }
    }
    assert(back =~= files);
}

/// Settling a relocation that is settled does nothing: a move that was
/// interrupted can be run again from its start.
pub proof fn settling_again_changes_nothing(files: Set<Seq<char>>, relocation: Relocation, forward: bool)
    ensures
        settled(files, relocation, forward) matches Some(done) ==> settled(
            done,
            relocation,
            forward,
        ) == Some(done),
{
}

/// What moves before the old window was saved without its terminal is a file
/// that nothing saved names, and never a lock: until then the lock of every file
/// stays where others look for it.
pub proof fn locks_and_saved_files_stay_until_the_cutover(
    files: Seq<ArtifactFile>,
    saved: SavedTerminal,
    i: int,
)
    requires
        0 <= i < all_relocations(files, saved).len(),
        !all_relocations(files, saved)[i].after_source_cutover,
    ensures
        !moves_after_cutover(saved, all_relocations(files, saved)[i].source@),
        exists|j: int|
            0 <= j < files.len() && (#[trigger] files[j]).source == all_relocations(files, saved)[i].source
                && files[j].destination == all_relocations(files, saved)[i].destination,
    decreases files.len(),
{
    let before = all_relocations(files.drop_last(), saved);
    if i < before.len() {
        assert(all_relocations(files, saved)[i] == before[i]);
        locks_and_saved_files_stay_until_the_cutover(files.drop_last(), saved, i);
        let j = choose|j: int|
            0 <= j < files.drop_last().len() && (#[trigger] files.drop_last()[j]).source == before[i].source
                && files.drop_last()[j].destination == before[i].destination;
        assert(files[j] == files.drop_last()[j]);
    } else {
        assert(files.last() == files[files.len() - 1]);
    }
}

} // verus!
