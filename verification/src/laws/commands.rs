//! Commands: what a plugin that sends one can count on.
use vstd::prelude::*;

use crate::buffer_text::lemma_line_break_none;
use crate::buffer_text::lemma_line_break_some;
use crate::buffer_text::lemma_newlines_step;
use crate::buffer_text::line_break;
use crate::buffer_text::line_offset;
use crate::buffer_text::newlines;
use crate::command::ActionSpec;
use crate::command::PluginCommand;
use crate::command::PluginCommandContext;
use crate::documents::Pane;
use crate::editor::EditorModel;
use crate::effects::CallbackOwner;
use crate::effects::Effect;
use crate::effects::EffectModel;
use crate::effects::ProcessRequest;
use crate::effects::Reply;
use crate::handle_command::DispatchSite;
use crate::ids::BufferId;
use crate::ids::JsCallbackId;
use crate::ids::LeafId;
use crate::ids::SplitId;
use crate::ids::WindowId;
use crate::ids::WindowTerminalId;
use crate::laws::views::lemma_newlines_are_counted;
use crate::laws::views::newline_count;
use crate::lists::lemma_filter_source;
use crate::lists::lemma_first_match_found;
use crate::lists::lemma_first_match_none;
use crate::notice::Notice;
use crate::notice::Rejection;
use crate::notice::SpawnOperation;
use crate::processes::fetched;
use crate::queries::has_label;
use crate::ui_handlers::contexts_with;
use crate::ui_handlers::is_permitted_action;
use crate::ui_handlers::other_text;
use crate::window::Prompt;

verus! {

/// The text of a buffer of the window in the foreground, by the buffer's number; zero
/// stands for the buffer in front.
pub open spec fn is_text_of(editor: EditorModel, buffer: BufferId, bytes: Seq<u8>) -> bool {
    let documents = editor.windows[editor.active_window.0].documents;
    let named = if buffer.0 == 0 {
        documents.active_buffer
    } else {
        buffer
    };
    &&& editor.windows.contains_key(editor.active_window.0)
    &&& documents.buffers.contains_key(named.0)
    &&& documents.buffers[named.0].content.bytes@ == bytes
    &&& bytes.len() <= u64::MAX
}

/// Whether a text is listed.
pub open spec fn lists(texts: Seq<String>, text: Seq<char>) -> bool {
    exists|i: int| 0 <= i < texts.len() && (#[trigger] texts[i])@ == text
}

/// The answer to a request: its promise is resolved with `reply`, and nothing else
/// happens.
pub open spec fn answered(editor: EditorModel, request_id: u64, reply: Reply) -> EditorModel {
    EditorModel {
        outbox: editor.outbox.push(
            EffectModel::Plain(
                Effect::Resolve {
                    owner: CallbackOwner::Host,
                    callback: JsCallbackId(request_id),
                    reply,
                },
            ),
        ),
        ..editor
    }
}

/// The refusal of a request.
pub open spec fn refused(
    editor: EditorModel,
    callback: JsCallbackId,
    reason: Rejection,
) -> EditorModel {
    EditorModel {
        outbox: editor.outbox.push(
            EffectModel::Plain(Effect::Reject { owner: CallbackOwner::Host, callback, reason }),
        ),
        ..editor
    }
}

/// An editor that was asked for one thing, and is otherwise as it was.
pub open spec fn asked(editor: EditorModel, effect: Effect) -> EditorModel {
    EditorModel { outbox: editor.outbox.push(EffectModel::Plain(effect)), ..editor }
}

/// A request for text gets the bytes between the two offsets, cut to the buffer; one
/// for a buffer that is not open is refused.
pub proof fn text_is_read_between_two_offsets(
    editor: EditorModel,
    buffer: BufferId,
    start: usize,
    end: usize,
    request_id: u64,
    bytes: Seq<u8>,
    context: PluginCommandContext,
    site: DispatchSite,
    after: EditorModel,
)
    requires
        editor.is_carried_out(
            PluginCommand::GetBufferText { buffer_id: buffer, start, end, request_id },
            context,
            site,
            after,
        ),
    ensures
        buffer.0 != 0 && is_text_of(editor, buffer, bytes) ==> {
            let last = if end <= bytes.len() {
                end as int
            } else {
                bytes.len() as int
            };
            let first = if start <= last {
                start as int
            } else {
                last
            };
            after == (EditorModel {
                outbox: editor.outbox.push(
                    EffectModel::ResolveText {
                        callback: JsCallbackId(request_id),
                        text: bytes.subrange(first, last),
                    },
                ),
                ..editor
            })
        },
        !(editor.windows.contains_key(editor.active_window.0)
            && editor.windows[editor.active_window.0].documents.buffers.contains_key(buffer.0))
            ==> after == refused(
            editor,
            JsCallbackId(request_id),
            Rejection::BufferNotFound { buffer },
        ),
{
    reveal(EditorModel::view_outcome);
    reveal(EditorModel::text_outcome);
}

/// The start of a line is right behind the newline that ends the line before it; a line
/// that the buffer does not have has no start.
pub proof fn a_line_starts_behind_a_newline(
    editor: EditorModel,
    buffer: BufferId,
    line: u32,
    request_id: u64,
    bytes: Seq<u8>,
    context: PluginCommandContext,
    site: DispatchSite,
    after: EditorModel,
)
    requires
        editor.is_carried_out(
            PluginCommand::GetLineStartPosition { buffer_id: buffer, line, request_id },
            context,
            site,
            after,
        ),
        is_text_of(editor, buffer, bytes),
    ensures
        newline_count(bytes, bytes.len() as int) < line ==> after == answered(
            editor,
            request_id,
            Reply::Number(None),
        ),
        line <= newline_count(bytes, bytes.len() as int) ==> exists|at: u64|
            {
                &&& at <= bytes.len()
                &&& newline_count(bytes, at as int) == line
                &&& at == 0 || bytes[at - 1] == 10u8
                &&& #[trigger] answered(editor, request_id, Reply::Number(Some(at))) == after
            },
{
    reveal(EditorModel::view_outcome);
    reveal(EditorModel::text_outcome);
    lemma_line_starts(bytes, line as nat);
    if line <= newline_count(bytes, bytes.len() as int) {
        let at = line_offset(bytes, bytes.len() as int, line as nat, false)->0;
        assert(answered(editor, request_id, Reply::Number(Some(at as u64))) == after);
    }
}

/// The end of a line is its newline, or the end of the buffer; a line that the buffer does
/// not have has no end.
pub proof fn a_line_ends_at_its_newline(
    editor: EditorModel,
    buffer: BufferId,
    line: u32,
    request_id: u64,
    bytes: Seq<u8>,
    context: PluginCommandContext,
    site: DispatchSite,
    after: EditorModel,
)
    requires
        editor.is_carried_out(
            PluginCommand::GetLineEndPosition { buffer_id: buffer, line, request_id },
            context,
            site,
            after,
        ),
        is_text_of(editor, buffer, bytes),
    ensures
        newline_count(bytes, bytes.len() as int) < line ==> after == answered(
            editor,
            request_id,
            Reply::Number(None),
        ),
        line <= newline_count(bytes, bytes.len() as int) ==> exists|at: u64|
            {
                &&& at <= bytes.len()
                &&& newline_count(bytes, at as int) == line
                &&& at == bytes.len() || bytes[at as int] == 10u8
                &&& #[trigger] answered(editor, request_id, Reply::Number(Some(at))) == after
            },
{
    reveal(EditorModel::view_outcome);
    reveal(EditorModel::text_outcome);
    lemma_line_ends(bytes, line as nat);
    if line <= newline_count(bytes, bytes.len() as int) {
        let at = line_offset(bytes, bytes.len() as int, line as nat, true)->0;
        assert(answered(editor, request_id, Reply::Number(Some(at as u64))) == after);
    }
}

/// A buffer has as many lines as newlines, and one more where text follows the last of
/// them or there is none.
pub proof fn lines_are_counted_by_their_newlines(
    editor: EditorModel,
    buffer: BufferId,
    request_id: u64,
    bytes: Seq<u8>,
    context: PluginCommandContext,
    site: DispatchSite,
    after: EditorModel,
)
    requires
        editor.is_carried_out(
            PluginCommand::GetBufferLineCount { buffer_id: buffer, request_id },
            context,
            site,
            after,
        ),
        is_text_of(editor, buffer, bytes),
        bytes.len() < u64::MAX,
    ensures
        after == answered(
            editor,
            request_id,
            Reply::Number(
                Some(
                    (newline_count(bytes, bytes.len() as int) + if bytes.len() > 0 && bytes.last()
                        == 10u8 {
                        0int
                    } else {
                        1int
                    }) as u64,
                ),
            ),
        ),
{
    reveal(EditorModel::view_outcome);
    reveal(EditorModel::text_outcome);
    lemma_newlines_are_counted(bytes, bytes.len() as int);
    assert(bytes.take(bytes.len() as int) =~= bytes);
}

/// A split gets the label that it is given, and no other split changes.
pub proof fn a_label_goes_to_its_split(
    editor: EditorModel,
    split: SplitId,
    label: String,
    i: int,
    context: PluginCommandContext,
    site: DispatchSite,
    after: EditorModel,
)
    requires
        editor.is_carried_out(
            PluginCommand::SetSplitLabel { split_id: split, label },
            context,
            site,
            after,
        ),
        editor.windows.contains_key(editor.active_window.0),
        editor.windows[editor.active_window.0].documents.layout is Some,
        0 <= i < editor.windows[editor.active_window.0].documents.layout->0.panes.len(),
    ensures
        ({
            let before = editor.windows[editor.active_window.0].documents.layout->0.panes[i];
            let layout = after.windows[editor.active_window.0].documents.layout->0;
            &&& layout.panes[i] == if before.leaf == LeafId(split) {
                Pane { label: Some(label), ..before }
            } else {
                before
            }
            &&& layout.panes.len()
                == editor.windows[editor.active_window.0].documents.layout->0.panes.len()
        }),
{
    reveal(EditorModel::view_outcome);
}

/// A split that loses its label has none, and no other split changes.
pub proof fn a_label_is_taken_from_its_split(
    editor: EditorModel,
    split: SplitId,
    i: int,
    context: PluginCommandContext,
    site: DispatchSite,
    after: EditorModel,
)
    requires
        editor.is_carried_out(
            PluginCommand::ClearSplitLabel { split_id: split },
            context,
            site,
            after,
        ),
        editor.windows.contains_key(editor.active_window.0),
        editor.windows[editor.active_window.0].documents.layout is Some,
        0 <= i < editor.windows[editor.active_window.0].documents.layout->0.panes.len(),
    ensures
        ({
            let before = editor.windows[editor.active_window.0].documents.layout->0.panes[i];
            after.windows[editor.active_window.0].documents.layout->0.panes[i] == if before.leaf
                == LeafId(split) {
                Pane { label: None, ..before }
            } else {
                before
            }
        }),
{
    reveal(EditorModel::view_outcome);
}

/// A split is found by its label: the first one that has it, or none.
pub proof fn a_split_is_found_by_its_label(
    editor: EditorModel,
    label: String,
    request_id: u64,
    i: int,
    context: PluginCommandContext,
    site: DispatchSite,
    after: EditorModel,
)
    requires
        editor.is_carried_out(
            PluginCommand::GetSplitByLabel { label, request_id },
            context,
            site,
            after,
        ),
        editor.windows.contains_key(editor.active_window.0),
        editor.windows[editor.active_window.0].documents.layout is Some,
    ensures
        ({
            let panes = editor.windows[editor.active_window.0].documents.layout->0.panes;
            let labelled = |j: int| panes[j].label is Some && panes[j].label->0@ == label@;
            &&& 0 <= i < panes.len() && labelled(i) && (forall|j: int|
                0 <= j < i ==> !((#[trigger] panes[j]).label is Some && panes[j].label->0@
                    == label@)) ==> after == answered(
                editor,
                request_id,
                Reply::Number(Some(panes[i].leaf.0.0)),
            )
            &&& (forall|j: int|
                0 <= j < panes.len() ==> !((#[trigger] panes[j]).label is Some
                    && panes[j].label->0@ == label@)) ==> after == answered(
                editor,
                request_id,
                Reply::Number(None),
            )
        }),
{
    reveal(EditorModel::view_outcome);
    let panes = editor.windows[editor.active_window.0].documents.layout->0.panes;
    let wanted = has_label(label@);
    if 0 <= i < panes.len() && wanted(panes[i]) && forall|j: int|
        0 <= j < i ==> !wanted(#[trigger] panes[j]) {
        lemma_first_match_found(panes, wanted, i);
    }
    if forall|j: int| 0 <= j < panes.len() ==> !wanted(#[trigger] panes[j]) {
        lemma_first_match_none(panes, wanted);
    }
}

/// A buffer shows its cursors or hides them as it is told, from then on.
pub proof fn cursors_are_shown_as_told(
    editor: EditorModel,
    buffer: BufferId,
    show: bool,
    context: PluginCommandContext,
    site: DispatchSite,
    after: EditorModel,
)
    requires
        editor.is_carried_out(
            PluginCommand::SetBufferShowCursors { buffer_id: buffer, show },
            context,
            site,
            after,
        ),
        editor.windows.contains_key(editor.active_window.0),
        editor.windows[editor.active_window.0].documents.buffers.contains_key(buffer.0),
    ensures
        ({
            let before = editor.windows[editor.active_window.0].documents.buffers[buffer.0];
            let now = after.windows[editor.active_window.0].documents.buffers[buffer.0];
            &&& now.flags.show_cursors == show
            &&& now.flags.cursor_visibility_locked
            &&& now.content == before.content
            &&& now.flags.editing_disabled == before.flags.editing_disabled
        }),
{
    reveal(EditorModel::view_outcome);
}

/// An open buffer is written to the path that is given; of one that is not open the user is
/// told.
pub proof fn an_open_buffer_is_saved_where_asked(
    editor: EditorModel,
    buffer: BufferId,
    path: String,
    context: PluginCommandContext,
    site: DispatchSite,
    after: EditorModel,
)
    requires
        editor.is_carried_out(
            PluginCommand::SaveBufferToPath { buffer_id: buffer, path },
            context,
            site,
            after,
        ),
        editor.windows.contains_key(editor.active_window.0),
    ensures
        editor.windows[editor.active_window.0].documents.buffers.contains_key(buffer.0) ==> after
            == asked(editor, Effect::SaveBuffer { buffer, path }),
        !editor.windows[editor.active_window.0].documents.buffers.contains_key(buffer.0)
            ==> after.windows[editor.active_window.0].ui.status_message == Some(
            Notice::BufferNotFound { buffer },
        ),
{
    reveal(EditorModel::view_outcome);
    reveal(EditorModel::text_outcome);
}

/// A line is brought to the middle of a split: the split begins half its height above it, or
/// at the first line. Zero stands for the active split and for the buffer in front.
pub proof fn a_line_comes_to_the_middle(
    editor: EditorModel,
    split: SplitId,
    buffer: BufferId,
    line: u64,
    context: PluginCommandContext,
    site: DispatchSite,
    after: EditorModel,
)
    requires
        editor.is_carried_out(
            PluginCommand::ScrollToLineCenter { split_id: split, buffer_id: buffer, line },
            context,
            site,
            after,
        ),
        editor.windows.contains_key(editor.active_window.0),
        editor.windows[editor.active_window.0].documents.layout is Some,
    ensures
        ({
            let documents = editor.windows[editor.active_window.0].documents;
            let layout = documents.layout->0;
            let leaf = if split.0 == 0 {
                layout.active_split
            } else {
                LeafId(split)
            };
            let named = if buffer.0 == 0 {
                documents.active_buffer
            } else {
                buffer
            };
            let height = layout.view_states[leaf.0.0].viewport.height;
            let first = if line <= height / 2 {
                0u64
            } else {
                (line - height / 2) as u64
            };
            if layout.view_states.contains_key(leaf.0.0) {
                after == asked(
                    editor,
                    Effect::ScrollSplit { buffer: named, split: leaf, line: first },
                )
            } else {
                after == editor
            }
        }),
{
    reveal(EditorModel::view_outcome);
    reveal(EditorModel::text_outcome);
}

/// The next difference is ahead and the previous one behind, in the split in use.
pub proof fn differences_are_walked_ahead(
    editor: EditorModel,
    buffer: BufferId,
    context: PluginCommandContext,
    site: DispatchSite,
    after: EditorModel,
)
    requires
        editor.is_carried_out(
            PluginCommand::CompositeNextHunk { buffer_id: buffer },
            context,
            site,
            after,
        ),
        editor.windows.contains_key(editor.active_window.0),
        editor.windows[editor.active_window.0].documents.layout is Some,
    ensures
        after == asked(
            editor,
            Effect::CompositeHunk {
                split: editor.windows[editor.active_window.0].documents.layout->0.effective_split,
                buffer,
                forward: true,
            },
        ),
{
    reveal(EditorModel::view_outcome);
    reveal(EditorModel::text_outcome);
}

/// The previous difference is behind, in the split in use.
pub proof fn differences_are_walked_back(
    editor: EditorModel,
    buffer: BufferId,
    context: PluginCommandContext,
    site: DispatchSite,
    after: EditorModel,
)
    requires
        editor.is_carried_out(
            PluginCommand::CompositePrevHunk { buffer_id: buffer },
            context,
            site,
            after,
        ),
        editor.windows.contains_key(editor.active_window.0),
        editor.windows[editor.active_window.0].documents.layout is Some,
    ensures
        after == asked(
            editor,
            Effect::CompositeHunk {
                split: editor.windows[editor.active_window.0].documents.layout->0.effective_split,
                buffer,
                forward: false,
            },
        ),
{
    reveal(EditorModel::view_outcome);
    reveal(EditorModel::text_outcome);
}

/// A buffer with a file follows it by the file's size; one without a file, or that is not
/// open, has nothing to follow.
pub proof fn a_buffer_follows_its_file(
    editor: EditorModel,
    buffer: BufferId,
    request_id: u64,
    context: PluginCommandContext,
    site: DispatchSite,
    after: EditorModel,
)
    requires
        editor.is_carried_out(
            PluginCommand::RefreshBufferFromDisk { buffer_id: buffer, request_id },
            context,
            site,
            after,
        ),
        editor.windows.contains_key(editor.active_window.0),
        editor.windows[editor.active_window.0].documents.layout is Some,
    ensures
        ({
            let documents = editor.windows[editor.active_window.0].documents;
            let named = if buffer.0 == 0 {
                documents.active_buffer
            } else {
                buffer
            };
            let content = documents.buffers[named.0].content;
            after == if documents.buffers.contains_key(named.0) && content.path is Some {
                asked(
                    editor,
                    Effect::StatBuffer { buffer: named, path: content.path->0, request_id },
                )
            } else {
                answered(editor, request_id, Reply::Number(None))
            }
        }),
{
    reveal(EditorModel::view_outcome);
    reveal(EditorModel::text_outcome);
}

/// A key that was pressed before it was awaited is handed over, the oldest first; otherwise
/// the promise waits behind those that wait already.
pub proof fn keys_are_handed_over_in_order(
    editor: EditorModel,
    callback: JsCallbackId,
    context: PluginCommandContext,
    site: DispatchSite,
    after: EditorModel,
)
    requires
        editor.is_carried_out(
            PluginCommand::AwaitNextKey { callback_id: callback },
            context,
            site,
            after,
        ),
        editor.windows.contains_key(editor.active_window.0),
    ensures
        ({
            let before = editor.windows[editor.active_window.0].ui;
            let now = after.windows[editor.active_window.0].ui;
            if before.pending_keys.len() > 0 {
                &&& after.outbox == editor.outbox.push(
                    EffectModel::Plain(
                        Effect::Resolve {
                            owner: CallbackOwner::Host,
                            callback,
                            reply: Reply::Json(before.pending_keys[0]),
                        },
                    ),
                )
                &&& now.pending_keys == before.pending_keys.subrange(
                    1,
                    before.pending_keys.len() as int,
                )
                &&& now.pending_key_callbacks == before.pending_key_callbacks
            } else {
                &&& after.outbox == editor.outbox
                &&& now.pending_key_callbacks == before.pending_key_callbacks.push(callback)
                &&& now.pending_keys == before.pending_keys
            }
        }),
{
    reveal(EditorModel::view_outcome);
    let before = editor.windows[editor.active_window.0].ui;
    if before.pending_keys.len() > 0 {
        assert(before.pending_keys.drop_first() =~= before.pending_keys.subrange(
            1,
            before.pending_keys.len() as int,
        ));
    }
}

/// Keys are kept for plugins while they are captured; once they are not, none is left.
pub proof fn keys_are_captured_as_told(
    editor: EditorModel,
    active: bool,
    context: PluginCommandContext,
    site: DispatchSite,
    after: EditorModel,
)
    requires
        editor.is_carried_out(
            PluginCommand::SetKeyCaptureActive { active },
            context,
            site,
            after,
        ),
        editor.windows.contains_key(editor.active_window.0),
    ensures
        after.windows[editor.active_window.0].ui.key_capture_active == active,
        after.windows[editor.active_window.0].ui.pending_keys == if active {
            editor.windows[editor.active_window.0].ui.pending_keys
        } else {
            Seq::empty()
        },
{
    reveal(EditorModel::view_outcome);
}

/// The suggestion that is chosen is the one with the number that is given, or the last one
/// where there are fewer; nothing is chosen where there are none.
pub proof fn a_suggestion_is_chosen_by_its_number(
    editor: EditorModel,
    index: u32,
    context: PluginCommandContext,
    site: DispatchSite,
    after: EditorModel,
)
    requires
        editor.is_carried_out(
            PluginCommand::SetPromptSelectedIndex { index },
            context,
            site,
            after,
        ),
        editor.windows.contains_key(editor.active_window.0),
        editor.windows[editor.active_window.0].ui.prompt is Some,
    ensures
        ({
            let before = editor.windows[editor.active_window.0].ui.prompt->0;
            let now = after.windows[editor.active_window.0].ui.prompt;
            let count = before.suggestion_count;
            &&& now is Some
            &&& count == 0 ==> now->0 == before
            &&& index < count ==> now->0.selected_suggestion == Some(index as u64)
            &&& 0 < count <= index ==> now->0.selected_suggestion == Some((count - 1) as u64)
            &&& now->0.suggestion_count == count
            &&& now->0.title == before.title
        }),
{
    reveal(EditorModel::view_outcome);
}

/// The prompt gets what it is given as its title, and keeps the rest.
pub proof fn a_prompt_gets_its_title(
    editor: EditorModel,
    value: Vec<String>,
    context: PluginCommandContext,
    site: DispatchSite,
    after: EditorModel,
)
    requires
        editor.is_carried_out(
            PluginCommand::SetPromptTitle { title: value },
            context,
            site,
            after,
        ),
        editor.windows.contains_key(editor.active_window.0),
        editor.windows[editor.active_window.0].ui.prompt is Some,
    ensures
        after.windows[editor.active_window.0].ui.prompt == Some(
            Prompt { title: value, ..editor.windows[editor.active_window.0].ui.prompt->0 },
        ),
        after.outbox == editor.outbox,
{
    reveal(EditorModel::view_outcome);
}

/// The prompt gets what it is given as its footer, and keeps the rest.
pub proof fn a_prompt_gets_its_footer(
    editor: EditorModel,
    value: Vec<String>,
    context: PluginCommandContext,
    site: DispatchSite,
    after: EditorModel,
)
    requires
        editor.is_carried_out(
            PluginCommand::SetPromptFooter { footer: value },
            context,
            site,
            after,
        ),
        editor.windows.contains_key(editor.active_window.0),
        editor.windows[editor.active_window.0].ui.prompt is Some,
    ensures
        after.windows[editor.active_window.0].ui.prompt == Some(
            Prompt { footer: value, ..editor.windows[editor.active_window.0].ui.prompt->0 },
        ),
        after.outbox == editor.outbox,
{
    reveal(EditorModel::view_outcome);
}

/// The prompt gets what it is given as its toolbar, and keeps the rest.
pub proof fn a_prompt_gets_its_toolbar(
    editor: EditorModel,
    value: Option<String>,
    context: PluginCommandContext,
    site: DispatchSite,
    after: EditorModel,
)
    requires
        editor.is_carried_out(
            PluginCommand::SetPromptToolbar { spec: value },
            context,
            site,
            after,
        ),
        editor.windows.contains_key(editor.active_window.0),
        editor.windows[editor.active_window.0].ui.prompt is Some,
    ensures
        after.windows[editor.active_window.0].ui.prompt == Some(
            Prompt { toolbar: value, ..editor.windows[editor.active_window.0].ui.prompt->0 },
        ),
        after.outbox == editor.outbox,
{
    reveal(EditorModel::view_outcome);
}

/// The prompt gets what it is given as its status, and keeps the rest.
pub proof fn a_prompt_gets_its_status(
    editor: EditorModel,
    value: String,
    context: PluginCommandContext,
    site: DispatchSite,
    after: EditorModel,
)
    requires
        editor.is_carried_out(
            PluginCommand::SetPromptStatus { status: value },
            context,
            site,
            after,
        ),
        editor.windows.contains_key(editor.active_window.0),
        editor.windows[editor.active_window.0].ui.prompt is Some,
    ensures
        after.windows[editor.active_window.0].ui.prompt == Some(
            Prompt { status: value, ..editor.windows[editor.active_window.0].ui.prompt->0 },
        ),
        after.outbox == editor.outbox,
{
    reveal(EditorModel::view_outcome);
}

/// The prompt gets what it is given as its sync input on navigate, and keeps the rest.
pub proof fn a_prompt_gets_its_sync_input_on_navigate(
    editor: EditorModel,
    value: bool,
    context: PluginCommandContext,
    site: DispatchSite,
    after: EditorModel,
)
    requires
        editor.is_carried_out(
            PluginCommand::SetPromptInputSync { sync: value },
            context,
            site,
            after,
        ),
        editor.windows.contains_key(editor.active_window.0),
        editor.windows[editor.active_window.0].ui.prompt is Some,
    ensures
        after.windows[editor.active_window.0].ui.prompt == Some(
            Prompt { sync_input_on_navigate: value, ..editor.windows[editor.active_window.0].ui.prompt->0 },
        ),
        after.outbox == editor.outbox,
{
    reveal(EditorModel::view_outcome);
}

/// A context is in force once it was switched on, and not once it was switched off; no
/// other context changes.
pub proof fn a_context_is_switched(
    editor: EditorModel,
    name: String,
    active: bool,
    other: Seq<char>,
    context: PluginCommandContext,
    site: DispatchSite,
    after: EditorModel,
)
    requires
        editor.is_carried_out(
            PluginCommand::SetContext { name, active },
            context,
            site,
            after,
        ),
        editor.windows.contains_key(editor.active_window.0),
    ensures
        ({
            let before = editor.windows[editor.active_window.0].ui.custom_contexts;
            let now = after.windows[editor.active_window.0].ui.custom_contexts;
            &&& lists(now, name@) == active
            &&& other != name@ ==> lists(now, other) == lists(before, other)
        }),
{
    reveal(EditorModel::view_outcome);
    let before = editor.windows[editor.active_window.0].ui.custom_contexts;
    lemma_switched(before, name, active, other);
}

/// Of the actions that a plugin asks for, those that would change how far a project is
/// trusted are left out, and all the others are run in order.
pub proof fn no_plugin_changes_the_trust(
    editor: EditorModel,
    actions: Vec<ActionSpec>,
    i: int,
    context: PluginCommandContext,
    site: DispatchSite,
    after: EditorModel,
)
    requires
        editor.is_carried_out(
            PluginCommand::ExecuteActions { actions },
            context,
            site,
            after,
        ),
        0 <= i < actions@.len(),
    ensures
        ({
            let run = after.outbox.last()->RunActions_run;
            let asked_for = actions@[i];
            let trusts = asked_for.action@ == "workspace_trust_trust"@ || asked_for.action@
                == "workspace_trust_restrict"@ || asked_for.action@ == "workspace_trust_block"@;
            &&& after.outbox.len() == editor.outbox.len() + 1
            &&& !trusts ==> run.actions.contains(asked_for)
            &&& forall|j: int|
                0 <= j < run.actions.len() ==> {
                    &&& (#[trigger] run.actions[j]).action@ != "workspace_trust_trust"@
                    &&& run.actions[j].action@ != "workspace_trust_restrict"@
                    &&& run.actions[j].action@ != "workspace_trust_block"@
                }
        }),
{
    reveal(EditorModel::view_outcome);
    reveal(EditorModel::text_outcome);
    let kept = is_permitted_action();
    let run = after.outbox.last()->RunActions_run;
    if kept(actions@[i]) {
        actions@.lemma_filter_contains(kept, i);
    }
    assert forall|j: int| 0 <= j < run.actions.len() implies kept(#[trigger] run.actions[j]) by {
        let k = lemma_filter_source(actions@, kept, j);
    }
}

/// A macro is played by the first character of its register.
pub proof fn a_macro_is_played_by_its_register(
    editor: EditorModel,
    register: String,
    context: PluginCommandContext,
    site: DispatchSite,
    after: EditorModel,
)
    requires
        editor.is_carried_out(
            PluginCommand::PlayMacroByRegister { register },
            context,
            site,
            after,
        ),
    ensures
        register@.len() == 0 ==> after == editor,
        register@.len() > 0 ==> after == asked(
            editor,
            Effect::PlayMacro { register: register@[0] },
        ),
{
    reveal(EditorModel::view_outcome);
    reveal(EditorModel::text_outcome);
}

/// A process is started for an open window, in the directory that is given or at the root of
/// the window, and is on record for that window; without a window or a runtime it is
/// refused.
pub proof fn a_process_runs_for_its_window(
    editor: EditorModel,
    window: WindowId,
    command: String,
    args: Vec<String>,
    cwd: Option<String>,
    stdout_to: Option<String>,
    callback: JsCallbackId,
    context: PluginCommandContext,
    site: DispatchSite,
    after: EditorModel,
)
    requires
        editor.is_carried_out(
            PluginCommand::SpawnProcess {
                window_id: window,
                command,
                args,
                cwd,
                stdout_to,
                callback_id: callback,
            },
            context,
            site,
            after,
        ),
    ensures
        !editor.windows.contains_key(window.0) ==> after == refused(
            editor,
            callback,
            Rejection::SpawnWindowGone { operation: SpawnOperation::Process, window },
        ),
        editor.windows.contains_key(window.0) && !(editor.config.runtime && editor.config.bridge)
            ==> after == refused(editor, callback, Rejection::AsyncRuntimeMissing),
        editor.windows.contains_key(window.0) && editor.config.runtime && editor.config.bridge ==> {
            &&& after.processes.host.contains_key(callback.0)
            &&& after.processes.host[callback.0] == window
            &&& after.processes.background == editor.processes.background
            &&& after.outbox == editor.outbox.push(
                EffectModel::Plain(
                    Effect::Spawn {
                        request: ProcessRequest {
                            window,
                            process_id: callback.0,
                            command,
                            args,
                            cwd: if cwd is Some {
                                cwd
                            } else {
                                Some(editor.windows[window.0].root.path)
                            },
                            stdout_to,
                            callback,
                        },
                        operation: SpawnOperation::Process,
                    },
                ),
            )
        },
{
    reveal(EditorModel::view_outcome);
    reveal(EditorModel::text_outcome);
    reveal(EditorModel::window_outcome);
    reveal(EditorModel::backend_outcome);
}

/// A process on the host is started only once the trust in its project was asked for.
pub proof fn a_host_process_is_asked_for_first(
    editor: EditorModel,
    window: WindowId,
    command: String,
    args: Vec<String>,
    cwd: Option<String>,
    callback: JsCallbackId,
    context: PluginCommandContext,
    site: DispatchSite,
    after: EditorModel,
)
    requires
        editor.is_carried_out(
            PluginCommand::SpawnHostProcess {
                window_id: window,
                command,
                args,
                cwd,
                callback_id: callback,
            },
            context,
            site,
            after,
        ),
        editor.windows.contains_key(window.0),
        editor.config.runtime,
        editor.config.bridge,
    ensures
        after == asked(
            editor,
            Effect::CheckTrust {
                request: ProcessRequest {
                    window,
                    process_id: callback.0,
                    command,
                    args,
                    cwd: if cwd is Some {
                        cwd
                    } else {
                        Some(editor.windows[window.0].root.path)
                    },
                    stdout_to: None,
                    callback,
                },
            },
        ),
{
    reveal(EditorModel::view_outcome);
    reveal(EditorModel::text_outcome);
    reveal(EditorModel::window_outcome);
    reveal(EditorModel::backend_outcome);
}

/// A background process is on record under its own number, apart from the others.
pub proof fn a_background_process_is_on_record(
    editor: EditorModel,
    window: WindowId,
    process_id: u64,
    command: String,
    args: Vec<String>,
    cwd: Option<String>,
    callback: JsCallbackId,
    context: PluginCommandContext,
    site: DispatchSite,
    after: EditorModel,
)
    requires
        editor.is_carried_out(
            PluginCommand::SpawnBackgroundProcess {
                window_id: window,
                process_id,
                command,
                args,
                cwd,
                callback_id: callback,
            },
            context,
            site,
            after,
        ),
        editor.windows.contains_key(window.0),
        editor.config.runtime,
        editor.config.bridge,
    ensures
        after.processes.background.contains_key(process_id),
        after.processes.background[process_id] == window,
        after.processes.host == editor.processes.host,
        after.outbox.last() is Plain && after.outbox.last()->Plain_0 is Spawn,
{
    reveal(EditorModel::view_outcome);
    reveal(EditorModel::text_outcome);
    reveal(EditorModel::window_outcome);
    reveal(EditorModel::backend_outcome);
}

/// A host process is killed for the window that it runs for, and for no other.
pub proof fn a_host_process_is_killed_by_its_window(
    editor: EditorModel,
    window: WindowId,
    process_id: u64,
    context: PluginCommandContext,
    site: DispatchSite,
    after: EditorModel,
)
    requires
        editor.is_carried_out(
            PluginCommand::KillHostProcess { window_id: window, process_id },
            context,
            site,
            after,
        ),
    ensures
        editor.processes.host.contains_key(process_id) && editor.processes.host[process_id] == window
            ==> !after.processes.host.contains_key(process_id) && after.outbox
            == editor.outbox.push(EffectModel::Plain(Effect::KillProcess { process_id })),
        !(editor.processes.host.contains_key(process_id) && editor.processes.host[process_id]
            == window) ==> after == editor,
{
    reveal(EditorModel::view_outcome);
    reveal(EditorModel::text_outcome);
    reveal(EditorModel::window_outcome);
    reveal(EditorModel::backend_outcome);
}

/// A background process is killed for the window that it runs for, and for no other.
pub proof fn a_background_process_is_killed_by_its_window(
    editor: EditorModel,
    window: WindowId,
    process_id: u64,
    context: PluginCommandContext,
    site: DispatchSite,
    after: EditorModel,
)
    requires
        editor.is_carried_out(
            PluginCommand::KillBackgroundProcess { window_id: window, process_id },
            context,
            site,
            after,
        ),
    ensures
        editor.processes.background.contains_key(process_id) && editor.processes.background[process_id] == window
            ==> !after.processes.background.contains_key(process_id) && after.outbox
            == editor.outbox.push(EffectModel::Plain(Effect::AbortBackground { process_id })),
        !(editor.processes.background.contains_key(process_id) && editor.processes.background[process_id]
            == window) ==> after == editor,
{
    reveal(EditorModel::view_outcome);
    reveal(EditorModel::text_outcome);
    reveal(EditorModel::window_outcome);
    reveal(EditorModel::backend_outcome);
}

/// A delay lasts as long as it is asked to, and is answered after it.
pub proof fn a_delay_is_answered(
    editor: EditorModel,
    callback: JsCallbackId,
    duration_ms: u64,
    context: PluginCommandContext,
    site: DispatchSite,
    after: EditorModel,
)
    requires
        editor.is_carried_out(
            PluginCommand::Delay { callback_id: callback, duration_ms },
            context,
            site,
            after,
        ),
    ensures
        editor.config.runtime && editor.config.bridge ==> after == asked(
            editor,
            Effect::Delay { callback, duration_ms },
        ),
        !(editor.config.runtime && editor.config.bridge) ==> after == answered(
            asked(editor, Effect::Sleep { duration_ms }),
            callback.0,
            Reply::Null,
        ),
{
    reveal(EditorModel::view_outcome);
    reveal(EditorModel::text_outcome);
    reveal(EditorModel::window_outcome);
    reveal(EditorModel::backend_outcome);
}

/// A file is fetched where there is a runtime, and refused where there is none.
pub proof fn a_file_is_fetched(
    editor: EditorModel,
    url: String,
    target_path: String,
    callback: JsCallbackId,
    context: PluginCommandContext,
    site: DispatchSite,
    after: EditorModel,
)
    requires
        editor.is_carried_out(
            PluginCommand::HttpFetch { url, target_path, callback_id: callback },
            context,
            site,
            after,
        ),
    ensures
        after == if editor.config.runtime && editor.config.bridge {
            asked(editor, Effect::HttpFetch { url, target_path, callback })
        } else {
            refused(editor, callback, Rejection::AsyncRuntimeMissing)
        },
{
    reveal(EditorModel::view_outcome);
    reveal(EditorModel::text_outcome);
    reveal(EditorModel::window_outcome);
    reveal(EditorModel::backend_outcome);
}

/// What is typed goes to a live terminal of the window that is named, and is lost where
/// there is none.
pub proof fn typing_goes_to_a_live_terminal(
    editor: EditorModel,
    terminal: WindowTerminalId,
    data: String,
    context: PluginCommandContext,
    site: DispatchSite,
    after: EditorModel,
)
    requires
        editor.is_carried_out(
            PluginCommand::SendTerminalInput { terminal_id: terminal, data },
            context,
            site,
            after,
        ),
    ensures
        after == if editor.windows.contains_key(terminal.window.0)
            && editor.windows[terminal.window.0].terminals.live.contains_key(terminal.terminal.0) {
            asked(editor, Effect::WriteTerminal { terminal, data })
        } else {
            editor
        },
{
    reveal(EditorModel::view_outcome);
    reveal(EditorModel::text_outcome);
    reveal(EditorModel::window_outcome);
}

/// A fetch has worked where the status says so, and says which status it got otherwise.
pub proof fn a_fetch_says_how_it_went(status: u16, error: String)
    ensures
        200 <= status < 300 ==> fetched(Ok(status)).0.len() == 0 && fetched(Ok(status)).1 == 0,
        !(200 <= status < 300) ==> fetched(Ok(status)).1 == status && fetched(Ok(status)).0.len()
            > 5,
        fetched(Err(error)) == (error@, -1int),
{
    reveal_strlit("HTTP ");
}

proof fn lemma_switched(before: Seq<String>, name: String, active: bool, other: Seq<char>)
    ensures
        ({
            let now = contexts_with(before, name, active);
            &&& lists(now, name@) == active
            &&& other != name@ ==> lists(now, other) == lists(before, other)
        }),
{
    let now = contexts_with(before, name, active);
    let kept = other_text(name@);
    if !active {
        if lists(now, name@) {
            let i = choose|i: int| 0 <= i < now.len() && (#[trigger] now[i])@ == name@;
            let j = lemma_filter_source(before, kept, i);
        }
        if other != name@ && lists(now, other) {
            let i = choose|i: int| 0 <= i < now.len() && (#[trigger] now[i])@ == other;
            let j = lemma_filter_source(before, kept, i);
            assert(before[j]@ == other);
        }
        if other != name@ && lists(before, other) {
            let i = choose|i: int| 0 <= i < before.len() && (#[trigger] before[i])@ == other;
            before.lemma_filter_contains(kept, i);
            let j = now.index_of(before[i]);
            assert(now[j]@ == other);
        }
    } else if !lists(before, name@) {
        assert(now[before.len() as int]@ == name@);
        if lists(before, other) {
            let i = choose|i: int| 0 <= i < before.len() && (#[trigger] before[i])@ == other;
            assert(now[i]@ == other);
        }
        if other != name@ && lists(now, other) {
            let i = choose|i: int| 0 <= i < now.len() && (#[trigger] now[i])@ == other;
            assert(before[i]@ == other);
        }
    }
}

proof fn lemma_line_starts(bytes: Seq<u8>, line: nat)
    ensures
        ({
            let start = line_offset(bytes, bytes.len() as int, line, false);
            &&& start is Some <==> line <= newline_count(bytes, bytes.len() as int)
            &&& start matches Some(at) ==> {
                &&& 0 <= at <= bytes.len()
                &&& newline_count(bytes, at) == line
                &&& at == 0 || bytes[at - 1] == 10u8
            }
        }),
{
    let len = bytes.len() as int;
    lemma_newlines_are_counted(bytes, len);
    lemma_newlines_are_counted(bytes, 0);
    assert(bytes.take(len) =~= bytes);
    assert(bytes.take(0) =~= Seq::<u8>::empty());
    if line > 0 {
        let before = (line - 1) as nat;
        if before < newlines(bytes) {
            lemma_line_break_some(bytes, before);
            let at = line_break(bytes, before)->0;
            lemma_newlines_step(bytes, at);
            lemma_newlines_are_counted(bytes, at + 1);
        } else {
            lemma_line_break_none(bytes, before);
        }
    }
}

proof fn lemma_line_ends(bytes: Seq<u8>, line: nat)
    ensures
        ({
            let end = line_offset(bytes, bytes.len() as int, line, true);
            &&& end is Some <==> line <= newline_count(bytes, bytes.len() as int)
            &&& end matches Some(at) ==> {
                &&& 0 <= at <= bytes.len()
                &&& newline_count(bytes, at) == line
                &&& at == bytes.len() || bytes[at] == 10u8
            }
        }),
{
    let len = bytes.len() as int;
    lemma_newlines_are_counted(bytes, len);
    assert(bytes.take(len) =~= bytes);
    if line < newlines(bytes) {
        lemma_line_break_some(bytes, line);
        let at = line_break(bytes, line)->0;
        lemma_newlines_are_counted(bytes, at);
    } else {
        lemma_line_break_none(bytes, line);
    }
}

} // verus!
