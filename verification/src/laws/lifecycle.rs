//! Windows, their terminals and their timers from start to end: what opening,
//! showing, stopping and closing a window asks for, and when a timer fires.
use std::sync::Arc;
use vstd::prelude::*;

use crate::authority::AuthoritySpec;
use crate::authority::WorkspaceRoot;
use crate::command::Edge;
use crate::editor::EditorModel;
use crate::effects::Effect;
use crate::effects::EffectModel;
use crate::effects::HookEvent;
use crate::effects::HookName;
use crate::effects::RemoteAttachOwner;
use crate::effects::SignalName;
use crate::effects::SnapshotTarget;
use crate::extraction::refusal;
use crate::extraction::start_of;
use crate::extraction::ExtractionStart;
use crate::ids::BufferId;
use crate::ids::TerminalId;
use crate::ids::WindowId;
use crate::ids::WindowTerminalId;
use crate::lists::lemma_filter_source;
use crate::lists::lemma_sorted_exists;
use crate::lists::lemma_sorted_members;
use crate::notice::LocalizedMessage;
use crate::notice::Notice;
use crate::process_group::signal_named;
use crate::process_group::ProcessGroupEntry;
use crate::process_group::Signal;
use crate::terminal_life::runs_terminal;
use crate::terminal_life::signal_called;
use crate::terminals::TerminalsModel;
use crate::timers::due_effects;
use crate::timers::due_ids;
use crate::timers::is_due;
use crate::timers::moment_after;
use crate::timers::rearmed;
use crate::timers::stays;
use crate::timers::timers_after;
use crate::timers::PluginTimer;
use crate::windows::co_tenant_label;
use crate::windows::cycle_of;
use crate::windows::cycle_position;
use crate::windows::cycle_target;
use crate::windows::edge_named;
use crate::windows::is_window;
use crate::windows::WindowSeed;

verus! {

/// Whether an effect was asked for between two states of an editor.
pub open spec fn was_asked(before: EditorModel, after: EditorModel, effect: EffectModel) -> bool {
    exists|i: int|
        before.outbox.len() <= i < after.outbox.len() && #[trigger] after.outbox[i] == effect
}

/// Whether nothing that was asked for was taken back.
pub open spec fn only_asks(before: EditorModel, after: EditorModel) -> bool {
    &&& before.outbox.len() <= after.outbox.len()
    &&& forall|i: int|
        0 <= i < before.outbox.len() ==> #[trigger] after.outbox[i] == before.outbox[i]
}

proof fn lemma_asked(before: EditorModel, at: EditorModel, after: EditorModel, effect: EffectModel)
    requires
        only_asks(before, at),
        only_asks(at.asking(effect), after),
    ensures
        was_asked(before, after, effect),
        only_asks(before, after),
{
    let i = at.outbox.len() as int;
    assert(at.asking(effect).outbox[i] == effect);
    assert(after.outbox[i] == effect);
    assert forall|i: int| 0 <= i < before.outbox.len() implies #[trigger] after.outbox[i]
        == before.outbox[i] by {
        assert(at.outbox[i] == before.outbox[i]);
        assert(at.asking(effect).outbox[i] == at.outbox[i]);
    }
}

proof fn lemma_still_asked(
    before: EditorModel,
    at: EditorModel,
    after: EditorModel,
    effect: EffectModel,
)
    requires
        was_asked(before, at, effect),
        only_asks(at, after),
    ensures
        was_asked(before, after, effect),
{
    let i = choose|i: int|
        before.outbox.len() <= i < at.outbox.len() && #[trigger] at.outbox[i] == effect;
    assert(after.outbox[i] == effect);
}

/// A move of a tab begins in the window in the foreground, unless that is gone. It is
/// refused with a word for the reason: the session is not local, the terminal runs the
/// update of the editor, may drive the editor, has a companion or does not run, or the
/// buffer has no file.
pub proof fn a_tab_moves_only_where_it_can(editor: EditorModel, buffer: BufferId)
    ensures
        ({
            let front = editor.active_window;
            let window = editor.windows[front.0];
            let start = start_of(editor, buffer);
            let refused = |notice: Notice|
                start == ExtractionStart::Refused && refusal(editor, buffer) == Some(notice);
            let local = !(window.authority_spec is RemoteAgent) && window.authority.remote is None;
            let terminal = window.terminals.bindings[buffer.0];
            let is_terminal = window.terminals.bindings.contains_key(buffer.0);
            let updating = editor.self_update_terminal == Some(
                WindowTerminalId { window: front, terminal },
            );
            let scripted = window.terminals.script_tokens.contains(terminal.0);
            let accompanied = window.terminals.companions.contains_key(terminal.0);
            let running = window.terminals.live.contains_key(terminal.0);
            let state = window.documents.buffers[buffer.0];
            let has_file = window.documents.buffers.contains_key(buffer.0)
                && state.content.path is Some;
            &&& !editor.windows.contains_key(front.0) ==> start == ExtractionStart::Nothing
            &&& editor.windows.contains_key(front.0) ==> {
                &&& !local ==> refused(Notice::ExtractNotLocal)
                &&& local && is_terminal && updating ==> refused(
                    Notice::Localized(LocalizedMessage::UpdateRunning),
                )
                &&& local && is_terminal && !updating && scripted ==> refused(
                    Notice::Localized(LocalizedMessage::ExtractTerminalScriptCapable),
                )
                &&& local && is_terminal && !updating && !scripted && accompanied ==> refused(
                    Notice::Localized(LocalizedMessage::ExtractTerminalCompanion),
                )
                &&& local && is_terminal && !updating && !scripted && !accompanied && !running
                    ==> refused(Notice::Localized(LocalizedMessage::ExtractTerminalDormant))
                &&& local && is_terminal && !updating && !scripted && !accompanied && running
                    ==> start == (ExtractionStart::Terminal { source: front, terminal })
                &&& local && !is_terminal && !has_file ==> refused(
                    Notice::Localized(LocalizedMessage::ExtractNoFilePath),
                )
                &&& local && !is_terminal && has_file ==> start == (ExtractionStart::File {
                    source: front,
                    path: state.content.path->0,
                })
            }
        }),
{
}

/// A new window has the root, the label, the identity and the backend that it was opened
/// with, shows its scratch buffer and nothing else, and is announced to those who listen.
pub proof fn a_new_window_is_what_it_was_opened_as(
    editor: EditorModel,
    root: Arc<WorkspaceRoot>,
    label: Seq<char>,
    seed: WindowSeed,
)
    requires
        editor.next_window_id < u64::MAX,
        editor.active_window.0 != editor.next_window_id,
    ensures
        ({
            let after = editor.opening(root, label, seed);
            let id = WindowId(editor.next_window_id);
            let window = after.windows[id.0];
            &&& after.windows.contains_key(id.0)
            &&& after.next_window_id == editor.next_window_id + 1
            &&& window.id == id
            &&& window.root == root
            &&& window.label == label
            &&& window.stable_id == seed.stable_id@
            &&& window.authority == seed.authority
            &&& window.authority_spec == AuthoritySpec::Local
            &&& window.documents.active_buffer == seed.scratch.buffer
            &&& forall|k: u64| #[trigger]
                window.documents.buffers.contains_key(k) <==> k == seed.scratch.buffer.0
            &&& window.documents.buffers[seed.scratch.buffer.0] == seed.scratch.state
            &&& window.documents.metadata[seed.scratch.buffer.0] == seed.scratch.metadata
            &&& window.documents.layout is Some
            &&& window.terminals == TerminalsModel::none()
            &&& window.plugin_state.len() == 0
            &&& was_asked(
                editor,
                after,
                EffectModel::Plain(
                    Effect::RunHook { window: id, event: HookEvent::WindowCreated },
                ),
            ) <== (exists|i: int|
                0 <= i < editor.plugins.subscriptions.len() && (
                #[trigger] editor.plugins.subscriptions[i]).hook == HookName::WindowCreated)
        }),
{
    let after = editor.opening(root, label, seed);
    let id = WindowId(editor.next_window_id);
    if exists|i: int|
        0 <= i < editor.plugins.subscriptions.len() && (
        #[trigger] editor.plugins.subscriptions[i]).hook == HookName::WindowCreated {
        let effect = EffectModel::Plain(
            Effect::RunHook { window: id, event: HookEvent::WindowCreated },
        );
        assert(after.outbox.last() == effect);
        assert(after.outbox[after.outbox.len() - 1] == effect);
    }
}

/// A window beside others at the same directory has the name of the directory with its
/// number behind it; the first one has the name alone.
pub proof fn windows_of_a_directory_have_labels_of_their_own(name: Seq<char>)
    ensures
        co_tenant_label(name, 0) == name,
        co_tenant_label(name, 1) == name + " (2)"@,
        co_tenant_label(name, 2) == name + " (3)"@,
{
    reveal_strlit(" (");
    reveal_strlit(")");
    reveal_strlit(" (2)");
    reveal_strlit(" (3)");
    assert(co_tenant_label(name, 1) =~= name + " (2)"@);
    assert(co_tenant_label(name, 2) =~= name + " (3)"@);
}

/// The edges that a window slides in from go by their names; anything else is the bottom.
pub proof fn edges_go_by_their_names(name: Seq<char>)
    ensures
        edge_named("top"@) == Edge::Top,
        edge_named("left"@) == Edge::Left,
        edge_named("right"@) == Edge::Right,
        edge_named("bottom"@) == Edge::Bottom,
        name != "top"@ && name != "left"@ && name != "right"@ ==> edge_named(name) == Edge::Bottom,
{
    reveal_strlit("top");
    reveal_strlit("left");
    reveal_strlit("right");
    reveal_strlit("bottom");
    assert("top"@.len() == 3 && "left"@.len() == 4 && "right"@.len() == 5 && "bottom"@.len() == 6);
}

/// Showing another window saves the one that is left, restores and lays out the one that
/// comes, lets everything follow its backend, and brings the shared snapshot, the mode of
/// terminals and the screen up to date. Those who listen hear which window was left.
pub proof fn showing_a_window_brings_everything_along(editor: EditorModel, id: WindowId)
    requires
        editor.windows.contains_key(id.0),
        editor.active_window != id,
    ensures
        ({
            let after = editor.showing(id);
            let left = editor.active_window;
            &&& after.active_window == id
            &&& was_asked(editor, after, EffectModel::Plain(Effect::Checkpoint { window: left }))
            &&& was_asked(editor, after, EffectModel::Plain(Effect::Materialize { window: id }))
            &&& was_asked(editor, after, EffectModel::Plain(Effect::EnsureLayout { window: id }))
            &&& was_asked(
                editor,
                after,
                EffectModel::Plain(
                    Effect::AdoptAuthority {
                        previous_label: editor.windows[left.0].authority.display_label,
                    },
                ),
            )
            &&& was_asked(
                editor,
                after,
                EffectModel::Plain(
                    Effect::RefreshSnapshot {
                        target: SnapshotTarget::Shared,
                        window: id,
                        scope: None,
                    },
                ),
            )
            &&& was_asked(editor, after, EffectModel::Plain(Effect::SyncTerminalMode))
            &&& was_asked(editor, after, EffectModel::Plain(Effect::Relayout))
            &&& (exists|i: int|
                0 <= i < editor.plugins.subscriptions.len() && (
                #[trigger] editor.plugins.subscriptions[i]).hook == HookName::ActiveWindowChanged)
                ==> was_asked(
                editor,
                after,
                EffectModel::Plain(
                    Effect::RunHook {
                        window: id,
                        event: HookEvent::ActiveWindowChanged { previous: left },
                    },
                ),
            )
            &&& editor.panels.floating is Some && editor.windows.contains_key(left.0)
                ==> after.windows[left.0].ui.editor_mode is None
            &&& editor.panels.floating is None && editor.windows.contains_key(left.0)
                ==> after.windows[left.0].ui.editor_mode == editor.windows[left.0].ui.editor_mode
        }),
{
    let left = editor.active_window;
    let checkpoint = EffectModel::Plain(Effect::Checkpoint { window: left });
    let materialize = EffectModel::Plain(Effect::Materialize { window: id });
    let layout = EffectModel::Plain(Effect::EnsureLayout { window: id });
    let adopt = EffectModel::Plain(
        Effect::AdoptAuthority { previous_label: editor.windows[left.0].authority.display_label },
    );
    let refresh = EffectModel::Plain(
        Effect::RefreshSnapshot { target: SnapshotTarget::Shared, window: id, scope: None },
    );
    let sync = EffectModel::Plain(Effect::SyncTerminalMode);
    let relayout = EffectModel::Plain(Effect::Relayout);
    let event = HookEvent::ActiveWindowChanged { previous: left };
    let hook = EffectModel::Plain(Effect::RunHook { window: id, event });
    let s1 = editor.asking(checkpoint);
    let s2 = s1.panel_mode_cleared(left);
    let s3 = s2.asking(materialize);
    let s4 = s3.asking(layout);
    let s5 = s4.pointing_at(id);
    let s6 = s5.clicks_forgotten(id);
    let s7 = s6.asking(adopt);
    let s8 = s7.woken(id);
    let s9 = s8.asking(refresh);
    let s10 = s9.announcing(id, event);
    let s11 = s10.asking(sync);
    let after = editor.showing(id);
    assert(after == s11.asking(relayout));
    lemma_woken(s7, id);
    assert(s9.visiting(id) == s9);
    assert(s10 == s9 || s10 == s9.asking(hook));
    if editor.windows.contains_key(left.0) {
        assert(s1.windows.contains_key(left.0) && s2.windows.contains_key(left.0));
        assert(s5.windows.contains_key(left.0) && s7.windows.contains_key(left.0));
        assert(s5.windows[left.0].ui == s2.windows[left.0].ui);
        assert(s7.windows[left.0].ui == s5.windows[left.0].ui);
        assert(s8.windows[left.0].ui.editor_mode == s7.windows[left.0].ui.editor_mode);
        assert(after.windows[left.0] == s8.windows[left.0]);
    }
    lemma_asked(editor, editor, after, checkpoint);
    lemma_asked(editor, s2, after, materialize);
    lemma_asked(editor, s3, after, layout);
    lemma_asked(editor, s6, after, adopt);
    lemma_asked(editor, s8, after, refresh);
    lemma_asked(editor, s10, after, sync);
    lemma_asked(editor, s11, after, relayout);
    if exists|i: int|
        0 <= i < editor.plugins.subscriptions.len() && (
        #[trigger] editor.plugins.subscriptions[i]).hook == HookName::ActiveWindowChanged {
        assert(s9.plugins.listens(HookName::ActiveWindowChanged));
        assert(s9.has(id));
        assert(s10 == s9.asking(hook));
        lemma_asked(editor, s9, after, hook);
    }
}

proof fn lemma_woken(editor: EditorModel, id: WindowId)
    requires
        editor.has(id),
    ensures
        only_asks(editor, editor.woken(id)),
        editor.woken(id).plugins == editor.plugins,
        editor.woken(id).active_window == editor.active_window,
        editor.woken(id).has(id),
        forall|k: u64| #[trigger]
            editor.windows.contains_key(k) ==> editor.woken(id).windows[k].ui.editor_mode
                == editor.windows[k].ui.editor_mode,
{
    reveal(EditorModel::connecting);
    if let AuthoritySpec::RemoteAgent(spec) = editor.window(id).authority_spec {
        let owner = RemoteAttachOwner::Reconnect { window: id };
        let cleared = editor.with_window(id, editor.window(id).with_reconnect_error(None));
        let after = cleared.connecting(spec, owner, true, None);
        if !cleared.config.runtime || !cleared.config.bridge {
            assert(after == cleared.connect_unavailable(owner));
            assert(after.outbox == editor.outbox && after.plugins == editor.plugins);
        } else if cleared.attempting(owner) is None {
            assert(after == cleared);
        } else {
            let begun = (cleared.attempting(owner)->0).1;
            assert(begun.outbox == editor.outbox && begun.plugins == editor.plugins);
            assert(begun.windows == cleared.windows);
            assert(after.outbox.len() == begun.outbox.len() + 1);
            assert(after.outbox.drop_last() =~= begun.outbox);
            assert(after.plugins == begun.plugins);
        }
        assert(only_asks(editor, after));
    }
}

/// The walk over the windows goes in order and around: next to the one behind the active
/// window, or from the last to the first, and previous the other way.
pub proof fn the_walk_over_windows_goes_around(editor: EditorModel, at: int)
    requires
        cycle_of(editor).len() > 1,
        cycle_of(editor).no_duplicates(),
        0 <= at < cycle_of(editor).len(),
        cycle_of(editor)[at] == editor.active_window,
    ensures
        ({
            let cycle = cycle_of(editor);
            let last = cycle.len() - 1;
            &&& cycle_target(editor, 1) == Some(
                if at < last {
                    cycle[at + 1]
                } else {
                    cycle[0]
                },
            )
            &&& cycle_target(editor, -1) == Some(
                if at > 0 {
                    cycle[at - 1]
                } else {
                    cycle[last]
                },
            )
        }),
{
    let cycle = cycle_of(editor);
    let len = cycle.len() as int;
    crate::lists::lemma_first_index_found(cycle, is_window(editor.active_window), at);
    assert(cycle_position(cycle, editor.active_window) == at);
    assert((at + 1) % len == if at + 1 < len {
        at + 1
    } else {
        0
    }) by (nonlinear_arith)
        requires
            0 <= at < len,
    ;
    assert((at - 1) % len == if at > 0 {
        at - 1
    } else {
        len - 1
    }) by (nonlinear_arith)
        requires
            0 <= at < len,
    ;
}

/// Where a plugin has ordered the walk it visits the windows of that order that are
/// open, and no others.
pub proof fn an_ordered_walk_visits_what_is_open(editor: EditorModel, id: WindowId, at: int)
    requires
        editor.window_cycle_order matches Some(order) && 0 <= at < order.len()
            && editor.windows.contains_key(order[at].0),
    ensures
        cycle_of(editor).contains(id) <==> editor.window_cycle_order->0.contains(id)
            && editor.windows.contains_key(id.0),
{
    let order = editor.window_cycle_order->0;
    let open = |w: WindowId| editor.has(w);
    order.lemma_filter_contains(open, at);
    if cycle_of(editor).contains(id) {
        let i = cycle_of(editor).index_of(id);
        let j = lemma_filter_source(order, open, i);
        assert(order[j] == id);
    }
    if order.contains(id) && editor.windows.contains_key(id.0) {
        let j = order.index_of(id);
        order.lemma_filter_contains(open, j);
    }
}

/// A window in the background can be closed while another is there, and a session that
/// has no window can be dropped; both are gone then. The rights of its scripts are taken
/// back, and nothing is watched for it any more. Where its terminals still run it is kept
/// until they have ended, and otherwise it is announced as closed.
pub proof fn closing_a_window_ends_all_that_it_had(editor: EditorModel, id: WindowId)
    requires
        editor.windows.contains_key(id.0),
        editor.windows.contains_key(editor.active_window.0),
        editor.windows.dom().finite(),
        id != editor.active_window,
    ensures
        ({
            let after = editor.closing(id);
            let window = editor.windows[id.0];
            &&& !after.windows.contains_key(id.0)
            &&& !after.dormant_remote.contains_key(id.0)
            &&& !after.remote.keepalives.contains(id.0)
            &&& !after.remote.pending_reattach.contains_key(id.0)
            &&& !after.remote.connected_cache.contains(id.0)
            &&& !after.remote.reconnects.contains_key(id.0)
            &&& was_asked(
                editor,
                after,
                EffectModel::Plain(Effect::RevokeScriptTokens { window: id }),
            )
            &&& was_asked(editor, after, EffectModel::Plain(Effect::UnwatchWindow { window: id }))
            &&& editor.remote.keepalives.contains(id.0) ==> was_asked(
                editor,
                after,
                EffectModel::Plain(Effect::DropKeepalive { window: id }),
            )
            &&& editor.self_update_terminal is Some && editor.self_update_terminal->0.window == id
                ==> after.self_update_terminal is None
            &&& if window.terminals.live.dom().len() > 0 {
                &&& after.closing_windows.contains_key(id.0)
                &&& after.closing_windows[id.0].terminals.script_tokens.is_empty()
                &&& after.closing_windows[id.0].terminals.live == window.terminals.live
            } else {
                after.closing_windows == editor.closing_windows && after.outbox.len() > 0
                    && after.outbox.last() is WindowClosed
            }
        }),
{
    let after = editor.closing(id);
    let dom = editor.windows.dom();
    assert(dom.contains(id.0) && dom.contains(editor.active_window.0));
    assert(dom.len() > 1) by {
        if dom.len() <= 1 {
            let rest = dom.remove(id.0);
            assert(rest.contains(editor.active_window.0));
            assert(rest.len() == dom.len() - 1);
            assert(rest.len() > 0) by {
                if rest.len() == 0 {
                    assert(rest =~= Set::<u64>::empty());
                }
            }
        }
    }
    let viewed = editor.visiting(id);
    assert(only_asks(editor, editor.pointing_at(id)));
    assert(only_asks(editor.pointing_at(id), viewed));
    let unwatch = EffectModel::Plain(Effect::UnwatchWindow { window: id });
    let revoke = EffectModel::Plain(Effect::RevokeScriptTokens { window: id });
    let s1 = viewed.reconnect_cancelled(id);
    let s2 = s1.attaches_cancelled(id);
    let s3 = s2.asking(unwatch);
    assert(s3 == editor.detached(id));
    assert(only_asks(editor, s1));
    assert(only_asks(s1, s2));
    assert(only_asks(editor, s2)) by {
        assert forall|i: int| 0 <= i < editor.outbox.len() implies #[trigger] s2.outbox[i]
            == editor.outbox[i] by {
            assert(s1.outbox[i] == editor.outbox[i]);
        }
    }
    let window = s3.window(id);
    let s4 = s3.asking_all(
        crate::windows::purge_effects(
            id,
            crate::lists::sorted_members(crate::windows::closes_terminal(window)),
        ),
    );
    let s5 = s4.asking(revoke);
    let s6 = s5.self_update_ended(id).without_window(id);
    assert(only_asks(s3, s4));
    assert(only_asks(s5, s6));
    let drop_keepalive = EffectModel::Plain(Effect::DropKeepalive { window: id });
    assert(only_asks(s5, after));
    assert(only_asks(s3, after)) by {
        assert forall|i: int| 0 <= i < s3.outbox.len() implies #[trigger] after.outbox[i]
            == s3.outbox[i] by {
            assert(s4.outbox[i] == s3.outbox[i]);
            assert(s5.outbox[i] == s4.outbox[i]);
        }
    }
    lemma_asked(editor, s2, after, unwatch);
    assert(only_asks(editor, s4)) by {
        assert forall|i: int| 0 <= i < editor.outbox.len() implies #[trigger] s4.outbox[i]
            == editor.outbox[i] by {
            assert(s2.outbox[i] == editor.outbox[i]);
            assert(s3.outbox[i] == s2.outbox[i]);
        }
    }
    lemma_asked(editor, s4, after, revoke);
    if editor.remote.keepalives.contains(id.0) {
        let waits = window.terminals.live.dom().len() > 0;
        let i = if waits {
            after.outbox.len() - 1
        } else {
            after.outbox.len() - 2
        };
        assert(after.outbox[i] == drop_keepalive);
    }
}

/// The names of signals: SIGTERM and SIGKILL end the processes of a window, and a name
/// stands for itself.
pub proof fn signals_go_by_their_names(name: String)
    ensures
        name@ == "SIGTERM"@ <==> signal_called(name) == SignalName::Terminate,
        name@ == "SIGKILL"@ <==> signal_called(name) == SignalName::Kill,
        signal_called(name).spec_text() == name@,
        signal_named("SIGTERM"@) == Some(Signal::Term),
        signal_named("SIGKILL"@) == Some(Signal::Kill),
        signal_named("SIGINT"@) == Some(Signal::Int),
        signal_named("SIGHUP"@) == Some(Signal::Hup),
        signal_named(name@) is Some ==> name@ == "SIGTERM"@ || name@ == "SIGKILL"@ || name@
            == "SIGINT"@ || name@ == "SIGHUP"@,
{
    reveal_strlit("SIGTERM");
    reveal_strlit("SIGKILL");
    reveal_strlit("SIGINT");
    reveal_strlit("SIGHUP");
    assert("SIGTERM"@[3] == 'T');
    assert("SIGKILL"@[3] == 'K');
    assert("SIGINT"@[3] == 'I');
    assert("SIGHUP"@[3] == 'H');
}

/// A signal reaches the process groups of an open window. One that ends them ends the
/// window's terminals with them: none is live any more, none can drive the editor, none
/// is the agent that is followed, and each is on record as ended. Any other signal
/// changes nothing else.
pub proof fn a_signal_that_ends_a_window_ends_its_terminals(
    editor: EditorModel,
    id: WindowId,
    name: String,
    terminal: u64,
)
    requires
        editor.windows.contains_key(id.0),
        editor.windows[id.0].terminals.live.dom().finite(),
        editor.windows[id.0].terminals.bindings.dom().finite(),
    ensures
        ({
            let signal = signal_called(name);
            let after = editor.signalled(id, signal);
            let tables = after.windows[id.0].terminals;
            let ends = name@ == "SIGTERM"@ || name@ == "SIGKILL"@;
            let sent = EffectModel::Plain(Effect::Signal { window: id, signal });
            &&& was_asked(editor, after, sent)
            &&& !ends ==> after == editor.asking(sent)
            &&& ends && editor.windows[id.0].terminals.live.contains_key(terminal) ==> {
                &&& !tables.live.contains_key(terminal)
                &&& !tables.script_tokens.contains(terminal)
                &&& !tables.commands.contains_key(terminal)
                &&& !tables.companions.contains_key(terminal)
                &&& after.tombstones.contains(
                    WindowTerminalId { window: id, terminal: TerminalId(terminal) },
                )
                &&& was_asked(
                    editor,
                    after,
                    EffectModel::Plain(
                        Effect::CloseTerminal { window: id, terminal: TerminalId(terminal) },
                    ),
                )
            }
            &&& ends ==> tables.tracked_agent is None && !after.remote.pending_reattach.contains_key(
                id.0,
            )
            &&& tables.groups == editor.windows[id.0].terminals.groups
        }),
{
    let signal = signal_called(name);
    let window = editor.windows[id.0];
    let after = editor.signalled(id, signal);
    let sent = EffectModel::Plain(Effect::Signal { window: id, signal });
    let ends = name@ == "SIGTERM"@ || name@ == "SIGKILL"@;
    if ends {
        let bound = window.terminals.bindings.values().map(|t: TerminalId| t.0);
        vstd::map_lib::lemma_values_finite(window.terminals.bindings);
        window.terminals.bindings.values().lemma_map_finite(|t: TerminalId| t.0);
        let all = window.terminals.live.dom().union(bound);
        let keys = lemma_sorted_exists(all);
        assert forall|k: u64| #[trigger] keys.contains(k) <==> runs_terminal(window)(k) by {
            if bound.contains(k) {
                let t = choose|t: TerminalId| window.terminals.bindings.values().contains(t) && t.0
                    == k;
                let b = choose|b: u64| #[trigger]
                    window.terminals.bindings.contains_key(b) && window.terminals.bindings[b] == t;
                assert(window.terminals.bindings.contains_key(b));
            }
            if exists|b: u64|
                #[trigger] window.terminals.bindings.contains_key(b)
                    && window.terminals.bindings[b].0 == k {
                let b = choose|b: u64|
                    #[trigger] window.terminals.bindings.contains_key(b)
                        && window.terminals.bindings[b].0 == k;
                assert(window.terminals.bindings.values().contains(window.terminals.bindings[b]));
            }
        }
        lemma_sorted_members(keys, runs_terminal(window));
        let buried = editor.terminals_buried(id);
        let s1 = buried.asking(sent);
        assert(only_asks(editor, buried));
        assert(only_asks(s1, after));
        lemma_asked(editor, buried, after, sent);
        lemma_terminals_gone(window.terminals, keys, terminal);
        lemma_all_buried(editor.reconnect_cancelled(id).tombstones, id, keys, terminal);
        if window.terminals.live.contains_key(terminal) {
            assert(keys.contains(terminal));
            lemma_endings(id, keys, terminal);
            let endings = crate::terminal_life::ending_effects(id, keys);
            let close = EffectModel::Plain(
                Effect::CloseTerminal { window: id, terminal: TerminalId(terminal) },
            );
            let i = choose|i: int| 0 <= i < endings.len() && #[trigger] endings[i] == close;
            assert(after.outbox[s1.outbox.len() + i] == close);
        }
    } else {
        assert(after.outbox[editor.outbox.len() as int] == sent);
    }
}

proof fn lemma_terminals_gone(tables: TerminalsModel, keys: Seq<u64>, k: u64)
    ensures
        ({
            let after = tables.terminals_ended(keys);
            &&& after.groups == tables.groups
            &&& keys.contains(k) ==> {
                &&& !after.live.contains_key(k)
                &&& !after.script_tokens.contains(k)
                &&& !after.commands.contains_key(k)
                &&& !after.companions.contains_key(k)
            }
        }),
    decreases keys.len(),
{
    if keys.len() > 0 {
        lemma_terminals_gone(tables, keys.drop_last(), k);
        if keys.contains(k) && k != keys.last() {
            let i = keys.index_of(k);
            assert(keys.drop_last()[i] == k);
        }
    }
}

proof fn lemma_all_buried(
    tombstones: Seq<WindowTerminalId>,
    id: WindowId,
    keys: Seq<u64>,
    k: u64,
)
    ensures
        ({
            let after = crate::terminal_life::with_tombstones(tombstones, id, keys);
            &&& keys.contains(k) ==> after.contains(
                WindowTerminalId { window: id, terminal: TerminalId(k) },
            )
            &&& forall|t: WindowTerminalId|
                tombstones.contains(t) ==> #[trigger] after.contains(t)
        }),
    decreases keys.len(),
{
    if keys.len() > 0 {
        let rest = keys.drop_last();
        lemma_all_buried(tombstones, id, rest, k);
        let earlier = crate::terminal_life::with_tombstones(tombstones, id, rest);
        let after = crate::terminal_life::with_tombstones(tombstones, id, keys);
        let last = WindowTerminalId { window: id, terminal: TerminalId(keys.last()) };
        assert forall|t: WindowTerminalId| #[trigger] earlier.contains(t) implies after.contains(
            t,
        ) by {
            let i = earlier.index_of(t);
            assert(after[i] == t);
        }
        if !earlier.contains(last) {
            assert(after[earlier.len() as int] == last);
        }
        assert(after.contains(last));
        assert forall|t: WindowTerminalId| tombstones.contains(t) implies #[trigger] after.contains(
            t,
        ) by {
            assert(earlier.contains(t));
        }
        if keys.contains(k) && k != keys.last() {
            let i = keys.index_of(k);
            assert(rest[i] == k);
            assert(earlier.contains(WindowTerminalId { window: id, terminal: TerminalId(k) }));
        }
    }
}

proof fn lemma_endings(id: WindowId, keys: Seq<u64>, k: u64)
    requires
        keys.contains(k),
    ensures
        ({
            let endings = crate::terminal_life::ending_effects(id, keys);
            exists|i: int|
                0 <= i < endings.len() && #[trigger] endings[i] == EffectModel::Plain(
                    Effect::CloseTerminal { window: id, terminal: TerminalId(k) },
                )
        }),
    decreases keys.len(),
{
    let endings = crate::terminal_life::ending_effects(id, keys);
    let close = EffectModel::Plain(
        Effect::CloseTerminal { window: id, terminal: TerminalId(k) },
    );
    if keys.last() == k {
        assert(endings[endings.len() - 1] == close);
    } else {
        let i = keys.index_of(k);
        assert(keys.drop_last()[i] == k);
        lemma_endings(id, keys.drop_last(), k);
        let earlier = crate::terminal_life::ending_effects(id, keys.drop_last());
        let j = choose|j: int| 0 <= j < earlier.len() && #[trigger] earlier[j] == close;
        assert(endings[j] == close);
    }
}

/// Stopping a window asks its processes to end, and kills those that are left after the
/// time of grace: at once where there is nobody to wait, and only those that are still
/// the ones that were asked.
pub proof fn stopping_a_window_asks_before_it_kills(
    editor: EditorModel,
    id: WindowId,
    grace_ms: u64,
)
    requires
        editor.windows.contains_key(id.0),
    ensures
        ({
            let after = editor.stopped(id, grace_ms);
            let targets = editor.windows[id.0].terminals.groups;
            let asked = editor.signalled(id, SignalName::Terminate);
            &&& targets.len() == 0 ==> after == asked
            &&& targets.len() > 0 && editor.config.bridge ==> after == asked.asking(
                EffectModel::EscalateLater { window: id, targets, grace_ms },
            )
            &&& targets.len() > 0 && !editor.config.bridge ==> after.outbox.len()
                == asked.outbox.len() + 1 && after.outbox.last() is Escalate
        }),
{
}

/// What is left to kill after the time of grace is what was asked to end and is still
/// registered as it was.
pub proof fn only_what_was_asked_is_killed(
    editor: EditorModel,
    id: WindowId,
    targets: Seq<ProcessGroupEntry>,
    target: ProcessGroupEntry,
)
    requires
        editor.windows.contains_key(id.0),
    ensures
        ({
            let groups = editor.windows[id.0].terminals.groups;
            let after = editor.escalated(id, targets);
            let killed = after.outbox.last()->Escalate_targets;
            &&& after == editor.asking(EffectModel::Escalate { window: id, targets: killed })
            &&& killed.contains(target) <==> targets.contains(target) && exists|i: int|
                0 <= i < groups.len() && (#[trigger] groups[i]).leader_pid == target.leader_pid
                    && groups[i].incarnation == target.incarnation
        }),
{
    let groups = editor.windows[id.0].terminals.groups;
    let current = |t: ProcessGroupEntry| crate::process_group::is_current(groups, t);
    let killed = targets.filter(current);
    assert(editor.escalated(id, targets).outbox.last() == (EffectModel::Escalate {
        window: id,
        targets: killed,
    }));
    if killed.contains(target) {
        let i = killed.index_of(target);
        let j = lemma_filter_source(targets, current, i);
        assert(targets[j] == target);
        let k = choose|k: int|
            0 <= k < groups.len() && #[trigger] groups[k].same_registration(target);
        assert(groups[k].leader_pid == target.leader_pid);
    }
    if targets.contains(target) && exists|i: int|
        0 <= i < groups.len() && (#[trigger] groups[i]).leader_pid == target.leader_pid
            && groups[i].incarnation == target.incarnation {
        let i = choose|i: int|
            0 <= i < groups.len() && (#[trigger] groups[i]).leader_pid == target.leader_pid
                && groups[i].incarnation == target.incarnation;
        assert(groups[i].same_registration(target));
        let j = targets.index_of(target);
        targets.lemma_filter_contains(current, j);
    }
}

/// A timer fires once its time has come, with its own handler, and not before; those
/// that fire do so in the order in which they were set.
pub proof fn timers_fire_when_they_are_due(timers: Seq<PluginTimer>, now: u64, i: int)
    requires
        0 <= i < timers.len(),
    ensures
        timers[i].next_fire_ms <= now ==> due_effects(timers, now).contains(
            EffectModel::Plain(
                Effect::RunTimer { timer: timers[i].id, handler: timers[i].handler_name },
            ),
        ) && due_ids(timers, now).contains(timers[i].id),
        forall|j: int|
            0 <= j < due_effects(timers, now).len() ==> exists|k: int|
                0 <= k < timers.len() && (#[trigger] timers[k]).next_fire_ms <= now && (
                #[trigger] due_effects(timers, now)[j]) == EffectModel::Plain(
                    Effect::RunTimer { timer: timers[k].id, handler: timers[k].handler_name },
                ),
        due_effects(timers, now).len() == due_ids(timers, now).len(),
{
    let due = timers.filter(is_due(now));
    let effects = due_effects(timers, now);
    let ids = due_ids(timers, now);
    if timers[i].next_fire_ms <= now {
        timers.lemma_filter_contains(is_due(now), i);
        let j = due.index_of(timers[i]);
        assert(effects[j] == EffectModel::Plain(
            Effect::RunTimer { timer: timers[i].id, handler: timers[i].handler_name },
        ));
        assert(ids[j] == timers[i].id);
    }
    assert forall|j: int| 0 <= j < effects.len() implies exists|k: int|
        0 <= k < timers.len() && (#[trigger] timers[k]).next_fire_ms <= now && (
        #[trigger] effects[j]) == EffectModel::Plain(
            Effect::RunTimer { timer: timers[k].id, handler: timers[k].handler_name },
        ) by {
        let k = lemma_filter_source(timers, is_due(now), j);
        assert(timers[k].next_fire_ms <= now);
    }
}

/// A timer that repeats is set for its interval from now once it has fired, with
/// everything else about it as it was. What is set is an interval ahead, or at the end of
/// time.
pub proof fn a_repeating_timer_is_set_again(timers: Seq<PluginTimer>, now: u64, i: int)
    requires
        0 <= i < timers.len(),
        timers[i].next_fire_ms <= now,
        timers[i].repeat,
    ensures
        exists|j: int|
            0 <= j < timers_after(timers, now).len() && {
                let timer = #[trigger] timers_after(timers, now)[j];
                &&& timer.id == timers[i].id
                &&& timer.plugin_name == timers[i].plugin_name
                &&& timer.handler_name == timers[i].handler_name
                &&& timer.interval_ms == timers[i].interval_ms
                &&& timer.repeat
                &&& now + timers[i].interval_ms <= u64::MAX ==> timer.next_fire_ms == now
                    + timers[i].interval_ms
                &&& now + timers[i].interval_ms > u64::MAX ==> timer.next_fire_ms == u64::MAX
            },
        forall|interval: u64| now + interval <= u64::MAX ==> #[trigger] moment_after(now, interval)
            == now + interval,
{
    timers_fire_when_they_are_due(timers, now, i);
    let armed = timers.map_values(rearmed(now));
    let fired = due_ids(timers, now);
    armed.lemma_filter_contains(stays(fired), i);
    let after = timers_after(timers, now);
    let j = after.index_of(armed[i]);
    assert(after[j] == armed[i]);
}

} // verus!
