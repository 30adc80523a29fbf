//! Windows that are born with a terminal as all there is to show.
use std::sync::Arc;
use vstd::prelude::*;

use crate::authority::Authority;
use crate::authority::AuthoritySpec;
use crate::authority::WorkspaceRoot;
use crate::command::PluginCommandContext;
use crate::command::TerminalRequest;
use crate::dormant::close_effects;
use crate::editor::callback_owner;
use crate::editor::owner_of_callbacks;
use crate::editor::Editor;
use crate::editor::EditorModel;
use crate::editor::RemoteModel;
use crate::effects::CallbackOwner;
use crate::effects::Effect;
use crate::effects::EffectModel;
use crate::effects::HookEvent;
use crate::effects::PluginResponse;
use crate::effects::TerminalPlacement;
use crate::effects::SnapshotTarget;
use crate::ids::BufferId;
use crate::ids::JsCallbackId;
use crate::ids::TerminalId;
use crate::ids::WindowId;
use crate::ids::WindowTerminalId;
use crate::lists::lemma_sorted_members;
use crate::lists::sorted_keys;
use crate::lists::sorted_members;
use crate::notice::Rejection;
use crate::permissions::context_may_use_privileged_terminal_options;
use crate::permissions::may_use_privileged_terminals;
use crate::process_group::ProcessGroupEntry;
use crate::terminal_create::filter_title;
use crate::terminal_create::shown_title;
use crate::terminal_create::group_tracked;
use crate::terminal_create::is_privileged;
use crate::terminal_create::terminal_filed;
use crate::terminal_create::StartedTerminal;
use crate::text::decimal;
use crate::text::decimal_text;
use crate::window::StateEntry;
use crate::window::StateValue;
use crate::window::Window;
use crate::window::WindowModel;
use crate::windows::purge_effects;

verus! {

/// A window that is being made with a terminal.
#[derive(Debug)]
pub struct TerminalWindowPlan {
    pub id: WindowId,
    /// The window that was shown before.
    pub previous: WindowId,
    /// The label of the backend that the editor acted through before.
    pub previous_label: String,
    pub activate: bool,
    /// The command line that a restore runs; a plain shell where it is empty.
    pub restore_command: Arc<Vec<String>>,
    pub resume: Option<Arc<Vec<String>>>,
    pub selected_agent: bool,
    /// What its terminal is started with, and how it is shown.
    pub terminal: TerminalRequest,
    pub placement: TerminalPlacement,
}

/// What the terminal of a new window is started with: it runs in the root of the
/// window where nothing else is said.
pub open spec fn started_in(terminal: TerminalRequest, root: WorkspaceRoot) -> TerminalRequest {
    TerminalRequest {
        cwd: match terminal.cwd {
            Some(cwd) => Some(cwd),
            None => Some(root.path),
        },
        title: shown_title(terminal.title),
        ..terminal
    }
}

/// How the terminal of a new window is shown: as all there is in the window, with
/// the focus. It is not kept on its own, but with its window.
pub open spec fn as_whole_window() -> TerminalPlacement {
    TerminalPlacement { direction: None, ratio_bits: None, focus: true, persistent: false }
}

/// The values of one plugin as they are kept with a window.
pub open spec fn tagged_state(plugin: String, values: Seq<(String, StateValue)>) -> Seq<StateEntry> {
    values.map_values(
        |v: (String, StateValue)| StateEntry { plugin, key: v.0, value: v.1 },
    )
}

/// The values of one plugin as they are kept with a window.
fn tag_state(plugin: &String, values: Vec<(String, StateValue)>) -> (entries: Vec<StateEntry>)
    ensures
        entries@ == tagged_state(*plugin, values@),
{
    let ghost given = values@;
    let mut entries: Vec<StateEntry> = Vec::new();
    for value in iter: values
        invariant
            entries@ == tagged_state(*plugin, iter.seq().take(iter.index())),
    {
        let ghost done = iter.seq().take(iter.index());
        let ghost next = iter.seq().take(iter.index() + 1);
        proof {
            assert(next =~= done.push(value));
            assert(tagged_state(*plugin, next) =~= tagged_state(*plugin, done).push(
                StateEntry { plugin: *plugin, key: value.0, value: value.1 },
            ));
        }
        entries.push(StateEntry { plugin: plugin.clone(), key: value.0, value: value.1 });
    }
    proof {
        assert(given.take(given.len() as int) =~= given);
    }
    entries
}

/// What a restore of the terminal runs: the clean command line where it is
/// given, the first one otherwise, and a plain shell where there is none.
pub open spec fn restored_by(terminal: TerminalRequest) -> Seq<String> {
    match terminal.relaunch {
        Some(command) => command@,
        None => match terminal.command {
            Some(command) => command@,
            None => Seq::empty(),
        },
    }
}

impl EditorModel {
    /// This editor after a plugin asked for a window with a terminal.
    pub open spec fn terminal_window_requested(
        self,
        root: Arc<WorkspaceRoot>,
        label: String,
        terminal: TerminalRequest,
        activate: bool,
        initial_state: Vec<(String, StateValue)>,
        request_id: u64,
        context: PluginCommandContext,
    ) -> EditorModel {
        let callback = JsCallbackId(request_id);
        if is_privileged(terminal) && !may_use_privileged_terminals(
            context,
            self.instance_active(context.plugin_instance_id),
        ) {
            self.rejecting(context, callback, Rejection::CreateWindowPrivileged)
        } else if !root.absolute {
            self.rejecting(
                context,
                callback,
                Rejection::CreateWindowRelativeRoot { quoted: root.quoted },
            )
        } else {
            self.emitting(
                Effect::OpenTerminalWindow {
                    owner: callback_owner(context),
                    request_id,
                    root,
                    label,
                    terminal: TerminalRequest { title: shown_title(terminal.title), ..terminal },
                    activate,
                    plugin: context.plugin_name,
                    initial_state,
                },
            )
        }
    }

    /// This editor with a new window that has nothing to show yet. It is in
    /// the foreground, so that the terminal is laid out in it.
    pub open spec fn terminal_window_begun(
        self,
        root: Arc<WorkspaceRoot>,
        label: Seq<char>,
        stable_id: Seq<char>,
        authority: Authority,
        activate: bool,
        state: Seq<StateEntry>,
    ) -> EditorModel {
        let id = WindowId(self.next_window_id);
        let window = WindowModel {
            plugin_state: state,
            ..WindowModel::fresh(
                id,
                label,
                root,
                stable_id,
                authority,
                self.config.terminal_width,
                self.config.terminal_height,
            )
        };
        let added = EditorModel {
            next_window_id: (self.next_window_id + 1) as u64,
            ..self.with_window(id, window)
        };
        let left = if activate {
            added.emitting(Effect::Checkpoint { window: self.active_window })
        } else {
            added
        };
        left.pointing_at(id)
    }

    /// This editor with a window taken back that was never published. No one
    /// was told of it, so no one is told now.
    pub open spec fn unpublished(self, id: WindowId, previous: WindowId) -> EditorModel {
        let stopped = if self.has(id) {
            let window = self.window(id);
            let live = sorted_members(|k: u64| window.terminals.live.contains_key(k));
            self.asking_all(purge_effects(id, live)).emitting(
                Effect::RevokeScriptTokens { window: id },
            ).asking(EffectModel::KillGroups { targets: window.terminals.groups }).asking_all(
                close_effects(id, live),
            )
        } else {
            self
        };
        let back = if self.active_window == id {
            stopped.pointing_at(previous)
        } else {
            stopped
        };
        let gone = EditorModel {
            materialize_pending: back.materialize_pending.remove(id.0),
            remote: RemoteModel {
                keepalives: back.remote.keepalives.remove(id.0),
                ..back.remote
            },
            ..back.without_window(id)
        }.remote_forgotten(id);
        if self.has(id) {
            gone.asking(
                EffectModel::DiscardWorkspace {
                    root: self.window(id).root,
                    stable_id: self.window(id).stable_id,
                },
            )
        } else {
            gone
        }
    }

    /// This editor once a window with a terminal is on record. Everyone is
    /// told of it now, in the order in which a window opens and is shown.
    pub open spec fn terminal_window_published(
        self,
        id: WindowId,
        previous: WindowId,
        previous_label: String,
        activate: bool,
        buffer: BufferId,
    ) -> EditorModel {
        let adopted = if activate {
            self.panel_mode_cleared(previous).emitting(Effect::AdoptAuthority { previous_label })
        } else {
            self
        };
        let asked = if activate && adopted.active_window == id && adopted.has(id)
            && adopted.window(id).authority.remote is None {
            adopted.emitting(Effect::PromptTrust)
        } else {
            adopted
        };
        asked.emitting(Effect::Relayout).terminal_window_announced(id, previous, activate, buffer)
    }

    /// This editor once the plugins were told of a new window.
    pub open spec fn terminal_window_announced(
        self,
        id: WindowId,
        previous: WindowId,
        activate: bool,
        buffer: BufferId,
    ) -> EditorModel {
        let created = self.announcing(id, HookEvent::WindowCreated);
        let changed = if activate && previous != id {
            created.announcing(id, HookEvent::ActiveWindowChanged { previous })
        } else {
            created
        };
        let refreshed = changed.emitting(
            Effect::RefreshSnapshot {
                target: SnapshotTarget::Shared,
                window: changed.active_window,
                scope: None,
            },
        );
        if activate {
            refreshed.announcing(id, HookEvent::BufferActivated { buffer })
        } else {
            refreshed
        }
    }
}

impl Editor {
    /// Asks for a window with a terminal.
    pub fn handle_create_window_with_terminal(
        &mut self,
        root: Arc<WorkspaceRoot>,
        label: String,
        terminal: TerminalRequest,
        activate: bool,
        initial_state: Vec<(String, StateValue)>,
        request_id: u64,
        context: &PluginCommandContext,
    )
        ensures
            final(self)@ == old(self)@.terminal_window_requested(
                root,
                label,
                terminal,
                activate,
                initial_state,
                request_id,
                *context,
            ),
    {
        let callback = JsCallbackId(request_id);
        let active = self.is_plugin_instance_active(context.plugin_instance_id);
        if (terminal.allow_script || terminal.companion.is_some() || terminal.selected_agent)
            && !context_may_use_privileged_terminal_options(context, active) {
            self.reject_callback_for_context(context, callback, Rejection::CreateWindowPrivileged);
            return ;
        }
        if !root.absolute {
            self.reject_callback_for_context(
                context,
                callback,
                Rejection::CreateWindowRelativeRoot { quoted: root.quoted.clone() },
            );
            return ;
        }
        let mut terminal = terminal;
        terminal.title = filter_title(terminal.title);
        self.emit(
            Effect::OpenTerminalWindow {
                owner: owner_of_callbacks(context),
                request_id,
                root,
                label,
                terminal,
                activate,
                plugin: context.plugin_name.clone(),
                initial_state,
            },
        );
    }

    /// Begins a window with a terminal on a given backend. The host starts the
    /// terminal in it next.
    pub fn create_window_with_terminal(
        &mut self,
        root: Arc<WorkspaceRoot>,
        label: String,
        stable_id: String,
        authority: Authority,
        terminal: TerminalRequest,
        activate: bool,
        plugin: &String,
        initial_state: Vec<(String, StateValue)>,
    ) -> (plan: TerminalWindowPlan)
        requires
            old(self)@.next_window_id < u64::MAX,
            old(self)@.has_active(),
        ensures
            plan.id == WindowId(old(self)@.next_window_id),
            plan.previous == old(self)@.active_window,
            plan.previous_label == old(self)@.authority_label(),
            plan.activate == activate,
            plan.restore_command@ == restored_by(terminal),
            plan.resume == terminal.resume,
            plan.selected_agent == terminal.selected_agent,
            plan.terminal == started_in(terminal, *root),
            plan.placement == as_whole_window(),
            final(self)@ == old(self)@.terminal_window_begun(
                root,
                label@,
                stable_id@,
                authority,
                activate,
                tagged_state(*plugin, initial_state@),
            ),
    {
        let id = WindowId(self.next_window_id);
        let previous = self.active_window;
        let previous_label = match self.windows.get(&previous.0) {
            Some(window) => window.authority.display_label.clone(),
            None => String::new(),
        };
        self.next_window_id = self.next_window_id + 1;
        let root_path = root.path.clone();
        let mut window = Window::new(
            id,
            label,
            root,
            stable_id,
            authority,
            self.config.terminal_width,
            self.config.terminal_height,
        );
        window.plugin_state = Arc::new(tag_state(plugin, initial_state));
        self.put_window(id, window);
        if activate {
            self.emit(Effect::Checkpoint { window: previous });
        }
        self.switch_active_window_pointer(id);
        let restore_command = match &terminal.relaunch {
            Some(command) => command.clone(),
            None => match &terminal.command {
                Some(command) => command.clone(),
                None => Arc::new(Vec::new()),
            },
        };
        let resume = match &terminal.resume {
            Some(command) => Some(command.clone()),
            None => None,
        };
        let mut terminal = terminal;
        terminal.title = filter_title(terminal.title);
        if terminal.cwd.is_none() {
            terminal.cwd = Some(root_path);
        }
        TerminalWindowPlan {
            id,
            previous,
            previous_label,
            activate,
            restore_command,
            resume,
            selected_agent: terminal.selected_agent,
            terminal,
            placement: TerminalPlacement {
                direction: None,
                ratio_bits: None,
                focus: true,
                persistent: false,
            },
        }
    }

    /// Takes back a window that was never published.
    pub fn rollback_unpublished_terminal_window(&mut self, id: WindowId, previous: WindowId)
        ensures
            final(self)@ == old(self)@.unpublished(id, previous),
    {
        let ghost before = self@;
        let there = match self.windows.get(&id.0) {
            Some(window) => {
                let live = sorted_keys(&window.terminals.live);
                let targets = window.terminals.process_groups.snapshot();
                proof {
                    let model = before.window(id);
                    lemma_sorted_members(
                        live@,
                        |k: u64| model.terminals.live.contains_key(k),
                    );
                }
                Some((live, targets))
            },
            None => None,
        };
        if let Some((live, targets)) = there {
            self.emit_purges(id, &live);
            self.emit(Effect::RevokeScriptTokens { window: id });
            self.emit(Effect::KillGroups { targets });
            self.emit_closes(id, &live);
        }
        if self.active_window == id {
            self.switch_active_window_pointer(previous);
        }
        let ghost back = self@;
        proof {
            lemma_pointing_keeps_windows(before, id, previous);
        }
        let removed = self.take_window(id);
        self.materialize_pending.remove(&id.0);
        self.remote.keepalives.remove(&id.0);
        self.forget_reattach(id);
        self.remote.connected_cache.remove(&id.0);
        proof {
            if removed is None {
                assert(back.without_window(id).windows =~= back.windows);
            }
        }
        if let Some(window) = removed {
            self.emit(
                Effect::DiscardWorkspace { root: window.root, stable_id: window.stable_id },
            );
        }
    }

    /// Files the terminal that was started in a new window. A window that is
    /// made in the background gives the foreground back.
    pub fn terminal_window_started(&mut self, plan: &TerminalWindowPlan, started: StartedTerminal)
        requires
            old(self)@.has(plan.id),
        ensures
            ({
                let window = old(self)@.window(plan.id);
                exists|tables: crate::terminals::TerminalsModel|
                    {
                        &&& #[trigger] group_tracked(
                            terminal_filed(
                                window.terminals,
                                started,
                                Some(plan.restore_command@),
                                plan.resume,
                                plan.selected_agent,
                            ),
                            started,
                            tables,
                        )
                        &&& final(self)@ == {
                            let filed = old(self)@.with_window(
                                plan.id,
                                window.with_terminals(tables),
                            );
                            if plan.activate {
                                filed
                            } else {
                                filed.pointing_at(plan.previous)
                            }
                        }
                    }
            }),
    {
        let ghost before = self@;
        if let Some(mut window) = self.take_window(plan.id) {
            window.file_terminal(
                started,
                Some(plan.restore_command.clone()),
                match &plan.resume {
                    Some(command) => Some(command.clone()),
                    None => None,
                },
                plan.selected_agent,
            );
            let ghost made = window@;
            self.put_window(plan.id, window);
            proof {
                assert(before.without_window(plan.id).with_window(plan.id, made).windows
                    =~= before.with_window(plan.id, made).windows);
                assert(group_tracked(
                    terminal_filed(
                        before.window(plan.id).terminals,
                        started,
                        Some(plan.restore_command@),
                        plan.resume,
                        plan.selected_agent,
                    ),
                    started,
                    made.terminals,
                ));
            }
        }
        if !plan.activate {
            self.switch_active_window_pointer(plan.previous);
        }
    }

    /// Goes on once a new window was saved, or could not be. Returns whether
    /// the window is there to stay.
    pub fn terminal_window_saved(
        &mut self,
        plan: TerminalWindowPlan,
        buffer: BufferId,
        saved: bool,
    ) -> (published: bool)
        ensures
            published == saved,
            final(self)@ == if saved {
                old(self)@.terminal_window_published(
                    plan.id,
                    plan.previous,
                    plan.previous_label,
                    plan.activate,
                    buffer,
                )
            } else {
                old(self)@.unpublished(plan.id, plan.previous)
            },
    {
        let id = plan.id;
        if !saved {
            self.rollback_unpublished_terminal_window(id, plan.previous);
            return false;
        }
        if plan.activate {
            self.clear_panel_scoped_mode_on_switch_away(plan.previous);
            self.emit(Effect::AdoptAuthority { previous_label: plan.previous_label });
        }
        if plan.activate && self.active_window == id {
            let local = match self.windows.get(&id.0) {
                Some(window) => window.authority.remote.is_none(),
                None => false,
            };
            if local {
                self.emit(Effect::PromptTrust);
            }
        }
        self.emit(Effect::Relayout);
        self.announce_terminal_window(id, plan.previous, plan.activate, buffer);
        true
    }

    /// Tells the plugins of a new window.
    fn announce_terminal_window(
        &mut self,
        id: WindowId,
        previous: WindowId,
        activate: bool,
        buffer: BufferId,
    )
        ensures
            final(self)@ == old(self)@.terminal_window_announced(id, previous, activate, buffer),
    {
        self.run_plugin_hook_for_window(id, HookEvent::WindowCreated);
        if activate && previous != id {
            self.run_plugin_hook_for_window(id, HookEvent::ActiveWindowChanged { previous });
        }
        self.emit(
            Effect::RefreshSnapshot {
                target: SnapshotTarget::Shared,
                window: self.active_window,
                scope: None,
            },
        );
        if activate {
            self.run_plugin_hook_for_window(id, HookEvent::BufferActivated { buffer });
        }
    }

    /// Answers the plugin that asked for a window with a terminal.
    pub fn answer_terminal_window(
        &mut self,
        owner: CallbackOwner,
        request_id: u64,
        outcome: Result<(WindowId, TerminalId, BufferId), String>,
    )
        ensures
            final(self)@ == old(self)@.emitting(
                match outcome {
                    Ok((window, terminal, buffer)) => Effect::Respond(
                        PluginResponse::WindowWithTerminalCreated {
                            request_id,
                            window,
                            terminal: WindowTerminalId { window, terminal },
                            buffer,
                        },
                    ),
                    Err(error) => Effect::Reject {
                        owner,
                        callback: JsCallbackId(request_id),
                        reason: Rejection::CreateWindowFailed { error },
                    },
                },
            ),
    {
        match outcome {
            Ok((window, terminal, buffer)) => {
                self.emit(
                    Effect::Respond(
                        PluginResponse::WindowWithTerminalCreated {
                            request_id,
                            window,
                            terminal: WindowTerminalId { window, terminal },
                            buffer,
                        },
                    ),
                );
            },
            Err(error) => {
                self.emit(
                    Effect::Reject {
                        owner,
                        callback: JsCallbackId(request_id),
                        reason: Rejection::CreateWindowFailed { error },
                    },
                );
            },
        }
    }

    /// Puts a connected backend on record for the window that was made for it.
    pub fn create_remote_session_window(&mut self, id: WindowId, spec: AuthoritySpec)
        ensures
            ({
                let held = EditorModel {
                    remote: RemoteModel {
                        keepalives: old(self)@.remote.keepalives.insert(id.0),
                        ..old(self)@.remote
                    },
                    ..old(self)@
                };
                final(self)@ == if held.has(id) {
                    held.with_window(id, WindowModel { authority_spec: spec, ..held.window(id) })
                } else {
                    held
                }
            }),
    {
        self.remote.keepalives.insert(id.0);
        let ghost held = self@;
        if let Some(mut window) = self.take_window(id) {
            window.authority_spec = spec;
            let ghost made = window@;
            self.put_window(id, window);
            proof {
                assert(held.without_window(id).with_window(id, made).windows =~= held.with_window(
                    id,
                    made,
                ).windows);
            }
        }
    }
}

/// Going back to the previous window keeps root and identity of `id`.
proof fn lemma_pointing_keeps_windows(editor: EditorModel, id: WindowId, previous: WindowId)
    ensures
        ({
            let after = editor.pointing_at(previous);
            &&& after.has(id) == editor.has(id)
            &&& editor.has(id) ==> after.window(id).root == editor.window(id).root
                && after.window(id).stable_id == editor.window(id).stable_id
        }),
{
}

/// A list of texts in one, with `separator` between them.
pub open spec fn joined(texts: Seq<String>, separator: Seq<char>) -> Seq<char>
    decreases texts.len(),
{
    if texts.len() == 0 {
        Seq::empty()
    } else if texts.len() == 1 {
        texts[0]@
    } else {
        joined(texts.drop_last(), separator) + separator + texts.last()@
    }
}

/// The error of a window that could not be made: why, and what could not be
/// taken back.
pub open spec fn creation_error(error: Seq<char>, failures: Seq<String>) -> Seq<char> {
    if failures.len() == 0 {
        error
    } else {
        error + "; rollback failures: "@ + joined(failures, "; "@)
    }
}

/// The error of a window that could not be made.
pub fn describe_creation_error(error: &str, failures: &Vec<String>) -> (text: String)
    ensures
        text@ == creation_error(error@, failures@),
{
    let mut text = error.to_string();
    if failures.len() == 0 {
        return text;
    }
    text.append("; rollback failures: ");
    let ghost prefix = text@;
    let mut at: usize = 0;
    while at < failures.len()
        invariant
            at <= failures.len(),
            text@ =~= prefix + joined(failures@.take(at as int), "; "@),
        decreases failures.len() - at,
    {
        proof {
            let next = failures@.take(at + 1);
            assert(next.drop_last() =~= failures@.take(at as int));
            assert(next.last() == failures@[at as int]);
            assert(failures@.take(0) =~= Seq::<String>::empty());
        }
        if at > 0 {
            text.append("; ");
        }
        text.append(failures[at].as_str());
        at = at + 1;
    }
    proof {
        assert(failures@.take(failures@.len() as int) =~= failures@);
    }
    text
}

/// The error of a window that could not be put on record.
pub fn describe_publication_error(error: &str, failures: &Vec<String>) -> (text: String)
    ensures
        text@ == creation_error("failed to publish new workspace: "@ + error@, failures@),
{
    let mut text = "failed to publish new workspace: ".to_string();
    text.append(error);
    describe_creation_error(text.as_str(), failures)
}

/// What could not be taken back of a window: process groups that would not
/// stop, its saved state, and its terminals' files.
pub open spec fn rollback_failures(
    answers: Seq<(ProcessGroupEntry, Result<bool, String>)>,
    snapshot: Option<String>,
    artifacts: Option<String>,
) -> Seq<Seq<char>> {
    let stops = stop_failures(answers);
    let with_snapshot = match snapshot {
        Some(error) => stops.push("failed to remove workspace snapshot: "@ + error@),
        None => stops,
    };
    match artifacts {
        Some(error) => with_snapshot.push("failed to remove terminal artifacts: "@ + error@),
        None => with_snapshot,
    }
}

/// The process groups that would not stop.
pub open spec fn stop_failures(answers: Seq<(ProcessGroupEntry, Result<bool, String>)>) -> Seq<
    Seq<char>,
>
    decreases answers.len(),
{
    if answers.len() == 0 {
        Seq::empty()
    } else {
        let rest = stop_failures(answers.drop_last());
        match answers.last().1 {
            Ok(_) => rest,
            Err(error) => rest.push(
                "failed to stop process group "@ + decimal_text(
                    answers.last().0.leader_pid as nat,
                ) + ": "@ + error@,
            ),
        }
    }
}

/// The texts of a list.
pub open spec fn texts_of(list: Seq<String>) -> Seq<Seq<char>> {
    list.map_values(|s: String| s@)
}

/// What could not be taken back of a window.
pub fn list_rollback_failures(
    answers: &Vec<(ProcessGroupEntry, Result<bool, String>)>,
    snapshot: Option<String>,
    artifacts: Option<String>,
) -> (failures: Vec<String>)
    ensures
        texts_of(failures@) == rollback_failures(answers@, snapshot, artifacts),
{
    let mut failures: Vec<String> = Vec::new();
    let mut at: usize = 0;
    while at < answers.len()
        invariant
            at <= answers.len(),
            texts_of(failures@) == stop_failures(answers@.take(at as int)),
        decreases answers.len() - at,
    {
        let ghost before = failures@;
        proof {
            let next = answers@.take(at + 1);
            assert(next.drop_last() =~= answers@.take(at as int));
            assert(next.last() == answers@[at as int]);
        }
        if let Err(error) = &answers[at].1 {
            let mut text = "failed to stop process group ".to_string();
            let digits = decimal(answers[at].0.leader_pid as u64);
            text.append(digits.as_str());
            text.append(": ");
            text.append(error.as_str());
            let ghost wording = text@;
            failures.push(text);
            proof {
                assert(texts_of(failures@) =~= texts_of(before).push(wording));
            }
        }
        at = at + 1;
    }
    proof {
        assert(answers@.take(answers@.len() as int) =~= answers@);
    }
    if let Some(error) = &snapshot {
        let ghost before = failures@;
        let mut text = "failed to remove workspace snapshot: ".to_string();
        text.append(error.as_str());
        let ghost wording = text@;
        failures.push(text);
        proof {
            assert(texts_of(failures@) =~= texts_of(before).push(wording));
        }
    }
    if let Some(error) = &artifacts {
        let ghost before = failures@;
        let mut text = "failed to remove terminal artifacts: ".to_string();
        text.append(error.as_str());
        let ghost wording = text@;
        failures.push(text);
        proof {
            assert(texts_of(failures@) =~= texts_of(before).push(wording));
        }
    }
    failures
}

} // verus!
