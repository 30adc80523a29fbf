//! The editor: all windows and what they share.
use std::collections::BTreeMap;
use std::collections::BTreeSet;
use std::sync::Arc;
use vstd::prelude::*;

use crate::authority::AuthoritySpec;
use crate::authority::WorkspaceRoot;
use crate::command::PluginCommandContext;
use crate::command::PluginLoadProvenance;
use crate::documents::Popup;
use crate::effects::mouse_effects;
use crate::effects::CallbackOwner;
use crate::effects::Effect;
use crate::effects::EffectModel;
use crate::effects::HookEvent;
use crate::effects::HookName;
use crate::effects::RemoteAttachOwner;
use crate::floating::PanelHost;
use crate::floating::PanelHostModel;
use crate::ids::JsCallbackId;
use crate::ids::PluginInstanceId;
use crate::ids::TerminalId;
use crate::ids::WindowId;
use crate::ids::WindowTerminalId;
use crate::notice::Rejection;
use crate::snapshot::snapshot_model;
use crate::snapshot::EditorStateSnapshot;
use crate::snapshot::SnapshotModel;
use crate::terminal_mouse::retirements;
use crate::terminal_mouse::TerminalMouseReport;
use crate::timers::PluginTimer;
use crate::window::StateEntry;
use crate::window::Window;
use crate::window::WindowModel;

verus! {

/// A remote session that is known from an earlier run and not connected.
#[derive(Debug)]
pub struct DormantRemote {
    pub label: String,
    pub root: Arc<WorkspaceRoot>,
    pub project_path: Option<String>,
    pub shared_worktree: bool,
    pub plugin_state: Arc<Vec<StateEntry>>,
    pub authority_spec: AuthoritySpec,
    pub stable_id: Option<String>,
}

/// A plugin that listens to a hook.
#[derive(Debug)]
pub struct Subscription {
    pub plugin: String,
    pub hook: HookName,
}

/// What is known of the loaded plugins.
#[derive(Debug)]
pub struct PluginRegistry {
    /// The instances that are loaded.
    pub active_instances: BTreeSet<u64>,
    pub subscriptions: Vec<Subscription>,
    pub timers: Vec<PluginTimer>,
}

/// [`PluginRegistry`] as a mathematical value.
pub struct PluginsModel {
    pub active_instances: Set<u64>,
    pub subscriptions: Seq<Subscription>,
    pub timers: Seq<PluginTimer>,
}

impl View for PluginRegistry {
    type V = PluginsModel;

    open spec fn view(&self) -> PluginsModel {
        PluginsModel {
            active_instances: self.active_instances@,
            subscriptions: self.subscriptions@,
            timers: self.timers@,
        }
    }
}

impl PluginsModel {
    /// Whether a plugin listens to `hook`.
    pub open spec fn plugin_listens(self, plugin: Seq<char>, hook: HookName) -> bool {
        exists|i: int|
            0 <= i < self.subscriptions.len() && (#[trigger] self.subscriptions[i]).hook == hook
                && self.subscriptions[i].plugin@ == plugin
    }

    /// Whether any plugin listens to `hook`.
    pub open spec fn listens(self, hook: HookName) -> bool {
        exists|i: int|
            0 <= i < self.subscriptions.len() && (#[trigger] self.subscriptions[i]).hook == hook
    }
}

/// The remote sessions: connections, and attempts to connect.
#[derive(Debug)]
pub struct RemoteSessions {
    /// The windows that hold a connection.
    pub keepalives: BTreeSet<u64>,
    /// The terminals of each window that wait for their backend.
    pub pending_reattach: BTreeMap<u64, Vec<TerminalId>>,
    /// The windows that were last seen connected.
    pub connected_cache: BTreeSet<u64>,
    /// The attempt that reconnects each window.
    pub reconnects: BTreeMap<u64, u64>,
    /// The owner of each attempt.
    pub attempts: BTreeMap<u64, RemoteAttachOwner>,
    pub next_attempt: u64,
}

/// [`RemoteSessions`] as a mathematical value.
pub struct RemoteModel {
    pub keepalives: Set<u64>,
    pub pending_reattach: Map<u64, Seq<TerminalId>>,
    pub connected_cache: Set<u64>,
    pub reconnects: Map<u64, u64>,
    pub attempts: Map<u64, RemoteAttachOwner>,
    pub next_attempt: u64,
}

/// The waiting terminals as mathematical values.
pub open spec fn reattach_models(pending: Map<u64, Vec<TerminalId>>) -> Map<u64, Seq<TerminalId>> {
    pending.map_values(|t: Vec<TerminalId>| t@)
}

impl View for RemoteSessions {
    type V = RemoteModel;

    open spec fn view(&self) -> RemoteModel {
        RemoteModel {
            keepalives: self.keepalives@,
            pending_reattach: reattach_models(self.pending_reattach@),
            connected_cache: self.connected_cache@,
            reconnects: self.reconnects@,
            attempts: self.attempts@,
            next_attempt: self.next_attempt,
        }
    }
}

/// The owners of the processes that plugins have started.
#[derive(Debug)]
pub struct ProcessOwners {
    pub host: BTreeMap<u64, WindowId>,
    pub background: BTreeMap<u64, WindowId>,
}

/// [`ProcessOwners`] as a mathematical value.
pub struct OwnersModel {
    pub host: Map<u64, WindowId>,
    pub background: Map<u64, WindowId>,
}

impl View for ProcessOwners {
    type V = OwnersModel;

    open spec fn view(&self) -> OwnersModel {
        OwnersModel { host: self.host@, background: self.background@ }
    }
}

/// The settings and facilities of the editor that decisions rest on.
#[derive(Clone, Copy, Debug, PartialEq, Eq, Structural)]
pub struct EditorConfig {
    pub animations: bool,
    /// Whether a visible empty buffer replaces the last one that is closed.
    pub auto_create_empty_buffer: bool,
    /// Whether there is a runtime for asynchronous work, and a channel back.
    pub runtime: bool,
    pub bridge: bool,
    pub terminal_width: u16,
    pub terminal_height: u16,
}

/// The editor.
#[derive(Debug)]
pub struct Editor {
    pub windows: BTreeMap<u64, Window>,
    pub active_window: WindowId,
    pub next_window_id: u64,
    pub dormant_remote: BTreeMap<u64, DormantRemote>,
    /// Windows that were closed and whose terminals have not all exited.
    pub closing_windows: BTreeMap<u64, Window>,
    /// The windows that next and previous walk, where a plugin has set them.
    pub window_cycle_order: Option<Vec<WindowId>>,
    pub preview_window_id: Option<WindowId>,
    pub plugins: PluginRegistry,
    pub remote: RemoteSessions,
    pub processes: ProcessOwners,
    /// The terminals that were stopped and must not come back.
    pub tombstones: Vec<WindowTerminalId>,
    /// The windows whose saved content was not restored yet.
    pub materialize_pending: BTreeSet<u64>,
    pub self_update_terminal: Option<WindowTerminalId>,
    pub panels: PanelHost,
    pub global_popups: Vec<Popup>,
    pub lsp_uri_schemes: Vec<String>,
    pub config: EditorConfig,
    /// The view of the editor that all plugins read between commands; absent
    /// where no plugin runtime is there.
    pub shared_snapshot: Option<EditorStateSnapshot>,
    pub outbox: Vec<Effect>,
}

/// [`Editor`] as a mathematical value.
pub struct EditorModel {
    pub windows: Map<u64, WindowModel>,
    pub active_window: WindowId,
    pub next_window_id: u64,
    pub dormant_remote: Map<u64, DormantRemote>,
    pub closing_windows: Map<u64, WindowModel>,
    pub window_cycle_order: Option<Seq<WindowId>>,
    pub preview_window_id: Option<WindowId>,
    pub plugins: PluginsModel,
    pub remote: RemoteModel,
    pub processes: OwnersModel,
    pub tombstones: Seq<WindowTerminalId>,
    pub materialize_pending: Set<u64>,
    pub self_update_terminal: Option<WindowTerminalId>,
    pub panels: PanelHostModel,
    pub global_popups: Seq<Popup>,
    pub lsp_uri_schemes: Seq<String>,
    pub config: EditorConfig,
    pub shared_snapshot: Option<SnapshotModel>,
    pub outbox: Seq<EffectModel>,
}

/// The models of windows.
pub open spec fn window_models(windows: Map<u64, Window>) -> Map<u64, WindowModel> {
    windows.map_values(|w: Window| w@)
}

/// The models of effects.
pub open spec fn effect_models(effects: Seq<Effect>) -> Seq<EffectModel> {
    effects.map_values(|e: Effect| e@)
}

/// The model of an order that may be absent.
pub open spec fn order_model(order: Option<Vec<WindowId>>) -> Option<Seq<WindowId>> {
    match order {
        Some(ids) => Some(ids@),
        None => None,
    }
}

impl View for Editor {
    type V = EditorModel;

    open spec fn view(&self) -> EditorModel {
        EditorModel {
            windows: window_models(self.windows@),
            active_window: self.active_window,
            next_window_id: self.next_window_id,
            dormant_remote: self.dormant_remote@,
            closing_windows: window_models(self.closing_windows@),
            window_cycle_order: order_model(self.window_cycle_order),
            preview_window_id: self.preview_window_id,
            plugins: self.plugins@,
            remote: self.remote@,
            processes: self.processes@,
            tombstones: self.tombstones@,
            materialize_pending: self.materialize_pending@,
            self_update_terminal: self.self_update_terminal,
            panels: self.panels@,
            global_popups: self.global_popups@,
            lsp_uri_schemes: self.lsp_uri_schemes@,
            config: self.config,
            shared_snapshot: snapshot_model(self.shared_snapshot),
            outbox: effect_models(self.outbox@),
        }
    }
}

/// Whose promise a command of `context` waits on.
pub open spec fn callback_owner(context: PluginCommandContext) -> CallbackOwner {
    if context.is_internal() {
        CallbackOwner::Host
    } else {
        CallbackOwner::Instance(context.plugin_instance_id)
    }
}

/// Whose promise a command of `context` waits on.
pub fn owner_of_callbacks(context: &PluginCommandContext) -> (owner: CallbackOwner)
    ensures
        owner == callback_owner(*context),
{
    if context.provenance == PluginLoadProvenance::Internal {
        CallbackOwner::Host
    } else {
        CallbackOwner::Instance(context.plugin_instance_id)
    }
}

impl EditorModel {
    /// Whether there is a window `id`.
    pub open spec fn has(self, id: WindowId) -> bool {
        self.windows.contains_key(id.0)
    }

    /// The window `id`.
    pub open spec fn window(self, id: WindowId) -> WindowModel {
        self.windows[id.0]
    }

    /// Whether the active window is there.
    pub open spec fn has_active(self) -> bool {
        self.has(self.active_window)
    }

    /// The active window.
    pub open spec fn active(self) -> WindowModel {
        self.window(self.active_window)
    }

    /// This editor with `window` for the window `id`.
    pub open spec fn with_window(self, id: WindowId, window: WindowModel) -> EditorModel {
        EditorModel { windows: self.windows.insert(id.0, window), ..self }
    }

    /// This editor without the window `id`.
    pub open spec fn without_window(self, id: WindowId) -> EditorModel {
        EditorModel { windows: self.windows.remove(id.0), ..self }
    }

    /// This editor with `window` for the active window.
    pub open spec fn with_active(self, window: WindowModel) -> EditorModel {
        self.with_window(self.active_window, window)
    }

    /// This editor with one more effect.
    pub open spec fn asking(self, effect: EffectModel) -> EditorModel {
        EditorModel { outbox: self.outbox.push(effect), ..self }
    }

    /// This editor with one more effect, which holds no list of its own.
    pub open spec fn emitting(self, effect: Effect) -> EditorModel {
        self.asking(EffectModel::Plain(effect))
    }

    /// This editor with some more effects.
    pub open spec fn asking_all(self, effects: Seq<EffectModel>) -> EditorModel {
        EditorModel { outbox: self.outbox + effects, ..self }
    }

    /// This editor with the mouse gestures of the active window given up.
    pub open spec fn gestures_cancelled(self) -> EditorModel {
        if self.has_active() {
            self.with_active(self.active().gestures_cancelled()).asking_all(
                mouse_effects(self.active_window, retirements(self.active())),
            )
        } else {
            self
        }
    }

    /// This editor with another window in the foreground and nothing else done
    /// about it. A gesture does not survive the change of its window.
    pub open spec fn pointing_at(self, id: WindowId) -> EditorModel {
        if self.active_window == id {
            self
        } else {
            EditorModel { active_window: id, ..self.gestures_cancelled() }
        }
    }

    /// This editor after `id` was in the foreground for a moment.
    pub open spec fn visiting(self, id: WindowId) -> EditorModel {
        self.pointing_at(id).pointing_at(self.active_window)
    }

    /// This editor once an event of the window `id` was announced: plugins
    /// that listen see the editor as that window does.
    pub open spec fn announcing(self, id: WindowId, event: HookEvent) -> EditorModel {
        if self.plugins.listens(event.spec_name()) && self.has(id) {
            self.visiting(id).emitting(Effect::RunHook { window: id, event })
        } else {
            self
        }
    }

    /// Whether a plugin instance is loaded.
    pub open spec fn instance_active(self, instance: PluginInstanceId) -> bool {
        self.plugins.active_instances.contains(instance.0)
    }

    /// This editor with a promise rejected.
    pub open spec fn rejecting(
        self,
        context: PluginCommandContext,
        callback: JsCallbackId,
        reason: Rejection,
    ) -> EditorModel {
        self.emitting(Effect::Reject { owner: callback_owner(context), callback, reason })
    }
}

impl EditorModel {
    /// An editor with one window and nothing else.
    pub open spec fn fresh(
        config: EditorConfig,
        window: WindowModel,
        shared_snapshot: Option<SnapshotModel>,
    ) -> EditorModel {
        EditorModel {
            windows: Map::empty().insert(window.id.0, window),
            active_window: window.id,
            next_window_id: (window.id.0 + 1) as u64,
            dormant_remote: Map::empty(),
            closing_windows: Map::empty(),
            window_cycle_order: None,
            preview_window_id: None,
            plugins: PluginsModel {
                active_instances: Set::empty(),
                subscriptions: Seq::empty(),
                timers: Seq::empty(),
            },
            remote: RemoteModel {
                keepalives: Set::empty(),
                pending_reattach: Map::empty(),
                connected_cache: Set::empty(),
                reconnects: Map::empty(),
                attempts: Map::empty(),
                next_attempt: 1,
            },
            processes: OwnersModel { host: Map::empty(), background: Map::empty() },
            tombstones: Seq::empty(),
            materialize_pending: Set::empty(),
            self_update_terminal: None,
            panels: PanelHostModel {
                panels: Seq::empty(),
                dock: None,
                floating: None,
                dock_width: None,
            },
            global_popups: Seq::empty(),
            lsp_uri_schemes: Seq::empty(),
            config,
            shared_snapshot,
            outbox: Seq::empty(),
        }
    }
}

impl Editor {
    /// An editor with one window, and with a snapshot for plugins where there
    /// is a plugin runtime.
    pub fn new(
        config: EditorConfig,
        window: Window,
        shared_snapshot: Option<EditorStateSnapshot>,
    ) -> (editor: Editor)
        requires
            window@.id.0 < u64::MAX,
        ensures
            editor@ == EditorModel::fresh(config, window@, snapshot_model(shared_snapshot)),
    {
        let id = window.id;
        let ghost first = window@;
        let mut windows: BTreeMap<u64, Window> = BTreeMap::new();
        windows.insert(id.0, window);
        let editor = Editor {
            windows,
            active_window: id,
            next_window_id: id.0 + 1,
            dormant_remote: BTreeMap::new(),
            closing_windows: BTreeMap::new(),
            window_cycle_order: None,
            preview_window_id: None,
            plugins: PluginRegistry {
                active_instances: BTreeSet::new(),
                subscriptions: Vec::new(),
                timers: Vec::new(),
            },
            remote: RemoteSessions {
                keepalives: BTreeSet::new(),
                pending_reattach: BTreeMap::new(),
                connected_cache: BTreeSet::new(),
                reconnects: BTreeMap::new(),
                attempts: BTreeMap::new(),
                next_attempt: 1,
            },
            processes: ProcessOwners { host: BTreeMap::new(), background: BTreeMap::new() },
            tombstones: Vec::new(),
            materialize_pending: BTreeSet::new(),
            self_update_terminal: None,
            panels: PanelHost::new(),
            global_popups: Vec::new(),
            lsp_uri_schemes: Vec::new(),
            config,
            shared_snapshot,
            outbox: Vec::new(),
        };
        proof {
            let fresh = EditorModel::fresh(config, first, snapshot_model(shared_snapshot));
            assert(editor@.windows =~= fresh.windows);
            assert(editor@.closing_windows =~= fresh.closing_windows);
            assert(editor@.remote.pending_reattach =~= fresh.remote.pending_reattach);
            assert(editor@.outbox =~= fresh.outbox);
        }
        editor
    }

    /// Takes what the host is asked to do, in order.
    pub fn take_effects(&mut self) -> (effects: Vec<Effect>)
        ensures
            effect_models(effects@) == old(self)@.outbox,
            final(self)@ == (EditorModel { outbox: Seq::empty(), ..old(self)@ }),
    {
        let mut effects: Vec<Effect> = Vec::new();
        effects.append(&mut self.outbox);
        proof {
            assert(effect_models(effects@) =~= old(self)@.outbox);
            assert(self@.outbox =~= Seq::<EffectModel>::empty());
        }
        effects
    }

    /// Asks the host for `effect`.
    pub(crate) fn emit(&mut self, effect: Effect)
        ensures
            final(self)@ == old(self)@.asking(effect@),
    {
        let ghost before = self@;
        self.outbox.push(effect);
        proof {
            assert(self@.outbox =~= before.outbox.push(effect@));
        }
    }

    /// Asks the host for `effects`.
    pub(crate) fn emit_all(&mut self, effects: Vec<Effect>)
        ensures
            final(self)@ == old(self)@.asking_all(effect_models(effects@)),
    {
        let ghost before = self@;
        let ghost asked = effect_models(effects@);
        let mut effects = effects;
        self.outbox.append(&mut effects);
        proof {
            assert(self@.outbox =~= before.asking_all(asked).outbox);
        }
    }

    /// Takes the window `id` out, to be put back.
    pub(crate) fn take_window(&mut self, id: WindowId) -> (window: Option<Window>)
        ensures
            match window {
                Some(w) => old(self)@.has(id) && w@ == old(self)@.window(id) && final(self)@
                    == old(self)@.without_window(id),
                None => !old(self)@.has(id) && final(self)@ == old(self)@,
            },
    {
        let ghost before = self@;
        let window = self.windows.remove(&id.0);
        proof {
            assert(self@.windows =~= before.windows.remove(id.0));
            if window is None {
                assert(self@.windows =~= before.windows);
            }
        }
        window
    }

    /// Puts `window` in the place of the window `id`.
    pub(crate) fn put_window(&mut self, id: WindowId, window: Window)
        ensures
            final(self)@ == old(self)@.with_window(id, window@),
    {
        let ghost before = self@;
        self.windows.insert(id.0, window);
        proof {
            assert(self@.windows =~= before.windows.insert(id.0, window@));
        }
    }

    /// Puts the window `id` back, which was taken out of `before`.
    pub(crate) fn put_back(&mut self, id: WindowId, window: Window, Ghost(before): Ghost<EditorModel>)
        requires
            old(self)@ == before.without_window(id),
        ensures
            final(self)@ == before.with_window(id, window@),
    {
        let ghost made = window@;
        self.put_window(id, window);
        proof {
            assert(before.without_window(id).with_window(id, made).windows =~= before.with_window(
                id,
                made,
            ).windows);
        }
    }

    /// Whether there is a window `id`.
    pub fn has_window(&self, id: WindowId) -> (has: bool)
        ensures
            has == self@.has(id),
    {
        self.windows.contains_key(&id.0)
    }

    /// Gives up the mouse gestures of the active window.
    pub fn cancel_active_mouse_gesture(&mut self)
        ensures
            final(self)@ == old(self)@.gestures_cancelled(),
    {
        let id = self.active_window;
        let ghost before = self@;
        match self.take_window(id) {
            Some(mut window) => {
                let reports = window.cancel_gestures();
                self.put_window(id, window);
                proof {
                    assert(before.without_window(id).with_window(id, window@).windows
                        =~= before.with_window(id, window@).windows);
                }
                self.send_reports(id, &reports);
            },
            None => {},
        }
    }

    /// Asks the host to write `reports` to the terminals of `window`.
    fn send_reports(&mut self, window: WindowId, reports: &Vec<TerminalMouseReport>)
        ensures
            final(self)@ == old(self)@.asking_all(mouse_effects(window, reports@)),
    {
        let ghost before = self@;
        let ghost effects = mouse_effects(window, reports@);
        let mut at: usize = 0;
        proof {
            assert(before.asking_all(effects.take(0)).outbox =~= before.outbox);
        }
        while at < reports.len()
            invariant
                at <= reports.len(),
                effects == mouse_effects(window, reports@),
                self@ == before.asking_all(effects.take(at as int)),
            decreases reports.len() - at,
        {
            self.emit(Effect::TerminalMouse { window, report: reports[at] });
            proof {
                assert(before.asking_all(effects.take(at as int)).outbox.push(effects[at as int])
                    =~= before.asking_all(effects.take(at + 1)).outbox);
            }
            at = at + 1;
        }
        proof {
            assert(effects.take(effects.len() as int) =~= effects);
        }
    }

    /// Puts the window `id` into the foreground and does nothing else about
    /// it, but for ending every gesture of the window that was there.
    pub fn switch_active_window_pointer(&mut self, id: WindowId)
        ensures
            final(self)@ == old(self)@.pointing_at(id),
    {
        if self.active_window == id {
            return ;
        }
        self.cancel_active_mouse_gesture();
        self.active_window = id;
    }

    /// Whether any plugin listens to `hook`.
    fn has_subscribers(&self, hook: HookName) -> (listens: bool)
        ensures
            listens == self@.plugins.listens(hook),
    {
        let mut at: usize = 0;
        while at < self.plugins.subscriptions.len()
            invariant
                at <= self.plugins.subscriptions.len(),
                forall|i: int|
                    0 <= i < at ==> (#[trigger] self.plugins.subscriptions@[i]).hook != hook,
            decreases self.plugins.subscriptions.len() - at,
        {
            if self.plugins.subscriptions[at].hook == hook {
                proof {
                    assert(self@.plugins.subscriptions[at as int].hook == hook);
                }
                return true;
            }
            at = at + 1;
        }
        false
    }

    /// Announces an event of the window `id` to the plugins that listen.
    /// Returns whether any does and the window is there.
    pub fn run_plugin_hook_for_window(&mut self, id: WindowId, event: HookEvent) -> (ran: bool)
        ensures
            ran == (old(self)@.plugins.listens(event.spec_name()) && old(self)@.has(id)),
            final(self)@ == old(self)@.announcing(id, event),
    {
        if !self.has_subscribers(event.name()) || !self.has_window(id) {
            return false;
        }
        let previous = self.active_window;
        self.switch_active_window_pointer(id);
        self.switch_active_window_pointer(previous);
        self.emit(Effect::RunHook { window: id, event });
        true
    }

    /// Announces an event of the window `id` to one plugin, if it listens.
    /// Returns whether it does and the window is there.
    pub fn run_plugin_hook_for_plugin_in_window(
        &mut self,
        plugin: &str,
        id: WindowId,
        event: HookEvent,
    ) -> (ran: bool)
        ensures
            ran == (old(self)@.plugins.plugin_listens(plugin@, event.spec_name()) && old(
                self,
            )@.has(id)),
            if ran {
                exists|name: String|
                    name@ == plugin@ && final(self)@ == #[trigger] old(self)@.visiting(
                        id,
                    ).emitting(Effect::RunHookFor { plugin: name, window: id, event })
            } else {
                final(self)@ == old(self)@
            },
    {
        if !self.has_subscriber(plugin, event.name()) || !self.has_window(id) {
            return false;
        }
        let previous = self.active_window;
        self.switch_active_window_pointer(id);
        self.switch_active_window_pointer(previous);
        let name = plugin.to_string();
        let ghost told = name;
        self.emit(Effect::RunHookFor { plugin: name, window: id, event });
        proof {
            assert(self@ == old(self)@.visiting(id).emitting(
                Effect::RunHookFor { plugin: told, window: id, event },
            ));
        }
        true
    }

    /// Whether a plugin listens to `hook`.
    fn has_subscriber(&self, plugin: &str, hook: HookName) -> (listens: bool)
        ensures
            listens == self@.plugins.plugin_listens(plugin@, hook),
    {
        let mut at: usize = 0;
        while at < self.plugins.subscriptions.len()
            invariant
                at <= self.plugins.subscriptions.len(),
                forall|i: int|
                    0 <= i < at ==> !((#[trigger] self.plugins.subscriptions@[i]).hook == hook
                        && self.plugins.subscriptions@[i].plugin@ == plugin@),
            decreases self.plugins.subscriptions.len() - at,
        {
            let subscription = &self.plugins.subscriptions[at];
            if subscription.hook == hook && crate::text::same_text(
                subscription.plugin.as_str(),
                plugin,
            ) {
                proof {
                    assert(self@.plugins.subscriptions[at as int].hook == hook);
                }
                return true;
            }
            at = at + 1;
        }
        false
    }

    /// Whether a plugin instance is loaded.
    pub fn is_plugin_instance_active(&self, instance: PluginInstanceId) -> (active: bool)
        ensures
            active == self@.instance_active(instance),
    {
        self.plugins.active_instances.contains(&instance.0)
    }

    /// Rejects a promise of the sender of a command.
    pub(crate) fn reject_callback_for_context(
        &mut self,
        context: &PluginCommandContext,
        callback: JsCallbackId,
        reason: Rejection,
    )
        ensures
            final(self)@ == old(self)@.rejecting(*context, callback, reason),
    {
        self.emit(Effect::Reject { owner: owner_of_callbacks(context), callback, reason });
    }
}

} // verus!
