//! The life of windows: opening, showing, walking through and closing them.
use std::sync::Arc;
use vstd::prelude::*;

use crate::authority::Authority;
use crate::authority::SessionScope;
use crate::authority::TrustLevel;
use crate::authority::WorkspaceRoot;
use crate::command::Edge;
use crate::documents::BufferMetadata;
use crate::documents::BufferState;
use crate::documents::EventLog;
use crate::editor::Editor;
use crate::editor::EditorModel;
use crate::editor::RemoteModel;
use crate::effects::Effect;
use crate::effects::EffectModel;
use crate::effects::HookEvent;
use crate::effects::SnapshotTarget;
use crate::geometry::Rect;
use crate::ids::AuthorityStamp;
use crate::ids::BufferId;
use crate::ids::TerminalId;
use crate::ids::WindowId;
use crate::ids::WindowTerminalId;
use crate::lists::is_sorted_domain;
use crate::lists::sorted_keys;
use crate::lists::sorted_members;
use crate::text::decimal_after;
use crate::text::decimal_text;
use crate::text::same_text;
use crate::terminals::TerminalsModel;
use crate::window::Window;
use crate::window::WindowModel;

verus! {

/// A scratch buffer, so that a window has something to show.
#[derive(Debug)]
pub struct ScratchBuffer {
    pub buffer: BufferId,
    pub state: BufferState,
    pub metadata: BufferMetadata,
    pub log: EventLog,
}

/// What the host provides for a new window: the identity under which it is
/// saved, its backend, and a scratch buffer.
#[derive(Debug)]
pub struct WindowSeed {
    pub stable_id: String,
    pub authority: Authority,
    pub scratch: ScratchBuffer,
}

/// What the host knows about a local project directory.
#[derive(Debug)]
pub struct LocalSite {
    pub stamp: AuthorityStamp,
    /// Where the state of this exact directory is kept.
    pub state_dir: String,
    /// Where the state of the repository that owns the directory is kept.
    pub trust_dir: String,
    /// How far that repository is trusted.
    pub trust: TrustLevel,
}

impl WindowModel {
    /// This window with a scratch buffer as all there is to show.
    pub open spec fn seeded_with(self, scratch: ScratchBuffer) -> WindowModel {
        self.seeded(scratch.buffer, scratch.state, scratch.metadata, scratch.log)
    }
}

/// Whether a window has the root `canonical`.
pub open spec fn at_root(window: WindowModel, canonical: Seq<char>) -> bool {
    window.root.canonical@ == canonical
}

/// Whether `id` is the first window with the root `canonical`.
pub open spec fn is_first_at_root(
    windows: Map<u64, WindowModel>,
    canonical: Seq<char>,
    id: u64,
) -> bool {
    &&& windows.contains_key(id)
    &&& at_root(windows[id], canonical)
    &&& forall|k: u64|
        #[trigger] windows.contains_key(k) && at_root(windows[k], canonical) ==> id <= k
}

/// How many of the windows `keys` have the root `canonical`.
pub open spec fn count_at_root(
    windows: Map<u64, WindowModel>,
    keys: Seq<u64>,
    canonical: Seq<char>,
) -> nat
    decreases keys.len(),
{
    if keys.len() == 0 {
        0
    } else {
        count_at_root(windows, keys.drop_last(), canonical) + if at_root(
            windows[keys.last()],
            canonical,
        ) {
            1nat
        } else {
            0nat
        }
    }
}

/// The windows of an editor in the order of their numbers.
pub open spec fn window_order(windows: Map<u64, WindowModel>) -> Seq<u64> {
    crate::lists::sorted_members(|k: u64| windows.contains_key(k))
}

/// The label of one more window at a root: the name of the directory, with a
/// number where there is one already.
pub open spec fn co_tenant_label(name: Seq<char>, there: nat) -> Seq<char> {
    if there == 0 {
        name
    } else {
        name + " ("@ + decimal_text(there + 1) + ")"@
    }
}

/// The edge that a name stands for; the bottom where it stands for none.
pub open spec fn edge_named(name: Seq<char>) -> Edge {
    if name == "top"@ {
        Edge::Top
    } else if name == "left"@ {
        Edge::Left
    } else if name == "right"@ {
        Edge::Right
    } else {
        Edge::Bottom
    }
}

/// The windows that next and previous walk: those of the order that a plugin
/// has set which are still open, and all of them where none of those is.
pub open spec fn cycle_of(editor: EditorModel) -> Seq<WindowId> {
    let kept = match editor.window_cycle_order {
        Some(order) => order.filter(|id: WindowId| editor.has(id)),
        None => Seq::empty(),
    };
    if kept.len() > 0 {
        kept
    } else {
        window_order(editor.windows).map_values(|k: u64| WindowId(k))
    }
}

/// Whether an id is `active`.
pub open spec fn is_window(active: WindowId) -> spec_fn(WindowId) -> bool {
    |id: WindowId| id == active
}

/// Where the active window stands in `cycle`; at its start where it is not in
/// it.
pub open spec fn cycle_position(cycle: Seq<WindowId>, active: WindowId) -> int {
    match crate::lists::first_index(cycle, is_window(active)) {
        Some(i) => i,
        None => 0,
    }
}

/// The window that is `step` places on in the cycle, which has no end.
pub open spec fn cycle_target(editor: EditorModel, step: int) -> Option<WindowId> {
    let cycle = cycle_of(editor);
    if cycle.len() <= 1 {
        None
    } else {
        Some(cycle[(cycle_position(cycle, editor.active_window) + step) % cycle.len() as int])
    }
}

impl EditorModel {
    /// This editor with one more window, which was announced to the plugins.
    pub open spec fn opening(
        self,
        root: Arc<WorkspaceRoot>,
        label: Seq<char>,
        seed: WindowSeed,
    ) -> EditorModel {
        let id = WindowId(self.next_window_id);
        let window = WindowModel::fresh(
            id,
            label,
            root,
            seed.stable_id@,
            seed.authority,
            self.config.terminal_width,
            self.config.terminal_height,
        ).seeded_with(seed.scratch);
        EditorModel {
            next_window_id: (self.next_window_id + 1) as u64,
            ..self.with_window(id, window)
        }.announcing(id, HookEvent::WindowCreated)
    }

    /// Whether no window has the root `canonical`.
    pub open spec fn lacks_root(self, canonical: Seq<char>) -> bool {
        forall|k: u64| #[trigger]
            self.windows.contains_key(k) ==> !at_root(self.windows[k], canonical)
    }

    /// Whether `id` is the window of a directory and `after` this editor with it:
    /// the first one that is there, or a new one.
    pub open spec fn is_opened_at(
        self,
        root: Arc<WorkspaceRoot>,
        label: Seq<char>,
        seed: WindowSeed,
        id: WindowId,
        after: EditorModel,
    ) -> bool {
        if self.lacks_root(root.canonical@) {
            id == WindowId(self.next_window_id) && after == self.opening(root, label, seed)
        } else {
            is_first_at_root(self.windows, root.canonical@, id.0) && after == self
        }
    }

    /// This editor with the mode of a floating panel taken off the window
    /// `id`, which is about to be left.
    pub open spec fn panel_mode_cleared(self, id: WindowId) -> EditorModel {
        if self.panels.floating is Some && self.has(id) {
            self.with_window(id, self.window(id).with_mode(None))
        } else {
            self
        }
    }

    /// The label of the backend that the editor acts through.
    pub open spec fn authority_label(self) -> String {
        self.active().authority.display_label
    }

    /// This editor with the window `id` shown. Nothing happens where it is
    /// shown already or is not there.
    pub open spec fn showing(self, id: WindowId) -> EditorModel {
        if self.active_window == id || !self.has(id) {
            self
        } else {
            self.leaving_for(id).entered(id, self.active_window, self.authority_label())
        }
    }

    /// This editor with the window `id` in the foreground and the window that
    /// was there left behind.
    pub open spec fn leaving_for(self, id: WindowId) -> EditorModel {
        self.emitting(Effect::Checkpoint { window: self.active_window }).panel_mode_cleared(
            self.active_window,
        ).emitting(Effect::Materialize { window: id }).emitting(
            Effect::EnsureLayout { window: id },
        ).pointing_at(id)
    }

    /// This editor once all that rests on which window is shown follows `id`.
    pub open spec fn entered(self, id: WindowId, previous: WindowId, previous_label: String) -> EditorModel {
        self.clicks_forgotten(id).emitting(Effect::AdoptAuthority { previous_label }).woken(
            id,
        ).emitting(
            Effect::RefreshSnapshot { target: SnapshotTarget::Shared, window: id, scope: None },
        ).announcing(id, HookEvent::ActiveWindowChanged { previous }).emitting(
            Effect::SyncTerminalMode,
        ).emitting(Effect::Relayout)
    }

    /// This editor with no click in the window `id` that a further click would
    /// extend.
    pub open spec fn clicks_forgotten(self, id: WindowId) -> EditorModel {
        if self.has(id) {
            self.with_window(id, self.window(id).clicks_forgotten())
        } else {
            self
        }
    }
}

impl Editor {
    /// The first window whose root is the same directory as `root`.
    pub fn find_window_by_root(&self, root: &WorkspaceRoot) -> (found: Option<WindowId>)
        ensures
            match found {
                Some(id) => is_first_at_root(self@.windows, root.canonical@, id.0),
                None => forall|k: u64| #[trigger]
                    self@.windows.contains_key(k) ==> !at_root(
                        self@.windows[k],
                        root.canonical@,
                    ),
            },
    {
        let keys = sorted_keys(&self.windows);
        let ghost windows = self@.windows;
        let mut at: usize = 0;
        while at < keys.len()
            invariant
                at <= keys.len(),
                windows == self@.windows,
                is_sorted_domain(keys@, self.windows@),
                forall|i: int|
                    0 <= i < at ==> !at_root(windows[#[trigger] keys@[i]], root.canonical@),
            decreases keys.len() - at,
        {
            let key = keys[at];
            proof {
                assert(keys@.contains(key));
            }
            if let Some(window) = self.windows.get(&key) {
                if same_text(window.root.canonical.as_str(), root.canonical.as_str()) {
                    proof {
                        assert forall|k: u64| #[trigger]
                            windows.contains_key(k) && at_root(windows[k], root.canonical@) implies key
                            <= k by {
                            assert(keys@.contains(k));
                            let i = keys@.index_of(k);
                            assert(keys@[i] == k);
                        }
                    }
                    return Some(WindowId(key));
                }
            }
            at = at + 1;
        }
        proof {
            assert forall|k: u64| #[trigger] windows.contains_key(k) implies !at_root(
                windows[k],
                root.canonical@,
            ) by {
                assert(keys@.contains(k));
                let i = keys@.index_of(k);
                assert(keys@[i] == k);
            }
        }
        None
    }

    /// How many windows there are at a root.
    pub fn windows_at_root_count(&self, root: &WorkspaceRoot) -> (count: usize)
        ensures
            count == count_at_root(
                self@.windows,
                window_order(self@.windows),
                root.canonical@,
            ),
    {
        let keys = sorted_keys(&self.windows);
        proof {
            crate::lists::lemma_sorted_members(
                keys@,
                |k: u64| self@.windows.contains_key(k),
            );
        }
        let mut count: usize = 0;
        let mut at: usize = 0;
        while at < keys.len()
            invariant
                at <= keys.len(),
                is_sorted_domain(keys@, self.windows@),
                count <= at,
                count == count_at_root(self@.windows, keys@.take(at as int), root.canonical@),
            decreases keys.len() - at,
        {
            let key = keys[at];
            proof {
                assert(keys@.contains(key));
                let next = keys@.take(at + 1);
                assert(next.drop_last() =~= keys@.take(at as int));
                assert(next.last() == key);
            }
            if let Some(window) = self.windows.get(&key) {
                if same_text(window.root.canonical.as_str(), root.canonical.as_str()) {
                    count = count + 1;
                }
            }
            at = at + 1;
        }
        proof {
            assert(keys@.take(keys@.len() as int) =~= keys@);
        }
        count
    }

    /// The trust and environment scope of a session at `root`: trust is keyed
    /// by the repository that owns the root, the environment by the root.
    pub fn session_scope_for(&self, root: &Arc<WorkspaceRoot>, site: &LocalSite) -> (scope: SessionScope)
        ensures
            scope.root == *root,
            scope.state_dir == site.state_dir,
            scope.trust_dir == site.trust_dir,
    {
        SessionScope {
            root: root.clone(),
            state_dir: site.state_dir.clone(),
            trust_dir: site.trust_dir.clone(),
        }
    }

    /// A local backend for a new session at `root`, with trust and environment
    /// of its own and none of the active session's.
    pub fn local_session_authority(&self, root: &Arc<WorkspaceRoot>, site: &LocalSite) -> (authority:
        Authority)
        ensures
            authority.stamp == site.stamp,
            authority.display_label@.len() == 0,
            authority.trust == site.trust,
            !authority.env_active,
            authority.remote is None,
            authority.scope is Some,
            authority.scope->0.root == *root,
            authority.scope->0.state_dir == site.state_dir,
            authority.scope->0.trust_dir == site.trust_dir,
    {
        let scope = self.session_scope_for(root, site);
        Authority {
            stamp: site.stamp,
            display_label: String::new(),
            trust: site.trust,
            env_active: false,
            remote: None,
            scope: Some(Arc::new(scope)),
        }
    }

    /// Opens a window at `root` on a given backend, and announces it.
    pub fn create_window_with_authority(
        &mut self,
        root: Arc<WorkspaceRoot>,
        label: String,
        seed: WindowSeed,
    ) -> (id: WindowId)
        requires
            old(self)@.next_window_id < u64::MAX,
        ensures
            id == WindowId(old(self)@.next_window_id),
            final(self)@ == old(self)@.opening(root, label@, seed),
    {
        let id = WindowId(self.next_window_id);
        self.next_window_id = self.next_window_id + 1;
        let mut window = Window::new(
            id,
            label,
            root,
            seed.stable_id,
            seed.authority,
            self.config.terminal_width,
            self.config.terminal_height,
        );
        let scratch = seed.scratch;
        window.seed(scratch.buffer, scratch.state, scratch.metadata, scratch.log);
        self.put_window(id, window);
        self.run_plugin_hook_for_window(id, HookEvent::WindowCreated);
        id
    }

    /// Opens the window at `root`. A directory has one window: where there is
    /// one it is returned as it is, with its own label. The first one where
    /// several windows share the directory.
    pub fn create_window_at(
        &mut self,
        root: Arc<WorkspaceRoot>,
        label: String,
        seed: WindowSeed,
    ) -> (id: WindowId)
        requires
            old(self)@.lacks_root(root.canonical@) ==> old(self)@.next_window_id < u64::MAX,
        ensures
            old(self)@.is_opened_at(root, label@, seed, id, final(self)@),
    {
        if let Some(existing) = self.find_window_by_root(&root) {
            return existing;
        }
        self.create_window_with_authority(root, label, seed)
    }

    /// Opens one more window at a root that may have some already.
    pub fn create_co_tenant_window(&mut self, root: Arc<WorkspaceRoot>, seed: WindowSeed) -> (id:
        WindowId)
        requires
            old(self)@.next_window_id < u64::MAX,
        ensures
            id == WindowId(old(self)@.next_window_id),
            final(self)@ == old(self)@.opening(
                root,
                co_tenant_label(
                    root.name@,
                    count_at_root(
                        old(self)@.windows,
                        window_order(old(self)@.windows),
                        root.canonical@,
                    ),
                ),
                seed,
            ),
    {
        let there = self.windows_at_root_count(&root);
        let mut label = root.name.clone();
        if there > 0 {
            label.append(" (");
            let digits = decimal_after(there as u64);
            label.append(digits.as_str());
            label.append(")");
        }
        self.create_window_with_authority(root, label, seed)
    }

    /// Gives a window that has nothing to show a scratch buffer.
    pub fn install_fresh_layout(&mut self, id: WindowId, scratch: ScratchBuffer) -> (installed: bool)
        ensures
            installed == (old(self)@.has(id) && old(self)@.window(id).needs_layout()),
            final(self)@ == if installed {
                old(self)@.with_window(id, old(self)@.window(id).seeded_with(scratch))
            } else {
                old(self)@
            },
    {
        let ghost before = self@;
        match self.take_window(id) {
            Some(mut window) => {
                let lacks = window.lacks_layout();
                if lacks {
                    window.seed(scratch.buffer, scratch.state, scratch.metadata, scratch.log);
                }
                self.put_window(id, window);
                proof {
                    assert(before.without_window(id).with_window(id, window@).windows
                        =~= before.with_window(id, window@).windows);
                    if !lacks {
                        assert(before.with_window(id, window@).windows =~= before.windows);
                    }
                }
                lacks
            },
            None => false,
        }
    }

    /// Takes the mode of a floating panel off the window that is being left.
    /// The mode belongs to the panel: left behind, it would swallow the keys
    /// of that window later on.
    pub fn clear_panel_scoped_mode_on_switch_away(&mut self, previous: WindowId)
        ensures
            final(self)@ == old(self)@.panel_mode_cleared(previous),
    {
        let ghost before = self@;
        if self.panels.floating.is_some() {
            match self.take_window(previous) {
                Some(mut window) => {
                    window.ui.editor_mode = None;
                    self.put_window(previous, window);
                    proof {
                        assert(before.without_window(previous).with_window(previous, window@).windows
                            =~= before.with_window(previous, window@).windows);
                    }
                },
                None => {},
            }
        }
    }

    /// Shows the window `id`. Nothing happens where it is shown already or is
    /// not there.
    pub fn set_active_window(&mut self, id: WindowId)
        requires
            old(self)@.has_active(),
        ensures
            final(self)@ == old(self)@.showing(id),
    {
        if self.active_window == id || !self.has_window(id) {
            return ;
        }
        let previous = self.active_window;
        let previous_label = match self.windows.get(&previous.0) {
            Some(window) => window.authority.display_label.clone(),
            None => String::new(),
        };
        self.leave_window_for(id);
        self.enter_window(id, previous, previous_label);
    }

    /// Leaves the active window for `id`.
    fn leave_window_for(&mut self, id: WindowId)
        ensures
            final(self)@ == old(self)@.leaving_for(id),
    {
        let previous = self.active_window;
        self.emit(Effect::Checkpoint { window: previous });
        self.clear_panel_scoped_mode_on_switch_away(previous);
        self.emit(Effect::Materialize { window: id });
        self.emit(Effect::EnsureLayout { window: id });
        self.switch_active_window_pointer(id);
    }

    /// Forgets the clicks in a window that a further click would extend.
    fn forget_clicks(&mut self, id: WindowId)
        ensures
            final(self)@ == old(self)@.clicks_forgotten(id),
    {
        let ghost before = self@;
        match self.take_window(id) {
            Some(mut window) => {
                window.clicks = crate::window::ClickState {
                    time_ms: None,
                    position: None,
                    target: None,
                    count: 0,
                };
                self.put_window(id, window);
                proof {
                    assert(before.without_window(id).with_window(id, window@).windows
                        =~= before.with_window(id, window@).windows);
                }
            },
            None => {},
        }
    }

    /// Lets all that rests on which window is shown follow `id`.
    fn enter_window(&mut self, id: WindowId, previous: WindowId, previous_label: String)
        ensures
            final(self)@ == old(self)@.entered(id, previous, previous_label),
    {
        self.forget_clicks(id);
        self.emit(Effect::AdoptAuthority { previous_label });
        self.reconnect_dormant_session_if_needed(id);
        self.emit(
            Effect::RefreshSnapshot { target: SnapshotTarget::Shared, window: id, scope: None },
        );
        self.run_plugin_hook_for_window(id, HookEvent::ActiveWindowChanged { previous });
        self.emit(Effect::SyncTerminalMode);
        self.emit(Effect::Relayout);
    }

    /// Shows the window `id` and lets it slide in over `area`, everything but
    /// the dock, from the edge named `from_edge`.
    pub fn set_active_window_animated(&mut self, id: WindowId, from_edge: &str, area: Rect)
        requires
            old(self)@.has_active(),
        ensures
            final(self)@ == if old(self)@.active_window != id && old(self)@.has(id)
                && old(self)@.config.animations && area.width > 0 && area.height > 0 {
                old(self)@.showing(id).emitting(
                    Effect::SlideIn { area, from: edge_named(from_edge@), duration_ms: 180 },
                )
            } else {
                old(self)@.showing(id)
            },
    {
        let animate = self.active_window != id && self.has_window(id) && self.config.animations;
        self.set_active_window(id);
        if !animate || area.width == 0 || area.height == 0 {
            return ;
        }
        let from = if same_text(from_edge, "top") {
            Edge::Top
        } else if same_text(from_edge, "left") {
            Edge::Left
        } else if same_text(from_edge, "right") {
            Edge::Right
        } else {
            Edge::Bottom
        };
        self.emit(Effect::SlideIn { area, from, duration_ms: 180 });
    }

    /// Prepares a window that is not shown. So far there is nothing to prepare.
    pub fn prewarm_window(&mut self, id: WindowId)
        ensures
            final(self)@ == old(self)@,
    {
    }
}

/// Whether a terminal of a window is to be forgotten when the window closes.
pub open spec fn closes_terminal(window: WindowModel) -> spec_fn(u64) -> bool {
    |k: u64| window.terminals.live.contains_key(k) || window.terminals.companions.contains_key(k)
}

/// The effects that make companions of terminals forget them.
pub open spec fn purge_effects(window: WindowId, terminals: Seq<u64>) -> Seq<EffectModel> {
    terminals.map_values(
        |k: u64|
            EffectModel::Plain(
                Effect::PurgeCompanion {
                    terminal: WindowTerminalId { window, terminal: TerminalId(k) },
                },
            ),
    )
}

/// The effects that give up attempts to connect.
pub open spec fn cancel_effects(attempts: Seq<u64>) -> Seq<EffectModel> {
    attempts.map_values(|attempt: u64| EffectModel::Plain(Effect::CancelConnect { attempt }))
}

/// Whether an attempt to connect is for the window `id`.
pub open spec fn attempt_for(editor: EditorModel, id: WindowId) -> spec_fn(u64) -> bool {
    |k: u64|
        editor.remote.attempts.contains_key(k) && editor.remote.attempts[k].spec_window() == id
}

impl WindowModel {
    /// This window with no terminal that may drive the editor.
    pub open spec fn scripts_revoked(self) -> WindowModel {
        self.with_terminals(
            TerminalsModel { script_tokens: Set::empty(), ..self.terminals },
        )
    }
}

impl EditorModel {
    /// This editor with every attempt to connect for the window `id` given up.
    pub open spec fn attaches_cancelled(self, id: WindowId) -> EditorModel {
        let given_up = sorted_members(attempt_for(self, id));
        EditorModel {
            remote: RemoteModel {
                attempts: Map::new(
                    |k: u64|
                        self.remote.attempts.contains_key(k)
                            && self.remote.attempts[k].spec_window() != id,
                    |k: u64| self.remote.attempts[k],
                ),
                ..self.remote
            },
            ..self
        }.asking_all(cancel_effects(given_up))
    }

    /// This editor with everything undone that is under way for the window
    /// `id`, which is about to close.
    pub open spec fn detached(self, id: WindowId) -> EditorModel {
        let viewed = if self.has(id) {
            self.visiting(id)
        } else {
            self
        };
        viewed.reconnect_cancelled(id).attaches_cancelled(id).emitting(
            Effect::UnwatchWindow { window: id },
        )
    }

    /// This editor with no trace of a remote connection of the window `id`.
    pub open spec fn remote_forgotten(self, id: WindowId) -> EditorModel {
        EditorModel {
            remote: RemoteModel {
                pending_reattach: self.remote.pending_reattach.remove(id.0),
                connected_cache: self.remote.connected_cache.remove(id.0),
                ..self.remote
            },
            ..self
        }
    }

    /// This editor with the connection of the window `id` dropped.
    pub open spec fn keepalive_dropped(self, id: WindowId) -> EditorModel {
        if self.remote.keepalives.contains(id.0) {
            EditorModel {
                remote: RemoteModel {
                    keepalives: self.remote.keepalives.remove(id.0),
                    ..self.remote
                },
                ..self
            }.emitting(Effect::DropKeepalive { window: id })
        } else {
            self
        }
    }

    /// This editor with the forwarder of a window's remote channel stopped.
    pub open spec fn forwarder_stopped(self, authority: Authority) -> EditorModel {
        match authority.remote {
            Some(channel) => match channel.id {
                Some(channel) => self.emitting(Effect::StopForwarder { channel }),
                None => self,
            },
            None => self,
        }
    }

    /// This editor with a self-update that runs in the window `id` ended.
    pub open spec fn self_update_ended(self, id: WindowId) -> EditorModel {
        if self.self_update_terminal is Some && self.self_update_terminal->0.window == id {
            EditorModel { self_update_terminal: None, ..self }.emitting(Effect::FinishSelfUpdate)
        } else {
            self
        }
    }

    /// This editor without the window `id`. Where some of its terminals still
    /// run the window is kept aside until they have exited, and is announced
    /// as closed only then.
    pub open spec fn window_dropped(self, id: WindowId) -> EditorModel {
        let window = self.window(id);
        let purged = self.asking_all(
            purge_effects(id, sorted_members(closes_terminal(window))),
        ).emitting(Effect::RevokeScriptTokens { window: id });
        let gone = purged.self_update_ended(id).without_window(id);
        let waits = window.terminals.live.dom().len() > 0;
        let kept = EditorModel {
            closing_windows: if waits {
                gone.closing_windows.insert(id.0, window.scripts_revoked())
            } else {
                gone.closing_windows
            },
            dormant_remote: gone.dormant_remote.remove(id.0),
            ..gone
        }.remote_forgotten(id).forwarder_stopped(window.authority).keepalive_dropped(id);
        if waits {
            kept
        } else {
            kept.asking(EffectModel::WindowClosed { window: window.scripts_revoked() })
        }
    }

    /// Whether the window `id` may be closed: it is there, is not shown, and
    /// is not the last one. A dormant session without a window always may.
    pub open spec fn may_close(self, id: WindowId) -> bool {
        (self.dormant_remote.contains_key(id.0) && !self.has(id)) || (self.has(id) && id
            != self.active_window && self.windows.dom().len() > 1)
    }

    /// This editor after it was asked to close the window `id`.
    pub open spec fn closing(self, id: WindowId) -> EditorModel {
        if self.dormant_remote.contains_key(id.0) && !self.has(id) {
            let cancelled = self.reconnect_cancelled(id);
            EditorModel { dormant_remote: cancelled.dormant_remote.remove(id.0), ..cancelled }.emitting(
                Effect::SessionDropped { window: id },
            )
        } else if self.windows.dom().len() <= 1 || id == self.active_window {
            self
        } else if self.has(id) {
            self.detached(id).window_dropped(id)
        } else {
            self.detached(id)
        }
    }
}

impl Editor {
    /// Asks the host for `make(k)` for each `k` of `keys`, where `make` is the
    /// purge of a companion.
    pub(crate) fn emit_purges(&mut self, window: WindowId, keys: &Vec<u64>)
        ensures
            final(self)@ == old(self)@.asking_all(purge_effects(window, keys@)),
    {
        let ghost before = self@;
        let ghost effects = purge_effects(window, keys@);
        let mut at: usize = 0;
        proof {
            assert(before.asking_all(effects.take(0)).outbox =~= before.outbox);
        }
        while at < keys.len()
            invariant
                at <= keys.len(),
                effects == purge_effects(window, keys@),
                self@ == before.asking_all(effects.take(at as int)),
            decreases keys.len() - at,
        {
            self.emit(
                Effect::PurgeCompanion {
                    terminal: WindowTerminalId { window, terminal: TerminalId(keys[at]) },
                },
            );
            proof {
                assert(before.asking_all(effects.take(at as int)).outbox.push(effects[at as int])
                    =~= before.asking_all(effects.take(at + 1)).outbox);
            }
            at = at + 1;
        }
        proof {
            assert(effects.take(effects.len() as int) =~= effects);
        }
    }

    /// Gives up every attempt to connect for a window.
    pub fn cancel_remote_attaches_for_window(&mut self, id: WindowId)
        ensures
            final(self)@ == old(self)@.attaches_cancelled(id),
    {
        let ghost before = self@;
        let ghost wanted = attempt_for(before, id);
        let all = sorted_keys(&self.remote.attempts);
        let mut chosen: Vec<u64> = Vec::new();
        let mut at: usize = 0;
        proof {
            reveal(Seq::filter);
            assert(all@.take(0).filter(wanted) =~= Seq::<u64>::empty());
        }
        while at < all.len()
            invariant
                at <= all.len(),
                self@ == before,
                wanted == attempt_for(before, id),
                is_sorted_domain(all@, self.remote.attempts@),
                chosen@ == all@.take(at as int).filter(wanted),
            decreases all.len() - at,
        {
            let key = all[at];
            proof {
                reveal(Seq::filter);
                assert(all@.contains(key));
                let next = all@.take(at + 1);
                assert(next.drop_last() =~= all@.take(at as int));
                assert(next.last() == key);
            }
            if let Some(owner) = self.remote.attempts.get(&key) {
                if owner.window() == id {
                    chosen.push(key);
                }
            }
            at = at + 1;
        }
        proof {
            assert(all@.take(all@.len() as int) =~= all@);
            crate::lists::lemma_filter_increasing(all@, wanted);
            assert forall|k: u64| #[trigger] chosen@.contains(k) <==> wanted(k) by {
                assert(all@.contains(k) <==> before.remote.attempts.contains_key(k));
            }
            crate::lists::lemma_sorted_members(chosen@, wanted);
        }
        let ghost effects = cancel_effects(chosen@);
        let mut at: usize = 0;
        proof {
            assert(before.asking_all(effects.take(0)).outbox =~= before.outbox);
        }
        while at < chosen.len()
            invariant
                at <= chosen.len(),
                effects == cancel_effects(chosen@),
                crate::lists::is_increasing(chosen@),
                self@.outbox == before.asking_all(effects.take(at as int)).outbox,
                self@ == (EditorModel {
                    remote: RemoteModel { attempts: self@.remote.attempts, ..before.remote },
                    outbox: self@.outbox,
                    ..before
                }),
                forall|k: u64|
                    #![trigger self@.remote.attempts.contains_key(k)]
                    self@.remote.attempts.contains_key(k) <==> before.remote.attempts.contains_key(
                        k,
                    ) && !chosen@.take(at as int).contains(k),
                forall|k: u64| #[trigger]
                    self@.remote.attempts.contains_key(k) ==> self@.remote.attempts[k]
                        == before.remote.attempts[k],
            decreases chosen.len() - at,
        {
            let attempt = chosen[at];
            self.remote.attempts.remove(&attempt);
            self.emit(Effect::CancelConnect { attempt });
            proof {
                assert(before.asking_all(effects.take(at as int)).outbox.push(effects[at as int])
                    =~= before.asking_all(effects.take(at + 1)).outbox);
                let done = chosen@.take(at as int);
                let next = chosen@.take(at + 1);
                assert(next =~= done.push(attempt));
                assert forall|k: u64| next.contains(k) <==> k == attempt || done.contains(k) by {
                    if next.contains(k) {
                        let i = next.index_of(k);
                        if i < done.len() {
                            assert(done[i] == k);
                        }
                    }
                    if done.contains(k) {
                        let i = done.index_of(k);
                        assert(next[i] == k);
                    }
                    assert(next[done.len() as int] == attempt);
                }
            }
            at = at + 1;
        }
        proof {
            assert(effects.take(effects.len() as int) =~= effects);
            assert(chosen@.take(chosen@.len() as int) =~= chosen@);
            assert(self@.remote.attempts =~= before.attaches_cancelled(id).remote.attempts);
        }
    }

    /// Forgets which terminals of a window wait for their backend.
    pub(crate) fn forget_reattach(&mut self, id: WindowId)
        ensures
            final(self)@ == (EditorModel {
                remote: RemoteModel {
                    pending_reattach: old(self)@.remote.pending_reattach.remove(id.0),
                    ..old(self)@.remote
                },
                ..old(self)@
            }),
    {
        let ghost before = self@;
        self.remote.pending_reattach.remove(&id.0);
        proof {
            assert(self@.remote.pending_reattach =~= before.remote.pending_reattach.remove(id.0));
        }
    }

    /// Undoes what is under way for a window that is about to close.
    fn detach_window(&mut self, id: WindowId)
        ensures
            final(self)@ == old(self)@.detached(id),
    {
        if self.has_window(id) {
            let previous = self.active_window;
            self.switch_active_window_pointer(id);
            self.switch_active_window_pointer(previous);
        }
        self.cancel_remote_reconnect(id);
        self.cancel_remote_attaches_for_window(id);
        self.emit(Effect::UnwatchWindow { window: id });
    }

    /// Drops a window that is there.
    fn drop_window(&mut self, id: WindowId)
        requires
            old(self)@.has(id),
        ensures
            final(self)@ == old(self)@.window_dropped(id),
    {
        let ghost before = self@;
        let (purged, waits): (Vec<u64>, bool) = match self.windows.get(&id.0) {
            Some(window) => {
                let live = sorted_keys(&window.terminals.live);
                let companions = sorted_keys(&window.terminals.companions);
                let waits = !window.terminals.live.is_empty();
                let purged = crate::lists::merge_sorted(live, &companions);
                proof {
                    let model = before.window(id);
                    crate::lists::lemma_sorted_members(purged@, closes_terminal(model));
                    let dom = model.terminals.live.dom();
                    assert(waits <==> dom.len() > 0) by {
                        if dom.len() == 0 {
                            dom.lemma_len0_is_empty();
                            assert(model.terminals.live =~= Map::empty());
                        }
                    }
                }
                (purged, waits)
            },
            None => (Vec::new(), false),
        };
        self.emit_purges(id, &purged);
        self.emit(Effect::RevokeScriptTokens { window: id });
        if let Some(terminal) = self.self_update_terminal {
            if terminal.window == id {
                self.self_update_terminal = None;
                self.emit(Effect::FinishSelfUpdate);
            }
        }
        let ghost ended = self@;
        let window = self.take_window(id);
        if let Some(mut window) = window {
            window.terminals.script_tokens.clear();
            let authority = window.authority.duplicate();
            let closed = if waits {
                let ghost aside = self@;
                self.closing_windows.insert(id.0, window);
                proof {
                    assert(self@.closing_windows =~= aside.closing_windows.insert(id.0, window@));
                }
                None
            } else {
                Some(window)
            };
            self.dormant_remote.remove(&id.0);
            self.forget_reattach(id);
            self.remote.connected_cache.remove(&id.0);
            if let Some(channel) = authority.remote {
                if let Some(channel) = channel.id {
                    self.emit(Effect::StopForwarder { channel });
                }
            }
            if self.remote.keepalives.contains(&id.0) {
                self.remote.keepalives.remove(&id.0);
                self.emit(Effect::DropKeepalive { window: id });
            }
            if let Some(window) = closed {
                self.emit(Effect::WindowClosed { window });
            }
        }
    }

    /// Closes the window `id`. Refused for the window that is shown, for the
    /// last one and for one that is not there. A dormant session that has no
    /// window is just dropped. Returns whether the window was closed.
    pub fn close_window(&mut self, id: WindowId) -> (closed: bool)
        ensures
            closed == old(self)@.may_close(id),
            final(self)@ == old(self)@.closing(id),
    {
        proof {
            assert(self@.windows.dom() =~= self.windows@.dom());
        }
        if self.dormant_remote.contains_key(&id.0) && !self.has_window(id) {
            self.cancel_remote_reconnect(id);
            self.dormant_remote.remove(&id.0);
            self.emit(Effect::SessionDropped { window: id });
            return true;
        }
        if self.windows.len() <= 1 {
            return false;
        }
        if id == self.active_window {
            return false;
        }
        let there = self.has_window(id);
        self.detach_window(id);
        if !there {
            return false;
        }
        self.drop_window(id);
        true
    }

    /// Shows the window after the active one in the cycle.
    pub fn next_window(&mut self)
        requires
            old(self)@.has_active(),
        ensures
            final(self)@ == match cycle_target(old(self)@, 1) {
                Some(id) => old(self)@.showing(id),
                None => old(self)@,
            },
    {
        self.cycle_active_window(true);
    }

    /// Shows the window before the active one in the cycle.
    pub fn prev_window(&mut self)
        requires
            old(self)@.has_active(),
        ensures
            final(self)@ == match cycle_target(old(self)@, -1) {
                Some(id) => old(self)@.showing(id),
                None => old(self)@,
            },
    {
        self.cycle_active_window(false);
    }

    /// The windows that next and previous walk.
    fn cycle_ids(&self) -> (ids: Vec<WindowId>)
        ensures
            ids@ == cycle_of(self@),
    {
        let ghost open = |id: WindowId| self@.has(id);
        let mut kept: Vec<WindowId> = Vec::new();
        if let Some(order) = &self.window_cycle_order {
            let mut at: usize = 0;
            proof {
                reveal(Seq::filter);
                assert(order@.take(0).filter(open) =~= Seq::<WindowId>::empty());
            }
            while at < order.len()
                invariant
                    at <= order.len(),
                    open == (|id: WindowId| self@.has(id)),
                    kept@ == order@.take(at as int).filter(open),
                decreases order.len() - at,
            {
                proof {
                    reveal(Seq::filter);
                    let next = order@.take(at + 1);
                    assert(next.drop_last() =~= order@.take(at as int));
                    assert(next.last() == order@[at as int]);
                }
                if self.has_window(order[at]) {
                    kept.push(order[at]);
                }
                at = at + 1;
            }
            proof {
                assert(order@.take(order@.len() as int) =~= order@);
            }
        }
        if kept.len() > 0 {
            return kept;
        }
        let keys = sorted_keys(&self.windows);
        proof {
            crate::lists::lemma_sorted_members(keys@, |k: u64| self@.windows.contains_key(k));
        }
        let mut ids: Vec<WindowId> = Vec::new();
        let mut at: usize = 0;
        while at < keys.len()
            invariant
                at <= keys.len(),
                ids@ =~= keys@.take(at as int).map_values(|k: u64| WindowId(k)),
            decreases keys.len() - at,
        {
            ids.push(WindowId(keys[at]));
            at = at + 1;
        }
        proof {
            assert(keys@.take(keys@.len() as int) =~= keys@);
        }
        ids
    }

    /// Shows the neighbour of the active window in the cycle.
    fn cycle_active_window(&mut self, forward: bool)
        requires
            old(self)@.has_active(),
        ensures
            final(self)@ == match cycle_target(
                old(self)@,
                if forward {
                    1
                } else {
                    -1
                },
            ) {
                Some(id) => old(self)@.showing(id),
                None => old(self)@,
            },
    {
        let ids = self.cycle_ids();
        if ids.len() <= 1 {
            return ;
        }
        let active = self.active_window;
        let ghost wanted = is_window(active);
        let mut position: usize = 0;
        while position < ids.len() && ids[position] != active
            invariant
                position <= ids.len(),
                wanted == is_window(active),
                forall|i: int| 0 <= i < position ==> !wanted(#[trigger] ids@[i]),
            decreases ids.len() - position,
        {
            position = position + 1;
        }
        if position == ids.len() {
            proof {
                crate::lists::lemma_first_index_none(ids@, wanted);
            }
            position = 0;
        } else {
            proof {
                crate::lists::lemma_first_index_found(ids@, wanted, position as int);
            }
        }
        let next: usize = if forward {
            if position + 1 == ids.len() {
                0
            } else {
                position + 1
            }
        } else if position == 0 {
            ids.len() - 1
        } else {
            position - 1
        };
        proof {
            let len = ids@.len() as int;
            let step: int = if forward {
                1
            } else {
                -1
            };
            assert((position + step) % len == next) by {
                if forward {
                    if position + 1 == len {
                        vstd::arithmetic::div_mod::lemma_mod_self_0(len);
                    } else {
                        vstd::arithmetic::div_mod::lemma_small_mod((position + 1) as nat, len as nat);
                    }
                } else if position == 0 {
                    vstd::arithmetic::div_mod::lemma_mod_add_multiples_vanish(-1, len);
                    vstd::arithmetic::div_mod::lemma_small_mod((len - 1) as nat, len as nat);
                } else {
                    vstd::arithmetic::div_mod::lemma_small_mod((position - 1) as nat, len as nat);
                }
            }
        }
        self.set_active_window(ids[next]);
    }
}

} // verus!
