//! Dormant remote sessions, and remote windows that change their backend.
use std::collections::BTreeMap;
use std::sync::Arc;
use vstd::prelude::*;

use crate::authority::AuthoritySpec;
use crate::authority::WorkspaceRoot;
use crate::documents::BufferMetadata;
use crate::editor::DormantRemote;
use crate::editor::Editor;
use crate::editor::EditorModel;
use crate::editor::OwnersModel;
use crate::editor::RemoteModel;
use crate::effects::Effect;
use crate::effects::EffectModel;
use crate::effects::SnapshotTarget;
use crate::geometry::Rect;
use crate::ids::TerminalId;
use crate::ids::WindowId;
use crate::ids::WindowTerminalId;
use crate::lists::is_sorted_domain;
use crate::lists::lemma_sorted_members;
use crate::lists::merge_sorted;
use crate::lists::retain_where;
use crate::lists::sorted_keys;
use crate::lists::sorted_members;
use crate::lists::sorted_set;
use crate::notice::Notice;
use crate::notice::Rejection;
use crate::window::Window;
use crate::window::WindowModel;
use crate::windows::purge_effects;
use crate::windows::ScratchBuffer;
use crate::windows::WindowSeed;

verus! {

/// What of a dormant session is restored once it is connected.
#[derive(Debug)]
pub enum PromotionSource {
    /// Nothing: the tenant at the other end is another one.
    Nothing,
    /// What was saved under this identity.
    Exact(String),
    /// What was saved for the directory before windows had identities.
    ByRoot,
}

impl DormantRemote {
    /// Whether the session was saved under an identity of its own.
    pub open spec fn has_identity(self) -> bool {
        self.stable_id is Some && self.stable_id->0@.len() > 0
    }
}

/// The window that stands for a dormant session until it is connected: empty,
/// read-only, and on a local backend, but known as the remote session it is.
pub open spec fn dormant_shell(
    id: WindowId,
    descriptor: DormantRemote,
    seed: WindowSeed,
    width: u16,
    height: u16,
) -> WindowModel {
    WindowModel {
        plugin_state: descriptor.plugin_state@,
        authority_spec: descriptor.authority_spec,
        ..WindowModel::fresh(
            id,
            descriptor.label@,
            descriptor.root,
            seed.stable_id@,
            seed.authority,
            width,
            height,
        ).seeded_with(
            ScratchBuffer {
                metadata: BufferMetadata { read_only: true, ..seed.scratch.metadata },
                ..seed.scratch
            },
        )
    }
}

/// The window of a dormant session that is connected now: restored from what
/// was saved, or empty where nothing is to be restored. Either way it has the
/// number and the label of the session, and the root and the backend that were
/// connected.
pub open spec fn promoted_window(
    id: WindowId,
    descriptor: DormantRemote,
    restored: Option<WindowModel>,
    root: Arc<WorkspaceRoot>,
    seed: WindowSeed,
    spec: AuthoritySpec,
    restore_allowed: bool,
    width: u16,
    height: u16,
) -> WindowModel {
    let base = match restored {
        Some(window) => window,
        None => WindowModel::fresh(
            id,
            descriptor.label@,
            root,
            seed.stable_id@,
            seed.authority,
            width,
            height,
        ).seeded_with(seed.scratch),
    };
    WindowModel {
        id,
        label: descriptor.label@,
        root,
        authority: seed.authority,
        stable_id: if descriptor.has_identity() {
            descriptor.stable_id->0@
        } else {
            base.stable_id
        },
        terminal_width: width,
        terminal_height: height,
        plugin_state: if restore_allowed {
            descriptor.plugin_state@
        } else {
            base.plugin_state
        },
        authority_spec: spec,
        ..base
    }.with_status(Some(Notice::ConnectedTo { label: descriptor.label }))
}

/// Why a dormant session stays dormant though its backend is connected: what was
/// saved of it could not be read, or nothing was found under its identity.
pub open spec fn promotion_failure(
    descriptor: DormantRemote,
    restore_allowed: bool,
    loaded: Result<Option<Window>, String>,
) -> Option<Rejection> {
    if !restore_allowed {
        None
    } else {
        match loaded {
            Err(reason) => Some(Rejection::Text(reason)),
            Ok(Some(_)) => None,
            Ok(None) => if descriptor.has_identity() {
                Some(Rejection::WorkspaceNotFound { id: descriptor.stable_id->0 })
            } else {
                None
            },
        }
    }
}

/// The model of a window that may be absent.
pub open spec fn window_model(window: Option<Window>) -> Option<WindowModel> {
    match window {
        Some(window) => Some(window@),
        None => None,
    }
}

impl EditorModel {
    /// This editor with an empty window for the dormant session `id`.
    pub open spec fn shell_installed(self, id: WindowId, seed: WindowSeed) -> EditorModel {
        if self.has(id) || !self.dormant_remote.contains_key(id.0) {
            self
        } else {
            self.with_window(
                id,
                dormant_shell(
                    id,
                    self.dormant_remote[id.0],
                    seed,
                    self.config.terminal_width,
                    self.config.terminal_height,
                ),
            )
        }
    }

    /// This editor once the window of `id`, which holds a connection now, has
    /// taken the place of what was there.
    pub open spec fn connected(self, id: WindowId, window: WindowModel) -> EditorModel {
        EditorModel {
            remote: RemoteModel {
                keepalives: self.remote.keepalives.insert(id.0),
                ..self.remote
            },
            ..self.with_window(id, window)
        }
    }

    /// This editor once a connection for the window `id` has come to nothing.
    pub open spec fn failure_shown(self, id: WindowId, reason: Rejection) -> EditorModel {
        if self.has(id) {
            self.with_window(id, self.window(id).connection_failed(reason))
        } else {
            self
        }
    }

    /// This editor once all that shows the window `id` was brought up to date.
    pub open spec fn refreshed_after_promotion(self, id: WindowId, previous_label: String) -> EditorModel {
        let snapshot = Effect::RefreshSnapshot {
            target: SnapshotTarget::Shared,
            window: self.active_window,
            scope: None,
        };
        if self.active_window == id {
            self.emitting(Effect::AdoptAuthority { previous_label }).emitting(snapshot).emitting(
                Effect::SyncTerminalMode,
            ).emitting(Effect::Relayout)
        } else {
            self.emitting(snapshot)
        }
    }
}

impl Editor {
    /// Makes an empty window for a dormant session, so that it can be shown
    /// before its backend is connected, or without ever being.
    pub fn ensure_dormant_shell(&mut self, id: WindowId, seed: WindowSeed)
        ensures
            final(self)@ == old(self)@.shell_installed(id, seed),
    {
        if self.has_window(id) {
            return ;
        }
        let window = match self.dormant_remote.get(&id.0) {
            Some(descriptor) => {
                let mut window = Window::new(
                    id,
                    descriptor.label.clone(),
                    descriptor.root.clone(),
                    seed.stable_id,
                    seed.authority,
                    self.config.terminal_width,
                    self.config.terminal_height,
                );
                window.plugin_state = descriptor.plugin_state.clone();
                window.authority_spec = descriptor.authority_spec.duplicate();
                let mut metadata = seed.scratch.metadata;
                metadata.read_only = true;
                window.seed(
                    seed.scratch.buffer,
                    seed.scratch.state,
                    metadata,
                    seed.scratch.log,
                );
                window
            },
            None => {
                return ;
            },
        };
        self.put_window(id, window);
    }

    /// Shows a dormant session and connects it.
    pub fn dive_into_dormant(
        &mut self,
        id: WindowId,
        seed: WindowSeed,
        slide: Option<(&str, Rect)>,
    )
        requires
            old(self)@.has_active(),
        ensures
            ({
                let shell = old(self)@.shell_installed(id, seed);
                let shown = match slide {
                    Some((edge, area)) => if shell.active_window != id && shell.has(id)
                        && shell.config.animations && area.width > 0 && area.height > 0 {
                        shell.showing(id).emitting(
                            Effect::SlideIn {
                                area,
                                from: crate::windows::edge_named(edge@),
                                duration_ms: 180,
                            },
                        )
                    } else {
                        shell.showing(id)
                    },
                    None => shell.showing(id),
                };
                final(self)@ == shown.bringing_online(id)
            }),
    {
        self.ensure_dormant_shell(id, seed);
        match slide {
            Some((edge, area)) => {
                self.set_active_window_animated(id, edge, area);
            },
            None => {
                self.set_active_window(id);
            },
        }
        self.bring_dormant_remote_online(id);
    }

    /// Shows a dormant session with the reason why it could not be connected:
    /// there is no runtime to connect it with.
    pub fn show_dormant_failure(&mut self, id: WindowId, seed: WindowSeed)
        ensures
            final(self)@ == old(self)@.shell_installed(id, seed).failure_shown(
                id,
                Rejection::RemoteRuntimeMissing,
            ),
    {
        self.ensure_dormant_shell(id, seed);
        self.show_failure(id, Rejection::RemoteRuntimeMissing);
    }

    /// What is to be restored of the dormant session `id`; none where there is
    /// no such session.
    pub fn promotion_source(&self, id: WindowId, restore_allowed: bool) -> (source: Option<
        PromotionSource,
    >)
        ensures
            source == (if !self@.dormant_remote.contains_key(id.0) {
                None
            } else if !restore_allowed {
                Some(PromotionSource::Nothing)
            } else if self@.dormant_remote[id.0].has_identity() {
                Some(PromotionSource::Exact(self@.dormant_remote[id.0].stable_id->0))
            } else {
                Some(PromotionSource::ByRoot)
            }),
    {
        if !self.dormant_remote.contains_key(&id.0) {
            None
        } else if !restore_allowed {
            Some(PromotionSource::Nothing)
        } else {
            match self.saved_identity(id) {
                Some(stable_id) => Some(PromotionSource::Exact(stable_id)),
                None => Some(PromotionSource::ByRoot),
            }
        }
    }

    /// The identity that the dormant session `id` was saved with.
    fn saved_identity(&self, id: WindowId) -> (identity: Option<String>)
        ensures
            identity == (if self@.dormant_remote.contains_key(id.0)
                && self@.dormant_remote[id.0].has_identity() {
                self@.dormant_remote[id.0].stable_id
            } else {
                None
            }),
    {
        match self.dormant_remote.get(&id.0) {
            Some(descriptor) => match &descriptor.stable_id {
                Some(stable_id) => if stable_id.as_str().is_empty() {
                    None
                } else {
                    Some(stable_id.clone())
                },
                None => None,
            },
            None => None,
        }
    }

    /// Tells the user of the window `id` why it is not connected, and keeps the
    /// reason on record.
    fn show_failure(&mut self, id: WindowId, reason: Rejection)
        ensures
            final(self)@ == old(self)@.failure_shown(id, reason),
    {
        let cause = Arc::new(reason);
        let ghost before = self@;
        match self.take_window(id) {
            Some(mut window) => {
                window.ui.remote_reconnect_error = Some(cause.clone());
                window.set_status_message(Notice::ConnectionFailed { cause });
                self.put_window(id, window);
                proof {
                    assert(before.without_window(id).with_window(id, window@).windows
                        =~= before.with_window(id, window@).windows);
                }
            },
            None => {},
        }
    }

    /// Turns a dormant session whose backend is connected into a window. Only
    /// here does one become a window, so nothing of it ever runs on another
    /// backend. `loaded` is what was found of [`Editor::promotion_source`]: a
    /// window, nothing, or why it could not be read. The session stays dormant
    /// where it could not be read, and where nothing was found under the
    /// identity that it was saved with.
    pub fn promote_dormant_remote(
        &mut self,
        id: WindowId,
        root: Arc<WorkspaceRoot>,
        seed: WindowSeed,
        spec: AuthoritySpec,
        restore_allowed: bool,
        loaded: Result<Option<Window>, String>,
    )
        requires
            old(self)@.has_active(),
        ensures
            if !old(self)@.dormant_remote.contains_key(id.0) {
                final(self)@ == old(self)@
            } else if let Some(reason) = promotion_failure(
                old(self)@.dormant_remote[id.0],
                restore_allowed,
                loaded,
            ) {
                final(self)@ == old(self)@.failure_shown(id, reason)
            } else {
                let descriptor = old(self)@.dormant_remote[id.0];
                let window = promoted_window(
                    id,
                    descriptor,
                    if restore_allowed {
                        window_model(loaded->Ok_0)
                    } else {
                        None
                    },
                    root,
                    seed,
                    spec,
                    restore_allowed,
                    old(self)@.config.terminal_width,
                    old(self)@.config.terminal_height,
                );
                final(self)@ == EditorModel {
                    dormant_remote: old(self)@.dormant_remote.remove(id.0),
                    ..old(self)@
                }.connected(id, window).refreshed_after_promotion(id, old(self)@.authority_label())
            },
    {
        let ghost before = self@;
        if !self.dormant_remote.contains_key(&id.0) {
            return ;
        }
        let restored = if restore_allowed {
            match loaded {
                Ok(Some(window)) => Some(window),
                Ok(None) => match self.saved_identity(id) {
                    Some(stable_id) => {
                        self.show_failure(id, Rejection::WorkspaceNotFound { id: stable_id });
                        return ;
                    },
                    None => None,
                },
                Err(reason) => {
                    self.show_failure(id, Rejection::Text(reason));
                    return ;
                },
            }
        } else {
            None
        };
        let previous_label = match self.windows.get(&self.active_window.0) {
            Some(window) => window.authority.display_label.clone(),
            None => String::new(),
        };
        let descriptor = match self.dormant_remote.remove(&id.0) {
            Some(descriptor) => descriptor,
            None => {
                return ;
            },
        };
        let mut window = match restored {
            Some(window) => window,
            None => {
                let mut window = Window::new(
                    id,
                    descriptor.label.clone(),
                    root.clone(),
                    seed.stable_id,
                    seed.authority.duplicate(),
                    self.config.terminal_width,
                    self.config.terminal_height,
                );
                window.seed(
                    seed.scratch.buffer,
                    seed.scratch.state,
                    seed.scratch.metadata,
                    seed.scratch.log,
                );
                window
            },
        };
        window.id = id;
        window.label = descriptor.label.clone();
        window.root = root;
        window.authority = seed.authority;
        if let Some(stable_id) = descriptor.stable_id {
            if !stable_id.as_str().is_empty() {
                window.stable_id = stable_id;
            }
        }
        window.terminal_width = self.config.terminal_width;
        window.terminal_height = self.config.terminal_height;
        if restore_allowed {
            window.plugin_state = descriptor.plugin_state.clone();
        }
        window.authority_spec = spec;
        window.set_status_message(Notice::ConnectedTo { label: descriptor.label });
        self.put_window(id, window);
        self.remote.keepalives.insert(id.0);
        let snapshot = Effect::RefreshSnapshot {
            target: SnapshotTarget::Shared,
            window: self.active_window,
            scope: None,
        };
        if self.active_window == id {
            self.emit(Effect::AdoptAuthority { previous_label });
            self.emit(snapshot);
            self.emit(Effect::SyncTerminalMode);
            self.emit(Effect::Relayout);
        } else {
            self.emit(snapshot);
        }
    }
}

/// Whether anything is filed under a terminal of `window`.
pub open spec fn mentions_terminal(window: WindowModel) -> spec_fn(u64) -> bool {
    |k: u64|
        {
            ||| window.terminals.live.contains_key(k)
            ||| exists|b: u64|
                #[trigger] window.terminals.bindings.contains_key(b)
                    && window.terminals.bindings[b].0 == k
            ||| window.terminals.companions.contains_key(k)
            ||| window.terminals.commands.contains_key(k)
            ||| window.terminals.script_tokens.contains(k)
        }
}

/// Whether a process belongs to the window `id`.
pub open spec fn owned_by(owners: Map<u64, WindowId>, id: WindowId) -> spec_fn(u64) -> bool {
    |k: u64| owners.contains_key(k) && owners[k] == id
}

/// The processes that do not belong to the window `id`.
pub open spec fn not_owned_by(owners: Map<u64, WindowId>, id: WindowId) -> Map<u64, WindowId> {
    Map::new(|k: u64| owners.contains_key(k) && owners[k] != id, |k: u64| owners[k])
}

/// The effects that close terminals.
pub open spec fn close_effects(window: WindowId, terminals: Seq<u64>) -> Seq<EffectModel> {
    terminals.map_values(
        |k: u64| EffectModel::Plain(Effect::CloseTerminal { window, terminal: TerminalId(k) }),
    )
}

/// The effects that abort background processes.
pub open spec fn abort_effects(processes: Seq<u64>) -> Seq<EffectModel> {
    processes.map_values(
        |process_id: u64| EffectModel::Plain(Effect::AbortBackground { process_id }),
    )
}

/// The effects that kill host processes.
pub open spec fn kill_effects(processes: Seq<u64>) -> Seq<EffectModel> {
    processes.map_values(|process_id: u64| EffectModel::Plain(Effect::KillProcess { process_id }))
}

impl EditorModel {
    /// This editor with everything stopped that runs for the window `id`.
    pub open spec fn runtime_stopped(self, id: WindowId) -> EditorModel {
        let window = self.window(id);
        let mentioned = sorted_members(mentions_terminal(window));
        let live = sorted_members(|k: u64| window.terminals.live.contains_key(k));
        let background = sorted_members(owned_by(self.processes.background, id));
        let host = sorted_members(owned_by(self.processes.host, id));
        EditorModel {
            tombstones: self.tombstones.filter(
                |t: WindowTerminalId| t.window != id || !mentions_terminal(window)(t.terminal.0),
            ),
            processes: OwnersModel {
                host: not_owned_by(self.processes.host, id),
                background: not_owned_by(self.processes.background, id),
            },
            ..self
        }.asking_all(purge_effects(id, mentioned)).emitting(
            Effect::UnwatchWindow { window: id },
        ).emitting(Effect::RevokeScriptTokens { window: id }).asking_all(
            close_effects(id, live),
        ).asking(EffectModel::KillGroups { targets: window.terminals.groups }).asking_all(
            abort_effects(background),
        ).asking_all(kill_effects(host))
    }

    /// This editor with a new window in the place of the window `id`, which
    /// keeps nothing but its identity and, where no label is given, its label.
    pub open spec fn window_replaced(
        self,
        id: WindowId,
        root: Arc<WorkspaceRoot>,
        label: Option<String>,
        seed: WindowSeed,
        spec: AuthoritySpec,
    ) -> EditorModel {
        let before = self.window(id);
        let stopped = self.runtime_stopped(id);
        let window = WindowModel {
            authority_spec: spec,
            ..WindowModel::fresh(
                id,
                match label {
                    Some(label) => label@,
                    None => before.label,
                },
                root,
                before.stable_id,
                seed.authority,
                self.config.terminal_width,
                self.config.terminal_height,
            ).seeded_with(seed.scratch)
        }.with_status(Some(Notice::Connected));
        let forgotten = EditorModel {
            remote: RemoteModel {
                keepalives: stopped.remote.keepalives.remove(id.0),
                ..stopped.remote
            },
            ..stopped
        }.remote_forgotten(id).forwarder_stopped(before.authority).connected(id, window);
        let adopted = if self.active_window == id {
            forgotten.emitting(
                Effect::AdoptAuthority { previous_label: before.authority.display_label },
            ).emitting(Effect::SyncTerminalMode).emitting(Effect::Relayout)
        } else {
            forgotten
        };
        adopted.emitting(
            Effect::RefreshSnapshot {
                target: SnapshotTarget::Shared,
                window: self.active_window,
                scope: None,
            },
        )
    }
}

/// Takes the processes of the window `id` out of `owners`.
fn take_owned(owners: &mut BTreeMap<u64, WindowId>, id: WindowId) -> (owned: Vec<u64>)
    ensures
        owned@ == sorted_members(owned_by(old(owners)@, id)),
        final(owners)@ == not_owned_by(old(owners)@, id),
{
    let ghost before = owners@;
    let all = sorted_keys(owners);
    let mut owned: Vec<u64> = Vec::new();
    let mut at: usize = 0;
    while at < all.len()
        invariant
            at <= all.len(),
            is_sorted_domain(all@, before),
            crate::lists::is_increasing(owned@),
            forall|i: int| 0 <= i < owned@.len() ==> all@.take(at as int).contains(
                #[trigger] owned@[i],
            ),
            forall|k: u64| #[trigger]
                owned@.contains(k) <==> all@.take(at as int).contains(k) && before[k] == id,
            forall|k: u64|
                #![trigger owners@.contains_key(k)]
                owners@.contains_key(k) <==> before.contains_key(k) && !owned@.contains(k),
            forall|k: u64| #[trigger] owners@.contains_key(k) ==> owners@[k] == before[k],
        decreases all.len() - at,
    {
        let key = all[at];
        proof {
            let done = all@.take(at as int);
            let next = all@.take(at + 1);
            assert(next =~= done.push(key));
            assert(all@.contains(key));
            assert(before.contains_key(key));
            assert forall|k: u64| next.contains(k) <==> k == key || done.contains(k) by {
                if next.contains(k) {
                    let i = next.index_of(k);
                    if i < done.len() {
                        assert(done[i] == k);
                    }
                }
                if done.contains(k) {
                    let i = done.index_of(k);
                    assert(next[i] == k);
                }
                assert(next[done.len() as int] == key);
            }
            assert(!done.contains(key)) by {
                if done.contains(key) {
                    let i = done.index_of(key);
                    assert(all@[i] == all@[at as int]);
                }
            }
            assert(!owned@.contains(key));
            assert(owners@.contains_key(key));
        }
        let ghost owned_before = owned@;
        if let Some(owner) = owners.get(&key) {
            if *owner == id {
                owners.remove(&key);
                owned.push(key);
                proof {
                    assert forall|k: u64| #[trigger]
                        owned@.contains(k) <==> k == key || owned_before.contains(k) by {
                        if owned_before.contains(k) {
                            let i = owned_before.index_of(k);
                            assert(owned@[i] == k);
                        }
                        assert(owned@[owned_before.len() as int] == key);
                        if owned@.contains(k) {
                            let i = owned@.index_of(k);
                            if i < owned_before.len() {
                                assert(owned_before[i] == k);
                            }
                        }
                    }
                    assert forall|i: int, j: int|
                        0 <= i < j < owned@.len() implies owned@[i] < owned@[j] by {
                        if j == owned_before.len() {
                            let done = all@.take(at as int);
                            assert(done.contains(owned_before[i]));
                            let n = done.index_of(owned_before[i]);
                            assert(all@[n] < all@[at as int]);
                        }
                    }
                }
            }
        }
        at = at + 1;
    }
    proof {
        assert(all@.take(all@.len() as int) =~= all@);
        assert forall|k: u64| #[trigger] owned@.contains(k) <==> owned_by(before, id)(k) by {
            assert(all@.contains(k) <==> before.contains_key(k));
        }
        lemma_sorted_members(owned@, owned_by(before, id));
        assert(owners@ =~= not_owned_by(before, id));
    }
    owned
}

/// The terminals that anything is filed under in `window`.
fn mentioned_terminals(window: &Window) -> (terminals: Vec<u64>)
    ensures
        terminals@ == sorted_members(mentions_terminal(window@)),
        crate::lists::is_increasing(terminals@),
        forall|k: u64| #[trigger] terminals@.contains(k) <==> mentions_terminal(window@)(k),
{
    let live = sorted_keys(&window.terminals.live);
    let companions = sorted_keys(&window.terminals.companions);
    let commands = sorted_keys(&window.terminals.commands);
    let tokens = sorted_set(&window.terminals.script_tokens);
    let bindings = sorted_keys(&window.terminals.bindings);
    let mut shown: Vec<u64> = Vec::new();
    let mut at: usize = 0;
    while at < bindings.len()
        invariant
            at <= bindings.len(),
            is_sorted_domain(bindings@, window.terminals.bindings@),
            shown@.len() == at,
            forall|i: int|
                0 <= i < at ==> #[trigger] shown@[i]
                    == window.terminals.bindings@[bindings@[i]].0,
        decreases bindings.len() - at,
    {
        let key = bindings[at];
        proof {
            assert(bindings@.contains(key));
        }
        if let Some(terminal) = window.terminals.bindings.get(&key) {
            shown.push(terminal.0);
        }
        at = at + 1;
    }
    let merged = merge_sorted(live, &companions);
    let merged = merge_sorted(merged, &commands);
    let merged = merge_sorted(merged, &tokens);
    let merged = merge_sorted(merged, &shown);
    proof {
        let model = window@;
        assert forall|k: u64| #[trigger] merged@.contains(k) <==> mentions_terminal(model)(k) by {
            if shown@.contains(k) {
                let i = shown@.index_of(k);
                assert(bindings@.contains(bindings@[i]));
                assert(model.terminals.bindings.contains_key(bindings@[i]));
            }
            if exists|b: u64|
                #[trigger] model.terminals.bindings.contains_key(b)
                    && model.terminals.bindings[b].0 == k {
                let b = choose|b: u64| #[trigger]
                    model.terminals.bindings.contains_key(b) && model.terminals.bindings[b].0 == k;
                assert(bindings@.contains(b));
                let i = bindings@.index_of(b);
                assert(shown@[i] == k);
            }
        }
        lemma_sorted_members(merged@, mentions_terminal(model));
    }
    merged
}

impl Editor {
    /// Asks the host to close terminals of a window.
    pub(crate) fn emit_closes(&mut self, window: WindowId, keys: &Vec<u64>)
        ensures
            final(self)@ == old(self)@.asking_all(close_effects(window, keys@)),
    {
        let ghost before = self@;
        let ghost effects = close_effects(window, keys@);
        let mut at: usize = 0;
        proof {
            assert(before.asking_all(effects.take(0)).outbox =~= before.outbox);
        }
        while at < keys.len()
            invariant
                at <= keys.len(),
                effects == close_effects(window, keys@),
                self@ == before.asking_all(effects.take(at as int)),
            decreases keys.len() - at,
        {
            self.emit(Effect::CloseTerminal { window, terminal: TerminalId(keys[at]) });
            proof {
                assert(before.asking_all(effects.take(at as int)).outbox.push(effects[at as int])
                    =~= before.asking_all(effects.take(at + 1)).outbox);
            }
            at = at + 1;
        }
        proof {
            assert(effects.take(effects.len() as int) =~= effects);
        }
    }

    /// Asks the host to stop processes, in the background or on the host.
    fn emit_process_stops(&mut self, keys: &Vec<u64>, background: bool)
        ensures
            final(self)@ == old(self)@.asking_all(
                if background {
                    abort_effects(keys@)
                } else {
                    kill_effects(keys@)
                },
            ),
    {
        let ghost before = self@;
        let ghost effects = if background {
            abort_effects(keys@)
        } else {
            kill_effects(keys@)
        };
        let mut at: usize = 0;
        proof {
            assert(before.asking_all(effects.take(0)).outbox =~= before.outbox);
        }
        while at < keys.len()
            invariant
                at <= keys.len(),
                effects == (if background {
                    abort_effects(keys@)
                } else {
                    kill_effects(keys@)
                }),
                self@ == before.asking_all(effects.take(at as int)),
            decreases keys.len() - at,
        {
            if background {
                self.emit(Effect::AbortBackground { process_id: keys[at] });
            } else {
                self.emit(Effect::KillProcess { process_id: keys[at] });
            }
            proof {
                assert(before.asking_all(effects.take(at as int)).outbox.push(effects[at as int])
                    =~= before.asking_all(effects.take(at + 1)).outbox);
            }
            at = at + 1;
        }
        proof {
            assert(effects.take(effects.len() as int) =~= effects);
        }
    }

    /// Stops everything that runs for a window.
    fn stop_window_runtime(&mut self, id: WindowId)
        requires
            old(self)@.has(id),
        ensures
            final(self)@ == old(self)@.runtime_stopped(id),
    {
        let ghost before = self@;
        let ghost window = before.window(id);
        if let Some(found) = self.windows.get(&id.0) {
            let mentioned = mentioned_terminals(found);
            let live = sorted_keys(&found.terminals.live);
            let targets = found.terminals.process_groups.snapshot();
            proof {
                lemma_sorted_members(live@, |k: u64| window.terminals.live.contains_key(k));
            }
            let ghost kept = |t: WindowTerminalId|
                t.window != id || !mentions_terminal(window)(t.terminal.0);
            let keep = |t: &WindowTerminalId| -> (b: bool)
                ensures
                    b == (t.window != id || !mentioned@.contains(t.terminal.0)),
            {
                t.window != id || !holds_number(&mentioned, t.terminal.0)
            };
            retain_where(&mut self.tombstones, keep, Ghost(kept));
            self.emit_purges(id, &mentioned);
            self.emit(Effect::UnwatchWindow { window: id });
            self.emit(Effect::RevokeScriptTokens { window: id });
            self.emit_closes(id, &live);
            self.emit(Effect::KillGroups { targets });
            let background = take_owned(&mut self.processes.background, id);
            self.emit_process_stops(&background, true);
            let host = take_owned(&mut self.processes.host, id);
            self.emit_process_stops(&host, false);
        }
    }

    /// Replaces the window of a remote session by an empty one on another
    /// backend. Nothing of the old backend is carried over.
    pub fn replace_remote_window_without_restore(
        &mut self,
        id: WindowId,
        root: Arc<WorkspaceRoot>,
        label: Option<String>,
        seed: WindowSeed,
        spec: AuthoritySpec,
    )
        ensures
            final(self)@ == if old(self)@.has(id) {
                old(self)@.window_replaced(id, root, label, seed, spec)
            } else {
                old(self)@
            },
    {
        if !self.has_window(id) {
            return ;
        }
        let ghost before = self@;
        self.stop_window_runtime(id);
        let ghost stopped = self@;
        let taken = self.take_window(id);
        if let Some(old_window) = taken {
            let authority = old_window.authority;
            let label = match label {
                Some(label) => label,
                None => old_window.label,
            };
            let mut window = Window::new(
                id,
                label,
                root,
                old_window.stable_id,
                seed.authority,
                self.config.terminal_width,
                self.config.terminal_height,
            );
            window.seed(
                seed.scratch.buffer,
                seed.scratch.state,
                seed.scratch.metadata,
                seed.scratch.log,
            );
            window.authority_spec = spec;
            window.set_status_message(Notice::Connected);
            self.remote.keepalives.remove(&id.0);
            self.forget_reattach(id);
            self.remote.connected_cache.remove(&id.0);
            if let Some(channel) = authority.remote {
                if let Some(channel) = channel.id {
                    self.emit(Effect::StopForwarder { channel });
                }
            }
            let ghost made = window@;
            self.put_window(id, window);
            self.remote.keepalives.insert(id.0);
            proof {
                assert(stopped.windows.remove(id.0).insert(id.0, made)
                    =~= stopped.windows.insert(id.0, made));
            }
            if self.active_window == id {
                self.emit(Effect::AdoptAuthority { previous_label: authority.display_label });
                self.emit(Effect::SyncTerminalMode);
                self.emit(Effect::Relayout);
            }
            self.emit(
                Effect::RefreshSnapshot {
                    target: SnapshotTarget::Shared,
                    window: self.active_window,
                    scope: None,
                },
            );
        }
    }
}

/// Whether `numbers` holds `number`.
pub(crate) fn holds_number(numbers: &Vec<u64>, number: u64) -> (found: bool)
    ensures
        found == numbers@.contains(number),
{
    let mut at: usize = 0;
    while at < numbers.len()
        invariant
            at <= numbers.len(),
            forall|i: int| 0 <= i < at ==> numbers@[i] != number,
        decreases numbers.len() - at,
    {
        if numbers[at] == number {
            return true;
        }
        at = at + 1;
    }
    false
}

} // verus!
