//! The editor-wide part of snapshots, and how snapshots are kept up to date.
use std::collections::BTreeMap;
use std::sync::Arc;
use vstd::prelude::*;

use crate::authority::AuthoritySpec;
use crate::authority::TrustLevel;
use crate::editor::DormantRemote;
use crate::editor::Editor;
use crate::editor::EditorModel;
use crate::effects::Effect;
use crate::ids::AuthorityStamp;
use crate::ids::BufferId;
use crate::ids::LeafId;
use crate::ids::SplitId;
use crate::ids::TerminalId;
use crate::ids::WindowId;
use crate::ids::WindowTerminalId;
use crate::lists::first_match;
use crate::lists::is_sorted_domain;
use crate::lists::lemma_first_match_found;
use crate::lists::lemma_first_match_none;
use crate::lists::lemma_sorted_members;
use crate::lists::merge_sorted;
use crate::lists::sorted_keys;
use crate::lists::sorted_members;
use crate::plugin_path::spell_path;
use crate::plugin_path::spelt;
use crate::snapshot::global_models;
use crate::snapshot::marker_models;
use crate::snapshot::window_info_models;
use crate::snapshot::EditorPart;
use crate::snapshot::EditorStateSnapshot;
use crate::snapshot::GlobalState;
use crate::snapshot::Marker;
use crate::snapshot::RemoteBackend;
use crate::snapshot::SnapshotModel;
use crate::snapshot::SnapshotSources;
use crate::snapshot::WindowInfo;
use crate::snapshot::WindowInfoModel;
use crate::text::same_text;
use crate::text_map::TextMap;
use crate::window::StateEntry;
use crate::window::StateValue;
use crate::window::Window;
use crate::window::WindowModel;
use crate::window_snapshot::with_missing;

verus! {

/// Whether an entry is the value `key` of `plugin`.
pub open spec fn is_entry(plugin: Seq<char>, key: Seq<char>) -> spec_fn(StateEntry) -> bool {
    |e: StateEntry| e.plugin@ == plugin && e.key@ == key
}

/// The project that the session manager has recorded for a session, where it
/// has recorded one.
pub open spec fn recorded_project(state: Seq<StateEntry>) -> Option<Seq<char>> {
    match first_match(state, is_entry("orchestrator"@, "project_path"@)) {
        Some(entry) => match entry.value {
            StateValue::Text(path) => if path@.len() > 0 {
                Some(path@)
            } else {
                None
            },
            _ => None,
        },
        None => None,
    }
}

/// Whether the session manager has recorded that a session shares its
/// worktree.
pub open spec fn recorded_sharing(state: Seq<StateEntry>) -> bool {
    match first_match(state, is_entry("orchestrator"@, "shared_worktree"@)) {
        Some(entry) => match entry.value {
            StateValue::Flag(shared) => shared,
            _ => false,
        },
        None => false,
    }
}

/// What is shown of a session's remote backend.
pub open spec fn backend_info(spec: AuthoritySpec, connected: bool) -> Option<RemoteBackend> {
    match spec {
        AuthoritySpec::RemoteAgent(spec) => Some(RemoteBackend { spec, connected }),
        _ => None,
    }
}

impl WindowModel {
    /// Whether a terminal runs and a buffer shows it.
    pub open spec fn is_live_tab(self, terminal: TerminalId) -> bool {
        &&& exists|buffer: u64| #[trigger]
            self.terminals.bindings.contains_key(buffer) && self.terminals.bindings[buffer]
                == terminal
        &&& self.terminals.live.contains_key(terminal.0)
        &&& self.terminals.live[terminal.0].alive
    }

    /// What plugins see of this session, whose id is `id`.
    pub open spec fn session_info(self, id: u64, spellings: Map<Seq<char>, String>) -> WindowInfoModel {
        WindowInfoModel {
            id: WindowId(id),
            stable_id: self.stable_id,
            label: self.label,
            root: spelt(spellings, self.root.path@),
            project_path: spelt(
                spellings,
                match recorded_project(self.plugin_state) {
                    Some(path) => path,
                    None => self.root.path@,
                },
            ),
            shared_worktree: recorded_sharing(self.plugin_state),
            remote: backend_info(self.authority_spec, self.authority.is_connected()),
            selected_agent_terminal: match self.terminals.tracked_agent {
                Some(terminal) => if self.is_live_tab(terminal) {
                    Some(WindowTerminalId { window: WindowId(id), terminal })
                } else {
                    None
                },
                None => None,
            },
        }
    }
}

/// What plugins see of a session that is known and not connected.
pub open spec fn dormant_info(
    dormant: DormantRemote,
    id: u64,
    spellings: Map<Seq<char>, String>,
) -> WindowInfoModel {
    WindowInfoModel {
        id: WindowId(id),
        stable_id: match dormant.stable_id {
            Some(id) => id@,
            None => Seq::empty(),
        },
        label: dormant.label@,
        root: spelt(spellings, dormant.root.path@),
        project_path: spelt(
            spellings,
            match recorded_project(dormant.plugin_state@) {
                Some(path) => path,
                None => match dormant.project_path {
                    Some(path) => path@,
                    None => dormant.root.path@,
                },
            },
        ),
        shared_worktree: dormant.shared_worktree,
        remote: backend_info(dormant.authority_spec, false),
        selected_agent_terminal: None,
    }
}

/// The global values of plugins, with those of the editor where a plugin has
/// not written a newer one.
pub open spec fn merged_globals(
    present: Map<Seq<char>, Map<Seq<char>, Arc<String>>>,
    states: Seq<GlobalState>,
) -> Map<Seq<char>, Map<Seq<char>, Arc<String>>>
    decreases states.len(),
{
    if states.len() == 0 {
        present
    } else {
        let before = merged_globals(present, states.drop_last());
        let plugin = states.last().plugin@;
        before.insert(
            plugin,
            with_missing(
                if before.contains_key(plugin) {
                    before[plugin]
                } else {
                    Map::empty()
                },
                states.last().values@,
            ),
        )
    }
}

impl EditorModel {
    /// All sessions, those without a window among them, by their ids.
    pub open spec fn session_ids(self) -> Seq<u64> {
        sorted_members(
            |k: u64| self.windows.contains_key(k) || self.dormant_remote.contains_key(k),
        )
    }

    /// What plugins see of the sessions `ids`, or of the one in `scope`. A
    /// session that has a window is seen as that window.
    pub open spec fn session_infos(
        self,
        ids: Seq<u64>,
        scope: Option<WindowId>,
        spellings: Map<Seq<char>, String>,
    ) -> Seq<WindowInfoModel>
        decreases ids.len(),
    {
        if ids.len() == 0 {
            Seq::empty()
        } else {
            let before = self.session_infos(ids.drop_last(), scope, spellings);
            let id = ids.last();
            if scope is Some && scope != Some(WindowId(id)) {
                before
            } else if self.windows.contains_key(id) {
                before.push(self.windows[id].session_info(id, spellings))
            } else {
                before.push(dormant_info(self.dormant_remote[id], id, spellings))
            }
        }
    }

    /// Whether any window has `buffer` open.
    pub open spec fn is_open_anywhere(self, buffer: u64) -> bool {
        exists|id: u64| #[trigger]
            self.windows.contains_key(id) && self.windows[id].documents.buffers.contains_key(buffer)
    }

    /// The markers of buffers that are open in any window.
    pub open spec fn open_markers(self, markers: Map<u64, Map<u64, Marker>>) -> Map<
        u64,
        Map<u64, Marker>,
    > {
        Map::new(
            |buffer: u64| markers.contains_key(buffer) && self.is_open_anywhere(buffer),
            |buffer: u64| markers[buffer],
        )
    }

    /// What a snapshot shows of this editor as a whole.
    pub open spec fn shown_whole(
        self,
        before: EditorPart,
        scope: Option<WindowId>,
        sources: SnapshotSources,
    ) -> EditorPart {
        EditorPart {
            clipboard: sources.clipboard@,
            working_dir: self.active().root.path@,
            terminal_width: self.config.terminal_width,
            terminal_height: self.config.terminal_height,
            authority_label: self.active().authority.display_label@,
            trust: self.active().authority.trust,
            env_active: self.active().authority.env_active,
            detected_env: sources.detected_env@,
            windows: self.session_infos(self.session_ids(), scope, sources.spellings@),
            active_window: self.active_window,
            config: sources.config,
            user_config: sources.user_config,
            global_states: merged_globals(before.global_states, sources.global_state@),
        }
    }

    /// A snapshot brought up to date but for its markers.
    pub open spec fn shown_in(
        self,
        before: SnapshotModel,
        scope: Option<WindowId>,
        sources: SnapshotSources,
    ) -> SnapshotModel {
        SnapshotModel {
            window: self.active().populated(
                self.active().documents.layout->0,
                before.window,
                sources.grammars,
            ),
            editor: self.shown_whole(before.editor, scope, sources),
            ..before
        }
    }

    /// The shared snapshot brought up to date. It keeps the markers of all
    /// buffers that any window has open.
    pub open spec fn shared_refreshed(
        self,
        before: SnapshotModel,
        sources: SnapshotSources,
    ) -> SnapshotModel {
        let shown = self.shown_in(before, None, sources);
        SnapshotModel {
            markers: self.open_markers(before.markers),
            host_revision: if before.host_revision == u64::MAX {
                0
            } else {
                (before.host_revision + 1) as u64
            },
            ..shown
        }
    }

    /// A snapshot of one invocation brought up to date. It takes markers and
    /// the labels of key bindings from the shared snapshot, and shows the
    /// markers of the active window's buffers only.
    pub open spec fn private_refreshed(
        self,
        before: SnapshotModel,
        scope: Option<WindowId>,
        sources: SnapshotSources,
    ) -> SnapshotModel {
        let (markers, labels) = match self.shared_snapshot {
            Some(shared) => (shared.markers, shared.keybinding_labels),
            None => (before.markers, before.keybinding_labels),
        };
        SnapshotModel {
            markers: Map::new(
                |buffer: u64|
                    markers.contains_key(buffer) && self.active().documents.buffers.contains_key(
                        buffer,
                    ),
                |buffer: u64| markers[buffer],
            ),
            keybinding_labels: labels,
            ..self.shown_in(before, scope, sources)
        }
    }

    /// Whether the active window can be shown: it is there and laid out.
    pub open spec fn is_showable(self) -> bool {
        self.has_active() && self.active().documents.layout is Some
    }
}

/// The value `key` of `plugin`.
fn find_entry<'a>(state: &'a Vec<StateEntry>, plugin: &str, key: &str) -> (found: Option<
    &'a StateEntry,
>)
    ensures
        match found {
            Some(e) => first_match(state@, is_entry(plugin@, key@)) == Some(*e),
            None => first_match(state@, is_entry(plugin@, key@)) is None,
        },
{
    let ghost wanted = is_entry(plugin@, key@);
    let mut at: usize = 0;
    while at < state.len()
        invariant
            at <= state.len(),
            wanted == is_entry(plugin@, key@),
            forall|i: int| 0 <= i < at ==> !wanted(#[trigger] state@[i]),
        decreases state.len() - at,
    {
        if same_text(state[at].plugin.as_str(), plugin) && same_text(state[at].key.as_str(), key) {
            proof {
                lemma_first_match_found(state@, wanted, at as int);
            }
            return Some(&state[at]);
        }
        at = at + 1;
    }
    proof {
        lemma_first_match_none(state@, wanted);
    }
    None
}

/// The project that the session manager has recorded for a session.
fn find_project(state: &Vec<StateEntry>) -> (project: Option<String>)
    ensures
        match project {
            Some(path) => recorded_project(state@) == Some(path@),
            None => recorded_project(state@) is None,
        },
{
    match find_entry(state, "orchestrator", "project_path") {
        Some(entry) => match &entry.value {
            StateValue::Text(path) => if path.as_str().unicode_len() > 0 {
                Some(path.clone())
            } else {
                None
            },
            _ => None,
        },
        None => None,
    }
}

/// Whether the session manager has recorded that a session shares its
/// worktree.
fn find_sharing(state: &Vec<StateEntry>) -> (shared: bool)
    ensures
        shared == recorded_sharing(state@),
{
    match find_entry(state, "orchestrator", "shared_worktree") {
        Some(entry) => match &entry.value {
            StateValue::Flag(shared) => *shared,
            _ => false,
        },
        None => false,
    }
}

/// What is shown of a session's remote backend.
fn remote_backend_info(spec: &AuthoritySpec, connected: bool) -> (info: Option<RemoteBackend>)
    ensures
        info == backend_info(*spec, connected),
{
    match spec {
        AuthoritySpec::RemoteAgent(spec) => Some(RemoteBackend { spec: spec.clone(), connected }),
        _ => None,
    }
}

impl Window {
    /// Whether a terminal runs and a buffer shows it.
    fn has_live_tab(&self, terminal: TerminalId) -> (live: bool)
        ensures
            live == self@.is_live_tab(terminal),
    {
        let running = match self.terminals.live.get(&terminal.0) {
            Some(handle) => handle.alive,
            None => false,
        };
        if !running {
            return false;
        }
        let buffers = sorted_keys(&self.terminals.bindings);
        let mut at: usize = 0;
        while at < buffers.len()
            invariant
                at <= buffers.len(),
                is_sorted_domain(buffers@, self@.terminals.bindings),
                self@.terminals.live.contains_key(terminal.0),
                self@.terminals.live[terminal.0].alive,
                forall|i: int|
                    0 <= i < at ==> self@.terminals.bindings[#[trigger] buffers@[i]] != terminal,
            decreases buffers.len() - at,
        {
            let buffer = buffers[at];
            proof {
                assert(buffers@.contains(buffer));
            }
            if let Some(shown) = self.terminals.bindings.get(&buffer) {
                if *shown == terminal {
                    proof {
                        assert(self@.terminals.bindings.contains_key(buffer));
                    }
                    return true;
                }
            }
            at = at + 1;
        }
        proof {
            assert forall|buffer: u64| #[trigger]
                self@.terminals.bindings.contains_key(buffer) implies self@.terminals.bindings[buffer]
                != terminal by {
                assert(buffers@.contains(buffer));
                let i = buffers@.index_of(buffer);
                assert(buffers@[i] == buffer);
            }
        }
        false
    }

    /// What plugins see of this session, whose id is `id`.
    fn session_info(&self, id: u64, spellings: &TextMap<String>) -> (info: WindowInfo)
        ensures
            info@ == self@.session_info(id, spellings@),
    {
        let connected = match &self.authority.remote {
            Some(channel) => channel.connected,
            None => false,
        };
        let selected_agent_terminal = match self.terminals.tracked_agent {
            Some(terminal) => if self.has_live_tab(terminal) {
                Some(WindowTerminalId { window: WindowId(id), terminal })
            } else {
                None
            },
            None => None,
        };
        WindowInfo {
            id: WindowId(id),
            stable_id: self.stable_id.clone(),
            label: self.label.clone(),
            root: spell_path(spellings, self.root.path.as_str()),
            project_path: match find_project(&self.plugin_state) {
                Some(path) => spell_path(spellings, path.as_str()),
                None => spell_path(spellings, self.root.path.as_str()),
            },
            shared_worktree: find_sharing(&self.plugin_state),
            remote: remote_backend_info(&self.authority_spec, connected),
            selected_agent_terminal,
        }
    }
}

impl DormantRemote {
    /// What plugins see of this session, whose id is `id`.
    fn session_info(&self, id: u64, spellings: &TextMap<String>) -> (info: WindowInfo)
        ensures
            info@ == dormant_info(*self, id, spellings@),
    {
        WindowInfo {
            id: WindowId(id),
            stable_id: match &self.stable_id {
                Some(id) => id.clone(),
                None => String::new(),
            },
            label: self.label.clone(),
            root: spell_path(spellings, self.root.path.as_str()),
            project_path: match find_project(&self.plugin_state) {
                Some(path) => spell_path(spellings, path.as_str()),
                None => match &self.project_path {
                    Some(path) => spell_path(spellings, path.as_str()),
                    None => spell_path(spellings, self.root.path.as_str()),
                },
            },
            shared_worktree: self.shared_worktree,
            remote: remote_backend_info(&self.authority_spec, false),
            selected_agent_terminal: None,
        }
    }
}

/// Puts `values` into a map where they are new.
fn add_missing_globals(present: &mut TextMap<Arc<String>>, values: &Vec<(String, Arc<String>)>)
    ensures
        final(present)@ == with_missing(old(present)@, values@),
{
    let ghost before = present@;
    let mut at: usize = 0;
    proof {
        assert(values@.take(0) =~= Seq::<(String, Arc<String>)>::empty());
    }
    while at < values.len()
        invariant
            at <= values.len(),
            present@ == with_missing(before, values@.take(at as int)),
        decreases values.len() - at,
    {
        proof {
            assert(values@.take(at + 1).drop_last() =~= values@.take(at as int));
            assert(values@.take(at + 1).last() == values@[at as int]);
        }
        if !present.contains_key(values[at].0.as_str()) {
            present.insert(values[at].0.clone(), values[at].1.clone());
        }
        at = at + 1;
    }
    proof {
        assert(values@.take(values@.len() as int) =~= values@);
    }
}

/// Adds the global values of the editor, where a plugin has not written a
/// newer one.
fn merge_globals(present: &mut TextMap<TextMap<Arc<String>>>, states: &Vec<GlobalState>)
    ensures
        global_models(final(present)@) == merged_globals(global_models(old(present)@), states@),
{
    let ghost before = global_models(present@);
    let mut at: usize = 0;
    proof {
        assert(states@.take(0) =~= Seq::<GlobalState>::empty());
    }
    while at < states.len()
        invariant
            at <= states.len(),
            global_models(present@) == merged_globals(before, states@.take(at as int)),
        decreases states.len() - at,
    {
        proof {
            assert(states@.take(at + 1).drop_last() =~= states@.take(at as int));
            assert(states@.take(at + 1).last() == states@[at as int]);
        }
        let ghost done = global_models(present@);
        let plugin = &states[at].plugin;
        let mut values = match present.remove(plugin.as_str()) {
            Some(values) => values,
            None => TextMap::new(),
        };
        add_missing_globals(&mut values, &states[at].values);
        let ghost made = values@;
        present.insert(plugin.clone(), values);
        proof {
            assert(global_models(present@) =~= done.insert(states@[at as int].plugin@, made));
        }
        at = at + 1;
    }
    proof {
        assert(states@.take(states@.len() as int) =~= states@);
    }
}

impl Editor {
    /// What plugins see of all sessions, or of the one in `scope`.
    pub fn list_sessions(&self, scope: Option<WindowId>, spellings: &TextMap<String>) -> (infos: Vec<
        WindowInfo,
    >)
        ensures
            window_info_models(infos@) == self@.session_infos(
                self@.session_ids(),
                scope,
                spellings@,
            ),
    {
        let windows = sorted_keys(&self.windows);
        let dormant = sorted_keys(&self.dormant_remote);
        let ids = merge_sorted(windows, &dormant);
        proof {
            lemma_sorted_members(
                ids@,
                |k: u64| self@.windows.contains_key(k) || self@.dormant_remote.contains_key(k),
            );
            assert(ids@.take(0) =~= Seq::<u64>::empty());
        }
        let mut infos: Vec<WindowInfo> = Vec::new();
        proof {
            assert(window_info_models(infos@) =~= Seq::<WindowInfoModel>::empty());
        }
        let mut at: usize = 0;
        while at < ids.len()
            invariant
                at <= ids.len(),
                ids@ == self@.session_ids(),
                forall|k: u64| #[trigger]
                    ids@.contains(k) ==> self@.windows.contains_key(k)
                        || self@.dormant_remote.contains_key(k),
                window_info_models(infos@) == self@.session_infos(
                    ids@.take(at as int),
                    scope,
                    spellings@,
                ),
            decreases ids.len() - at,
        {
            let id = ids[at];
            proof {
                assert(ids@.contains(id));
                assert(ids@.take(at + 1).drop_last() =~= ids@.take(at as int));
                assert(ids@.take(at + 1).last() == id);
            }
            let ghost listed = infos@;
            let in_scope = match scope {
                Some(scope) => scope.0 == id,
                None => true,
            };
            if in_scope {
                match self.windows.get(&id) {
                    Some(window) => {
                        infos.push(window.session_info(id, spellings));
                    },
                    None => {
                        if let Some(dormant) = self.dormant_remote.get(&id) {
                            infos.push(dormant.session_info(id, spellings));
                        }
                    },
                }
                proof {
                    assert(window_info_models(infos@) =~= window_info_models(listed).push(
                        infos@.last()@,
                    ));
                }
            }
            at = at + 1;
        }
        proof {
            assert(ids@.take(ids@.len() as int) =~= ids@);
        }
        infos
    }

    /// Whether any window has `buffer` open.
    fn open_anywhere(&self, windows: &Vec<u64>, buffer: u64) -> (open: bool)
        requires
            is_sorted_domain(windows@, self@.windows),
        ensures
            open == self@.is_open_anywhere(buffer),
    {
        let mut at: usize = 0;
        while at < windows.len()
            invariant
                at <= windows.len(),
                is_sorted_domain(windows@, self@.windows),
                forall|i: int|
                    0 <= i < at
                        ==> !self@.windows[#[trigger] windows@[i]].documents.buffers.contains_key(
                        buffer,
                    ),
            decreases windows.len() - at,
        {
            let id = windows[at];
            proof {
                assert(windows@.contains(id));
            }
            if let Some(window) = self.windows.get(&id) {
                if window.documents.buffers.contains_key(&buffer) {
                    proof {
                        assert(self@.windows.contains_key(id));
                    }
                    return true;
                }
            }
            at = at + 1;
        }
        proof {
            assert forall|id: u64| #[trigger]
                self@.windows.contains_key(
                    id,
                ) implies !self@.windows[id].documents.buffers.contains_key(buffer) by {
                assert(windows@.contains(id));
                let i = windows@.index_of(id);
                assert(windows@[i] == id);
            }
        }
        false
    }

    /// Drops the markers of buffers that no window has open.
    fn drop_closed_markers(&self, markers: &mut BTreeMap<u64, BTreeMap<u64, Marker>>)
        ensures
            marker_models(final(markers)@) == self@.open_markers(marker_models(old(markers)@)),
    {
        let ghost before = markers@;
        let windows = sorted_keys(&self.windows);
        let keys = sorted_keys(markers);
        proof {
            assert(keys@.take(0) =~= Seq::<u64>::empty());
        }
        let mut at: usize = 0;
        while at < keys.len()
            invariant
                at <= keys.len(),
                is_sorted_domain(keys@, before),
                is_sorted_domain(windows@, self@.windows),
                forall|k: u64| #[trigger]
                    markers@.contains_key(k) <==> before.contains_key(k) && (
                    self@.is_open_anywhere(k) || !keys@.take(at as int).contains(k)),
                forall|k: u64| #[trigger] markers@.contains_key(k) ==> markers@[k] == before[k],
            decreases keys.len() - at,
        {
            let key = keys[at];
            proof {
                crate::window_snapshot::lemma_take_contains(keys@, at as int);
            }
            if !self.open_anywhere(&windows, key) {
                markers.remove(&key);
            }
            at = at + 1;
        }
        proof {
            assert(keys@.take(keys@.len() as int) =~= keys@);
            assert(marker_models(markers@) =~= self@.open_markers(marker_models(before)));
        }
    }

    /// Shows the editor in a snapshot, but for its markers.
    fn show_in(
        &self,
        snapshot: &mut EditorStateSnapshot,
        scope: Option<WindowId>,
        sources: &SnapshotSources,
    )
        requires
            self@.is_showable(),
        ensures
            final(snapshot)@ == self@.shown_in(old(snapshot)@, scope, *sources),
    {
        if let Some(window) = self.windows.get(&self.active_window.0) {
            window.populate_plugin_state_snapshot(snapshot, &sources.grammars);
            snapshot.working_dir = window.root.path.clone();
            snapshot.authority_label = window.authority.display_label.clone();
            snapshot.trust = window.authority.trust;
            snapshot.env_active = window.authority.env_active;
        }
        snapshot.clipboard = sources.clipboard.clone();
        snapshot.terminal_width = self.config.terminal_width;
        snapshot.terminal_height = self.config.terminal_height;
        snapshot.detected_env = sources.detected_env.clone();
        snapshot.windows = self.list_sessions(scope, &sources.spellings);
        snapshot.active_window = self.active_window;
        snapshot.config = sources.config.clone();
        snapshot.user_config = sources.user_config.clone();
        merge_globals(&mut snapshot.global_states, &sources.global_state);
    }

    /// Brings the shared snapshot up to date, and points the plugins' file
    /// access at the backends of the windows.
    pub fn update_plugin_state_snapshot(&mut self, sources: &SnapshotSources)
        requires
            old(self)@.shared_snapshot is Some ==> old(self)@.is_showable(),
        ensures
            final(self)@ == (EditorModel {
                shared_snapshot: match old(self)@.shared_snapshot {
                    Some(shared) => Some(old(self)@.shared_refreshed(shared, *sources)),
                    None => None,
                },
                ..old(self)@
            }).emitting(Effect::RebuildFilesystems { active: old(self)@.active_window }),
    {
        let ghost before = self@;
        if let Some(mut snapshot) = self.shared_snapshot.take() {
            let ghost taken = self@;
            proof {
                assert(taken == (EditorModel { shared_snapshot: None, ..before }));
            }
            self.show_in(&mut snapshot, None, sources);
            self.drop_closed_markers(&mut snapshot.markers);
            snapshot.host_revision = snapshot.host_revision.wrapping_add(1);
            proof {
                let shown = before.shown_in(before.shared_snapshot->0, None, *sources);
                assert(taken.shown_in(before.shared_snapshot->0, None, *sources) == shown) by {
                    lemma_sessions_ignore_snapshot(
                        before,
                        taken,
                        before.session_ids(),
                        None,
                        sources.spellings@,
                    );
                    assert(before.session_ids() == taken.session_ids());
                }
                assert(taken.open_markers(shown.markers) =~= before.open_markers(shown.markers));
                assert(snapshot@ == before.shared_refreshed(before.shared_snapshot->0, *sources));
            }
            self.shared_snapshot = Some(snapshot);
        }
        self.emit(Effect::RebuildFilesystems { active: self.active_window });
    }

    /// Brings the snapshot of one invocation up to date.
    pub fn update_private_snapshot(
        &self,
        snapshot: &mut EditorStateSnapshot,
        scope: Option<WindowId>,
        sources: &SnapshotSources,
    )
        requires
            self@.is_showable(),
        ensures
            final(snapshot)@ == self@.private_refreshed(old(snapshot)@, scope, *sources),
    {
        let ghost before = snapshot@;
        if let Some(shared) = &self.shared_snapshot {
            snapshot.markers = shared.markers.clone();
            snapshot.keybinding_labels = shared.keybinding_labels.clone();
        }
        let ghost inherited = marker_models(snapshot.markers@);
        self.show_in(snapshot, scope, sources);
        let keys = sorted_keys(&snapshot.markers);
        let ghost all = snapshot.markers@;
        let ghost shown = snapshot@;
        proof {
            assert(keys@.take(0) =~= Seq::<u64>::empty());
        }
        let mut at: usize = 0;
        while at < keys.len()
            invariant
                at <= keys.len(),
                is_sorted_domain(keys@, all),
                self@.has_active(),
                snapshot@ == (SnapshotModel { markers: snapshot@.markers, ..shown }),
                forall|k: u64| #[trigger]
                    snapshot.markers@.contains_key(k) <==> all.contains_key(k) && (
                    self@.active().documents.buffers.contains_key(k) || !keys@.take(
                        at as int,
                    ).contains(k)),
                forall|k: u64| #[trigger]
                    snapshot.markers@.contains_key(k) ==> snapshot.markers@[k] == all[k],
            decreases keys.len() - at,
        {
            let key = keys[at];
            proof {
                crate::window_snapshot::lemma_take_contains(keys@, at as int);
            }
            let open = match self.windows.get(&self.active_window.0) {
                Some(window) => window.documents.buffers.contains_key(&key),
                None => false,
            };
            if !open {
                snapshot.markers.remove(&key);
            }
            at = at + 1;
        }
        proof {
            assert(keys@.take(keys@.len() as int) =~= keys@);
            assert(snapshot@.markers =~= self@.private_refreshed(before, scope, *sources).markers);
        }
    }
}

/// What plugins see of the sessions does not rest on the snapshots.
proof fn lemma_sessions_ignore_snapshot(
    a: EditorModel,
    b: EditorModel,
    ids: Seq<u64>,
    scope: Option<WindowId>,
    spellings: Map<Seq<char>, String>,
)
    requires
        b == (EditorModel { shared_snapshot: None, ..a }),
    ensures
        a.session_infos(ids, scope, spellings) == b.session_infos(ids, scope, spellings),
    decreases ids.len(),
{
    if ids.len() > 0 {
        lemma_sessions_ignore_snapshot(a, b, ids.drop_last(), scope, spellings);
    }
}

/// What a plugin is run with: the window it acts for, with the backend that
/// the window had, and its own view of the editor.
#[derive(Debug)]
pub struct PluginInvocation {
    pub window_id: WindowId,
    pub authority: Option<AuthorityStamp>,
    pub state_snapshot: Option<EditorStateSnapshot>,
}

/// A snapshot that shows nothing yet.
pub open spec fn is_empty_snapshot(snapshot: SnapshotModel) -> bool {
    &&& snapshot.window.grammar_generation == 0
    &&& snapshot.window.available_grammars.len() == 0
    &&& snapshot.window.selected_text is None
    &&& snapshot.window.view_states == Map::<u64, Map<Seq<char>, String>>::empty()
    &&& snapshot.editor.global_states == Map::<Seq<char>, Map<Seq<char>, Arc<String>>>::empty()
    &&& snapshot.markers == Map::<u64, Map<u64, Marker>>::empty()
    &&& snapshot.keybinding_labels.len() == 0
    &&& snapshot.host_revision == 0
}

impl EditorStateSnapshot {
    /// A snapshot that shows nothing yet.
    pub fn new() -> (snapshot: EditorStateSnapshot)
        ensures
            is_empty_snapshot(snapshot@),
    {
        let snapshot = EditorStateSnapshot {
            grammar_generation: 0,
            available_grammars: Arc::new(Vec::new()),
            active_buffer: BufferId(0),
            active_split: LeafId(SplitId(0)),
            macros: Vec::new(),
            buffers: BTreeMap::new(),
            saved_diffs: BTreeMap::new(),
            cursor_positions: BTreeMap::new(),
            text_properties: BTreeMap::new(),
            primary_cursor: None,
            primary_cursor_line: None,
            all_cursors: Vec::new(),
            selected_text: None,
            viewport: None,
            splits: Vec::new(),
            session_state: Arc::new(Vec::new()),
            diagnostics: Arc::new(String::new()),
            folding_ranges: Arc::new(String::new()),
            editor_mode: None,
            has_active_search: false,
            view_states: BTreeMap::new(),
            view_states_split: 0,
            markers: BTreeMap::new(),
            keybinding_labels: Arc::new(Vec::new()),
            clipboard: String::new(),
            working_dir: String::new(),
            terminal_width: 0,
            terminal_height: 0,
            authority_label: String::new(),
            trust: TrustLevel::Restricted,
            env_active: false,
            detected_env: String::new(),
            windows: Vec::new(),
            active_window: WindowId(0),
            config: Arc::new(String::new()),
            user_config: Arc::new(String::new()),
            global_states: TextMap::new(),
            host_revision: 0,
        };
        proof {
            assert(snapshot@.window.view_states =~= Map::empty());
            assert(snapshot@.editor.global_states =~= Map::empty());
            assert(snapshot@.markers =~= Map::empty());
        }
        snapshot
    }
}

impl EditorModel {
    /// Whether `snapshot` is what a new invocation for `window` sees.
    pub open spec fn is_invocation_view(
        self,
        window: WindowId,
        scope: Option<WindowId>,
        sources: SnapshotSources,
        snapshot: SnapshotModel,
    ) -> bool {
        exists|fresh: SnapshotModel|
            {
                &&& is_empty_snapshot(fresh)
                &&& snapshot == #[trigger] self.pointing_at(window).private_refreshed(
                    fresh,
                    scope,
                    sources,
                )
            }
    }
}

impl Editor {
    /// A snapshot as `window` sees the editor; of `window` alone where it is
    /// scoped. Absent where there is no such window.
    pub fn create_plugin_snapshot(
        &mut self,
        window: WindowId,
        scoped: bool,
        sources: &SnapshotSources,
    ) -> (snapshot: Option<EditorStateSnapshot>)
        requires
            old(self)@.has(window) ==> old(self)@.window(window).documents.layout is Some,
        ensures
            snapshot is Some <==> old(self)@.has(window),
            snapshot matches Some(s) ==> old(self)@.is_invocation_view(
                window,
                if scoped {
                    Some(window)
                } else {
                    None
                },
                *sources,
                s@,
            ),
            final(self)@ == if old(self)@.has(window) {
                old(self)@.visiting(window)
            } else {
                old(self)@
            },
    {
        if !self.has_window(window) {
            return None;
        }
        let previous = self.active_window;
        let scope = if scoped {
            Some(window)
        } else {
            None
        };
        self.switch_active_window_pointer(window);
        let mut snapshot = EditorStateSnapshot::new();
        let ghost fresh = snapshot@;
        self.update_private_snapshot(&mut snapshot, scope, sources);
        proof {
            assert(snapshot@ == old(self)@.pointing_at(window).private_refreshed(
                fresh,
                scope,
                *sources,
            ));
        }
        self.switch_active_window_pointer(previous);
        Some(snapshot)
    }

    /// Brings the snapshot of one invocation up to date, as `window` sees the
    /// editor. Returns whether there is such a window.
    pub fn update_snapshot_for_window(
        &mut self,
        window: WindowId,
        snapshot: &mut EditorStateSnapshot,
        scope: Option<WindowId>,
        sources: &SnapshotSources,
    ) -> (shown: bool)
        requires
            old(self)@.has(window) ==> old(self)@.window(window).documents.layout is Some,
        ensures
            shown == old(self)@.has(window),
            if shown {
                &&& final(snapshot)@ == old(self)@.pointing_at(window).private_refreshed(
                    old(snapshot)@,
                    scope,
                    *sources,
                )
                &&& final(self)@ == old(self)@.visiting(window)
            } else {
                &&& final(snapshot)@ == old(snapshot)@
                &&& final(self)@ == old(self)@
            },
    {
        if !self.has_window(window) {
            return false;
        }
        let previous = self.active_window;
        self.switch_active_window_pointer(window);
        self.update_private_snapshot(snapshot, scope, sources);
        self.switch_active_window_pointer(previous);
        true
    }

    /// A snapshot that shows `window` alone.
    pub fn create_scoped_plugin_snapshot(&mut self, window: WindowId, sources: &SnapshotSources) -> (snapshot:
        Option<EditorStateSnapshot>)
        requires
            old(self)@.has(window) ==> old(self)@.window(window).documents.layout is Some,
        ensures
            snapshot is Some <==> old(self)@.has(window),
            snapshot matches Some(s) ==> old(self)@.is_invocation_view(
                window,
                Some(window),
                *sources,
                s@,
            ),
            final(self)@ == if old(self)@.has(window) {
                old(self)@.visiting(window)
            } else {
                old(self)@
            },
    {
        self.create_plugin_snapshot(window, true, sources)
    }

    /// The identity of the backend that a window acts through.
    pub fn plugin_authority_stamp(&self, window: WindowId) -> (stamp: Option<AuthorityStamp>)
        ensures
            stamp == if self@.has(window) {
                Some(self@.window(window).authority.stamp)
            } else {
                None
            },
    {
        match self.windows.get(&window.0) {
            Some(window) => Some(window.authority.stamp),
            None => None,
        }
    }

    /// What a plugin is run with that acts for `window`.
    pub fn plugin_invocation(&mut self, window: WindowId, sources: &SnapshotSources) -> (invocation:
        Option<PluginInvocation>)
        requires
            old(self)@.has(window) ==> old(self)@.window(window).documents.layout is Some,
        ensures
            invocation is Some <==> old(self)@.has(window),
            invocation matches Some(i) ==> {
                &&& i.window_id == window
                &&& i.authority == Some(old(self)@.window(window).authority.stamp)
                &&& i.state_snapshot is Some
                &&& old(self)@.is_invocation_view(window, None, *sources, i.state_snapshot->0@)
            },
            final(self)@ == if old(self)@.has(window) {
                old(self)@.visiting(window)
            } else {
                old(self)@
            },
    {
        let authority = self.plugin_authority_stamp(window);
        match self.create_plugin_snapshot(window, false, sources) {
            Some(snapshot) => Some(
                PluginInvocation {
                    window_id: window,
                    authority,
                    state_snapshot: Some(snapshot),
                },
            ),
            None => None,
        }
    }

    /// What a plugin is run with that hears of a window which is gone.
    pub fn closed_plugin_invocation(window: WindowId) -> (invocation: PluginInvocation)
        ensures
            invocation.window_id == window,
            invocation.authority is None,
            invocation.state_snapshot is None,
    {
        PluginInvocation { window_id: window, authority: None, state_snapshot: None }
    }
}

} // verus!
