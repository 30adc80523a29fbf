//! The view of the editor that plugins read.
use std::collections::BTreeMap;
use std::sync::Arc;
use vstd::prelude::*;

use crate::authority::RemoteAgentSpec;
use crate::authority::TrustLevel;
use crate::documents::SavedDiff;
use crate::documents::ViewMode;
use crate::ids::BufferId;
use crate::ids::LeafId;
use crate::ids::WindowId;
use crate::ids::WindowTerminalId;
use crate::text_map::TextMap;
use crate::window::ActionStep;
use crate::window::StateEntry;

verus! {

/// A stretch of a buffer that a plugin keeps track of.
#[derive(Clone, Copy, Debug, PartialEq, Eq, Structural)]
pub struct Marker {
    pub start: u64,
    pub end: u64,
}

/// The visible part of a buffer. The line is absent where the buffer has no
/// line index.
#[derive(Clone, Copy, Debug, PartialEq, Eq, Structural)]
pub struct ViewportInfo {
    pub top_byte: u64,
    pub top_line: Option<u64>,
    pub left_column: u16,
    pub width: u16,
    pub height: u16,
}

/// The two ends of a selection in order.
#[derive(Clone, Copy, Debug, PartialEq, Eq, Structural)]
pub struct Selection {
    pub start: u64,
    pub end: u64,
}

/// A cursor with its selection. The line is absent where the buffer has no
/// line index.
#[derive(Clone, Copy, Debug, PartialEq, Eq, Structural)]
pub struct CursorInfo {
    pub position: u64,
    pub selection: Option<Selection>,
    pub line: Option<u64>,
}

/// What plugins see of a buffer.
#[derive(Debug)]
pub struct BufferInfo {
    pub id: BufferId,
    pub path: Option<String>,
    /// The text of the buffer's tab.
    pub name: String,
    pub modified: bool,
    pub length: u64,
    pub line_count: Option<u64>,
    pub is_virtual: bool,
    pub is_terminal: bool,
    pub editing_disabled: bool,
    /// How the active split lays the buffer out.
    pub view_mode: ViewMode,
    pub is_composing_in_any_split: bool,
    pub compose_width: Option<u16>,
    pub language: String,
    pub is_preview: bool,
    /// The splits that show the buffer.
    pub splits: Vec<LeafId>,
}

/// A [`BufferInfo`] as a mathematical value.
pub struct BufferInfoModel {
    pub id: BufferId,
    pub path: Option<String>,
    pub name: Seq<char>,
    pub modified: bool,
    pub length: u64,
    pub line_count: Option<u64>,
    pub is_virtual: bool,
    pub is_terminal: bool,
    pub editing_disabled: bool,
    pub view_mode: ViewMode,
    pub is_composing_in_any_split: bool,
    pub compose_width: Option<u16>,
    pub language: String,
    pub is_preview: bool,
    pub splits: Seq<LeafId>,
}

impl View for BufferInfo {
    type V = BufferInfoModel;

    open spec fn view(&self) -> BufferInfoModel {
        BufferInfoModel {
            id: self.id,
            path: self.path,
            name: self.name@,
            modified: self.modified,
            length: self.length,
            line_count: self.line_count,
            is_virtual: self.is_virtual,
            is_terminal: self.is_terminal,
            editing_disabled: self.editing_disabled,
            view_mode: self.view_mode,
            is_composing_in_any_split: self.is_composing_in_any_split,
            compose_width: self.compose_width,
            language: self.language,
            is_preview: self.is_preview,
            splits: self.splits@,
        }
    }
}

/// The name of a view mode in the plugin API.
pub open spec fn spec_view_mode_name(mode: ViewMode) -> Seq<char> {
    match mode {
        ViewMode::Source => "source"@,
        ViewMode::PageView => "compose"@,
    }
}

/// The name of a view mode in the plugin API.
pub fn view_mode_name(mode: ViewMode) -> (name: &'static str)
    ensures
        name@ == spec_view_mode_name(mode),
{
    match mode {
        ViewMode::Source => "source",
        ViewMode::PageView => "compose",
    }
}

/// What plugins see of a split.
#[derive(Debug)]
pub struct SplitSnapshot {
    pub split_id: LeafId,
    pub buffer_id: BufferId,
    pub label: Option<String>,
    pub x: u16,
    pub y: u16,
    pub width: u16,
    pub height: u16,
    pub viewport: ViewportInfo,
}

/// What plugins see of a recorded macro.
#[derive(Debug)]
pub struct MacroSnapshot {
    /// The code of the register character.
    pub register: u64,
    pub steps: Arc<Vec<ActionStep>>,
}

/// A [`MacroSnapshot`] as a mathematical value.
pub struct MacroModel {
    pub register: u64,
    pub steps: Seq<ActionStep>,
}

impl View for MacroSnapshot {
    type V = MacroModel;

    open spec fn view(&self) -> MacroModel {
        MacroModel { register: self.register, steps: self.steps@ }
    }
}

/// The backend of a remote session, and whether it is reachable.
#[derive(Debug)]
pub struct RemoteBackend {
    pub spec: Arc<RemoteAgentSpec>,
    pub connected: bool,
}

/// What plugins see of a session.
#[derive(Debug)]
pub struct WindowInfo {
    pub id: WindowId,
    /// Empty for a session that was saved without an identity.
    pub stable_id: String,
    pub label: String,
    pub root: String,
    pub project_path: String,
    pub shared_worktree: bool,
    pub remote: Option<RemoteBackend>,
    pub selected_agent_terminal: Option<WindowTerminalId>,
}

/// A [`WindowInfo`] as a mathematical value.
pub struct WindowInfoModel {
    pub id: WindowId,
    pub stable_id: Seq<char>,
    pub label: Seq<char>,
    pub root: Seq<char>,
    pub project_path: Seq<char>,
    pub shared_worktree: bool,
    pub remote: Option<RemoteBackend>,
    pub selected_agent_terminal: Option<WindowTerminalId>,
}

impl View for WindowInfo {
    type V = WindowInfoModel;

    open spec fn view(&self) -> WindowInfoModel {
        WindowInfoModel {
            id: self.id,
            stable_id: self.stable_id@,
            label: self.label@,
            root: self.root@,
            project_path: self.project_path@,
            shared_worktree: self.shared_worktree,
            remote: self.remote,
            selected_agent_terminal: self.selected_agent_terminal,
        }
    }
}

/// The grammars that are known. The generation grows with every change.
#[derive(Debug)]
pub struct GrammarCatalog {
    pub generation: u64,
    pub grammars: Arc<Vec<String>>,
}

/// The global values of one plugin.
#[derive(Debug)]
pub struct GlobalState {
    pub plugin: String,
    pub values: Vec<(String, Arc<String>)>,
}

/// What the host adds to a snapshot.
#[derive(Debug)]
pub struct SnapshotSources {
    pub grammars: GrammarCatalog,
    pub clipboard: String,
    /// The environment that the active project has, by its JSON text; empty
    /// where it has none.
    pub detected_env: String,
    /// The settings by their JSON text: all of them, and what the user wrote.
    pub config: Arc<String>,
    pub user_config: Arc<String>,
    pub global_state: Vec<GlobalState>,
    /// The paths of sessions that the file system spells otherwise than they are
    /// kept, each with its spelling.
    pub spellings: TextMap<String>,
}

/// The view of the editor that plugins read.
#[derive(Debug)]
pub struct EditorStateSnapshot {
    pub grammar_generation: u64,
    pub available_grammars: Arc<Vec<String>>,
    pub active_buffer: BufferId,
    pub active_split: LeafId,
    pub macros: Vec<MacroSnapshot>,
    pub buffers: BTreeMap<u64, BufferInfo>,
    pub saved_diffs: BTreeMap<u64, Arc<SavedDiff>>,
    pub cursor_positions: BTreeMap<u64, u64>,
    /// Only of buffers that have any.
    pub text_properties: BTreeMap<u64, Arc<Vec<String>>>,
    pub primary_cursor: Option<CursorInfo>,
    pub primary_cursor_line: Option<u32>,
    pub all_cursors: Vec<CursorInfo>,
    pub selected_text: Option<Vec<u8>>,
    pub viewport: Option<ViewportInfo>,
    pub splits: Vec<SplitSnapshot>,
    pub session_state: Arc<Vec<StateEntry>>,
    pub diagnostics: Arc<String>,
    pub folding_ranges: Arc<String>,
    pub editor_mode: Option<String>,
    pub has_active_search: bool,
    /// The values that plugins keep with a buffer in a split, and that split.
    pub view_states: BTreeMap<u64, TextMap<String>>,
    pub view_states_split: u64,
    /// The markers of each buffer by their ids.
    pub markers: BTreeMap<u64, BTreeMap<u64, Marker>>,
    pub keybinding_labels: Arc<Vec<(String, String)>>,
    pub clipboard: String,
    pub working_dir: String,
    pub terminal_width: u16,
    pub terminal_height: u16,
    pub authority_label: String,
    pub trust: TrustLevel,
    pub env_active: bool,
    pub detected_env: String,
    pub windows: Vec<WindowInfo>,
    pub active_window: WindowId,
    pub config: Arc<String>,
    pub user_config: Arc<String>,
    pub global_states: TextMap<TextMap<Arc<String>>>,
    /// Grows with every refresh of the shared snapshot.
    pub host_revision: u64,
}

/// What a snapshot shows of one window, and what plugins have added to it.
pub struct WindowPart {
    pub grammar_generation: u64,
    pub available_grammars: Seq<String>,
    pub active_buffer: BufferId,
    pub active_split: LeafId,
    pub macros: Seq<MacroModel>,
    pub buffers: Map<u64, BufferInfoModel>,
    pub saved_diffs: Map<u64, Arc<SavedDiff>>,
    pub cursor_positions: Map<u64, u64>,
    pub text_properties: Map<u64, Arc<Vec<String>>>,
    pub primary_cursor: Option<CursorInfo>,
    pub primary_cursor_line: Option<u32>,
    pub all_cursors: Seq<CursorInfo>,
    pub selected_text: Option<Seq<u8>>,
    pub viewport: Option<ViewportInfo>,
    pub splits: Seq<SplitSnapshot>,
    pub session_state: Seq<StateEntry>,
    pub diagnostics: Seq<char>,
    pub folding_ranges: Seq<char>,
    pub editor_mode: Option<String>,
    pub has_active_search: bool,
    pub view_states: Map<u64, Map<Seq<char>, String>>,
    pub view_states_split: u64,
}

/// What a snapshot shows of the editor as a whole.
pub struct EditorPart {
    pub clipboard: Seq<char>,
    pub working_dir: Seq<char>,
    pub terminal_width: u16,
    pub terminal_height: u16,
    pub authority_label: Seq<char>,
    pub trust: TrustLevel,
    pub env_active: bool,
    pub detected_env: Seq<char>,
    pub windows: Seq<WindowInfoModel>,
    pub active_window: WindowId,
    pub config: Arc<String>,
    pub user_config: Arc<String>,
    pub global_states: Map<Seq<char>, Map<Seq<char>, Arc<String>>>,
}

/// An [`EditorStateSnapshot`] as a mathematical value.
pub struct SnapshotModel {
    pub window: WindowPart,
    pub editor: EditorPart,
    pub markers: Map<u64, Map<u64, Marker>>,
    pub keybinding_labels: Seq<(String, String)>,
    pub host_revision: u64,
}

/// What is seen of buffers, as mathematical values.
pub open spec fn info_models(infos: Map<u64, BufferInfo>) -> Map<u64, BufferInfoModel> {
    infos.map_values(|info: BufferInfo| info@)
}

/// The values of plugins as mathematical values.
pub open spec fn view_state_texts(states: Map<u64, TextMap<String>>) -> Map<
    u64,
    Map<Seq<char>, String>,
> {
    states.map_values(|values: TextMap<String>| values@)
}

/// The global values of plugins as mathematical values.
pub open spec fn global_models(states: Map<Seq<char>, TextMap<Arc<String>>>) -> Map<
    Seq<char>,
    Map<Seq<char>, Arc<String>>,
> {
    states.map_values(|values: TextMap<Arc<String>>| values@)
}

/// The markers as mathematical values.
pub open spec fn marker_models(markers: Map<u64, BTreeMap<u64, Marker>>) -> Map<
    u64,
    Map<u64, Marker>,
> {
    markers.map_values(|m: BTreeMap<u64, Marker>| m@)
}

/// The sessions as mathematical values.
pub open spec fn window_info_models(infos: Seq<WindowInfo>) -> Seq<WindowInfoModel> {
    infos.map_values(|info: WindowInfo| info@)
}

/// The macros as mathematical values.
pub open spec fn macro_snapshot_models(macros: Seq<MacroSnapshot>) -> Seq<MacroModel> {
    macros.map_values(|m: MacroSnapshot| m@)
}

/// Bytes that may be absent, as mathematical values.
pub open spec fn bytes_model(bytes: Option<Vec<u8>>) -> Option<Seq<u8>> {
    match bytes {
        Some(bytes) => Some(bytes@),
        None => None,
    }
}

impl EditorStateSnapshot {
    /// What the snapshot shows of its window.
    pub open spec fn window_part(self) -> WindowPart {
        WindowPart {
            grammar_generation: self.grammar_generation,
            available_grammars: self.available_grammars@,
            active_buffer: self.active_buffer,
            active_split: self.active_split,
            macros: macro_snapshot_models(self.macros@),
            buffers: info_models(self.buffers@),
            saved_diffs: self.saved_diffs@,
            cursor_positions: self.cursor_positions@,
            text_properties: self.text_properties@,
            primary_cursor: self.primary_cursor,
            primary_cursor_line: self.primary_cursor_line,
            all_cursors: self.all_cursors@,
            selected_text: bytes_model(self.selected_text),
            viewport: self.viewport,
            splits: self.splits@,
            session_state: self.session_state@,
            diagnostics: self.diagnostics@,
            folding_ranges: self.folding_ranges@,
            editor_mode: self.editor_mode,
            has_active_search: self.has_active_search,
            view_states: view_state_texts(self.view_states@),
            view_states_split: self.view_states_split,
        }
    }

    /// What the snapshot shows of the editor as a whole.
    pub open spec fn editor_part(self) -> EditorPart {
        EditorPart {
            clipboard: self.clipboard@,
            working_dir: self.working_dir@,
            terminal_width: self.terminal_width,
            terminal_height: self.terminal_height,
            authority_label: self.authority_label@,
            trust: self.trust,
            env_active: self.env_active,
            detected_env: self.detected_env@,
            windows: window_info_models(self.windows@),
            active_window: self.active_window,
            config: self.config,
            user_config: self.user_config,
            global_states: global_models(self.global_states@),
        }
    }
}

impl View for EditorStateSnapshot {
    type V = SnapshotModel;

    open spec fn view(&self) -> SnapshotModel {
        SnapshotModel {
            window: self.window_part(),
            editor: self.editor_part(),
            markers: marker_models(self.markers@),
            keybinding_labels: self.keybinding_labels@,
            host_revision: self.host_revision,
        }
    }
}

/// A snapshot that may be absent, as a mathematical value.
pub open spec fn snapshot_model(snapshot: Option<EditorStateSnapshot>) -> Option<SnapshotModel> {
    match snapshot {
        Some(snapshot) => Some(snapshot@),
        None => None,
    }
}

} // verus!
