//! A window: one editing session with its project, buffers and terminals.
use std::collections::BTreeMap;
use std::sync::Arc;
use vstd::prelude::*;

use crate::authority::Authority;
use crate::authority::AuthoritySpec;
use crate::authority::WorkspaceRoot;
use crate::documents::BufferMetadata;
use crate::documents::BufferState;
use crate::documents::EventLog;
use crate::documents::LayoutModel;
use crate::documents::SplitLayout;
use crate::geometry::Rect;
use crate::ids::BufferId;
use crate::ids::JsCallbackId;
use crate::ids::LeafId;
use crate::ids::WindowId;
use crate::mouse::HoverTarget;
use crate::mouse::MouseState;
use crate::notice::Notice;
use crate::notice::Rejection;
use crate::terminal_mouse::TerminalMouseReport;
use crate::terminals::TerminalTables;
use crate::terminals::TerminalsModel;

verus! {

/// A value that a plugin stores with a window.
#[derive(Debug)]
pub enum StateValue {
    Text(String),
    Flag(bool),
    /// Any other JSON value, by its text.
    Json(String),
}

/// One value of one plugin.
#[derive(Debug)]
pub struct StateEntry {
    pub plugin: String,
    pub key: String,
    pub value: StateValue,
}

/// The open prompt of a window.
#[derive(Debug)]
pub struct Prompt {
    pub sync_input_on_navigate: bool,
    pub title: Vec<String>,
    pub footer: Vec<String>,
    pub toolbar: Option<String>,
    pub status: String,
    pub suggestion_count: u64,
    pub selected_suggestion: Option<u64>,
}

/// A named action with its arguments.
#[derive(Debug)]
pub struct ActionStep {
    pub action: String,
    pub args: Vec<(String, String)>,
}

/// The rows that a plugin adds to the list of language servers.
#[derive(Debug)]
pub struct LspMenuContribution {
    pub language: String,
    pub plugin: String,
    pub items: Vec<String>,
}

/// Two splits that scroll together.
#[derive(Debug)]
pub struct ScrollSyncGroup {
    pub left_split: u64,
    pub right_split: u64,
    pub anchors: Vec<(u64, u64)>,
}

/// The clicks that a further click may extend to a double or triple click.
#[derive(Clone, Copy, Debug, PartialEq, Eq)]
pub struct ClickState {
    pub time_ms: Option<u64>,
    pub position: Option<(u16, u16)>,
    pub target: Option<HoverTarget>,
    pub count: u8,
}

impl ClickState {
    /// No click to extend.
    pub open spec fn none() -> ClickState {
        ClickState { time_ms: None, position: None, target: None, count: 0 }
    }
}

/// Prompt, key capture, messages and modes of a window.
#[derive(Debug)]
pub struct WindowUi {
    pub prompt: Option<Prompt>,
    pub key_capture_active: bool,
    /// Keys that were captured before a plugin asked for them.
    pub pending_keys: Vec<String>,
    /// The plugins that wait for a key.
    pub pending_key_callbacks: Vec<JsCallbackId>,
    pub status_message: Option<Notice>,
    pub editor_mode: Option<String>,
    pub review_hunks: Vec<String>,
    /// Recorded macros by the code of their register character.
    pub macros: BTreeMap<u64, Arc<Vec<ActionStep>>>,
    pub custom_contexts: Vec<String>,
    pub lsp_menu: Vec<LspMenuContribution>,
    pub remote_indicator_override: Option<String>,
    pub remote_reconnect_error: Option<Arc<Rejection>>,
    pub scroll_sync_groups: BTreeMap<u64, ScrollSyncGroup>,
    pub search_active: bool,
}

/// [`WindowUi`] as a mathematical value.
pub struct UiModel {
    pub prompt: Option<Prompt>,
    pub key_capture_active: bool,
    pub pending_keys: Seq<String>,
    pub pending_key_callbacks: Seq<JsCallbackId>,
    pub status_message: Option<Notice>,
    pub editor_mode: Option<String>,
    pub review_hunks: Seq<String>,
    pub macros: Map<u64, Seq<ActionStep>>,
    pub custom_contexts: Seq<String>,
    pub lsp_menu: Seq<LspMenuContribution>,
    pub remote_indicator_override: Option<String>,
    pub remote_reconnect_error: Option<Arc<Rejection>>,
    pub scroll_sync_groups: Map<u64, ScrollSyncGroup>,
    pub search_active: bool,
}

/// The steps of macros as mathematical values.
pub open spec fn macro_models(macros: Map<u64, Arc<Vec<ActionStep>>>) -> Map<u64, Seq<ActionStep>> {
    macros.map_values(|steps: Arc<Vec<ActionStep>>| steps@)
}

impl View for WindowUi {
    type V = UiModel;

    open spec fn view(&self) -> UiModel {
        UiModel {
            prompt: self.prompt,
            key_capture_active: self.key_capture_active,
            pending_keys: self.pending_keys@,
            pending_key_callbacks: self.pending_key_callbacks@,
            status_message: self.status_message,
            editor_mode: self.editor_mode,
            review_hunks: self.review_hunks@,
            macros: macro_models(self.macros@),
            custom_contexts: self.custom_contexts@,
            lsp_menu: self.lsp_menu@,
            remote_indicator_override: self.remote_indicator_override,
            remote_reconnect_error: self.remote_reconnect_error,
            scroll_sync_groups: self.scroll_sync_groups@,
            search_active: self.search_active,
        }
    }
}

impl UiModel {
    /// The state of a new window.
    pub open spec fn fresh() -> UiModel {
        UiModel {
            prompt: None,
            key_capture_active: false,
            pending_keys: Seq::empty(),
            pending_key_callbacks: Seq::empty(),
            status_message: None,
            editor_mode: None,
            review_hunks: Seq::empty(),
            macros: Map::empty(),
            custom_contexts: Seq::empty(),
            lsp_menu: Seq::empty(),
            remote_indicator_override: None,
            remote_reconnect_error: None,
            scroll_sync_groups: Map::empty(),
            search_active: false,
        }
    }
}

impl WindowUi {
    /// The state of a new window.
    pub fn new() -> (ui: WindowUi)
        ensures
            ui@ == UiModel::fresh(),
    {
        let ui = WindowUi {
            prompt: None,
            key_capture_active: false,
            pending_keys: Vec::new(),
            pending_key_callbacks: Vec::new(),
            status_message: None,
            editor_mode: None,
            review_hunks: Vec::new(),
            macros: BTreeMap::new(),
            custom_contexts: Vec::new(),
            lsp_menu: Vec::new(),
            remote_indicator_override: None,
            remote_reconnect_error: None,
            scroll_sync_groups: BTreeMap::new(),
            search_active: false,
        };
        proof {
            assert(ui@.macros =~= UiModel::fresh().macros);
        }
        ui
    }
}

/// The buffers of a window. Keys are buffer ids, but for `groups`, whose keys
/// are the leaves that host a group of panels.
#[derive(Debug)]
pub struct Documents {
    pub buffers: BTreeMap<u64, BufferState>,
    pub metadata: BTreeMap<u64, BufferMetadata>,
    pub event_logs: BTreeMap<u64, EventLog>,
    /// The splits; absent in a window that was never shown.
    pub layout: Option<SplitLayout>,
    /// The inner leaves of each group of panels.
    pub groups: BTreeMap<u64, Vec<LeafId>>,
    /// The buffer of each named panel.
    pub panel_ids: Vec<(String, BufferId)>,
    pub active_buffer: BufferId,
}

/// [`Documents`] as a mathematical value.
pub struct DocumentsModel {
    pub buffers: Map<u64, BufferState>,
    pub metadata: Map<u64, BufferMetadata>,
    pub event_logs: Map<u64, EventLog>,
    pub layout: Option<LayoutModel>,
    pub groups: Map<u64, Vec<LeafId>>,
    pub panel_ids: Seq<(String, BufferId)>,
    pub active_buffer: BufferId,
}

/// The model of a layout that may be absent.
pub open spec fn layout_model(layout: Option<SplitLayout>) -> Option<LayoutModel> {
    match layout {
        Some(layout) => Some(layout@),
        None => None,
    }
}

impl View for Documents {
    type V = DocumentsModel;

    open spec fn view(&self) -> DocumentsModel {
        DocumentsModel {
            buffers: self.buffers@,
            metadata: self.metadata@,
            event_logs: self.event_logs@,
            layout: layout_model(self.layout),
            groups: self.groups@,
            panel_ids: self.panel_ids@,
            active_buffer: self.active_buffer,
        }
    }
}

impl DocumentsModel {
    /// No buffer and no layout.
    pub open spec fn none() -> DocumentsModel {
        DocumentsModel {
            buffers: Map::empty(),
            metadata: Map::empty(),
            event_logs: Map::empty(),
            layout: None,
            groups: Map::empty(),
            panel_ids: Seq::empty(),
            active_buffer: BufferId(0),
        }
    }
}

impl Documents {
    /// No buffer and no layout.
    pub fn new() -> (documents: Documents)
        ensures
            documents@ == DocumentsModel::none(),
    {
        Documents {
            buffers: BTreeMap::new(),
            metadata: BTreeMap::new(),
            event_logs: BTreeMap::new(),
            layout: None,
            groups: BTreeMap::new(),
            panel_ids: Vec::new(),
            active_buffer: BufferId(0),
        }
    }
}

/// A split as it was last painted.
#[derive(Clone, Copy, Debug, PartialEq, Eq, Structural)]
pub struct SplitArea {
    pub split: LeafId,
    pub buffer: BufferId,
    pub content_rect: Rect,
}

/// A window.
#[derive(Debug)]
pub struct Window {
    pub id: WindowId,
    pub label: String,
    pub root: Arc<WorkspaceRoot>,
    /// The identity under which the window is saved.
    pub stable_id: String,
    pub authority: Authority,
    pub authority_spec: AuthoritySpec,
    pub plugin_state: Arc<Vec<StateEntry>>,
    /// What the language servers report, by its JSON text.
    pub diagnostics: Arc<String>,
    pub folding_ranges: Arc<String>,
    pub terminal_width: u16,
    pub terminal_height: u16,
    pub documents: Documents,
    pub terminals: TerminalTables,
    pub ui: WindowUi,
    pub mouse_state: MouseState,
    pub clicks: ClickState,
    /// The splits as they were last painted.
    pub split_areas: Vec<SplitArea>,
    /// Whether the focused split shows a terminal that takes input.
    pub focused_terminal_live: bool,
}

/// [`Window`] as a mathematical value.
pub struct WindowModel {
    pub id: WindowId,
    pub label: Seq<char>,
    pub root: Arc<WorkspaceRoot>,
    pub stable_id: Seq<char>,
    pub authority: Authority,
    pub authority_spec: AuthoritySpec,
    pub plugin_state: Seq<StateEntry>,
    pub diagnostics: Seq<char>,
    pub folding_ranges: Seq<char>,
    pub terminal_width: u16,
    pub terminal_height: u16,
    pub documents: DocumentsModel,
    pub terminals: TerminalsModel,
    pub ui: UiModel,
    pub mouse_state: MouseState,
    pub clicks: ClickState,
    pub split_areas: Seq<SplitArea>,
    pub focused_terminal_live: bool,
}

impl View for Window {
    type V = WindowModel;

    open spec fn view(&self) -> WindowModel {
        WindowModel {
            id: self.id,
            label: self.label@,
            root: self.root,
            stable_id: self.stable_id@,
            authority: self.authority,
            authority_spec: self.authority_spec,
            plugin_state: self.plugin_state@,
            diagnostics: self.diagnostics@,
            folding_ranges: self.folding_ranges@,
            terminal_width: self.terminal_width,
            terminal_height: self.terminal_height,
            documents: self.documents@,
            terminals: self.terminals@,
            ui: self.ui@,
            mouse_state: self.mouse_state,
            clicks: self.clicks,
            split_areas: self.split_areas@,
            focused_terminal_live: self.focused_terminal_live,
        }
    }
}

impl WindowModel {
    /// A window that nothing has happened to yet.
    pub open spec fn fresh(
        id: WindowId,
        label: Seq<char>,
        root: Arc<WorkspaceRoot>,
        stable_id: Seq<char>,
        authority: Authority,
        terminal_width: u16,
        terminal_height: u16,
    ) -> WindowModel {
        WindowModel {
            id,
            label,
            root,
            stable_id,
            authority,
            authority_spec: AuthoritySpec::Local,
            plugin_state: Seq::empty(),
            diagnostics: Seq::empty(),
            folding_ranges: Seq::empty(),
            terminal_width,
            terminal_height,
            documents: DocumentsModel::none(),
            terminals: TerminalsModel::none(),
            ui: UiModel::fresh(),
            mouse_state: MouseState::initial(),
            clicks: ClickState::none(),
            split_areas: Seq::empty(),
            focused_terminal_live: false,
        }
    }

    /// This window with every mouse gesture and drag given up.
    pub open spec fn gestures_cancelled(self) -> WindowModel {
        WindowModel { mouse_state: self.mouse_state.cancelled(), ..self }
    }

    /// This window with no click that a further click would extend.
    pub open spec fn clicks_forgotten(self) -> WindowModel {
        WindowModel { clicks: ClickState::none(), ..self }
    }

    /// This window in another plugin-defined mode.
    pub open spec fn with_mode(self, mode: Option<String>) -> WindowModel {
        WindowModel { ui: UiModel { editor_mode: mode, ..self.ui }, ..self }
    }

    /// This window, laid out anew with `buffer` as all there is to show.
    pub open spec fn seeded(
        self,
        buffer: BufferId,
        state: BufferState,
        metadata: BufferMetadata,
        log: EventLog,
    ) -> WindowModel {
        self.with_documents(
            DocumentsModel {
                buffers: self.documents.buffers.insert(buffer.0, state),
                metadata: self.documents.metadata.insert(buffer.0, metadata),
                event_logs: self.documents.event_logs.insert(buffer.0, log),
                layout: Some(
                    LayoutModel::single(self.terminal_width, self.terminal_height, buffer),
                ),
                active_buffer: buffer,
                ..self.documents
            },
        )
    }

    /// This window with another status message.
    pub open spec fn with_status(self, status: Option<Notice>) -> WindowModel {
        WindowModel { ui: UiModel { status_message: status, ..self.ui }, ..self }
    }

    /// This window with other buffers.
    pub open spec fn with_documents(self, documents: DocumentsModel) -> WindowModel {
        WindowModel { documents, ..self }
    }

    /// This window with other terminals.
    pub open spec fn with_terminals(self, terminals: TerminalsModel) -> WindowModel {
        WindowModel { terminals, ..self }
    }

    /// Whether the window has no layout, or a layout and no buffer to show.
    pub open spec fn needs_layout(self) -> bool {
        self.documents.layout is None || self.documents.buffers.is_empty()
    }
}

impl Window {
    /// A window that nothing has happened to yet.
    pub fn new(
        id: WindowId,
        label: String,
        root: Arc<WorkspaceRoot>,
        stable_id: String,
        authority: Authority,
        terminal_width: u16,
        terminal_height: u16,
    ) -> (window: Window)
        ensures
            window@ == WindowModel::fresh(
                id,
                label@,
                root,
                stable_id@,
                authority,
                terminal_width,
                terminal_height,
            ),
            window.label == label,
            window.stable_id == stable_id,
    {
        Window {
            id,
            label,
            root,
            stable_id,
            authority,
            authority_spec: AuthoritySpec::Local,
            plugin_state: Arc::new(Vec::new()),
            diagnostics: Arc::new(String::new()),
            folding_ranges: Arc::new(String::new()),
            terminal_width,
            terminal_height,
            documents: Documents::new(),
            terminals: TerminalTables::new(),
            ui: WindowUi::new(),
            mouse_state: MouseState::default(),
            clicks: ClickState { time_ms: None, position: None, target: None, count: 0 },
            split_areas: Vec::new(),
            focused_terminal_live: false,
        }
    }

    /// Shows `status` in the window.
    pub fn set_status_message(&mut self, status: Notice)
        ensures
            final(self)@ == old(self)@.with_status(Some(status)),
    {
        self.ui.status_message = Some(status);
    }

    /// Gives up every mouse gesture and drag. Returns the reports that
    /// terminals are owed.
    pub fn cancel_gestures(&mut self) -> (reports: Vec<TerminalMouseReport>)
        ensures
            reports@ == crate::terminal_mouse::retirements(old(self)@),
            final(self)@ == old(self)@.gestures_cancelled(),
    {
        let reports = self.cancel_terminal_mouse_gestures();
        self.mouse_state.clear_drag_state();
        reports
    }

    /// Lays the window out anew with `buffer` as all there is to show.
    pub fn seed(
        &mut self,
        buffer: BufferId,
        state: BufferState,
        metadata: BufferMetadata,
        log: EventLog,
    )
        ensures
            final(self)@ == old(self)@.seeded(buffer, state, metadata, log),
    {
        self.documents.layout = Some(
            SplitLayout::single(self.terminal_width, self.terminal_height, buffer),
        );
        self.documents.buffers.insert(buffer.0, state);
        self.documents.metadata.insert(buffer.0, metadata);
        self.documents.event_logs.insert(buffer.0, log);
        self.documents.active_buffer = buffer;
    }

    /// Whether the window has no layout, or a layout and no buffer to show.
    pub fn lacks_layout(&self) -> (lacks: bool)
        ensures
            lacks == self@.needs_layout(),
    {
        self.documents.layout.is_none() || self.documents.buffers.is_empty()
    }
}

} // verus!
