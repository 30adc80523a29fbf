//! The commands that plugins send, and who sends them.
use std::sync::Arc;
use vstd::prelude::*;

use crate::authority::WorkspaceRoot;
use crate::ids::AuthorityStamp;
use crate::ids::BufferId;
use crate::ids::JsCallbackId;
use crate::ids::PluginInstanceId;
use crate::ids::SplitId;
use crate::ids::WindowId;
use crate::ids::WindowTerminalId;
use crate::terminals::Companion;
use crate::window::StateValue;

verus! {

/// Arguments that only the handler of a command reads, as JSON text.
#[derive(Debug)]
pub struct Payload(pub String);

/// How a plugin came to be loaded.
#[derive(Clone, Copy, Debug, PartialEq, Eq, Structural)]
pub enum PluginLoadProvenance {
    /// Not a plugin: the host itself.
    Internal,
    /// A plugin that ships with the editor.
    Bundled,
    /// A plugin of the user.
    User,
    /// A script that an agent submitted for one window.
    AgentScript,
}

/// The bundled plugins with rights of their own.
#[derive(Clone, Copy, Debug, PartialEq, Eq, Structural)]
pub enum TrustedBuiltinPlugin {
    Orchestrator,
}

/// Why a command was sent.
#[derive(Clone, Copy, Debug, PartialEq, Eq, Structural)]
pub enum PluginCommandPurpose {
    Ordinary,
    /// The loader undoes what an instance that is gone had done.
    CompensatingCleanup,
}

/// A snapshot of the editor state that one invocation reads.
#[derive(Clone, Copy, Debug, PartialEq, Eq, Structural)]
pub struct SnapshotId(pub u64);

/// Who sent a command, as the plugin loader knows it.
#[derive(Debug)]
pub struct PluginCommandContext {
    pub plugin_name: String,
    pub plugin_instance_id: PluginInstanceId,
    pub provenance: PluginLoadProvenance,
    pub trusted_builtin: Option<TrustedBuiltinPlugin>,
    pub purpose: PluginCommandPurpose,
    /// The window that the command was sent for.
    pub source_window: Option<WindowId>,
    /// The only window that the sender may touch.
    pub window_scope: Option<WindowId>,
    /// The backend that the source window had when the command was sent.
    pub source_authority: Option<AuthorityStamp>,
    pub state_snapshot: Option<SnapshotId>,
}

impl Default for PluginCommandContext {
    fn default() -> (context: PluginCommandContext)
        ensures
            context.plugin_name@.len() == 0,
            context.plugin_instance_id == PluginInstanceId(0),
            context.provenance == PluginLoadProvenance::Internal,
            context.trusted_builtin is None,
            context.purpose == PluginCommandPurpose::Ordinary,
            context.source_window is None,
            context.window_scope is None,
            context.source_authority is None,
            context.state_snapshot is None,
    {
        PluginCommandContext {
            plugin_name: String::new(),
            plugin_instance_id: PluginInstanceId(0),
            provenance: PluginLoadProvenance::Internal,
            trusted_builtin: None,
            purpose: PluginCommandPurpose::Ordinary,
            source_window: None,
            window_scope: None,
            source_authority: None,
            state_snapshot: None,
        }
    }
}

impl PluginCommandContext {
    /// Whether the sender is a script of an agent.
    pub open spec fn spec_is_agent_script(self) -> bool {
        self.provenance == PluginLoadProvenance::AgentScript
    }

    /// Whether the sender is a script of an agent.
    pub fn is_agent_script(&self) -> (is: bool)
        ensures
            is == self.spec_is_agent_script(),
    {
        self.provenance == PluginLoadProvenance::AgentScript
    }

    /// Whether the sender is the bundled Orchestrator.
    pub open spec fn spec_is_trusted_orchestrator(self) -> bool {
        self.provenance == PluginLoadProvenance::Bundled && self.trusted_builtin == Some(
            TrustedBuiltinPlugin::Orchestrator,
        )
    }

    /// Whether the sender is the bundled Orchestrator.
    pub fn is_trusted_orchestrator(&self) -> (is: bool)
        ensures
            is == self.spec_is_trusted_orchestrator(),
    {
        self.provenance == PluginLoadProvenance::Bundled && self.trusted_builtin == Some(
            TrustedBuiltinPlugin::Orchestrator,
        )
    }

    /// Whether the loader undoes what the instance had done.
    pub open spec fn spec_is_compensating_cleanup(self) -> bool {
        self.purpose == PluginCommandPurpose::CompensatingCleanup
    }

    /// Whether the loader undoes what the instance had done.
    pub fn is_compensating_cleanup(&self) -> (is: bool)
        ensures
            is == self.spec_is_compensating_cleanup(),
    {
        self.purpose == PluginCommandPurpose::CompensatingCleanup
    }

    /// Whether the sender is the host itself.
    pub open spec fn is_internal(self) -> bool {
        self.provenance == PluginLoadProvenance::Internal
    }
}

/// An action by name, how often it is run, and its arguments.
#[derive(Debug)]
pub struct ActionSpec {
    pub action: String,
    pub count: u32,
    pub args: Vec<(String, String)>,
}

/// A button of an action popup.
#[derive(Debug)]
pub struct ActionPopupAction {
    pub id: String,
    pub label: String,
}

/// How a terminal is started for a plugin.
#[derive(Debug)]
pub struct TerminalRequest {
    pub cwd: Option<String>,
    pub command: Option<Arc<Vec<String>>>,
    /// The clean command line that a restore runs in place of `command`.
    pub relaunch: Option<Arc<Vec<String>>>,
    pub title: Option<String>,
    /// The command line that resumes an agent.
    pub resume: Option<Arc<Vec<String>>>,
    /// Extra environment variables.
    pub env: Payload,
    pub companion: Option<Companion>,
    /// Whether the child may drive the editor.
    pub allow_script: bool,
    /// Whether the terminal becomes the tracked agent of its window.
    pub selected_agent: bool,
}

/// How a virtual buffer is shown.
#[derive(Clone, Copy, Debug, PartialEq, Eq, Structural)]
pub struct VirtualBufferDisplay {
    pub show_line_numbers: bool,
    pub show_cursors: bool,
    pub editing_disabled: bool,
}

/// A virtual buffer that is asked for: its name, mode and content.
#[derive(Debug)]
pub struct VirtualBufferRequest {
    pub name: String,
    pub mode: String,
    pub read_only: bool,
    pub entries: Payload,
    pub display: VirtualBufferDisplay,
}

/// The value that goes with an operation on a floating panel, read in each of
/// the ways in which some operation reads it: as a width in columns, as a
/// packed screen cell, and as a switch.
#[derive(Clone, Copy, Debug, PartialEq, Eq, Structural)]
pub struct PanelArgument {
    pub columns: u16,
    pub packed_cell: u64,
    pub nonzero: bool,
}

/// The edges from which a window can slide in.
#[derive(Clone, Copy, Debug, PartialEq, Eq, Structural)]
pub enum Edge {
    Top,
    Bottom,
    Left,
    Right,
}

/// A command of a plugin.
#[allow(inconsistent_fields)]
#[derive(Debug)]
pub enum PluginCommand {
    InsertText(Payload),
    DeleteRange(Payload),
    InsertAtCursor(Payload),
    DeleteSelection,
    AddOverlay(Payload),
    RemoveOverlay(Payload),
    ClearAllOverlays(Payload),
    ClearNamespace(Payload),
    ClearOverlaysInRange(Payload),
    ClearOverlaysInRangeForNamespace(Payload),
    AddVirtualText(Payload),
    AddVirtualTextStyled(Payload),
    RemoveVirtualText(Payload),
    RemoveVirtualTextsByPrefix(Payload),
    ClearVirtualTexts(Payload),
    AddVirtualLine(Payload),
    ClearVirtualTextNamespace(Payload),
    ClearVirtualLinesInRange(Payload),
    AddConceal(Payload),
    ClearConcealNamespace(Payload),
    ClearConcealsInRange(Payload),
    ClearConcealsInRangeForNamespace(Payload),
    AddFold(Payload),
    ClearFolds(Payload),
    SetFoldingRanges(Payload),
    AddSoftBreak(Payload),
    ClearSoftBreakNamespace(Payload),
    ClearSoftBreaksInRange(Payload),
    AddMenuItem(Payload),
    AddMenu(Payload),
    RemoveMenuItem(Payload),
    RemoveMenu(Payload),
    FocusSplit(Payload),
    SetSplitBuffer(Payload),
    MoveBufferToSplit(Payload),
    SetSplitScroll(Payload),
    RequestHighlights { request_id: u64, arguments: Payload },
    CloseSplit(Payload),
    SetSplitRatio(Payload),
    SetSplitLabel { split_id: SplitId, label: String },
    ClearSplitLabel { split_id: SplitId },
    GetSplitByLabel { label: String, request_id: u64 },
    DistributeSplitsEvenly(Payload),
    SetBufferCursor(Payload),
    SetBufferShowCursors { buffer_id: BufferId, show: bool },
    SetLayoutHints(Payload),
    SetLineNumbers(Payload),
    SetIndentationGuide(Payload),
    SetViewMode(Payload),
    SetLineWrap(Payload),
    SetViewState(Payload),
    SetGlobalState(Payload),
    SetWindowState { window_id: WindowId, key: String, value: Payload },
    RefreshLines(Payload),
    RefreshAllLines,
    HookCompleted { hook_name: String },
    SetLineIndicator(Payload),
    SetLineIndicators(Payload),
    ClearLineIndicators(Payload),
    SetScrollbarMarkers(Payload),
    SetScrollbarMarkersInRange(Payload),
    ClearScrollbarMarkers(Payload),
    SetFileExplorerDecorations(Payload),
    ClearFileExplorerDecorations(Payload),
    SetFileExplorerSlots(Payload),
    ClearFileExplorerSlots(Payload),
    SetStatus { message: String },
    ApplyTheme { theme_name: String },
    OverrideThemeColors(Payload),
    ReloadConfig,
    SetSetting(Payload),
    AddPluginConfigField(Payload),
    ReloadThemes { apply_theme: Option<String> },
    RegisterGrammar(Payload),
    RegisterLanguageConfig(Payload),
    RegisterLspServer(Payload),
    ReloadGrammars { callback_id: JsCallbackId },
    CancelPrompt,
    StartPrompt(Payload),
    StartPromptWithInitial(Payload),
    StartPromptAsync { callback_id: JsCallbackId, arguments: Payload },
    StartFilePickAsync { callback_id: JsCallbackId, arguments: Payload },
    AwaitNextKey { callback_id: JsCallbackId },
    SetKeyCaptureActive { active: bool },
    SetPromptSuggestions(Payload),
    SetPromptInputSync { sync: bool },
    SetPromptTitle { title: Vec<String> },
    SetPromptFooter { footer: Vec<String> },
    SetPromptToolbar { spec: Option<String> },
    ToggleOverlayToolbarWidget(Payload),
    SetPromptStatus { status: String },
    SetPromptSelectedIndex { index: u32 },
    CreateWindow { root: Arc<WorkspaceRoot>, label: String },
    CreateWindowWithTerminal {
        root: Arc<WorkspaceRoot>,
        label: String,
        terminal: TerminalRequest,
        activate: bool,
        initial_state: Vec<(String, StateValue)>,
        request_id: u64,
    },
    RestoreWorkspaceWindow {
        root: Arc<WorkspaceRoot>,
        label: String,
        stable_id: Option<String>,
        activate: bool,
        callback_id: JsCallbackId,
    },
    SendOmpCompanionCommand {
        terminal_id: WindowTerminalId,
        request_id: u64,
        arguments: Payload,
    },
    SetActiveWindow { id: WindowId },
    ActivateWindow { id: WindowId, request_id: u64 },
    SetActiveWindowAnimated { id: WindowId, from_edge: String },
    SetWindowCycleOrder { ids: Vec<WindowId> },
    CloseWindow { id: WindowId },
    InspectWorkspacePersistence { root: Arc<WorkspaceRoot>, callback_id: JsCallbackId },
    InspectWorkspaceCreateAttempt { callback_id: JsCallbackId, arguments: Payload },
    ForgetWorkspacePersistence {
        root: Arc<WorkspaceRoot>,
        stable_id: Option<String>,
        callback_id: JsCallbackId,
    },
    AcquireWorkspaceRootOwnership { callback_id: JsCallbackId, arguments: Payload },
    ReleaseWorkspaceRootOwnership { callback_id: JsCallbackId, arguments: Payload },
    QuarantineWorkspaceArtifacts { callback_id: JsCallbackId, arguments: Payload },
    RestoreWorkspaceArtifacts { callback_id: JsCallbackId, arguments: Payload },
    PurgeWorkspaceArtifactQuarantine { callback_id: JsCallbackId, arguments: Payload },
    PrewarmWindow { id: WindowId },
    WatchPath { path: String, recursive: bool, request_id: u64 },
    UnwatchPath { handle: u64 },
    PreviewWindowInRect { id: Option<WindowId> },
    RegisterCommand(Payload),
    RegisterStatusBarElement(Payload),
    SetStatusBarValue(Payload),
    UnregisterCommand(Payload),
    DefineMode(Payload),
    OpenFileInBackground { path: String, window_id: Option<WindowId> },
    OpenFileAtLocation(Payload),
    OpenFileInSplit(Payload),
    ShowBuffer(Payload),
    CloseBuffer(Payload),
    CloseOtherBuffersInSplit(Payload),
    CloseAllBuffersInSplit(Payload),
    CloseBuffersToRightInSplit(Payload),
    CloseBuffersToLeftInSplit(Payload),
    MoveTabLeft,
    MoveTabRight,
    StartAnimationArea(Payload),
    StartAnimationVirtualBuffer(Payload),
    CancelAnimation { id: u64 },
    SendLspRequest { request_id: u64, arguments: Payload },
    SetClipboard(Payload),
    SpawnProcess {
        window_id: WindowId,
        command: String,
        args: Vec<String>,
        cwd: Option<String>,
        stdout_to: Option<String>,
        callback_id: JsCallbackId,
    },
    SpawnHostProcess {
        window_id: WindowId,
        command: String,
        args: Vec<String>,
        cwd: Option<String>,
        callback_id: JsCallbackId,
    },
    KillHostProcess { window_id: WindowId, process_id: u64 },
    SetAuthority { window_id: WindowId, payload: Payload },
    AttachRemoteAgent { window_id: WindowId, payload: String, request_id: u64 },
    CancelRemoteAttach { request_id: u64 },
    CancelRemoteAttaches,
    ClearAuthority { window_id: WindowId },
    SetEnv { window_id: WindowId, snippet: String, dir: Option<String> },
    ClearEnv { window_id: WindowId },
    SetRemoteIndicatorState { window_id: WindowId, state: Payload },
    ClearRemoteIndicatorState { window_id: WindowId },
    SpawnProcessWait { window_id: WindowId, process_id: u64, callback_id: JsCallbackId },
    Delay { callback_id: JsCallbackId, duration_ms: u64 },
    HttpFetch { url: String, target_path: String, callback_id: JsCallbackId },
    SpawnBackgroundProcess {
        window_id: WindowId,
        process_id: u64,
        command: String,
        args: Vec<String>,
        cwd: Option<String>,
        callback_id: JsCallbackId,
    },
    KillBackgroundProcess { window_id: WindowId, process_id: u64 },
    CreateVirtualBuffer { name: String, mode: String, read_only: bool },
    CreateVirtualBufferWithContent {
        buffer: VirtualBufferRequest,
        hidden_from_tabs: bool,
        initial_cursor_line: Option<u32>,
        indentation_guide: Option<bool>,
        request_id: Option<u64>,
    },
    CreateVirtualBufferInSplit {
        buffer: VirtualBufferRequest,
        /// The bits of the single-precision share of the new split.
        ratio_bits: u32,
        direction: Option<String>,
        panel_id: Option<String>,
        line_wrap: Option<bool>,
        before: bool,
        role: Option<String>,
        scrollable: Option<bool>,
        request_id: Option<u64>,
    },
    SetVirtualBufferContent { buffer_id: BufferId, entries: Payload },
    GetTextPropertiesAtCursor { buffer_id: BufferId },
    CreateVirtualBufferInExistingSplit {
        buffer: VirtualBufferRequest,
        split_id: SplitId,
        line_wrap: Option<bool>,
        initial_cursor_line: Option<u32>,
        request_id: Option<u64>,
    },
    SetContext { name: String, active: bool },
    SetReviewDiffHunks { hunks: Vec<String> },
    ExecuteAction { action_name: String },
    CompleteCommand { request_id: u64, ok: bool, output: Payload, error: Option<String> },
    ExecuteActions { actions: Vec<ActionSpec> },
    DefineMacro { register: String, steps: Vec<ActionSpec> },
    PlayMacroByRegister { register: String },
    GetBufferText { buffer_id: BufferId, start: usize, end: usize, request_id: u64 },
    GetLineStartPosition { buffer_id: BufferId, line: u32, request_id: u64 },
    GetLineEndPosition { buffer_id: BufferId, line: u32, request_id: u64 },
    GetBufferLineCount { buffer_id: BufferId, request_id: u64 },
    GetCompositeCursorInfo { request_id: u64 },
    OpenFileStreaming { path: String, request_id: u64 },
    RefreshBufferFromDisk { buffer_id: BufferId, request_id: u64 },
    SetBufferGroupPanelBuffer {
        group_id: u64,
        panel_name: String,
        buffer_id: BufferId,
        request_id: u64,
    },
    ScrollToLineCenter { split_id: SplitId, buffer_id: BufferId, line: u64 },
    ScrollBufferToLine { buffer_id: BufferId, line: u64 },
    SetEditorMode { mode: Option<String> },
    ShowActionPopup {
        popup_id: String,
        title: String,
        message: String,
        actions: Vec<ActionPopupAction>,
        buffer_id: Option<BufferId>,
    },
    SetLspMenuContributions { plugin_id: String, language: String, items: Vec<String> },
    DisableLspForLanguage { language: String },
    RestartLspForLanguage { language: String },
    RegisterLspUriScheme { scheme: String },
    MarkBufferReadOnly { path: String },
    SetLspRootUri { language: String, uri: String },
    CreateScrollSyncGroup { group_id: u64, left_split: SplitId, right_split: SplitId },
    SetScrollSyncAnchors { group_id: u64, anchors: Vec<(u64, u64)> },
    RemoveScrollSyncGroup { group_id: u64 },
    CreateCompositeBuffer { request_id: Option<u64>, arguments: Payload },
    UpdateCompositeAlignment(Payload),
    CloseCompositeBuffer(Payload),
    FlushLayout,
    SetLineTargets(Payload),
    SplitWindow { request_id: Option<u64>, arguments: Payload },
    SyncSnapshot { request_id: u64 },
    CompositeNextHunk { buffer_id: BufferId },
    CompositePrevHunk { buffer_id: BufferId },
    CreateBufferGroup { request_id: Option<u64>, arguments: Payload },
    SetPanelContent(Payload),
    CloseBufferGroup(Payload),
    FocusPanel(Payload),
    SaveBufferToPath { buffer_id: BufferId, path: String },
    LoadPlugin { path: String, callback_id: JsCallbackId },
    UnloadPlugin { name: String, callback_id: JsCallbackId },
    ReloadPlugin { name: String, callback_id: JsCallbackId },
    ListPlugins { callback_id: JsCallbackId },
    SetPluginTimer {
        timer_id: u64,
        plugin_name: String,
        handler_name: String,
        interval_ms: u64,
        repeat: bool,
    },
    ClearPluginTimer { timer_id: u64 },
    ReloadInit { callback_id: JsCallbackId },
    RunEditorCommand { name: String, callback_id: JsCallbackId },
    ListEditorCommands { callback_id: JsCallbackId },
    CreateTerminal {
        terminal: TerminalRequest,
        direction: Option<String>,
        ratio_bits: Option<u32>,
        focus: Option<bool>,
        persistent: bool,
        window_id: WindowId,
        request_id: u64,
    },
    SendTerminalInput { terminal_id: WindowTerminalId, data: String },
    CloseTerminal { terminal_id: WindowTerminalId },
    SignalWindow { id: WindowId, signal: String },
    StopWindow { id: WindowId, grace_ms: u64 },
    RegisterDiffBaseline { callback_id: JsCallbackId, arguments: Payload },
    DiffAgainstBaseline { callback_id: JsCallbackId, arguments: Payload },
    DiffBaselinePair { callback_id: JsCallbackId, arguments: Payload },
    GetBaselineLines { callback_id: JsCallbackId, arguments: Payload },
    RefreshDiffBaseline { callback_id: JsCallbackId, arguments: Payload },
    ReleaseDiffBaseline(Payload),
    GrepProject { callback_id: JsCallbackId, arguments: Payload },
    BeginSearch(Payload),
    ReplaceInBuffer { callback_id: JsCallbackId, arguments: Payload },
    MountWidgetPanel { plugin: String, panel_id: u64, buffer_id: BufferId, spec: Payload },
    UpdateWidgetPanel { plugin: String, panel_id: u64, spec: Payload },
    UnmountWidgetPanel { plugin: String, panel_id: u64 },
    WidgetCommand { plugin: String, panel_id: u64, action: Payload },
    WidgetMutate { plugin: String, panel_id: u64, mutation: crate::widgets::WidgetMutation },
    MountFloatingWidget {
        plugin: String,
        panel_id: u64,
        spec: Payload,
        options: crate::floating::FloatingOptions,
    },
    UpdateFloatingWidget { plugin: String, panel_id: u64, spec: Payload },
    UnmountFloatingWidget { plugin: String, panel_id: u64 },
    FloatingPanelControl { plugin: String, panel_id: u64, op: String, arg: PanelArgument },
}

/// A command with its sender.
#[derive(Debug)]
pub struct PluginCommandEnvelope {
    pub command: PluginCommand,
    pub context: PluginCommandContext,
}

} // verus!
