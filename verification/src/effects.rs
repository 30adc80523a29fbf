//! What the host is asked to do. The editor appends effects to its outbox, and
//! the host carries them out in order.
use std::sync::Arc;
use vstd::prelude::*;

use crate::action_run::ActionRun;
use crate::action_run::ActionRunModel;
use crate::authority::RemoteAgentSpec;
use crate::authority::WorkspaceRoot;
use crate::command::Edge;
use crate::command::Payload;
use crate::command::PluginCommand;
use crate::command::PluginCommandContext;
use crate::command::SnapshotId;
use crate::command::TerminalRequest;
use crate::command::VirtualBufferRequest;
use crate::geometry::Rect;
use crate::ids::BufferId;
use crate::ids::JsCallbackId;
use crate::ids::LeafId;
use crate::ids::PluginInstanceId;
use crate::ids::TerminalId;
use crate::ids::WindowId;
use crate::ids::WindowTerminalId;
use crate::mouse::SplitDirection;
use crate::notice::Rejection;
use crate::process_group::ProcessGroupEntry;
use crate::terminal_mouse::TerminalMouseReport;
use crate::window::StateValue;
use crate::window::Window;
use crate::window::WindowModel;

verus! {

/// The snapshot that is refreshed.
#[derive(Clone, Copy, Debug, PartialEq, Eq, Structural)]
pub enum SnapshotTarget {
    /// The one that all plugins read between commands.
    Shared,
    /// The one of a single invocation.
    Private(SnapshotId),
}

/// The hooks that the editor fires about windows.
#[derive(Clone, Copy, Debug, PartialEq, Eq, Structural)]
pub enum HookName {
    WindowCreated,
    ActiveWindowChanged,
    WindowClosed,
    BufferActivated,
}

/// An event that plugins can listen to. Label and root of the window are those
/// that it has when the hook is fired.
#[derive(Clone, Copy, Debug, PartialEq, Eq, Structural)]
pub enum HookEvent {
    WindowCreated,
    ActiveWindowChanged { previous: WindowId },
    WindowClosed,
    BufferActivated { buffer: BufferId },
}

impl HookEvent {
    /// The hook that the event is fired through.
    pub open spec fn spec_name(self) -> HookName {
        match self {
            HookEvent::WindowCreated => HookName::WindowCreated,
            HookEvent::ActiveWindowChanged { .. } => HookName::ActiveWindowChanged,
            HookEvent::WindowClosed => HookName::WindowClosed,
            HookEvent::BufferActivated { .. } => HookName::BufferActivated,
        }
    }

    /// The hook that the event is fired through.
    pub fn name(&self) -> (name: HookName)
        ensures
            name == self.spec_name(),
    {
        match self {
            HookEvent::WindowCreated => HookName::WindowCreated,
            HookEvent::ActiveWindowChanged { .. } => HookName::ActiveWindowChanged,
            HookEvent::WindowClosed => HookName::WindowClosed,
            HookEvent::BufferActivated { .. } => HookName::BufferActivated,
        }
    }
}

/// Whose promise is answered.
#[derive(Clone, Copy, Debug, PartialEq, Eq, Structural)]
pub enum CallbackOwner {
    /// The host's own, whichever runtime it lives in.
    Host,
    /// The promise of one plugin instance.
    Instance(PluginInstanceId),
}

/// The value that a promise is resolved with.
#[derive(Debug)]
pub enum Reply {
    Null,
    Flag(bool),
    /// A number, or null.
    Number(Option<u64>),
    /// A value that is given by its JSON text.
    Json(String),
    /// A window, with the identity under which it is saved.
    Window { window: WindowId, stable_id: String },
    /// A virtual buffer, with the split that it is shown in.
    VirtualBuffer { buffer: BufferId, split: Option<LeafId> },
}

/// An answer to a request that is not a promise value.
#[derive(Debug)]
pub enum PluginResponse {
    SnapshotSynced { request_id: u64 },
    WatchPathRejected { request_id: u64, reason: Rejection },
    TerminalCreated {
        request_id: u64,
        buffer: BufferId,
        terminal: WindowTerminalId,
        split: Option<LeafId>,
    },
    /// The answer names the identity under which the window is saved, too.
    WindowWithTerminalCreated {
        request_id: u64,
        window: WindowId,
        terminal: WindowTerminalId,
        buffer: BufferId,
    },
}

/// Who waits for a remote connection.
#[derive(Clone, Copy, Debug, PartialEq, Eq, Structural)]
pub enum RemoteAttachOwner {
    Plugin { instance: PluginInstanceId, request_id: u64, window: WindowId },
    Reconnect { window: WindowId },
    Switch { window: WindowId },
}

/// What becomes of a remote connection once it is there.
#[derive(Debug)]
pub enum RemoteAttachMode {
    /// The window gets its backend back.
    Reconnect { window: WindowId },
    /// The window is replaced by the new project.
    Switch { window: WindowId },
    /// A new window is made. Without a label of its own it is named like the
    /// connection.
    Window {
        label: Option<String>,
        command: Option<Arc<Vec<String>>>,
        activate: bool,
        initial_state: Option<RemoteInitialState>,
    },
    /// The editor restarts on the backend.
    Restart,
}

/// The state that a plugin gives to the window of a remote session.
#[derive(Debug)]
pub struct RemoteInitialState {
    pub plugin: String,
    pub values: Payload,
}

/// A process that a plugin starts.
#[derive(Debug)]
pub struct ProcessRequest {
    pub window: WindowId,
    pub process_id: u64,
    pub command: String,
    pub args: Vec<String>,
    /// Where it runs; the root of its window where nothing is given.
    pub cwd: Option<String>,
    pub stdout_to: Option<String>,
    pub callback: JsCallbackId,
}

/// What became of a process.
#[derive(Debug)]
pub struct ProcessOutcome {
    pub stdout: String,
    pub stderr: String,
    pub exit_code: i32,
}

/// The identity under which a plugin watches paths.
#[derive(Clone, Copy, Debug, PartialEq, Eq, Structural)]
pub struct WatchOwner {
    pub window: WindowId,
    pub authority: crate::ids::AuthorityStamp,
    /// Absent where the host itself watches.
    pub instance: Option<PluginInstanceId>,
}

/// A split that a virtual buffer gets for itself.
#[derive(Debug)]
pub struct FreshSplit {
    /// The split that the buffer has a tab in until it has its own.
    pub source: LeafId,
    pub direction: SplitDirection,
    pub ratio_bits: u32,
    /// Whether the new split comes before the old one.
    pub before: bool,
    /// Whether the split spans the window and becomes the utility dock.
    pub dock: bool,
    pub line_wrap: Option<bool>,
    pub show_line_numbers: bool,
    pub request_id: Option<u64>,
}

/// Where a virtual buffer goes.
#[derive(Debug)]
pub enum VirtualPlace {
    /// Into the active split, or nowhere where it is hidden.
    Tab { hidden: bool, initial_cursor_line: Option<u32> },
    /// Into the utility dock, away from the split that it has a tab in.
    Dock { leaf: LeafId, source: LeafId },
    /// Into a split of its own.
    Fresh(FreshSplit),
    /// Into a split that is there.
    Leaf { leaf: LeafId, line_wrap: Option<bool>, initial_cursor_line: Option<u32> },
}

/// What becomes of a virtual buffer once it is made.
#[derive(Debug)]
pub struct VirtualPlan {
    pub display: crate::command::VirtualBufferDisplay,
    pub indentation_guide: Option<bool>,
    pub scrollable: bool,
    /// The name under which the buffer is found again.
    pub panel_id: Option<String>,
    pub place: VirtualPlace,
    pub request_id: Option<u64>,
}

/// A saved window that is to come back.
#[derive(Debug)]
pub struct RestoreRequest {
    pub owner: CallbackOwner,
    pub callback: JsCallbackId,
    pub root: Arc<WorkspaceRoot>,
    pub label: String,
    /// The identity under which it was saved; absent for one without any.
    pub stable_id: Option<String>,
    pub activate: bool,
}

/// A remote session that a plugin attaches to.
#[derive(Debug)]
pub struct AttachRequest {
    pub instance: PluginInstanceId,
    pub window: WindowId,
    pub payload: String,
    pub activate: bool,
    pub initial_state: Option<RemoteInitialState>,
    pub request_id: u64,
}

/// A signal by name.
#[derive(Debug)]
pub enum SignalName {
    Terminate,
    Kill,
    /// Any other, in the words of the sender.
    Other(String),
}

/// A terminal that is being started, as those need to know it who go on with
/// it once it runs.
#[derive(Debug)]
pub struct TerminalTicket {
    pub owner: CallbackOwner,
    pub request_id: u64,
    pub window: WindowId,
    /// What was shown before, where the terminal is for the active window.
    pub previous_active_buffer: Option<BufferId>,
    /// The command line that a restore runs.
    pub restore_command: Option<Arc<Vec<String>>>,
    pub resume: Option<Arc<Vec<String>>>,
    pub selected_agent: bool,
}

/// Where a terminal is shown.
#[derive(Clone, Copy, Debug, PartialEq, Eq, Structural)]
pub struct TerminalPlacement {
    pub direction: Option<SplitDirection>,
    pub ratio_bits: Option<u32>,
    pub focus: bool,
    pub persistent: bool,
}

/// What the host is asked to do.
#[allow(inconsistent_fields)]
#[derive(Debug)]
pub enum Effect {
    /// Run the handler of a command that touches only the host's own state.
    Handle(PluginCommand),
    /// Read or change what is saved of workspaces, for the sender of the
    /// command.
    ManageWorkspace { owner: CallbackOwner, command: PluginCommand },
    /// Provide a backend for a new window and open it.
    OpenWindow { root: Arc<WorkspaceRoot>, label: String },
    /// Look for what was saved of a window.
    FindWorkspace { request: RestoreRequest },
    /// Restore what was saved of a window into it.
    RestoreWorkspace { window: WindowId, request: RestoreRequest },
    /// Read the description of a backend.
    ParseAuthority { window: WindowId, payload: Payload },
    /// Act through the backend that was last described for a window, or
    /// locally. All windows restart.
    InstallAuthority { window: WindowId, local: bool },
    /// Read the state of a remote indicator.
    ParseIndicator { window: WindowId, state: Payload },
    /// Read the description of a remote session.
    ParseAttach { request: AttachRequest },
    /// Activate an environment for a window's processes.
    SetEnv { window: WindowId, snippet: String, dir: Option<String> },
    ClearEnv { window: WindowId },
    /// Find out which language servers of a window run, so that they are started
    /// anew.
    RefreshLsp { window: WindowId },
    /// Start a language server of a window anew.
    RestartLspIn { window: WindowId, language: String, file: Option<String> },
    /// Open the buffers of a language in a window with its server again.
    ReopenBuffersIn { window: WindowId, language: String },
    SetLspRoot { language: String, uri: String },
    /// Stop a language server and save that it is not started again.
    DisableLsp { language: String },
    ClearLspWarnings,
    RestartLsp { language: String, file: Option<String> },
    /// Open the buffers of a language with its server again.
    ReopenBuffers { language: String },
    UnloadPlugin { name: String, callback: JsCallbackId },
    /// Load a plugin anew. One that ships with the editor is checked first.
    ReloadPlugin { name: String, callback: JsCallbackId, owner: CallbackOwner, bundled: bool },
    /// Store a value that a plugin keeps with a window.
    StoreWindowState { window: WindowId, plugin: String, key: String, value: Payload },
    /// Let the trackers of fired hooks know that a hook has run.
    CompleteHook { hook_name: String },
    /// Check the completion of an agent script against the script's grant.
    CompleteAgentScript {
        context: PluginCommandContext,
        request_id: u64,
        authority: Option<crate::ids::AuthorityStamp>,
        ok: bool,
        output: Payload,
        error: Option<String>,
    },
    /// Write a mouse report to a terminal.
    TerminalMouse { window: WindowId, report: TerminalMouseReport },
    /// Fire a hook with the state of `window` in view.
    RunHook { window: WindowId, event: HookEvent },
    /// Fire a hook of one plugin, with the state of `window` in view.
    RunHookFor { plugin: String, window: WindowId, event: HookEvent },
    /// Announce that a window was closed, with its last state in view.
    WindowClosed { window: Window },
    /// Announce that a session was dropped that had no window.
    SessionDropped { window: WindowId },
    /// Bring a snapshot up to date, as `window` sees the editor.
    RefreshSnapshot { target: SnapshotTarget, window: WindowId, scope: Option<WindowId> },
    /// Point the plugins' file access at the backends of all windows.
    RebuildFilesystems { active: WindowId },
    /// Empty a snapshot.
    ResetSnapshot { snapshot: SnapshotId },
    Resolve { owner: CallbackOwner, callback: JsCallbackId, reply: Reply },
    /// Resolve a promise with a text, which is given by its bytes.
    ResolveText { callback: JsCallbackId, text: Vec<u8> },
    Reject { owner: CallbackOwner, callback: JsCallbackId, reason: Rejection },
    Respond(PluginResponse),
    /// Queue the saving of a window that is being left.
    Checkpoint { window: WindowId },
    /// Restore the saved content of a window that was not shown yet.
    Materialize { window: WindowId },
    /// Give a window that has nothing to show a scratch buffer.
    EnsureLayout { window: WindowId },
    /// Point what is keyed by the backend at the active window's backend.
    AdoptAuthority { previous_label: String },
    /// Bring the terminal mode in line with the active buffer.
    SyncTerminalMode,
    /// Lay out the whole screen anew.
    Relayout,
    /// Clear the screen and draw everything.
    FullRedraw,
    /// Slide the area of the active window in.
    SlideIn { area: Rect, from: Edge, duration_ms: u64 },
    /// Ask the user whether the active project is trusted.
    PromptTrust,
    ReloadThemes,
    ApplyTheme { name: String },
    /// Show a dormant session's empty window, switch to it and connect.
    OpenDormantShell { window: WindowId, from_edge: Option<String> },
    /// Connect to a remote host as the user, if one is named. Where the session
    /// claims an identity, that very tenant has to be found there.
    Connect {
        attempt: u64,
        user: Option<String>,
        spec: Arc<RemoteAgentSpec>,
        mode: RemoteAttachMode,
    },
    /// Report that a connection cannot be made, and why.
    FailConnect { attempt: u64, reason: Rejection },
    /// Give up a connection.
    CancelConnect { attempt: u64 },
    /// Give up the connections that a plugin waits for: the one of a request,
    /// or all.
    CancelPluginAttach { instance: PluginInstanceId, request_id: Option<u64> },
    /// Draw the overlays anew, which hold the colours that they were drawn with.
    ReapplyOverlays,
    /// Show a dormant session's empty window with a connection error.
    ShowDormantFailure { window: WindowId, cause: Rejection },
    /// Drop a session's connection.
    DropKeepalive { window: WindowId },
    StopForwarder { channel: u64 },
    UnwatchWindow { window: WindowId },
    Watch { owner: WatchOwner, path: String, recursive: bool, request_id: u64 },
    Unwatch { owner: WatchOwner, handle: u64 },
    /// Forget what a companion of a terminal was told.
    PurgeCompanion { terminal: WindowTerminalId },
    /// Take back the right of terminals to drive the editor.
    RevokeScriptTokens { window: WindowId },
    RevokeScriptToken { window: WindowId, terminal: TerminalId },
    CloseTerminal { window: WindowId, terminal: TerminalId },
    /// Send a signal to all process groups of a window, and hand the answers
    /// back.
    Signal { window: WindowId, signal: SignalName },
    /// Send SIGKILL to exactly these process groups of a window, and hand the
    /// answers back.
    Escalate { window: WindowId, targets: Vec<ProcessGroupEntry> },
    /// Delete what was saved of a window, its terminals' files too.
    DiscardWorkspace { root: Arc<WorkspaceRoot>, stable_id: String },
    /// Provide a backend for a new window, open it and start its terminal.
    OpenTerminalWindow {
        owner: CallbackOwner,
        request_id: u64,
        root: Arc<WorkspaceRoot>,
        label: String,
        terminal: TerminalRequest,
        activate: bool,
        plugin: String,
        initial_state: Vec<(String, StateValue)>,
    },
    /// Assemble the environment of a terminal and start it.
    StartTerminal { ticket: TerminalTicket, terminal: TerminalRequest, placement: TerminalPlacement },
    /// Send SIGKILL to process groups that nothing tracks any more.
    KillGroups { targets: Vec<ProcessGroupEntry> },
    /// Send SIGKILL to what is left of the targets after a time.
    EscalateLater { window: WindowId, targets: Vec<ProcessGroupEntry>, grace_ms: u64 },
    FinishSelfUpdate,
    Spawn { request: ProcessRequest, operation: crate::notice::SpawnOperation },
    /// Ask whether the trust in its project lets a process run on the host.
    CheckTrust { request: ProcessRequest },
    /// Hand the outcome of a process to whoever waits for it.
    ProcessOutput { process_id: u64, outcome: ProcessOutcome },
    KillProcess { process_id: u64 },
    AbortBackground { process_id: u64 },
    Delay { callback: JsCallbackId, duration_ms: u64 },
    /// Do nothing at all for a time.
    Sleep { duration_ms: u64 },
    HttpFetch { url: String, target_path: String, callback: JsCallbackId },
    WriteTerminal { terminal: WindowTerminalId, data: String },
    SendCompanionCommand { terminal: WindowTerminalId, arguments: Payload, owner: CallbackOwner, request_id: u64 },
    CloseBuffer { window: WindowId, buffer: BufferId },
    /// Make a virtual buffer in the active window, with a tab unless it is
    /// detached, and then fill it.
    CreateVirtualBuffer { buffer: VirtualBufferRequest, detached: bool, plan: VirtualPlan },
    /// Make an empty virtual buffer in the active window.
    CreateEmptyVirtualBuffer { name: String, mode: String, read_only: bool },
    /// Fill a virtual buffer.
    SetVirtualContent { buffer: BufferId, entries: Payload },
    /// Split the active window, at its root or at its active split, and show
    /// a virtual buffer in the new half.
    SplitForBuffer { buffer: BufferId, plan: FreshSplit },
    /// Move the cursor of a buffer in some splits.
    SetCursor { buffer: BufferId, position: u64, splits: Vec<LeafId> },
    /// Show another buffer in a leaf.
    SetPaneBuffer { window: WindowId, leaf: LeafId, buffer: BufferId },
    CloseLeaf { window: WindowId, leaf: LeafId },
    /// Give the last leaf of a window an empty buffer, one that no tab shows
    /// where it is hidden.
    SeedLeaf { window: WindowId, leaf: LeafId, hidden: bool },
    /// Show a buffer of the active window.
    SetActiveBuffer { buffer: BufferId },
    /// Show a virtual buffer of the active window, and go on with it.
    ShowVirtualBuffer {
        buffer: BufferId,
        initial_cursor_line: Option<u32>,
        request_id: Option<u64>,
    },
    ResizeTerminals,
    /// Save a window again as it was saved before its tab was to move.
    RepublishSource { window: WindowId },
    /// Delete what is left of a window whose tab could not be moved.
    DiscardExtraction { root: Arc<WorkspaceRoot>, stable_id: String },
    /// Run actions of the editor, as the run says.
    RunActions { run: ActionRun },
    /// Run the handler of a plugin's timer.
    RunTimer { timer: u64, handler: String },
    PlayMacro { register: char },
    OpenFile { path: String, window: Option<WindowId> },
    ScrollSplit { buffer: BufferId, split: LeafId, line: u64 },
    ScrollBuffer { buffer: BufferId, splits: Vec<LeafId>, line: u64 },
    /// Mark the file of a buffer of the active window as read-only.
    MarkReadOnly { buffer: BufferId },
    /// Write a buffer of the active window to a path, and run what follows a
    /// save.
    SaveBuffer { buffer: BufferId, path: String },
    /// Ask how large the file of a buffer is by now.
    StatBuffer { buffer: BufferId, path: String, request_id: u64 },
    /// Read what was appended to the file of a buffer, and go on with it.
    ExtendBuffer { buffer: BufferId, size: u64, request_id: u64 },
    /// Open a file without showing it, and make an empty one where it is
    /// missing.
    OpenStreaming { path: String, request_id: u64 },
    /// Show a buffer in a panel of a group, and say whether that worked.
    SetGroupPanel { group_id: u64, panel_name: String, buffer: BufferId, request_id: u64 },
    CompositeHunk { split: LeafId, buffer: BufferId, forward: bool },
    RefreshLspMenu,
    /// Draw the description of a panel that goes into a buffer, from scratch or
    /// with what the panel shows kept.
    DrawWidgetPanel { panel: crate::widgets::PanelKey, buffer: BufferId, spec: Payload, fresh: bool },
    /// Draw the description of a floating panel, from scratch or with what the
    /// panel shows kept.
    DrawFloatingPanel {
        panel: crate::widgets::PanelKey,
        slot: crate::floating::PanelSlot,
        spec: Payload,
        fresh: bool,
    },
    /// Put the cursor of a buffer where the panel that was drawn into it has its
    /// focus.
    FocusPanelCursor { buffer: BufferId },
    /// Draw a widget panel again.
    RenderPanel { panel: crate::widgets::PanelKey },
    BlurPanel { slot: crate::floating::PanelSlot },
}

/// An effect as a mathematical value.
#[allow(inconsistent_fields)]
pub enum EffectModel {
    /// One that holds no list made by the editor.
    Plain(Effect),
    ResolveText { callback: JsCallbackId, text: Seq<u8> },
    EscalateLater { window: WindowId, targets: Seq<ProcessGroupEntry>, grace_ms: u64 },
    ScrollBuffer { buffer: BufferId, splits: Seq<LeafId>, line: u64 },
    SetCursor { buffer: BufferId, position: u64, splits: Seq<LeafId> },
    WindowClosed { window: WindowModel },
    KillGroups { targets: Seq<ProcessGroupEntry> },
    Escalate { window: WindowId, targets: Seq<ProcessGroupEntry> },
    DiscardWorkspace { root: Arc<WorkspaceRoot>, stable_id: Seq<char> },
    DiscardExtraction { root: Arc<WorkspaceRoot>, stable_id: Seq<char> },
    ProcessOutput { process_id: u64, stdout: Seq<char>, stderr: Seq<char>, exit_code: i32 },
    RunActions { run: ActionRunModel },
}

impl View for Effect {
    type V = EffectModel;

    open spec fn view(&self) -> EffectModel {
        match *self {
            Effect::ResolveText { callback, text } => EffectModel::ResolveText {
                callback,
                text: text@,
            },
            Effect::EscalateLater { window, targets, grace_ms } => EffectModel::EscalateLater {
                window,
                targets: targets@,
                grace_ms,
            },
            Effect::ScrollBuffer { buffer, splits, line } => EffectModel::ScrollBuffer {
                buffer,
                splits: splits@,
                line,
            },
            Effect::SetCursor { buffer, position, splits } => EffectModel::SetCursor {
                buffer,
                position,
                splits: splits@,
            },
            Effect::WindowClosed { window } => EffectModel::WindowClosed { window: window@ },
            Effect::KillGroups { targets } => EffectModel::KillGroups { targets: targets@ },
            Effect::Escalate { window, targets } => EffectModel::Escalate {
                window,
                targets: targets@,
            },
            Effect::DiscardWorkspace { root, stable_id } => EffectModel::DiscardWorkspace {
                root,
                stable_id: stable_id@,
            },
            Effect::DiscardExtraction { root, stable_id } => EffectModel::DiscardExtraction {
                root,
                stable_id: stable_id@,
            },
            Effect::ProcessOutput { process_id, outcome } => EffectModel::ProcessOutput {
                process_id,
                stdout: outcome.stdout@,
                stderr: outcome.stderr@,
                exit_code: outcome.exit_code,
            },
            Effect::RunActions { run } => EffectModel::RunActions { run: run@ },
            effect => EffectModel::Plain(effect),
        }
    }
}

/// The effects that write `reports` to the terminals of a window.
pub open spec fn mouse_effects(window: WindowId, reports: Seq<TerminalMouseReport>) -> Seq<
    EffectModel,
> {
    reports.map_values(
        |report: TerminalMouseReport| EffectModel::Plain(Effect::TerminalMouse { window, report }),
    )
}

} // verus!
