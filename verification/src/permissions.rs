//! Which plugin commands are carried out, by who sent them and what they touch.
use vstd::prelude::*;

use crate::command::PluginCommand;
use crate::command::PluginCommandContext;
use crate::command::PluginLoadProvenance;
use crate::ids::JsCallbackId;
use crate::ids::WindowId;

verus! {

/// What a command touches.
#[derive(Clone, Copy, Debug, PartialEq, Eq, Structural)]
pub enum CommandReach {
    /// The life of one window: to focus, warm up, signal, stop or close it.
    Lifecycle(WindowId),
    /// The state that plugins keep with one window.
    WindowState(WindowId),
    /// The processes, terminals or indicator of one window.
    Window(WindowId),
    /// A file that is opened in one window, or in whichever is active.
    OpenFile(Option<WindowId>),
    /// The backend of one window.
    Backend(WindowId),
    /// A window that comes back from what was saved of it.
    SavedWindow,
    /// Buffers, splits, prompts and views of the window that is selected.
    Selected,
    /// Anything else: registrations, configuration, the host, the editor.
    Editor,
}

/// What `command` touches.
pub open spec fn reach_of(command: PluginCommand) -> CommandReach {
    match command {
        PluginCommand::SetActiveWindow { id } => CommandReach::Lifecycle(id),
        PluginCommand::ActivateWindow { id, .. } => CommandReach::Lifecycle(id),
        PluginCommand::SetActiveWindowAnimated { id, .. } => CommandReach::Lifecycle(id),
        PluginCommand::CloseWindow { id } => CommandReach::Lifecycle(id),
        PluginCommand::PrewarmWindow { id } => CommandReach::Lifecycle(id),
        PluginCommand::SignalWindow { id, .. } => CommandReach::Lifecycle(id),
        PluginCommand::StopWindow { id, .. } => CommandReach::Lifecycle(id),
        PluginCommand::SetWindowState { window_id, .. } => CommandReach::WindowState(window_id),
        PluginCommand::OpenFileInBackground { window_id, .. } => CommandReach::OpenFile(window_id),
        PluginCommand::SpawnProcess { window_id, .. } => CommandReach::Window(window_id),
        PluginCommand::SpawnBackgroundProcess { window_id, .. } => CommandReach::Window(window_id),
        PluginCommand::KillBackgroundProcess { window_id, .. } => CommandReach::Window(window_id),
        PluginCommand::SpawnProcessWait { window_id, .. } => CommandReach::Window(window_id),
        PluginCommand::SetRemoteIndicatorState { window_id, .. } => CommandReach::Window(
            window_id,
        ),
        PluginCommand::ClearRemoteIndicatorState { window_id } => CommandReach::Window(window_id),
        PluginCommand::CreateTerminal { window_id, .. } => CommandReach::Window(window_id),
        PluginCommand::SendTerminalInput { terminal_id, .. } => CommandReach::Window(
            terminal_id.window,
        ),
        PluginCommand::CloseTerminal { terminal_id } => CommandReach::Window(terminal_id.window),
        PluginCommand::SetAuthority { window_id, .. } => CommandReach::Backend(window_id),
        PluginCommand::ClearAuthority { window_id } => CommandReach::Backend(window_id),
        PluginCommand::AttachRemoteAgent { window_id, .. } => CommandReach::Backend(window_id),
        PluginCommand::RestoreWorkspaceWindow { .. } => CommandReach::SavedWindow,
        _ => if is_selected_command(command) {
            CommandReach::Selected
        } else {
            CommandReach::Editor
        },
    }
}

/// Whether `command` touches only the window that is selected.
pub open spec fn is_selected_command(command: PluginCommand) -> bool {
    match command {
        // Text and decorations.
        PluginCommand::InsertText(_) | PluginCommand::DeleteRange(_)
        | PluginCommand::InsertAtCursor(_) | PluginCommand::DeleteSelection
        | PluginCommand::AddOverlay(_) | PluginCommand::RemoveOverlay(_)
        | PluginCommand::ClearAllOverlays(_) | PluginCommand::ClearNamespace(_)
        | PluginCommand::ClearOverlaysInRange(_)
        | PluginCommand::ClearOverlaysInRangeForNamespace(_) | PluginCommand::AddVirtualText(_)
        | PluginCommand::AddVirtualTextStyled(_) | PluginCommand::RemoveVirtualText(_)
        | PluginCommand::RemoveVirtualTextsByPrefix(_) | PluginCommand::ClearVirtualTexts(_)
        | PluginCommand::AddVirtualLine(_) | PluginCommand::ClearVirtualTextNamespace(_)
        | PluginCommand::ClearVirtualLinesInRange(_) | PluginCommand::AddConceal(_)
        | PluginCommand::ClearConcealNamespace(_) | PluginCommand::ClearConcealsInRange(_)
        | PluginCommand::ClearConcealsInRangeForNamespace(_) | PluginCommand::AddFold(_)
        | PluginCommand::ClearFolds(_) | PluginCommand::SetFoldingRanges(_)
        | PluginCommand::AddSoftBreak(_) | PluginCommand::ClearSoftBreakNamespace(_)
        | PluginCommand::ClearSoftBreaksInRange(_) | PluginCommand::RefreshLines(_)
        | PluginCommand::RefreshAllLines | PluginCommand::SetLineIndicator(_)
        | PluginCommand::SetLineIndicators(_) | PluginCommand::ClearLineIndicators(_)
        | PluginCommand::SetScrollbarMarkers(_) | PluginCommand::SetScrollbarMarkersInRange(_)
        | PluginCommand::ClearScrollbarMarkers(_) | PluginCommand::SetFileExplorerDecorations(_)
        | PluginCommand::ClearFileExplorerDecorations(_) | PluginCommand::SetFileExplorerSlots(_)
        | PluginCommand::ClearFileExplorerSlots(_) | PluginCommand::SetLineTargets(_) => true,
        // Status, views and waiting.
        PluginCommand::SetStatus { .. } | PluginCommand::SetStatusBarValue(_)
        | PluginCommand::WatchPath { .. } | PluginCommand::UnwatchPath { .. }
        | PluginCommand::Delay { .. } | PluginCommand::HttpFetch { .. }
        | PluginCommand::SetLayoutHints(_) | PluginCommand::SetLineNumbers(_)
        | PluginCommand::SetIndentationGuide(_) | PluginCommand::SetViewMode(_)
        | PluginCommand::SetLineWrap(_) | PluginCommand::SetViewState(_)
        | PluginCommand::HookCompleted { .. } | PluginCommand::FlushLayout
        | PluginCommand::StartAnimationArea(_) | PluginCommand::StartAnimationVirtualBuffer(_)
        | PluginCommand::CancelAnimation { .. } | PluginCommand::ShowActionPopup { .. } => true,
        // Prompts and keys.
        PluginCommand::CancelPrompt | PluginCommand::StartPrompt(_)
        | PluginCommand::StartPromptWithInitial(_) | PluginCommand::StartPromptAsync { .. }
        | PluginCommand::StartFilePickAsync { .. } | PluginCommand::AwaitNextKey { .. }
        | PluginCommand::SetKeyCaptureActive { .. } | PluginCommand::SetPromptSuggestions(_)
        | PluginCommand::SetPromptInputSync { .. } | PluginCommand::SetPromptTitle { .. }
        | PluginCommand::SetPromptFooter { .. } | PluginCommand::SetPromptToolbar { .. }
        | PluginCommand::SetPromptStatus { .. } | PluginCommand::ToggleOverlayToolbarWidget(_)
        | PluginCommand::SetPromptSelectedIndex { .. } => true,
        // Buffers and files.
        PluginCommand::OpenFileAtLocation(_) | PluginCommand::OpenFileInSplit(_)
        | PluginCommand::OpenFileStreaming { .. } | PluginCommand::RefreshBufferFromDisk { .. }
        | PluginCommand::CreateVirtualBuffer { .. }
        | PluginCommand::CreateVirtualBufferWithContent { .. }
        | PluginCommand::CreateVirtualBufferInSplit { .. }
        | PluginCommand::CreateVirtualBufferInExistingSplit { .. }
        | PluginCommand::SetVirtualBufferContent { .. }
        | PluginCommand::GetTextPropertiesAtCursor { .. } | PluginCommand::CreateBufferGroup { .. }
        | PluginCommand::SetPanelContent(_) | PluginCommand::CloseBufferGroup(_)
        | PluginCommand::FocusPanel(_) | PluginCommand::SetBufferGroupPanelBuffer { .. }
        | PluginCommand::ShowBuffer(_) | PluginCommand::CloseBuffer(_)
        | PluginCommand::CloseOtherBuffersInSplit(_) | PluginCommand::CloseAllBuffersInSplit(_)
        | PluginCommand::CloseBuffersToRightInSplit(_)
        | PluginCommand::CloseBuffersToLeftInSplit(_) | PluginCommand::MoveTabLeft
        | PluginCommand::MoveTabRight | PluginCommand::MarkBufferReadOnly { .. }
        | PluginCommand::SaveBufferToPath { .. } | PluginCommand::GetBufferText { .. }
        | PluginCommand::GetLineStartPosition { .. } | PluginCommand::GetLineEndPosition { .. }
        | PluginCommand::GetBufferLineCount { .. } | PluginCommand::GetCompositeCursorInfo { .. }
        | PluginCommand::CreateCompositeBuffer { .. } | PluginCommand::UpdateCompositeAlignment(_)
        | PluginCommand::CloseCompositeBuffer(_) | PluginCommand::CompositeNextHunk { .. }
        | PluginCommand::CompositePrevHunk { .. } | PluginCommand::SetBufferCursor(_)
        | PluginCommand::SetBufferShowCursors { .. } | PluginCommand::SetReviewDiffHunks { .. }
        | PluginCommand::SetClipboard(_) | PluginCommand::SendLspRequest { .. } => true,
        // Splits.
        PluginCommand::SplitWindow { .. } | PluginCommand::MoveBufferToSplit(_)
        | PluginCommand::FocusSplit(_) | PluginCommand::SetSplitBuffer(_)
        | PluginCommand::SetSplitScroll(_) | PluginCommand::RequestHighlights { .. }
        | PluginCommand::CloseSplit(_) | PluginCommand::SetSplitRatio(_)
        | PluginCommand::SetSplitLabel { .. } | PluginCommand::ClearSplitLabel { .. }
        | PluginCommand::GetSplitByLabel { .. } | PluginCommand::DistributeSplitsEvenly(_)
        | PluginCommand::ScrollToLineCenter { .. } | PluginCommand::ScrollBufferToLine { .. }
        | PluginCommand::CreateScrollSyncGroup { .. } | PluginCommand::SetScrollSyncAnchors { .. }
        | PluginCommand::RemoveScrollSyncGroup { .. } => true,
        // Comparison, search and widgets.
        PluginCommand::RegisterDiffBaseline { .. } | PluginCommand::DiffAgainstBaseline { .. }
        | PluginCommand::DiffBaselinePair { .. } | PluginCommand::GetBaselineLines { .. }
        | PluginCommand::RefreshDiffBaseline { .. } | PluginCommand::ReleaseDiffBaseline(_)
        | PluginCommand::GrepProject { .. } | PluginCommand::BeginSearch(_)
        | PluginCommand::ReplaceInBuffer { .. } | PluginCommand::MountWidgetPanel { .. }
        | PluginCommand::UpdateWidgetPanel { .. } | PluginCommand::UnmountWidgetPanel { .. }
        | PluginCommand::WidgetCommand { .. } | PluginCommand::WidgetMutate { .. } => true,
        _ => false,
    }
}

/// Whether a script that may touch only `scope` may send something of this
/// reach. What is not known to be local to a window is denied.
pub open spec fn scope_allows(scope: WindowId, reach: CommandReach) -> bool {
    match reach {
        CommandReach::Lifecycle(id) => id == scope,
        CommandReach::WindowState(id) => id == scope,
        CommandReach::Window(id) => id == scope,
        CommandReach::OpenFile(id) => id is None || id == Some(scope),
        CommandReach::Selected => true,
        CommandReach::Backend(_) | CommandReach::SavedWindow | CommandReach::Editor => false,
    }
}

/// Whether a plugin that acts for the window `source` may send something of
/// this reach. Only the bundled Orchestrator reaches into other windows.
pub open spec fn source_allows(source: WindowId, reach: CommandReach, trusted: bool) -> bool {
    match reach {
        CommandReach::Lifecycle(id) => id == source || trusted,
        CommandReach::WindowState(id) => id == source || trusted,
        CommandReach::Window(id) => id == source,
        CommandReach::OpenFile(id) => id is None || id == Some(source),
        CommandReach::Backend(id) => id == source,
        CommandReach::SavedWindow => trusted,
        CommandReach::Selected | CommandReach::Editor => true,
    }
}

impl PluginCommand {
    /// What the command touches.
    pub fn reach(&self) -> (reach: CommandReach)
        ensures
            reach == reach_of(*self),
    {
        match self {
            PluginCommand::SetActiveWindow { id } | PluginCommand::CloseWindow { id }
            | PluginCommand::PrewarmWindow { id } => CommandReach::Lifecycle(*id),
            PluginCommand::ActivateWindow { id, .. }
            | PluginCommand::SetActiveWindowAnimated { id, .. }
            | PluginCommand::SignalWindow { id, .. } | PluginCommand::StopWindow { id, .. } =>
                CommandReach::Lifecycle(*id),
            PluginCommand::SetWindowState { window_id, .. } => CommandReach::WindowState(
                *window_id,
            ),
            PluginCommand::OpenFileInBackground { window_id, .. } => CommandReach::OpenFile(
                *window_id,
            ),
            PluginCommand::SpawnProcess { window_id, .. }
            | PluginCommand::SpawnBackgroundProcess { window_id, .. }
            | PluginCommand::KillBackgroundProcess { window_id, .. }
            | PluginCommand::SpawnProcessWait { window_id, .. }
            | PluginCommand::SetRemoteIndicatorState { window_id, .. }
            | PluginCommand::ClearRemoteIndicatorState { window_id }
            | PluginCommand::CreateTerminal { window_id, .. } => CommandReach::Window(*window_id),
            PluginCommand::SendTerminalInput { terminal_id, .. }
            | PluginCommand::CloseTerminal { terminal_id } => CommandReach::Window(
                terminal_id.window,
            ),
            PluginCommand::SetAuthority { window_id, .. }
            | PluginCommand::ClearAuthority { window_id }
            | PluginCommand::AttachRemoteAgent { window_id, .. } => CommandReach::Backend(
                *window_id,
            ),
            PluginCommand::RestoreWorkspaceWindow { .. } => CommandReach::SavedWindow,
            other => if other.stays_in_selected_window() {
                CommandReach::Selected
            } else {
                CommandReach::Editor
            },
        }
    }

    /// Whether the command touches only the window that is selected.
    fn stays_in_selected_window(&self) -> (selected: bool)
        ensures
            selected == is_selected_command(*self),
    {
        match self {
            // Text and decorations.
            PluginCommand::InsertText(_) | PluginCommand::DeleteRange(_)
            | PluginCommand::InsertAtCursor(_) | PluginCommand::DeleteSelection
            | PluginCommand::AddOverlay(_) | PluginCommand::RemoveOverlay(_)
            | PluginCommand::ClearAllOverlays(_) | PluginCommand::ClearNamespace(_)
            | PluginCommand::ClearOverlaysInRange(_)
            | PluginCommand::ClearOverlaysInRangeForNamespace(_) | PluginCommand::AddVirtualText(_)
            | PluginCommand::AddVirtualTextStyled(_) | PluginCommand::RemoveVirtualText(_)
            | PluginCommand::RemoveVirtualTextsByPrefix(_) | PluginCommand::ClearVirtualTexts(_)
            | PluginCommand::AddVirtualLine(_) | PluginCommand::ClearVirtualTextNamespace(_)
            | PluginCommand::ClearVirtualLinesInRange(_) | PluginCommand::AddConceal(_)
            | PluginCommand::ClearConcealNamespace(_) | PluginCommand::ClearConcealsInRange(_)
            | PluginCommand::ClearConcealsInRangeForNamespace(_) | PluginCommand::AddFold(_)
            | PluginCommand::ClearFolds(_) | PluginCommand::SetFoldingRanges(_)
            | PluginCommand::AddSoftBreak(_) | PluginCommand::ClearSoftBreakNamespace(_)
            | PluginCommand::ClearSoftBreaksInRange(_) | PluginCommand::RefreshLines(_)
            | PluginCommand::RefreshAllLines | PluginCommand::SetLineIndicator(_)
            | PluginCommand::SetLineIndicators(_) | PluginCommand::ClearLineIndicators(_)
            | PluginCommand::SetScrollbarMarkers(_) | PluginCommand::SetScrollbarMarkersInRange(_)
            | PluginCommand::ClearScrollbarMarkers(_) | PluginCommand::SetFileExplorerDecorations(_)
            | PluginCommand::ClearFileExplorerDecorations(_) | PluginCommand::SetFileExplorerSlots(_)
            | PluginCommand::ClearFileExplorerSlots(_) | PluginCommand::SetLineTargets(_) => true,
            // Status, views and waiting.
            PluginCommand::SetStatus { .. } | PluginCommand::SetStatusBarValue(_)
            | PluginCommand::WatchPath { .. } | PluginCommand::UnwatchPath { .. }
            | PluginCommand::Delay { .. } | PluginCommand::HttpFetch { .. }
            | PluginCommand::SetLayoutHints(_) | PluginCommand::SetLineNumbers(_)
            | PluginCommand::SetIndentationGuide(_) | PluginCommand::SetViewMode(_)
            | PluginCommand::SetLineWrap(_) | PluginCommand::SetViewState(_)
            | PluginCommand::HookCompleted { .. } | PluginCommand::FlushLayout
            | PluginCommand::StartAnimationArea(_) | PluginCommand::StartAnimationVirtualBuffer(_)
            | PluginCommand::CancelAnimation { .. } | PluginCommand::ShowActionPopup { .. } => true,
            // Prompts and keys.
            PluginCommand::CancelPrompt | PluginCommand::StartPrompt(_)
            | PluginCommand::StartPromptWithInitial(_) | PluginCommand::StartPromptAsync { .. }
            | PluginCommand::StartFilePickAsync { .. } | PluginCommand::AwaitNextKey { .. }
            | PluginCommand::SetKeyCaptureActive { .. } | PluginCommand::SetPromptSuggestions(_)
            | PluginCommand::SetPromptInputSync { .. } | PluginCommand::SetPromptTitle { .. }
            | PluginCommand::SetPromptFooter { .. } | PluginCommand::SetPromptToolbar { .. }
            | PluginCommand::SetPromptStatus { .. } | PluginCommand::ToggleOverlayToolbarWidget(_)
            | PluginCommand::SetPromptSelectedIndex { .. } => true,
            // Buffers and files.
            PluginCommand::OpenFileAtLocation(_) | PluginCommand::OpenFileInSplit(_)
            | PluginCommand::OpenFileStreaming { .. } | PluginCommand::RefreshBufferFromDisk { .. }
            | PluginCommand::CreateVirtualBuffer { .. }
            | PluginCommand::CreateVirtualBufferWithContent { .. }
            | PluginCommand::CreateVirtualBufferInSplit { .. }
            | PluginCommand::CreateVirtualBufferInExistingSplit { .. }
            | PluginCommand::SetVirtualBufferContent { .. }
            | PluginCommand::GetTextPropertiesAtCursor { .. } | PluginCommand::CreateBufferGroup { .. }
            | PluginCommand::SetPanelContent(_) | PluginCommand::CloseBufferGroup(_)
            | PluginCommand::FocusPanel(_) | PluginCommand::SetBufferGroupPanelBuffer { .. }
            | PluginCommand::ShowBuffer(_) | PluginCommand::CloseBuffer(_)
            | PluginCommand::CloseOtherBuffersInSplit(_) | PluginCommand::CloseAllBuffersInSplit(_)
            | PluginCommand::CloseBuffersToRightInSplit(_)
            | PluginCommand::CloseBuffersToLeftInSplit(_) | PluginCommand::MoveTabLeft
            | PluginCommand::MoveTabRight | PluginCommand::MarkBufferReadOnly { .. }
            | PluginCommand::SaveBufferToPath { .. } | PluginCommand::GetBufferText { .. }
            | PluginCommand::GetLineStartPosition { .. } | PluginCommand::GetLineEndPosition { .. }
            | PluginCommand::GetBufferLineCount { .. } | PluginCommand::GetCompositeCursorInfo { .. }
            | PluginCommand::CreateCompositeBuffer { .. } | PluginCommand::UpdateCompositeAlignment(_)
            | PluginCommand::CloseCompositeBuffer(_) | PluginCommand::CompositeNextHunk { .. }
            | PluginCommand::CompositePrevHunk { .. } | PluginCommand::SetBufferCursor(_)
            | PluginCommand::SetBufferShowCursors { .. } | PluginCommand::SetReviewDiffHunks { .. }
            | PluginCommand::SetClipboard(_) | PluginCommand::SendLspRequest { .. } => true,
            // Splits.
            PluginCommand::SplitWindow { .. } | PluginCommand::MoveBufferToSplit(_)
            | PluginCommand::FocusSplit(_) | PluginCommand::SetSplitBuffer(_)
            | PluginCommand::SetSplitScroll(_) | PluginCommand::RequestHighlights { .. }
            | PluginCommand::CloseSplit(_) | PluginCommand::SetSplitRatio(_)
            | PluginCommand::SetSplitLabel { .. } | PluginCommand::ClearSplitLabel { .. }
            | PluginCommand::GetSplitByLabel { .. } | PluginCommand::DistributeSplitsEvenly(_)
            | PluginCommand::ScrollToLineCenter { .. } | PluginCommand::ScrollBufferToLine { .. }
            | PluginCommand::CreateScrollSyncGroup { .. } | PluginCommand::SetScrollSyncAnchors { .. }
            | PluginCommand::RemoveScrollSyncGroup { .. } => true,
            // Comparison, search and widgets.
            PluginCommand::RegisterDiffBaseline { .. } | PluginCommand::DiffAgainstBaseline { .. }
            | PluginCommand::DiffBaselinePair { .. } | PluginCommand::GetBaselineLines { .. }
            | PluginCommand::RefreshDiffBaseline { .. } | PluginCommand::ReleaseDiffBaseline(_)
            | PluginCommand::GrepProject { .. } | PluginCommand::BeginSearch(_)
            | PluginCommand::ReplaceInBuffer { .. } | PluginCommand::MountWidgetPanel { .. }
            | PluginCommand::UpdateWidgetPanel { .. } | PluginCommand::UnmountWidgetPanel { .. }
            | PluginCommand::WidgetCommand { .. } | PluginCommand::WidgetMutate { .. } => true,
            _ => false,
        }
    }

    /// Whether a script that may touch only `scope` may send the command.
    pub fn scoped_plugin_command_allowed(&self, scope: WindowId) -> (allowed: bool)
        ensures
            allowed == scope_allows(scope, reach_of(*self)),
    {
        match self.reach() {
            CommandReach::Lifecycle(id) | CommandReach::WindowState(id)
            | CommandReach::Window(id) => id == scope,
            CommandReach::OpenFile(id) => match id {
                Some(id) => id == scope,
                None => true,
            },
            CommandReach::Selected => true,
            CommandReach::Backend(_) | CommandReach::SavedWindow | CommandReach::Editor => false,
        }
    }

    /// Whether a plugin that acts for the window `source` may send the command.
    pub fn source_plugin_command_allowed(&self, source: WindowId, trusted_orchestrator: bool) -> (allowed: bool)
        ensures
            allowed == source_allows(source, reach_of(*self), trusted_orchestrator),
    {
        match self.reach() {
            CommandReach::Lifecycle(id) | CommandReach::WindowState(id) => id == source
                || trusted_orchestrator,
            CommandReach::Window(id) | CommandReach::Backend(id) => id == source,
            CommandReach::OpenFile(id) => match id {
                Some(id) => id == source,
                None => true,
            },
            CommandReach::SavedWindow => trusted_orchestrator,
            CommandReach::Selected | CommandReach::Editor => true,
        }
    }
}

/// A promise that may be absent.
pub open spec fn optional_callback(request_id: Option<u64>) -> Option<JsCallbackId> {
    match request_id {
        Some(id) => Some(JsCallbackId(id)),
        None => None,
    }
}

/// The promise that waits for `command`, which has to be rejected where the
/// command is dropped.
pub open spec fn callback_of(command: PluginCommand) -> Option<JsCallbackId> {
    match command {
        PluginCommand::ReloadGrammars { callback_id, .. } => Some(callback_id),
        PluginCommand::StartPromptAsync { callback_id, .. } => Some(callback_id),
        PluginCommand::StartFilePickAsync { callback_id, .. } => Some(callback_id),
        PluginCommand::AwaitNextKey { callback_id, .. } => Some(callback_id),
        PluginCommand::RestoreWorkspaceWindow { callback_id, .. } => Some(callback_id),
        PluginCommand::InspectWorkspacePersistence { callback_id, .. } => Some(callback_id),
        PluginCommand::InspectWorkspaceCreateAttempt { callback_id, .. } => Some(callback_id),
        PluginCommand::ForgetWorkspacePersistence { callback_id, .. } => Some(callback_id),
        PluginCommand::AcquireWorkspaceRootOwnership { callback_id, .. } => Some(callback_id),
        PluginCommand::ReleaseWorkspaceRootOwnership { callback_id, .. } => Some(callback_id),
        PluginCommand::QuarantineWorkspaceArtifacts { callback_id, .. } => Some(callback_id),
        PluginCommand::RestoreWorkspaceArtifacts { callback_id, .. } => Some(callback_id),
        PluginCommand::PurgeWorkspaceArtifactQuarantine { callback_id, .. } => Some(callback_id),
        PluginCommand::SpawnProcess { callback_id, .. } => Some(callback_id),
        PluginCommand::SpawnHostProcess { callback_id, .. } => Some(callback_id),
        PluginCommand::SpawnProcessWait { callback_id, .. } => Some(callback_id),
        PluginCommand::Delay { callback_id, .. } => Some(callback_id),
        PluginCommand::HttpFetch { callback_id, .. } => Some(callback_id),
        PluginCommand::SpawnBackgroundProcess { callback_id, .. } => Some(callback_id),
        PluginCommand::LoadPlugin { callback_id, .. } => Some(callback_id),
        PluginCommand::UnloadPlugin { callback_id, .. } => Some(callback_id),
        PluginCommand::ReloadPlugin { callback_id, .. } => Some(callback_id),
        PluginCommand::ListPlugins { callback_id, .. } => Some(callback_id),
        PluginCommand::ReloadInit { callback_id, .. } => Some(callback_id),
        PluginCommand::RunEditorCommand { callback_id, .. } => Some(callback_id),
        PluginCommand::ListEditorCommands { callback_id, .. } => Some(callback_id),
        PluginCommand::RegisterDiffBaseline { callback_id, .. } => Some(callback_id),
        PluginCommand::DiffAgainstBaseline { callback_id, .. } => Some(callback_id),
        PluginCommand::DiffBaselinePair { callback_id, .. } => Some(callback_id),
        PluginCommand::GetBaselineLines { callback_id, .. } => Some(callback_id),
        PluginCommand::RefreshDiffBaseline { callback_id, .. } => Some(callback_id),
        PluginCommand::GrepProject { callback_id, .. } => Some(callback_id),
        PluginCommand::ReplaceInBuffer { callback_id, .. } => Some(callback_id),
        PluginCommand::RequestHighlights { request_id, .. } => Some(JsCallbackId(request_id)),
        PluginCommand::GetSplitByLabel { request_id, .. } => Some(JsCallbackId(request_id)),
        PluginCommand::CreateWindowWithTerminal { request_id, .. } => Some(JsCallbackId(request_id)),
        PluginCommand::SendOmpCompanionCommand { request_id, .. } => Some(JsCallbackId(request_id)),
        PluginCommand::ActivateWindow { request_id, .. } => Some(JsCallbackId(request_id)),
        PluginCommand::WatchPath { request_id, .. } => Some(JsCallbackId(request_id)),
        PluginCommand::SendLspRequest { request_id, .. } => Some(JsCallbackId(request_id)),
        PluginCommand::AttachRemoteAgent { request_id, .. } => Some(JsCallbackId(request_id)),
        PluginCommand::CancelRemoteAttach { request_id, .. } => Some(JsCallbackId(request_id)),
        PluginCommand::GetBufferText { request_id, .. } => Some(JsCallbackId(request_id)),
        PluginCommand::GetLineStartPosition { request_id, .. } => Some(JsCallbackId(request_id)),
        PluginCommand::GetLineEndPosition { request_id, .. } => Some(JsCallbackId(request_id)),
        PluginCommand::GetBufferLineCount { request_id, .. } => Some(JsCallbackId(request_id)),
        PluginCommand::GetCompositeCursorInfo { request_id, .. } => Some(JsCallbackId(request_id)),
        PluginCommand::OpenFileStreaming { request_id, .. } => Some(JsCallbackId(request_id)),
        PluginCommand::RefreshBufferFromDisk { request_id, .. } => Some(JsCallbackId(request_id)),
        PluginCommand::SetBufferGroupPanelBuffer { request_id, .. } => Some(JsCallbackId(request_id)),
        PluginCommand::SyncSnapshot { request_id, .. } => Some(JsCallbackId(request_id)),
        PluginCommand::CreateTerminal { request_id, .. } => Some(JsCallbackId(request_id)),
        PluginCommand::CreateVirtualBufferWithContent { request_id, .. } => optional_callback(request_id),
        PluginCommand::CreateVirtualBufferInSplit { request_id, .. } => optional_callback(request_id),
        PluginCommand::CreateVirtualBufferInExistingSplit { request_id, .. } => optional_callback(request_id),
        PluginCommand::CreateCompositeBuffer { request_id, .. } => optional_callback(request_id),
        PluginCommand::SplitWindow { request_id, .. } => optional_callback(request_id),
        PluginCommand::CreateBufferGroup { request_id, .. } => optional_callback(request_id),
        _ => None,
    }
}

impl PluginCommand {
    /// The promise that waits for the command. The completion of an agent
    /// script answers a request and waits for nothing.
    pub fn async_command_callback_id(&self) -> (callback: Option<JsCallbackId>)
        ensures
            callback == callback_of(*self),
    {
        match self {
            PluginCommand::ReloadGrammars { callback_id, .. }
            | PluginCommand::StartPromptAsync { callback_id, .. }
            | PluginCommand::StartFilePickAsync { callback_id, .. }
            | PluginCommand::AwaitNextKey { callback_id, .. }
            | PluginCommand::RestoreWorkspaceWindow { callback_id, .. }
            | PluginCommand::InspectWorkspacePersistence { callback_id, .. }
            | PluginCommand::InspectWorkspaceCreateAttempt { callback_id, .. }
            | PluginCommand::ForgetWorkspacePersistence { callback_id, .. }
            | PluginCommand::AcquireWorkspaceRootOwnership { callback_id, .. }
            | PluginCommand::ReleaseWorkspaceRootOwnership { callback_id, .. }
            | PluginCommand::QuarantineWorkspaceArtifacts { callback_id, .. }
            | PluginCommand::RestoreWorkspaceArtifacts { callback_id, .. }
            | PluginCommand::PurgeWorkspaceArtifactQuarantine { callback_id, .. }
            | PluginCommand::SpawnProcess { callback_id, .. }
            | PluginCommand::SpawnHostProcess { callback_id, .. }
            | PluginCommand::SpawnProcessWait { callback_id, .. }
            | PluginCommand::Delay { callback_id, .. }
            | PluginCommand::HttpFetch { callback_id, .. }
            | PluginCommand::SpawnBackgroundProcess { callback_id, .. }
            | PluginCommand::LoadPlugin { callback_id, .. }
            | PluginCommand::UnloadPlugin { callback_id, .. }
            | PluginCommand::ReloadPlugin { callback_id, .. }
            | PluginCommand::ListPlugins { callback_id, .. }
            | PluginCommand::ReloadInit { callback_id, .. }
            | PluginCommand::RunEditorCommand { callback_id, .. }
            | PluginCommand::ListEditorCommands { callback_id, .. }
            | PluginCommand::RegisterDiffBaseline { callback_id, .. }
            | PluginCommand::DiffAgainstBaseline { callback_id, .. }
            | PluginCommand::DiffBaselinePair { callback_id, .. }
            | PluginCommand::GetBaselineLines { callback_id, .. }
            | PluginCommand::RefreshDiffBaseline { callback_id, .. }
            | PluginCommand::GrepProject { callback_id, .. }
            | PluginCommand::ReplaceInBuffer { callback_id, .. } => Some(*callback_id),
            PluginCommand::RequestHighlights { request_id, .. }
            | PluginCommand::GetSplitByLabel { request_id, .. }
            | PluginCommand::CreateWindowWithTerminal { request_id, .. }
            | PluginCommand::SendOmpCompanionCommand { request_id, .. }
            | PluginCommand::ActivateWindow { request_id, .. }
            | PluginCommand::WatchPath { request_id, .. }
            | PluginCommand::SendLspRequest { request_id, .. }
            | PluginCommand::AttachRemoteAgent { request_id, .. }
            | PluginCommand::CancelRemoteAttach { request_id, .. }
            | PluginCommand::GetBufferText { request_id, .. }
            | PluginCommand::GetLineStartPosition { request_id, .. }
            | PluginCommand::GetLineEndPosition { request_id, .. }
            | PluginCommand::GetBufferLineCount { request_id, .. }
            | PluginCommand::GetCompositeCursorInfo { request_id, .. }
            | PluginCommand::OpenFileStreaming { request_id, .. }
            | PluginCommand::RefreshBufferFromDisk { request_id, .. }
            | PluginCommand::SetBufferGroupPanelBuffer { request_id, .. }
            | PluginCommand::SyncSnapshot { request_id, .. }
            | PluginCommand::CreateTerminal { request_id, .. } => Some(JsCallbackId(*request_id)),
            PluginCommand::CreateVirtualBufferWithContent { request_id, .. }
            | PluginCommand::CreateVirtualBufferInSplit { request_id, .. }
            | PluginCommand::CreateVirtualBufferInExistingSplit { request_id, .. }
            | PluginCommand::CreateCompositeBuffer { request_id, .. }
            | PluginCommand::SplitWindow { request_id, .. }
            | PluginCommand::CreateBufferGroup { request_id, .. } => match request_id {
                Some(id) => Some(JsCallbackId(*id)),
                None => None,
            },
            _ => None,
        }
    }
}

/// Whether a context may send commands at all: the host always, an instance
/// that is gone only to be cleaned up after.
pub open spec fn may_dispatch(context: PluginCommandContext, instance_is_active: bool) -> bool {
    context.is_internal() || context.spec_is_compensating_cleanup() || instance_is_active
}

/// Whether a context may send commands at all.
pub fn plugin_context_may_dispatch(context: &PluginCommandContext, instance_is_active: bool) -> (may:
    bool)
    ensures
        may == may_dispatch(*context, instance_is_active),
{
    context.provenance == PluginLoadProvenance::Internal || context.is_compensating_cleanup()
        || instance_is_active
}

/// Whether a context may ask for script access, companions and agent tracking.
pub open spec fn may_use_privileged_terminals(
    context: PluginCommandContext,
    instance_is_active: bool,
) -> bool {
    context.is_internal() || (context.spec_is_trusted_orchestrator() && instance_is_active)
}

/// Whether a context may ask for script access, companions and agent tracking.
pub fn context_may_use_privileged_terminal_options(
    context: &PluginCommandContext,
    instance_is_active: bool,
) -> (may: bool)
    ensures
        may == may_use_privileged_terminals(*context, instance_is_active),
{
    context.provenance == PluginLoadProvenance::Internal || (context.is_trusted_orchestrator()
        && instance_is_active)
}

/// Whether a context may read and change what is saved of workspaces.
pub open spec fn may_manage_persistence(
    context: PluginCommandContext,
    instance_is_active: bool,
) -> bool {
    context.window_scope is None && context.spec_is_trusted_orchestrator() && instance_is_active
}

/// Whether a context may read and change what is saved of workspaces.
pub fn context_may_manage_workspace_persistence(
    context: &PluginCommandContext,
    instance_is_active: bool,
) -> (may: bool)
    ensures
        may == may_manage_persistence(*context, instance_is_active),
{
    context.window_scope.is_none() && context.is_trusted_orchestrator() && instance_is_active
}

/// Whether a context may unload or reload the plugins that ship with the editor.
pub fn context_may_manage_bundled_plugins(context: &PluginCommandContext) -> (may: bool)
    ensures
        may == context.is_internal(),
{
    context.provenance == PluginLoadProvenance::Internal
}

} // verus!
