//! What the user and the plugins are told, and the exact wording.
use std::sync::Arc;
use vstd::prelude::*;

use crate::authority::RemoteAgentSpec;
use crate::ids::BufferId;
use crate::ids::WindowId;
use crate::text::decimal;
use crate::text::decimal_text;

verus! {

/// A message that is worded in the user's language by the host.
#[derive(Debug)]
pub enum LocalizedMessage {
    /// `status.update_running`
    UpdateRunning,
    /// `workspace.extract_terminal_script_capable`
    ExtractTerminalScriptCapable,
    /// `workspace.extract_terminal_companion`
    ExtractTerminalCompanion,
    /// `workspace.extract_no_file_path`
    ExtractNoFilePath,
    /// `workspace.extract_terminal_dormant`
    ExtractTerminalDormant,
    /// `workspace.extracted_tab`, with the tab's name and the window's label.
    ExtractedTab { name: String, label: String },
}

/// A status message of a window.
#[derive(Debug)]
pub enum Notice {
    /// A message in words that were given.
    Text(String),
    Localized(LocalizedMessage),
    EnvironmentNotTrusted,
    LspDisabled { language: String, config_saved: bool },
    NoLspManager,
    LspRootSet { language: String, restarted: bool },
    InvalidLspRoot { error: String },
    AuthorityRejected { error: String },
    RemoteIndicatorRejected { error: String },
    Connecting { spec: Arc<RemoteAgentSpec> },
    ConnectionFailed { cause: Arc<Rejection> },
    ProjectSwitchFailed { cause: Rejection },
    Connected,
    ConnectedTo { label: String },
    TerminalModeDisabled,
    ExtractNotLocal,
    ExtractRolledBack,
    ExtractPending,
    SaveFailed { error: String },
    BufferNotFound { buffer: BufferId },
}

/// Why an asynchronous command of a plugin was not carried out.
#[derive(Debug)]
pub enum Rejection {
    /// An error in words that were given.
    Text(String),
    InstanceReplaced,
    SourceWindowClosed,
    SourceAuthorityReplaced,
    OutsideSourceWindow,
    PersistenceInspectDenied,
    CreateAttemptInspectDenied,
    PersistenceForgetDenied,
    RootOwnershipDenied,
    ArtifactQuarantineDenied,
    ArtifactRestoreDenied,
    ArtifactPurgeDenied,
    WindowRestoreDenied,
    StableIdEmpty,
    PersistenceOwned,
    RestoreArgumentsInvalid,
    PersistenceMissing,
    PersistenceNotRestored,
    AttachWindowMismatch,
    AttachWindowClosed,
    AttachInitialStateNotObject,
    AttachSpecInvalid { error: String },
    AsyncRuntimeMissing,
    RemoteRuntimeMissing,
    CreateWindowPrivileged,
    /// With the root as it is shown in quotes.
    CreateWindowRelativeRoot { quoted: String },
    CreateWindowFailed { error: String },
    CreateTerminalPrivileged,
    CreateTerminalMismatch,
    CreateTerminalWindowGone { window: WindowId },
    CreateTerminalEnvFailed { error: String },
    CreateTerminalFailed { error: String },
    CreateTerminalUnpublished { error: String },
    SpawnWindowGone { operation: SpawnOperation, window: WindowId },
    SpawnWaitUnsupported { window: WindowId, process: u64 },
    BufferNotFound { buffer: BufferId },
    UnloadBundledDenied,
    ReloadBundledDenied,
    BundledIntegrityFailed,
    CommandUnknown { name: String },
    CommandFailed { name: String, error: String },
    WatchRemoteUnavailable,
    WatchNoBridge,
    WatchWindowClosed,
    /// Nothing was found that was saved under this identity.
    WorkspaceNotFound { id: String },
    RemoteIdentityInvalid,
}

/// The ways in which a plugin starts a process.
#[derive(Clone, Copy, Debug, PartialEq, Eq, Structural)]
pub enum SpawnOperation {
    Process,
    HostProcess,
    BackgroundProcess,
}

impl SpawnOperation {
    /// The name of the operation in the plugin API.
    pub open spec fn spec_name(self) -> Seq<char> {
        match self {
            SpawnOperation::Process => "spawnProcess"@,
            SpawnOperation::HostProcess => "spawnHostProcess"@,
            SpawnOperation::BackgroundProcess => "spawnBackgroundProcess"@,
        }
    }

    /// The name of the operation in the plugin API.
    pub fn name(self) -> (name: &'static str)
        ensures
            name@ == self.spec_name(),
    {
        match self {
            SpawnOperation::Process => "spawnProcess",
            SpawnOperation::HostProcess => "spawnHostProcess",
            SpawnOperation::BackgroundProcess => "spawnBackgroundProcess",
        }
    }
}

/// Three texts in one.
fn join3(a: &str, b: &str, c: &str) -> (text: String)
    ensures
        text@ == a@ + b@ + c@,
{
    let mut text = a.to_string();
    text.append(b);
    text.append(c);
    text
}

/// Five texts in one.
fn join5(a: &str, b: &str, c: &str, d: &str, e: &str) -> (text: String)
    ensures
        text@ == a@ + b@ + c@ + d@ + e@,
{
    let mut text = join3(a, b, c);
    text.append(d);
    text.append(e);
    text
}

/// "Buffer BufferId(n) not found".
pub open spec fn buffer_not_found(buffer: BufferId) -> Seq<char> {
    "Buffer BufferId("@ + decimal_text(buffer.0 as nat) + ") not found"@
}

impl Notice {
    /// The wording, where it is not left to the host.
    pub open spec fn wording(self) -> Option<Seq<char>> {
        match self {
            Notice::Text(text) => Some(text@),
            Notice::Localized(_) => None,
            Notice::EnvironmentNotTrusted => Some(
                "Workspace not trusted — cannot activate environment"@,
            ),
            Notice::LspDisabled { language, config_saved } => Some(
                "LSP disabled for "@ + language@ + if config_saved {
                    ""@
                } else {
                    " (config save failed)"@
                },
            ),
            Notice::NoLspManager => Some("No LSP manager available"@),
            Notice::LspRootSet { language, restarted } => Some(
                if restarted {
                    "LSP root updated for "@ + language@ + " (restarting server)"@
                } else {
                    "LSP root set for "@ + language@ + ""@
                },
            ),
            Notice::InvalidLspRoot { error } => Some("Invalid LSP root URI: "@ + error@ + ""@),
            Notice::AuthorityRejected { error } => Some("setAuthority rejected: "@ + error@ + ""@),
            Notice::RemoteIndicatorRejected { error } => Some(
                "setRemoteIndicatorState rejected: "@ + error@ + ""@,
            ),
            Notice::Connecting { spec } => Some(
                "Connecting to "@ + spec.transport.spec_label() + "…"@,
            ),
            Notice::ConnectionFailed { cause } => Some("Connection failed: "@ + cause.wording() + ""@),
            Notice::ProjectSwitchFailed { cause } => Some(
                "Project switch failed: "@ + cause.wording() + ""@,
            ),
            Notice::Connected => Some("Connected"@),
            Notice::ConnectedTo { label } => Some("Connected: "@ + label@ + ""@),
            Notice::TerminalModeDisabled => Some(
                "Terminal mode disabled - read only (Ctrl+Space to resume)"@,
            ),
            Notice::ExtractNotLocal => Some("Cannot extract: source workspace is not local"@),
            Notice::ExtractRolledBack => Some(
                "Terminal extraction could not be committed and was rolled back"@,
            ),
            Notice::ExtractPending => Some(
                "Terminal extraction is pending durable recovery; do not close either session"@,
            ),
            Notice::SaveFailed { error } => Some("Error saving: "@ + error@ + ""@),
            Notice::BufferNotFound { buffer } => Some(buffer_not_found(buffer)),
        }
    }

    /// The wording, where it is not left to the host.
    pub fn text(&self) -> (text: Option<String>)
        ensures
            match self.wording() {
                Some(wording) => text matches Some(t) && t@ == wording,
                None => text is None,
            },
    {
        match self {
            Notice::Text(text) => Some(text.clone()),
            Notice::Localized(_) => None,
            Notice::EnvironmentNotTrusted => Some(
                "Workspace not trusted — cannot activate environment".to_string(),
            ),
            Notice::LspDisabled { language, config_saved } => Some(
                join3(
                    "LSP disabled for ",
                    language.as_str(),
                    if *config_saved {
                        ""
                    } else {
                        " (config save failed)"
                    },
                ),
            ),
            Notice::NoLspManager => Some("No LSP manager available".to_string()),
            Notice::LspRootSet { language, restarted } => Some(
                if *restarted {
                    join3("LSP root updated for ", language.as_str(), " (restarting server)")
                } else {
                    join3("LSP root set for ", language.as_str(), "")
                },
            ),
            Notice::InvalidLspRoot { error } => Some(
                join3("Invalid LSP root URI: ", error.as_str(), ""),
            ),
            Notice::AuthorityRejected { error } => Some(
                join3("setAuthority rejected: ", error.as_str(), ""),
            ),
            Notice::RemoteIndicatorRejected { error } => Some(
                join3("setRemoteIndicatorState rejected: ", error.as_str(), ""),
            ),
            Notice::Connecting { spec } => {
                let label = spec.transport.label();
                Some(join3("Connecting to ", label.as_str(), "…"))
            },
            Notice::ConnectionFailed { cause } => {
                let cause = cause.text();
                Some(join3("Connection failed: ", cause.as_str(), ""))
            },
            Notice::ProjectSwitchFailed { cause } => {
                let cause = cause.text();
                Some(join3("Project switch failed: ", cause.as_str(), ""))
            },
            Notice::Connected => Some("Connected".to_string()),
            Notice::ConnectedTo { label } => Some(join3("Connected: ", label.as_str(), "")),
            Notice::TerminalModeDisabled => Some(
                "Terminal mode disabled - read only (Ctrl+Space to resume)".to_string(),
            ),
            Notice::ExtractNotLocal => Some(
                "Cannot extract: source workspace is not local".to_string(),
            ),
            Notice::ExtractRolledBack => Some(
                "Terminal extraction could not be committed and was rolled back".to_string(),
            ),
            Notice::ExtractPending => Some(
                "Terminal extraction is pending durable recovery; do not close either session".to_string(),
            ),
            Notice::SaveFailed { error } => Some(join3("Error saving: ", error.as_str(), "")),
            Notice::BufferNotFound { buffer } => {
                let digits = decimal(buffer.0);
                Some(join3("Buffer BufferId(", digits.as_str(), ") not found"))
            },
        }
    }
}

impl Rejection {
    /// The wording.
    pub open spec fn wording(self) -> Seq<char> {
        match self {
            Rejection::Text(text) => text@,
            Rejection::InstanceReplaced => "plugin instance was unloaded or replaced"@,
            Rejection::SourceWindowClosed => "plugin command source window is closed"@,
            Rejection::SourceAuthorityReplaced => "plugin command source authority was replaced"@,
            Rejection::OutsideSourceWindow =>
                "plugin command is denied outside its immutable source window"@,
            Rejection::PersistenceInspectDenied =>
                "only the bundled unscoped Orchestrator may inspect workspace persistence"@,
            Rejection::CreateAttemptInspectDenied =>
                "only the bundled unscoped Orchestrator may inspect workspace create attempts"@,
            Rejection::PersistenceForgetDenied =>
                "only the bundled unscoped Orchestrator may forget workspace persistence"@,
            Rejection::RootOwnershipDenied =>
                "only the bundled unscoped Orchestrator may own workspace roots"@,
            Rejection::ArtifactQuarantineDenied =>
                "only the bundled unscoped Orchestrator may quarantine workspace artifacts"@,
            Rejection::ArtifactRestoreDenied =>
                "only the bundled unscoped Orchestrator may restore workspace artifacts"@,
            Rejection::ArtifactPurgeDenied =>
                "only the bundled unscoped Orchestrator may purge workspace artifacts"@,
            Rejection::WindowRestoreDenied =>
                "only the bundled unscoped Orchestrator may restore workspace windows"@,
            Rejection::StableIdEmpty => "workspace stable id must not be empty"@,
            Rejection::PersistenceOwned =>
                "workspace persistence is still owned by a live or draining session"@,
            Rejection::RestoreArgumentsInvalid =>
                "workspace root must be absolute and stable id must be non-empty when present"@,
            Rejection::PersistenceMissing => "the exact workspace persistence is missing"@,
            Rejection::PersistenceNotRestored =>
                "the exact workspace persistence could not be restored"@,
            Rejection::AttachWindowMismatch =>
                "remote attach window does not match its command context"@,
            Rejection::AttachWindowClosed => "target window closed"@,
            Rejection::AttachInitialStateNotObject => "initialState must be an object"@,
            Rejection::AttachSpecInvalid { error } => "invalid attach spec: "@ + error@ + ""@,
            Rejection::AsyncRuntimeMissing => "Async runtime not available"@,
            Rejection::RemoteRuntimeMissing => "async runtime not available"@,
            Rejection::CreateWindowPrivileged =>
                "createWindowWithTerminal: privileged terminal options require the trusted bundled Orchestrator"@,
            Rejection::CreateWindowRelativeRoot { quoted } =>
                "createWindowWithTerminal: root must be absolute, got "@ + quoted@ + ""@,
            Rejection::CreateWindowFailed { error } => "createWindowWithTerminal: "@ + error@
                + ""@,
            Rejection::CreateTerminalPrivileged =>
                "createTerminal: privileged terminal options require the trusted bundled Orchestrator"@,
            Rejection::CreateTerminalMismatch =>
                "createTerminal: target window does not match its command context"@,
            Rejection::CreateTerminalWindowGone { window } => "createTerminal: window "@
                + decimal_text(window.0 as nat) + " is no longer available"@,
            Rejection::CreateTerminalEnvFailed { error } => "createTerminal: "@ + error@ + ""@,
            Rejection::CreateTerminalFailed { error } => "Failed to create terminal: "@ + error@
                + ""@,
            Rejection::CreateTerminalUnpublished { error } =>
                "Failed to publish created terminal: "@ + error@ + ""@,
            Rejection::SpawnWindowGone { operation, window } => operation.spec_name()
                + ": window "@ + decimal_text(window.0 as nat) + " is no longer available"@ + ""@,
            Rejection::SpawnWaitUnsupported { window, process } =>
                "SpawnProcessWait is not implemented for window "@ + decimal_text(window.0 as nat)
                + " process "@ + decimal_text(process as nat) + ""@,
            Rejection::BufferNotFound { buffer } => buffer_not_found(buffer),
            Rejection::UnloadBundledDenied =>
                "bundled built-in plugins may only be unloaded by the host"@,
            Rejection::ReloadBundledDenied =>
                "bundled built-in plugins may only be reloaded by the host"@,
            Rejection::BundledIntegrityFailed => "bundled plugin integrity verification failed"@,
            Rejection::CommandUnknown { name } => "no registered command named '"@ + name@
                + "' (list them with editor.listCommands() or `fresh --cmd command list`)"@,
            Rejection::CommandFailed { name, error } => "command '"@ + name@ + "' failed: "@
                + error@ + ""@,
            Rejection::WatchRemoteUnavailable =>
                "watchPath is unavailable for remote authorities; refusing to reinterpret a remote path on the host"@,
            Rejection::WatchNoBridge =>
                "watchPath: no async bridge — file watching is unavailable in this build"@,
            Rejection::WatchWindowClosed => "watchPath source window is closed"@,
            Rejection::WorkspaceNotFound { id } => "workspace "@ + id@ + " was not found"@,
            Rejection::RemoteIdentityInvalid =>
                "saved remote tenant identity is incomplete or invalid"@,
        }
    }

    /// The wording.
    pub fn text(&self) -> (text: String)
        ensures
            text@ == self.wording(),
    {
        match self {
            Rejection::Text(text) => text.clone(),
            Rejection::InstanceReplaced => "plugin instance was unloaded or replaced".to_string(),
            Rejection::SourceWindowClosed => "plugin command source window is closed".to_string(),
            Rejection::SourceAuthorityReplaced =>
                "plugin command source authority was replaced".to_string(),
            Rejection::OutsideSourceWindow =>
                "plugin command is denied outside its immutable source window".to_string(),
            Rejection::PersistenceInspectDenied =>
                "only the bundled unscoped Orchestrator may inspect workspace persistence".to_string(),
            Rejection::CreateAttemptInspectDenied =>
                "only the bundled unscoped Orchestrator may inspect workspace create attempts".to_string(),
            Rejection::PersistenceForgetDenied =>
                "only the bundled unscoped Orchestrator may forget workspace persistence".to_string(),
            Rejection::RootOwnershipDenied =>
                "only the bundled unscoped Orchestrator may own workspace roots".to_string(),
            Rejection::ArtifactQuarantineDenied =>
                "only the bundled unscoped Orchestrator may quarantine workspace artifacts".to_string(),
            Rejection::ArtifactRestoreDenied =>
                "only the bundled unscoped Orchestrator may restore workspace artifacts".to_string(),
            Rejection::ArtifactPurgeDenied =>
                "only the bundled unscoped Orchestrator may purge workspace artifacts".to_string(),
            Rejection::WindowRestoreDenied =>
                "only the bundled unscoped Orchestrator may restore workspace windows".to_string(),
            Rejection::StableIdEmpty => "workspace stable id must not be empty".to_string(),
            Rejection::PersistenceOwned =>
                "workspace persistence is still owned by a live or draining session".to_string(),
            Rejection::RestoreArgumentsInvalid =>
                "workspace root must be absolute and stable id must be non-empty when present".to_string(),
            Rejection::PersistenceMissing =>
                "the exact workspace persistence is missing".to_string(),
            Rejection::PersistenceNotRestored =>
                "the exact workspace persistence could not be restored".to_string(),
            Rejection::AttachWindowMismatch =>
                "remote attach window does not match its command context".to_string(),
            Rejection::AttachWindowClosed => "target window closed".to_string(),
            Rejection::AttachInitialStateNotObject => "initialState must be an object".to_string(),
            Rejection::AttachSpecInvalid { error } => join3(
                "invalid attach spec: ",
                error.as_str(),
                "",
            ),
            Rejection::AsyncRuntimeMissing => "Async runtime not available".to_string(),
            Rejection::RemoteRuntimeMissing => "async runtime not available".to_string(),
            Rejection::CreateWindowPrivileged =>
                "createWindowWithTerminal: privileged terminal options require the trusted bundled Orchestrator".to_string(),
            Rejection::CreateWindowRelativeRoot { quoted } => join3(
                "createWindowWithTerminal: root must be absolute, got ",
                quoted.as_str(),
                "",
            ),
            Rejection::CreateWindowFailed { error } => join3(
                "createWindowWithTerminal: ",
                error.as_str(),
                "",
            ),
            Rejection::CreateTerminalPrivileged =>
                "createTerminal: privileged terminal options require the trusted bundled Orchestrator".to_string(),
            Rejection::CreateTerminalMismatch =>
                "createTerminal: target window does not match its command context".to_string(),
            Rejection::CreateTerminalWindowGone { window } => {
                let digits = decimal(window.0);
                join3("createTerminal: window ", digits.as_str(), " is no longer available")
            },
            Rejection::CreateTerminalEnvFailed { error } => join3(
                "createTerminal: ",
                error.as_str(),
                "",
            ),
            Rejection::CreateTerminalFailed { error } => join3(
                "Failed to create terminal: ",
                error.as_str(),
                "",
            ),
            Rejection::CreateTerminalUnpublished { error } => join3(
                "Failed to publish created terminal: ",
                error.as_str(),
                "",
            ),
            Rejection::SpawnWindowGone { operation, window } => {
                let digits = decimal(window.0);
                join5(operation.name(), ": window ", digits.as_str(), " is no longer available", "")
            },
            Rejection::SpawnWaitUnsupported { window, process } => {
                let window_digits = decimal(window.0);
                let process_digits = decimal(*process);
                join5(
                    "SpawnProcessWait is not implemented for window ",
                    window_digits.as_str(),
                    " process ",
                    process_digits.as_str(),
                    "",
                )
            },
            Rejection::BufferNotFound { buffer } => {
                let digits = decimal(buffer.0);
                join3("Buffer BufferId(", digits.as_str(), ") not found")
            },
            Rejection::UnloadBundledDenied =>
                "bundled built-in plugins may only be unloaded by the host".to_string(),
            Rejection::ReloadBundledDenied =>
                "bundled built-in plugins may only be reloaded by the host".to_string(),
            Rejection::BundledIntegrityFailed =>
                "bundled plugin integrity verification failed".to_string(),
            Rejection::CommandUnknown { name } => join3(
                "no registered command named '",
                name.as_str(),
                "' (list them with editor.listCommands() or `fresh --cmd command list`)",
            ),
            Rejection::CommandFailed { name, error } => join5(
                "command '",
                name.as_str(),
                "' failed: ",
                error.as_str(),
                "",
            ),
            Rejection::WatchRemoteUnavailable =>
                "watchPath is unavailable for remote authorities; refusing to reinterpret a remote path on the host".to_string(),
            Rejection::WatchNoBridge =>
                "watchPath: no async bridge — file watching is unavailable in this build".to_string(),
            Rejection::WatchWindowClosed => "watchPath source window is closed".to_string(),
            Rejection::WorkspaceNotFound { id } => join3("workspace ", id.as_str(), " was not found"),
            Rejection::RemoteIdentityInvalid =>
                "saved remote tenant identity is incomplete or invalid".to_string(),
        }
    }
}

} // verus!
