//! Commands on backends, environments, watches and language servers.
use std::sync::Arc;
use vstd::prelude::*;

use crate::authority::Authority;
use crate::authority::AuthoritySpec;
use crate::authority::RemoteAgentSpec;
use crate::authority::TrustLevel;
use crate::authority::WorkspaceRoot;
use crate::command::Payload;
use crate::command::PluginCommandContext;
use crate::command::PluginLoadProvenance;
use crate::editor::Editor;
use crate::editor::EditorModel;
use crate::editor::RemoteModel;
use crate::effects::AttachRequest;
use crate::effects::Effect;
use crate::effects::PluginResponse;
use crate::effects::RemoteAttachOwner;
use crate::effects::RemoteInitialState;
use crate::effects::WatchOwner;
use crate::ids::PluginInstanceId;
use crate::ids::WindowId;
use crate::json::flag_field;
use crate::json::json_flag_field;
use crate::json::json_object_field;
use crate::json::object_field;
use crate::notice::Notice;
use crate::notice::Rejection;
use crate::ui_handlers::has_text;
use crate::ui_handlers::holds_text;
use crate::window::UiModel;
use crate::window::WindowModel;

verus! {

/// What is wrong with the text of an LSP root, as `lsp_types::Uri` finds it;
/// absent where it is a URI reference.
pub uninterp spec fn uri_problem(text: Seq<char>) -> Option<Seq<char>>;

/// How many bytes a text takes.
pub open spec fn byte_length(text: Seq<char>) -> nat {
    vstd::utf8::encode_utf8(text).len()
}

/// The longest text that can be parsed as a URI.
pub const MAX_URI_BYTES: u64 = 2147483647;

/// `lsp_types::Uri::from_str`, with its error as a text. It depends on the text
/// alone, and panics on one of more than `i32::MAX` bytes.
#[verifier::external_body]
fn parse_uri(text: &str) -> (problem: Option<String>)
    requires
        byte_length(text@) <= MAX_URI_BYTES,
    ensures
        match problem {
            Some(p) => uri_problem(text@) == Some(p@),
            None => uri_problem(text@) is None,
        },
{
    text.parse::<lsp_types::Uri>().err().map(|error| error.to_string())
}

impl WindowModel {
    /// This window on a backend whose environment is active or not.
    pub open spec fn with_env(self, env_active: bool) -> WindowModel {
        WindowModel { authority: Authority { env_active, ..self.authority }, ..self }
    }

    /// This window with another description of its backend.
    pub open spec fn with_spec(self, spec: AuthoritySpec) -> WindowModel {
        WindowModel { authority_spec: spec, ..self }
    }

    /// This window with another indicator of its remote session.
    pub open spec fn with_indicator(self, indicator: Option<String>) -> WindowModel {
        WindowModel { ui: UiModel { remote_indicator_override: indicator, ..self.ui }, ..self }
    }
}

impl EditorModel {
    /// The identity under which the sender of a command watches paths.
    pub open spec fn watch_owner(self, context: PluginCommandContext) -> Option<WatchOwner> {
        let window = match (context.window_scope, context.source_window) {
            (Some(scope), _) => scope,
            (None, Some(source)) => source,
            (None, None) => self.active_window,
        };
        if self.has(window) {
            Some(
                WatchOwner {
                    window,
                    authority: self.window(window).authority.stamp,
                    instance: if context.is_internal() {
                        None
                    } else {
                        Some(context.plugin_instance_id)
                    },
                },
            )
        } else {
            None
        }
    }

    /// This editor once a path was to be watched. A path on another machine
    /// is not taken for one on this.
    pub open spec fn watching(
        self,
        path: String,
        recursive: bool,
        request_id: u64,
        context: PluginCommandContext,
    ) -> EditorModel {
        let refused = |reason: Rejection|
            self.emitting(
                Effect::Respond(PluginResponse::WatchPathRejected { request_id, reason }),
            );
        match self.watch_owner(context) {
            None => refused(Rejection::WatchWindowClosed),
            Some(owner) => if self.window(owner.window).authority_spec is RemoteAgent {
                refused(Rejection::WatchRemoteUnavailable)
            } else if !self.config.bridge {
                refused(Rejection::WatchNoBridge)
            } else {
                self.emitting(Effect::Watch { owner, path, recursive, request_id })
            },
        }
    }

    /// This editor with a window on another backend: the connection of the
    /// old one is dropped, and everything restarts on the new one.
    pub open spec fn reseated(self, id: WindowId, spec: AuthoritySpec) -> EditorModel {
        let dropped = EditorModel {
            remote: RemoteModel { keepalives: self.remote.keepalives.remove(id.0), ..self.remote },
            ..self
        };
        dropped.with_window(id, dropped.window(id).with_spec(spec)).pointing_at(id).emitting(
            Effect::InstallAuthority { window: id, local: spec is Local },
        )
    }

    /// This editor with a window changed, where it is there.
    pub open spec fn changing_window(
        self,
        id: WindowId,
        change: spec_fn(WindowModel) -> WindowModel,
    ) -> EditorModel {
        if self.has(id) {
            self.with_window(id, change(self.window(id)))
        } else {
            self
        }
    }

    /// This editor once a plugin asked to attach a remote session.
    pub open spec fn attach_requested(
        self,
        instance: PluginInstanceId,
        plugin: String,
        window: WindowId,
        payload: String,
        request_id: u64,
        activate: Option<bool>,
        initial: Option<Option<String>>,
    ) -> EditorModel {
        if !self.has(window) {
            self.attach_rejected(instance, request_id, Rejection::AttachWindowClosed)
        } else if initial matches Some(None) {
            self.attach_rejected(instance, request_id, Rejection::AttachInitialStateNotObject)
        } else {
            self.emitting(
                Effect::ParseAttach {
                    request: AttachRequest {
                        instance,
                        window,
                        payload,
                        activate: match activate {
                            Some(activate) => activate,
                            None => true,
                        },
                        initial_state: match initial {
                            Some(Some(values)) => Some(
                                RemoteInitialState { plugin, values: Payload(values) },
                            ),
                            _ => None,
                        },
                        request_id,
                    },
                },
            )
        }
    }
}

/// Whether a text is what `serde_json` found under a key.
pub open spec fn is_object_field(
    text: Seq<char>,
    key: Seq<char>,
    field: Option<Option<String>>,
) -> bool {
    match field {
        Some(Some(object)) => json_object_field(text, key) == Some(Some(object@)),
        Some(None) => json_object_field(text, key) == Some(None::<Seq<char>>),
        None => json_object_field(text, key) is None,
    }
}

impl Editor {
    /// The identity under which the sender of a command watches paths.
    pub fn watch_owner_for_context(&self, context: &PluginCommandContext) -> (owner: Option<WatchOwner>)
        ensures
            owner == self@.watch_owner(*context),
    {
        let window = match context.window_scope {
            Some(scope) => scope,
            None => match context.source_window {
                Some(source) => source,
                None => self.active_window,
            },
        };
        match self.windows.get(&window.0) {
            Some(found) => Some(
                WatchOwner {
                    window,
                    authority: found.authority.stamp,
                    instance: if context.provenance == PluginLoadProvenance::Internal {
                        None
                    } else {
                        Some(context.plugin_instance_id)
                    },
                },
            ),
            None => None,
        }
    }

    /// Watches a path for the sender of a command.
    pub fn handle_watch_path(
        &mut self,
        path: String,
        recursive: bool,
        request_id: u64,
        context: &PluginCommandContext,
    )
        ensures
            final(self)@ == old(self)@.watching(path, recursive, request_id, *context),
    {
        let reason = match self.watch_owner_for_context(context) {
            None => Rejection::WatchWindowClosed,
            Some(owner) => {
                let remote = match self.windows.get(&owner.window.0) {
                    Some(window) => window.authority_spec.is_remote(),
                    None => false,
                };
                if remote {
                    Rejection::WatchRemoteUnavailable
                } else if !self.config.bridge {
                    Rejection::WatchNoBridge
                } else {
                    self.emit(Effect::Watch { owner, path, recursive, request_id });
                    return ;
                }
            },
        };
        self.emit(Effect::Respond(PluginResponse::WatchPathRejected { request_id, reason }));
    }

    /// Ends a watch of the sender of a command.
    pub fn handle_unwatch_path(&mut self, handle: u64, context: &PluginCommandContext)
        ensures
            final(self)@ == old(self)@.unwatching(handle, *context),
    {
        if let Some(owner) = self.watch_owner_for_context(context) {
            self.emit(Effect::Unwatch { owner, handle });
        }
    }

    /// Activates an environment in a window whose project is trusted.
    pub fn handle_set_env(&mut self, window: WindowId, snippet: String, dir: Option<String>)
        ensures
            final(self)@ == old(self)@.env_set(window, snippet, dir),
    {
        let ghost before = self@;
        if let Some(mut found) = self.take_window(window) {
            let trusted = found.authority.trust == TrustLevel::Trusted;
            if trusted {
                found.authority.env_active = true;
            } else {
                found.set_status_message(Notice::EnvironmentNotTrusted);
            }
            self.put_back(window, found, Ghost(before));
            if trusted {
                self.emit(Effect::SetEnv { window, snippet, dir });
                self.emit(Effect::RefreshLsp { window });
            }
        }
    }

    /// Ends the environment of a window.
    pub fn handle_clear_env(&mut self, window: WindowId)
        ensures
            final(self)@ == old(self)@.env_cleared(window),
    {
        let ghost before = self@;
        if let Some(mut found) = self.take_window(window) {
            let was_active = found.authority.env_active;
            found.authority.env_active = false;
            self.put_back(window, found, Ghost(before));
            self.emit(Effect::ClearEnv { window });
            if was_active {
                self.emit(Effect::RefreshLsp { window });
            }
        }
    }

    /// Opens a file in a window that is not shown, or in the one that is.
    pub fn handle_open_file_in_background_routed(&mut self, path: String, window: Option<WindowId>)
        ensures
            final(self)@ == old(self)@.file_routed(path, window),
    {
        let window = match window {
            Some(id) => if id != self.active_window && self.has_window(id) {
                Some(id)
            } else {
                None
            },
            None => None,
        };
        self.emit(Effect::OpenFile { path, window });
    }

    /// Reads the themes anew, and applies one of them.
    pub fn handle_reload_themes(&mut self, apply_theme: Option<String>)
        ensures
            final(self)@ == old(self)@.themes_reloaded(apply_theme),
    {
        self.emit(Effect::ReloadThemes);
        if let Some(name) = apply_theme {
            self.emit(Effect::ApplyTheme { name });
        }
    }

    /// Opens a window at a root, which has to be absolute.
    pub fn handle_create_window(&mut self, root: Arc<WorkspaceRoot>, label: String)
        ensures
            final(self)@ == old(self)@.window_asked(root, label),
    {
        if root.absolute {
            self.emit(Effect::OpenWindow { root, label });
        }
    }

    /// Previews a window, unless it is shown already or not there.
    pub fn handle_preview_window_in_rect(&mut self, id: Option<WindowId>)
        ensures
            final(self)@ == old(self)@.previewing(id),
    {
        self.preview_window_id = match id {
            Some(id) => if id != self.active_window && self.has_window(id) {
                Some(id)
            } else {
                None
            },
            None => None,
        };
    }

    /// Sets the windows that next and previous walk. None at all stands for
    /// every window.
    pub fn handle_set_window_cycle_order(&mut self, ids: Vec<WindowId>)
        ensures
            final(self)@ == old(self)@.cycling(ids),
    {
        self.window_cycle_order = if ids.len() == 0 {
            None
        } else {
            Some(ids)
        };
    }

    /// Takes the URIs of a scheme for documents of language servers.
    pub fn handle_register_lsp_uri_scheme(&mut self, scheme: String)
        ensures
            final(self)@ == old(self)@.with_scheme(scheme),
    {
        if !has_text(&self.lsp_uri_schemes, scheme.as_str()) {
            self.lsp_uri_schemes.push(scheme);
        }
    }

    /// Puts a window on another backend.
    fn reseat(&mut self, window: WindowId, spec: AuthoritySpec)
        requires
            old(self)@.has(window),
        ensures
            final(self)@ == old(self)@.reseated(window, spec),
    {
        let local = match &spec {
            AuthoritySpec::Local => true,
            _ => false,
        };
        self.remote.keepalives.remove(&window.0);
        let ghost dropped = self@;
        if let Some(mut found) = self.take_window(window) {
            found.authority_spec = spec;
            self.put_back(window, found, Ghost(dropped));
        }
        self.switch_active_window_pointer(window);
        self.emit(Effect::InstallAuthority { window, local });
    }

    /// Takes a window back to its local backend.
    pub fn handle_clear_authority(&mut self, window: WindowId)
        ensures
            final(self)@ == old(self)@.authority_cleared(window),
    {
        if self.has_window(window) {
            self.reseat(window, AuthoritySpec::Local);
        }
    }

    /// Asks for a backend that a plugin describes.
    pub fn handle_set_authority(&mut self, window: WindowId, payload: Payload)
        ensures
            final(self)@ == old(self)@.authority_asked(window, payload),
    {
        if self.has_window(window) {
            self.emit(Effect::ParseAuthority { window, payload });
        }
    }

    /// Puts a window on a backend that a plugin described, or says what is
    /// wrong with the description.
    pub fn authority_parsed(&mut self, window: WindowId, parsed: Result<Arc<String>, String>)
        ensures
            final(self)@ == if !old(self)@.has(window) {
                old(self)@
            } else {
                match parsed {
                    Ok(description) => old(self)@.reseated(
                        window,
                        AuthoritySpec::Plugin(description),
                    ),
                    Err(error) => old(self)@.with_window(
                        window,
                        old(self)@.window(window).with_status(
                            Some(Notice::AuthorityRejected { error }),
                        ),
                    ),
                }
            },
    {
        if !self.has_window(window) {
            return ;
        }
        match parsed {
            Ok(description) => self.reseat(window, AuthoritySpec::Plugin(description)),
            Err(error) => {
                let ghost before = self@;
                if let Some(mut found) = self.take_window(window) {
                    found.set_status_message(Notice::AuthorityRejected { error });
                    self.put_back(window, found, Ghost(before));
                }
            },
        }
    }

    /// Shows the state of a remote session that a plugin described, or says
    /// what is wrong with the description.
    pub fn remote_indicator_parsed(&mut self, window: WindowId, parsed: Result<String, String>)
        ensures
            final(self)@ == old(self)@.changing_window(
                window,
                |w: WindowModel|
                    match parsed {
                        Ok(state) => w.with_indicator(Some(state)),
                        Err(error) => w.with_status(
                            Some(Notice::RemoteIndicatorRejected { error }),
                        ),
                    },
            ),
    {
        let ghost before = self@;
        if let Some(mut found) = self.take_window(window) {
            match parsed {
                Ok(state) => {
                    found.ui.remote_indicator_override = Some(state);
                },
                Err(error) => {
                    found.set_status_message(Notice::RemoteIndicatorRejected { error });
                },
            }
            self.put_back(window, found, Ghost(before));
        }
    }

    /// Shows the state of a remote session as the editor sees it again.
    pub fn handle_clear_remote_indicator_state(&mut self, window: WindowId)
        ensures
            final(self)@ == old(self)@.changing_window(
                window,
                |w: WindowModel| w.with_indicator(None),
            ),
    {
        let ghost before = self@;
        if let Some(mut found) = self.take_window(window) {
            found.ui.remote_indicator_override = None;
            self.put_back(window, found, Ghost(before));
        }
    }

    /// Asks for a remote session, where the window is there and the values
    /// that the new window starts with are an object.
    pub fn handle_attach_remote_agent(
        &mut self,
        instance: PluginInstanceId,
        plugin: String,
        window: WindowId,
        payload: String,
        request_id: u64,
    )
        ensures
            old(self)@.is_attaching(instance, plugin, window, payload, request_id, final(self)@),
    {
        let activate = flag_field(payload.as_str(), "activate");
        let initial = object_field(payload.as_str(), "initialState");
        self.attach_fields_read(instance, plugin, window, payload, request_id, activate, initial);
        proof {
            assert(is_object_field(payload@, "initialState"@, initial));
            assert(self@ == old(self)@.attach_requested(
                instance,
                plugin,
                window,
                payload,
                request_id,
                json_flag_field(payload@, "activate"@),
                initial,
            ));
        }
    }

    /// Asks for a remote session of which it is known whether its window is
    /// to be shown, and with which values it starts: none, an object, or
    /// something else, which is refused.
    pub fn attach_fields_read(
        &mut self,
        instance: PluginInstanceId,
        plugin: String,
        window: WindowId,
        payload: String,
        request_id: u64,
        activate: Option<bool>,
        initial: Option<Option<String>>,
    )
        ensures
            final(self)@ == old(self)@.attach_requested(
                instance,
                plugin,
                window,
                payload,
                request_id,
                activate,
                initial,
            ),
    {
        if !self.has_window(window) {
            self.reject_remote_attach(instance, request_id, Rejection::AttachWindowClosed);
            return ;
        }
        let initial_state = match initial {
            None => None,
            Some(Some(values)) => Some(RemoteInitialState { plugin, values: Payload(values) }),
            Some(None) => {
                self.reject_remote_attach(
                    instance,
                    request_id,
                    Rejection::AttachInitialStateNotObject,
                );
                return ;
            },
        };
        let activate = match activate {
            Some(activate) => activate,
            None => true,
        };
        self.emit(
            Effect::ParseAttach {
                request: AttachRequest {
                    instance,
                    window,
                    payload,
                    activate,
                    initial_state,
                    request_id,
                },
            },
        );
    }

    /// Connects to a remote session whose description was read, or says what
    /// is wrong with it.
    pub fn attach_spec_parsed(
        &mut self,
        request: AttachRequest,
        parsed: Result<Arc<RemoteAgentSpec>, String>,
    )
        ensures
            final(self)@ == match parsed {
                Ok(spec) => old(self)@.connecting(
                    spec,
                    RemoteAttachOwner::Plugin {
                        instance: request.instance,
                        request_id: request.request_id,
                        window: request.window,
                    },
                    request.activate,
                    request.initial_state,
                ),
                Err(error) => old(self)@.attach_rejected(
                    request.instance,
                    request.request_id,
                    Rejection::AttachSpecInvalid { error },
                ),
            },
    {
        match parsed {
            Ok(spec) => self.start_remote_connect(
                spec,
                RemoteAttachOwner::Plugin {
                    instance: request.instance,
                    request_id: request.request_id,
                    window: request.window,
                },
                request.activate,
                request.initial_state,
            ),
            Err(error) => self.reject_remote_attach(
                request.instance,
                request.request_id,
                Rejection::AttachSpecInvalid { error },
            ),
        }
    }

    /// Sets the root of a language server, which has to be a URI.
    pub fn handle_set_lsp_root_uri(&mut self, language: String, uri: String)
        requires
            byte_length(uri@) <= MAX_URI_BYTES,
        ensures
            old(self)@.is_rooting(language, uri, final(self)@),
    {
        let problem = parse_uri(uri.as_str());
        let ghost found = problem;
        self.lsp_root_checked(language, uri, problem);
        proof {
            assert(self@ == old(self)@.root_checked(language, uri, found));
        }
    }

    /// Sets the root of a language server where nothing is wrong with it, and
    /// tells the user what is wrong otherwise.
    pub fn lsp_root_checked(&mut self, language: String, uri: String, problem: Option<String>)
        ensures
            final(self)@ == old(self)@.root_checked(language, uri, problem),
    {
        match problem {
            None => {
                if self.has_window(self.active_window) {
                    self.emit(Effect::SetLspRoot { language, uri });
                }
            },
            Some(error) => self.tell(Notice::InvalidLspRoot { error }),
        }
    }

    /// Tells the user that the root of a language server was set.
    pub fn lsp_root_set(&mut self, language: String, restarted: bool)
        ensures
            final(self)@ == old(self)@.telling(Notice::LspRootSet { language, restarted }),
    {
        self.tell(Notice::LspRootSet { language, restarted });
    }

    /// Tells the user that a language server was stopped and is not started
    /// again, or that this could not be saved.
    pub fn lsp_disabled(&mut self, language: String, config_saved: bool)
        ensures
            final(self)@ == old(self)@.telling(
                Notice::LspDisabled { language, config_saved },
            ).emitting(Effect::ClearLspWarnings),
    {
        self.tell(Notice::LspDisabled { language, config_saved });
        self.emit(Effect::ClearLspWarnings);
    }

    /// Starts a language server anew, with the file that is in front.
    pub fn handle_restart_lsp_for_language(&mut self, language: String)
        ensures
            final(self)@ == old(self)@.lsp_restarting(language),
    {
        let file = match self.windows.get(&self.active_window.0) {
            Some(window) => match window.documents.metadata.get(
                &window.documents.active_buffer.0,
            ) {
                Some(metadata) => metadata.file_path.clone(),
                None => None,
            },
            None => None,
        };
        self.emit(Effect::RestartLsp { language, file });
    }

    /// Starts the language servers of a window anew that run there, so that they
    /// act in its changed environment.
    pub fn refresh_window_lsp_for_env(&mut self, window: WindowId, running: &Vec<String>)
        ensures
            final(self)@ == if old(self)@.has(window) {
                old(self)@.servers_restarted(window, running@)
            } else {
                old(self)@
            },
    {
        let file = match self.windows.get(&window.0) {
            Some(found) => match found.documents.metadata.get(&found.documents.active_buffer.0) {
                Some(metadata) => metadata.file_path.clone(),
                None => None,
            },
            None => {
                return ;
            },
        };
        let ghost before = self@;
        let mut at: usize = 0;
        proof {
            assert(running@.take(0) =~= Seq::<String>::empty());
        }
        while at < running.len()
            invariant
                at <= running.len(),
                file == before.file_in_front(window),
                self@ == before.servers_restarted(window, running@.take(at as int)),
            decreases running.len() - at,
        {
            proof {
                assert(running@.take(at + 1).drop_last() =~= running@.take(at as int));
                assert(running@.take(at + 1).last() == running@[at as int]);
            }
            self.emit(
                Effect::RestartLspIn {
                    window,
                    language: running[at].clone(),
                    file: file.clone(),
                },
            );
            self.emit(Effect::ReopenBuffersIn { window, language: running[at].clone() });
            at = at + 1;
        }
        proof {
            assert(running@.take(running@.len() as int) =~= running@);
        }
    }

    /// Tells the user how the restart of a language server went, and opens its
    /// buffers with it again.
    pub fn lsp_restarted(&mut self, language: String, outcome: Option<(bool, String)>)
        ensures
            final(self)@ == match outcome {
                Some((true, message)) => old(self)@.telling(Notice::Text(message)).emitting(
                    Effect::ReopenBuffers { language },
                ),
                Some((false, message)) => old(self)@.telling(Notice::Text(message)),
                None => old(self)@.telling(Notice::NoLspManager),
            },
    {
        match outcome {
            Some((restarted, message)) => {
                self.tell(Notice::Text(message));
                if restarted {
                    self.emit(Effect::ReopenBuffers { language });
                }
            },
            None => self.tell(Notice::NoLspManager),
        }
    }
}

impl EditorModel {
    /// Whether `after` is this editor once a remote session was asked for.
    pub open spec fn is_attaching(
        self,
        instance: PluginInstanceId,
        plugin: String,
        window: WindowId,
        payload: String,
        request_id: u64,
        after: EditorModel,
    ) -> bool {
        exists|initial: Option<Option<String>>|
            {
                &&& is_object_field(payload@, "initialState"@, initial)
                &&& after == #[trigger] self.attach_requested(
                    instance,
                    plugin,
                    window,
                    payload,
                    request_id,
                    json_flag_field(payload@, "activate"@),
                    initial,
                )
            }
    }

    /// Whether `after` is this editor once the root of a language server was
    /// to be set.
    pub open spec fn is_rooting(self, language: String, uri: String, after: EditorModel) -> bool {
        match uri_problem(uri@) {
            None => after == self.root_checked(language, uri, None),
            Some(problem) => exists|error: String|
                error@ == problem && after == #[trigger] self.root_checked(
                    language,
                    uri,
                    Some(error),
                ),
        }
    }

    /// This editor once it is known what is wrong with the root of a language
    /// server, if anything is.
    pub open spec fn root_checked(
        self,
        language: String,
        uri: String,
        problem: Option<String>,
    ) -> EditorModel {
        match problem {
            None => if self.has_active() {
                self.emitting(Effect::SetLspRoot { language, uri })
            } else {
                self
            },
            Some(error) => self.telling(Notice::InvalidLspRoot { error }),
        }
    }

    /// The file of the active buffer.
    pub open spec fn active_file(self) -> Option<String> {
        if self.has_active() {
            self.file_in_front(self.active_window)
        } else {
            None
        }
    }

    /// The file of the buffer that the window `id` shows.
    pub open spec fn file_in_front(self, id: WindowId) -> Option<String> {
        let documents = self.window(id).documents;
        if documents.metadata.contains_key(documents.active_buffer.0) {
            documents.metadata[documents.active_buffer.0].file_path
        } else {
            None
        }
    }

    /// This editor once language servers of a window were to be started anew.
    pub open spec fn servers_restarted(self, window: WindowId, languages: Seq<String>) -> EditorModel
        decreases languages.len(),
    {
        if languages.len() == 0 {
            self
        } else {
            let language = languages.last();
            self.servers_restarted(window, languages.drop_last()).emitting(
                Effect::RestartLspIn { window, language, file: self.file_in_front(window) },
            ).emitting(Effect::ReopenBuffersIn { window, language })
        }
    }
}

impl EditorModel {
    /// This editor once a watch was to be ended.
    pub open spec fn unwatching(self, handle: u64, context: PluginCommandContext) -> EditorModel {
        match self.watch_owner(context) {
            Some(owner) => self.emitting(Effect::Unwatch { owner, handle }),
            None => self,
        }
    }

    /// This editor once an environment was to be activated.
    pub open spec fn env_set(
        self,
        window: WindowId,
        snippet: String,
        dir: Option<String>,
    ) -> EditorModel {
        if !self.has(window) {
            self
        } else if self.window(window).authority.trust is Trusted {
            self.with_window(window, self.window(window).with_env(true)).emitting(
                Effect::SetEnv { window, snippet, dir },
            ).emitting(Effect::RefreshLsp { window })
        } else {
            self.with_window(
                window,
                self.window(window).with_status(Some(Notice::EnvironmentNotTrusted)),
            )
        }
    }

    /// This editor once an environment was to be ended.
    pub open spec fn env_cleared(self, window: WindowId) -> EditorModel {
        if !self.has(window) {
            self
        } else {
            let cleared = self.with_window(
                window,
                self.window(window).with_env(false),
            ).emitting(Effect::ClearEnv { window });
            if self.window(window).authority.env_active {
                cleared.emitting(Effect::RefreshLsp { window })
            } else {
                cleared
            }
        }
    }

    /// This editor once a file was to be opened in a window.
    pub open spec fn file_routed(self, path: String, window: Option<WindowId>) -> EditorModel {
        self.emitting(
            Effect::OpenFile {
                path,
                window: match window {
                    Some(id) => if id != self.active_window && self.has(id) {
                        Some(id)
                    } else {
                        None
                    },
                    None => None,
                },
            },
        )
    }

    /// This editor once the themes were to be read anew.
    pub open spec fn themes_reloaded(self, apply_theme: Option<String>) -> EditorModel {
        match apply_theme {
            Some(name) => self.emitting(Effect::ReloadThemes).emitting(
                Effect::ApplyTheme { name },
            ),
            None => self.emitting(Effect::ReloadThemes),
        }
    }

    /// This editor once a window was asked for.
    pub open spec fn window_asked(self, root: Arc<WorkspaceRoot>, label: String) -> EditorModel {
        if root.absolute {
            self.emitting(Effect::OpenWindow { root, label })
        } else {
            self
        }
    }

    /// This editor with a window previewed.
    pub open spec fn previewing(self, id: Option<WindowId>) -> EditorModel {
        (EditorModel {
            preview_window_id: match id {
                Some(id) => if id != self.active_window && self.has(id) {
                    Some(id)
                } else {
                    None
                },
                None => None,
            },
            ..self
        })
    }

    /// This editor with other windows that next and previous walk.
    pub open spec fn cycling(self, ids: Vec<WindowId>) -> EditorModel {
        (EditorModel {
            window_cycle_order: if ids@.len() == 0 {
                None
            } else {
                Some(ids@)
            },
            ..self
        })
    }

    /// This editor with one more scheme of documents.
    pub open spec fn with_scheme(self, scheme: String) -> EditorModel {
        (EditorModel {
            lsp_uri_schemes: if holds_text(self.lsp_uri_schemes, scheme@) {
                self.lsp_uri_schemes
            } else {
                self.lsp_uri_schemes.push(scheme)
            },
            ..self
        })
    }

    /// This editor with a window on its local backend again.
    pub open spec fn authority_cleared(self, window: WindowId) -> EditorModel {
        if self.has(window) {
            self.reseated(window, AuthoritySpec::Local)
        } else {
            self
        }
    }

    /// This editor once a backend was described.
    pub open spec fn authority_asked(self, window: WindowId, payload: Payload) -> EditorModel {
        if self.has(window) {
            self.emitting(Effect::ParseAuthority { window, payload })
        } else {
            self
        }
    }

    /// This editor once a language server was to start anew.
    pub open spec fn lsp_restarting(self, language: String) -> EditorModel {
        self.emitting(
            Effect::RestartLsp { language, file: self.active_file() },
        )
    }
}

} // verus!
