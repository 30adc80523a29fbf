//! Loading and unloading of plugins, and the commands that they run by name.
use vstd::prelude::*;

use crate::command::PluginCommandContext;
use crate::editor::callback_owner;
use crate::editor::owner_of_callbacks;
use crate::editor::Editor;
use crate::editor::EditorModel;
use crate::effects::CallbackOwner;
use crate::effects::Effect;
use crate::effects::Reply;
use crate::ids::JsCallbackId;
use crate::json::command_to_json;
use crate::json::json_array;
use crate::json::json_command;
use crate::json::json_plugin;
use crate::json::plugin_to_json;
use crate::json::JsonList;
use crate::notice::Rejection;
use crate::permissions::context_may_manage_bundled_plugins;
use crate::text::same_text;

verus! {

/// Whether a plugin ships with the editor and has rights of its own.
pub open spec fn is_bundled_plugin(name: Seq<char>) -> bool {
    name == "orchestrator"@
}

/// How the user's start script was read again.
#[derive(Debug)]
pub enum InitOutcome {
    Loaded,
    NotFound,
    Disabled,
    /// What went wrong; the old one is still in force.
    Failed(String),
}

/// A plugin as it is listed.
#[derive(Debug)]
pub struct PluginListing {
    pub name: String,
    pub path: String,
    pub enabled: bool,
}

impl PluginListing {
    /// Where the plugin lies, as other plugins see it: the place of one that
    /// ships with the editor is not shown.
    pub open spec fn shown_path(self) -> Seq<char> {
        if is_bundled_plugin(self.name@) {
            "<bundled>"@
        } else {
            self.path@
        }
    }

    /// The plugin as other plugins see it.
    pub open spec fn spec_json(self) -> Seq<char> {
        json_plugin(self.name@, self.shown_path(), self.enabled)
    }

    /// The plugin as other plugins see it.
    pub fn json(&self) -> (json: String)
        ensures
            json@ == self.spec_json(),
    {
        let path = if same_text(self.name.as_str(), "orchestrator") {
            "<bundled>"
        } else {
            self.path.as_str()
        };
        plugin_to_json(self.name.as_str(), path, self.enabled)
    }
}

/// What plugins see of the loaded plugins.
pub open spec fn plugin_list_json(plugins: Seq<PluginListing>) -> Seq<char> {
    json_array(plugins.map_values(|p: PluginListing| p.spec_json()))
}

/// What plugins see of the loaded plugins.
pub fn list_plugins(plugins: &Vec<PluginListing>) -> (json: String)
    ensures
        json@ == plugin_list_json(plugins@),
{
    let ghost texts = plugins@.map_values(|p: PluginListing| p.spec_json());
    let mut list = JsonList::new();
    let mut at: usize = 0;
    while at < plugins.len()
        invariant
            at <= plugins.len(),
            texts == plugins@.map_values(|p: PluginListing| p.spec_json()),
            list@ == texts.take(at as int),
        decreases plugins.len() - at,
    {
        let text = plugins[at].json();
        list.push(text.as_str());
        proof {
            assert(texts.take(at as int).push(texts[at as int]) =~= texts.take(at + 1));
        }
        at = at + 1;
    }
    proof {
        assert(texts.take(texts.len() as int) =~= texts);
    }
    list.json()
}

/// A command as it is listed, with the plugin that it comes from.
#[derive(Debug)]
pub struct CommandListing {
    pub name: String,
    pub description: String,
    /// Absent for a command of the editor itself.
    pub plugin: Option<String>,
}

impl CommandListing {
    /// Where the command comes from, in the words of the plugin API.
    pub open spec fn spec_source(self) -> Seq<char> {
        if self.plugin is Some {
            "plugin"@
        } else {
            "builtin"@
        }
    }

    /// Where the command comes from, in the words of the plugin API, and the
    /// name of its plugin, which is empty for a command of the editor.
    pub fn source(&self) -> (source: (&'static str, String))
        ensures
            source.0@ == self.spec_source(),
            source.1@ == match self.plugin {
                Some(name) => name@,
                None => Seq::empty(),
            },
    {
        match &self.plugin {
            Some(name) => ("plugin", name.clone()),
            None => ("builtin", String::new()),
        }
    }
}

impl CommandListing {
    /// The command as plugins see it.
    pub open spec fn spec_json(self) -> Seq<char> {
        json_command(
            self.name@,
            self.description@,
            self.spec_source(),
            match self.plugin {
                Some(name) => name@,
                None => Seq::empty(),
            },
        )
    }

    /// The command as plugins see it.
    pub fn json(&self) -> (json: String)
        ensures
            json@ == self.spec_json(),
    {
        let (source, plugin) = self.source();
        command_to_json(self.name.as_str(), self.description.as_str(), source, plugin.as_str())
    }
}

/// What plugins see of the commands.
pub open spec fn command_list_json(commands: Seq<CommandListing>) -> Seq<char> {
    json_array(commands.map_values(|c: CommandListing| c.spec_json()))
}

/// What plugins see of the commands.
pub fn list_commands(commands: &Vec<CommandListing>) -> (json: String)
    ensures
        json@ == command_list_json(commands@),
{
    let ghost texts = commands@.map_values(|c: CommandListing| c.spec_json());
    let mut list = JsonList::new();
    let mut at: usize = 0;
    while at < commands.len()
        invariant
            at <= commands.len(),
            texts == commands@.map_values(|c: CommandListing| c.spec_json()),
            list@ == texts.take(at as int),
        decreases commands.len() - at,
    {
        let text = commands[at].json();
        list.push(text.as_str());
        proof {
            assert(texts.take(at as int).push(texts[at as int]) =~= texts.take(at + 1));
        }
        at = at + 1;
    }
    proof {
        assert(texts.take(texts.len() as int) =~= texts);
    }
    list.json()
}

impl EditorModel {
    /// This editor once a plugin was to be unloaded. One that ships with the
    /// editor is unloaded by the host alone.
    pub open spec fn unloading(
        self,
        name: String,
        callback: JsCallbackId,
        context: PluginCommandContext,
    ) -> EditorModel {
        if is_bundled_plugin(name@) && !context.is_internal() {
            self.rejecting(context, callback, Rejection::UnloadBundledDenied)
        } else {
            self.emitting(Effect::UnloadPlugin { name, callback })
        }
    }

    /// This editor once a plugin was to be loaded anew.
    pub open spec fn reloading(
        self,
        name: String,
        callback: JsCallbackId,
        context: PluginCommandContext,
    ) -> EditorModel {
        if is_bundled_plugin(name@) && !context.is_internal() {
            self.rejecting(context, callback, Rejection::ReloadBundledDenied)
        } else {
            self.emitting(
                Effect::ReloadPlugin {
                    name,
                    callback,
                    owner: callback_owner(context),
                    bundled: is_bundled_plugin(name@),
                },
            )
        }
    }
}

impl Editor {
    /// Unloads a plugin.
    pub fn handle_unload_plugin(
        &mut self,
        name: String,
        callback: JsCallbackId,
        context: &PluginCommandContext,
    )
        ensures
            final(self)@ == old(self)@.unloading(name, callback, *context),
    {
        if same_text(name.as_str(), "orchestrator") && !context_may_manage_bundled_plugins(
            context,
        ) {
            self.reject_callback_for_context(context, callback, Rejection::UnloadBundledDenied);
            return ;
        }
        self.emit(Effect::UnloadPlugin { name, callback });
    }

    /// Loads a plugin anew.
    pub fn handle_reload_plugin(
        &mut self,
        name: String,
        callback: JsCallbackId,
        context: &PluginCommandContext,
    )
        ensures
            final(self)@ == old(self)@.reloading(name, callback, *context),
    {
        let bundled = same_text(name.as_str(), "orchestrator");
        if bundled && !context_may_manage_bundled_plugins(context) {
            self.reject_callback_for_context(context, callback, Rejection::ReloadBundledDenied);
            return ;
        }
        let owner = owner_of_callbacks(context);
        self.emit(Effect::ReloadPlugin { name, callback, owner, bundled });
    }

    /// Rejects the reload of a plugin whose files are not those that the
    /// editor ships with.
    pub fn bundled_integrity_failed(&mut self, owner: CallbackOwner, callback: JsCallbackId)
        ensures
            final(self)@ == old(self)@.emitting(
                Effect::Reject { owner, callback, reason: Rejection::BundledIntegrityFailed },
            ),
    {
        self.emit(Effect::Reject { owner, callback, reason: Rejection::BundledIntegrityFailed });
    }

    /// Answers whoever loaded, unloaded or reloaded a plugin.
    pub fn plugin_operation_done(&mut self, callback: JsCallbackId, outcome: Result<(), String>)
        ensures
            final(self)@ == match outcome {
                Ok(_) => old(self)@.emitting(
                    Effect::Resolve {
                        owner: CallbackOwner::Host,
                        callback,
                        reply: Reply::Flag(true),
                    },
                ),
                Err(error) => old(self)@.refusing(callback, Rejection::Text(error)),
            },
    {
        match outcome {
            Ok(_) => self.emit(
                Effect::Resolve {
                    owner: CallbackOwner::Host,
                    callback,
                    reply: Reply::Flag(true),
                },
            ),
            Err(error) => self.emit(
                Effect::Reject {
                    owner: CallbackOwner::Host,
                    callback,
                    reason: Rejection::Text(error),
                },
            ),
        }
    }

    /// Tells a plugin which plugins are loaded.
    pub fn plugins_listed(&mut self, callback: JsCallbackId, plugins: &Vec<PluginListing>)
        ensures
            old(self)@.is_answering_json(callback.0, plugin_list_json(plugins@), final(self)@),
    {
        let text = list_plugins(plugins);
        self.resolve_json_callback(callback.0, Reply::Json(text));
    }

    /// Tells a plugin which commands there are.
    pub fn editor_commands_listed(&mut self, callback: JsCallbackId, commands: &Vec<CommandListing>)
        ensures
            old(self)@.is_answering_json(callback.0, command_list_json(commands@), final(self)@),
    {
        let text = list_commands(commands);
        self.resolve_json_callback(callback.0, Reply::Json(text));
    }

    /// Answers whoever had the user's start script read again. That there is
    /// none to read is no failure.
    pub fn init_reloaded(&mut self, callback: JsCallbackId, outcome: InitOutcome)
        ensures
            final(self)@ == match outcome {
                InitOutcome::Failed(error) => old(self)@.refusing(
                    callback,
                    Rejection::Text(error),
                ),
                _ => old(self)@.emitting(
                    Effect::Resolve {
                        owner: CallbackOwner::Host,
                        callback,
                        reply: Reply::Flag(outcome is Loaded),
                    },
                ),
            },
    {
        let loaded = match outcome {
            InitOutcome::Loaded => true,
            InitOutcome::NotFound | InitOutcome::Disabled => false,
            InitOutcome::Failed(error) => {
                self.emit(
                    Effect::Reject {
                        owner: CallbackOwner::Host,
                        callback,
                        reason: Rejection::Text(error),
                    },
                );
                return ;
            },
        };
        self.emit(
            Effect::Resolve {
                owner: CallbackOwner::Host,
                callback,
                reply: Reply::Flag(loaded),
            },
        );
    }

    /// Answers whoever ran a command by its name: it is not known, it failed,
    /// or it was run.
    pub fn editor_command_run(
        &mut self,
        name: String,
        callback: JsCallbackId,
        outcome: Option<Result<(), String>>,
    )
        ensures
            final(self)@ == match outcome {
                None => old(self)@.refusing(callback, Rejection::CommandUnknown { name }),
                Some(Err(error)) => old(self)@.refusing(
                    callback,
                    Rejection::CommandFailed { name, error },
                ),
                Some(Ok(_)) => old(self)@.emitting(
                    Effect::Resolve {
                        owner: CallbackOwner::Host,
                        callback,
                        reply: Reply::Flag(true),
                    },
                ),
            },
    {
        let reason = match outcome {
            None => Rejection::CommandUnknown { name },
            Some(Err(error)) => Rejection::CommandFailed { name, error },
            Some(Ok(_)) => {
                self.emit(
                    Effect::Resolve {
                        owner: CallbackOwner::Host,
                        callback,
                        reply: Reply::Flag(true),
                    },
                );
                return ;
            },
        };
        self.emit(Effect::Reject { owner: CallbackOwner::Host, callback, reason });
    }
}

} // verus!
