//! Commands on prompt, keys, modes, macros and menus of the active window.
use std::sync::Arc;
use vstd::prelude::*;

use crate::action_run::ActionRun;
use crate::action_run::ActionRunModel;
use crate::command::ActionSpec;
use crate::editor::Editor;
use crate::editor::EditorModel;
use crate::effects::CallbackOwner;
use crate::effects::Effect;
use crate::effects::EffectModel;
use crate::effects::Reply;
use crate::ids::JsCallbackId;
use crate::ids::SplitId;
use crate::lists::retain_where;
use crate::text::same_text;
use crate::window::ActionStep;
use crate::window::LspMenuContribution;
use crate::window::Prompt;
use crate::window::ScrollSyncGroup;
use crate::window::UiModel;
use crate::window::Window;
use crate::window::WindowModel;

verus! {

impl WindowModel {
    /// This window with other interface state.
    pub open spec fn with_ui(self, ui: UiModel) -> WindowModel {
        WindowModel { ui, ..self }
    }

    /// This window with its prompt changed, where it shows one.
    pub open spec fn with_prompt(self, change: spec_fn(Prompt) -> Prompt) -> WindowModel {
        match self.ui.prompt {
            Some(prompt) => self.with_ui(UiModel { prompt: Some(change(prompt)), ..self.ui }),
            None => self,
        }
    }
}

impl EditorModel {
    /// This editor with its active window changed, where there is one.
    pub open spec fn changing_active(
        self,
        change: spec_fn(WindowModel) -> WindowModel,
    ) -> EditorModel {
        if self.has_active() {
            self.with_active(change(self.active()))
        } else {
            self
        }
    }

    /// This editor with the prompt of its active window changed.
    pub open spec fn changing_prompt(self, change: spec_fn(Prompt) -> Prompt) -> EditorModel {
        self.changing_active(|w: WindowModel| w.with_prompt(change))
    }

    /// This editor with the interface state of its active window changed.
    pub open spec fn changing_ui(self, change: spec_fn(UiModel) -> UiModel) -> EditorModel {
        self.changing_active(|w: WindowModel| w.with_ui(change(w.ui)))
    }
}

/// The suggestion that is selected when the one at `index` is asked for: the
/// last one where there is none at `index`.
pub open spec fn selection_at(index: u32, count: u64) -> u64 {
    if index < count {
        index as u64
    } else {
        (count - 1) as u64
    }
}

/// Whether a text is another one than `name`.
pub open spec fn other_text(name: Seq<char>) -> spec_fn(String) -> bool {
    |s: String| s@ != name
}

/// Whether a list of texts holds `name`.
pub open spec fn holds_text(texts: Seq<String>, name: Seq<char>) -> bool {
    exists|i: int| 0 <= i < texts.len() && (#[trigger] texts[i])@ == name
}

/// The custom contexts with `name` set or cleared.
pub open spec fn contexts_with(contexts: Seq<String>, name: String, active: bool) -> Seq<String> {
    if !active {
        contexts.filter(other_text(name@))
    } else if holds_text(contexts, name@) {
        contexts
    } else {
        contexts.push(name)
    }
}

/// Whether a contribution is not the one of `plugin` for `language`.
pub open spec fn other_contribution(plugin: Seq<char>, language: Seq<char>) -> spec_fn(
    LspMenuContribution,
) -> bool {
    |c: LspMenuContribution| !(c.plugin@ == plugin && c.language@ == language)
}

/// The contributions to the list of language servers, once a plugin has set
/// its own for a language. With no item it takes them back.
pub open spec fn contributions_with(
    menu: Seq<LspMenuContribution>,
    plugin: String,
    language: String,
    items: Vec<String>,
) -> Seq<LspMenuContribution> {
    let others = menu.filter(other_contribution(plugin@, language@));
    if items@.len() == 0 {
        others
    } else {
        others.push(LspMenuContribution { plugin, language, items })
    }
}

/// The actions that no plugin may run: those that set how far a project is
/// trusted. A plugin may ask the user, who decides.
pub open spec fn sets_trust(action: Seq<char>) -> bool {
    ||| action == "workspace_trust_trust"@
    ||| action == "workspace_trust_restrict"@
    ||| action == "workspace_trust_block"@
}

/// Whether a plugin may run an action.
pub open spec fn is_permitted_action() -> spec_fn(ActionSpec) -> bool {
    |spec: ActionSpec| !sets_trust(spec.action@)
}

/// Whether a plugin may not run an action.
fn is_trust_action(action: &str) -> (forbidden: bool)
    ensures
        forbidden == sets_trust(action@),
{
    same_text(action, "workspace_trust_trust") || same_text(action, "workspace_trust_restrict")
        || same_text(action, "workspace_trust_block")
}

/// The steps of a macro: each action that is known as often as it says, but
/// once at least. The names and arguments are those of the steps.
pub open spec fn macro_steps(specs: Seq<ActionSpec>, known: Seq<bool>) -> Seq<(Seq<char>, Seq<(String, String)>)>
    decreases specs.len(),
{
    if specs.len() == 0 || known.len() != specs.len() {
        Seq::empty()
    } else {
        let before = macro_steps(specs.drop_last(), known.drop_last());
        let spec = specs.last();
        if known.last() {
            before + Seq::new(
                if spec.count == 0 {
                    1nat
                } else {
                    spec.count as nat
                },
                |i: int| (spec.action@, spec.args@),
            )
        } else {
            before
        }
    }
}

/// What the steps of a macro do.
pub open spec fn step_contents(steps: Seq<ActionStep>) -> Seq<(Seq<char>, Seq<(String, String)>)> {
    steps.map_values(|step: ActionStep| (step.action@, step.args@))
}

/// A copy of the arguments of an action.
fn copy_args(args: &Vec<(String, String)>) -> (copy: Vec<(String, String)>)
    ensures
        copy@ == args@,
{
    let mut copy: Vec<(String, String)> = Vec::new();
    let mut at: usize = 0;
    while at < args.len()
        invariant
            at <= args.len(),
            copy@ =~= args@.take(at as int),
        decreases args.len() - at,
    {
        copy.push((args[at].0.clone(), args[at].1.clone()));
        at = at + 1;
    }
    proof {
        assert(args@.take(args@.len() as int) =~= args@);
    }
    copy
}

/// The steps of a macro.
fn expand_macro(specs: &Vec<ActionSpec>, known: &Vec<bool>) -> (steps: Vec<ActionStep>)
    requires
        specs@.len() == known@.len(),
    ensures
        step_contents(steps@) == macro_steps(specs@, known@),
{
    let mut steps: Vec<ActionStep> = Vec::new();
    let mut at: usize = 0;
    proof {
        assert(step_contents(steps@) =~= macro_steps(specs@.take(0), known@.take(0)));
    }
    while at < specs.len()
        invariant
            at <= specs.len(),
            specs@.len() == known@.len(),
            step_contents(steps@) == macro_steps(specs@.take(at as int), known@.take(at as int)),
        decreases specs.len() - at,
    {
        proof {
            assert(specs@.take(at + 1).drop_last() =~= specs@.take(at as int));
            assert(known@.take(at + 1).drop_last() =~= known@.take(at as int));
        }
        let ghost before = step_contents(steps@);
        if known[at] {
            let spec = &specs[at];
            let count: u32 = if spec.count == 0 {
                1
            } else {
                spec.count
            };
            let mut made: u32 = 0;
            while made < count
                invariant
                    made <= count,
                    at < specs.len(),
                    *spec == specs@[at as int],
                    step_contents(steps@) =~= before + Seq::new(
                        made as nat,
                        |i: int| (spec.action@, spec.args@),
                    ),
                decreases count - made,
            {
                let ghost listed = steps@;
                steps.push(
                    ActionStep { action: spec.action.clone(), args: copy_args(&spec.args) },
                );
                proof {
                    assert(step_contents(steps@) =~= step_contents(listed).push(
                        (spec.action@, spec.args@),
                    ));
                }
                made = made + 1;
            }
        }
        at = at + 1;
    }
    proof {
        assert(specs@.take(specs@.len() as int) =~= specs@);
        assert(known@.take(known@.len() as int) =~= known@);
    }
    steps
}

impl Window {
    /// Changes nothing but the macro of a register.
    fn set_macro(&mut self, register: u64, steps: Vec<ActionStep>)
        ensures
            final(self)@ == old(self)@.with_ui(
                UiModel {
                    macros: old(self)@.ui.macros.insert(register, steps@),
                    ..old(self)@.ui
                },
            ),
    {
        let ghost before = self@.ui.macros;
        let ghost made = steps@;
        self.ui.macros.insert(register, Arc::new(steps));
        proof {
            assert(self@.ui.macros =~= before.insert(register, made));
        }
    }
}

impl Editor {
    /// Starts or ends the capture of keys for plugins. Keys that wait when it
    /// ends are dropped.
    pub fn handle_set_key_capture_active(&mut self, active: bool)
        ensures
            final(self)@ == old(self)@.keys_captured(active),
    {
        let id = self.active_window;
        let ghost before = self@;
        if let Some(mut window) = self.take_window(id) {
            window.ui.key_capture_active = active;
            if !active {
                window.ui.pending_keys = Vec::new();
            }
            self.put_back(id, window, Ghost(before));
        }
    }

    /// Sets whether the prompt's text follows the selected suggestion.
    pub fn handle_set_prompt_input_sync(&mut self, sync: bool)
        ensures
            final(self)@ == old(self)@.changing_prompt(
                |p: Prompt| Prompt { sync_input_on_navigate: sync, ..p },
            ),
    {
        let id = self.active_window;
        let ghost before = self@;
        if let Some(mut window) = self.take_window(id) {
            if let Some(prompt) = &mut window.ui.prompt {
                prompt.sync_input_on_navigate = sync;
            }
            self.put_back(id, window, Ghost(before));
        }
    }

    /// Sets the title of the prompt.
    pub fn handle_set_prompt_title(&mut self, title: Vec<String>)
        ensures
            final(self)@ == old(self)@.changing_prompt(|p: Prompt| Prompt { title, ..p }),
    {
        let id = self.active_window;
        let ghost before = self@;
        if let Some(mut window) = self.take_window(id) {
            if let Some(prompt) = &mut window.ui.prompt {
                prompt.title = title;
            }
            self.put_back(id, window, Ghost(before));
        }
    }

    /// Sets the footer of the prompt.
    pub fn handle_set_prompt_footer(&mut self, footer: Vec<String>)
        ensures
            final(self)@ == old(self)@.changing_prompt(|p: Prompt| Prompt { footer, ..p }),
    {
        let id = self.active_window;
        let ghost before = self@;
        if let Some(mut window) = self.take_window(id) {
            if let Some(prompt) = &mut window.ui.prompt {
                prompt.footer = footer;
            }
            self.put_back(id, window, Ghost(before));
        }
    }

    /// Sets the toolbar of the prompt.
    pub fn handle_set_prompt_toolbar(&mut self, toolbar: Option<String>)
        ensures
            final(self)@ == old(self)@.changing_prompt(|p: Prompt| Prompt { toolbar, ..p }),
    {
        let id = self.active_window;
        let ghost before = self@;
        if let Some(mut window) = self.take_window(id) {
            if let Some(prompt) = &mut window.ui.prompt {
                prompt.toolbar = toolbar;
            }
            self.put_back(id, window, Ghost(before));
        }
    }

    /// Sets the status line of the prompt.
    pub fn handle_set_prompt_status(&mut self, status: String)
        ensures
            final(self)@ == old(self)@.changing_prompt(|p: Prompt| Prompt { status, ..p }),
    {
        let id = self.active_window;
        let ghost before = self@;
        if let Some(mut window) = self.take_window(id) {
            if let Some(prompt) = &mut window.ui.prompt {
                prompt.status = status;
            }
            self.put_back(id, window, Ghost(before));
        }
    }

    /// Selects a suggestion of the prompt, where it has any.
    pub fn handle_set_prompt_selected_index(&mut self, index: u32)
        ensures
            final(self)@ == old(self)@.suggestion_selected(index),
    {
        let id = self.active_window;
        let ghost before = self@;
        if let Some(mut window) = self.take_window(id) {
            if let Some(prompt) = &mut window.ui.prompt {
                let count: u64 = prompt.suggestion_count;
                if count > 0 {
                    let selected: u64 = if (index as u64) < count {
                        index as u64
                    } else {
                        count - 1
                    };
                    prompt.selected_suggestion = Some(selected);
                }
            }
            self.put_back(id, window, Ghost(before));
        }
    }

    /// Hands the next key to a plugin: one that was captured already, or the
    /// next one that comes.
    pub fn handle_await_next_key(&mut self, callback: JsCallbackId)
        ensures
            final(self)@ == old(self)@.key_awaited(callback),
    {
        let id = self.active_window;
        let ghost before = self@;
        if let Some(mut window) = self.take_window(id) {
            if window.ui.pending_keys.len() > 0 {
                let ghost keys = window.ui.pending_keys@;
                let key = window.ui.pending_keys.remove(0);
                proof {
                    assert(window.ui.pending_keys@ =~= keys.drop_first());
                }
                self.put_back(id, window, Ghost(before));
                self.emit(
                    Effect::Resolve {
                        owner: CallbackOwner::Host,
                        callback,
                        reply: Reply::Json(key),
                    },
                );
            } else {
                window.ui.pending_key_callbacks.push(callback);
                self.put_back(id, window, Ghost(before));
            }
        }
    }

    /// Sets the mode that a plugin has defined.
    pub fn handle_set_editor_mode(&mut self, mode: Option<String>)
        ensures
            final(self)@ == old(self)@.changing_active(|w: WindowModel| w.with_mode(mode)),
    {
        let id = self.active_window;
        let ghost before = self@;
        if let Some(mut window) = self.take_window(id) {
            window.ui.editor_mode = mode;
            self.put_back(id, window, Ghost(before));
        }
    }

    /// Sets the hunks of the review.
    pub fn handle_set_review_diff_hunks(&mut self, hunks: Vec<String>)
        ensures
            final(self)@ == old(self)@.changing_ui(
                |ui: UiModel| UiModel { review_hunks: hunks@, ..ui },
            ),
    {
        let id = self.active_window;
        let ghost before = self@;
        if let Some(mut window) = self.take_window(id) {
            window.ui.review_hunks = hunks;
            self.put_back(id, window, Ghost(before));
        }
    }

    /// Sets or clears a custom context.
    pub fn handle_set_context(&mut self, name: String, active: bool)
        ensures
            final(self)@ == old(self)@.context_set(name, active),
    {
        let id = self.active_window;
        let ghost before = self@;
        if let Some(mut window) = self.take_window(id) {
            if active {
                if !has_text(&window.ui.custom_contexts, name.as_str()) {
                    window.ui.custom_contexts.push(name);
                }
            } else {
                let cleared = name.as_str();
                let keep = |s: &String| -> (kept: bool)
                    ensures
                        kept == (s@ != cleared@),
                {
                    !same_text(s.as_str(), cleared)
                };
                retain_where(
                    &mut window.ui.custom_contexts,
                    keep,
                    Ghost(other_text(name@)),
                );
            }
            self.put_back(id, window, Ghost(before));
        }
    }

    /// Sets what a plugin adds to the list of language servers, and shows it
    /// at once where the list is open.
    pub fn handle_set_lsp_menu_contributions(
        &mut self,
        plugin: String,
        language: String,
        items: Vec<String>,
    )
        ensures
            final(self)@ == old(self)@.menu_contributed(plugin, language, items),
    {
        let id = self.active_window;
        let ghost before = self@;
        if let Some(mut window) = self.take_window(id) {
            let by = plugin.as_str();
            let about = language.as_str();
            let keep = |c: &LspMenuContribution| -> (kept: bool)
                ensures
                    kept == !(c.plugin@ == by@ && c.language@ == about@),
            {
                !(same_text(c.plugin.as_str(), by) && same_text(c.language.as_str(), about))
            };
            retain_where(
                &mut window.ui.lsp_menu,
                keep,
                Ghost(other_contribution(plugin@, language@)),
            );
            if items.len() > 0 {
                window.ui.lsp_menu.push(LspMenuContribution { plugin, language, items });
            }
            self.put_back(id, window, Ghost(before));
        }
        self.emit(Effect::RefreshLspMenu);
    }

    /// Couples the scrolling of two splits. Nothing happens where the group is
    /// there already.
    pub fn handle_create_scroll_sync_group(
        &mut self,
        group: u64,
        left_split: SplitId,
        right_split: SplitId,
    ) -> (created: bool)
        ensures
            created == (old(self)@.has_active()
                && !old(self)@.active().ui.scroll_sync_groups.contains_key(group)),
            old(self)@.is_coupling(group, left_split, right_split, final(self)@),
    {
        let id = self.active_window;
        let ghost before = self@;
        if let Some(mut window) = self.take_window(id) {
            if window.ui.scroll_sync_groups.contains_key(&group) {
                self.put_back(id, window, Ghost(before));
                proof {
                    assert(before.with_window(id, before.window(id)).windows =~= before.windows);
                }
                return false;
            }
            let anchors: Vec<(u64, u64)> = Vec::new();
            let ghost none = anchors;
            window.ui.scroll_sync_groups.insert(
                group,
                ScrollSyncGroup { left_split: left_split.0, right_split: right_split.0, anchors },
            );
            self.put_back(id, window, Ghost(before));
            proof {
                assert(self@ == before.with_sync_group(
                    group,
                    ScrollSyncGroup {
                        left_split: left_split.0,
                        right_split: right_split.0,
                        anchors: none,
                    },
                ));
            }
            return true;
        }
        false
    }

    /// Sets the lines at which two coupled splits meet. Nothing happens where
    /// there is no such group.
    pub fn handle_set_scroll_sync_anchors(&mut self, group: u64, anchors: Vec<(u64, u64)>)
        ensures
            final(self)@ == old(self)@.anchors_set(group, anchors),
    {
        let id = self.active_window;
        let ghost before = self@;
        if let Some(mut window) = self.take_window(id) {
            let ghost groups = window.ui.scroll_sync_groups@;
            if let Some(mut found) = window.ui.scroll_sync_groups.remove(&group) {
                found.anchors = anchors;
                let ghost set = found;
                window.ui.scroll_sync_groups.insert(group, found);
                proof {
                    assert(groups.remove(group).insert(group, set) =~= groups.insert(group, set));
                }
            } else {
                proof {
                    assert(groups.remove(group) =~= groups);
                    assert(before.with_window(id, before.window(id)).windows =~= before.windows);
                }
            }
            self.put_back(id, window, Ghost(before));
        }
    }

    /// Lets two coupled splits scroll on their own again.
    pub fn handle_remove_scroll_sync_group(&mut self, group: u64)
        ensures
            final(self)@ == old(self)@.changing_ui(
                |ui: UiModel|
                    UiModel { scroll_sync_groups: ui.scroll_sync_groups.remove(group), ..ui },
            ),
    {
        let id = self.active_window;
        let ghost before = self@;
        if let Some(mut window) = self.take_window(id) {
            window.ui.scroll_sync_groups.remove(&group);
            self.put_back(id, window, Ghost(before));
        }
    }

    /// Runs actions for a plugin, but for those that set how far the project
    /// is trusted: in their order, each as often as it says, up to the first that
    /// is unknown or fails, as [`ActionRun`] decides.
    pub fn handle_execute_actions(&mut self, actions: Vec<ActionSpec>)
        ensures
            final(self)@ == old(self)@.asking(
                EffectModel::RunActions {
                    run: ActionRunModel::fresh(actions@.filter(is_permitted_action())),
                },
            ),
    {
        let mut actions = actions;
        let keep = |spec: &ActionSpec| -> (kept: bool)
            ensures
                kept == !sets_trust(spec.action@),
        {
            !is_trust_action(spec.action.as_str())
        };
        retain_where(&mut actions, keep, Ghost(is_permitted_action()));
        self.emit(Effect::RunActions { run: ActionRun::new(actions) });
    }

    /// Runs one action for a plugin.
    pub fn handle_execute_action(&mut self, action: String)
        ensures
            old(self)@.is_running(action, final(self)@),
    {
        let ghost before = self@;
        let spec = ActionSpec { action, count: 1, args: Vec::new() };
        let ghost only = spec;
        let mut actions: Vec<ActionSpec> = Vec::new();
        actions.push(spec);
        proof {
            assert(actions@ =~= seq![only]);
        }
        self.emit(Effect::RunActions { run: ActionRun::new(actions) });
        proof {
            assert(self@ == before.asking(EffectModel::RunActions { run: ActionRunModel::fresh(seq![only]) }));
        }
    }

    /// Defines the macro of a register from steps, of which the host says
    /// whether their actions are known. Steps that are not known are skipped.
    /// Nothing happens where the register has no name.
    pub fn handle_define_macro(&mut self, register: &str, steps: &Vec<ActionSpec>, known: &Vec<bool>)
        requires
            steps@.len() == known@.len(),
        ensures
            if register@.len() > 0 && old(self)@.has_active() {
                exists|made: Seq<ActionStep>|
                    {
                        &&& step_contents(made) == macro_steps(steps@, known@)
                        &&& final(self)@ == #[trigger] old(self)@.with_macro(
                            register@[0] as u64,
                            made,
                        )
                    }
            } else {
                final(self)@ == old(self)@
            },
    {
        if register.unicode_len() == 0 {
            return ;
        }
        let key = register.get_char(0) as u64;
        let id = self.active_window;
        let ghost before = self@;
        if let Some(mut window) = self.take_window(id) {
            let expanded = expand_macro(steps, known);
            let ghost made = expanded@;
            window.set_macro(key, expanded);
            self.put_back(id, window, Ghost(before));
            proof {
                assert(self@ == before.with_macro(register@[0] as u64, made));
            }
        }
    }

    /// Plays the macro of a register. Nothing happens where the register has
    /// no name.
    pub fn handle_play_macro_by_register(&mut self, register: &str)
        ensures
            final(self)@ == old(self)@.macro_played(register@),
    {
        if register.unicode_len() > 0 {
            let key = register.get_char(0);
            self.emit(Effect::PlayMacro { register: key });
        }
    }
}

impl EditorModel {
    /// Whether `after` is this editor with one action run.
    pub open spec fn is_running(self, action: String, after: EditorModel) -> bool {
        exists|spec: ActionSpec|
            {
                &&& spec.action == action
                &&& spec.count == 1
                &&& spec.args@.len() == 0
                &&& after == #[trigger] self.asking(
                    EffectModel::RunActions { run: ActionRunModel::fresh(seq![spec]) },
                )
            }
    }

    /// Whether `after` is this editor with two splits coupled that meet
    /// nowhere yet. Nothing changes where the group is there already.
    pub open spec fn is_coupling(
        self,
        group: u64,
        left_split: SplitId,
        right_split: SplitId,
        after: EditorModel,
    ) -> bool {
        if self.has_active() && !self.active().ui.scroll_sync_groups.contains_key(group) {
            exists|anchors: Vec<(u64, u64)>|
                anchors@.len() == 0 && after == #[trigger] self.with_sync_group(
                    group,
                    ScrollSyncGroup {
                        left_split: left_split.0,
                        right_split: right_split.0,
                        anchors,
                    },
                )
        } else {
            after == self
        }
    }

    /// This editor with another macro in its active window.
    pub open spec fn with_macro(self, register: u64, steps: Seq<ActionStep>) -> EditorModel {
        self.with_active(
            self.active().with_ui(
                UiModel { macros: self.active().ui.macros.insert(register, steps), ..self.active().ui },
            ),
        )
    }

    /// This editor with another pair of coupled splits in its active window.
    pub open spec fn with_sync_group(self, group: u64, splits: ScrollSyncGroup) -> EditorModel {
        self.with_active(
            self.active().with_ui(
                UiModel {
                    scroll_sync_groups: self.active().ui.scroll_sync_groups.insert(group, splits),
                    ..self.active().ui
                },
            ),
        )
    }
}

/// Whether a list of texts holds `name`.
pub(crate) fn has_text(texts: &Vec<String>, name: &str) -> (found: bool)
    ensures
        found == holds_text(texts@, name@),
{
    let mut at: usize = 0;
    while at < texts.len()
        invariant
            at <= texts.len(),
            forall|i: int| 0 <= i < at ==> (#[trigger] texts@[i])@ != name@,
        decreases texts.len() - at,
    {
        if same_text(texts[at].as_str(), name) {
            return true;
        }
        at = at + 1;
    }
    false
}

/// Of a list of actions that a plugin wants run, none that is run sets how far a
/// project is trusted.
pub proof fn plugins_cannot_set_trust(actions: Seq<ActionSpec>, i: int)
    requires
        0 <= i < actions.filter(is_permitted_action()).len(),
    ensures
        !sets_trust(actions.filter(is_permitted_action())[i].action@),
{
    actions.lemma_filter_pred(is_permitted_action(), i);
}

impl EditorModel {
    /// This editor with keys captured for plugins or not.
    pub open spec fn keys_captured(self, active: bool) -> EditorModel {
        self.changing_ui(
            |ui: UiModel|
                UiModel {
                    key_capture_active: active,
                    pending_keys: if active {
                        ui.pending_keys
                    } else {
                        Seq::empty()
                    },
                    ..ui
                },
        )
    }

    /// This editor with a custom context set or cleared.
    pub open spec fn context_set(self, name: String, active: bool) -> EditorModel {
        self.changing_ui(
            |ui: UiModel|
                UiModel {
                    custom_contexts: contexts_with(ui.custom_contexts, name, active),
                    ..ui
                },
        )
    }

    /// This editor once a plugin has set its part of the list of language servers.
    pub open spec fn menu_contributed(
        self,
        plugin: String,
        language: String,
        items: Vec<String>,
    ) -> EditorModel {
        self.changing_ui(
            |ui: UiModel|
                UiModel {
                    lsp_menu: contributions_with(ui.lsp_menu, plugin, language, items),
                    ..ui
                },
        ).emitting(Effect::RefreshLspMenu)
    }

    /// This editor with other lines at which two coupled splits meet.
    pub open spec fn anchors_set(self, group: u64, anchors: Vec<(u64, u64)>) -> EditorModel {
        if self.has_active()
            && self.active().ui.scroll_sync_groups.contains_key(group) {
            self.with_sync_group(
                group,
                ScrollSyncGroup {
                    anchors,
                    ..self.active().ui.scroll_sync_groups[group]
                },
            )
        } else {
            self
        }
    }

    /// This editor once a macro was to be played.
    pub open spec fn macro_played(self, register: Seq<char>) -> EditorModel {
        if register.len() > 0 {
            self.emitting(Effect::PlayMacro { register: register[0] })
        } else {
            self
        }
    }

    /// This editor with another suggestion selected.
    pub open spec fn suggestion_selected(self, index: u32) -> EditorModel {
        self.changing_prompt(
            |p: Prompt|
                if p.suggestion_count > 0 {
                    Prompt {
                        selected_suggestion: Some(selection_at(index, p.suggestion_count)),
                        ..p
                    }
                } else {
                    p
                },
        )
    }

    /// This editor once a plugin waits for a key.
    pub open spec fn key_awaited(self, callback: JsCallbackId) -> EditorModel {
        let ui = self.active().ui;
        if !self.has_active() {
            self
        } else if ui.pending_keys.len() > 0 {
            self.with_active(
                self.active().with_ui(
                    UiModel { pending_keys: ui.pending_keys.drop_first(), ..ui },
                ),
            ).emitting(
                Effect::Resolve {
                    owner: CallbackOwner::Host,
                    callback,
                    reply: Reply::Json(ui.pending_keys[0]),
                },
            )
        } else {
            self.with_active(
                self.active().with_ui(
                    UiModel {
                        pending_key_callbacks: ui.pending_key_callbacks.push(callback),
                        ..ui
                    },
                ),
            )
        }
    }
}

} // verus!
