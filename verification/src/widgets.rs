//! Widget panels: their state, targeted changes to it, and floating panels.
use vstd::prelude::*;

use crate::ids::BufferId;
use crate::lists::first_index;
use crate::lists::lemma_first_index_found;
use crate::lists::lemma_first_index_none;
use crate::text::same_text;
use crate::text_map::TextMap;

verus! {

/// A panel, by the plugin that owns it and that plugin's number for it.
#[derive(Debug)]
pub struct PanelKey {
    pub plugin: String,
    pub panel_id: u64,
}

/// The index of a tree in which nothing is selected.
pub const NO_SELECTION: i32 = -1;

/// A node of a tree widget.
#[derive(Debug)]
pub struct TreeNode {
    pub key: String,
    pub text: String,
    pub checked: bool,
}

/// What a widget is, with what its plugin specified.
#[derive(Debug)]
pub enum WidgetKind {
    Toggle { checked: bool },
    Number { min: Option<i64>, max: Option<i64> },
    Dropdown { options: Vec<String> },
    DualList { options: Vec<String> },
    List { items: Vec<String>, item_keys: Vec<String> },
    Tree { nodes: Vec<TreeNode>, item_keys: Vec<String> },
    Raw { entries: Vec<String> },
    Text,
    Other,
}

/// A widget of a panel.
#[derive(Debug)]
pub struct Widget {
    pub key: String,
    pub kind: WidgetKind,
}

/// The text and the cursor of a text widget. The cursor is a byte offset.
#[derive(Debug)]
pub struct TextEdit {
    pub text: String,
    pub multiline: bool,
    pub cursor: u64,
}

/// What the host keeps of a widget between renders.
#[derive(Debug)]
pub enum WidgetInstanceState {
    Text {
        editor: TextEdit,
        scroll: u32,
        completions: Vec<String>,
        completion_selected_index: u64,
        completion_scroll_offset: u32,
        /// Whether the user has stepped into the completion popup.
        completion_navigated: bool,
        user_scrolled: bool,
    },
    List { selected_index: i32, scroll_offset: u32 },
    Tree {
        selected_index: i32,
        scroll_offset: u32,
        expanded_keys: Vec<String>,
        user_scrolled: bool,
    },
    Number { value: i64 },
    Dropdown { selected_index: i32, open: bool },
    DualList {
        included: Vec<String>,
        active_included: bool,
        available_cursor: i32,
        included_cursor: i32,
    },
}

/// [`WidgetKind`] as a mathematical value.
pub enum KindModel {
    Toggle { checked: bool },
    Number { min: Option<i64>, max: Option<i64> },
    Dropdown { options: Seq<String> },
    DualList { options: Seq<String> },
    List { items: Seq<String>, item_keys: Seq<String> },
    Tree { nodes: Seq<TreeNode>, item_keys: Seq<String> },
    Raw { entries: Seq<String> },
    Text,
    Other,
}

/// [`Widget`] as a mathematical value.
pub struct WidgetModel {
    pub key: Seq<char>,
    pub kind: KindModel,
}

/// [`WidgetInstanceState`] as a mathematical value.
pub enum StateModel {
    Text {
        editor: TextEdit,
        scroll: u32,
        completions: Seq<String>,
        completion_selected_index: u64,
        completion_scroll_offset: u32,
        completion_navigated: bool,
        user_scrolled: bool,
    },
    List { selected_index: i32, scroll_offset: u32 },
    Tree {
        selected_index: i32,
        scroll_offset: u32,
        expanded_keys: Seq<String>,
        user_scrolled: bool,
    },
    Number { value: i64 },
    Dropdown { selected_index: i32, open: bool },
    DualList {
        included: Seq<String>,
        active_included: bool,
        available_cursor: i32,
        included_cursor: i32,
    },
}

impl View for WidgetKind {
    type V = KindModel;

    open spec fn view(&self) -> KindModel {
        match *self {
            WidgetKind::Toggle { checked } => KindModel::Toggle { checked },
            WidgetKind::Number { min, max } => KindModel::Number { min, max },
            WidgetKind::Dropdown { options } => KindModel::Dropdown { options: options@ },
            WidgetKind::DualList { options } => KindModel::DualList { options: options@ },
            WidgetKind::List { items, item_keys } => KindModel::List {
                items: items@,
                item_keys: item_keys@,
            },
            WidgetKind::Tree { nodes, item_keys } => KindModel::Tree {
                nodes: nodes@,
                item_keys: item_keys@,
            },
            WidgetKind::Raw { entries } => KindModel::Raw { entries: entries@ },
            WidgetKind::Text => KindModel::Text,
            WidgetKind::Other => KindModel::Other,
        }
    }
}

impl View for Widget {
    type V = WidgetModel;

    open spec fn view(&self) -> WidgetModel {
        WidgetModel { key: self.key@, kind: self.kind@ }
    }
}

impl View for WidgetInstanceState {
    type V = StateModel;

    open spec fn view(&self) -> StateModel {
        match *self {
            WidgetInstanceState::Text {
                editor,
                scroll,
                completions,
                completion_selected_index,
                completion_scroll_offset,
                completion_navigated,
                user_scrolled,
            } => StateModel::Text {
                editor,
                scroll,
                completions: completions@,
                completion_selected_index,
                completion_scroll_offset,
                completion_navigated,
                user_scrolled,
            },
            WidgetInstanceState::List { selected_index, scroll_offset } => StateModel::List {
                selected_index,
                scroll_offset,
            },
            WidgetInstanceState::Tree {
                selected_index,
                scroll_offset,
                expanded_keys,
                user_scrolled,
            } => StateModel::Tree {
                selected_index,
                scroll_offset,
                expanded_keys: expanded_keys@,
                user_scrolled,
            },
            WidgetInstanceState::Number { value } => StateModel::Number { value },
            WidgetInstanceState::Dropdown { selected_index, open } => StateModel::Dropdown {
                selected_index,
                open,
            },
            WidgetInstanceState::DualList {
                included,
                active_included,
                available_cursor,
                included_cursor,
            } => StateModel::DualList {
                included: included@,
                active_included,
                available_cursor,
                included_cursor,
            },
        }
    }
}

/// One targeted change to a panel.
#[allow(inconsistent_fields)]
#[derive(Debug)]
pub enum WidgetMutation {
    SetValue { widget_key: String, value: String, cursor_byte: Option<i32> },
    SetChecked { widget_key: String, checked: bool },
    SetSelectedIndex { widget_key: String, index: i32 },
    SetNumber { widget_key: String, value: i64 },
    SetDropdown { widget_key: String, index: i32 },
    SetDualIncluded { widget_key: String, included: Vec<String> },
    SetCompletions { widget_key: String, items: Vec<String> },
    SetItems { widget_key: String, items: Vec<String>, item_keys: Vec<String> },
    SetExpandedKeys { widget_key: String, keys: Vec<String> },
    SetCheckedKeys { widget_key: String, checked: bool, keys: Vec<String> },
    AppendTreeNodes { widget_key: String, new_nodes: Vec<TreeNode>, new_item_keys: Vec<String> },
    SetRawEntries { widget_key: String, entries: Vec<String> },
    SetFocusKey { widget_key: String },
}

/// A mounted panel.
#[derive(Debug)]
pub struct Panel {
    pub key: PanelKey,
    pub buffer_id: BufferId,
    /// The widgets in the order of the layout.
    pub widgets: Vec<Widget>,
    pub states: TextMap<WidgetInstanceState>,
    pub focus_key: String,
}

/// [`Panel`] as a mathematical value.
pub struct PanelModel {
    pub plugin: Seq<char>,
    pub panel_id: u64,
    pub buffer_id: BufferId,
    pub widgets: Seq<WidgetModel>,
    pub states: Map<Seq<char>, StateModel>,
    pub focus_key: Seq<char>,
}

/// The models of a list of widgets.
pub open spec fn widget_models(widgets: Seq<Widget>) -> Seq<WidgetModel> {
    widgets.map_values(|w: Widget| w@)
}

/// The models of the states of widgets.
pub open spec fn state_models(states: Map<Seq<char>, WidgetInstanceState>) -> Map<
    Seq<char>,
    StateModel,
> {
    states.map_values(|s: WidgetInstanceState| s@)
}

impl View for Panel {
    type V = PanelModel;

    open spec fn view(&self) -> PanelModel {
        PanelModel {
            plugin: self.key.plugin@,
            panel_id: self.key.panel_id,
            buffer_id: self.buffer_id,
            widgets: widget_models(self.widgets@),
            states: state_models(self.states@),
            focus_key: self.focus_key@,
        }
    }
}

/// Whether a widget has the key `key`.
pub open spec fn has_key(key: Seq<char>) -> spec_fn(WidgetModel) -> bool {
    |w: WidgetModel| w.key == key
}

/// Whether `texts` holds a text with the characters `text`.
pub open spec fn lists_text(texts: Seq<String>, text: Seq<char>) -> bool {
    exists|i: int| 0 <= i < texts.len() && (#[trigger] texts[i])@ == text
}

/// `value` within the bounds that are there, the lower one first.
pub open spec fn clamp_number(value: i64, min: Option<i64>, max: Option<i64>) -> i64 {
    let low = match min {
        Some(min) => if value < min {
            min
        } else {
            value
        },
        None => value,
    };
    match max {
        Some(max) => if low > max {
            max
        } else {
            low
        },
        None => low,
    }
}

/// `index` within `0 .. len - 1`, and 0 where there is nothing to select.
pub open spec fn clamp_index(index: i32, len: nat) -> int {
    if len == 0 || index < 0 {
        0
    } else if index < len {
        index as int
    } else {
        len - 1
    }
}

/// The length of a text in bytes.
pub open spec fn byte_len(text: Seq<char>) -> usize {
    vstd::utf8::encode_utf8(text).len() as usize
}

/// Where the cursor goes in a new value: where it is wanted, but not past the
/// end, and at the end where nothing valid is wanted.
pub open spec fn cursor_in(value: Seq<char>, cursor_byte: Option<i32>) -> u64 {
    let len = byte_len(value) as u64;
    match cursor_byte {
        Some(byte) => if byte < 0 || byte > len {
            len
        } else {
            byte as u64
        },
        None => len,
    }
}

/// The state of a text widget that was given a new value. Scrolling and an
/// open completion popup survive the change.
pub open spec fn text_state(
    before: Option<StateModel>,
    value: String,
    cursor_byte: Option<i32>,
) -> StateModel {
    let cursor = cursor_in(value@, cursor_byte);
    match before {
        Some(
            StateModel::Text {
                editor,
                scroll,
                completions,
                completion_selected_index,
                completion_scroll_offset,
                completion_navigated,
                ..
            },
        ) => StateModel::Text {
            editor: TextEdit { text: value, multiline: editor.multiline, cursor },
            scroll,
            completions,
            completion_selected_index,
            completion_scroll_offset,
            completion_navigated,
            user_scrolled: false,
        },
        _ => StateModel::Text {
            editor: TextEdit { text: value, multiline: true, cursor },
            scroll: 0,
            completions: Seq::empty(),
            completion_selected_index: 0,
            completion_scroll_offset: 0,
            completion_navigated: false,
            user_scrolled: false,
        },
    }
}

/// The state of a list or tree after a selection: a tree stays a tree.
pub open spec fn selected_state(before: Option<StateModel>, index: i32) -> StateModel {
    match before {
        Some(StateModel::Tree { scroll_offset, expanded_keys, user_scrolled, .. }) =>
            StateModel::Tree { selected_index: index, scroll_offset, expanded_keys, user_scrolled },
        Some(StateModel::List { scroll_offset, .. }) => StateModel::List {
            selected_index: index,
            scroll_offset,
        },
        _ => StateModel::List { selected_index: index, scroll_offset: 0 },
    }
}

/// The nodes of a tree with those named by `keys` checked or unchecked.
pub open spec fn nodes_checked(nodes: Seq<TreeNode>, keys: Seq<String>, checked: bool) -> Seq<
    TreeNode,
> {
    nodes.map_values(
        |n: TreeNode|
            if lists_text(keys, n.key@) {
                TreeNode { checked, ..n }
            } else {
                n
            },
    )
}

impl PanelModel {
    /// The kind of the first widget with the key `key`.
    pub open spec fn kind_of(self, key: Seq<char>) -> Option<KindModel> {
        match first_index(self.widgets, has_key(key)) {
            Some(i) => Some(self.widgets[i].kind),
            None => None,
        }
    }

    /// The state of the widget with the key `key`.
    pub open spec fn state_of(self, key: Seq<char>) -> Option<StateModel> {
        if self.states.contains_key(key) {
            Some(self.states[key])
        } else {
            None
        }
    }

    /// This panel with another kind for the first widget with the key `key`.
    pub open spec fn with_kind(self, key: Seq<char>, kind: KindModel) -> PanelModel {
        match first_index(self.widgets, has_key(key)) {
            Some(i) => PanelModel {
                widgets: self.widgets.update(i, WidgetModel { key: self.widgets[i].key, kind }),
                ..self
            },
            None => self,
        }
    }

    /// This panel with another state for the widget with the key `key`.
    pub open spec fn with_state(self, key: Seq<char>, state: StateModel) -> PanelModel {
        PanelModel { states: self.states.insert(key, state), ..self }
    }

    /// This panel after one targeted change.
    pub open spec fn mutated(self, mutation: WidgetMutation) -> PanelModel {
        match mutation {
            WidgetMutation::SetValue { widget_key, value, cursor_byte } => self.with_state(
                widget_key@,
                text_state(self.state_of(widget_key@), value, cursor_byte),
            ),
            WidgetMutation::SetChecked { widget_key, checked } => match self.kind_of(widget_key@) {
                Some(KindModel::Toggle { .. }) => self.with_kind(
                    widget_key@,
                    KindModel::Toggle { checked },
                ),
                _ => self,
            },
            WidgetMutation::SetSelectedIndex { widget_key, index } => self.with_state(
                widget_key@,
                selected_state(self.state_of(widget_key@), index),
            ),
            WidgetMutation::SetNumber { widget_key, value } => self.with_state(
                widget_key@,
                StateModel::Number {
                    value: match self.kind_of(widget_key@) {
                        Some(KindModel::Number { min, max }) => clamp_number(value, min, max),
                        _ => value,
                    },
                },
            ),
            WidgetMutation::SetDropdown { widget_key, index } => self.with_state(
                widget_key@,
                StateModel::Dropdown {
                    selected_index: clamp_index(
                        index,
                        match self.kind_of(widget_key@) {
                            Some(KindModel::Dropdown { options }) => options.len(),
                            _ => 0,
                        },
                    ) as i32,
                    open: self.state_of(widget_key@) matches Some(
                        StateModel::Dropdown { open, .. },
                    ) && open,
                },
            ),
            WidgetMutation::SetDualIncluded { widget_key, included } => {
                let kept = match self.kind_of(widget_key@) {
                    Some(KindModel::DualList { options }) => included@.filter(
                        |t: String| lists_text(options, t@),
                    ),
                    _ => included@,
                };
                self.with_state(
                    widget_key@,
                    match self.state_of(widget_key@) {
                        Some(
                            StateModel::DualList {
                                active_included,
                                available_cursor,
                                included_cursor,
                                ..
                            },
                        ) => StateModel::DualList {
                            included: kept,
                            active_included,
                            available_cursor,
                            included_cursor,
                        },
                        _ => StateModel::DualList {
                            included: kept,
                            active_included: false,
                            available_cursor: 0,
                            included_cursor: 0,
                        },
                    },
                )
            },
            WidgetMutation::SetCompletions { widget_key, items } => match self.state_of(
                widget_key@,
            ) {
                Some(StateModel::Text { editor, scroll, user_scrolled, .. }) => self.with_state(
                    widget_key@,
                    StateModel::Text {
                        editor,
                        scroll,
                        completions: items@,
                        completion_selected_index: 0,
                        completion_scroll_offset: 0,
                        completion_navigated: false,
                        user_scrolled,
                    },
                ),
                _ => self,
            },
            WidgetMutation::SetItems { widget_key, items, item_keys } => match self.kind_of(
                widget_key@,
            ) {
                Some(KindModel::List { .. }) => self.with_kind(
                    widget_key@,
                    KindModel::List { items: items@, item_keys: item_keys@ },
                ),
                _ => self,
            },
            WidgetMutation::SetExpandedKeys { widget_key, keys } => self.with_state(
                widget_key@,
                match self.state_of(widget_key@) {
                    Some(
                        StateModel::Tree { selected_index, scroll_offset, user_scrolled, .. },
                    ) => StateModel::Tree {
                        selected_index,
                        scroll_offset,
                        expanded_keys: keys@,
                        user_scrolled,
                    },
                    _ => StateModel::Tree {
                        selected_index: NO_SELECTION,
                        scroll_offset: 0,
                        expanded_keys: keys@,
                        user_scrolled: false,
                    },
                },
            ),
            WidgetMutation::SetCheckedKeys { widget_key, checked, keys } => match self.kind_of(
                widget_key@,
            ) {
                Some(KindModel::Tree { nodes, item_keys }) => self.with_kind(
                    widget_key@,
                    KindModel::Tree { nodes: nodes_checked(nodes, keys@, checked), item_keys },
                ),
                _ => self,
            },
            WidgetMutation::AppendTreeNodes { widget_key, new_nodes, new_item_keys } => match self
                .kind_of(widget_key@) {
                Some(KindModel::Tree { nodes, item_keys }) => self.with_kind(
                    widget_key@,
                    KindModel::Tree {
                        nodes: nodes + new_nodes@,
                        item_keys: item_keys + new_item_keys@,
                    },
                ),
                _ => self,
            },
            WidgetMutation::SetRawEntries { widget_key, entries } => match self.kind_of(
                widget_key@,
            ) {
                Some(KindModel::Raw { .. }) => self.with_kind(
                    widget_key@,
                    KindModel::Raw { entries: entries@ },
                ),
                _ => self,
            },
            WidgetMutation::SetFocusKey { widget_key } => PanelModel {
                focus_key: widget_key@,
                ..self
            },
        }
    }
}

/// Whether `texts` holds `text`.
fn holds_text(texts: &Vec<String>, text: &str) -> (found: bool)
    ensures
        found == lists_text(texts@, text@),
{
    let mut at: usize = 0;
    while at < texts.len()
        invariant
            at <= texts.len(),
            forall|i: int| 0 <= i < at ==> (#[trigger] texts@[i])@ != text@,
        decreases texts.len() - at,
    {
        if same_text(texts[at].as_str(), text) {
            proof {
                assert(texts@[at as int]@ == text@);
            }
            return true;
        }
        at = at + 1;
    }
    false
}

/// Checks or unchecks the nodes that `keys` names.
fn check_nodes(nodes: &mut Vec<TreeNode>, keys: &Vec<String>, checked: bool)
    ensures
        final(nodes)@ == nodes_checked(old(nodes)@, keys@, checked),
{
    let ghost before = nodes@;
    let ghost wanted = nodes_checked(before, keys@, checked);
    let mut at: usize = 0;
    while at < nodes.len()
        invariant
            at <= nodes.len(),
            nodes.len() == before.len(),
            wanted == nodes_checked(before, keys@, checked),
            forall|i: int| 0 <= i < at ==> #[trigger] nodes@[i] == wanted[i],
            forall|i: int| at <= i < nodes.len() ==> #[trigger] nodes@[i] == before[i],
        decreases nodes.len() - at,
    {
        if holds_text(keys, nodes[at].key.as_str()) {
            nodes[at].checked = checked;
        }
        at = at + 1;
    }
    proof {
        assert(nodes@ =~= wanted);
    }
}

impl Panel {
    /// The index of the first widget with the key `key`.
    fn find_widget(&self, key: &str) -> (at: Option<usize>)
        ensures
            match first_index(self@.widgets, has_key(key@)) {
                Some(i) => at matches Some(a) && a == i && a < self.widgets@.len(),
                None => at is None,
            },
    {
        let ghost models = self@.widgets;
        let mut at: usize = 0;
        while at < self.widgets.len()
            invariant
                at <= self.widgets.len(),
                models == self@.widgets,
                forall|i: int| 0 <= i < at ==> !(has_key(key@))(#[trigger] models[i]),
            decreases self.widgets.len() - at,
        {
            if same_text(self.widgets[at].key.as_str(), key) {
                proof {
                    assert(models[at as int].key == key@);
                    lemma_first_index_found(models, has_key(key@), at as int);
                }
                return Some(at);
            }
            at = at + 1;
        }
        proof {
            lemma_first_index_none(models, has_key(key@));
        }
        None
    }

    /// Gives the first widget with the key `key` another kind.
    fn set_kind(&mut self, at: usize, kind: WidgetKind)
        requires
            at < old(self).widgets@.len(),
        ensures
            final(self)@ == (PanelModel {
                widgets: old(self)@.widgets.update(
                    at as int,
                    WidgetModel { key: old(self)@.widgets[at as int].key, kind: kind@ },
                ),
                ..old(self)@
            }),
    {
        let ghost before = self@;
        self.widgets[at].kind = kind;
        proof {
            assert(self@.widgets =~= before.widgets.update(
                at as int,
                WidgetModel { key: before.widgets[at as int].key, kind: kind@ },
            ));
        }
    }

    /// Gives the widget with the key `key` another state.
    fn set_state(&mut self, key: String, state: WidgetInstanceState)
        ensures
            final(self)@ == old(self)@.with_state(key@, state@),
    {
        let ghost before = self@;
        self.states.insert(key, state);
        proof {
            assert(self@.states =~= before.states.insert(key@, state@));
        }
    }

    /// Takes the state of the widget with the key `key` out of the panel.
    fn take_state(&mut self, key: &str) -> (state: Option<WidgetInstanceState>)
        ensures
            match state {
                Some(s) => old(self)@.state_of(key@) == Some(s@),
                None => old(self)@.state_of(key@) is None,
            },
            final(self)@ == (PanelModel { states: old(self)@.states.remove(key@), ..old(self)@ }),
    {
        let ghost before = self@;
        let state = self.states.remove(key);
        proof {
            assert(self@.states =~= before.states.remove(key@));
        }
        state
    }

    /// Gives a text widget a new value.
    fn set_value(&mut self, widget_key: String, value: String, cursor_byte: Option<i32>)
        ensures
            final(self)@ == old(self)@.with_state(
                widget_key@,
                text_state(old(self)@.state_of(widget_key@), value, cursor_byte),
            ),
    {
        let ghost before = self@;
        let len: u64 = value.as_str().len() as u64;
        let cursor: u64 = match cursor_byte {
            Some(byte) => if byte < 0 || byte as u64 > len {
                len
            } else {
                byte as u64
            },
            None => len,
        };
        let state = match self.take_state(widget_key.as_str()) {
            Some(
                WidgetInstanceState::Text {
                    editor,
                    scroll,
                    completions,
                    completion_selected_index,
                    completion_scroll_offset,
                    completion_navigated,
                    user_scrolled: _,
                },
            ) => WidgetInstanceState::Text {
                editor: TextEdit { text: value, multiline: editor.multiline, cursor },
                scroll,
                completions,
                completion_selected_index,
                completion_scroll_offset,
                completion_navigated,
                user_scrolled: false,
            },
            _ => WidgetInstanceState::Text {
                editor: TextEdit { text: value, multiline: true, cursor },
                scroll: 0,
                completions: Vec::new(),
                completion_selected_index: 0,
                completion_scroll_offset: 0,
                completion_navigated: false,
                user_scrolled: false,
            },
        };
        proof {
            assert(state@ == text_state(before.state_of(widget_key@), value, cursor_byte));
            assert(before.states.remove(widget_key@).insert(widget_key@, state@)
                =~= before.states.insert(widget_key@, state@));
        }
        self.set_state(widget_key, state);
    }

    /// Moves the selection of a list or tree.
    fn set_selected_index(&mut self, widget_key: String, index: i32)
        ensures
            final(self)@ == old(self)@.with_state(
                widget_key@,
                selected_state(old(self)@.state_of(widget_key@), index),
            ),
    {
        let ghost before = self@;
        let state = match self.take_state(widget_key.as_str()) {
            Some(
                WidgetInstanceState::Tree {
                    scroll_offset,
                    expanded_keys,
                    user_scrolled,
                    selected_index: _,
                },
            ) => WidgetInstanceState::Tree {
                selected_index: index,
                scroll_offset,
                expanded_keys,
                user_scrolled,
            },
            Some(WidgetInstanceState::List { scroll_offset, selected_index: _ }) =>
                WidgetInstanceState::List { selected_index: index, scroll_offset },
            _ => WidgetInstanceState::List { selected_index: index, scroll_offset: 0 },
        };
        proof {
            assert(before.states.remove(widget_key@).insert(widget_key@, state@)
                =~= before.states.insert(widget_key@, state@));
        }
        self.set_state(widget_key, state);
    }

    /// Gives a number widget a value within its bounds.
    fn set_number(&mut self, widget_key: String, value: i64)
        ensures
            final(self)@ == old(self)@.mutated(WidgetMutation::SetNumber { widget_key, value }),
    {
        let mut value: i64 = value;
        if let Some(at) = self.find_widget(widget_key.as_str()) {
            if let WidgetKind::Number { min, max } = &self.widgets[at].kind {
                if let Some(min) = min {
                    if value < *min {
                        value = *min;
                    }
                }
                if let Some(max) = max {
                    if value > *max {
                        value = *max;
                    }
                }
            }
        }
        self.set_state(widget_key, WidgetInstanceState::Number { value });
    }

    /// Selects an option of a dropdown.
    fn set_dropdown(&mut self, widget_key: String, index: i32)
        ensures
            final(self)@ == old(self)@.mutated(WidgetMutation::SetDropdown { widget_key, index }),
    {
        let mut len: u64 = 0;
        if let Some(at) = self.find_widget(widget_key.as_str()) {
            if let WidgetKind::Dropdown { options } = &self.widgets[at].kind {
                len = options.len() as u64;
            }
        }
        let selected_index: i32 = if len == 0 || index < 0 {
            0
        } else if (index as u64) < len {
            index
        } else {
            (len - 1) as i32
        };
        let open = match self.states.get(widget_key.as_str()) {
            Some(WidgetInstanceState::Dropdown { open, selected_index: _ }) => *open,
            _ => false,
        };
        self.set_state(widget_key, WidgetInstanceState::Dropdown { selected_index, open });
    }

    /// Replaces what a dual list has on its right side, without values that
    /// are no options.
    fn set_dual_included(&mut self, widget_key: String, included: Vec<String>)
        ensures
            final(self)@ == old(self)@.mutated(
                WidgetMutation::SetDualIncluded { widget_key, included },
            ),
    {
        let ghost before = self@;
        let ghost given = included@;
        let mut included = included;
        if let Some(at) = self.find_widget(widget_key.as_str()) {
            if let WidgetKind::DualList { options } = &self.widgets[at].kind {
                let keep = |t: &String| -> (b: bool)
                    ensures
                        b == lists_text(options@, t@),
                {
                    holds_text(options, t.as_str())
                };
                crate::lists::retain_where(
                    &mut included,
                    keep,
                    Ghost(|t: String| lists_text(options@, t@)),
                );
            }
        }
        let state = match self.take_state(widget_key.as_str()) {
            Some(
                WidgetInstanceState::DualList {
                    active_included,
                    available_cursor,
                    included_cursor,
                    included: _,
                },
            ) => WidgetInstanceState::DualList {
                included,
                active_included,
                available_cursor,
                included_cursor,
            },
            _ => WidgetInstanceState::DualList {
                included,
                active_included: false,
                available_cursor: 0,
                included_cursor: 0,
            },
        };
        proof {
            assert(before.states.remove(widget_key@).insert(widget_key@, state@)
                =~= before.states.insert(widget_key@, state@));
        }
        self.set_state(widget_key, state);
    }

    /// Opens the completion popup of a text widget, or closes it.
    fn set_completions(&mut self, widget_key: String, items: Vec<String>)
        ensures
            final(self)@ == old(self)@.mutated(
                WidgetMutation::SetCompletions { widget_key, items },
            ),
    {
        let ghost before = self@;
        match self.take_state(widget_key.as_str()) {
            Some(state) => {
                let state = match state {
                    WidgetInstanceState::Text {
                        editor,
                        scroll,
                        user_scrolled,
                        completions: _,
                        completion_selected_index: _,
                        completion_scroll_offset: _,
                        completion_navigated: _,
                    } => WidgetInstanceState::Text {
                        editor,
                        scroll,
                        completions: items,
                        completion_selected_index: 0,
                        completion_scroll_offset: 0,
                        completion_navigated: false,
                        user_scrolled,
                    },
                    other => other,
                };
                proof {
                    assert(before.states.remove(widget_key@).insert(widget_key@, state@)
                        =~= before.states.insert(widget_key@, state@));
                    if !(before.state_of(widget_key@) matches Some(StateModel::Text { .. })) {
                        assert(before.states.insert(widget_key@, state@) =~= before.states);
                    }
                }
                self.set_state(widget_key, state);
            },
            None => {
                proof {
                    assert(before.states.remove(widget_key@) =~= before.states);
                }
            },
        }
    }

    /// Sets which nodes of a tree are open.
    fn set_expanded_keys(&mut self, widget_key: String, keys: Vec<String>)
        ensures
            final(self)@ == old(self)@.mutated(
                WidgetMutation::SetExpandedKeys { widget_key, keys },
            ),
    {
        let ghost before = self@;
        let state = match self.take_state(widget_key.as_str()) {
            Some(
                WidgetInstanceState::Tree {
                    selected_index,
                    scroll_offset,
                    user_scrolled,
                    expanded_keys: _,
                },
            ) => WidgetInstanceState::Tree {
                selected_index,
                scroll_offset,
                expanded_keys: keys,
                user_scrolled,
            },
            _ => WidgetInstanceState::Tree {
                selected_index: NO_SELECTION,
                scroll_offset: 0,
                expanded_keys: keys,
                user_scrolled: false,
            },
        };
        proof {
            assert(before.states.remove(widget_key@).insert(widget_key@, state@)
                =~= before.states.insert(widget_key@, state@));
        }
        self.set_state(widget_key, state);
    }

    /// Changes what the plugin specified of one widget.
    fn mutate_spec(&mut self, mutation: WidgetMutation)
        requires
            mutation is SetChecked || mutation is SetItems || mutation is SetCheckedKeys
                || mutation is AppendTreeNodes || mutation is SetRawEntries,
        ensures
            final(self)@ == old(self)@.mutated(mutation),
    {
        let ghost before = self@;
        match mutation {
            WidgetMutation::SetChecked { widget_key, checked } => {
                if let Some(at) = self.find_widget(widget_key.as_str()) {
                    let is_toggle = match &self.widgets[at].kind {
                        WidgetKind::Toggle { .. } => true,
                        _ => false,
                    };
                    if is_toggle {
                        self.set_kind(at, WidgetKind::Toggle { checked });
                    }
                }
            },
            WidgetMutation::SetItems { widget_key, items, item_keys } => {
                if let Some(at) = self.find_widget(widget_key.as_str()) {
                    let is_list = match &self.widgets[at].kind {
                        WidgetKind::List { .. } => true,
                        _ => false,
                    };
                    if is_list {
                        self.set_kind(at, WidgetKind::List { items, item_keys });
                    }
                }
            },
            WidgetMutation::SetRawEntries { widget_key, entries } => {
                if let Some(at) = self.find_widget(widget_key.as_str()) {
                    let is_raw = match &self.widgets[at].kind {
                        WidgetKind::Raw { .. } => true,
                        _ => false,
                    };
                    if is_raw {
                        self.set_kind(at, WidgetKind::Raw { entries });
                    }
                }
            },
            WidgetMutation::SetCheckedKeys { widget_key, checked, keys } => {
                if let Some(at) = self.find_widget(widget_key.as_str()) {
                    if let WidgetKind::Tree { nodes, .. } = &mut self.widgets[at].kind {
                        check_nodes(nodes, &keys, checked);
                    }
                    proof {
                        assert(self@.widgets =~= before.mutated(mutation).widgets);
                    }
                }
            },
            WidgetMutation::AppendTreeNodes { widget_key, new_nodes, new_item_keys } => {
                let mut new_nodes = new_nodes;
                let mut new_item_keys = new_item_keys;
                if let Some(at) = self.find_widget(widget_key.as_str()) {
                    if let WidgetKind::Tree { nodes, item_keys } = &mut self.widgets[at].kind {
                        nodes.append(&mut new_nodes);
                        item_keys.append(&mut new_item_keys);
                    }
                    proof {
                        assert(self@.widgets =~= before.mutated(mutation).widgets);
                    }
                }
            },
            _ => {},
        }
    }

    /// Applies one targeted change. The plugin sends only the change, not the
    /// whole panel.
    pub fn mutate(&mut self, mutation: WidgetMutation)
        ensures
            final(self)@ == old(self)@.mutated(mutation),
    {
        match mutation {
            WidgetMutation::SetValue { widget_key, value, cursor_byte } => {
                self.set_value(widget_key, value, cursor_byte);
            },
            WidgetMutation::SetSelectedIndex { widget_key, index } => {
                self.set_selected_index(widget_key, index);
            },
            WidgetMutation::SetNumber { widget_key, value } => {
                self.set_number(widget_key, value);
            },
            WidgetMutation::SetDropdown { widget_key, index } => {
                self.set_dropdown(widget_key, index);
            },
            WidgetMutation::SetDualIncluded { widget_key, included } => {
                self.set_dual_included(widget_key, included);
            },
            WidgetMutation::SetCompletions { widget_key, items } => {
                self.set_completions(widget_key, items);
            },
            WidgetMutation::SetExpandedKeys { widget_key, keys } => {
                self.set_expanded_keys(widget_key, keys);
            },
            WidgetMutation::SetFocusKey { widget_key } => {
                self.focus_key = widget_key;
            },
            other => {
                self.mutate_spec(other);
            },
        }
    }
}

} // verus!
