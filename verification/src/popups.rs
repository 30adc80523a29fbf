//! Popups with actions that plugins show.
use vstd::prelude::*;

use crate::command::ActionPopupAction;
use crate::documents::BufferState;
use crate::documents::Popup;
use crate::documents::PopupFrame;
use crate::documents::PopupItem;
use crate::documents::PopupPosition;
use crate::documents::PopupResolver;
use crate::editor::Editor;
use crate::editor::EditorModel;
use crate::ids::BufferId;
use crate::ids::WindowId;
use crate::lists::first_index;
use crate::lists::first_match;
use crate::lists::is_sorted_domain;
use crate::lists::lemma_first_index_found;
use crate::lists::lemma_first_index_none;
use crate::lists::lemma_first_match_found;
use crate::lists::lemma_first_match_none;
use crate::lists::lemma_sorted_members;
use crate::lists::sorted_keys;
use crate::text::same_text;
use crate::window::DocumentsModel;
use crate::window_snapshot::key_order;

verus! {

/// Where the popups of plugins are shown.
pub open spec fn action_frame() -> PopupFrame {
    PopupFrame {
        position: PopupPosition::BottomRight,
        width: 60,
        max_height: 15,
        bordered: true,
    }
}

/// Whether `popup` offers `actions` under the id `id`, one row for each.
pub open spec fn is_action_popup(
    popup: Popup,
    id: Seq<char>,
    title: String,
    message: String,
    actions: Seq<ActionPopupAction>,
) -> bool {
    &&& popup.title == title
    &&& popup.description == message
    &&& popup.selected == 0
    &&& !popup.transient
    &&& popup.frame == action_frame()
    &&& popup.resolver matches PopupResolver::PluginAction { popup_id } && popup_id@ == id
    &&& popup.items@.len() == actions.len()
    &&& forall|i: int|
        #![trigger popup.items@[i]]
        0 <= i < actions.len() ==> popup.items@[i].text == actions[i].label
            && popup.items@[i].data == actions[i].id
}

/// Whether a popup was shown under the id `id`.
pub open spec fn has_popup_id(id: Seq<char>) -> spec_fn(Popup) -> bool {
    |p: Popup| p.resolver matches PopupResolver::PluginAction { popup_id } && popup_id@ == id
}

/// A stack of popups with `popup` in the place of the one with the same id, or
/// else on top.
pub open spec fn stack_with(stack: Seq<Popup>, popup: Popup, id: Seq<char>) -> Seq<Popup> {
    match first_index(stack, has_popup_id(id)) {
        Some(at) => stack.update(at, popup),
        None => stack.push(popup),
    }
}

/// A stack without the lists of language servers on its top.
pub open spec fn without_server_lists(stack: Seq<Popup>) -> Seq<Popup>
    decreases stack.len(),
{
    if stack.len() > 0 && stack.last().resolver is LspStatus {
        without_server_lists(stack.drop_last())
    } else {
        stack
    }
}

/// Whether `after` is the buffer `before` with `popups`.
pub open spec fn has_popups(before: BufferState, after: BufferState, popups: Seq<Popup>) -> bool {
    after.content == before.content && after.flags == before.flags && after.popups@ == popups
}

/// Whether a window has `buffer` open.
pub open spec fn holds_buffer(editor: EditorModel, buffer: BufferId) -> spec_fn(u64) -> bool {
    |id: u64| editor.windows[id].documents.buffers.contains_key(buffer.0)
}

impl EditorModel {
    /// The window that has `buffer` open.
    pub open spec fn home_of(self, buffer: BufferId) -> Option<u64> {
        first_match(key_order(self.windows), holds_buffer(self, buffer))
    }

    /// This editor with another state of a buffer.
    pub open spec fn with_buffer(self, id: WindowId, buffer: BufferId, state: BufferState) -> EditorModel {
        let window = self.window(id);
        self.with_window(
            id,
            window.with_documents(
                DocumentsModel {
                    buffers: window.documents.buffers.insert(buffer.0, state),
                    ..window.documents
                },
            ),
        )
    }

    /// The active buffer, where it is there.
    pub open spec fn active_state(self) -> Option<BufferState> {
        if self.has_active() && self.active().documents.buffers.contains_key(
            self.active().documents.active_buffer.0,
        ) {
            Some(self.active().documents.buffers[self.active().documents.active_buffer.0])
        } else {
            None
        }
    }

    /// Whether `after` is this editor with a popup shown over one buffer of
    /// the window `home`.
    pub open spec fn is_showing_over(
        self,
        popup: Popup,
        id: Seq<char>,
        home: WindowId,
        buffer: BufferId,
        after: EditorModel,
    ) -> bool {
        let before = self.window(home).documents.buffers[buffer.0];
        exists|state: BufferState|
            {
                &&& has_popups(before, state, stack_with(before.popups@, popup, id))
                &&& after == #[trigger] self.with_buffer(home, buffer, state)
            }
    }

    /// Whether `after` is this editor with no list of language servers on top
    /// of the popups of the active buffer.
    pub open spec fn is_without_server_lists(self, after: EditorModel) -> bool {
        match self.active_state() {
            Some(before) => exists|state: BufferState|
                {
                    &&& has_popups(before, state, without_server_lists(before.popups@))
                    &&& after == #[trigger] self.with_buffer(
                        self.active_window,
                        self.active().documents.active_buffer,
                        state,
                    )
                },
            None => after == self,
        }
    }

    /// Whether `after` is this editor with a popup shown: over one buffer that
    /// is open, or over all.
    pub open spec fn is_showing(
        self,
        popup: Popup,
        id: Seq<char>,
        buffer: Option<BufferId>,
        after: EditorModel,
    ) -> bool {
        if buffer is Some && self.home_of(buffer->0) is Some {
            self.is_showing_over(
                popup,
                id,
                WindowId(self.home_of(buffer->0)->0),
                buffer->0,
                after,
            )
        } else {
            (EditorModel {
                global_popups: stack_with(self.global_popups, popup, id),
                ..self
            }).is_without_server_lists(after)
        }
    }
}

impl EditorModel {
    /// Whether `after` is this editor with a popup shown that offers `actions`.
    pub open spec fn is_offering(
        self,
        id: Seq<char>,
        title: String,
        message: String,
        actions: Seq<ActionPopupAction>,
        buffer: Option<BufferId>,
        after: EditorModel,
    ) -> bool {
        exists|popup: Popup|
            {
                &&& is_action_popup(popup, id, title, message, actions)
                &&& #[trigger] self.is_showing(popup, id, buffer, after)
            }
    }
}

/// Puts `popup` in the place of the one with the same id, or else on top.
fn show_on(stack: &mut Vec<Popup>, popup: Popup, id: &str)
    ensures
        final(stack)@ == stack_with(old(stack)@, popup, id@),
{
    let ghost before = stack@;
    let ghost wanted = has_popup_id(id@);
    let mut at: usize = 0;
    while at < stack.len()
        invariant
            at <= stack.len(),
            stack@ == before,
            before == old(stack)@,
            wanted == has_popup_id(id@),
            forall|i: int| 0 <= i < at ==> !wanted(#[trigger] before[i]),
        decreases stack.len() - at,
    {
        let same = match &stack[at].resolver {
            PopupResolver::PluginAction { popup_id } => same_text(popup_id.as_str(), id),
            _ => false,
        };
        if same {
            proof {
                lemma_first_index_found(before, wanted, at as int);
            }
            stack[at] = popup;
            proof {
                assert(stack@ =~= before.update(at as int, popup));
            }
            return ;
        }
        at = at + 1;
    }
    proof {
        lemma_first_index_none(before, wanted);
    }
    stack.push(popup);
}

/// Whether a list of language servers is on the top of a stack.
fn top_is_server_list(stack: &Vec<Popup>) -> (is_list: bool)
    ensures
        is_list == (stack@.len() > 0 && stack@.last().resolver is LspStatus),
{
    if stack.len() == 0 {
        return false;
    }
    match &stack[stack.len() - 1].resolver {
        PopupResolver::LspStatus => true,
        _ => false,
    }
}

/// Takes the lists of language servers off the top of a stack.
fn hide_server_lists(stack: &mut Vec<Popup>)
    ensures
        final(stack)@ == without_server_lists(old(stack)@),
{
    let ghost before = stack@;
    while top_is_server_list(stack)
        invariant
            without_server_lists(before) == without_server_lists(stack@),
        decreases stack.len(),
    {
        let ghost shown = stack@;
        stack.pop();
        proof {
            assert(stack@ =~= shown.drop_last());
        }
    }
}

/// The rows of a popup, one for each action.
fn popup_items(actions: &Vec<ActionPopupAction>) -> (items: Vec<PopupItem>)
    ensures
        items@.len() == actions@.len(),
        forall|i: int|
            #![trigger items@[i]]
            0 <= i < actions@.len() ==> items@[i].text == actions@[i].label && items@[i].data
                == actions@[i].id,
{
    let mut items: Vec<PopupItem> = Vec::new();
    let mut at: usize = 0;
    while at < actions.len()
        invariant
            at <= actions.len(),
            items@.len() == at,
            forall|i: int|
                #![trigger items@[i]]
                0 <= i < at ==> items@[i].text == actions@[i].label && items@[i].data
                    == actions@[i].id,
        decreases actions.len() - at,
    {
        items.push(PopupItem { text: actions[at].label.clone(), data: actions[at].id.clone() });
        at = at + 1;
    }
    items
}

impl Editor {
    /// The window that has `buffer` open.
    pub(crate) fn find_home(&self, buffer: BufferId) -> (home: Option<WindowId>)
        ensures
            match home {
                Some(id) => self@.home_of(buffer) == Some(id.0) && self@.has(id) && self@.window(
                    id,
                ).documents.buffers.contains_key(buffer.0),
                None => self@.home_of(buffer) is None,
            },
    {
        let ids = sorted_keys(&self.windows);
        let ghost wanted = holds_buffer(self@, buffer);
        proof {
            lemma_sorted_members(ids@, |k: u64| self@.windows.contains_key(k));
        }
        let mut at: usize = 0;
        while at < ids.len()
            invariant
                at <= ids.len(),
                ids@ == key_order(self@.windows),
                is_sorted_domain(ids@, self@.windows),
                wanted == holds_buffer(self@, buffer),
                forall|i: int| 0 <= i < at ==> !wanted(#[trigger] ids@[i]),
            decreases ids.len() - at,
        {
            let id = ids[at];
            proof {
                assert(ids@.contains(id));
            }
            if let Some(window) = self.windows.get(&id) {
                if window.documents.buffers.contains_key(&buffer.0) {
                    proof {
                        lemma_first_match_found(ids@, wanted, at as int);
                    }
                    return Some(WindowId(id));
                }
            }
            at = at + 1;
        }
        proof {
            lemma_first_match_none(ids@, wanted);
        }
        None
    }

    /// Puts a buffer's state in its place.
    fn put_buffer(&mut self, id: WindowId, buffer: BufferId, state: BufferState)
        requires
            old(self)@.has(id),
        ensures
            final(self)@ == old(self)@.with_buffer(id, buffer, state),
    {
        let ghost before = self@;
        if let Some(mut window) = self.take_window(id) {
            window.documents.buffers.insert(buffer.0, state);
            self.put_back(id, window, Ghost(before));
        }
    }

    /// Takes a buffer's state, to be put in its place again.
    fn take_buffer(&mut self, id: WindowId, buffer: BufferId) -> (state: Option<BufferState>)
        ensures
            match state {
                Some(s) => {
                    &&& old(self)@.has(id)
                    &&& old(self)@.window(id).documents.buffers.contains_key(buffer.0)
                    &&& s == old(self)@.window(id).documents.buffers[buffer.0]
                    &&& final(self)@.has(id)
                    &&& forall|t: BufferState| #[trigger]
                        final(self)@.with_buffer(id, buffer, t) == old(self)@.with_buffer(
                            id,
                            buffer,
                            t,
                        )
                },
                None => {
                    &&& !(old(self)@.has(id) && old(self)@.window(
                        id,
                    ).documents.buffers.contains_key(buffer.0))
                    &&& final(self)@ == old(self)@
                },
            },
    {
        let ghost before = self@;
        match self.take_window(id) {
            Some(mut window) => {
                let ghost buffers = window.documents.buffers@;
                let state = window.documents.buffers.remove(&buffer.0);
                self.put_back(id, window, Ghost(before));
                proof {
                    if state is None {
                        assert(buffers.remove(buffer.0) =~= buffers);
                        assert(before.with_window(id, before.window(id)).windows
                            =~= before.windows);
                    } else {
                        assert forall|t: BufferState| #[trigger]
                            self@.with_buffer(id, buffer, t) == before.with_buffer(
                                id,
                                buffer,
                                t,
                            ) by {
                            assert(buffers.remove(buffer.0).insert(buffer.0, t) =~= buffers.insert(
                                buffer.0,
                                t,
                            ));
                            assert(self@.with_buffer(id, buffer, t).windows
                                =~= before.with_buffer(id, buffer, t).windows);
                        }
                    }
                }
                state
            },
            None => None,
        }
    }

    /// Shows a popup with actions. One for a buffer that is open is shown over
    /// that buffer alone. Any other is shown over all, in the place of a list
    /// of language servers that the same click may have opened. A popup with
    /// the same id is replaced.
    pub fn handle_show_action_popup(
        &mut self,
        popup_id: String,
        title: String,
        message: String,
        actions: Vec<ActionPopupAction>,
        buffer: Option<BufferId>,
    )
        ensures
            old(self)@.is_offering(popup_id@, title, message, actions@, buffer, final(self)@),
    {
        let ghost before = self@;
        let popup = Popup {
            title,
            description: message,
            items: popup_items(&actions),
            selected: 0,
            transient: false,
            frame: PopupFrame {
                position: PopupPosition::BottomRight,
                width: 60,
                max_height: 15,
                bordered: true,
            },
            resolver: PopupResolver::PluginAction { popup_id: popup_id.clone() },
        };
        let ghost shown = popup;
        proof {
            assert(is_action_popup(shown, popup_id@, title, message, actions@));
        }
        if let Some(buffer_id) = buffer {
            if let Some(home) = self.find_home(buffer_id) {
                if let Some(mut state) = self.take_buffer(home, buffer_id) {
                    show_on(&mut state.popups, popup, popup_id.as_str());
                    let ghost made = state;
                    self.put_buffer(home, buffer_id, state);
                    proof {
                        assert(self@ == before.with_buffer(home, buffer_id, made));
                        assert(before.is_showing_over(shown, popup_id@, home, buffer_id, self@));
                        assert(before.is_showing(shown, popup_id@, buffer, self@));
                    }
                }
                return ;
            }
        }
        let id = self.active_window;
        let active = match self.windows.get(&id.0) {
            Some(window) => Some(window.documents.active_buffer),
            None => None,
        };
        if let Some(active) = active {
            if let Some(mut state) = self.take_buffer(id, active) {
                let ghost taken = self@;
                hide_server_lists(&mut state.popups);
                let ghost made = state;
                self.put_buffer(id, active, state);
                show_on(&mut self.global_popups, popup, popup_id.as_str());
                proof {
                    let whole = EditorModel {
                        global_popups: stack_with(before.global_popups, shown, popup_id@),
                        ..before
                    };
                    assert(taken.with_buffer(id, active, made) == before.with_buffer(
                        id,
                        active,
                        made,
                    ));
                    assert(before.with_buffer(id, active, made).global_popups
                        == before.global_popups);
                    assert(self@ == whole.with_buffer(id, active, made));
                    assert(whole.is_without_server_lists(self@));
                    assert(before.is_showing(shown, popup_id@, buffer, self@));
                }
                return ;
            }
        }
        show_on(&mut self.global_popups, popup, popup_id.as_str());
        proof {
            assert(before.is_showing(shown, popup_id@, buffer, self@));
        }
    }
}

} // verus!
