//! Moving a buffer from one window to another.
use vstd::prelude::*;

use crate::documents::BufferMetadata;
use crate::documents::BufferState;
use crate::documents::EventLog;
use crate::documents::LayoutModel;
use crate::documents::SplitLayout;
use crate::editor::Editor;
use crate::editor::EditorModel;
use crate::ids::BufferId;
use crate::ids::WindowId;
use crate::lists::sorted_keys;
use crate::window::Documents;
use crate::window::DocumentsModel;
use crate::window::WindowModel;

verus! {

/// The map with the value of `key`, where there is one.
pub open spec fn with_optional<V>(map: Map<u64, V>, key: u64, value: Option<V>) -> Map<u64, V> {
    match value {
        Some(value) => map.insert(key, value),
        None => map,
    }
}

/// The value of `key`, where there is one.
pub open spec fn value_of<V>(map: Map<u64, V>, key: u64) -> Option<V> {
    if map.contains_key(key) {
        Some(map[key])
    } else {
        None
    }
}

impl DocumentsModel {
    /// These documents without any trace of `buffer` but the pane that may
    /// still show it.
    pub open spec fn without_buffer(self, buffer: BufferId) -> DocumentsModel {
        DocumentsModel {
            buffers: self.buffers.remove(buffer.0),
            metadata: self.metadata.remove(buffer.0),
            event_logs: self.event_logs.remove(buffer.0),
            layout: match self.layout {
                Some(layout) => Some(layout.without_buffer(buffer)),
                None => None,
            },
            ..self
        }
    }

    /// These documents with a buffer that comes from another window: as a new
    /// tab of the active split, or as all there is where nothing is laid out.
    pub open spec fn with_buffer(
        self,
        buffer: BufferId,
        state: BufferState,
        metadata: Option<BufferMetadata>,
        log: Option<EventLog>,
        width: u16,
        height: u16,
    ) -> DocumentsModel {
        DocumentsModel {
            buffers: self.buffers.insert(buffer.0, state),
            metadata: with_optional(self.metadata, buffer.0, metadata),
            event_logs: with_optional(self.event_logs, buffer.0, log),
            layout: match self.layout {
                Some(layout) => Some(layout.with_tab(buffer)),
                None => Some(LayoutModel::single(width, height, buffer)),
            },
            ..self
        }
    }
}

impl EditorModel {
    /// Whether `buffer` can move from `source` to `target`.
    pub open spec fn can_rehome(self, buffer: BufferId, source: WindowId, target: WindowId) -> bool {
        source != target && self.has(target) && self.has(source)
            && self.window(source).documents.buffers.contains_key(buffer.0)
    }

    /// This editor with `buffer` in the window `target` instead of `source`.
    pub open spec fn rehomed(self, buffer: BufferId, source: WindowId, target: WindowId) -> EditorModel {
        if self.can_rehome(buffer, source, target) {
            let from = self.window(source);
            let to = self.window(target);
            self.with_window(
                source,
                from.with_documents(from.documents.without_buffer(buffer)),
            ).with_window(
                target,
                to.with_documents(
                    to.documents.with_buffer(
                        buffer,
                        from.documents.buffers[buffer.0],
                        value_of(from.documents.metadata, buffer.0),
                        value_of(from.documents.event_logs, buffer.0),
                        self.config.terminal_width,
                        self.config.terminal_height,
                    ),
                ),
            )
        } else {
            self
        }
    }
}

impl Documents {
    /// Takes `buffer` out of these documents.
    fn release_buffer(&mut self, buffer: BufferId) -> (released: Option<
        (BufferState, Option<BufferMetadata>, Option<EventLog>),
    >)
        ensures
            match released {
                Some((state, metadata, log)) => {
                    &&& old(self)@.buffers.contains_key(buffer.0)
                    &&& state == old(self)@.buffers[buffer.0]
                    &&& metadata == value_of(old(self)@.metadata, buffer.0)
                    &&& log == value_of(old(self)@.event_logs, buffer.0)
                    &&& final(self)@ == old(self)@.without_buffer(buffer)
                },
                None => !old(self)@.buffers.contains_key(buffer.0) && final(self)@ == old(self)@,
            },
    {
        let ghost before = self@;
        let state = match self.buffers.remove(&buffer.0) {
            Some(state) => state,
            None => {
                proof {
                    assert(self@.buffers =~= before.buffers);
                }
                return None;
            },
        };
        let metadata = self.metadata.remove(&buffer.0);
        let log = self.event_logs.remove(&buffer.0);
        match self.layout.take() {
            Some(mut layout) => {
                layout.remove_buffer(buffer);
                self.layout = Some(layout);
            },
            None => {},
        }
        Some((state, metadata, log))
    }

    /// Takes a buffer of another window in.
    fn adopt_buffer(
        &mut self,
        buffer: BufferId,
        state: BufferState,
        metadata: Option<BufferMetadata>,
        log: Option<EventLog>,
        width: u16,
        height: u16,
    )
        ensures
            final(self)@ == old(self)@.with_buffer(buffer, state, metadata, log, width, height),
    {
        self.buffers.insert(buffer.0, state);
        if let Some(metadata) = metadata {
            self.metadata.insert(buffer.0, metadata);
        }
        if let Some(log) = log {
            self.event_logs.insert(buffer.0, log);
        }
        match self.layout.take() {
            Some(mut layout) => {
                layout.add_buffer(buffer);
                self.layout = Some(layout);
            },
            None => {
                self.layout = Some(SplitLayout::single(width, height, buffer));
            },
        }
    }
}

impl Editor {
    /// Moves `buffer` from the active window to `target`.
    pub fn move_buffer_membership_to_window(&mut self, buffer: BufferId, target: WindowId)
        ensures
            final(self)@ == old(self)@.rehomed(buffer, old(self)@.active_window, target),
    {
        let source = self.active_window;
        self.move_buffer_membership_between_windows(buffer, source, target);
    }

    /// Moves `buffer` from the window `source` to the window `target`.
    pub fn move_buffer_membership_between_windows(
        &mut self,
        buffer: BufferId,
        source: WindowId,
        target: WindowId,
    )
        ensures
            final(self)@ == old(self)@.rehomed(buffer, source, target),
    {
        if source == target || !self.has_window(target) {
            return ;
        }
        let ghost before = self@;
        let width = self.config.terminal_width;
        let height = self.config.terminal_height;
        if let Some(mut from) = self.take_window(source) {
            let released = from.documents.release_buffer(buffer);
            let ghost left = from@;
            self.put_window(source, from);
            proof {
                assert(before.without_window(source).with_window(source, left).windows
                    =~= before.with_window(source, left).windows);
                if released is None {
                    assert(before.with_window(source, left).windows =~= before.windows);
                }
            }
            if let Some((state, metadata, log)) = released {
                let ghost half = self@;
                if let Some(mut to) = self.take_window(target) {
                    to.documents.adopt_buffer(buffer, state, metadata, log, width, height);
                    let ghost gained = to@;
                    self.put_window(target, to);
                    proof {
                        assert(half.without_window(target).with_window(target, gained).windows
                            =~= half.with_window(target, gained).windows);
                    }
                }
            }
        }
    }

    /// Takes a buffer out of whichever window holds it: the first one, where
    /// several did.
    pub fn detach_buffer_from_all_windows(&mut self, buffer: BufferId) -> (state: Option<BufferState>)
        ensures
            match state {
                Some(state) => exists|k: u64|
                    {
                        &&& #[trigger] old(self)@.windows.contains_key(k)
                        &&& old(self)@.windows[k].documents.buffers.contains_key(buffer.0)
                        &&& forall|j: u64| #[trigger]
                            old(self)@.windows.contains_key(j)
                                && old(self)@.windows[j].documents.buffers.contains_key(buffer.0)
                                ==> k <= j
                        &&& state == old(self)@.windows[k].documents.buffers[buffer.0]
                        &&& final(self)@ == old(self)@.with_window(
                            WindowId(k),
                            old(self)@.windows[k].with_documents(
                                DocumentsModel {
                                    buffers: old(self)@.windows[k].documents.buffers.remove(
                                        buffer.0,
                                    ),
                                    ..old(self)@.windows[k].documents
                                },
                            ),
                        )
                    },
                None => final(self)@ == old(self)@ && forall|k: u64| #[trigger]
                    old(self)@.windows.contains_key(k)
                        ==> !old(self)@.windows[k].documents.buffers.contains_key(buffer.0),
            },
    {
        let ghost before = self@;
        let keys = sorted_keys(&self.windows);
        let mut at: usize = 0;
        while at < keys.len()
            invariant
                at <= keys.len(),
                self@ == before,
                before == old(self)@,
                crate::lists::is_sorted_domain(keys@, self.windows@),
                forall|i: int|
                    0 <= i < at ==> !before.windows[#[trigger] keys@[i]].documents.buffers.contains_key(
                        buffer.0,
                    ),
            decreases keys.len() - at,
        {
            let id = WindowId(keys[at]);
            proof {
                assert(keys@.contains(keys@[at as int]));
            }
            let holds = match self.windows.get(&id.0) {
                Some(window) => window.documents.buffers.contains_key(&buffer.0),
                None => false,
            };
            if holds {
                if let Some(mut window) = self.take_window(id) {
                    let state = window.documents.buffers.remove(&buffer.0);
                    let ghost made = window@;
                    self.put_window(id, window);
                    proof {
                        assert(before.without_window(id).with_window(id, made).windows
                            =~= before.with_window(id, made).windows);
                        assert(before.windows.contains_key(id.0));
                        assert forall|j: u64| #[trigger]
                            before.windows.contains_key(j)
                                && before.windows[j].documents.buffers.contains_key(
                                buffer.0,
                            ) implies id.0 <= j by {
                            assert(keys@.contains(j));
                            let i = keys@.index_of(j);
                            assert(keys@[i] == j);
                        }
                    }
                    return state;
                }
            }
            at = at + 1;
        }
        proof {
            assert forall|k: u64| #[trigger]
                before.windows.contains_key(
                    k,
                ) implies !before.windows[k].documents.buffers.contains_key(buffer.0) by {
                assert(keys@.contains(k));
                let i = keys@.index_of(k);
                assert(keys@[i] == k);
            }
        }
        None
    }

    /// Drops the scratch buffer that a new window was born with, so that a
    /// moved tab becomes all there is in it. Anything that is not exactly that
    /// one unnamed, unmodified buffer is left alone.
    pub fn discard_fresh_window_seed(&mut self, target: WindowId)
        ensures
            final(self)@ == if old(self)@.has(target) && old(self)@.window(target).is_untouched() {
                let window = old(self)@.window(target);
                old(self)@.with_window(
                    target,
                    window.with_documents(
                        DocumentsModel {
                            buffers: Map::empty(),
                            metadata: window.documents.metadata.remove(window.only_buffer()),
                            event_logs: window.documents.event_logs.remove(window.only_buffer()),
                            layout: None,
                            ..window.documents
                        },
                    ),
                )
            } else {
                old(self)@
            },
    {
        let ghost before = self@;
        let only = match self.windows.get(&target.0) {
            Some(window) => {
                let keys = sorted_keys(&window.documents.buffers);
                proof {
                    crate::lists::lemma_sorted_members(
                        keys@,
                        |k: u64| window@.documents.buffers.contains_key(k),
                    );
                }
                if keys.len() != 1 {
                    return ;
                }
                let key = keys[0];
                proof {
                    assert(keys@.contains(key));
                }
                match window.documents.buffers.get(&key) {
                    Some(state) => if state.content.path.is_some() || state.content.modified {
                        return ;
                    },
                    None => {
                        return ;
                    },
                }
                proof {
                    assert(window@.documents.buffers.remove(key) =~= Map::empty()) by {
                        assert forall|k: u64| window@.documents.buffers.contains_key(
                            k,
                        ) implies k == key by {
                            assert(keys@.contains(k));
                            let i = keys@.index_of(k);
                            assert(keys@[i] == k);
                        }
                    }
                }
                key
            },
            None => {
                return ;
            },
        };
        if let Some(mut window) = self.take_window(target) {
            window.documents.buffers.remove(&only);
            window.documents.metadata.remove(&only);
            window.documents.event_logs.remove(&only);
            window.documents.layout = None;
            let ghost made = window@;
            self.put_window(target, window);
            proof {
                assert(before.without_window(target).with_window(target, made).windows
                    =~= before.with_window(target, made).windows);
            }
        }
    }
}

impl WindowModel {
    /// The buffers of the window in the order of their numbers.
    pub open spec fn buffer_order(self) -> Seq<u64> {
        crate::lists::sorted_members(|k: u64| self.documents.buffers.contains_key(k))
    }

    /// The only buffer, where there is one.
    pub open spec fn only_buffer(self) -> u64 {
        self.buffer_order()[0]
    }

    /// Whether the window holds exactly one buffer, without a file and without
    /// changes.
    pub open spec fn is_untouched(self) -> bool {
        &&& self.buffer_order().len() == 1
        &&& self.documents.buffers[self.only_buffer()].content.path is None
        &&& !self.documents.buffers[self.only_buffer()].content.modified
    }
}

} // verus!
