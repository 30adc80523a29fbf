//! Moving a tab into a window of its own, and taking that back.
use vstd::prelude::*;

use crate::artifacts::ArtifactRun;
use crate::artifacts::Relocation;
use crate::documents::LayoutModel;
use crate::documents::Pane;
use crate::documents::SplitLayout;
use crate::documents::TabTarget;
use crate::documents::ViewStateModel;
use crate::editor::effect_models;
use crate::editor::Editor;
use crate::editor::EditorModel;
use crate::effects::Effect;
use crate::effects::EffectModel;
use crate::ids::BufferId;
use crate::ids::LeafId;
use crate::ids::TerminalId;
use crate::ids::WindowId;
use crate::ids::WindowTerminalId;
use crate::lists::first_match;
use crate::lists::is_sorted_domain;
use crate::lists::lemma_first_match_found;
use crate::lists::lemma_first_match_none;
use crate::lists::sorted_keys;
use crate::notice::LocalizedMessage;
use crate::notice::Notice;
use crate::transfer::can_transfer;
use crate::transfer::is_transferred;
use crate::window::layout_model;
use crate::window::Documents;
use crate::window::DocumentsModel;
use crate::window::Window;
use crate::window::WindowModel;
use crate::windows::co_tenant_label;
use crate::windows::count_at_root;
use crate::windows::window_order;
use crate::windows::WindowSeed;

verus! {

/// How the extraction of a tab goes on.
#[derive(Debug)]
pub enum ExtractionStart {
    /// There is no window to take the tab from.
    Nothing,
    /// The tab stays, and the user was told why.
    Refused,
    /// The tab is a live terminal.
    Terminal { source: WindowId, terminal: TerminalId },
    /// The tab is a file.
    File { source: WindowId, path: String },
}

/// Whether everything a window does happens on this machine.
pub open spec fn is_local(window: WindowModel) -> bool {
    !(window.authority_spec is RemoteAgent) && window.authority.remote is None
}

/// Why a tab stays where it is, if it does: the session is remote, its
/// terminal runs the update of the editor, may drive the editor or has a
/// companion, the terminal is not running, or the buffer has no file.
pub open spec fn refusal(editor: EditorModel, buffer: BufferId) -> Option<Notice> {
    let window = editor.active();
    let terminal = window.terminals.terminal_of(buffer);
    if !is_local(window) {
        Some(Notice::ExtractNotLocal)
    } else {
        match terminal {
            Some(terminal) => if editor.self_update_terminal == Some(
                WindowTerminalId { window: editor.active_window, terminal },
            ) {
                Some(Notice::Localized(LocalizedMessage::UpdateRunning))
            } else if window.terminals.script_tokens.contains(terminal.0) {
                Some(Notice::Localized(LocalizedMessage::ExtractTerminalScriptCapable))
            } else if window.terminals.companions.contains_key(terminal.0) {
                Some(Notice::Localized(LocalizedMessage::ExtractTerminalCompanion))
            } else if !window.terminals.live.contains_key(terminal.0) {
                Some(Notice::Localized(LocalizedMessage::ExtractTerminalDormant))
            } else {
                None
            },
            None => if window.documents.buffers.contains_key(buffer.0)
                && window.documents.buffers[buffer.0].content.path is Some {
                None
            } else {
                Some(Notice::Localized(LocalizedMessage::ExtractNoFilePath))
            },
        }
    }
}

/// How the extraction of a tab goes on.
pub open spec fn start_of(editor: EditorModel, buffer: BufferId) -> ExtractionStart {
    let window = editor.active();
    if !editor.has_active() {
        ExtractionStart::Nothing
    } else if refusal(editor, buffer) is Some {
        ExtractionStart::Refused
    } else {
        match window.terminals.terminal_of(buffer) {
            Some(terminal) => ExtractionStart::Terminal { source: editor.active_window, terminal },
            None => ExtractionStart::File {
                source: editor.active_window,
                path: window.documents.buffers[buffer.0].content.path->0,
            },
        }
    }
}

/// The window that a tab is moved to, with what is needed to take the move
/// back: what the source window showed, and the buffers that it had.
#[derive(Debug)]
pub struct ExtractionPlan {
    pub source: WindowId,
    pub target: WindowId,
    pub buffer: BufferId,
    pub layout: Option<SplitLayout>,
    pub buffers: Vec<u64>,
}

/// Whether a tab stands for another buffer than `buffer`.
pub open spec fn other_buffer(tab: TabTarget, buffer: BufferId) -> Option<BufferId> {
    match tab {
        TabTarget::Buffer(id) => if id == buffer {
            None
        } else {
            Some(id)
        },
        TabTarget::Group(_) => None,
    }
}

/// The tabs of a split in the order in which they may take the place of the
/// one that leaves: the last focused one first, and then in the order of the
/// tab bar.
pub open spec fn candidates(state: ViewStateModel) -> Seq<TabTarget> {
    state.focus_history.reverse() + state.open_buffers
}

/// Whether a tab may take the place of `buffer`: it stands for a buffer that
/// is there and is not a hidden helper.
pub open spec fn may_replace(documents: DocumentsModel, buffer: BufferId) -> spec_fn(TabTarget) -> bool {
    |tab: TabTarget|
        other_buffer(tab, buffer) matches Some(id) && documents.buffers.contains_key(id.0) && !(
        documents.metadata.contains_key(id.0) && documents.metadata[id.0].hidden_from_tabs)
}

/// The buffer that takes the place of `buffer` in `leaf`.
pub open spec fn replacement(documents: DocumentsModel, leaf: LeafId, buffer: BufferId) -> Option<
    BufferId,
> {
    match documents.layout {
        Some(layout) => if layout.view_states.contains_key(leaf.0.0) {
            match first_match(
                candidates(layout.view_states[leaf.0.0]),
                may_replace(documents, buffer),
            ) {
                Some(tab) => other_buffer(tab, buffer),
                None => None,
            }
        } else {
            None
        },
        None => None,
    }
}

/// What is done about one leaf that shows `buffer`, where `leaves` leaves are
/// left: another buffer is shown, the leaf is closed, or the last leaf gets an
/// empty buffer.
pub open spec fn retarget_effect(
    documents: DocumentsModel,
    window: WindowId,
    leaf: LeafId,
    buffer: BufferId,
    leaves: int,
    auto_create: bool,
) -> Effect {
    match replacement(documents, leaf, buffer) {
        Some(other) => Effect::SetPaneBuffer { window, leaf, buffer: other },
        None => if leaves > 1 {
            Effect::CloseLeaf { window, leaf }
        } else {
            Effect::SeedLeaf { window, leaf, hidden: !auto_create }
        },
    }
}

/// What is done about all leaves among `panes` that show `buffer`, in order.
/// A leaf that is closed no longer counts.
pub open spec fn retarget_effects(
    documents: DocumentsModel,
    window: WindowId,
    panes: Seq<Pane>,
    buffer: BufferId,
    leaves: int,
    auto_create: bool,
) -> Seq<EffectModel>
    decreases panes.len(),
{
    if panes.len() == 0 {
        Seq::empty()
    } else if panes[0].buffer != buffer {
        retarget_effects(documents, window, panes.drop_first(), buffer, leaves, auto_create)
    } else {
        let effect = retarget_effect(
            documents,
            window,
            panes[0].leaf,
            buffer,
            leaves,
            auto_create,
        );
        seq![EffectModel::Plain(effect)] + retarget_effects(
            documents,
            window,
            panes.drop_first(),
            buffer,
            if effect is CloseLeaf {
                leaves - 1
            } else {
                leaves
            },
            auto_create,
        )
    }
}

impl DocumentsModel {
    /// These documents with only the buffers `ids` and, where there is one,
    /// the layout that they had.
    pub open spec fn restored(self, ids: Seq<u64>, layout: Option<LayoutModel>) -> DocumentsModel {
        let extra = |k: u64| self.buffers.contains_key(k) && !ids.contains(k);
        DocumentsModel {
            buffers: without_keys(self.buffers, extra),
            metadata: without_keys(self.metadata, extra),
            event_logs: without_keys(self.event_logs, extra),
            layout: match layout {
                Some(layout) => Some(layout),
                None => self.layout,
            },
            ..self
        }
    }
}

/// The map without the keys of which `dropped` holds.
pub open spec fn without_keys<V>(map: Map<u64, V>, dropped: spec_fn(u64) -> bool) -> Map<u64, V> {
    Map::new(|k: u64| map.contains_key(k) && !dropped(k), |k: u64| map[k])
}

impl EditorModel {
    /// This editor once every leaf of `source` that shows `buffer` was asked to show
    /// something else.
    pub open spec fn leaves_retargeted(self, source: WindowId, buffer: BufferId) -> EditorModel {
        match self.window(source).documents.layout {
            Some(layout) => if self.has(source) {
                self.asking_all(
                    retarget_effects(
                        self.window(source).documents,
                        source,
                        layout.panes,
                        buffer,
                        layout.panes.len() as int,
                        self.config.auto_create_empty_buffer,
                    ),
                )
            } else {
                self
            },
            None => self,
        }
    }

    /// This editor without a window that a tab could not be moved to.
    pub open spec fn extraction_discarded(self, target: WindowId) -> EditorModel {
        if self.has(target) {
            let viewed = self.asking(
                EffectModel::DiscardExtraction {
                    root: self.window(target).root,
                    stable_id: self.window(target).stable_id,
                },
            ).visiting(target);
            viewed.without_window(target).asking(
                EffectModel::WindowClosed { window: viewed.window(target) },
            )
        } else {
            self
        }
    }

    /// This editor with the tab back in its window, which shows again what it
    /// showed.
    pub open spec fn membership_restored(
        self,
        source: WindowId,
        target: WindowId,
        buffer: BufferId,
        ids: Seq<u64>,
        layout: Option<LayoutModel>,
    ) -> EditorModel {
        let back = self.rehomed(buffer, target, source);
        if back.has(source) {
            back.with_window(
                source,
                back.window(source).with_documents(
                    back.window(source).documents.restored(ids, layout),
                ),
            )
        } else {
            back
        }
    }
}

impl Window {
    /// The buffer that takes the place of `buffer` in `leaf`.
    fn find_replacement(&self, leaf: LeafId, buffer: BufferId) -> (found: Option<BufferId>)
        ensures
            found == replacement(self@.documents, leaf, buffer),
    {
        let layout = match &self.documents.layout {
            Some(layout) => layout,
            None => {
                return None;
            },
        };
        let state = match layout.view_states.get(&leaf.0.0) {
            Some(state) => state,
            None => {
                return None;
            },
        };
        let ghost wanted = may_replace(self@.documents, buffer);
        let ghost all = candidates(state@);
        let focused: usize = state.focus_history.len();
        let mut seen: usize = 0;
        while seen < focused
            invariant
                seen <= focused,
                focused == state.focus_history@.len(),
                wanted == may_replace(self@.documents, buffer),
                all == candidates(state@),
                self@.documents.layout is Some,
                self@.documents.layout->0.view_states.contains_key(leaf.0.0),
                self@.documents.layout->0.view_states[leaf.0.0] == state@,
                forall|i: int| 0 <= i < seen ==> !wanted(#[trigger] all[i]),
            decreases focused - seen,
        {
            let tab = state.focus_history[focused - 1 - seen];
            proof {
                assert(all[seen as int] == tab);
            }
            if let Some(id) = self.usable_tab(tab, buffer) {
                proof {
                    lemma_first_match_found(all, wanted, seen as int);
                }
                return Some(id);
            }
            seen = seen + 1;
        }
        let mut at: usize = 0;
        while at < state.open_buffers.len()
            invariant
                at <= state.open_buffers.len(),
                focused == state.focus_history@.len(),
                wanted == may_replace(self@.documents, buffer),
                all == candidates(state@),
                self@.documents.layout is Some,
                self@.documents.layout->0.view_states.contains_key(leaf.0.0),
                self@.documents.layout->0.view_states[leaf.0.0] == state@,
                forall|i: int| 0 <= i < focused + at ==> !wanted(#[trigger] all[i]),
            decreases state.open_buffers.len() - at,
        {
            let tab = state.open_buffers[at];
            proof {
                assert(all[focused + at] == tab);
            }
            if let Some(id) = self.usable_tab(tab, buffer) {
                proof {
                    lemma_first_match_found(all, wanted, focused + at);
                }
                return Some(id);
            }
            at = at + 1;
        }
        proof {
            lemma_first_match_none(all, wanted);
        }
        None
    }

    /// The buffer of a tab that may take the place of `buffer`.
    fn usable_tab(&self, tab: TabTarget, buffer: BufferId) -> (usable: Option<BufferId>)
        ensures
            usable == (if may_replace(self@.documents, buffer)(tab) {
                other_buffer(tab, buffer)
            } else {
                None
            }),
            may_replace(self@.documents, buffer)(tab) ==> usable is Some,
    {
        let id = match tab {
            TabTarget::Buffer(id) => id,
            TabTarget::Group(_) => {
                return None;
            },
        };
        if id == buffer || !self.documents.buffers.contains_key(&id.0) {
            return None;
        }
        let hidden = match self.documents.metadata.get(&id.0) {
            Some(metadata) => metadata.hidden_from_tabs,
            None => false,
        };
        if hidden {
            None
        } else {
            Some(id)
        }
    }

    /// What is done about all leaves that show `buffer`.
    fn plan_retarget(&self, window: WindowId, buffer: BufferId, auto_create: bool) -> (effects: Vec<
        Effect,
    >)
        ensures
            effect_models(effects@) == match self@.documents.layout {
                Some(layout) => retarget_effects(
                    self@.documents,
                    window,
                    layout.panes,
                    buffer,
                    layout.panes.len() as int,
                    auto_create,
                ),
                None => Seq::empty(),
            },
    {
        let mut effects: Vec<Effect> = Vec::new();
        proof {
            assert(effect_models(effects@) =~= Seq::<EffectModel>::empty());
        }
        let layout = match &self.documents.layout {
            Some(layout) => layout,
            None => {
                return effects;
            },
        };
        let ghost panes = layout.panes@;
        let ghost documents = self@.documents;
        let mut leaves: usize = layout.panes.len();
        let mut at: usize = 0;
        proof {
            assert(panes.skip(0) =~= panes);
        }
        while at < layout.panes.len()
            invariant
                at <= layout.panes.len(),
                panes == layout.panes@,
                documents == self@.documents,
                leaves + at >= panes.len(),
                retarget_effects(
                    documents,
                    window,
                    panes,
                    buffer,
                    panes.len() as int,
                    auto_create,
                ) == effect_models(effects@) + retarget_effects(
                    documents,
                    window,
                    panes.skip(at as int),
                    buffer,
                    leaves as int,
                    auto_create,
                ),
            decreases layout.panes.len() - at,
        {
            proof {
                assert(panes.skip(at as int)[0] == panes[at as int]);
                assert(panes.skip(at as int).drop_first() =~= panes.skip(at + 1));
            }
            let ghost asked = effects@;
            if layout.panes[at].buffer == buffer {
                let leaf = layout.panes[at].leaf;
                let ghost before = leaves;
                let effect = match self.find_replacement(leaf, buffer) {
                    Some(other) => Effect::SetPaneBuffer { window, leaf, buffer: other },
                    None => if leaves > 1 {
                        leaves = leaves - 1;
                        Effect::CloseLeaf { window, leaf }
                    } else {
                        Effect::SeedLeaf { window, leaf, hidden: !auto_create }
                    },
                };
                let ghost model = effect@;
                effects.push(effect);
                proof {
                    assert(effect_models(effects@) =~= effect_models(asked).push(model));
                    assert(retarget_effects(
                        documents,
                        window,
                        panes,
                        buffer,
                        panes.len() as int,
                        auto_create,
                    ) =~= effect_models(effects@) + retarget_effects(
                        documents,
                        window,
                        panes.skip(at + 1),
                        buffer,
                        leaves as int,
                        auto_create,
                    ));
                }
            }
            at = at + 1;
        }
        proof {
            assert(panes.skip(panes.len() as int) =~= Seq::<Pane>::empty());
            assert(retarget_effects(
                documents,
                window,
                panes,
                buffer,
                panes.len() as int,
                auto_create,
            ) =~= effect_models(effects@));
        }
        effects
    }
}

impl Documents {
    /// Drops all buffers but `ids`, and shows again what was shown.
    fn restore(&mut self, ids: &Vec<u64>, layout: Option<SplitLayout>)
        ensures
            final(self)@ == old(self)@.restored(ids@, layout_model(layout)),
    {
        let ghost before = self@;
        let ghost extra = |k: u64| before.buffers.contains_key(k) && !ids@.contains(k);
        let keys = sorted_keys(&self.buffers);
        let mut at: usize = 0;
        while at < keys.len()
            invariant
                at <= keys.len(),
                is_sorted_domain(keys@, before.buffers),
                self@ == (DocumentsModel {
                    buffers: self@.buffers,
                    metadata: self@.metadata,
                    event_logs: self@.event_logs,
                    ..before
                }),
                forall|k: u64|
                    #![trigger self@.buffers.contains_key(k)]
                    self@.buffers.contains_key(k) <==> before.buffers.contains_key(k) && !(
                    keys@.take(at as int).contains(k) && !ids@.contains(k)),
                forall|k: u64| #[trigger]
                    self@.buffers.contains_key(k) ==> self@.buffers[k] == before.buffers[k],
                forall|k: u64|
                    #![trigger self@.metadata.contains_key(k)]
                    self@.metadata.contains_key(k) <==> before.metadata.contains_key(k) && !(
                    keys@.take(at as int).contains(k) && !ids@.contains(k)),
                forall|k: u64| #[trigger]
                    self@.metadata.contains_key(k) ==> self@.metadata[k] == before.metadata[k],
                forall|k: u64|
                    #![trigger self@.event_logs.contains_key(k)]
                    self@.event_logs.contains_key(k) <==> before.event_logs.contains_key(k) && !(
                    keys@.take(at as int).contains(k) && !ids@.contains(k)),
                forall|k: u64| #[trigger]
                    self@.event_logs.contains_key(k) ==> self@.event_logs[k]
                        == before.event_logs[k],
            decreases keys.len() - at,
        {
            let key = keys[at];
            proof {
                let done = keys@.take(at as int);
                let next = keys@.take(at + 1);
                assert(next =~= done.push(key));
                assert forall|k: u64| next.contains(k) <==> k == key || done.contains(k) by {
                    if next.contains(k) {
                        let i = next.index_of(k);
                        if i < done.len() {
                            assert(done[i] == k);
                        }
                    }
                    if done.contains(k) {
                        let i = done.index_of(k);
                        assert(next[i] == k);
                    }
                    assert(next[done.len() as int] == key);
                }
            }
            if !crate::dormant::holds_number(ids, key) {
                self.buffers.remove(&key);
                self.metadata.remove(&key);
                self.event_logs.remove(&key);
            }
            at = at + 1;
        }
        proof {
            assert(keys@.take(keys@.len() as int) =~= keys@);
            let after = before.restored(ids@, layout_model(layout));
            assert forall|k: u64| #[trigger] keys@.contains(k)
                <==> before.buffers.contains_key(k) by {}
            assert(self@.buffers =~= after.buffers);
            assert(self@.metadata =~= after.metadata);
            assert(self@.event_logs =~= after.event_logs);
        }
        if let Some(layout) = layout {
            self.layout = Some(layout);
        }
    }
}

impl Editor {
    /// Begins to move the tab of `buffer` into a window of its own. Nothing is
    /// changed before it is known that the tab can be moved; where it cannot,
    /// the user is told why.
    pub fn extract_tab_to_new_workspace(&mut self, buffer: BufferId) -> (start: ExtractionStart)
        ensures
            start == start_of(old(self)@, buffer),
            final(self)@ == if old(self)@.has_active() && refusal(old(self)@, buffer) is Some {
                old(self)@.with_active(
                    old(self)@.active().with_status(refusal(old(self)@, buffer)),
                )
            } else {
                old(self)@
            },
    {
        let source = self.active_window;
        let ghost before = self@;
        let decided: Result<ExtractionStart, Notice> = match self.windows.get(&source.0) {
            None => {
                return ExtractionStart::Nothing;
            },
            Some(window) => if window.authority_spec.is_remote()
                || window.authority.remote.is_some() {
                Err(Notice::ExtractNotLocal)
            } else {
                match window.terminals.get_terminal_id(buffer) {
                    Some(terminal) => {
                        let updating = match self.self_update_terminal {
                            Some(running) => running == WindowTerminalId {
                                window: source,
                                terminal,
                            },
                            None => false,
                        };
                        if updating {
                            Err(Notice::Localized(LocalizedMessage::UpdateRunning))
                        } else if window.terminals.script_tokens.contains(&terminal.0) {
                            Err(Notice::Localized(LocalizedMessage::ExtractTerminalScriptCapable))
                        } else if window.terminals.companions.contains_key(&terminal.0) {
                            Err(Notice::Localized(LocalizedMessage::ExtractTerminalCompanion))
                        } else if !window.terminals.live.contains_key(&terminal.0) {
                            Err(Notice::Localized(LocalizedMessage::ExtractTerminalDormant))
                        } else {
                            Ok(ExtractionStart::Terminal { source, terminal })
                        }
                    },
                    None => match window.documents.buffers.get(&buffer.0) {
                        Some(state) => match &state.content.path {
                            Some(path) => Ok(ExtractionStart::File { source, path: path.clone() }),
                            None => Err(Notice::Localized(LocalizedMessage::ExtractNoFilePath)),
                        },
                        None => Err(Notice::Localized(LocalizedMessage::ExtractNoFilePath)),
                    },
                }
            },
        };
        match decided {
            Ok(start) => start,
            Err(notice) => {
                if let Some(mut window) = self.take_window(source) {
                    window.set_status_message(notice);
                    let ghost made = window@;
                    self.put_window(source, window);
                    proof {
                        assert(before.without_window(source).with_window(source, made).windows
                            =~= before.with_window(source, made).windows);
                    }
                }
                ExtractionStart::Refused
            },
        }
    }

    /// Opens an empty window at the root of `source`, for a tab to move to,
    /// and remembers what the source window shows.
    pub fn open_extraction_window(&mut self, source: WindowId, buffer: BufferId, seed: WindowSeed) -> (plan:
        ExtractionPlan)
        requires
            old(self)@.has(source),
            old(self)@.next_window_id < u64::MAX,
            old(self)@.next_window_id != source.0,
        ensures
            plan.source == source,
            plan.target == WindowId(old(self)@.next_window_id),
            plan.buffer == buffer,
            layout_model(plan.layout) == old(self)@.window(source).documents.layout,
            plan.buffers@ == old(self)@.window(source).buffer_order(),
            ({
                let root = old(self)@.window(source).root;
                let opened = old(self)@.opening(
                    root,
                    co_tenant_label(
                        root.name@,
                        count_at_root(
                            old(self)@.windows,
                            window_order(old(self)@.windows),
                            root.canonical@,
                        ),
                    ),
                    seed,
                );
                final(self)@ == if opened.has(plan.target) && opened.window(
                    plan.target,
                ).is_untouched() {
                    let window = opened.window(plan.target);
                    opened.with_window(
                        plan.target,
                        window.with_documents(
                            DocumentsModel {
                                buffers: Map::empty(),
                                metadata: window.documents.metadata.remove(window.only_buffer()),
                                event_logs: window.documents.event_logs.remove(
                                    window.only_buffer(),
                                ),
                                layout: None,
                                ..window.documents
                            },
                        ),
                    )
                } else {
                    opened
                }
            }),
    {
        let ghost before = self@;
        let (root, layout, buffers) = match self.windows.get(&source.0) {
            Some(window) => {
                let buffers = sorted_keys(&window.documents.buffers);
                proof {
                    crate::lists::lemma_sorted_members(
                        buffers@,
                        |k: u64| window@.documents.buffers.contains_key(k),
                    );
                }
                (
                    Some(window.root.clone()),
                    match &window.documents.layout {
                        Some(layout) => Some(layout.duplicate()),
                        None => None,
                    },
                    buffers,
                )
            },
            None => (None, None, Vec::new()),
        };
        let target = match root {
            Some(root) => self.create_co_tenant_window(root, seed),
            None => source,
        };
        self.discard_fresh_window_seed(target);
        ExtractionPlan { source, target, buffer, layout, buffers }
    }

    /// Lets every leaf of `source` that shows `buffer` show something else,
    /// before the buffer leaves the window.
    pub fn retarget_leaves_off_buffer(&mut self, source: WindowId, buffer: BufferId)
        ensures
            final(self)@ == old(self)@.leaves_retargeted(source, buffer),
    {
        let ghost before = self@;
        let auto_create = self.config.auto_create_empty_buffer;
        let effects = match self.windows.get(&source.0) {
            Some(window) => window.plan_retarget(source, buffer, auto_create),
            None => {
                return ;
            },
        };
        self.emit_all(effects);
        proof {
            if before.window(source).documents.layout is None {
                assert(before.asking_all(Seq::empty()).outbox =~= before.outbox);
            }
        }
    }

    /// Drops a window that a tab could not be moved to.
    pub fn discard_failed_extraction_window(&mut self, target: WindowId)
        ensures
            final(self)@ == old(self)@.extraction_discarded(target),
    {
        let identity = match self.windows.get(&target.0) {
            Some(window) => (window.root.clone(), window.stable_id.clone()),
            None => {
                return ;
            },
        };
        self.emit(Effect::DiscardExtraction { root: identity.0, stable_id: identity.1 });
        let previous = self.active_window;
        self.switch_active_window_pointer(target);
        self.switch_active_window_pointer(previous);
        if let Some(window) = self.take_window(target) {
            self.emit(Effect::WindowClosed { window });
        }
    }

    /// Brings the tab back into its window, which shows again what it showed.
    fn restore_membership(&mut self, plan: ExtractionPlan)
        ensures
            final(self)@ == old(self)@.membership_restored(
                plan.source,
                plan.target,
                plan.buffer,
                plan.buffers@,
                layout_model(plan.layout),
            ),
    {
        let source = plan.source;
        self.move_buffer_membership_between_windows(plan.buffer, plan.target, source);
        let ghost back = self@;
        if let Some(mut window) = self.take_window(source) {
            window.documents.restore(&plan.buffers, plan.layout);
            let ghost made = window@;
            self.put_window(source, window);
            proof {
                assert(back.without_window(source).with_window(source, made).windows
                    =~= back.with_window(source, made).windows);
            }
        }
    }

    /// Takes back the move of a file tab that could not be put on record.
    pub fn roll_back_tab_extraction(&mut self, plan: ExtractionPlan)
        ensures
            final(self)@ == old(self)@.membership_restored(
                plan.source,
                plan.target,
                plan.buffer,
                plan.buffers@,
                layout_model(plan.layout),
            ).emitting(Effect::RepublishSource { window: plan.source }).extraction_discarded(
                plan.target,
            ),
    {
        let target = plan.target;
        let source = plan.source;
        self.restore_membership(plan);
        self.emit(Effect::RepublishSource { window: source });
        self.discard_failed_extraction_window(target);
    }

    /// Takes back the move of a live terminal whose files are back where they
    /// were. In the source window it becomes `source_terminal`. Returns
    /// whether the terminal could be taken back; nothing changes otherwise.
    pub fn rollback_terminal_extraction_live(
        &mut self,
        plan: ExtractionPlan,
        target_terminal: TerminalId,
        source_terminal: TerminalId,
        relocations: &Vec<Relocation>,
        files: &ArtifactRun,
    ) -> (restored: bool)
        requires
            !files.forward,
            files.total == relocations@.len(),
            files.spec_outcome() == Some(true),
            can_transfer(old(self)@, plan.target, plan.source, plan.buffer, target_terminal)
                ==> old(self)@.window(plan.target).terminals.baggage(
                plan.buffer,
                target_terminal,
            ).is_covered(relocations@, false),
        ensures
            restored == can_transfer(
                old(self)@,
                plan.target,
                plan.source,
                plan.buffer,
                target_terminal,
            ),
            if restored {
                exists|moved: EditorModel|
                    {
                        &&& #[trigger] is_transferred(
                            old(self)@,
                            plan.target,
                            plan.source,
                            plan.buffer,
                            target_terminal,
                            source_terminal,
                            relocations@,
                            false,
                            moved,
                        )
                        &&& final(self)@ == moved.membership_restored(
                            plan.source,
                            plan.target,
                            plan.buffer,
                            plan.buffers@,
                            layout_model(plan.layout),
                        )
                    }
            } else {
                final(self)@ == old(self)@
            },
    {
        let moved = self.carry_terminal(
            plan.target,
            plan.source,
            plan.buffer,
            target_terminal,
            source_terminal,
            relocations,
            false,
        );
        if !moved {
            return false;
        }
        self.restore_membership(plan);
        true
    }
}

} // verus!
