//! The leaves that a tab leaves behind when it moves to another window.
use vstd::prelude::*;

use crate::documents::leaves_showing;
use crate::documents::LayoutModel;
use crate::documents::Pane;
use crate::documents::TabTarget;
use crate::editor::EditorModel;
use crate::effects::Effect;
use crate::effects::EffectModel;
use crate::extraction::candidates;
use crate::extraction::may_replace;
use crate::extraction::replacement;
use crate::extraction::retarget_effect;
use crate::extraction::retarget_effects;
use crate::ids::BufferId;
use crate::ids::LeafId;
use crate::ids::WindowId;
use crate::lists::lemma_first_match_found;
use crate::lists::lemma_first_match_none;
use crate::window::DocumentsModel;

verus! {

/// Whether a tab can take the place of `buffer`: it is another buffer that is open and
/// has a tab.
pub open spec fn is_usable(documents: DocumentsModel, tab: TabTarget, buffer: BufferId) -> bool {
    tab matches TabTarget::Buffer(id) && id != buffer && documents.buffers.contains_key(id.0) && !(
    documents.metadata.contains_key(id.0) && documents.metadata[id.0].hidden_from_tabs)
}

/// Whether `other` is the buffer that comes next in a leaf: the usable one that had the
/// focus last, and where none had it, the first usable one of the tab bar.
pub open spec fn comes_next(
    documents: DocumentsModel,
    layout: LayoutModel,
    leaf: LeafId,
    buffer: BufferId,
    other: BufferId,
) -> bool {
    let state = layout.view_states[leaf.0.0];
    let history = state.focus_history;
    let tabs = state.open_buffers;
    &&& layout.view_states.contains_key(leaf.0.0)
    &&& is_usable(documents, TabTarget::Buffer(other), buffer)
    &&& {
        ||| exists|i: int|
            0 <= i < history.len() && #[trigger] history[i] == TabTarget::Buffer(other) && (forall|
                j: int,
            |
                i < j < history.len() ==> !is_usable(documents, #[trigger] history[j], buffer))
        ||| (forall|j: int|
            0 <= j < history.len() ==> !is_usable(documents, #[trigger] history[j], buffer))
            && exists|i: int|
            0 <= i < tabs.len() && #[trigger] tabs[i] == TabTarget::Buffer(other) && (forall|j: int|
                0 <= j < i ==> !is_usable(documents, #[trigger] tabs[j], buffer))
    }
}

/// Whether a leaf has no tab that can take the place of `buffer`.
pub open spec fn has_nothing_else(
    documents: DocumentsModel,
    layout: LayoutModel,
    leaf: LeafId,
    buffer: BufferId,
) -> bool {
    let state = layout.view_states[leaf.0.0];
    layout.view_states.contains_key(leaf.0.0) ==> {
        &&& forall|j: int|
            0 <= j < state.focus_history.len() ==> !is_usable(
                documents,
                #[trigger] state.focus_history[j],
                buffer,
            )
        &&& forall|j: int|
            0 <= j < state.open_buffers.len() ==> !is_usable(
                documents,
                #[trigger] state.open_buffers[j],
                buffer,
            )
    }
}

/// What an editor was asked for since `before`.
pub open spec fn asked_since(before: EditorModel, after: EditorModel) -> Seq<EffectModel> {
    after.outbox.skip(before.outbox.len() as int)
}

/// Whether an effect closes a leaf.
pub open spec fn closes_leaf(effect: EffectModel) -> bool {
    effect matches EffectModel::Plain(Effect::CloseLeaf { .. })
}

/// When a tab leaves a window, each leaf that shows it is dealt with once, in the order
/// of the layout, and nothing else happens. A leaf with another usable tab shows the one
/// that comes next. One without is closed if and only if another leaf is left: only the
/// last leaf of all, once all the others are closed, gets an empty buffer, which is
/// hidden where empty buffers are not wanted.
pub proof fn a_leaf_is_closed_unless_it_is_the_last(
    editor: EditorModel,
    source: WindowId,
    buffer: BufferId,
)
    requires
        editor.has(source),
        editor.windows[source.0].documents.layout is Some,
    ensures
        ({
            let after = editor.leaves_retargeted(source, buffer);
            let effects = asked_since(editor, after);
            let documents = editor.windows[source.0].documents;
            let layout = documents.layout->0;
            let leaves = leaves_showing(layout.panes, buffer);
            &&& after == (EditorModel { outbox: editor.outbox + effects, ..editor })
            &&& effects.len() == leaves.len()
            &&& forall|j: int|
                0 <= j < effects.len() ==> {
                    let effect = #[trigger] effects[j];
                    let alone = j + 1 == layout.panes.len() && forall|i: int|
                        0 <= i < j ==> closes_leaf(#[trigger] effects[i]);
                    if has_nothing_else(documents, layout, leaves[j], buffer) {
                        effect == EffectModel::Plain(
                            if alone {
                                Effect::SeedLeaf {
                                    window: source,
                                    leaf: leaves[j],
                                    hidden: !editor.config.auto_create_empty_buffer,
                                }
                            } else {
                                Effect::CloseLeaf { window: source, leaf: leaves[j] }
                            },
                        )
                    } else {
                        exists|other: BufferId| #[trigger]
                            comes_next(documents, layout, leaves[j], buffer, other) && effect
                                == EffectModel::Plain(
                                Effect::SetPaneBuffer {
                                    window: source,
                                    leaf: leaves[j],
                                    buffer: other,
                                },
                            )
                    }
                }
        }),
{
    let documents = editor.windows[source.0].documents;
    let layout = documents.layout->0;
    let auto = editor.config.auto_create_empty_buffer;
    let after = editor.leaves_retargeted(source, buffer);
    let n = layout.panes.len() as int;
    let effects = retarget_effects(documents, source, layout.panes, buffer, n, auto);
    let leaves = leaves_showing(layout.panes, buffer);
    assert(asked_since(editor, after) =~= effects);
    lemma_retargeted(documents, source, layout.panes, buffer, n, auto);
    assert forall|j: int| 0 <= j < effects.len() implies {
        let effect = #[trigger] effects[j];
        let alone = j + 1 == n && forall|i: int| 0 <= i < j ==> closes_leaf(#[trigger] effects[i]);
        if has_nothing_else(documents, layout, leaves[j], buffer) {
            effect == EffectModel::Plain(
                if alone {
                    Effect::SeedLeaf { window: source, leaf: leaves[j], hidden: !auto }
                } else {
                    Effect::CloseLeaf { window: source, leaf: leaves[j] }
                },
            )
        } else {
            exists|other: BufferId| #[trigger]
                comes_next(documents, layout, leaves[j], buffer, other) && effect
                    == EffectModel::Plain(
                    Effect::SetPaneBuffer { window: source, leaf: leaves[j], buffer: other },
                )
        }
    } by {
        lemma_next_tab(documents, leaves[j], buffer);
        lemma_closed_before(effects, j);
        let before = closed_in(effects.take(j));
        if j + 1 == n && forall|i: int| 0 <= i < j ==> closes_leaf(#[trigger] effects[i]) {
            assert(before == j);
        } else if before == n - 1 {
            assert(j == n - 1);
            assert(false);
        }
    }
}

/// Where a window has several leaves and just one of them shows the tab and has nothing
/// else to show, that leaf is closed, and no empty buffer is made.
pub proof fn an_emptied_leaf_beside_others_is_closed(
    editor: EditorModel,
    source: WindowId,
    buffer: BufferId,
    leaf: LeafId,
)
    requires
        editor.has(source),
        editor.windows[source.0].documents.layout is Some,
        ({
            let documents = editor.windows[source.0].documents;
            let layout = documents.layout->0;
            &&& layout.panes.len() >= 2
            &&& leaves_showing(layout.panes, buffer) == seq![leaf]
            &&& has_nothing_else(documents, layout, leaf, buffer)
        }),
    ensures
        asked_since(editor, editor.leaves_retargeted(source, buffer)) == seq![
            EffectModel::Plain(Effect::CloseLeaf { window: source, leaf }),
        ],
{
    a_leaf_is_closed_unless_it_is_the_last(editor, source, buffer);
    let effects = asked_since(editor, editor.leaves_retargeted(source, buffer));
    assert(effects[0] == EffectModel::Plain(Effect::CloseLeaf { window: source, leaf }));
    assert(effects =~= seq![EffectModel::Plain(Effect::CloseLeaf { window: source, leaf })]);
}

/// How many leaves some effects close.
pub open spec fn closed_in(effects: Seq<EffectModel>) -> int
    decreases effects.len(),
{
    if effects.len() == 0 {
        0
    } else {
        closed_in(effects.drop_last()) + if closes_leaf(effects.last()) {
            1int
        } else {
            0int
        }
    }
}

proof fn lemma_closed_before(effects: Seq<EffectModel>, j: int)
    requires
        0 <= j <= effects.len(),
    ensures
        0 <= closed_in(effects.take(j)) <= j,
        closed_in(effects.take(j)) == j <==> forall|i: int|
            0 <= i < j ==> closes_leaf(#[trigger] effects[i]),
    decreases j,
{
    if j > 0 {
        lemma_closed_before(effects, j - 1);
        assert(effects.take(j).drop_last() =~= effects.take(j - 1));
        assert(effects.take(j).last() == effects[j - 1]);
    }
}

proof fn lemma_closed_first(effect: EffectModel, rest: Seq<EffectModel>)
    ensures
        closed_in(seq![effect] + rest) == closed_in(rest) + if closes_leaf(effect) {
            1int
        } else {
            0int
        },
    decreases rest.len(),
{
    let all = seq![effect] + rest;
    if rest.len() == 0 {
        assert(all =~= seq![effect]);
        assert(all.drop_last() =~= Seq::<EffectModel>::empty());
        reveal_with_fuel(closed_in, 2);
    } else {
        lemma_closed_first(effect, rest.drop_last());
        assert(all.drop_last() =~= seq![effect] + rest.drop_last());
        assert(all.last() == rest.last());
    }
}

proof fn lemma_showing_first(panes: Seq<Pane>, buffer: BufferId)
    requires
        panes.len() > 0,
    ensures
        leaves_showing(panes, buffer) == if panes[0].buffer == buffer {
            seq![panes[0].leaf] + leaves_showing(panes.drop_first(), buffer)
        } else {
            leaves_showing(panes.drop_first(), buffer)
        },
    decreases panes.len(),
{
    if panes.len() == 1 {
        assert(panes.drop_first() =~= Seq::<Pane>::empty());
        assert(panes.drop_last() =~= Seq::<Pane>::empty());
        reveal_with_fuel(leaves_showing, 2);
        assert(leaves_showing(panes, buffer) =~= if panes[0].buffer == buffer {
            seq![panes[0].leaf] + leaves_showing(panes.drop_first(), buffer)
        } else {
            leaves_showing(panes.drop_first(), buffer)
        });
    } else {
        lemma_showing_first(panes.drop_last(), buffer);
        assert(panes.drop_last().drop_first() =~= panes.drop_first().drop_last());
        assert(leaves_showing(panes, buffer) =~= if panes[0].buffer == buffer {
            seq![panes[0].leaf] + leaves_showing(panes.drop_first(), buffer)
        } else {
            leaves_showing(panes.drop_first(), buffer)
        });
    }
}

proof fn lemma_retargeted(
    documents: DocumentsModel,
    window: WindowId,
    panes: Seq<Pane>,
    buffer: BufferId,
    leaves: int,
    auto: bool,
)
    ensures
        ({
            let effects = retarget_effects(documents, window, panes, buffer, leaves, auto);
            let shown = leaves_showing(panes, buffer);
            &&& effects.len() == shown.len() <= panes.len()
            &&& forall|j: int|
                0 <= j < effects.len() ==> #[trigger] effects[j] == EffectModel::Plain(
                    match replacement(documents, shown[j], buffer) {
                        Some(other) => Effect::SetPaneBuffer {
                            window,
                            leaf: shown[j],
                            buffer: other,
                        },
                        None => if leaves - closed_in(effects.take(j)) > 1 {
                            Effect::CloseLeaf { window, leaf: shown[j] }
                        } else {
                            Effect::SeedLeaf { window, leaf: shown[j], hidden: !auto }
                        },
                    },
                )
        }),
    decreases panes.len(),
{
    if panes.len() > 0 {
        let rest = panes.drop_first();
        lemma_showing_first(panes, buffer);
        let effects = retarget_effects(documents, window, panes, buffer, leaves, auto);
        let shown = leaves_showing(panes, buffer);
        if panes[0].buffer != buffer {
            lemma_retargeted(documents, window, rest, buffer, leaves, auto);
        } else {
            let first = retarget_effect(documents, window, panes[0].leaf, buffer, leaves, auto);
            let left = if first is CloseLeaf {
                leaves - 1
            } else {
                leaves
            };
            lemma_retargeted(documents, window, rest, buffer, left, auto);
            let later = retarget_effects(documents, window, rest, buffer, left, auto);
            assert(effects == seq![EffectModel::Plain(first)] + later);
            assert forall|j: int| 0 <= j < effects.len() implies #[trigger] effects[j]
                == EffectModel::Plain(
                match replacement(documents, shown[j], buffer) {
                    Some(other) => Effect::SetPaneBuffer { window, leaf: shown[j], buffer: other },
                    None => if leaves - closed_in(effects.take(j)) > 1 {
                        Effect::CloseLeaf { window, leaf: shown[j] }
                    } else {
                        Effect::SeedLeaf { window, leaf: shown[j], hidden: !auto }
                    },
                },
            ) by {
                if j == 0 {
                    assert(effects.take(0) =~= Seq::<EffectModel>::empty());
                } else {
                    assert(effects[j] == later[j - 1]);
                    assert(shown[j] == leaves_showing(rest, buffer)[j - 1]);
                    assert(effects.take(j) =~= seq![EffectModel::Plain(first)] + later.take(j - 1));
                    lemma_closed_first(EffectModel::Plain(first), later.take(j - 1));
                }
            }
        }
    }
}

proof fn lemma_next_tab(documents: DocumentsModel, leaf: LeafId, buffer: BufferId)
    requires
        documents.layout is Some,
    ensures
        replacement(documents, leaf, buffer) is None <==> has_nothing_else(
            documents,
            documents.layout->0,
            leaf,
            buffer,
        ),
        replacement(documents, leaf, buffer) matches Some(other) ==> comes_next(
            documents,
            documents.layout->0,
            leaf,
            buffer,
            other,
        ),
{
    let layout = documents.layout->0;
    if layout.view_states.contains_key(leaf.0.0) {
        let state = layout.view_states[leaf.0.0];
        let history = state.focus_history;
        let tabs = state.open_buffers;
        let all = candidates(state);
        let wanted = may_replace(documents, buffer);
        let n = history.len() as int;
        assert forall|k: int| 0 <= k < all.len() implies #[trigger] all[k] == if k < n {
            history[n - 1 - k]
        } else {
            tabs[k - n]
        } by {}
        if has_nothing_else(documents, layout, leaf, buffer) {
            assert forall|k: int| 0 <= k < all.len() implies !wanted(#[trigger] all[k]) by {
                if k < n {
                    assert(!is_usable(documents, history[n - 1 - k], buffer));
                } else {
                    assert(!is_usable(documents, tabs[k - n], buffer));
                }
            }
            lemma_first_match_none(all, wanted);
        } else {
            let k = lemma_some_usable(documents, layout, leaf, buffer, all);
            let first = lemma_first_wanted(all, wanted, k);
            lemma_first_match_found(all, wanted, first);
            let other = all[first]->Buffer_0;
            assert(is_usable(documents, all[first], buffer));
            if first < n {
                let i = n - 1 - first;
                assert(history[i] == TabTarget::Buffer(other));
                assert forall|j: int| i < j < n implies !is_usable(
                    documents,
                    #[trigger] history[j],
                    buffer,
                ) by {
                    assert(!wanted(all[n - 1 - j]));
                }
            } else {
                assert forall|j: int| 0 <= j < n implies !is_usable(
                    documents,
                    #[trigger] history[j],
                    buffer,
                ) by {
                    assert(!wanted(all[n - 1 - j]));
                }
                let i = first - n;
                assert(tabs[i] == TabTarget::Buffer(other));
                assert forall|j: int| 0 <= j < i implies !is_usable(
                    documents,
                    #[trigger] tabs[j],
                    buffer,
                ) by {
                    assert(!wanted(all[n + j]));
                }
            }
        }
    }
}

proof fn lemma_some_usable(
    documents: DocumentsModel,
    layout: LayoutModel,
    leaf: LeafId,
    buffer: BufferId,
    all: Seq<TabTarget>,
) -> (k: int)
    requires
        !has_nothing_else(documents, layout, leaf, buffer),
        all == candidates(layout.view_states[leaf.0.0]),
    ensures
        0 <= k < all.len(),
        may_replace(documents, buffer)(all[k]),
{
    let state = layout.view_states[leaf.0.0];
    let history = state.focus_history;
    let tabs = state.open_buffers;
    let n = history.len() as int;
    if exists|j: int| 0 <= j < n && is_usable(documents, #[trigger] history[j], buffer) {
        let j = choose|j: int| 0 <= j < n && is_usable(documents, #[trigger] history[j], buffer);
        assert(all[n - 1 - j] == history[j]);
        n - 1 - j
    } else {
        let j = choose|j: int|
            0 <= j < tabs.len() && is_usable(documents, #[trigger] tabs[j], buffer);
        assert(all[n + j] == tabs[j]);
        n + j
    }
}

proof fn lemma_first_wanted(all: Seq<TabTarget>, wanted: spec_fn(TabTarget) -> bool, k: int) -> (first:
    int)
    requires
        0 <= k < all.len(),
        wanted(all[k]),
    ensures
        0 <= first <= k,
        wanted(all[first]),
        forall|i: int| 0 <= i < first ==> !wanted(#[trigger] all[i]),
    decreases k,
{
    if exists|i: int| 0 <= i < k && wanted(#[trigger] all[i]) {
        let i = choose|i: int| 0 <= i < k && wanted(#[trigger] all[i]);
        lemma_first_wanted(all, wanted, i)
    } else {
        k
    }
}

} // verus!
