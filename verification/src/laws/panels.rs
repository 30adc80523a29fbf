//! Panels and popups: what a change of one leaves alone.
use vstd::prelude::*;

use crate::documents::Popup;
use crate::editor::EditorModel;
use crate::floating::clamp_dock_width;
use crate::floating::is_panel;
use crate::ids::BufferId;
use crate::lists::first_index;
use crate::lists::first_match;
use crate::lists::lemma_first_index_found;
use crate::lists::lemma_first_match_found;
use crate::popups::has_popup_id;
use crate::popups::stack_with;
use crate::ui_handlers::selection_at;
use crate::virtual_buffer::is_named;
use crate::virtual_buffer::is_not_named;
use crate::virtual_buffer::with_panel;
use crate::widgets::clamp_index;
use crate::widgets::clamp_number;
use crate::widgets::has_key;
use crate::widgets::PanelKey;
use crate::widgets::PanelModel;
use crate::widgets::WidgetMutation;

verus! {

/// The widget that a change is for.
pub open spec fn widget_of(mutation: WidgetMutation) -> Seq<char> {
    match mutation {
        WidgetMutation::SetValue { widget_key, .. } => widget_key@,
        WidgetMutation::SetChecked { widget_key, .. } => widget_key@,
        WidgetMutation::SetSelectedIndex { widget_key, .. } => widget_key@,
        WidgetMutation::SetNumber { widget_key, .. } => widget_key@,
        WidgetMutation::SetDropdown { widget_key, .. } => widget_key@,
        WidgetMutation::SetDualIncluded { widget_key, .. } => widget_key@,
        WidgetMutation::SetCompletions { widget_key, .. } => widget_key@,
        WidgetMutation::SetItems { widget_key, .. } => widget_key@,
        WidgetMutation::SetExpandedKeys { widget_key, .. } => widget_key@,
        WidgetMutation::SetCheckedKeys { widget_key, .. } => widget_key@,
        WidgetMutation::AppendTreeNodes { widget_key, .. } => widget_key@,
        WidgetMutation::SetRawEntries { widget_key, .. } => widget_key@,
        WidgetMutation::SetFocusKey { widget_key, .. } => widget_key@,
    }
}

proof fn lemma_first_index_wanted<T>(items: Seq<T>, wanted: spec_fn(T) -> bool)
    ensures
        first_index(items, wanted) matches Some(i) ==> 0 <= i < items.len() && wanted(items[i]),
    decreases items.len(),
{
    if items.len() > 0 && !wanted(items[0]) {
        lemma_first_index_wanted(items.drop_first(), wanted);
        if let Some(i) = first_index(items.drop_first(), wanted) {
            assert(items.drop_first()[i] == items[i + 1]);
        }
    }
}

/// A change that is for one widget leaves all other widgets of the panel as
/// they are, and the panel in its place.
pub proof fn a_change_of_one_widget_spares_the_others(
    panel: PanelModel,
    mutation: WidgetMutation,
    other: Seq<char>,
    i: int,
)
    requires
        other != widget_of(mutation),
        0 <= i < panel.widgets.len(),
        panel.widgets[i].key == other,
    ensures
        ({
            let after = panel.mutated(mutation);
            &&& after.plugin == panel.plugin
            &&& after.panel_id == panel.panel_id
            &&& after.buffer_id == panel.buffer_id
            &&& after.state_of(other) == panel.state_of(other)
            &&& after.widgets.len() == panel.widgets.len()
            &&& after.widgets[i] == panel.widgets[i]
        }),
{
    lemma_first_index_wanted(panel.widgets, has_key(widget_of(mutation)));
}

/// A change of one panel leaves all other panels as they are.
pub proof fn a_change_of_one_panel_spares_the_others(
    editor: EditorModel,
    key: PanelKey,
    mutation: WidgetMutation,
    i: int,
)
    requires
        0 <= i < editor.panels.panels.len(),
        !is_panel(key)(editor.panels.panels[i]),
    ensures
        ({
            let after = editor.panel_mutated(key, mutation).panels;
            &&& after.panels.len() == editor.panels.panels.len()
            &&& after.panels[i] == editor.panels.panels[i]
            &&& after.dock == editor.panels.dock
            &&& after.floating == editor.panels.floating
        }),
{
    lemma_first_index_wanted(editor.panels.panels, is_panel(key));
}

/// Two plugins may use the same number for a panel: a panel belongs to its
/// plugin.
pub proof fn panels_belong_to_their_plugin(a: PanelKey, b: PanelKey, panel: PanelModel)
    requires
        a.plugin@ != b.plugin@,
        is_panel(a)(panel),
    ensures
        !is_panel(b)(panel),
{
}

/// A number stays within its bounds, and one that is there already stays.
pub proof fn numbers_stay_within_their_bounds(value: i64, min: i64, max: i64)
    requires
        min <= max,
    ensures
        min <= clamp_number(value, Some(min), Some(max)) <= max,
        min <= value <= max ==> clamp_number(value, Some(min), Some(max)) == value,
{
}

/// The selected option of a dropdown is one that it has, or the first where it
/// has none.
pub proof fn selections_stay_within_the_options(index: i32, options: nat)
    ensures
        0 <= clamp_index(index, options),
        options > 0 ==> clamp_index(index, options) < options,
        0 <= index < options ==> clamp_index(index, options) == index,
{
}

/// The selected suggestion of a prompt is one that it has.
pub proof fn suggestions_stay_within_the_prompt(index: u32, count: u64)
    requires
        count > 0,
    ensures
        selection_at(index, count) < count,
        index < count ==> selection_at(index, count) == index,
{
}

/// The dock never takes the whole width of a screen that has room for more, and
/// is never narrower than it can be.
pub proof fn the_dock_leaves_room(width: u16, screen_width: u16)
    ensures
        10 <= clamp_dock_width(width, screen_width),
        screen_width >= 30 ==> clamp_dock_width(width, screen_width) <= screen_width - 20,
{
}

/// A popup that is shown again under its id takes the place of the old one: no
/// more popups are on the stack than before.
pub proof fn a_popup_is_shown_once(stack: Seq<Popup>, first: Popup, second: Popup, id: Seq<char>)
    requires
        has_popup_id(id)(first),
        has_popup_id(id)(second),
    ensures
        stack_with(stack_with(stack, first, id), second, id).len() == stack_with(
            stack,
            first,
            id,
        ).len(),
        stack_with(stack_with(stack, first, id), second, id) == stack_with(stack, second, id),
{
    let wanted = has_popup_id(id);
    let once = stack_with(stack, first, id);
    lemma_first_index_wanted(stack, wanted);
    match first_index(stack, wanted) {
        Some(at) => {
            lemma_first_index_is_first(stack, wanted);
            assert forall|i: int| 0 <= i < at implies !wanted(#[trigger] once[i]) by {
                assert(once[i] == stack[i]);
            }
            lemma_first_index_found(once, wanted, at);
            assert(once.update(at, second) =~= stack.update(at, second));
        },
        None => {
            lemma_first_index_is_first(stack, wanted);
            let at = stack.len() as int;
            assert forall|i: int| 0 <= i < at implies !wanted(#[trigger] once[i]) by {
                assert(once[i] == stack[i]);
            }
            lemma_first_index_found(once, wanted, at);
            assert(once.update(at, second) =~= stack.push(second));
        },
    }
}

proof fn lemma_first_index_is_first<T>(items: Seq<T>, wanted: spec_fn(T) -> bool)
    ensures
        match first_index(items, wanted) {
            Some(at) => forall|i: int| 0 <= i < at ==> !wanted(#[trigger] items[i]),
            None => forall|i: int| 0 <= i < items.len() ==> !wanted(#[trigger] items[i]),
        },
    decreases items.len(),
{
    lemma_first_index_wanted(items, wanted);
    if items.len() > 0 && !wanted(items[0]) {
        let rest = items.drop_first();
        lemma_first_index_is_first(rest, wanted);
        assert forall|i: int|
            0 <= i < (match first_index(items, wanted) {
                Some(at) => at,
                None => items.len() as int,
            }) implies !wanted(#[trigger] items[i]) by {
            if i > 0 {
                assert(rest[i - 1] == items[i]);
            }
        }
    }
}

/// A panel that was named is found under its name, and the names of the other
/// panels stay.
pub proof fn a_named_panel_is_found(
    panels: Seq<(String, BufferId)>,
    id: String,
    buffer: BufferId,
    other: Seq<char>,
)
    requires
        other != id@,
    ensures
        first_match(with_panel(panels, id, buffer), is_named(id@)) == Some((id, buffer)),
        first_match(with_panel(panels, id, buffer), is_named(other)) == first_match(
            panels,
            is_named(other),
        ),
{
    let rest = panels.filter(is_not_named(id@));
    let after = with_panel(panels, id, buffer);
    assert forall|i: int| 0 <= i < rest.len() implies !is_named(id@)(#[trigger] after[i]) by {
        panels.lemma_filter_pred(is_not_named(id@), i);
        assert(after[i] == rest[i]);
    }
    lemma_first_match_found(after, is_named(id@), rest.len() as int);
    lemma_match_survives_filter(panels, id@, other);
    lemma_match_survives_push(rest, (id, buffer), other);
}

proof fn lemma_match_survives_push(
    panels: Seq<(String, BufferId)>,
    entry: (String, BufferId),
    name: Seq<char>,
)
    requires
        entry.0@ != name,
    ensures
        first_match(panels.push(entry), is_named(name)) == first_match(panels, is_named(name)),
    decreases panels.len(),
{
    if panels.len() == 0 {
        assert(panels.push(entry).drop_first() =~= panels);
    } else if !is_named(name)(panels[0]) {
        assert(panels.push(entry).drop_first() =~= panels.drop_first().push(entry));
        lemma_match_survives_push(panels.drop_first(), entry, name);
    }
}

proof fn lemma_match_survives_filter(panels: Seq<(String, BufferId)>, id: Seq<char>, name: Seq<char>)
    requires
        id != name,
    ensures
        first_match(panels.filter(is_not_named(id)), is_named(name)) == first_match(
            panels,
            is_named(name),
        ),
    decreases panels.len(),
{
    reveal(Seq::filter);
    if panels.len() > 0 {
        let rest = panels.drop_last();
        let last = panels.last();
        lemma_match_survives_filter(rest, id, name);
        assert(panels =~= rest.push(last));
        if last.0@ != name {
            lemma_match_survives_push(rest, last, name);
            lemma_match_survives_push(rest.filter(is_not_named(id)), last, name);
        } else {
            lemma_match_of_last(rest, last, name);
            lemma_match_of_last(rest.filter(is_not_named(id)), last, name);
        }
    }
}

proof fn lemma_match_of_last(
    panels: Seq<(String, BufferId)>,
    entry: (String, BufferId),
    name: Seq<char>,
)
    requires
        entry.0@ == name,
    ensures
        first_match(panels.push(entry), is_named(name)) == match first_match(
            panels,
            is_named(name),
        ) {
            Some(found) => Some(found),
            None => Some(entry),
        },
    decreases panels.len(),
{
    if panels.len() == 0 {
        assert(panels.push(entry)[0] == entry);
    } else if !is_named(name)(panels[0]) {
        assert(panels.push(entry).drop_first() =~= panels.drop_first().push(entry));
        lemma_match_of_last(panels.drop_first(), entry, name);
    }
}

} // verus!
