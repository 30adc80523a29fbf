//! The registry of widget panels, and the panels that float over the editor.
use vstd::prelude::*;

use crate::ids::BufferId;
use crate::lists::first_index;
use crate::lists::lemma_first_index_found;
use crate::lists::lemma_first_index_none;
use crate::text::same_text;
use crate::widgets::Panel;
use crate::widgets::PanelKey;
use crate::widgets::PanelModel;
use crate::widgets::Widget;
use crate::widgets::WidgetInstanceState;
use crate::widgets::WidgetMutation;
use crate::command::PanelArgument;

verus! {

/// Where a floating panel is placed.
#[derive(Clone, Copy, Debug, PartialEq, Eq, Structural)]
pub enum PanelPlacement {
    Centered,
    /// A full-height column on the left.
    LeftDock { width_cols: u16 },
    /// At a screen cell, like a context menu.
    Anchored { x: u16, y: u16 },
}

/// The two places for a floating panel. A panel in the one and a panel in the
/// other can be there at the same time.
#[derive(Clone, Copy, Debug, PartialEq, Eq, Structural)]
pub enum PanelSlot {
    Dock,
    Floating,
}

/// How a floating panel is mounted.
#[derive(Debug)]
pub struct FloatingOptions {
    pub width_pct: u8,
    pub height_pct: u8,
    pub as_dock: bool,
    pub focus_marker: bool,
    pub title: Option<String>,
    pub closable: bool,
    /// Whether the panel is mounted without the keyboard focus.
    pub start_blurred: bool,
}

/// A floating panel.
#[derive(Debug)]
pub struct FloatingPanel {
    pub key: PanelKey,
    pub width_pct: u8,
    pub height_pct: u8,
    pub placement: PanelPlacement,
    pub focused: bool,
    pub fullscreen: bool,
    pub focus_marker: bool,
    pub title: Option<String>,
    pub closable: bool,
    pub hovered_widget_key: String,
}

/// The result of rendering the description of a panel.
#[derive(Debug)]
pub struct RenderedPanel {
    pub widgets: Vec<Widget>,
    pub states: crate::text_map::TextMap<WidgetInstanceState>,
    pub focus_key: String,
}

/// All panels.
#[derive(Debug)]
pub struct PanelHost {
    /// The mounted panels, floating or in a buffer.
    pub panels: Vec<Panel>,
    pub dock: Option<FloatingPanel>,
    pub floating: Option<FloatingPanel>,
    /// The width of the dock that the user dragged it to.
    pub dock_width: Option<u16>,
}

/// [`PanelHost`] as a mathematical value.
pub struct PanelHostModel {
    pub panels: Seq<PanelModel>,
    pub dock: Option<FloatingPanel>,
    pub floating: Option<FloatingPanel>,
    pub dock_width: Option<u16>,
}

/// The models of a list of panels.
pub open spec fn panel_models(panels: Seq<Panel>) -> Seq<PanelModel> {
    panels.map_values(|p: Panel| p@)
}

impl View for PanelHost {
    type V = PanelHostModel;

    open spec fn view(&self) -> PanelHostModel {
        PanelHostModel {
            panels: panel_models(self.panels@),
            dock: self.dock,
            floating: self.floating,
            dock_width: self.dock_width,
        }
    }
}

/// Whether a panel has the key `key`.
pub open spec fn is_panel(key: PanelKey) -> spec_fn(PanelModel) -> bool {
    |p: PanelModel| p.plugin == key.plugin@ && p.panel_id == key.panel_id
}

/// Whether two keys name the same panel.
pub open spec fn same_panel(a: PanelKey, b: PanelKey) -> bool {
    a.plugin@ == b.plugin@ && a.panel_id == b.panel_id
}

/// Whether two keys name the same panel.
pub fn keys_match(a: &PanelKey, b: &PanelKey) -> (same: bool)
    ensures
        same == same_panel(*a, *b),
{
    a.panel_id == b.panel_id && same_text(a.plugin.as_str(), b.plugin.as_str())
}

/// The widest that the dock may be, so that it never takes the whole screen.
pub open spec fn max_dock_columns(screen_width: u16) -> u16 {
    if screen_width < 30 {
        10
    } else {
        (screen_width - 20) as u16
    }
}

/// A width of the dock within its bounds.
pub open spec fn clamp_dock_width(width: u16, screen_width: u16) -> u16 {
    if width < 10 {
        10
    } else if width > max_dock_columns(screen_width) {
        max_dock_columns(screen_width)
    } else {
        width
    }
}

/// A width of the dock within its bounds.
fn bounded_dock_width(width: u16, screen_width: u16) -> (bounded: u16)
    ensures
        bounded == clamp_dock_width(width, screen_width),
        10 <= bounded,
{
    let max: u16 = if screen_width < 30 {
        10
    } else {
        screen_width - 20
    };
    if width < 10 {
        10
    } else if width > max {
        max
    } else {
        width
    }
}

/// A share of the screen in percent.
pub open spec fn clamp_percent(percent: u8) -> u8 {
    if percent < 1 {
        1
    } else if percent > 100 {
        100
    } else {
        percent
    }
}

/// A share of the screen in percent.
fn bounded_percent(percent: u8) -> (bounded: u8)
    ensures
        bounded == clamp_percent(percent),
{
    if percent < 1 {
        1
    } else if percent > 100 {
        100
    } else {
        percent
    }
}

/// What follows from an operation on a floating panel.
#[derive(Clone, Copy, Debug, PartialEq, Eq, Structural)]
pub enum ControlOutcome {
    /// No such panel, or no such operation.
    Ignored,
    /// The panel in this slot loses the keyboard, and its plugin is told.
    Blur(PanelSlot),
    /// The panel changed; the screen is laid out anew where its geometry did.
    Changed { relayout: bool },
}

impl PanelHostModel {
    /// The slot of the floating panel with the key `key`.
    pub open spec fn slot_of(self, key: PanelKey) -> Option<PanelSlot> {
        if self.dock is Some && same_panel(self.dock->0.key, key) {
            Some(PanelSlot::Dock)
        } else if self.floating is Some && same_panel(self.floating->0.key, key) {
            Some(PanelSlot::Floating)
        } else {
            None
        }
    }

    /// The panel in `slot`.
    pub open spec fn in_slot(self, slot: PanelSlot) -> Option<FloatingPanel> {
        match slot {
            PanelSlot::Dock => self.dock,
            PanelSlot::Floating => self.floating,
        }
    }

    /// This host with another panel in `slot`.
    pub open spec fn with_slot(self, slot: PanelSlot, panel: Option<FloatingPanel>) -> PanelHostModel {
        match slot {
            PanelSlot::Dock => PanelHostModel { dock: panel, ..self },
            PanelSlot::Floating => PanelHostModel { floating: panel, ..self },
        }
    }

    /// This host without the panel `key` in its registry.
    pub open spec fn unmounted(self, key: PanelKey) -> PanelHostModel {
        match first_index(self.panels, is_panel(key)) {
            Some(i) => PanelHostModel { panels: self.panels.remove(i), ..self },
            None => self,
        }
    }

    /// This host with `panel` in its registry, in the place of one with the
    /// same key.
    pub open spec fn mounted(self, key: PanelKey, panel: PanelModel) -> PanelHostModel {
        match first_index(self.panels, is_panel(key)) {
            Some(i) => PanelHostModel { panels: self.panels.update(i, panel), ..self },
            None => PanelHostModel { panels: self.panels.push(panel), ..self },
        }
    }

    /// The width that the dock gets when it is mounted.
    pub open spec fn mounted_dock_width(self, screen_width: u16) -> u16 {
        clamp_dock_width(
            match self.dock_width {
                Some(width) => width,
                None => 32,
            },
            screen_width,
        )
    }

    /// What an operation makes of the panel in a slot. `None` where there is
    /// no such operation.
    pub open spec fn controlled(
        self,
        panel: FloatingPanel,
        op: Seq<char>,
        arg: PanelArgument,
        screen_width: u16,
    ) -> Option<(FloatingPanel, bool)> {
        let width_cols = clamp_dock_width(
            match self.dock_width {
                Some(width) => width,
                None => arg.columns,
            },
            screen_width,
        );
        if op == "dock"@ {
            Some(
                (
                    FloatingPanel {
                        placement: PanelPlacement::LeftDock { width_cols },
                        focused: true,
                        ..panel
                    },
                    true,
                ),
            )
        } else if op == "dock_width"@ {
            if panel.placement is LeftDock {
                Some(
                    (
                        FloatingPanel {
                            placement: PanelPlacement::LeftDock { width_cols },
                            ..panel
                        },
                        true,
                    ),
                )
            } else {
                Some((panel, false))
            }
        } else if op == "center"@ {
            Some(
                (
                    FloatingPanel { placement: PanelPlacement::Centered, focused: true, ..panel },
                    true,
                ),
            )
        } else if op == "anchor"@ {
            Some(
                (
                    FloatingPanel {
                        placement: PanelPlacement::Anchored {
                            x: (arg.packed_cell % 0x1_0000) as u16,
                            y: ((arg.packed_cell / 0x1_0000) % 0x1_0000) as u16,
                        },
                        focused: true,
                        fullscreen: false,
                        ..panel
                    },
                    false,
                ),
            )
        } else if op == "focus"@ {
            Some((FloatingPanel { focused: true, ..panel }, false))
        } else if op == "fullscreen"@ {
            Some((FloatingPanel { fullscreen: arg.nonzero, ..panel }, false))
        } else {
            None
        }
    }

    /// This host once a mount has begun: the outgoing panel of the slot is
    /// gone, a focused dock has given the keyboard to a modal, and the new
    /// panel is in its slot with nothing rendered yet.
    pub open spec fn mount_begun(
        self,
        key: PanelKey,
        options: FloatingOptions,
        screen_width: u16,
    ) -> PanelHostModel {
        let slot = if options.as_dock {
            PanelSlot::Dock
        } else {
            PanelSlot::Floating
        };
        let blurred = if !options.as_dock && self.dock is Some && self.dock->0.focused {
            PanelHostModel {
                dock: Some(FloatingPanel { focused: false, ..self.dock->0 }),
                ..self
            }
        } else {
            self
        };
        let cleared = match blurred.in_slot(slot) {
            Some(existing) => if same_panel(existing.key, key) {
                blurred
            } else {
                blurred.unmounted(existing.key)
            },
            None => blurred,
        };
        cleared
    }
}

/// Whether `panel` is what a mount puts into its slot.
pub open spec fn is_mounted_panel(
    panel: FloatingPanel,
    host: PanelHostModel,
    key: PanelKey,
    options: FloatingOptions,
    screen_width: u16,
) -> bool {
    &&& panel.key.plugin@ == key.plugin@
    &&& panel.key.panel_id == key.panel_id
    &&& panel.width_pct == clamp_percent(options.width_pct)
    &&& panel.height_pct == clamp_percent(options.height_pct)
    &&& panel.placement == if options.as_dock {
        PanelPlacement::LeftDock { width_cols: host.mounted_dock_width(screen_width) }
    } else {
        PanelPlacement::Centered
    }
    &&& panel.focused == !options.start_blurred
    &&& !panel.fullscreen
    &&& panel.focus_marker == options.focus_marker
    &&& panel.title == if options.as_dock {
        None
    } else {
        options.title
    }
    &&& panel.closable == (!options.as_dock && options.closable)
    &&& panel.hovered_widget_key@.len() == 0
}

impl PanelHost {
    /// No panel at all.
    pub fn new() -> (host: PanelHost)
        ensures
            host@ == (PanelHostModel {
                panels: Seq::empty(),
                dock: None,
                floating: None,
                dock_width: None,
            }),
    {
        let host = PanelHost { panels: Vec::new(), dock: None, floating: None, dock_width: None };
        proof {
            assert(host@.panels =~= Seq::<PanelModel>::empty());
        }
        host
    }

    /// The place of the panel `key` in the registry.
    pub fn find_panel(&self, key: &PanelKey) -> (at: Option<usize>)
        ensures
            match first_index(self@.panels, is_panel(*key)) {
                Some(i) => at matches Some(a) && a == i && a < self.panels@.len(),
                None => at is None,
            },
    {
        let ghost models = self@.panels;
        let mut at: usize = 0;
        while at < self.panels.len()
            invariant
                at <= self.panels.len(),
                models == self@.panels,
                forall|i: int| 0 <= i < at ==> !(is_panel(*key))(#[trigger] models[i]),
            decreases self.panels.len() - at,
        {
            if keys_match(&self.panels[at].key, key) {
                proof {
                    assert((is_panel(*key))(models[at as int]));
                    lemma_first_index_found(models, is_panel(*key), at as int);
                }
                return Some(at);
            }
            proof {
                assert(models[at as int] == self.panels@[at as int]@);
            }
            at = at + 1;
        }
        proof {
            lemma_first_index_none(models, is_panel(*key));
        }
        None
    }

    /// Takes the panel `key` out of the registry, and returns the buffer that
    /// it was drawn into.
    pub fn unmount(&mut self, key: &PanelKey) -> (buffer: Option<BufferId>)
        ensures
            final(self)@ == old(self)@.unmounted(*key),
            buffer == (match first_index(old(self)@.panels, is_panel(*key)) {
                Some(i) => Some(old(self)@.panels[i].buffer_id),
                None => None,
            }),
    {
        let ghost before = self@;
        match self.find_panel(key) {
            Some(at) => {
                let panel = self.panels.remove(at);
                proof {
                    assert(self@.panels =~= before.panels.remove(at as int));
                }
                Some(panel.buffer_id)
            },
            None => None,
        }
    }

    /// Puts a rendered panel into the registry.
    pub fn mount(&mut self, key: PanelKey, buffer_id: BufferId, rendered: RenderedPanel)
        ensures
            final(self)@ == old(self)@.mounted(
                key,
                (PanelModel {
                    plugin: key.plugin@,
                    panel_id: key.panel_id,
                    buffer_id,
                    widgets: crate::widgets::widget_models(rendered.widgets@),
                    states: crate::widgets::state_models(rendered.states@),
                    focus_key: rendered.focus_key@,
                }),
            ),
    {
        let ghost before = self@;
        let at = self.find_panel(&key);
        let panel = Panel {
            key,
            buffer_id,
            widgets: rendered.widgets,
            states: rendered.states,
            focus_key: rendered.focus_key,
        };
        let ghost made = panel@;
        match at {
            Some(at) => {
                self.panels.set(at, panel);
                proof {
                    assert(self@.panels =~= before.panels.update(at as int, made));
                }
            },
            None => {
                self.panels.push(panel);
                proof {
                    assert(self@.panels =~= before.panels.push(made));
                }
            },
        }
    }

    /// Replaces what a mounted panel shows. Returns its buffer, or none where
    /// the panel is not mounted.
    pub fn update(&mut self, key: &PanelKey, rendered: RenderedPanel) -> (buffer: Option<BufferId>)
        ensures
            match first_index(old(self)@.panels, is_panel(*key)) {
                Some(i) => {
                    let before = old(self)@.panels[i];
                    &&& buffer == Some(before.buffer_id)
                    &&& final(self)@ == (PanelHostModel {
                        panels: old(self)@.panels.update(
                            i,
                            PanelModel {
                                widgets: crate::widgets::widget_models(rendered.widgets@),
                                states: crate::widgets::state_models(rendered.states@),
                                focus_key: rendered.focus_key@,
                                ..before
                            },
                        ),
                        ..old(self)@
                    })
                },
                None => buffer is None && final(self)@ == old(self)@,
            },
    {
        let ghost before = self@;
        match self.find_panel(key) {
            Some(at) => {
                self.panels[at].widgets = rendered.widgets;
                self.panels[at].states = rendered.states;
                self.panels[at].focus_key = rendered.focus_key;
                proof {
                    assert(self@.panels =~= before.panels.update(at as int, self.panels@[at as int]@));
                }
                Some(self.panels[at].buffer_id)
            },
            None => None,
        }
    }

    /// Applies a targeted change to a mounted panel. Returns whether the panel
    /// is mounted, and is then to be drawn again.
    pub fn handle_widget_mutate(&mut self, key: &PanelKey, mutation: WidgetMutation) -> (mounted:
        bool)
        ensures
            match first_index(old(self)@.panels, is_panel(*key)) {
                Some(i) => mounted && final(self)@ == (PanelHostModel {
                    panels: old(self)@.panels.update(i, old(self)@.panels[i].mutated(mutation)),
                    ..old(self)@
                }),
                None => !mounted && final(self)@ == old(self)@,
            },
    {
        let ghost before = self@;
        match self.find_panel(key) {
            Some(at) => {
                self.panels[at].mutate(mutation);
                proof {
                    assert(self@.panels =~= before.panels.update(
                        at as int,
                        before.panels[at as int].mutated(mutation),
                    ));
                }
                true
            },
            None => false,
        }
    }

    /// The slot of the floating panel with the key `key`.
    pub fn slot_of_panel(&self, key: &PanelKey) -> (slot: Option<PanelSlot>)
        ensures
            slot == self@.slot_of(*key),
    {
        if let Some(dock) = &self.dock {
            if keys_match(&dock.key, key) {
                return Some(PanelSlot::Dock);
            }
        }
        if let Some(floating) = &self.floating {
            if keys_match(&floating.key, key) {
                return Some(PanelSlot::Floating);
            }
        }
        None
    }

    /// Begins to mount a floating panel. Returns its slot, and whether the
    /// dock loses the keyboard to it.
    pub fn begin_mount_floating(
        &mut self,
        key: &PanelKey,
        options: FloatingOptions,
        screen_width: u16,
    ) -> (begun: (PanelSlot, bool))
        ensures
            begun.0 == if options.as_dock {
                PanelSlot::Dock
            } else {
                PanelSlot::Floating
            },
            begun.1 == (!options.as_dock && old(self).dock is Some && old(self).dock->0.focused),
            final(self)@.in_slot(begun.0) is Some,
            is_mounted_panel(
                final(self)@.in_slot(begun.0)->0,
                old(self)@,
                *key,
                options,
                screen_width,
            ),
            final(self)@ == old(self)@.mount_begun(*key, options, screen_width).with_slot(
                begun.0,
                final(self)@.in_slot(begun.0),
            ),
    {
        let ghost before = self@;
        let slot = if options.as_dock {
            PanelSlot::Dock
        } else {
            PanelSlot::Floating
        };
        let mut blur_dock = false;
        if !options.as_dock {
            if let Some(mut dock) = self.dock.take() {
                if dock.focused {
                    blur_dock = true;
                    dock.focused = false;
                }
                self.dock = Some(dock);
            }
        }
        let placement = if options.as_dock {
            let width: u16 = match self.dock_width {
                Some(width) => width,
                None => 32,
            };
            PanelPlacement::LeftDock { width_cols: bounded_dock_width(width, screen_width) }
        } else {
            PanelPlacement::Centered
        };
        let existing = if options.as_dock {
            self.dock.take()
        } else {
            self.floating.take()
        };
        if let Some(existing) = existing {
            if !keys_match(&existing.key, key) {
                self.unmount(&existing.key);
            }
        }
        let panel = FloatingPanel {
            key: PanelKey { plugin: key.plugin.clone(), panel_id: key.panel_id },
            width_pct: bounded_percent(options.width_pct),
            height_pct: bounded_percent(options.height_pct),
            placement,
            focused: !options.start_blurred,
            fullscreen: false,
            focus_marker: options.focus_marker,
            title: if options.as_dock {
                None
            } else {
                options.title
            },
            closable: !options.as_dock && options.closable,
            hovered_widget_key: String::new(),
        };
        if options.as_dock {
            self.dock = Some(panel);
        } else {
            self.floating = Some(panel);
        }
        (slot, blur_dock)
    }

    /// Takes a floating panel off the screen. Returns the slot that it was in.
    pub fn handle_unmount_floating_widget(&mut self, key: &PanelKey) -> (slot: Option<PanelSlot>)
        ensures
            slot == old(self)@.slot_of(*key),
            final(self)@ == match slot {
                Some(slot) => old(self)@.with_slot(slot, None).unmounted(*key),
                None => old(self)@,
            },
    {
        let slot = self.slot_of_panel(key);
        match slot {
            Some(PanelSlot::Dock) => {
                self.dock = None;
                self.unmount(key);
            },
            Some(PanelSlot::Floating) => {
                self.floating = None;
                self.unmount(key);
            },
            None => {},
        }
        slot
    }

    /// Applies an operation to a floating panel.
    pub fn handle_floating_panel_control(
        &mut self,
        key: &PanelKey,
        op: &str,
        arg: PanelArgument,
        screen_width: u16,
    ) -> (outcome: ControlOutcome)
        ensures
            match old(self)@.slot_of(*key) {
                None => outcome == ControlOutcome::Ignored && final(self)@ == old(self)@,
                Some(slot) => if op@ == "blur"@ {
                    outcome == ControlOutcome::Blur(slot) && final(self)@ == old(self)@
                } else {
                    match old(self)@.controlled(
                        old(self)@.in_slot(slot)->0,
                        op@,
                        arg,
                        screen_width,
                    ) {
                        Some((panel, relayout)) => {
                            &&& outcome == (ControlOutcome::Changed { relayout })
                            &&& final(self)@ == old(self)@.with_slot(slot, Some(panel))
                        },
                        None => outcome == ControlOutcome::Ignored && final(self)@ == old(self)@,
                    }
                },
            },
    {
        let slot = match self.slot_of_panel(key) {
            Some(slot) => slot,
            None => {
                return ControlOutcome::Ignored;
            },
        };
        if same_text(op, "blur") {
            return ControlOutcome::Blur(slot);
        }
        let wanted: u16 = match self.dock_width {
            Some(width) => width,
            None => arg.columns,
        };
        let width_cols = bounded_dock_width(wanted, screen_width);
        let taken = match slot {
            PanelSlot::Dock => self.dock.take(),
            PanelSlot::Floating => self.floating.take(),
        };
        let mut panel = match taken {
            Some(panel) => panel,
            None => {
                return ControlOutcome::Ignored;
            },
        };
        let mut outcome = ControlOutcome::Changed { relayout: false };
        if same_text(op, "dock") {
            panel.placement = PanelPlacement::LeftDock { width_cols };
            panel.focused = true;
            outcome = ControlOutcome::Changed { relayout: true };
        } else if same_text(op, "dock_width") {
            if let PanelPlacement::LeftDock { .. } = panel.placement {
                panel.placement = PanelPlacement::LeftDock { width_cols };
                outcome = ControlOutcome::Changed { relayout: true };
            }
        } else if same_text(op, "center") {
            panel.placement = PanelPlacement::Centered;
            panel.focused = true;
            outcome = ControlOutcome::Changed { relayout: true };
        } else if same_text(op, "anchor") {
            let x: u64 = arg.packed_cell % 0x1_0000;
            let y: u64 = (arg.packed_cell / 0x1_0000) % 0x1_0000;
            panel.placement = PanelPlacement::Anchored { x: x as u16, y: y as u16 };
            panel.focused = true;
            panel.fullscreen = false;
        } else if same_text(op, "focus") {
            panel.focused = true;
        } else if same_text(op, "fullscreen") {
            panel.fullscreen = arg.nonzero;
        } else {
            outcome = ControlOutcome::Ignored;
        }
        match slot {
            PanelSlot::Dock => {
                self.dock = Some(panel);
            },
            PanelSlot::Floating => {
                self.floating = Some(panel);
            },
        }
        outcome
    }
}

/// The panel that is found under a key has that key.
pub proof fn lemma_first_panel_has_key(panels: Seq<PanelModel>, key: PanelKey)
    requires
        first_index(panels, is_panel(key)) is Some,
    ensures
        ({
            let at = first_index(panels, is_panel(key))->0;
            &&& 0 <= at < panels.len()
            &&& panels[at].plugin == key.plugin@
            &&& panels[at].panel_id == key.panel_id
        }),
    decreases panels.len(),
{
    if !is_panel(key)(panels[0]) {
        lemma_first_panel_has_key(panels.drop_first(), key);
        let at = first_index(panels.drop_first(), is_panel(key))->0;
        assert(panels.drop_first()[at] == panels[at + 1]);
    }
}

} // verus!
