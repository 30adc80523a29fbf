//! Commands on widget panels, in buffers and floating.
use vstd::prelude::*;

use crate::command::PanelArgument;
use crate::command::Payload;
use crate::documents::BufferState;
use crate::documents::DisplayFlags;
use crate::editor::Editor;
use crate::editor::EditorModel;
use crate::effects::Effect;
use crate::floating::is_mounted_panel;
use crate::floating::is_panel;
use crate::floating::ControlOutcome;
use crate::floating::FloatingOptions;
use crate::floating::FloatingPanel;
use crate::floating::PanelHostModel;
use crate::floating::PanelSlot;
use crate::floating::RenderedPanel;
use crate::ids::BufferId;
use crate::lists::first_index;
use crate::widgets::state_models;
use crate::widgets::widget_models;
use crate::widgets::PanelKey;
use crate::widgets::PanelModel;
use crate::widgets::WidgetMutation;

verus! {

/// A panel as it was drawn.
pub open spec fn drawn_panel(
    key: PanelKey,
    buffer: BufferId,
    rendered: RenderedPanel,
) -> PanelModel {
    PanelModel {
        plugin: key.plugin@,
        panel_id: key.panel_id,
        buffer_id: buffer,
        widgets: widget_models(rendered.widgets@),
        states: state_models(rendered.states@),
        focus_key: rendered.focus_key@,
    }
}

impl EditorModel {
    /// This editor with other panels.
    pub open spec fn with_panels(self, panels: PanelHostModel) -> EditorModel {
        EditorModel { panels, ..self }
    }

    /// The buffer that a mounted panel is drawn into.
    pub open spec fn buffer_of_panel(self, key: PanelKey) -> Option<BufferId> {
        match first_index(self.panels.panels, is_panel(key)) {
            Some(i) => Some(self.panels.panels[i].buffer_id),
            None => None,
        }
    }

    /// This editor with what a mounted panel shows replaced.
    pub open spec fn panel_redrawn(self, key: PanelKey, rendered: RenderedPanel) -> EditorModel {
        match first_index(self.panels.panels, is_panel(key)) {
            Some(i) => self.with_panels(
                PanelHostModel {
                    panels: self.panels.panels.update(
                        i,
                        drawn_panel(
                            key,
                            self.panels.panels[i].buffer_id,
                            rendered,
                        ),
                    ),
                    ..self.panels
                },
            ),
            None => self,
        }
    }

    /// This editor with a buffer of the active window that takes the keys of
    /// a panel.
    pub open spec fn hosting(self, buffer: BufferId) -> EditorModel {
        if self.has_active() && self.active().documents.buffers.contains_key(buffer.0) {
            let state = self.active().documents.buffers[buffer.0];
            self.with_buffer(
                self.active_window,
                buffer,
                BufferState {
                    flags: DisplayFlags { interactive_widget_panel: true, ..state.flags },
                    ..state
                },
            )
        } else {
            self
        }
    }

    /// Whether `after` is this editor once a floating panel was to be mounted.
    /// A modal panel ends the mouse gestures of what it covers.
    pub open spec fn is_floating_mounting(
        self,
        key: PanelKey,
        options: FloatingOptions,
        spec: Payload,
        after: EditorModel,
    ) -> bool {
        exists|panel: FloatingPanel| #[trigger]
            is_mounted_panel(
                panel,
                self.panels,
                key,
                options,
                self.config.terminal_width,
            ) && after == self.floating_mounted(key, options, spec, panel)
    }

    /// This editor with `panel` mounted under `key`.
    pub open spec fn floating_mounted(
        self,
        key: PanelKey,
        options: FloatingOptions,
        spec: Payload,
        panel: FloatingPanel,
    ) -> EditorModel {
        let slot = if options.as_dock {
            PanelSlot::Dock
        } else {
            PanelSlot::Floating
        };
        let quiet = if options.as_dock {
            self
        } else {
            self.gestures_cancelled()
        };
        let mounted = quiet.with_panels(
            self.panels.mount_begun(key, options, self.config.terminal_width).with_slot(
                slot,
                Some(panel),
            ),
        );
        let blurred = if !options.as_dock && self.panels.dock is Some
            && self.panels.dock->0.focused {
            mounted.emitting(Effect::BlurPanel { slot: PanelSlot::Dock })
        } else {
            mounted
        };
        let drawn = blurred.emitting(
            Effect::DrawFloatingPanel { panel: key, slot, spec, fresh: true },
        );
        if options.as_dock {
            drawn.emitting(Effect::Relayout)
        } else {
            drawn
        }
    }

    /// This editor without a floating panel. The space of the dock is drawn
    /// anew.
    pub open spec fn floating_unmounted(self, key: PanelKey) -> EditorModel {
        match self.panels.slot_of(key) {
            Some(slot) => {
                let gone = self.with_panels(self.panels.with_slot(slot, None).unmounted(key));
                let cleared = if slot is Dock {
                    gone.emitting(Effect::FullRedraw)
                } else {
                    gone
                };
                cleared.emitting(Effect::Relayout)
            },
            None => self,
        }
    }

    /// This editor with an operation applied to a floating panel.
    pub open spec fn floating_controlled(
        self,
        key: PanelKey,
        op: Seq<char>,
        arg: PanelArgument,
    ) -> EditorModel {
        match self.panels.slot_of(key) {
            None => self,
            Some(slot) => if op == "blur"@ {
                self.emitting(Effect::BlurPanel { slot })
            } else {
                match self.panels.controlled(
                    self.panels.in_slot(slot)->0,
                    op,
                    arg,
                    self.config.terminal_width,
                ) {
                    Some((panel, relayout)) => {
                        let changed = self.with_panels(self.panels.with_slot(slot, Some(panel)));
                        if relayout {
                            changed.emitting(Effect::Relayout)
                        } else {
                            changed
                        }
                    },
                    None => self,
                }
            },
        }
    }

    /// This editor with a targeted change made to a panel.
    pub open spec fn panel_mutated(self, key: PanelKey, mutation: WidgetMutation) -> EditorModel {
        match first_index(self.panels.panels, is_panel(key)) {
            Some(i) => self.with_panels(
                PanelHostModel {
                    panels: self.panels.panels.update(
                        i,
                        self.panels.panels[i].mutated(mutation),
                    ),
                    ..self.panels
                },
            ).emitting(Effect::RenderPanel { panel: key }),
            None => self,
        }
    }
}

impl Editor {
    /// Asks for a panel in a buffer. It starts from scratch, also where it is
    /// mounted already.
    pub fn handle_mount_widget_panel(&mut self, panel: PanelKey, buffer: BufferId, spec: Payload)
        ensures
            final(self)@ == old(self)@.emitting(
                Effect::DrawWidgetPanel { panel, buffer, spec, fresh: true },
            ),
    {
        self.emit(Effect::DrawWidgetPanel { panel, buffer, spec, fresh: true });
    }

    /// Mounts a panel that was drawn into a buffer, which then takes its keys.
    pub fn widget_panel_drawn(
        &mut self,
        key: PanelKey,
        buffer: BufferId,
        rendered: RenderedPanel,
        entries: Payload,
    )
        ensures
            final(self)@ == old(self)@.with_panels(
                old(self)@.panels.mounted(key, drawn_panel(key, buffer, rendered)),
            ).hosting(buffer).emitting(Effect::SetVirtualContent { buffer, entries }).emitting(
                Effect::FocusPanelCursor { buffer },
            ),
    {
        self.panels.mount(key, buffer, rendered);
        let ghost mounted = self@;
        let id = self.active_window;
        if let Some(mut window) = self.take_window(id) {
            let ghost buffers = window.documents.buffers@;
            match window.documents.buffers.remove(&buffer.0) {
                Some(mut state) => {
                    state.flags.interactive_widget_panel = true;
                    let ghost made = state;
                    window.documents.buffers.insert(buffer.0, state);
                    proof {
                        assert(buffers.remove(buffer.0).insert(buffer.0, made) =~= buffers.insert(
                            buffer.0,
                            made,
                        ));
                    }
                },
                None => {
                    proof {
                        assert(buffers.remove(buffer.0) =~= buffers);
                        assert(mounted.with_window(id, mounted.window(id)).windows
                            =~= mounted.windows);
                    }
                },
            }
            self.put_back(id, window, Ghost(mounted));
        }
        self.emit(Effect::SetVirtualContent { buffer, entries });
        self.emit(Effect::FocusPanelCursor { buffer });
    }

    /// Asks for another description of a panel to be drawn, where the panel is
    /// mounted.
    pub fn handle_update_widget_panel(&mut self, panel: PanelKey, spec: Payload)
        ensures
            final(self)@ == old(self)@.panel_updating(panel, spec),
    {
        let buffer = match self.panels.find_panel(&panel) {
            Some(at) => self.panels.panels[at].buffer_id,
            None => {
                return ;
            },
        };
        self.emit(Effect::DrawWidgetPanel { panel, buffer, spec, fresh: false });
    }

    /// Shows what was drawn in a panel that is mounted.
    pub fn widget_panel_redrawn(&mut self, key: &PanelKey, rendered: RenderedPanel, entries: Payload)
        ensures
            final(self)@ == match old(self)@.buffer_of_panel(*key) {
                Some(buffer) => old(self)@.panel_redrawn(*key, rendered).emitting(
                    Effect::SetVirtualContent { buffer, entries },
                ).emitting(Effect::FocusPanelCursor { buffer }),
                None => old(self)@,
            },
    {
        let ghost before = self@;
        if let Some(buffer) = self.panels.update(key, rendered) {
            proof {
                crate::floating::lemma_first_panel_has_key(before.panels.panels, *key);
            }
            self.emit(Effect::SetVirtualContent { buffer, entries });
            self.emit(Effect::FocusPanelCursor { buffer });
        }
    }

    /// Forgets a panel. Its buffer is the plugin's own.
    pub fn handle_unmount_widget_panel(&mut self, key: &PanelKey)
        ensures
            final(self)@ == old(self)@.with_panels(old(self)@.panels.unmounted(*key)),
    {
        self.panels.unmount(key);
    }

    /// Makes a targeted change to a panel, and draws it again.
    pub fn handle_widget_mutate(&mut self, key: PanelKey, mutation: WidgetMutation)
        ensures
            final(self)@ == old(self)@.panel_mutated(key, mutation),
    {
        if self.panels.handle_widget_mutate(&key, mutation) {
            self.emit(Effect::RenderPanel { panel: key });
        }
    }

    /// Mounts a floating panel, which is drawn next.
    pub fn handle_mount_floating_widget(
        &mut self,
        key: PanelKey,
        options: FloatingOptions,
        spec: Payload,
    )
        ensures
            old(self)@.is_floating_mounting(key, options, spec, final(self)@),
    {
        let ghost before = self@;
        let as_dock = options.as_dock;
        let width = self.config.terminal_width;
        if !as_dock {
            self.cancel_active_mouse_gesture();
        }
        let (slot, blur_dock) = self.panels.begin_mount_floating(&key, options, width);
        let ghost panel = self@.panels.in_slot(slot)->0;
        if blur_dock {
            self.emit(Effect::BlurPanel { slot: PanelSlot::Dock });
        }
        self.emit(Effect::DrawFloatingPanel { panel: key, slot, spec, fresh: true });
        if as_dock {
            self.emit(Effect::Relayout);
        }
        proof {
            assert(is_mounted_panel(panel, before.panels, key, options, width));
            assert(self@ == before.floating_mounted(key, options, spec, panel));
        }
    }

    /// Puts a floating panel that was drawn into the registry.
    pub fn floating_panel_drawn(&mut self, key: PanelKey, buffer: BufferId, rendered: RenderedPanel)
        ensures
            final(self)@ == old(self)@.with_panels(
                old(self)@.panels.mounted(key, drawn_panel(key, buffer, rendered)),
            ),
    {
        self.panels.mount(key, buffer, rendered);
    }

    /// Asks for another description of a floating panel to be drawn, where it
    /// is there.
    pub fn handle_update_floating_widget(&mut self, panel: PanelKey, spec: Payload)
        ensures
            final(self)@ == old(self)@.floating_updating(panel, spec),
    {
        if let Some(slot) = self.panels.slot_of_panel(&panel) {
            self.emit(Effect::DrawFloatingPanel { panel, slot, spec, fresh: false });
        }
    }

    /// Shows what was drawn in a floating panel. Returns whether the panel is
    /// in the registry.
    pub fn floating_panel_redrawn(&mut self, key: &PanelKey, rendered: RenderedPanel) -> (shown: bool)
        ensures
            shown == (old(self)@.buffer_of_panel(*key) is Some),
            final(self)@ == old(self)@.panel_redrawn(*key, rendered),
    {
        let ghost before = self@;
        let shown = self.panels.update(key, rendered).is_some();
        proof {
            if shown {
                crate::floating::lemma_first_panel_has_key(before.panels.panels, *key);
            }
        }
        shown
    }

    /// Takes a floating panel off the screen.
    pub fn handle_unmount_floating_widget(&mut self, key: &PanelKey)
        ensures
            final(self)@ == old(self)@.floating_unmounted(*key),
    {
        if let Some(slot) = self.panels.handle_unmount_floating_widget(key) {
            if slot == PanelSlot::Dock {
                self.emit(Effect::FullRedraw);
            }
            self.emit(Effect::Relayout);
        }
    }

    /// Applies an operation to a floating panel.
    pub fn handle_floating_panel_control(&mut self, key: &PanelKey, op: &str, arg: PanelArgument)
        ensures
            final(self)@ == old(self)@.floating_controlled(*key, op@, arg),
    {
        let width = self.config.terminal_width;
        match self.panels.handle_floating_panel_control(key, op, arg, width) {
            ControlOutcome::Ignored => {},
            ControlOutcome::Blur(slot) => {
                self.emit(Effect::BlurPanel { slot });
            },
            ControlOutcome::Changed { relayout } => {
                if relayout {
                    self.emit(Effect::Relayout);
                }
            },
        }
    }
}

impl EditorModel {
    /// This editor once another description of a panel was to be drawn.
    pub open spec fn panel_updating(self, panel: PanelKey, spec: Payload) -> EditorModel {
        match self.buffer_of_panel(panel) {
            Some(buffer) => self.emitting(
                Effect::DrawWidgetPanel { panel, buffer, spec, fresh: false },
            ),
            None => self,
        }
    }

    /// This editor once another description of a floating panel was to be drawn.
    pub open spec fn floating_updating(self, panel: PanelKey, spec: Payload) -> EditorModel {
        match self.panels.slot_of(panel) {
            Some(slot) => self.emitting(
                Effect::DrawFloatingPanel { panel, slot, spec, fresh: false },
            ),
            None => self,
        }
    }
}

} // verus!
