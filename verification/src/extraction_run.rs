//! The last part of an extraction: what was moved is put on record, and the
//! new window is shown, or everything is taken back.
use vstd::prelude::*;

use crate::artifacts::follow_path;
use crate::artifacts::paths_match;
use crate::artifacts::relocated;
use crate::artifacts::same_path;
use crate::artifacts::Relocation;
use crate::artifacts::SavedTerminal;
use crate::editor::Editor;
use crate::editor::EditorModel;
use crate::effects::Effect;
use crate::extraction::ExtractionPlan;
use crate::ids::BufferId;
use crate::ids::WindowId;
use crate::lists::first_match;
use crate::lists::lemma_first_match_found;
use crate::lists::lemma_first_match_none;
use crate::notice::LocalizedMessage;
use crate::notice::Notice;
use crate::window::layout_model;

verus! {

/// How the extraction of a terminal ended.
#[derive(Clone, Copy, Debug, PartialEq, Eq, Structural)]
pub enum ExtractionOutcome {
    /// Everything is on record.
    Complete,
    /// The terminal has moved, and its records wait for a recovery.
    Pending,
    /// The terminal is back where it was.
    RolledBack,
}

/// What the host does next to put a moved terminal on record.
#[derive(Clone, Copy, Debug, PartialEq, Eq, Structural)]
pub enum ExtractionStep {
    /// Save the source window without the terminal.
    SaveSource,
    /// Move the files that the source window named until then.
    FinishArtifacts,
    /// Mark the journal as committed.
    CommitJournal,
    /// Bring everything back, as [`crate::extraction_steps::RollbackStep`] says.
    RollBack,
    /// Save the target window with the terminal.
    SaveTarget,
    /// Drop the journal. Whether that works does not matter.
    ClearJournal,
    /// There is nothing left to do.
    Finished(ExtractionOutcome),
}

impl ExtractionStep {
    /// The step after this one, by whether this one worked.
    pub open spec fn after(self, worked: bool) -> ExtractionStep {
        match (self, worked) {
            (ExtractionStep::SaveSource, true) => ExtractionStep::FinishArtifacts,
            (ExtractionStep::FinishArtifacts, true) => ExtractionStep::CommitJournal,
            (ExtractionStep::CommitJournal, true) => ExtractionStep::SaveTarget,
            (ExtractionStep::RollBack, true) => ExtractionStep::Finished(
                ExtractionOutcome::RolledBack,
            ),
            (ExtractionStep::SaveTarget, true) => ExtractionStep::ClearJournal,
            (ExtractionStep::ClearJournal, _) => ExtractionStep::Finished(
                ExtractionOutcome::Complete,
            ),
            (ExtractionStep::RollBack, false) | (ExtractionStep::SaveTarget, false) =>
                ExtractionStep::Finished(ExtractionOutcome::Pending),
            (ExtractionStep::Finished(outcome), _) => ExtractionStep::Finished(outcome),
            (_, false) => ExtractionStep::RollBack,
        }
    }

    /// The step that begins to put a moved terminal on record.
    pub fn start() -> (step: ExtractionStep)
        ensures
            step == ExtractionStep::SaveSource,
    {
        ExtractionStep::SaveSource
    }

    /// The step after this one, by whether this one worked.
    pub fn next(self, worked: bool) -> (step: ExtractionStep)
        ensures
            step == self.after(worked),
    {
        match self {
            ExtractionStep::SaveSource => if worked {
                ExtractionStep::FinishArtifacts
            } else {
                ExtractionStep::RollBack
            },
            ExtractionStep::FinishArtifacts => if worked {
                ExtractionStep::CommitJournal
            } else {
                ExtractionStep::RollBack
            },
            ExtractionStep::CommitJournal => if worked {
                ExtractionStep::SaveTarget
            } else {
                ExtractionStep::RollBack
            },
            ExtractionStep::RollBack => if worked {
                ExtractionStep::Finished(ExtractionOutcome::RolledBack)
            } else {
                ExtractionStep::Finished(ExtractionOutcome::Pending)
            },
            ExtractionStep::SaveTarget => if worked {
                ExtractionStep::ClearJournal
            } else {
                ExtractionStep::Finished(ExtractionOutcome::Pending)
            },
            ExtractionStep::ClearJournal => ExtractionStep::Finished(ExtractionOutcome::Complete),
            ExtractionStep::Finished(outcome) => ExtractionStep::Finished(outcome),
        }
    }
}

/// The history file of a saved terminal once its files have moved.
pub open spec fn moved_history(relocations: Seq<Relocation>, saved: SavedTerminal) -> Option<String> {
    match saved.history_path {
        Some(path) => relocated(relocations, path@),
        None => None,
    }
}

/// Whether a saved terminal became the one whose history file is `history`.
pub open spec fn becomes(relocations: Seq<Relocation>, history: Option<String>) -> spec_fn(
    SavedTerminal,
) -> bool {
    |saved: SavedTerminal| same_path(moved_history(relocations, saved), history)
}

/// A terminal of the target window as it is saved: one that came from the
/// source window keeps its checkpoint, which has moved.
pub open spec fn carried(
    target: SavedTerminal,
    source: Seq<SavedTerminal>,
    relocations: Seq<Relocation>,
) -> SavedTerminal {
    match first_match(source, becomes(relocations, target.history_path)) {
        Some(saved) => SavedTerminal {
            backing_history_end: saved.backing_history_end,
            checkpoint_generation: saved.checkpoint_generation,
            backing_path: if saved.checkpoint_generation is Some {
                relocated(relocations, saved.backing_path@)->0
            } else {
                target.backing_path
            },
            ..target
        },
        None => target,
    }
}

/// Whether the checkpoint that a terminal of the target window keeps, if it
/// keeps one, is among the files that move.
pub open spec fn checkpoint_moves(
    target: SavedTerminal,
    source: Seq<SavedTerminal>,
    relocations: Seq<Relocation>,
) -> bool {
    match first_match(source, becomes(relocations, target.history_path)) {
        Some(saved) => saved.checkpoint_generation is Some ==> relocated(
            relocations,
            saved.backing_path@,
        ) is Some,
        None => true,
    }
}

/// The place of the saved terminal that became the one with the history file
/// `history`.
fn find_origin(
    source: &Vec<SavedTerminal>,
    relocations: &Vec<Relocation>,
    history: &Option<String>,
) -> (origin: Option<usize>)
    ensures
        match origin {
            Some(at) => at < source@.len() && first_match(
                source@,
                becomes(relocations@, *history),
            ) == Some(source@[at as int]),
            None => first_match(source@, becomes(relocations@, *history)) is None,
        },
{
    let ghost wanted = becomes(relocations@, *history);
    let mut at: usize = 0;
    while at < source.len()
        invariant
            at <= source.len(),
            wanted == becomes(relocations@, *history),
            forall|i: int| 0 <= i < at ==> !wanted(#[trigger] source@[i]),
        decreases source.len() - at,
    {
        let moved = match &source[at].history_path {
            Some(path) => follow_path(relocations, path.as_str(), true),
            None => None,
        };
        if paths_match(&moved, history) {
            proof {
                lemma_first_match_found(source@, wanted, at as int);
            }
            return Some(at);
        }
        at = at + 1;
    }
    proof {
        lemma_first_match_none(source@, wanted);
    }
    None
}

/// Whether the checkpoint that a terminal of the target window keeps, if it
/// keeps one, is among the files that move.
pub fn moves_checkpoint(
    target: &SavedTerminal,
    source: &Vec<SavedTerminal>,
    relocations: &Vec<Relocation>,
) -> (moves: bool)
    ensures
        moves == checkpoint_moves(*target, source@, relocations@),
{
    match find_origin(source, relocations, &target.history_path) {
        Some(at) => source[at].checkpoint_generation.is_none() || follow_path(
            relocations,
            source[at].backing_path.as_str(),
            true,
        ).is_some(),
        None => true,
    }
}

/// Lets the terminals of a target window keep the checkpoints that they had in
/// the source window.
pub fn carry_checkpoint(
    target: SavedTerminal,
    source: &Vec<SavedTerminal>,
    relocations: &Vec<Relocation>,
) -> (saved: SavedTerminal)
    requires
        checkpoint_moves(target, source@, relocations@),
    ensures
        saved == carried(target, source@, relocations@),
{
    let origin = match find_origin(source, relocations, &target.history_path) {
        Some(at) => &source[at],
        None => {
            return target;
        },
    };
    let backing_path = if origin.checkpoint_generation.is_some() {
        match follow_path(relocations, origin.backing_path.as_str(), true) {
            Some(path) => path,
            None => target.backing_path,
        }
    } else {
        target.backing_path
    };
    SavedTerminal {
        history_path: target.history_path,
        backing_path,
        log_path: target.log_path,
        backing_history_end: origin.backing_history_end,
        checkpoint_generation: origin.checkpoint_generation.clone(),
    }
}

/// The name of a terminal's tab: the one that it is shown with, else that of
/// its file.
pub open spec fn tab_name(shown: Option<Seq<char>>, file_name: Option<Seq<char>>) -> Seq<char> {
    match (shown, file_name) {
        (Some(name), _) => name,
        (None, Some(name)) => name,
        (None, None) => "[No Name]"@,
    }
}

/// Whether `after` is `before` with the window `target` shown, `buffer` in it,
/// and the user told that the tab was moved.
pub open spec fn is_shown_moved(
    before: EditorModel,
    target: WindowId,
    buffer: BufferId,
    name: String,
    terminal: bool,
    after: EditorModel,
) -> bool {
    exists|label: String|
        {
            &&& label@ == (if before.has(target) {
                before.window(target).label
            } else {
                Seq::empty()
            })
            &&& after == #[trigger] before.moved_shown(
                target,
                buffer,
                terminal,
                Notice::Localized(LocalizedMessage::ExtractedTab { name, label }),
            )
        }
}

impl EditorModel {
    /// This editor with the active window's status set.
    pub open spec fn telling(self, notice: Notice) -> EditorModel {
        if self.has_active() {
            self.with_active(self.active().with_status(Some(notice)))
        } else {
            self
        }
    }

    /// This editor with a moved tab shown in its new window.
    pub open spec fn moved_shown(
        self,
        target: WindowId,
        buffer: BufferId,
        terminal: bool,
        notice: Notice,
    ) -> EditorModel {
        let shown = self.showing(target).emitting(Effect::SetActiveBuffer { buffer });
        if terminal {
            shown.emitting(Effect::SyncTerminalMode).emitting(Effect::ResizeTerminals).telling(
                notice,
            )
        } else {
            shown.telling(notice)
        }
    }
}

impl Editor {
    /// Sets the status of the active window.
    pub(crate) fn tell(&mut self, notice: Notice)
        ensures
            final(self)@ == old(self)@.telling(notice),
    {
        let id = self.active_window;
        let ghost before = self@;
        if let Some(mut window) = self.take_window(id) {
            window.set_status_message(notice);
            let ghost made = window@;
            self.put_window(id, window);
            proof {
                assert(before.without_window(id).with_window(id, made).windows
                    =~= before.with_window(id, made).windows);
            }
        }
    }

    /// The name of a terminal's tab, where its file has the name `file_name`.
    pub fn terminal_tab_name(&self, window: WindowId, buffer: BufferId, file_name: Option<String>) -> (name:
        String)
        ensures
            name@ == tab_name(
                if self@.has(window) && self@.window(window).documents.metadata.contains_key(
                    buffer.0,
                ) {
                    Some(self@.window(window).documents.metadata[buffer.0].display_name@)
                } else {
                    None
                },
                match file_name {
                    Some(name) => Some(name@),
                    None => None,
                },
            ),
    {
        if let Some(window) = self.windows.get(&window.0) {
            if let Some(metadata) = window.documents.metadata.get(&buffer.0) {
                return metadata.display_name.clone();
            }
        }
        match file_name {
            Some(name) => name,
            None => "[No Name]".to_string(),
        }
    }

    /// The label of a window, which is empty where there is none.
    fn label_of(&self, id: WindowId) -> (label: String)
        ensures
            label@ == (if self@.has(id) {
                self@.window(id).label
            } else {
                Seq::empty()
            }),
    {
        match self.windows.get(&id.0) {
            Some(window) => window.label.clone(),
            None => String::new(),
        }
    }

    /// Shows a moved tab in its new window.
    fn show_moved(&mut self, target: WindowId, buffer: BufferId, terminal: bool, notice: Notice)
        requires
            old(self)@.has_active(),
        ensures
            final(self)@ == old(self)@.moved_shown(target, buffer, terminal, notice),
    {
        self.set_active_window(target);
        self.emit(Effect::SetActiveBuffer { buffer });
        if terminal {
            self.emit(Effect::SyncTerminalMode);
            self.emit(Effect::ResizeTerminals);
        }
        self.tell(notice);
    }

    /// Ends the move of a file's tab, once both windows were saved or one of
    /// them could not be. In that case the tab goes back.
    pub fn finish_tab_extraction(&mut self, plan: ExtractionPlan, published: bool, name: String)
        requires
            old(self)@.has_active(),
        ensures
            published ==> is_shown_moved(
                old(self)@,
                plan.target,
                plan.buffer,
                name,
                false,
                final(self)@,
            ),
            !published ==> final(self)@ == old(self)@.membership_restored(
                plan.source,
                plan.target,
                plan.buffer,
                plan.buffers@,
                layout_model(plan.layout),
            ).emitting(Effect::RepublishSource { window: plan.source }).extraction_discarded(
                plan.target,
            ),
    {
        if !published {
            self.roll_back_tab_extraction(plan);
            return ;
        }
        let label = self.label_of(plan.target);
        let ghost before = self@;
        let ghost shown_label = label;
        self.show_moved(
            plan.target,
            plan.buffer,
            false,
            Notice::Localized(LocalizedMessage::ExtractedTab { name, label }),
        );
        proof {
            assert(self@ == before.moved_shown(
                plan.target,
                plan.buffer,
                false,
                Notice::Localized(
                    LocalizedMessage::ExtractedTab { name, label: shown_label },
                ),
            ));
        }
    }

    /// Ends the move of a terminal's tab.
    pub fn finish_terminal_extraction(
        &mut self,
        target: WindowId,
        buffer: BufferId,
        outcome: ExtractionOutcome,
        name: String,
    )
        requires
            old(self)@.has_active(),
        ensures
            match outcome {
                ExtractionOutcome::Complete => is_shown_moved(
                    old(self)@,
                    target,
                    buffer,
                    name,
                    true,
                    final(self)@,
                ),
                ExtractionOutcome::Pending => final(self)@ == old(self)@.moved_shown(
                    target,
                    buffer,
                    true,
                    Notice::ExtractPending,
                ),
                ExtractionOutcome::RolledBack => final(self)@ == old(self)@.extraction_discarded(
                    target,
                ).telling(Notice::ExtractRolledBack),
            },
    {
        match outcome {
            ExtractionOutcome::RolledBack => {
                self.discard_failed_extraction_window(target);
                self.tell(Notice::ExtractRolledBack);
            },
            ExtractionOutcome::Pending => {
                self.show_moved(target, buffer, true, Notice::ExtractPending);
            },
            ExtractionOutcome::Complete => {
                let label = self.label_of(target);
                let ghost before = self@;
                let ghost shown_label = label;
                self.show_moved(
                    target,
                    buffer,
                    true,
                    Notice::Localized(LocalizedMessage::ExtractedTab { name, label }),
                );
                proof {
                    assert(self@ == before.moved_shown(
                        target,
                        buffer,
                        true,
                        Notice::Localized(
                            LocalizedMessage::ExtractedTab { name, label: shown_label },
                        ),
                    ));
                }
            },
        }
    }
}

} // verus!
