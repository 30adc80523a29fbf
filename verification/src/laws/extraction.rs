//! A terminal that leaves its window: what is done where a step fails.
use vstd::prelude::*;

use crate::extraction_run::ExtractionOutcome;
use crate::extraction_run::ExtractionStep;
use crate::extraction_steps::CheckpointStep;
use crate::extraction_steps::PrepareStep;
use crate::extraction_steps::PublishStep;
use crate::extraction_steps::RollbackStep;

verus! {

/// The step at which a preparation ends.
pub open spec fn prepare_end(
    step: PrepareStep,
    works: spec_fn(PrepareStep) -> bool,
    most: nat,
) -> PrepareStep
    decreases most,
{
    if most == 0 {
        step
    } else {
        prepare_end(step.after(works(step)), works, (most - 1) as nat)
    }
}

/// Whether `wanted` is among the first `most` steps after `step`, or is `step`.
pub open spec fn prepare_takes(
    step: PrepareStep,
    works: spec_fn(PrepareStep) -> bool,
    most: nat,
    wanted: PrepareStep,
) -> bool
    decreases most,
{
    step == wanted || (most > 0 && prepare_takes(
        step.after(works(step)),
        works,
        (most - 1) as nat,
        wanted,
    ))
}

/// Whether all that has to work for a terminal to move works.
pub open spec fn all_prepared(works: spec_fn(PrepareStep) -> bool) -> bool {
    &&& works(PrepareStep::FindFiles)
    &&& works(PrepareStep::WriteJournal)
    &&& works(PrepareStep::CreateDirectory)
    &&& works(PrepareStep::Release)
    &&& works(PrepareStep::MoveEarlyFiles)
    &&& works(PrepareStep::Adopt)
}

/// A terminal moves only where its files were found, its journal was written, its directory made, its
/// handle released, its early files moved and its handle adopted; otherwise the
/// preparation is abandoned.
pub proof fn a_terminal_moves_only_where_all_steps_worked(works: spec_fn(PrepareStep) -> bool)
    ensures
        prepare_end(PrepareStep::FindFiles, works, 9) is Prepared <==> all_prepared(works),
        prepare_end(PrepareStep::FindFiles, works, 9) is Abandoned <==> !all_prepared(works),
{
    reveal_with_fuel(prepare_end, 10);
}

/// A journal that was written is dropped when the preparation is abandoned,
/// unless files could not be brought back, for which it is still needed.
pub proof fn the_journal_goes_unless_files_are_left_behind(works: spec_fn(PrepareStep) -> bool)
    requires
        works(PrepareStep::FindFiles),
        works(PrepareStep::WriteJournal),
        !all_prepared(works),
    ensures
        ({
            let start = PrepareStep::FindFiles;
            let early = PrepareStep::ClearJournal { released: false };
            let late = PrepareStep::ClearJournal { released: true };
            let cleared = prepare_takes(start, works, 9, early) || prepare_takes(
                start,
                works,
                9,
                late,
            );
            let left_behind = prepare_takes(start, works, 9, PrepareStep::BringFilesBack)
                && !works(PrepareStep::BringFilesBack);
            cleared <==> !left_behind
        }),
{
    reveal_with_fuel(prepare_takes, 10);
}

/// A handle that was released and not adopted is given back, after the files
/// were to be brought back; one that was not released is not.
pub proof fn a_released_handle_is_given_back(works: spec_fn(PrepareStep) -> bool)
    requires
        !all_prepared(works),
    ensures
        ({
            let start = PrepareStep::FindFiles;
            let released = works(PrepareStep::FindFiles) && works(PrepareStep::WriteJournal) && works(
                PrepareStep::CreateDirectory,
            ) && works(PrepareStep::Release);
            &&& prepare_takes(start, works, 9, PrepareStep::BringFilesBack) <==> released
            &&& prepare_takes(start, works, 9, PrepareStep::GiveBack) <==> released
        }),
{
    reveal_with_fuel(prepare_takes, 10);
}

/// The step at which a rollback ends.
pub open spec fn rollback_end(
    step: RollbackStep,
    works: spec_fn(RollbackStep) -> bool,
    most: nat,
) -> RollbackStep
    decreases most,
{
    if most == 0 {
        step
    } else {
        rollback_end(step.after(works(step)), works, (most - 1) as nat)
    }
}

/// Whether `wanted` is among the first `most` steps of a rollback.
pub open spec fn rollback_takes(
    step: RollbackStep,
    works: spec_fn(RollbackStep) -> bool,
    most: nat,
    wanted: RollbackStep,
) -> bool
    decreases most,
{
    step == wanted || (most > 0 && rollback_takes(
        step.after(works(step)),
        works,
        (most - 1) as nat,
        wanted,
    ))
}

/// A terminal is taken back only where all its files are back first, and its
/// handle was released and adopted again; then the source window is saved as it
/// was, and the journal is dropped. Otherwise the terminal stays where it is, with
/// its journal: files that came back go forward again, and a handle that was
/// released is given back.
pub proof fn a_rollback_is_all_or_nothing(works: spec_fn(RollbackStep) -> bool)
    ensures
        ({
            let start = RollbackStep::BringFilesBack;
            let files = works(RollbackStep::BringFilesBack);
            let released = works(RollbackStep::Release);
            let all = files && released && works(RollbackStep::Adopt) && works(
                RollbackStep::MoveBack,
            );
            let again_kept = RollbackStep::MoveFilesAgain { released: false };
            let again_released = RollbackStep::MoveFilesAgain { released: true };
            &&& rollback_end(start, works, 8) is TakenBack <==> all
            &&& rollback_end(start, works, 8) is Kept <==> !all
            &&& rollback_takes(start, works, 8, RollbackStep::MoveBack) ==> files && released
                && works(RollbackStep::Adopt)
            &&& rollback_takes(start, works, 8, RollbackStep::RepublishSource) <==> all
            &&& rollback_takes(start, works, 8, RollbackStep::ClearJournal) <==> all
            &&& rollback_takes(start, works, 8, again_kept) || rollback_takes(
                start,
                works,
                8,
                again_released,
            ) <==> files && !all
            &&& rollback_takes(start, works, 8, RollbackStep::GiveBack) <==> files && released
                && !all
        }),
{
    reveal_with_fuel(rollback_end, 9);
    reveal_with_fuel(rollback_takes, 9);
}

/// The step at which putting a moved terminal on record ends.
pub open spec fn record_end(
    step: ExtractionStep,
    works: spec_fn(ExtractionStep) -> bool,
    most: nat,
) -> ExtractionStep
    decreases most,
{
    if most == 0 {
        step
    } else {
        record_end(step.after(works(step)), works, (most - 1) as nat)
    }
}

/// An extraction is complete only where every step towards its record worked.
/// Where one of the first three fails the terminal goes back, if that works, and
/// otherwise its records wait for a recovery.
pub proof fn extraction_completes_only_without_failure(works: spec_fn(ExtractionStep) -> bool)
    ensures
        ({
            let committed = works(ExtractionStep::SaveSource) && works(
                ExtractionStep::FinishArtifacts,
            ) && works(ExtractionStep::CommitJournal);
            record_end(ExtractionStep::SaveSource, works, 5) == ExtractionStep::Finished(
                if committed && works(ExtractionStep::SaveTarget) {
                    ExtractionOutcome::Complete
                } else if !committed && works(ExtractionStep::RollBack) {
                    ExtractionOutcome::RolledBack
                } else {
                    ExtractionOutcome::Pending
                },
            )
        }),
{
    reveal_with_fuel(record_end, 6);
}

/// Nothing of a tab moves unless the directory was locked and the source window
/// was saved and read again, and a moved file's tab is published only where both
/// windows were saved.
pub proof fn a_tab_moves_between_two_saves(
    works: spec_fn(CheckpointStep) -> bool,
    saved: spec_fn(PublishStep) -> bool,
)
    ensures
        ({
            let first = CheckpointStep::LockRoot;
            let second = first.after(works(first));
            let third = second.after(works(second));
            third.after(works(third)) is Ready <==> works(CheckpointStep::LockRoot) && works(
                CheckpointStep::SaveSource,
            ) && works(CheckpointStep::LoadSaved)
        }),
        ({
            let first = PublishStep::SaveTarget;
            let second = first.after(saved(first));
            second.after(saved(second)) == (PublishStep::Finished {
                published: saved(PublishStep::SaveTarget) && saved(PublishStep::SaveSource),
            })
        }),
{
}

} // verus!
