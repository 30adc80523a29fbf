//! The order in which a tab leaves its window for a new one, and what is made
//! undone where a step fails. Each step is the host's; whether it worked decides
//! which one follows.
use vstd::prelude::*;

verus! {

/// What is done before anything moves.
#[derive(Clone, Copy, Debug, PartialEq, Eq, Structural)]
pub enum CheckpointStep {
    /// Lock what is saved for the directory.
    LockRoot,
    /// Save the source window.
    SaveSource,
    /// Read what was saved of it, to be able to save that again.
    LoadSaved,
    /// The tab can be moved.
    Ready,
    /// The tab stays where it is.
    Abandoned,
}

impl CheckpointStep {
    /// The step after this one, by whether this one worked.
    pub open spec fn after(self, worked: bool) -> CheckpointStep {
        match (self, worked) {
            (CheckpointStep::LockRoot, true) => CheckpointStep::SaveSource,
            (CheckpointStep::SaveSource, true) => CheckpointStep::LoadSaved,
            (CheckpointStep::LoadSaved, true) => CheckpointStep::Ready,
            (CheckpointStep::Ready, _) => CheckpointStep::Ready,
            _ => CheckpointStep::Abandoned,
        }
    }

    /// The first step.
    pub fn start() -> (step: CheckpointStep)
        ensures
            step == CheckpointStep::LockRoot,
    {
        CheckpointStep::LockRoot
    }

    /// The step after this one, by whether this one worked.
    pub fn next(self, worked: bool) -> (step: CheckpointStep)
        ensures
            step == self.after(worked),
    {
        match self {
            CheckpointStep::LockRoot => if worked {
                CheckpointStep::SaveSource
            } else {
                CheckpointStep::Abandoned
            },
            CheckpointStep::SaveSource => if worked {
                CheckpointStep::LoadSaved
            } else {
                CheckpointStep::Abandoned
            },
            CheckpointStep::LoadSaved => if worked {
                CheckpointStep::Ready
            } else {
                CheckpointStep::Abandoned
            },
            CheckpointStep::Ready => CheckpointStep::Ready,
            CheckpointStep::Abandoned => CheckpointStep::Abandoned,
        }
    }
}

/// How a file's tab that has moved is put on record.
#[derive(Clone, Copy, Debug, PartialEq, Eq, Structural)]
pub enum PublishStep {
    /// Save the target window with the tab.
    SaveTarget,
    /// Save the source window without it.
    SaveSource,
    /// Both were saved, or not.
    Finished { published: bool },
}

impl PublishStep {
    /// The step after this one, by whether this one worked.
    pub open spec fn after(self, worked: bool) -> PublishStep {
        match (self, worked) {
            (PublishStep::SaveTarget, true) => PublishStep::SaveSource,
            (PublishStep::SaveSource, true) => PublishStep::Finished { published: true },
            (PublishStep::Finished { published }, _) => PublishStep::Finished { published },
            _ => PublishStep::Finished { published: false },
        }
    }

    /// The first step.
    pub fn start() -> (step: PublishStep)
        ensures
            step == PublishStep::SaveTarget,
    {
        PublishStep::SaveTarget
    }

    /// The step after this one, by whether this one worked.
    pub fn next(self, worked: bool) -> (step: PublishStep)
        ensures
            step == self.after(worked),
    {
        match self {
            PublishStep::SaveTarget => if worked {
                PublishStep::SaveSource
            } else {
                PublishStep::Finished { published: false }
            },
            PublishStep::SaveSource => PublishStep::Finished { published: worked },
            PublishStep::Finished { published } => PublishStep::Finished { published },
        }
    }
}

/// How a terminal is taken out of its window and given to another.
#[derive(Clone, Copy, Debug, PartialEq, Eq, Structural)]
pub enum PrepareStep {
    /// Find every file of the terminal, and a free name for each.
    FindFiles,
    /// Write down what is about to move.
    WriteJournal,
    /// Make the directory that the files go to.
    CreateDirectory,
    /// Take the terminal's handle from the source window.
    Release,
    /// Move the files that may move before the source window was saved without
    /// them.
    MoveEarlyFiles,
    /// Give the handle to the target window.
    Adopt,
    /// Bring all files back.
    BringFilesBack,
    /// Drop what was written down. Whether that works does not matter.
    ClearJournal { released: bool },
    /// Give the handle back to the source window. Whether that works does not
    /// matter.
    GiveBack,
    /// The terminal's tables can move.
    Prepared,
    /// The terminal is where it was.
    Abandoned,
}

impl PrepareStep {
    /// The step after this one, by whether this one worked.
    pub open spec fn after(self, worked: bool) -> PrepareStep {
        match (self, worked) {
            (PrepareStep::FindFiles, true) => PrepareStep::WriteJournal,
            (PrepareStep::FindFiles, false) => PrepareStep::Abandoned,
            (PrepareStep::WriteJournal, true) => PrepareStep::CreateDirectory,
            (PrepareStep::WriteJournal, false) => PrepareStep::Abandoned,
            (PrepareStep::CreateDirectory, true) => PrepareStep::Release,
            (PrepareStep::CreateDirectory, false) => PrepareStep::ClearJournal { released: false },
            (PrepareStep::Release, true) => PrepareStep::MoveEarlyFiles,
            (PrepareStep::Release, false) => PrepareStep::ClearJournal { released: false },
            (PrepareStep::MoveEarlyFiles, true) => PrepareStep::Adopt,
            (PrepareStep::MoveEarlyFiles, false) => PrepareStep::BringFilesBack,
            (PrepareStep::Adopt, true) => PrepareStep::Prepared,
            (PrepareStep::Adopt, false) => PrepareStep::BringFilesBack,
            (PrepareStep::BringFilesBack, true) => PrepareStep::ClearJournal { released: true },
            (PrepareStep::BringFilesBack, false) => PrepareStep::GiveBack,
            (PrepareStep::ClearJournal { released }, _) => if released {
                PrepareStep::GiveBack
            } else {
                PrepareStep::Abandoned
            },
            (PrepareStep::GiveBack, _) => PrepareStep::Abandoned,
            (PrepareStep::Prepared, _) => PrepareStep::Prepared,
            (PrepareStep::Abandoned, _) => PrepareStep::Abandoned,
        }
    }

    /// The first step.
    pub fn start() -> (step: PrepareStep)
        ensures
            step == PrepareStep::FindFiles,
    {
        PrepareStep::FindFiles
    }

    /// The step after this one, by whether this one worked.
    pub fn next(self, worked: bool) -> (step: PrepareStep)
        ensures
            step == self.after(worked),
    {
        match self {
            PrepareStep::FindFiles => if worked {
                PrepareStep::WriteJournal
            } else {
                PrepareStep::Abandoned
            },
            PrepareStep::WriteJournal => if worked {
                PrepareStep::CreateDirectory
            } else {
                PrepareStep::Abandoned
            },
            PrepareStep::CreateDirectory => if worked {
                PrepareStep::Release
            } else {
                PrepareStep::ClearJournal { released: false }
            },
            PrepareStep::Release => if worked {
                PrepareStep::MoveEarlyFiles
            } else {
                PrepareStep::ClearJournal { released: false }
            },
            PrepareStep::MoveEarlyFiles => if worked {
                PrepareStep::Adopt
            } else {
                PrepareStep::BringFilesBack
            },
            PrepareStep::Adopt => if worked {
                PrepareStep::Prepared
            } else {
                PrepareStep::BringFilesBack
            },
            PrepareStep::BringFilesBack => if worked {
                PrepareStep::ClearJournal { released: true }
            } else {
                PrepareStep::GiveBack
            },
            PrepareStep::ClearJournal { released } => if released {
                PrepareStep::GiveBack
            } else {
                PrepareStep::Abandoned
            },
            PrepareStep::GiveBack => PrepareStep::Abandoned,
            PrepareStep::Prepared => PrepareStep::Prepared,
            PrepareStep::Abandoned => PrepareStep::Abandoned,
        }
    }
}

/// How a terminal that has moved goes back to the window that it came from. The
/// files go first: only where all of them are back does the terminal follow.
#[derive(Clone, Copy, Debug, PartialEq, Eq, Structural)]
pub enum RollbackStep {
    /// Bring all files back.
    BringFilesBack,
    /// Take the terminal's handle from the target window.
    Release,
    /// Give the handle to the source window.
    Adopt,
    /// Move the terminal's tables and its buffer back.
    MoveBack,
    /// Move the files to their new places again. Whether that works does not
    /// matter.
    MoveFilesAgain { released: bool },
    /// Give the handle back to the target window. Whether that works does not
    /// matter.
    GiveBack,
    /// Save the source window again as it was saved before. Whether that works
    /// does not matter.
    RepublishSource,
    /// Drop the target window.
    DiscardTarget,
    /// Drop what was written down. Whether that works does not matter.
    ClearJournal,
    /// The terminal is back where it was.
    TakenBack,
    /// The terminal stays in the target window.
    Kept,
}

impl RollbackStep {
    /// The step after this one, by whether this one worked.
    pub open spec fn after(self, worked: bool) -> RollbackStep {
        match (self, worked) {
            (RollbackStep::BringFilesBack, true) => RollbackStep::Release,
            (RollbackStep::BringFilesBack, false) => RollbackStep::Kept,
            (RollbackStep::Release, true) => RollbackStep::Adopt,
            (RollbackStep::Release, false) => RollbackStep::MoveFilesAgain { released: false },
            (RollbackStep::Adopt, true) => RollbackStep::MoveBack,
            (RollbackStep::Adopt, false) => RollbackStep::MoveFilesAgain { released: true },
            (RollbackStep::MoveBack, true) => RollbackStep::RepublishSource,
            (RollbackStep::MoveBack, false) => RollbackStep::MoveFilesAgain { released: true },
            (RollbackStep::MoveFilesAgain { released }, _) => if released {
                RollbackStep::GiveBack
            } else {
                RollbackStep::Kept
            },
            (RollbackStep::GiveBack, _) => RollbackStep::Kept,
            (RollbackStep::RepublishSource, _) => RollbackStep::DiscardTarget,
            (RollbackStep::DiscardTarget, _) => RollbackStep::ClearJournal,
            (RollbackStep::ClearJournal, _) => RollbackStep::TakenBack,
            (RollbackStep::TakenBack, _) => RollbackStep::TakenBack,
            (RollbackStep::Kept, _) => RollbackStep::Kept,
        }
    }

    /// The first step.
    pub fn start() -> (step: RollbackStep)
        ensures
            step == RollbackStep::BringFilesBack,
    {
        RollbackStep::BringFilesBack
    }

    /// The step after this one, by whether this one worked.
    pub fn next(self, worked: bool) -> (step: RollbackStep)
        ensures
            step == self.after(worked),
    {
        match self {
            RollbackStep::BringFilesBack => if worked {
                RollbackStep::Release
            } else {
                RollbackStep::Kept
            },
            RollbackStep::Release => if worked {
                RollbackStep::Adopt
            } else {
                RollbackStep::MoveFilesAgain { released: false }
            },
            RollbackStep::Adopt => if worked {
                RollbackStep::MoveBack
            } else {
                RollbackStep::MoveFilesAgain { released: true }
            },
            RollbackStep::MoveBack => if worked {
                RollbackStep::RepublishSource
            } else {
                RollbackStep::MoveFilesAgain { released: true }
            },
            RollbackStep::MoveFilesAgain { released } => if released {
                RollbackStep::GiveBack
            } else {
                RollbackStep::Kept
            },
            RollbackStep::GiveBack => RollbackStep::Kept,
            RollbackStep::RepublishSource => RollbackStep::DiscardTarget,
            RollbackStep::DiscardTarget => RollbackStep::ClearJournal,
            RollbackStep::ClearJournal => RollbackStep::TakenBack,
            RollbackStep::TakenBack => RollbackStep::TakenBack,
            RollbackStep::Kept => RollbackStep::Kept,
        }
    }

    /// Whether the terminal is back where it was; none while that is open.
    pub fn outcome(self) -> (outcome: Option<bool>)
        ensures
            outcome == (match self {
                RollbackStep::TakenBack => Some(true),
                RollbackStep::Kept => Some(false),
                _ => None,
            }),
    {
        match self {
            RollbackStep::TakenBack => Some(true),
            RollbackStep::Kept => Some(false),
            _ => None,
        }
    }
}

} // verus!
