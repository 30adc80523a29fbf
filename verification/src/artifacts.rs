//! The files of a terminal, and how they follow it to another window.
use vstd::prelude::*;

use crate::text::decimal;
use crate::text::decimal_text;
use crate::text::same_text;

verus! {

/// A file that moves from one path to another.
#[derive(Debug)]
pub struct Relocation {
    pub source: String,
    pub destination: String,
    /// Whether it moves only once the source window no longer names it.
    pub after_source_cutover: bool,
}

/// What is done about one relocation, by which of its two paths exist.
#[derive(Clone, Copy, Debug, PartialEq, Eq, Structural)]
pub enum MoveDecision {
    /// The file is where it should be.
    InPlace,
    /// The file is to be renamed.
    Rename,
    /// Both paths exist or neither does, and nothing can be done.
    Stuck,
}

/// What is done about a file that should be at the path `to` and not `from`.
pub open spec fn decide_move(from_exists: bool, to_exists: bool) -> MoveDecision {
    match (from_exists, to_exists) {
        (false, true) => MoveDecision::InPlace,
        (true, false) => MoveDecision::Rename,
        _ => MoveDecision::Stuck,
    }
}

/// A run over relocations: forward, each from source to destination, or back,
/// each from destination to source and the last one first. The host says which
/// paths exist and whether a rename worked, and the run stops at the first
/// thing that cannot be done.
#[derive(Clone, Copy, Debug, PartialEq, Eq, Structural)]
pub struct ArtifactRun {
    pub forward: bool,
    pub total: usize,
    pub done: usize,
    pub failed: bool,
}

impl ArtifactRun {
    /// Whether no more than all relocations are done.
    pub open spec fn is_wf(self) -> bool {
        self.done <= self.total
    }

    /// The relocation whose turn it is.
    pub open spec fn spec_current(self) -> Option<usize> {
        if self.failed || self.done >= self.total {
            None
        } else if self.forward {
            Some(self.done)
        } else {
            Some((self.total - 1 - self.done) as usize)
        }
    }

    /// This run with the current relocation settled.
    pub open spec fn advanced(self) -> ArtifactRun {
        ArtifactRun { done: (self.done + 1) as usize, ..self }
    }

    /// This run stopped for good.
    pub open spec fn stopped(self) -> ArtifactRun {
        ArtifactRun { failed: true, ..self }
    }

    /// A run over `total` relocations.
    pub fn new(forward: bool, total: usize) -> (run: ArtifactRun)
        ensures
            run == (ArtifactRun { forward, total, done: 0, failed: false }),
            run.is_wf(),
    {
        ArtifactRun { forward, total, done: 0, failed: false }
    }

    /// The relocation whose turn it is.
    pub fn current(&self) -> (current: Option<usize>)
        requires
            self.is_wf(),
        ensures
            current == self.spec_current(),
            current matches Some(i) ==> i < self.total,
    {
        if self.failed || self.done >= self.total {
            None
        } else if self.forward {
            Some(self.done)
        } else {
            Some(self.total - 1 - self.done)
        }
    }

    /// Takes notice of which paths of the current relocation exist. A file
    /// that is in place is settled; one that can only be renamed is settled by
    /// [`ArtifactRun::renamed`]; anything else stops the run.
    pub fn inspect(&mut self, source_exists: bool, destination_exists: bool) -> (decision: MoveDecision)
        requires
            old(self).is_wf(),
            old(self).spec_current() is Some,
        ensures
            decision == if old(self).forward {
                decide_move(source_exists, destination_exists)
            } else {
                decide_move(destination_exists, source_exists)
            },
            *final(self) == match decision {
                MoveDecision::InPlace => old(self).advanced(),
                MoveDecision::Rename => *old(self),
                MoveDecision::Stuck => old(self).stopped(),
            },
            final(self).is_wf(),
    {
        let (from, to) = if self.forward {
            (source_exists, destination_exists)
        } else {
            (destination_exists, source_exists)
        };
        if !from && to {
            self.done = self.done + 1;
            MoveDecision::InPlace
        } else if from && !to {
            MoveDecision::Rename
        } else {
            self.failed = true;
            MoveDecision::Stuck
        }
    }

    /// Takes notice of whether a rename worked.
    pub fn renamed(&mut self, worked: bool)
        requires
            old(self).is_wf(),
            old(self).spec_current() is Some,
        ensures
            *final(self) == if worked {
                old(self).advanced()
            } else {
                old(self).stopped()
            },
            final(self).is_wf(),
    {
        if worked {
            self.done = self.done + 1;
        } else {
            self.failed = true;
        }
    }

    /// Whether the run has settled everything; none while it is under way.
    pub open spec fn spec_outcome(self) -> Option<bool> {
        if self.failed {
            Some(false)
        } else if self.done >= self.total {
            Some(true)
        } else {
            None
        }
    }

    /// Whether the run has settled everything; none while it is under way.
    pub fn outcome(&self) -> (outcome: Option<bool>)
        ensures
            outcome == self.spec_outcome(),
    {
        if self.failed {
            Some(false)
        } else if self.done >= self.total {
            Some(true)
        } else {
            None
        }
    }
}

/// The relocations that move before the cutover, or those that move after it.
pub fn relocations_of_phase(relocations: &Vec<Relocation>, after_cutover: bool) -> (indices: Vec<
    usize,
>)
    ensures
        indices@ == phase_indices(relocations@, after_cutover),
{
    let mut indices: Vec<usize> = Vec::new();
    let mut at: usize = 0;
    while at < relocations.len()
        invariant
            at <= relocations.len(),
            indices@ == phase_indices(relocations@.take(at as int), after_cutover),
        decreases relocations.len() - at,
    {
        proof {
            let next = relocations@.take(at + 1);
            assert(next.drop_last() =~= relocations@.take(at as int));
            assert(next.last() == relocations@[at as int]);
        }
        if relocations[at].after_source_cutover == after_cutover {
            indices.push(at);
        }
        at = at + 1;
    }
    proof {
        assert(relocations@.take(relocations@.len() as int) =~= relocations@);
    }
    indices
}

/// The places of the relocations that move before, or after, the cutover.
pub open spec fn phase_indices(relocations: Seq<Relocation>, after_cutover: bool) -> Seq<usize>
    decreases relocations.len(),
{
    if relocations.len() == 0 {
        Seq::empty()
    } else {
        let rest = phase_indices(relocations.drop_last(), after_cutover);
        if relocations.last().after_source_cutover == after_cutover {
            rest.push((relocations.len() - 1) as usize)
        } else {
            rest
        }
    }
}

/// A terminal as it was saved with its window.
#[derive(Debug)]
pub struct SavedTerminal {
    pub history_path: Option<String>,
    pub backing_path: String,
    pub log_path: String,
    pub backing_history_end: u64,
    /// The checkpoint that the backing file holds, where it holds one.
    pub checkpoint_generation: Option<String>,
}

/// Whether two paths that may be absent are the same.
pub open spec fn same_path(a: Option<String>, b: Option<String>) -> bool {
    match (a, b) {
        (Some(a), Some(b)) => a@ == b@,
        (None, None) => true,
        _ => false,
    }
}

/// Whether two paths that may be absent are the same.
pub fn paths_match(a: &Option<String>, b: &Option<String>) -> (same: bool)
    ensures
        same == same_path(*a, *b),
{
    match (a, b) {
        (Some(a), Some(b)) => same_text(a.as_str(), b.as_str()),
        (None, None) => true,
        _ => false,
    }
}

/// The checkpoint file that moves with a terminal, besides its backing file.
pub open spec fn separate_checkpoint(saved: SavedTerminal, backing: Option<String>) -> Option<String> {
    if saved.checkpoint_generation is Some && !(backing is Some && backing->0@
        == saved.backing_path@) {
        Some(saved.backing_path)
    } else {
        None
    }
}

/// Whether a file stays where it is until the source window was saved without
/// it: it does where what was saved names it.
pub open spec fn moves_after_cutover(saved: SavedTerminal, path: Seq<char>) -> bool {
    ||| saved.log_path@ == path
    ||| saved.history_path is Some && saved.history_path->0@ == path
    ||| saved.checkpoint_generation is Some && saved.backing_path@ == path
}

/// Whether a saved terminal has the history file `history`.
pub open spec fn has_history(history: Option<String>) -> spec_fn(SavedTerminal) -> bool {
    |t: SavedTerminal| same_path(t.history_path, history)
}

/// The saved terminal whose history file is `history`.
pub fn find_saved_terminal(terminals: &Vec<SavedTerminal>, history: &Option<String>) -> (at: Option<
    usize,
>)
    ensures
        match crate::lists::first_index(terminals@, has_history(*history)) {
            Some(i) => at matches Some(a) && a == i && a < terminals@.len(),
            None => at is None,
        },
{
    let ghost wanted = has_history(*history);
    let mut at: usize = 0;
    while at < terminals.len()
        invariant
            at <= terminals.len(),
            wanted == has_history(*history),
            forall|i: int| 0 <= i < at ==> !wanted(#[trigger] terminals@[i]),
        decreases terminals.len() - at,
    {
        if paths_match(&terminals[at].history_path, history) {
            proof {
                crate::lists::lemma_first_index_found(terminals@, wanted, at as int);
            }
            return Some(at);
        }
        at = at + 1;
    }
    proof {
        crate::lists::lemma_first_index_none(terminals@, wanted);
    }
    None
}

/// The checkpoint file that moves with a terminal, besides its backing file.
pub fn checkpoint_file(saved: &SavedTerminal, backing: &Option<String>) -> (path: Option<String>)
    ensures
        path == separate_checkpoint(*saved, *backing),
{
    if saved.checkpoint_generation.is_none() {
        return None;
    }
    if let Some(backing) = backing {
        if same_text(backing.as_str(), saved.backing_path.as_str()) {
            return None;
        }
    }
    Some(saved.backing_path.clone())
}

/// The name of a moved file: its own name at first, and then its stem with a
/// number, before its extension where it has one.
pub open spec fn moved_name(
    original: Seq<char>,
    stem: Seq<char>,
    extension: Option<String>,
    suffix: u32,
) -> Seq<char> {
    if suffix == 0 {
        original
    } else {
        let numbered = stem + "-moved-"@ + decimal_text(suffix as nat);
        match extension {
            Some(extension) => numbered + "."@ + extension@,
            None => numbered,
        }
    }
}

/// The name of a moved file.
pub fn destination_name(original: &str, stem: &str, extension: &Option<String>, suffix: u32) -> (name:
    String)
    ensures
        name@ == moved_name(original@, stem@, *extension, suffix),
{
    if suffix == 0 {
        return original.to_string();
    }
    let mut name = stem.to_string();
    name.append("-moved-");
    let digits = decimal(suffix as u64);
    name.append(digits.as_str());
    if let Some(extension) = extension {
        name.append(".");
        name.append(extension.as_str());
    }
    name
}

/// The first suffix whose name is free, by which names the host has found
/// taken, for the file itself or for its lock.
pub fn first_free_suffix(taken: &Vec<bool>) -> (suffix: usize)
    ensures
        suffix <= taken@.len(),
        forall|i: int| 0 <= i < suffix ==> taken@[i],
        suffix < taken@.len() ==> !taken@[suffix as int],
{
    let mut suffix: usize = 0;
    while suffix < taken.len() && taken[suffix]
        invariant
            suffix <= taken.len(),
            forall|i: int| 0 <= i < suffix ==> taken@[i],
        decreases taken.len() - suffix,
    {
        suffix = suffix + 1;
    }
    suffix
}

/// `files` with one more, where it is there.
pub open spec fn with_file(files: Seq<String>, file: Option<String>) -> Seq<String> {
    match file {
        Some(file) => files.push(file),
        None => files,
    }
}

/// The files of a terminal that move with it, in this order: its backing file,
/// its history, its log, and the file of its saved checkpoint where that is
/// another one.
pub open spec fn files_of(
    backing: Option<String>,
    history: Option<String>,
    log: Option<String>,
    saved: SavedTerminal,
) -> Seq<String> {
    with_file(
        with_file(with_file(with_file(Seq::empty(), backing), history), log),
        separate_checkpoint(saved, backing),
    )
}

/// The files of a terminal that move with it, in their order.
pub fn terminal_files(
    backing: &Option<String>,
    history: &Option<String>,
    log: &Option<String>,
    saved: &SavedTerminal,
) -> (files: Vec<String>)
    ensures
        files@ == files_of(*backing, *history, *log, *saved),
{
    let mut files: Vec<String> = Vec::new();
    if let Some(file) = backing {
        files.push(file.clone());
    }
    if let Some(file) = history {
        files.push(file.clone());
    }
    if let Some(file) = log {
        files.push(file.clone());
    }
    if let Some(file) = checkpoint_file(saved, backing) {
        files.push(file);
    }
    files
}

/// A file that moves: where it is, where it goes, and its lock, which goes
/// with it.
#[derive(Debug)]
pub struct ArtifactFile {
    pub source: String,
    pub destination: String,
    /// The lock of the file and where it goes, where there is a lock.
    pub lock: Option<(String, String)>,
}

/// The relocations of one file: its lock first, after the cutover in any case,
/// and then the file itself.
pub open spec fn file_relocations(file: ArtifactFile, saved: SavedTerminal) -> Seq<Relocation> {
    let own = Relocation {
        source: file.source,
        destination: file.destination,
        after_source_cutover: moves_after_cutover(saved, file.source@),
    };
    match file.lock {
        Some((source, destination)) => seq![
            Relocation { source, destination, after_source_cutover: true },
            own,
        ],
        None => seq![own],
    }
}

/// The relocations of all files of a terminal.
pub open spec fn all_relocations(files: Seq<ArtifactFile>, saved: SavedTerminal) -> Seq<Relocation>
    decreases files.len(),
{
    if files.len() == 0 {
        Seq::empty()
    } else {
        all_relocations(files.drop_last(), saved) + file_relocations(files.last(), saved)
    }
}

/// The relocations of all files of a terminal.
pub fn plan_relocations(files: Vec<ArtifactFile>, saved: &SavedTerminal) -> (relocations: Vec<
    Relocation,
>)
    ensures
        relocations@ == all_relocations(files@, *saved),
{
    let ghost given = files@;
    let mut relocations: Vec<Relocation> = Vec::new();
    for file in iter: files
        invariant
            relocations@ == all_relocations(iter.seq().take(iter.index()), *saved),
    {
        let ghost before = relocations@;
        proof {
            let next = iter.seq().take(iter.index() + 1);
            assert(next.drop_last() =~= iter.seq().take(iter.index()));
            assert(next.last() == file);
        }
        let after_source_cutover = same_text(saved.log_path.as_str(), file.source.as_str())
            || holds_path(&saved.history_path, file.source.as_str()) || (
        saved.checkpoint_generation.is_some() && same_text(
            saved.backing_path.as_str(),
            file.source.as_str(),
        ));
        let ghost model = file;
        if let Some((source, destination)) = file.lock {
            relocations.push(Relocation { source, destination, after_source_cutover: true });
        }
        relocations.push(
            Relocation {
                source: file.source,
                destination: file.destination,
                after_source_cutover,
            },
        );
        proof {
            assert(relocations@ =~= before + file_relocations(model, *saved));
        }
    }
    proof {
        assert(given.take(given.len() as int) =~= given);
    }
    relocations
}

/// Whether a path that may be absent is `path`.
fn holds_path(candidate: &Option<String>, path: &str) -> (same: bool)
    ensures
        same == (*candidate is Some && candidate->0@ == path@),
{
    match candidate {
        Some(candidate) => same_text(candidate.as_str(), path),
        None => false,
    }
}

/// Whether a relocation starts at `path`.
pub open spec fn starts_at(path: Seq<char>) -> spec_fn(Relocation) -> bool {
    |r: Relocation| r.source@ == path
}

/// Whether a relocation ends at `path`.
pub open spec fn ends_at(path: Seq<char>) -> spec_fn(Relocation) -> bool {
    |r: Relocation| r.destination@ == path
}

/// Where the file at `path` is once all relocations are done.
pub open spec fn relocated(relocations: Seq<Relocation>, path: Seq<char>) -> Option<String> {
    match crate::lists::first_match(relocations, starts_at(path)) {
        Some(r) => Some(r.destination),
        None => None,
    }
}

/// Where the file at `path` was before any relocation.
pub open spec fn unrelocated(relocations: Seq<Relocation>, path: Seq<char>) -> Option<String> {
    match crate::lists::first_match(relocations, ends_at(path)) {
        Some(r) => Some(r.source),
        None => None,
    }
}

/// Where the file at `path` is after, or was before, the relocations.
pub fn follow_path(relocations: &Vec<Relocation>, path: &str, forward: bool) -> (found: Option<String>)
    ensures
        found == if forward {
            relocated(relocations@, path@)
        } else {
            unrelocated(relocations@, path@)
        },
{
    let ghost wanted = if forward {
        starts_at(path@)
    } else {
        ends_at(path@)
    };
    let mut at: usize = 0;
    while at < relocations.len()
        invariant
            at <= relocations.len(),
            wanted == (if forward {
                starts_at(path@)
            } else {
                ends_at(path@)
            }),
            forall|i: int| 0 <= i < at ==> !wanted(#[trigger] relocations@[i]),
        decreases relocations.len() - at,
    {
        let r = &relocations[at];
        let matches = if forward {
            same_text(r.source.as_str(), path)
        } else {
            same_text(r.destination.as_str(), path)
        };
        if matches {
            proof {
                crate::lists::lemma_first_match_found(relocations@, wanted, at as int);
            }
            return if forward {
                Some(r.destination.clone())
            } else {
                Some(r.source.clone())
            };
        }
        at = at + 1;
    }
    proof {
        crate::lists::lemma_first_match_none(relocations@, wanted);
    }
    None
}

/// A run that brings `total` files to their destinations.
pub fn finish_terminal_artifacts(total: usize) -> (run: ArtifactRun)
    ensures
        run == (ArtifactRun { forward: true, total, done: 0, failed: false }),
{
    ArtifactRun::new(true, total)
}

/// A run that brings `total` files back to where they came from.
pub fn rollback_terminal_artifacts(total: usize) -> (run: ArtifactRun)
    ensures
        run == (ArtifactRun { forward: false, total, done: 0, failed: false }),
{
    ArtifactRun::new(false, total)
}

} // verus!
