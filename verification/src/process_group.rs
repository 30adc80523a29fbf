//! Per-window tracking and signalling of process groups.
//!
//! A window records the leader pid of every process group it has spawned, and
//! hands each signal to the [`Signaller`] of its execution backend. Every
//! registration has an incarnation number of its own, so that a signal which
//! was captured for a process that has since exited never reaches a process
//! that got the same pid.
use std::sync::Arc;
use vstd::prelude::*;

use crate::lists::lemma_filter_source;
use crate::lists::retain_where;
use crate::text::decimal;
use crate::text::decimal_text;
use crate::text::same_text;

verus! {

/// Delivers OS signals to process groups in one backend's namespace.
pub trait Signaller: Send + Sync + std::fmt::Debug {
    /// Whether the group led by `leader_pid` may be signalled. Whoever signals a
    /// group has to know this of it: what a function asks of a signaller here bounds
    /// the groups that it can signal.
    open spec fn admits(&self, leader_pid: u32) -> bool {
        true
    }

    /// Sends `signal_name` ("SIGTERM", "SIGKILL", "SIGINT" or "SIGHUP") to the
    /// process group led by `leader_pid`.
    ///
    /// `Ok(true)`: delivered to a live group. `Ok(false)`: the group has
    /// already exited. `Err`: anything else.
    fn signal(&self, leader_pid: u32, signal_name: &str) -> Result<bool, String>
        requires
            self.admits(leader_pid),
    ;
}

/// The signals that can be sent to a local process group.
#[derive(Clone, Copy, Debug, PartialEq, Eq, Structural)]
pub enum Signal {
    Term,
    Kill,
    Int,
    Hup,
}

/// What the kernel answered to a signal.
pub enum Delivery {
    /// The signal was sent.
    Sent,
    /// There is no such process group.
    NoSuchGroup,
    /// Anything else, with the system's description of it.
    Failed(String),
}

/// The signal of each supported name.
pub open spec fn signal_named(name: Seq<char>) -> Option<Signal> {
    if name == "SIGTERM"@ {
        Some(Signal::Term)
    } else if name == "SIGKILL"@ {
        Some(Signal::Kill)
    } else if name == "SIGINT"@ {
        Some(Signal::Int)
    } else if name == "SIGHUP"@ {
        Some(Signal::Hup)
    } else {
        None
    }
}

/// Signals processes of this host. The terminal puts every shell at the head
/// of its own session, so the group led by its pid is the shell with every
/// process that it started.
#[derive(Debug, Default)]
pub struct LocalSignaller;

impl LocalSignaller {
    /// The signal to send for `signal_name`, or the error for a name that is
    /// not supported.
    pub fn select_signal(&self, signal_name: &str) -> (signal: Result<Signal, String>)
        ensures
            match signal_named(signal_name@) {
                Some(s) => signal == Ok::<Signal, String>(s),
                None => signal matches Err(e) && e@ == "unsupported signal: "@ + signal_name@,
            },
    {
        if same_text(signal_name, "SIGTERM") {
            Ok(Signal::Term)
        } else if same_text(signal_name, "SIGKILL") {
            Ok(Signal::Kill)
        } else if same_text(signal_name, "SIGINT") {
            Ok(Signal::Int)
        } else if same_text(signal_name, "SIGHUP") {
            Ok(Signal::Hup)
        } else {
            let mut text = "unsupported signal: ".to_string();
            text.append(signal_name);
            Err(text)
        }
    }

    /// What the caller of the signaller is told about the kernel's answer.
    /// A group that does not exist is no failure, so that stopping twice is
    /// harmless.
    pub fn delivery_outcome(&self, leader_pid: u32, signal_name: &str, delivery: Delivery) -> (outcome:
        Result<bool, String>)
        ensures
            match delivery {
                Delivery::Sent => outcome == Ok::<bool, String>(true),
                Delivery::NoSuchGroup => outcome == Ok::<bool, String>(false),
                Delivery::Failed(error) => outcome matches Err(e) && e@ == "kill(-"@ + decimal_text(
                    leader_pid as nat,
                ) + ", "@ + signal_name@ + "): "@ + error@,
            },
    {
        match delivery {
            Delivery::Sent => Ok(true),
            Delivery::NoSuchGroup => Ok(false),
            Delivery::Failed(error) => {
                let mut text = "kill(-".to_string();
                let pid = decimal(leader_pid as u64);
                text.append(pid.as_str());
                text.append(", ");
                text.append(signal_name);
                text.append("): ");
                text.append(error.as_str());
                Err(text)
            },
        }
    }
}

/// One tracked process group. The label says who started it.
#[derive(Debug, Clone)]
pub struct ProcessGroupEntry {
    pub leader_pid: u32,
    pub label: String,
    /// The identity of this registration: a reused pid gets a new one.
    pub incarnation: u64,
}

/// A tracked process group as a mathematical value.
pub struct EntryModel {
    pub leader_pid: u32,
    pub label: Seq<char>,
    pub incarnation: u64,
}

impl View for ProcessGroupEntry {
    type V = EntryModel;

    open spec fn view(&self) -> EntryModel {
        EntryModel {
            leader_pid: self.leader_pid,
            label: self.label@,
            incarnation: self.incarnation,
        }
    }
}

impl ProcessGroupEntry {
    /// A copy of this entry.
    pub fn duplicate(&self) -> (copy: ProcessGroupEntry)
        ensures
            copy == *self,
    {
        ProcessGroupEntry {
            leader_pid: self.leader_pid,
            label: self.label.clone(),
            incarnation: self.incarnation,
        }
    }

    /// Whether both are the same registration of the same pid.
    pub open spec fn same_registration(self, other: ProcessGroupEntry) -> bool {
        self.leader_pid == other.leader_pid && self.incarnation == other.incarnation
    }
}

/// Whether `target` is still the current registration of its pid.
pub open spec fn is_current(
    entries: Seq<ProcessGroupEntry>,
    target: ProcessGroupEntry,
) -> bool {
    exists|i: int| 0 <= i < entries.len() && #[trigger] entries[i].same_registration(target)
}

/// The entries without the registration of `target`.
pub open spec fn without_registration(
    entries: Seq<ProcessGroupEntry>,
    target: ProcessGroupEntry,
) -> Seq<ProcessGroupEntry> {
    entries.filter(|e: ProcessGroupEntry| !e.same_registration(target))
}

/// The entries that are left after the first `n` targets were answered by
/// `outcomes`: a current registration is dropped when its group turned out to
/// have exited, and nothing else changes.
pub open spec fn after_answers(
    entries: Seq<ProcessGroupEntry>,
    targets: Seq<ProcessGroupEntry>,
    outcomes: Seq<(ProcessGroupEntry, Result<bool, String>)>,
    n: int,
) -> Seq<ProcessGroupEntry>
    decreases n,
{
    if n <= 0 {
        entries
    } else {
        let before = after_answers(entries, targets, outcomes, n - 1);
        if is_current(before, targets[n - 1]) && outcomes[n - 1].1 == Ok::<bool, String>(false) {
            without_registration(before, targets[n - 1])
        } else {
            before
        }
    }
}

/// Pids occur once, and incarnations below the counter were given out once.
pub open spec fn registrations_wf(entries: Seq<ProcessGroupEntry>, next_incarnation: u64) -> bool {
    &&& 1 <= next_incarnation
    &&& forall|i: int, j: int|
        0 <= i < j < entries.len() ==> (#[trigger] entries[i]).leader_pid != (
        #[trigger] entries[j]).leader_pid
    &&& forall|i: int| 0 <= i < entries.len() ==> (#[trigger] entries[i]).incarnation <= next_incarnation
    &&& next_incarnation < u64::MAX ==> forall|i: int|
        0 <= i < entries.len() ==> (#[trigger] entries[i]).incarnation < next_incarnation
    &&& next_incarnation < u64::MAX ==> forall|i: int, j: int|
        0 <= i < j < entries.len() ==> (#[trigger] entries[i]).incarnation != (
        #[trigger] entries[j]).incarnation
}

/// The registrations of one window, without a way to signal them.
#[derive(Debug)]
pub struct ProcessTable {
    entries: Vec<ProcessGroupEntry>,
    next_incarnation: u64,
}

/// What [`ProcessTable::register`] makes of a table: nothing when the pid is
/// already registered under this label, a replaced entry when it is registered
/// under another one, and a new last entry otherwise.
pub open spec fn registered(
    old_entries: Seq<ProcessGroupEntry>,
    old_next: u64,
    leader_pid: u32,
    label: Seq<char>,
    entries: Seq<ProcessGroupEntry>,
    next: u64,
) -> bool {
    let fresh = EntryModel { leader_pid, label, incarnation: old_next };
    let bumped = if old_next < u64::MAX { (old_next + 1) as u64 } else { old_next };
    if exists|i: int|
        0 <= i < old_entries.len() && (#[trigger] old_entries[i]).leader_pid == leader_pid {
        exists|i: int|
            {
                &&& 0 <= i < old_entries.len()
                &&& (#[trigger] old_entries[i]).leader_pid == leader_pid
                &&& forall|j: int| 0 <= j < i ==> (#[trigger] old_entries[j]).leader_pid != leader_pid
                &&& if old_entries[i].label@ == label {
                    entries == old_entries && next == old_next
                } else {
                    &&& entries.len() == old_entries.len()
                    &&& entries[i]@ == fresh
                    &&& entries == old_entries.update(i, entries[i])
                    &&& next == bumped
                }
            }
    } else {
        &&& entries.len() == old_entries.len() + 1
        &&& entries.last()@ == fresh
        &&& entries == old_entries.push(entries.last())
        &&& next == bumped
    }
}

impl ProcessTable {
    /// The tracked groups, in the order in which their pids were first seen.
    pub closed spec fn spec_entries(&self) -> Seq<ProcessGroupEntry> {
        self.entries@
    }

    /// The incarnation of the next registration.
    pub closed spec fn spec_next_incarnation(&self) -> u64 {
        self.next_incarnation
    }

    /// What holds of every table that was made by [`ProcessTable::new`].
    pub open spec fn is_wf(&self) -> bool {
        registrations_wf(self.spec_entries(), self.spec_next_incarnation())
    }

    /// Tracks nothing yet.
    pub fn new() -> (table: ProcessTable)
        ensures
            table.spec_entries() == Seq::<ProcessGroupEntry>::empty(),
            table.spec_next_incarnation() == 1,
            table.is_wf(),
    {
        ProcessTable { entries: Vec::new(), next_incarnation: 1 }
    }

    /// Tracks a process group leader. Registering a pid again for the same
    /// owner changes nothing; for another owner the pid gets a new
    /// incarnation.
    pub fn register(&mut self, leader_pid: u32, label: &str)
        ensures
            registered(
                old(self).spec_entries(),
                old(self).spec_next_incarnation(),
                leader_pid,
                label@,
                final(self).spec_entries(),
                final(self).spec_next_incarnation(),
            ),
            old(self).is_wf() ==> final(self).is_wf(),
    {
        let ghost before = self.entries@;
        let mut at: usize = 0;
        while at < self.entries.len() && self.entries[at].leader_pid != leader_pid
            invariant
                self.entries@ == before,
                at <= before.len(),
                forall|i: int| 0 <= i < at ==> (#[trigger] before[i]).leader_pid != leader_pid,
            decreases before.len() - at,
        {
            at = at + 1;
        }
        if at < self.entries.len() && same_text(self.entries[at].label.as_str(), label) {
            return ;
        }
        let incarnation = self.next_incarnation;
        let next: u64 = if incarnation < u64::MAX {
            incarnation + 1
        } else {
            incarnation
        };
        let entry = ProcessGroupEntry { leader_pid, label: label.to_string(), incarnation };
        if at < self.entries.len() {
            self.entries.set(at, entry);
        } else {
            self.entries.push(entry);
        }
        self.next_incarnation = next;
    }

    /// Stops tracking `leader_pid`. Nothing is signalled.
    pub fn forget(&mut self, leader_pid: u32)
        ensures
            final(self).spec_entries() == old(self).spec_entries().filter(
                |e: ProcessGroupEntry| e.leader_pid != leader_pid,
            ),
            final(self).spec_next_incarnation() == old(self).spec_next_incarnation(),
            old(self).is_wf() ==> final(self).is_wf(),
    {
        proof {
            lemma_filter_keeps_wf(
                self.entries@,
                self.next_incarnation,
                |e: ProcessGroupEntry| e.leader_pid != leader_pid,
            );
        }
        let keep = |e: &ProcessGroupEntry| -> (b: bool)
            ensures
                b == (e.leader_pid != leader_pid),
        {
            e.leader_pid != leader_pid
        };
        retain_where(
            &mut self.entries,
            keep,
            Ghost(|e: ProcessGroupEntry| e.leader_pid != leader_pid),
        );
    }

    /// Stops tracking the registration of exactly this pid and label. A late
    /// exit of an older owner leaves a newer owner of the same pid alone.
    pub fn forget_registration(&mut self, leader_pid: u32, label: &str)
        ensures
            final(self).spec_entries() == old(self).spec_entries().filter(
                |e: ProcessGroupEntry| e.leader_pid != leader_pid || e.label@ != label@,
            ),
            final(self).spec_next_incarnation() == old(self).spec_next_incarnation(),
            old(self).is_wf() ==> final(self).is_wf(),
    {
        let ghost kept = |e: ProcessGroupEntry| e.leader_pid != leader_pid || e.label@ != label@;
        proof {
            lemma_filter_keeps_wf(self.entries@, self.next_incarnation, kept);
        }
        let keep = |e: &ProcessGroupEntry| -> (b: bool)
            ensures
                b == (e.leader_pid != leader_pid || e.label@ != label@),
        {
            e.leader_pid != leader_pid || !same_text(e.label.as_str(), label)
        };
        retain_where(&mut self.entries, keep, Ghost(kept));
    }

    /// Whether `target` is the current registration of its pid.
    pub fn is_registered(&self, target: &ProcessGroupEntry) -> (current: bool)
        ensures
            current == is_current(self.spec_entries(), *target),
    {
        let mut at: usize = 0;
        while at < self.entries.len()
            invariant
                at <= self.entries.len(),
                forall|i: int|
                    0 <= i < at ==> !(#[trigger] self.entries@[i]).same_registration(*target),
            decreases self.entries.len() - at,
        {
            let entry = &self.entries[at];
            if entry.leader_pid == target.leader_pid && entry.incarnation == target.incarnation {
                proof {
                    assert(self.entries@[at as int].same_registration(*target));
                }
                return true;
            }
            at = at + 1;
        }
        false
    }

    /// Takes the answer to a signal that was sent to `target`, a current
    /// registration: the registration is dropped when its group has exited.
    pub fn record_answer(&mut self, target: &ProcessGroupEntry, answer: &Result<bool, String>)
        ensures
            final(self).spec_entries() == if *answer == Ok::<bool, String>(false) {
                without_registration(old(self).spec_entries(), *target)
            } else {
                old(self).spec_entries()
            },
            final(self).spec_next_incarnation() == old(self).spec_next_incarnation(),
            old(self).is_wf() ==> final(self).is_wf(),
    {
        let exited = match answer {
            Ok(delivered) => !*delivered,
            Err(_) => false,
        };
        if exited {
            let ghost kept = |e: ProcessGroupEntry| !e.same_registration(*target);
            proof {
                lemma_filter_keeps_wf(self.entries@, self.next_incarnation, kept);
            }
            let keep = |e: &ProcessGroupEntry| -> (b: bool)
                ensures
                    b == !e.same_registration(*target),
            {
                !(e.leader_pid == target.leader_pid && e.incarnation == target.incarnation)
            };
            retain_where(&mut self.entries, keep, Ghost(kept));
        }
    }

    /// The tracked groups.
    pub fn entries(&self) -> (entries: &[ProcessGroupEntry])
        ensures
            entries@ == self.spec_entries(),
    {
        self.entries.as_slice()
    }

    /// A copy of the tracked groups, to signal them later.
    pub fn snapshot(&self) -> (targets: Vec<ProcessGroupEntry>)
        ensures
            targets@ == self.spec_entries(),
    {
        duplicate_entries(self.entries.as_slice())
    }
}

/// Copies a list of entries.
pub fn duplicate_entries(entries: &[ProcessGroupEntry]) -> (copy: Vec<ProcessGroupEntry>)
    ensures
        copy@ == entries@,
{
    let mut copy: Vec<ProcessGroupEntry> = Vec::new();
    let mut at: usize = 0;
    while at < entries.len()
        invariant
            at <= entries.len(),
            copy@ =~= entries@.take(at as int),
        decreases entries.len() - at,
    {
        copy.push(entries[at].duplicate());
        at = at + 1;
    }
    proof {
        assert(entries@.take(entries@.len() as int) =~= entries@);
    }
    copy
}

proof fn lemma_filter_keeps_wf(
    entries: Seq<ProcessGroupEntry>,
    next: u64,
    kept: spec_fn(ProcessGroupEntry) -> bool,
)
    ensures
        registrations_wf(entries, next) ==> registrations_wf(entries.filter(kept), next),
    decreases entries.len(),
{
    reveal(Seq::filter);
    if entries.len() > 0 && registrations_wf(entries, next) {
        let rest = entries.drop_last();
        lemma_filter_keeps_wf(rest, next, kept);
        assert forall|i: int| 0 <= i < rest.filter(kept).len() implies exists|j: int|
            0 <= j < rest.len() && entries[j] == #[trigger] rest.filter(kept)[i] by {
            let j = lemma_filter_source(rest, kept, i);
            assert(entries[j] == rest.filter(kept)[i]);
        }
    }
}

/// The process groups of one window, with the signaller of its backend.
#[derive(Debug)]
pub struct ProcessGroups<S: ?Sized> {
    table: ProcessTable,
    signaller: Arc<S>,
}

impl<S: ?Sized> ProcessGroups<S> {
    /// The tracked groups.
    pub closed spec fn spec_entries(&self) -> Seq<ProcessGroupEntry> {
        self.table.spec_entries()
    }

    /// The incarnation of the next registration.
    pub closed spec fn spec_next_incarnation(&self) -> u64 {
        self.table.spec_next_incarnation()
    }

    /// What holds of every value that was made by [`ProcessGroups::new`].
    pub open spec fn is_wf(&self) -> bool {
        registrations_wf(self.spec_entries(), self.spec_next_incarnation())
    }

    /// The signaller in use.
    pub closed spec fn spec_signaller(&self) -> Arc<S> {
        self.signaller
    }

    /// Tracks nothing yet, and signals through `signaller`.
    pub fn new(signaller: Arc<S>) -> (groups: ProcessGroups<S>)
        ensures
            groups.spec_entries() == Seq::<ProcessGroupEntry>::empty(),
            groups.spec_next_incarnation() == 1,
            groups.spec_signaller() == signaller,
            groups.is_wf(),
    {
        ProcessGroups { signaller, table: ProcessTable::new() }
    }

    /// Tracks a process group leader: see [`ProcessTable::register`].
    pub fn register(&mut self, leader_pid: u32, label: &str)
        ensures
            registered(
                old(self).spec_entries(),
                old(self).spec_next_incarnation(),
                leader_pid,
                label@,
                final(self).spec_entries(),
                final(self).spec_next_incarnation(),
            ),
            final(self).spec_signaller() == old(self).spec_signaller(),
            old(self).is_wf() ==> final(self).is_wf(),
    {
        self.table.register(leader_pid, label);
    }

    /// Stops tracking `leader_pid`. Nothing is signalled.
    pub fn forget(&mut self, leader_pid: u32)
        ensures
            final(self).spec_entries() == old(self).spec_entries().filter(
                |e: ProcessGroupEntry| e.leader_pid != leader_pid,
            ),
            final(self).spec_next_incarnation() == old(self).spec_next_incarnation(),
            final(self).spec_signaller() == old(self).spec_signaller(),
            old(self).is_wf() ==> final(self).is_wf(),
    {
        self.table.forget(leader_pid);
    }

    /// Stops tracking the registration of exactly this pid and label.
    pub fn forget_registration(&mut self, leader_pid: u32, label: &str)
        ensures
            final(self).spec_entries() == old(self).spec_entries().filter(
                |e: ProcessGroupEntry| e.leader_pid != leader_pid || e.label@ != label@,
            ),
            final(self).spec_next_incarnation() == old(self).spec_next_incarnation(),
            final(self).spec_signaller() == old(self).spec_signaller(),
            old(self).is_wf() ==> final(self).is_wf(),
    {
        self.table.forget_registration(leader_pid, label);
    }

    /// Replaces the signaller. The tracked groups stay tracked.
    pub fn set_signaller(&mut self, signaller: Arc<S>)
        ensures
            final(self).spec_entries() == old(self).spec_entries(),
            final(self).spec_next_incarnation() == old(self).spec_next_incarnation(),
            final(self).spec_signaller() == signaller,
            old(self).is_wf() ==> final(self).is_wf(),
    {
        self.signaller = signaller;
    }

    /// The tracked groups.
    pub fn entries(&self) -> (entries: &[ProcessGroupEntry])
        ensures
            entries@ == self.spec_entries(),
    {
        self.table.entries()
    }
}

/// Whether the `i`-th outcome answers the `i`-th target: `Ok(false)` when the
/// target is not the current registration of its pid by then, and what the
/// signaller answered for its pid otherwise.
pub open spec fn answers_target<S: Signaller + ?Sized>(
    signaller: &S,
    signal_name: &str,
    entries: Seq<ProcessGroupEntry>,
    targets: Seq<ProcessGroupEntry>,
    outcomes: Seq<(ProcessGroupEntry, Result<bool, String>)>,
    i: int,
) -> bool {
    &&& outcomes[i].0 == targets[i]
    &&& if is_current(after_answers(entries, targets, outcomes, i), targets[i]) {
        call_ensures(
            S::signal,
            (signaller, targets[i].leader_pid, signal_name),
            outcomes[i].1,
        )
    } else {
        outcomes[i].1 == Ok::<bool, String>(false)
    }
}

/// Whether a signaller lets those of `targets` be signalled that are current. That
/// is all that is asked of it: where it lets nothing else be signalled, nothing
/// else is.
pub open spec fn admits_current<S: Signaller + ?Sized>(
    signaller: &S,
    entries: Seq<ProcessGroupEntry>,
    targets: Seq<ProcessGroupEntry>,
) -> bool {
    forall|i: int|
        0 <= i < targets.len() && is_current(entries, #[trigger] targets[i]) ==> signaller.admits(
            targets[i].leader_pid,
        )
}

/// What is current after some answers was current before them.
pub proof fn lemma_current_before(
    entries: Seq<ProcessGroupEntry>,
    targets: Seq<ProcessGroupEntry>,
    outcomes: Seq<(ProcessGroupEntry, Result<bool, String>)>,
    n: int,
    target: ProcessGroupEntry,
)
    requires
        is_current(after_answers(entries, targets, outcomes, n), target),
    ensures
        is_current(entries, target),
    decreases n,
{
    if n > 0 {
        let before = after_answers(entries, targets, outcomes, n - 1);
        let after = after_answers(entries, targets, outcomes, n);
        let i = choose|i: int|
            0 <= i < after.len() && #[trigger] after[i].same_registration(target);
        if after != before {
            let kept = |e: ProcessGroupEntry| !e.same_registration(targets[n - 1]);
            let j = lemma_filter_source(before, kept, i);
            assert(before[j].same_registration(target));
        } else {
            assert(before[i].same_registration(target));
        }
        lemma_current_before(entries, targets, outcomes, n - 1, target);
    }
}

/// What is left after `n` answers rests on those answers alone.
proof fn lemma_after_answers_prefix(
    entries: Seq<ProcessGroupEntry>,
    targets: Seq<ProcessGroupEntry>,
    a: Seq<(ProcessGroupEntry, Result<bool, String>)>,
    b: Seq<(ProcessGroupEntry, Result<bool, String>)>,
    n: int,
)
    requires
        0 <= n <= a.len(),
        n <= b.len(),
        forall|i: int| 0 <= i < n ==> a[i] == b[i],
    ensures
        after_answers(entries, targets, a, n) == after_answers(entries, targets, b, n),
    decreases n,
{
    if n > 0 {
        lemma_after_answers_prefix(entries, targets, a, b, n - 1);
    }
}

impl ProcessTable {
    /// Signals exactly those of `targets` whose registration is still the
    /// current one, so that a signal captured for a process that has exited
    /// never reaches a process that got its pid.
    pub fn signal_targets<S: Signaller + ?Sized>(
        &mut self,
        signaller: &S,
        signal_name: &str,
        targets: &[ProcessGroupEntry],
    ) -> (outcomes: Vec<(ProcessGroupEntry, Result<bool, String>)>)
        requires
            admits_current(signaller, old(self).spec_entries(), targets@),
        ensures
            outcomes@.len() == targets@.len(),
            forall|i: int|
                0 <= i < outcomes@.len() ==> #[trigger] answers_target(
                    signaller,
                    signal_name,
                    old(self).spec_entries(),
                    targets@,
                    outcomes@,
                    i,
                ),
            final(self).spec_entries() == after_answers(
                old(self).spec_entries(),
                targets@,
                outcomes@,
                targets@.len() as int,
            ),
            final(self).spec_next_incarnation() == old(self).spec_next_incarnation(),
            old(self).is_wf() ==> final(self).is_wf(),
    {
        let mut outcomes: Vec<(ProcessGroupEntry, Result<bool, String>)> = Vec::new();
        let ghost entries = self.spec_entries();
        let mut at: usize = 0;
        while at < targets.len()
            invariant
                at <= targets.len(),
                outcomes.len() == at,
                admits_current(signaller, entries, targets@),
                self.spec_next_incarnation() == old(self).spec_next_incarnation(),
                old(self).is_wf() ==> self.is_wf(),
                forall|i: int|
                    0 <= i < outcomes@.len() ==> #[trigger] answers_target(
                        signaller,
                        signal_name,
                        entries,
                        targets@,
                        outcomes@,
                        i,
                    ),
                self.spec_entries() == after_answers(entries, targets@, outcomes@, at as int),
            decreases targets.len() - at,
        {
            let target = &targets[at];
            let ghost before = outcomes@;
            let answer = if self.is_registered(target) {
                proof {
                    lemma_current_before(entries, targets@, before, at as int, *target);
                }
                let answer = signaller.signal(target.leader_pid, signal_name);
                self.record_answer(target, &answer);
                answer
            } else {
                Ok(false)
            };
            outcomes.push((target.duplicate(), answer));
            proof {
                lemma_after_answers_prefix(entries, targets@, before, outcomes@, at as int);
                assert forall|i: int| 0 <= i < outcomes@.len() implies #[trigger] answers_target(
                    signaller,
                    signal_name,
                    entries,
                    targets@,
                    outcomes@,
                    i,
                ) by {
                    lemma_after_answers_prefix(entries, targets@, before, outcomes@, i);
                    if i < at {
                        assert(answers_target(
                            signaller,
                            signal_name,
                            entries,
                            targets@,
                            before,
                            i,
                        ));
                    }
                }
            }
            at = at + 1;
        }
        outcomes
    }
}

impl<S: Signaller + ?Sized> ProcessGroups<S> {
    /// Signals every process group that is registered now: see
    /// [`ProcessGroups::signal_targets`].
    pub fn signal_all(&mut self, signal_name: &str) -> (outcomes: Vec<
        (ProcessGroupEntry, Result<bool, String>),
    >)
        requires
            admits_current(
                &*old(self).spec_signaller(),
                old(self).spec_entries(),
                old(self).spec_entries(),
            ),
        ensures
            outcomes@.len() == old(self).spec_entries().len(),
            forall|i: int|
                0 <= i < outcomes@.len() ==> #[trigger] answers_target(
                    &*old(self).spec_signaller(),
                    signal_name,
                    old(self).spec_entries(),
                    old(self).spec_entries(),
                    outcomes@,
                    i,
                ),
            final(self).spec_entries() == after_answers(
                old(self).spec_entries(),
                old(self).spec_entries(),
                outcomes@,
                outcomes@.len() as int,
            ),
            final(self).spec_next_incarnation() == old(self).spec_next_incarnation(),
            final(self).spec_signaller() == old(self).spec_signaller(),
            old(self).is_wf() ==> final(self).is_wf(),
    {
        let targets = self.table.snapshot();
        self.signal_targets(signal_name, targets.as_slice())
    }

    /// Signals exactly those of `targets` whose registration is still the
    /// current one: see [`ProcessTable::signal_targets`].
    pub fn signal_targets(&mut self, signal_name: &str, targets: &[ProcessGroupEntry]) -> (outcomes: Vec<
        (ProcessGroupEntry, Result<bool, String>),
    >)
        requires
            admits_current(&*old(self).spec_signaller(), old(self).spec_entries(), targets@),
        ensures
            outcomes@.len() == targets@.len(),
            forall|i: int|
                0 <= i < outcomes@.len() ==> #[trigger] answers_target(
                    &*old(self).spec_signaller(),
                    signal_name,
                    old(self).spec_entries(),
                    targets@,
                    outcomes@,
                    i,
                ),
            final(self).spec_entries() == after_answers(
                old(self).spec_entries(),
                targets@,
                outcomes@,
                targets@.len() as int,
            ),
            final(self).spec_next_incarnation() == old(self).spec_next_incarnation(),
            final(self).spec_signaller() == old(self).spec_signaller(),
            old(self).is_wf() ==> final(self).is_wf(),
    {
        self.table.signal_targets(&*self.signaller, signal_name, targets)
    }
}

impl Default for ProcessGroups<LocalSignaller> {
    fn default() -> (groups: ProcessGroups<LocalSignaller>)
        ensures
            groups.spec_entries() == Seq::<ProcessGroupEntry>::empty(),
            groups.spec_next_incarnation() == 1,
    {
        ProcessGroups::new(Arc::new(LocalSignaller))
    }
}

/// Signals the groups of a window that is gone: `entries` is all that it tracked,
/// and nothing tracks them any more.
pub fn signal_untracked<S: Signaller + ?Sized>(
    signaller: &S,
    signal_name: &str,
    entries: &[ProcessGroupEntry],
) -> (outcomes: Vec<(ProcessGroupEntry, Result<bool, String>)>)
    requires
        admits_current(signaller, entries@, entries@),
    ensures
        outcomes@.len() == entries@.len(),
        forall|i: int|
            0 <= i < outcomes@.len() ==> #[trigger] answers_target(
                signaller,
                signal_name,
                entries@,
                entries@,
                outcomes@,
                i,
            ),
{
    let mut table = ProcessTable { entries: duplicate_entries(entries), next_incarnation: 1 };
    table.signal_targets(signaller, signal_name, entries)
}

} // verus!
