//! Process groups: whom a signal reaches, and whom it never does.
use vstd::prelude::*;

use crate::process_group::admits_current;
use crate::process_group::after_answers;
use crate::process_group::answers_target;
use crate::process_group::is_current;
use crate::process_group::lemma_current_before;
use crate::process_group::registered;
use crate::process_group::registrations_wf;
use crate::process_group::without_registration;
use crate::process_group::ProcessGroupEntry;
use crate::process_group::Signaller;

verus! {

/// Registering a pid again for the same owner changes nothing.
pub proof fn registering_again_changes_nothing(
    entries: Seq<ProcessGroupEntry>,
    next: u64,
    leader_pid: u32,
    label: Seq<char>,
    once: Seq<ProcessGroupEntry>,
    once_next: u64,
    twice: Seq<ProcessGroupEntry>,
    twice_next: u64,
)
    requires
        registered(entries, next, leader_pid, label, once, once_next),
        registered(once, once_next, leader_pid, label, twice, twice_next),
    ensures
        twice == once,
        twice_next == once_next,
{
    if exists|i: int|
        0 <= i < entries.len() && (#[trigger] entries[i]).leader_pid == leader_pid {
        let i = choose|i: int|
            {
                &&& 0 <= i < entries.len()
                &&& (#[trigger] entries[i]).leader_pid == leader_pid
                &&& forall|j: int| 0 <= j < i ==> (#[trigger] entries[j]).leader_pid != leader_pid
                &&& if entries[i].label@ == label {
                    once == entries && once_next == next
                } else {
                    &&& once.len() == entries.len()
                    &&& once[i].leader_pid == leader_pid
                    &&& once[i].label@ == label
                    &&& once == entries.update(i, once[i])
                }
            };
        assert(once[i].leader_pid == leader_pid && once[i].label@ == label);
        lemma_found_again(once, once_next, leader_pid, label, i, twice, twice_next);
    } else {
        let i = once.len() - 1;
        assert(once[i]@.leader_pid == leader_pid && once[i]@.label == label);
        assert forall|j: int| 0 <= j < i implies (#[trigger] once[j]).leader_pid != leader_pid by {
            assert(once[j] == entries[j]);
        }
        lemma_found_again(once, once_next, leader_pid, label, i, twice, twice_next);
    }
}

proof fn lemma_found_again(
    once: Seq<ProcessGroupEntry>,
    once_next: u64,
    leader_pid: u32,
    label: Seq<char>,
    i: int,
    twice: Seq<ProcessGroupEntry>,
    twice_next: u64,
)
    requires
        0 <= i < once.len(),
        once[i].leader_pid == leader_pid,
        once[i].label@ == label,
        forall|j: int| 0 <= j < i ==> (#[trigger] once[j]).leader_pid != leader_pid,
        registered(once, once_next, leader_pid, label, twice, twice_next),
    ensures
        twice == once,
        twice_next == once_next,
{
    assert(once[i].leader_pid == leader_pid);
    let k = choose|k: int|
        {
            &&& 0 <= k < once.len()
            &&& (#[trigger] once[k]).leader_pid == leader_pid
            &&& forall|j: int| 0 <= j < k ==> (#[trigger] once[j]).leader_pid != leader_pid
            &&& if once[k].label@ == label {
                twice == once && twice_next == once_next
            } else {
                twice.len() == once.len()
            }
        };
    if k < i {
        assert(once[k].leader_pid != leader_pid);
    } else if i < k {
        assert(once[i].leader_pid != leader_pid);
    }
}

/// Registering a pid for another owner retires the old registration: what was
/// captured of it is not current any more.
pub proof fn another_owner_retires_the_old_registration(
    entries: Seq<ProcessGroupEntry>,
    next: u64,
    leader_pid: u32,
    label: Seq<char>,
    target: ProcessGroupEntry,
    after: Seq<ProcessGroupEntry>,
    after_next: u64,
)
    requires
        registrations_wf(entries, next),
        next < u64::MAX,
        registered(entries, next, leader_pid, label, after, after_next),
        target.leader_pid == leader_pid,
        entries.contains(target),
        target.label@ != label,
    ensures
        !is_current(after, target),
        is_current(entries, target),
        after_next == next + 1,
{
    let at = entries.index_of(target);
    assert(entries[at] == target);
    assert(entries[at].same_registration(target));
    let i = choose|i: int|
        {
            &&& 0 <= i < entries.len()
            &&& (#[trigger] entries[i]).leader_pid == leader_pid
            &&& forall|j: int| 0 <= j < i ==> (#[trigger] entries[j]).leader_pid != leader_pid
            &&& if entries[i].label@ == label {
                after == entries && after_next == next
            } else {
                &&& after.len() == entries.len()
                &&& after[i].leader_pid == leader_pid
                &&& after[i].incarnation == next
                &&& after == entries.update(i, after[i])
                &&& after_next == next + 1
            }
        };
    if i < at {
        assert(entries[i].leader_pid != entries[at].leader_pid);
    } else if at < i {
        assert(entries[at].leader_pid != leader_pid);
    }
    assert forall|j: int| 0 <= j < after.len() implies !(#[trigger] after[j]).same_registration(
        target,
    ) by {
        if j != i {
            assert(after[j] == entries[j]);
            if j < i {
                assert(entries[j].leader_pid != entries[i].leader_pid);
            } else {
                assert(entries[i].leader_pid != entries[j].leader_pid);
            }
        }
    }
}

/// A pid that is forgotten and comes back gets an incarnation that nothing had
/// before, so that what was captured of it is not current any more.
pub proof fn a_reused_pid_is_another_registration(
    entries: Seq<ProcessGroupEntry>,
    next: u64,
    leader_pid: u32,
    label: Seq<char>,
    target: ProcessGroupEntry,
    after: Seq<ProcessGroupEntry>,
    after_next: u64,
)
    requires
        registrations_wf(entries, next),
        next < u64::MAX,
        entries.contains(target),
        target.leader_pid == leader_pid,
        registered(
            entries.filter(|e: ProcessGroupEntry| e.leader_pid != leader_pid),
            next,
            leader_pid,
            label,
            after,
            after_next,
        ),
    ensures
        !is_current(after, target),
{
    let kept = |e: ProcessGroupEntry| e.leader_pid != leader_pid;
    let rest = entries.filter(kept);
    assert forall|i: int| 0 <= i < rest.len() implies (#[trigger] rest[i]).leader_pid
        != leader_pid by {
        entries.lemma_filter_pred(kept, i);
    }
    let at = entries.index_of(target);
    assert(entries[at].incarnation < next);
    assert forall|j: int| 0 <= j < after.len() implies !(#[trigger] after[j]).same_registration(
        target,
    ) by {
        if j < rest.len() {
            assert(after[j] == rest[j]);
        } else {
            assert(after.last()@.incarnation == next);
        }
    }
}

/// The late exit of an older owner of a pid leaves its newer owner alone.
pub proof fn a_late_exit_spares_the_new_owner(
    entries: Seq<ProcessGroupEntry>,
    leader_pid: u32,
    old_label: Seq<char>,
    owner: ProcessGroupEntry,
)
    requires
        entries.contains(owner),
        owner.label@ != old_label,
    ensures
        entries.filter(
            |e: ProcessGroupEntry| e.leader_pid != leader_pid || e.label@ != old_label,
        ).contains(owner),
{
    let kept = |e: ProcessGroupEntry| e.leader_pid != leader_pid || e.label@ != old_label;
    let at = entries.index_of(owner);
    assert(entries[at] == owner);
    entries.lemma_filter_contains(kept, at);
}

/// Whether a signaller lets just those of `targets` be signalled that are current,
/// and no other group at all.
pub open spec fn admits_only_current<S: Signaller + ?Sized>(
    signaller: &S,
    entries: Seq<ProcessGroupEntry>,
    targets: Seq<ProcessGroupEntry>,
) -> bool {
    forall|pid: u32| #[trigger]
        signaller.admits(pid) <==> exists|i: int|
            0 <= i < targets.len() && (#[trigger] targets[i]).leader_pid == pid && is_current(
                entries,
                targets[i],
            )
}

/// A signal that was captured for a registration which is gone is not sent, and
/// nothing changes for it. Even a signaller that lets nothing be signalled but the
/// targets which are current meets what is asked of it, and it does not let the
/// pid of such a registration be signalled: neither a process that got the pid
/// since, nor anything else.
pub proof fn a_stale_target_is_never_signalled<S: Signaller + ?Sized>(
    signaller: &S,
    signal_name: &str,
    entries: Seq<ProcessGroupEntry>,
    targets: Seq<ProcessGroupEntry>,
    outcomes: Seq<(ProcessGroupEntry, Result<bool, String>)>,
    i: int,
)
    requires
        admits_only_current(signaller, entries, targets),
        0 <= i < targets.len(),
        outcomes.len() == targets.len(),
        answers_target(signaller, signal_name, entries, targets, outcomes, i),
        !is_current(entries, targets[i]),
        forall|j: int|
            0 <= j < targets.len() && (#[trigger] targets[j]).leader_pid == targets[i].leader_pid
                ==> targets[j].incarnation == targets[i].incarnation,
    ensures
        admits_current(signaller, entries, targets),
        !signaller.admits(targets[i].leader_pid),
        outcomes[i].1 == Ok::<bool, String>(false),
        after_answers(entries, targets, outcomes, i + 1) == after_answers(
            entries,
            targets,
            outcomes,
            i,
        ),
{
    if is_current(after_answers(entries, targets, outcomes, i), targets[i]) {
        lemma_current_before(entries, targets, outcomes, i, targets[i]);
    }
    assert forall|j: int|
        0 <= j < targets.len() && (#[trigger] targets[j]).leader_pid
            == targets[i].leader_pid implies !is_current(entries, targets[j]) by {
        if is_current(entries, targets[j]) {
            let k = choose|k: int|
                0 <= k < entries.len() && #[trigger] entries[k].same_registration(targets[j]);
            assert(entries[k].same_registration(targets[i]));
        }
    }
}

/// A group that has turned out to be gone is not signalled again: sending a
/// signal once more to it is answered the same way, and changes nothing.
pub proof fn an_exited_group_is_not_signalled_again(
    entries: Seq<ProcessGroupEntry>,
    target: ProcessGroupEntry,
)
    ensures
        !is_current(without_registration(entries, target), target),
        without_registration(without_registration(entries, target), target)
            == without_registration(entries, target),
{
    let kept = |e: ProcessGroupEntry| !e.same_registration(target);
    let rest = entries.filter(kept);
    assert forall|i: int| 0 <= i < rest.len() implies !(#[trigger] rest[i]).same_registration(
        target,
    ) by {
        entries.lemma_filter_pred(kept, i);
    }
    lemma_filter_all(rest, kept);
}

proof fn lemma_filter_all(
    entries: Seq<ProcessGroupEntry>,
    kept: spec_fn(ProcessGroupEntry) -> bool,
)
    requires
        forall|i: int| 0 <= i < entries.len() ==> kept(#[trigger] entries[i]),
    ensures
        entries.filter(kept) == entries,
    decreases entries.len(),
{
    reveal(Seq::filter);
    if entries.len() > 0 {
        lemma_filter_all(entries.drop_last(), kept);
        assert(entries =~= entries.drop_last().push(entries.last()));
    }
}

} // verus!
