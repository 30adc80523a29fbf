//! Timers: each fires once in a turn.
use vstd::prelude::*;

use crate::timers::due_ids;
use crate::timers::is_due;
use crate::timers::other_timer;
use crate::timers::rearmed;
use crate::timers::stays;
use crate::timers::timers_after;
use crate::timers::PluginTimer;

verus! {

/// Setting a timer again leaves one timer with its id: the new one.
pub proof fn setting_a_timer_replaces_it(timers: Seq<PluginTimer>, timer: PluginTimer, i: int)
    requires
        0 <= i < timers.filter(other_timer(timer.id)).push(timer).len(),
        timers.filter(other_timer(timer.id)).push(timer)[i].id == timer.id,
    ensures
        timers.filter(other_timer(timer.id)).push(timer)[i] == timer,
        i == timers.filter(other_timer(timer.id)).len(),
{
    let others = timers.filter(other_timer(timer.id));
    if i < others.len() {
        timers.lemma_filter_pred(other_timer(timer.id), i);
    }
}

/// A timer that was cancelled does not fire.
pub proof fn a_cancelled_timer_never_fires(timers: Seq<PluginTimer>, id: u64, now: u64)
    ensures
        !due_ids(timers.filter(other_timer(id)), now).contains(id),
{
    let rest = timers.filter(other_timer(id));
    let due = rest.filter(is_due(now));
    let ids = due_ids(rest, now);
    assert forall|i: int| 0 <= i < ids.len() implies ids[i] != id by {
        let j = crate::lists::lemma_filter_source(rest, is_due(now), i);
        timers.lemma_filter_pred(other_timer(id), j);
        assert(ids[i] == due[i].id);
    }
}

/// A timer that fires once is gone once it has fired.
pub proof fn a_one_shot_timer_fires_once(timers: Seq<PluginTimer>, now: u64, i: int)
    requires
        0 <= i < timers_after(timers, now).len(),
        !timers_after(timers, now)[i].repeat,
    ensures
        !due_ids(timers, now).contains(timers_after(timers, now)[i].id),
{
    let fired = due_ids(timers, now);
    if fired.len() > 0 {
        timers.map_values(rearmed(now)).lemma_filter_pred(stays(fired), i);
    }
}

/// A timer that has fired does not fire again in the same turn, as long as
/// time has not run out.
pub proof fn timers_fire_once_in_a_turn(timers: Seq<PluginTimer>, now: u64)
    requires
        forall|i: int| 0 <= i < timers.len() ==> (#[trigger] timers[i]).interval_ms > 0,
        now < u64::MAX,
    ensures
        due_ids(timers_after(timers, now), now).len() == 0,
{
    let after = timers_after(timers, now);
    let due = after.filter(is_due(now));
    if due.len() > 0 {
        let j = crate::lists::lemma_filter_source(after, is_due(now), 0);
        after.lemma_filter_pred(is_due(now), 0);
        if due_ids(timers, now).len() > 0 {
            let armed = timers.map_values(rearmed(now));
            let k = crate::lists::lemma_filter_source(armed, stays(due_ids(timers, now)), j);
            assert(armed[k] == rearmed(now)(timers[k]));
            assert(timers[k].interval_ms > 0);
        } else {
            assert(timers[j].next_fire_ms <= now);
            timers.lemma_filter_contains(is_due(now), j);
            assert(timers.filter(is_due(now)).len() > 0);
        }
    }
}

/// A timer that is not due stays as it is.
pub proof fn a_timer_that_is_not_due_stays(timers: Seq<PluginTimer>, now: u64, i: int)
    requires
        0 <= i < timers.len(),
        timers[i].next_fire_ms > now,
        !due_ids(timers, now).contains(timers[i].id),
    ensures
        timers_after(timers, now).contains(timers[i]),
{
    if due_ids(timers, now).len() > 0 {
        let armed = timers.map_values(rearmed(now));
        assert(armed[i] == timers[i]);
        armed.lemma_filter_contains(stays(due_ids(timers, now)), i);
    } else {
        assert(timers[i] == timers_after(timers, now)[i]);
    }
}

} // verus!
