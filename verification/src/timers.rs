//! Timers of plugins.
use vstd::prelude::*;

use crate::dormant::holds_number;
use crate::editor::effect_models;
use crate::editor::Editor;
use crate::editor::EditorModel;
use crate::editor::PluginsModel;
use crate::effects::Effect;
use crate::effects::EffectModel;
use crate::lists::retain_where;

verus! {

/// A timer of a plugin. Times are in milliseconds.
#[derive(Debug)]
pub struct PluginTimer {
    pub id: u64,
    pub plugin_name: String,
    pub handler_name: String,
    pub interval_ms: u64,
    pub repeat: bool,
    pub next_fire_ms: u64,
}

/// The moment that is `interval` after `now`. There is none after the last.
pub open spec fn moment_after(now: u64, interval: u64) -> u64 {
    if now + interval > u64::MAX {
        u64::MAX
    } else {
        (now + interval) as u64
    }
}

/// The moment that is `interval` after `now`.
fn after_interval(now: u64, interval: u64) -> (moment: u64)
    ensures
        moment == moment_after(now, interval),
{
    if interval > u64::MAX - now {
        u64::MAX
    } else {
        now + interval
    }
}

/// Whether a timer has another id.
pub open spec fn other_timer(id: u64) -> spec_fn(PluginTimer) -> bool {
    |t: PluginTimer| t.id != id
}

/// Whether a timer has come due.
pub open spec fn is_due(now: u64) -> spec_fn(PluginTimer) -> bool {
    |t: PluginTimer| t.next_fire_ms <= now
}

/// A timer that has come due is set for its next turn.
pub open spec fn rearmed(now: u64) -> spec_fn(PluginTimer) -> PluginTimer {
    |t: PluginTimer|
        if t.next_fire_ms <= now {
            PluginTimer { next_fire_ms: moment_after(now, t.interval_ms), ..t }
        } else {
            t
        }
}

/// The ids of the timers that have come due.
pub open spec fn due_ids(timers: Seq<PluginTimer>, now: u64) -> Seq<u64> {
    timers.filter(is_due(now)).map_values(|t: PluginTimer| t.id)
}

/// The handlers of the timers that have come due.
pub open spec fn due_effects(timers: Seq<PluginTimer>, now: u64) -> Seq<EffectModel> {
    timers.filter(is_due(now)).map_values(
        |t: PluginTimer|
            EffectModel::Plain(Effect::RunTimer { timer: t.id, handler: t.handler_name }),
    )
}

/// Whether a timer stays: one that fires once does not after it has.
pub open spec fn stays(fired: Seq<u64>) -> spec_fn(PluginTimer) -> bool {
    |t: PluginTimer| t.repeat || !fired.contains(t.id)
}

/// The timers once those that have come due have fired.
pub open spec fn timers_after(timers: Seq<PluginTimer>, now: u64) -> Seq<PluginTimer> {
    if due_ids(timers, now).len() == 0 {
        timers
    } else {
        timers.map_values(rearmed(now)).filter(stays(due_ids(timers, now)))
    }
}

impl EditorModel {
    /// This editor with other timers.
    pub open spec fn with_timers(self, timers: Seq<PluginTimer>) -> EditorModel {
        EditorModel { plugins: PluginsModel { timers, ..self.plugins }, ..self }
    }
}

impl Editor {
    /// Drops the timer `timer`.
    fn drop_timer(&mut self, timer: u64)
        ensures
            final(self)@ == old(self)@.with_timers(
                old(self)@.plugins.timers.filter(other_timer(timer)),
            ),
    {
        let keep = |t: &PluginTimer| -> (kept: bool)
            ensures
                kept == (t.id != timer),
        {
            t.id != timer
        };
        retain_where(&mut self.plugins.timers, keep, Ghost(other_timer(timer)));
    }

    /// Sets a timer. One with the same id is replaced, so that no timer fires
    /// twice in a turn.
    pub fn handle_set_plugin_timer(
        &mut self,
        timer: u64,
        plugin_name: String,
        handler_name: String,
        interval_ms: u64,
        repeat: bool,
        now_ms: u64,
    )
        ensures
            final(self)@ == old(self)@.with_timers(
                old(self)@.plugins.timers.filter(other_timer(timer)).push(
                    PluginTimer {
                        id: timer,
                        plugin_name,
                        handler_name,
                        interval_ms,
                        repeat,
                        next_fire_ms: moment_after(now_ms, interval_ms),
                    },
                ),
            ),
    {
        self.drop_timer(timer);
        self.plugins.timers.push(
            PluginTimer {
                id: timer,
                plugin_name,
                handler_name,
                interval_ms,
                repeat,
                next_fire_ms: after_interval(now_ms, interval_ms),
            },
        );
    }

    /// Cancels a timer. Nothing happens where there is no such timer.
    pub fn handle_clear_plugin_timer(&mut self, timer: u64)
        ensures
            final(self)@ == old(self)@.with_timers(
                old(self)@.plugins.timers.filter(other_timer(timer)),
            ),
    {
        self.drop_timer(timer);
    }

    /// Fires every timer that has come due, and says whether any has. All
    /// timers are set for their next turn, and those that fire once are
    /// dropped, before any handler runs.
    pub fn check_plugin_timers(&mut self, now_ms: u64) -> (fired: bool)
        ensures
            fired == (due_ids(old(self)@.plugins.timers, now_ms).len() > 0),
            final(self)@ == old(self)@.with_timers(
                timers_after(old(self)@.plugins.timers, now_ms),
            ).asking_all(due_effects(old(self)@.plugins.timers, now_ms)),
    {
        let ghost before = self@;
        let ghost timers = self.plugins.timers@;
        let mut effects: Vec<Effect> = Vec::new();
        let mut fired: Vec<u64> = Vec::new();
        let mut at: usize = 0;
        proof {
            reveal(Seq::filter);
            assert(timers.take(0) =~= Seq::<PluginTimer>::empty());
            assert(due_ids(timers.take(0), now_ms) =~= Seq::<u64>::empty());
            assert(effect_models(effects@) =~= due_effects(timers.take(0), now_ms));
        }
        while at < self.plugins.timers.len()
            invariant
                at <= self.plugins.timers@.len(),
                timers == before.plugins.timers,
                timers.len() == self.plugins.timers@.len(),
                self@ == before.with_timers(self.plugins.timers@),
                self.plugins.timers@ =~= timers.map_values(rearmed(now_ms)).take(at as int)
                    + timers.skip(at as int),
                fired@ == due_ids(timers.take(at as int), now_ms),
                effect_models(effects@) == due_effects(timers.take(at as int), now_ms),
            decreases self.plugins.timers.len() - at,
        {
            proof {
                reveal(Seq::filter);
                assert(timers.take(at + 1).drop_last() =~= timers.take(at as int));
                assert(timers.take(at + 1).last() == timers[at as int]);
                assert(self.plugins.timers@[at as int] == timers[at as int]);
            }
            if self.plugins.timers[at].next_fire_ms <= now_ms {
                let timer: u64 = self.plugins.timers[at].id;
                let handler = self.plugins.timers[at].handler_name.clone();
                let interval: u64 = self.plugins.timers[at].interval_ms;
                let ghost asked = effects@;
                effects.push(Effect::RunTimer { timer, handler });
                fired.push(timer);
                self.plugins.timers[at].next_fire_ms = after_interval(now_ms, interval);
                proof {
                    assert(effect_models(effects@) =~= effect_models(asked).push(
                        effects@.last()@,
                    ));
                    assert(due_effects(timers.take(at + 1), now_ms) =~= due_effects(
                        timers.take(at as int),
                        now_ms,
                    ).push(effects@.last()@));
                    assert(due_ids(timers.take(at + 1), now_ms) =~= due_ids(
                        timers.take(at as int),
                        now_ms,
                    ).push(timer));
                }
            }
            at = at + 1;
        }
        proof {
            assert(timers.take(timers.len() as int) =~= timers);
        }
        if fired.len() == 0 {
            proof {
                assert forall|i: int| 0 <= i < timers.len() implies rearmed(now_ms)(
                    #[trigger] timers[i],
                ) == timers[i] by {
                    if timers[i].next_fire_ms <= now_ms {
                        timers.lemma_filter_contains(is_due(now_ms), i);
                        assert(timers.filter(is_due(now_ms)).len() > 0);
                    }
                }
                assert(self.plugins.timers@ =~= timers);
                assert(before.asking_all(due_effects(timers, now_ms)).outbox =~= before.outbox);
            }
            return false;
        }
        let keep = |t: &PluginTimer| -> (kept: bool)
            ensures
                kept == (t.repeat || !fired@.contains(t.id)),
        {
            t.repeat || !holds_number(&fired, t.id)
        };
        proof {
            assert(self.plugins.timers@ =~= timers.map_values(rearmed(now_ms)));
        }
        retain_where(
            &mut self.plugins.timers,
            keep,
            Ghost(stays(due_ids(timers, now_ms))),
        );
        self.emit_all(effects);
        true
    }
}

} // verus!
