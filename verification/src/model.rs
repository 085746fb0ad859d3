//! The state of a session as a mathematical value, and the steps of a
//! tick as functions on it.
//!
//! A tick runs three steps in a fixed order: the spawn step, the movement
//! step, and the interaction step. Each is a function from the state
//! before to the state after; the spawn step also depends on what was
//! drawn for the new bug.

use crate::animation::announced_all;
use crate::components::BugPathWalk;
use crate::components::BugRecord;
use crate::effects::EffectTypeEvent;
use crate::interaction::judged_all;
use crate::interaction::BugEntityClickedEvent;
use crate::movement::walked_all;
use crate::spawn::SpawnRules;
use crate::spawn::SpawnSchedule;
use vstd::prelude::*;

verus! {

/// The state of a session.
pub struct SessionView {
    /// The bugs on the field, alive and dead, oldest first.
    pub bugs: Seq<BugRecord>,
    /// The number of bugs killed so far.
    pub score: u64,
    /// When the next bug spawns, and how many may be on the field.
    pub schedule: SpawnSchedule,
    /// What is drawn for a new bug.
    pub rules: SpawnRules,
    /// The identity that the next bug gets.
    pub next_id: u64,
    /// The effects emitted in the current tick, in order.
    pub effects: Seq<EffectTypeEvent>,
}

/// The number of bugs among these that are alive.
pub open spec fn live_count(bugs: Seq<BugRecord>) -> nat
    decreases bugs.len(),
{
    if bugs.len() == 0 {
        0
    } else {
        live_count(bugs.drop_last()) + if bugs.last().alive() {
            1nat
        } else {
            0nat
        }
    }
}

/// Every identity among the bugs is less than `bound`.
pub open spec fn ids_below(bugs: Seq<BugRecord>, bound: int) -> bool {
    forall|i: int| 0 <= i < bugs.len() ==> (#[trigger] bugs[i]).id < bound
}

/// The identities grow along the sequence, so no two bugs share one.
pub open spec fn ids_ascend(bugs: Seq<BugRecord>) -> bool {
    forall|i: int, j: int|
        0 <= i < j < bugs.len() ==> (#[trigger] bugs[i]).id < (#[trigger] bugs[j]).id
}

/// The bug with the identity `id` among these, if there is one.
pub open spec fn lookup(bugs: Seq<BugRecord>, id: u64) -> Option<BugRecord>
    decreases bugs.len(),
{
    if bugs.len() == 0 {
        None
    } else if bugs.last().id == id {
        Some(bugs.last())
    } else {
        lookup(bugs.drop_last(), id)
    }
}

/// Every record among the bugs is sound.
pub open spec fn all_wf(bugs: Seq<BugRecord>) -> bool {
    forall|i: int| 0 <= i < bugs.len() ==> (#[trigger] bugs[i]).wf()
}

impl SessionView {
    /// The state is sound:
    /// the field holds no more bugs than the population cap; every record
    /// is sound; no two bugs share an identity, and every identity in use
    /// is older than the next one; every dead bug on the field has raised
    /// the score; and every bug that was killed, or is still alive, has
    /// been given its identity.
    pub open spec fn wf(self) -> bool {
        &&& self.schedule.wf()
        &&& self.rules.wf()
        &&& self.bugs.len() <= self.schedule.population_cap
        &&& all_wf(self.bugs)
        &&& ids_ascend(self.bugs)
        &&& ids_below(self.bugs, self.next_id as int)
        &&& self.bugs.len() - live_count(self.bugs) <= self.score
        &&& self.score + live_count(self.bugs) <= self.next_id
    }

    /// The state of a new session.
    pub open spec fn fresh(rules: SpawnRules, schedule: SpawnSchedule) -> SessionView {
        SessionView {
            bugs: Seq::empty(),
            score: 0,
            schedule,
            rules,
            next_id: 0,
            effects: Seq::empty(),
        }
    }

    /// The state with the effects of the last tick cleared away.
    pub open spec fn cleared(self) -> SessionView {
        SessionView { effects: Seq::empty(), ..self }
    }

    /// The spawn step admits a bug after `elapsed` more time: the
    /// countdown has then fired, the field has room, and an identity is
    /// left to give.
    pub open spec fn admits(self, elapsed: u64) -> bool {
        self.schedule.ticked(elapsed).due(self.bugs.len()) && self.next_id < u64::MAX
    }

    /// The state after a spawn step for which `walk` and `delay` were
    /// drawn.
    ///
    /// Where the step admits a bug, the bug joins the field behind the
    /// others, on the first waypoint of `walk`, with the hit threshold that
    /// goes with the current score, and the countdown is armed with
    /// `delay`. Where it does not, only the countdown runs on.
    pub open spec fn spawned(self, elapsed: u64, walk: BugPathWalk, delay: u64) -> SessionView {
        if self.admits(elapsed) {
            SessionView {
                bugs: self.bugs.push(BugRecord::fresh(self.next_id, self.score, walk)),
                schedule: self.schedule.rearmed(delay),
                next_id: (self.next_id + 1) as u64,
                ..self
            }
        } else {
            SessionView { schedule: self.schedule.ticked(elapsed), ..self }
        }
    }

    /// `after` is a state that the spawn step may lead to from this one:
    /// the state after the step for some patrol and delay that the rules
    /// allow to be drawn.
    pub open spec fn spawn_leads_to(self, elapsed: u64, after: SessionView) -> bool {
        if self.admits(elapsed) {
            exists|walk: BugPathWalk, delay: u64|
                #![trigger self.spawned(elapsed, walk, delay)]
                self.rules.allows(walk, delay) && after == self.spawned(elapsed, walk, delay)
        } else {
            after == (SessionView { schedule: self.schedule.ticked(elapsed), ..self })
        }
    }

    /// The state after the movement step.
    pub open spec fn moved(self, elapsed: u64) -> SessionView {
        SessionView { bugs: walked_all(self.bugs, elapsed), ..self }
    }

    /// The state after the interaction step: the bugs that stay, the
    /// effects emitted behind those already there, and the score raised by
    /// one for each bug that has died in the step.
    pub open spec fn struck(self, clicks: Seq<BugEntityClickedEvent>, elapsed: u64) -> SessionView {
        let tally = judged_all(self.bugs, clicks, elapsed);
        SessionView {
            bugs: tally.bugs,
            effects: self.effects + tally.effects,
            score: (self.score + tally.kills) as u64,
            ..self
        }
    }

    /// The state once the animation cues that were due have been given.
    pub open spec fn announced(self) -> SessionView {
        SessionView { bugs: announced_all(self.bugs), ..self }
    }

    /// `after` is a state that one tick may lead to from this one: the
    /// effects of the tick before are cleared, then the spawn step, the
    /// movement step and the interaction step run in this order.
    pub open spec fn tick_leads_to(
        self,
        elapsed: u64,
        clicks: Seq<BugEntityClickedEvent>,
        after: SessionView,
    ) -> bool {
        exists|mid: SessionView|
            #![trigger self.cleared().spawn_leads_to(elapsed, mid)]
            self.cleared().spawn_leads_to(elapsed, mid) && after == mid.moved(elapsed).struck(
                clicks,
                elapsed,
            )
    }
}

/// The states are those of a run of ticks: each but the first is one that
/// a tick may lead to from the state before it, with the elapsed time and
/// the clicks of that tick.
pub open spec fn is_run(
    states: Seq<SessionView>,
    elapsed: Seq<u64>,
    clicks: Seq<Seq<BugEntityClickedEvent>>,
) -> bool {
    &&& states.len() == elapsed.len() + 1
    &&& clicks.len() == elapsed.len()
    &&& forall|i: int|
        0 <= i < elapsed.len() ==> (#[trigger] states[i]).tick_leads_to(
            elapsed[i],
            clicks[i],
            states[i + 1],
        )
}

/// The time that has passed over a run of ticks.
pub open spec fn total_time(elapsed: Seq<u64>) -> nat
    decreases elapsed.len(),
{
    if elapsed.len() == 0 {
        0
    } else {
        total_time(elapsed.drop_last()) + elapsed.last() as nat
    }
}

} // verus!
