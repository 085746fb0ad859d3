//! A session of the game: the bugs on the field, the score, the spawn
//! schedule and the effects of the current tick, with the steps that a
//! tick runs on them.

use crate::animation::announced_all;
use crate::animation::cues;
use crate::animation::AnimationCue;
use crate::components::BugPathWalk;
use crate::components::BugRecord;
use crate::effects::EffectTypeEvent;
use crate::interaction::judged_all;
use crate::interaction::BugEntityClickedEvent;
use crate::interaction::Fate;
use crate::laws::lemma_announced_wf;
use crate::laws::lemma_ascend_push;
use crate::laws::lemma_judged_all;
use crate::laws::lemma_live_count_take;
use crate::laws::lemma_moved_wf;
use crate::laws::lemma_spawned_wf;
use crate::laws::lemma_struck_wf;
use crate::model::all_wf;
use crate::model::ids_ascend;
use crate::model::ids_below;
use crate::model::live_count;
use crate::model::lookup;
use crate::model::SessionView;
use crate::movement::walked_all;
use crate::spawn::SpawnRules;
use crate::spawn::SpawnSchedule;
use rand::rngs::StdRng;
use vstd::prelude::*;

verus! {

/// A session of the game. It is sound when it is made and every step
/// keeps it so.
pub struct Session {
    bugs: Vec<BugRecord>,
    score: u64,
    schedule: SpawnSchedule,
    rules: SpawnRules,
    next_id: u64,
    effects: Vec<EffectTypeEvent>,
}

impl View for Session {
    type V = SessionView;

    closed spec fn view(&self) -> SessionView {
        SessionView {
            bugs: self.bugs@,
            score: self.score,
            schedule: self.schedule,
            rules: self.rules,
            next_id: self.next_id,
            effects: self.effects@,
        }
    }
}

impl Session {
    /// The session is sound.
    pub open spec fn wf(&self) -> bool {
        self@.wf()
    }

    /// Starts a session with no bug on the field and a score of zero, if
    /// the rules and the schedule are sound.
    pub fn new(rules: SpawnRules, schedule: SpawnSchedule) -> (session: Option<Session>)
        ensures
            session is Some <==> rules.wf() && schedule.wf(),
            session matches Some(s) ==> s@ == SessionView::fresh(rules, schedule) && s.wf(),
    {
        if rules.is_valid() && schedule.population_cap > 0 {
            let session = Session {
                bugs: Vec::new(),
                score: 0,
                schedule,
                rules,
                next_id: 0,
                effects: Vec::new(),
            };
            Some(session)
        } else {
            None
        }
    }

    /// Says whether the session is sound. A session is sound when it is
    /// made and every step keeps it so; this looks at it again.
    pub fn is_valid(&self) -> (valid: bool)
        ensures
            valid == self.wf(),
    {
        if self.schedule.population_cap == 0 || !self.rules.is_valid() || self.bugs.len()
            > self.schedule.population_cap {
            return false;
        }
        let mut live: usize = 0;
        let mut i: usize = 0;
        while i < self.bugs.len()
            invariant
                i <= self.bugs.len(),
                live == live_count(self.bugs@.take(i as int)),
                live <= i,
                all_wf(self.bugs@.take(i as int)),
                ids_ascend(self.bugs@.take(i as int)),
                ids_below(self.bugs@.take(i as int), self.next_id as int),
            decreases self.bugs.len() - i,
        {
            let ghost seen = self.bugs@.take(i as int);
            let ghost next = self.bugs@.take(i + 1);
            if !self.bugs[i].is_valid() || self.bugs[i].id >= self.next_id {
                return false;
            }
            if i > 0 && self.bugs[i - 1].id >= self.bugs[i].id {
                return false;
            }
            if self.bugs[i].is_alive() {
                live = live + 1;
            }
            proof {
                assert(next.drop_last() =~= seen);
                lemma_ascend_push(seen, self.bugs@[i as int]);
            }
            i = i + 1;
        }
        assert(self.bugs@.take(i as int) =~= self.bugs@);
        let dead = (self.bugs.len() - live) as u64;
        dead <= self.score && self.score <= self.next_id && live as u64 <= self.next_id
            - self.score
    }

    /// The number of bugs killed so far.
    pub fn score(&self) -> (score: u64)
        ensures
            score == self@.score,
    {
        self.score
    }

    /// The bugs on the field, alive and dead, oldest first.
    pub fn bugs(&self) -> (bugs: &Vec<BugRecord>)
        ensures
            bugs@ == self@.bugs,
    {
        &self.bugs
    }

    /// The effects emitted in the current tick, in order.
    pub fn effects(&self) -> (effects: &Vec<EffectTypeEvent>)
        ensures
            effects@ == self@.effects,
    {
        &self.effects
    }

    /// The spawn schedule.
    pub fn schedule(&self) -> (schedule: SpawnSchedule)
        ensures
            schedule == self@.schedule,
    {
        self.schedule
    }

    /// The rules by which new bugs are drawn.
    pub fn rules(&self) -> (rules: SpawnRules)
        ensures
            rules == self@.rules,
    {
        self.rules
    }

    /// The number of bugs on the field.
    pub fn population(&self) -> (population: usize)
        ensures
            population == self@.bugs.len(),
    {
        self.bugs.len()
    }

    /// The bug with the identity `id`, if it is on the field.
    pub fn bug(&self, id: u64) -> (found: Option<&BugRecord>)
        ensures
            found matches Some(bug) ==> lookup(self@.bugs, id) == Some(*bug),
            found is None ==> lookup(self@.bugs, id) is None,
    {
        let mut i: usize = self.bugs.len();
        assert(self.bugs@.take(i as int) =~= self.bugs@);
        while i > 0
            invariant
                i <= self.bugs.len(),
                lookup(self.bugs@, id) == lookup(self.bugs@.take(i as int), id),
            decreases i,
        {
            i = i - 1;
            assert(self.bugs@.take(i + 1).drop_last() =~= self.bugs@.take(i as int));
            if self.bugs[i].id == id {
                return Some(&self.bugs[i]);
            }
        }
        None
    }

    /// Clears away the effects of the last tick.
    pub fn clear_effects(&mut self)
        ensures
            final(self)@ == old(self)@.cleared(),
            old(self).wf() ==> final(self).wf(),
    {
        self.effects.clear();
    }

    /// Hands over the effects emitted in the current tick, in order, and
    /// leaves none behind.
    pub fn drain_effects(&mut self) -> (effects: Vec<EffectTypeEvent>)
        ensures
            effects@ == old(self)@.effects,
            final(self)@ == old(self)@.cleared(),
            old(self).wf() ==> final(self).wf(),
    {
        let mut effects: Vec<EffectTypeEvent> = Vec::new();
        core::mem::swap(&mut self.effects, &mut effects);
        effects
    }

    /// Runs the spawn step with what was drawn for the new bug: lets
    /// `elapsed` time pass on the schedule and, if a spawn is then due,
    /// admits one bug with the patrol `walk` and arms the countdown with
    /// `delay`. Says whether a bug was admitted.
    pub fn spawn_with(&mut self, elapsed: u64, walk: BugPathWalk, delay: u64) -> (admitted: bool)
        requires
            old(self).wf(),
            walk.wf(),
        ensures
            final(self)@ == old(self)@.spawned(elapsed, walk, delay),
            admitted == old(self)@.admits(elapsed),
            final(self).wf(),
    {
        proof {
            lemma_spawned_wf(self@, elapsed, walk, delay);
        }
        self.schedule.tick(elapsed);
        if self.schedule.is_due(self.bugs.len()) && self.next_id < u64::MAX {
            let bug = BugRecord::spawn(self.next_id, self.score, walk);
            self.bugs.push(bug);
            self.next_id = self.next_id + 1;
            self.schedule.rearm(delay);
            true
        } else {
            false
        }
    }

    /// Runs the spawn step: lets `elapsed` time pass on the schedule and,
    /// if a spawn is then due, draws a patrol and a delay and admits one
    /// bug with them.
    pub fn factory_bugs(&mut self, rng: &mut StdRng, elapsed: u64)
        requires
            old(self).wf(),
        ensures
            old(self)@.spawn_leads_to(elapsed, final(self)@),
            final(self).wf(),
    {
        let ghost before = self@;
        self.schedule.tick(elapsed);
        if self.schedule.is_due(self.bugs.len()) && self.next_id < u64::MAX {
            let walk = self.rules.draw_walk(rng);
            let delay = self.rules.draw_delay(rng);
            proof {
                lemma_spawned_wf(before, elapsed, walk, delay);
            }
            let bug = BugRecord::spawn(self.next_id, self.score, walk);
            self.bugs.push(bug);
            self.next_id = self.next_id + 1;
            self.schedule.rearm(delay);
        }
    }

    /// Runs the movement step: every live bug walks toward its next
    /// waypoint, and every live bug with no waypoint left escapes.
    pub fn movement_bugs(&mut self, elapsed: u64)
        requires
            old(self).wf(),
        ensures
            final(self)@ == old(self)@.moved(elapsed),
            final(self).wf(),
    {
        let ghost before = self@;
        let ghost orig = self.bugs@;
        let ghost mut k: int = 0;
        let mut i: usize = 0;
        while i < self.bugs.len()
            invariant
                0 <= k <= orig.len(),
                i == walked_all(orig.take(k), elapsed).len(),
                self.bugs@ == walked_all(orig.take(k), elapsed) + orig.skip(k),
                self@ == (SessionView { bugs: self.bugs@, ..before }),
            decreases orig.len() - k,
        {
            let stays = self.bugs[i].advance(elapsed);
            proof {
                assert(orig.take(k + 1).drop_last() =~= orig.take(k));
            }
            if stays {
                i = i + 1;
            } else {
                self.bugs.remove(i);
            }
            proof {
                k = k + 1;
            }
        }
        proof {
            lemma_moved_wf(before, elapsed);
        }
    }

    /// Runs the interaction step: every live bug takes the clicks aimed at
    /// it and dies if they are enough, which raises the score by one; every
    /// dead bug waits out its removal delay and then leaves the field.
    pub fn kill_detect(&mut self, clicks: &Vec<BugEntityClickedEvent>, elapsed: u64)
        requires
            old(self).wf(),
        ensures
            final(self)@ == old(self)@.struck(clicks@, elapsed),
            final(self).wf(),
    {
        let ghost before = self@;
        let ghost orig = self.bugs@;
        let ghost mut k: int = 0;
        let mut i: usize = 0;
        while i < self.bugs.len()
            invariant
                0 <= k <= orig.len(),
                before.score + live_count(orig) <= before.next_id,
                i == judged_all(orig.take(k), clicks@, elapsed).bugs.len(),
                self.bugs@ == judged_all(orig.take(k), clicks@, elapsed).bugs + orig.skip(k),
                self.effects@ == before.effects + judged_all(
                    orig.take(k),
                    clicks@,
                    elapsed,
                ).effects,
                self.score == before.score + judged_all(orig.take(k), clicks@, elapsed).kills,
                self@ == (SessionView {
                    bugs: self.bugs@,
                    effects: self.effects@,
                    score: self.score,
                    ..before
                }),
            decreases orig.len() - k,
        {
            let fate = self.bugs[i].judge(clicks, elapsed, &mut self.effects);
            proof {
                assert(orig.take(k + 1).drop_last() =~= orig.take(k));
                lemma_judged_all(orig.take(k + 1), clicks@, elapsed, 0);
                lemma_live_count_take(orig, k + 1);
            }
            match fate {
                Fate::Removed => {
                    self.bugs.remove(i);
                },
                Fate::Killed => {
                    self.score = self.score + 1;
                    i = i + 1;
                },
                Fate::Stays => {
                    i = i + 1;
                },
            }
            proof {
                k = k + 1;
            }
        }
        proof {
            lemma_struck_wf(before, clicks@, elapsed);
        }
    }

    /// Gives the animation cues that are due: one for each bug that has
    /// left `Idle` and whose state was not yet announced, in the order of
    /// the bugs. Each such bug remembers the state announced.
    pub fn animate_bugs(&mut self) -> (due: Vec<AnimationCue>)
        ensures
            due@ == cues(old(self)@.bugs),
            final(self)@ == old(self)@.announced(),
            old(self).wf() ==> final(self).wf(),
    {
        let ghost before = self@;
        let ghost orig = self.bugs@;
        let mut due: Vec<AnimationCue> = Vec::new();
        let mut i: usize = 0;
        while i < self.bugs.len()
            invariant
                i <= orig.len(),
                self.bugs@.len() == orig.len(),
                forall|j: int| 0 <= j < i ==> self.bugs@[j] == announced_all(orig)[j],
                forall|j: int| i <= j < orig.len() ==> self.bugs@[j] == orig[j],
                due@ == cues(orig.take(i as int)),
                self@ == (SessionView { bugs: self.bugs@, ..before }),
            decreases orig.len() - i,
        {
            let cue = self.bugs[i].announce();
            proof {
                assert(orig.take(i + 1).drop_last() =~= orig.take(i as int));
            }
            match cue {
                Some(c) => {
                    due.push(c);
                },
                None => {},
            }
            i = i + 1;
        }
        proof {
            assert(orig.take(i as int) =~= orig);
            assert(self.bugs@ =~= announced_all(orig));
            if before.wf() {
                lemma_announced_wf(before);
            }
        }
        due
    }

    /// Runs one tick with what was drawn for the spawn step: clears the
    /// effects of the tick before, then runs the spawn step, the movement
    /// step and the interaction step.
    pub fn tick_with(
        &mut self,
        elapsed: u64,
        clicks: &Vec<BugEntityClickedEvent>,
        walk: BugPathWalk,
        delay: u64,
    )
        requires
            old(self).wf(),
            walk.wf(),
        ensures
            final(self)@ == old(self)@.cleared().spawned(elapsed, walk, delay).moved(
                elapsed,
            ).struck(clicks@, elapsed),
            final(self).wf(),
    {
        self.clear_effects();
        self.spawn_with(elapsed, walk, delay);
        self.movement_bugs(elapsed);
        self.kill_detect(clicks, elapsed);
    }

    /// Runs one tick: clears the effects of the tick before, then runs the
    /// spawn step, drawing what it needs, the movement step and the
    /// interaction step.
    pub fn tick(&mut self, rng: &mut StdRng, elapsed: u64, clicks: &Vec<BugEntityClickedEvent>)
        requires
            old(self).wf(),
        ensures
            old(self)@.tick_leads_to(elapsed, clicks@, final(self)@),
            final(self).wf(),
    {
        self.clear_effects();
        self.factory_bugs(rng, elapsed);
        self.movement_bugs(elapsed);
        self.kill_detect(clicks, elapsed);
    }
}

} // verus!
