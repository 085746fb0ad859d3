//! The spawn schedule: when a new bug is admitted to the field, and what
//! is drawn for it.
//!
//! A countdown runs between spawns. When it has fired and the field holds
//! fewer bugs than the population cap, one bug is admitted and the
//! countdown is armed anew with a drawn delay. While the field is full the
//! countdown stays fired, so that a bug is admitted in the first tick in
//! which there is room again. No tick admits more than one bug.

use crate::components::BugPathWalk;
use crate::path::generate_points;
use crate::path::Field;
use crate::random::draw;
use crate::timer::Countdown;
use rand::rngs::StdRng;
use vstd::prelude::*;

verus! {

/// The population cap of the standard game.
pub const MAX_BUGS_ON_SCREEN: usize = 30;

/// The delay before the first spawn of the standard game.
pub const FIRST_SPAWN_DELAY: u64 = 2000;

/// The shortest delay between two spawns of the standard game.
pub const SPAWN_DELAY_MIN: u64 = 2000;

/// The longest delay between two spawns of the standard game.
pub const SPAWN_DELAY_MAX: u64 = 5000;

/// The spawn schedule: the countdown to the next spawn, and the largest
/// number of bugs that may be on the field at once.
#[derive(Clone, Copy, Debug, PartialEq, Eq, Structural)]
pub struct SpawnSchedule {
    pub timer: Countdown,
    pub population_cap: usize,
}

impl SpawnSchedule {
    /// The cap lets at least one bug onto the field.
    pub open spec fn wf(self) -> bool {
        self.population_cap > 0
    }

    /// The schedule after `elapsed` more time has passed.
    pub open spec fn ticked(self, elapsed: u64) -> SpawnSchedule {
        SpawnSchedule { timer: self.timer.ticked(elapsed), ..self }
    }

    /// A spawn is due on a field that holds `live` bugs: the countdown has
    /// fired and the field has room.
    pub open spec fn due(self, live: nat) -> bool {
        self.timer.is_finished() && live < self.population_cap
    }

    /// The schedule with the countdown armed anew.
    pub open spec fn rearmed(self, delay: u64) -> SpawnSchedule {
        SpawnSchedule { timer: Countdown { remaining: delay }, ..self }
    }

    /// A schedule whose first spawn comes after `first_delay`.
    pub fn new(first_delay: u64, population_cap: usize) -> (schedule: SpawnSchedule)
        ensures
            schedule == (SpawnSchedule {
                timer: Countdown { remaining: first_delay },
                population_cap,
            }),
    {
        SpawnSchedule { timer: Countdown::new(first_delay), population_cap }
    }

    /// The schedule of the standard game.
    pub fn standard() -> (schedule: SpawnSchedule)
        ensures
            schedule == (SpawnSchedule {
                timer: Countdown { remaining: FIRST_SPAWN_DELAY },
                population_cap: MAX_BUGS_ON_SCREEN,
            }),
            schedule.wf(),
    {
        SpawnSchedule::new(FIRST_SPAWN_DELAY, MAX_BUGS_ON_SCREEN)
    }

    /// Lets `elapsed` time pass.
    pub fn tick(&mut self, elapsed: u64)
        ensures
            *final(self) == old(self).ticked(elapsed),
    {
        self.timer.tick(elapsed);
    }

    /// Says whether a spawn is due on a field that holds `live` bugs.
    pub fn is_due(&self, live: usize) -> (due: bool)
        ensures
            due == self.due(live as nat),
    {
        self.timer.finished() && live < self.population_cap
    }

    /// Arms the countdown anew, to fire after `delay`.
    pub fn rearm(&mut self, delay: u64)
        ensures
            *final(self) == old(self).rearmed(delay),
    {
        self.timer.reset(delay);
    }
}

/// What is drawn for a new bug: the field that its path crosses, the
/// range of its speed, and the range of the delay until the next spawn.
#[derive(Clone, Copy, Debug, PartialEq, Eq, Structural)]
pub struct SpawnRules {
    pub field: Field,
    pub speed_min: u32,
    pub speed_max: u32,
    pub delay_min: u64,
    pub delay_max: u64,
}

impl SpawnRules {
    /// The field is one, no range is empty, and every speed moves.
    pub open spec fn wf(self) -> bool {
        &&& self.field.wf()
        &&& 1 <= self.speed_min <= self.speed_max
        &&& self.delay_min <= self.delay_max
    }

    /// The patrol and the delay are among those that may be drawn: a
    /// patrol path across the field, not yet begun, at a speed in range,
    /// and a delay in range.
    pub open spec fn allows(self, walk: BugPathWalk, delay: u64) -> bool {
        &&& self.field.is_patrol(walk.points@)
        &&& walk.current_path == 0
        &&& self.speed_min <= walk.speed <= self.speed_max
        &&& self.delay_min <= delay <= self.delay_max
    }

    /// The rules of the standard game on this field, with every bug at one
    /// speed.
    pub fn standard(field: Field, speed: u32) -> (rules: SpawnRules)
        ensures
            rules == (SpawnRules {
                field,
                speed_min: speed,
                speed_max: speed,
                delay_min: SPAWN_DELAY_MIN,
                delay_max: SPAWN_DELAY_MAX,
            }),
    {
        SpawnRules {
            field,
            speed_min: speed,
            speed_max: speed,
            delay_min: SPAWN_DELAY_MIN,
            delay_max: SPAWN_DELAY_MAX,
        }
    }

    /// Says whether the rules are sound.
    pub fn is_valid(&self) -> (valid: bool)
        ensures
            valid == self.wf(),
    {
        self.field.is_valid() && 1 <= self.speed_min && self.speed_min <= self.speed_max
            && self.delay_min <= self.delay_max
    }

    /// Draws the patrol of a new bug: a path across the field and a speed.
    pub fn draw_walk(&self, rng: &mut StdRng) -> (walk: BugPathWalk)
        requires
            self.wf(),
        ensures
            self.field.is_patrol(walk.points@),
            walk.current_path == 0,
            self.speed_min <= walk.speed <= self.speed_max,
            walk.wf(),
    {
        let points = generate_points(rng, &self.field);
        let speed = draw(rng, self.speed_min as u64, self.speed_max as u64) as u32;
        BugPathWalk { points, current_path: 0, speed }
    }

    /// Draws the delay until the next spawn.
    pub fn draw_delay(&self, rng: &mut StdRng) -> (delay: u64)
        requires
            self.wf(),
        ensures
            self.delay_min <= delay <= self.delay_max,
    {
        draw(rng, self.delay_min, self.delay_max)
    }
}

} // verus!
