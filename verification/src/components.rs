//! The data that one bug carries: its lifecycle state, its hit count and its
//! patrol path.

use crate::geometry::Point;
use crate::timer::Countdown;
use vstd::prelude::*;

verus! {

/// The scores at which the next bug to spawn is a crab, the tough kind.
pub const CRAB_SCORES: [u64; 7] = [4, 40, 404, 405, 406, 407, 408];

/// How long a dead bug stays on the field before it is taken away.
pub const REMOVAL_DELAY: u64 = 3000;

/// The tier of the ordinary bug, the spider.
pub const SPIDER_TIER: usize = 0;

/// The tier of the tough bug, the crab.
pub const CRAB_TIER: usize = 1;

/// A bug spawned at this score is a crab.
pub open spec fn is_crab_score(score: u64) -> bool {
    CRAB_SCORES@.contains(score)
}

/// The clicks that kill a bug spawned at this score: two for a crab, one
/// for a spider.
pub open spec fn clicks_to_kill(score: u64) -> u64 {
    if is_crab_score(score) {
        2
    } else {
        1
    }
}

/// The crab scores, spelled out: 4, 40, and 404 to 408.
pub proof fn lemma_crab_scores(score: u64)
    ensures
        is_crab_score(score) <==> score == 4 || score == 40 || 404 <= score <= 408,
{
    if is_crab_score(score) {
        let i = choose|i: int| 0 <= i < CRAB_SCORES@.len() && CRAB_SCORES@[i] == score;
        assert(0 <= i < 7);
    } else {
        assert(CRAB_SCORES@[0] == 4 && CRAB_SCORES@[1] == 40 && CRAB_SCORES@[2] == 404);
        assert(CRAB_SCORES@[3] == 405 && CRAB_SCORES@[4] == 406 && CRAB_SCORES@[5] == 407);
        assert(CRAB_SCORES@[6] == 408);
    }
}

/// Says whether a bug spawned at this score is a crab.
pub fn crab_score(score: u64) -> (crab: bool)
    ensures
        crab == is_crab_score(score),
{
    let mut i: usize = 0;
    while i < 7
        invariant
            i <= 7,
            forall|j: int| 0 <= j < i ==> CRAB_SCORES@[j] != score,
        decreases 7 - i,
    {
        if CRAB_SCORES[i] == score {
            return true;
        }
        i += 1;
    }
    false
}

/// Where a bug stands in its life. `Death` is final.
#[derive(Clone, Copy, Debug, PartialEq, Eq, Structural)]
pub enum BugState {
    Idle,
    Walking,
    Death,
}

impl Default for BugState {
    fn default() -> (state: BugState)
        ensures
            state == BugState::Idle,
    {
        BugState::Idle
    }
}

/// The animation clips of one bug, as indices into the table of clips that
/// the presentation layer keeps.
#[derive(Clone, Copy, Debug, PartialEq, Eq, Structural)]
pub struct BugAnimations {
    pub walk: usize,
    pub death: usize,
}

impl BugAnimations {
    /// The tier and the clips of a bug spawned at this score.
    pub open spec fn for_score(score: u64) -> (usize, BugAnimations) {
        if is_crab_score(score) {
            (CRAB_TIER, BugAnimations { walk: 2, death: 3 })
        } else {
            (SPIDER_TIER, BugAnimations { walk: 0, death: 1 })
        }
    }

    /// Picks the tier of the bug to spawn at this score, and its clips: the
    /// crab with clips 2 and 3 at a crab score, else the spider with clips
    /// 0 and 1.
    pub fn factory(score: u64) -> (picked: (usize, BugAnimations))
        ensures
            picked == Self::for_score(score),
    {
        if crab_score(score) {
            (CRAB_TIER, BugAnimations { walk: 2, death: 3 })
        } else {
            (SPIDER_TIER, BugAnimations { walk: 0, death: 1 })
        }
    }
}

/// The hit count and lifecycle state of one bug.
#[derive(Clone, Copy, Debug, PartialEq, Eq, Structural)]
pub struct BugData {
    /// The clicks that have struck the bug.
    pub clicks: u64,
    /// The clicks that kill it.
    pub max_clicks: u64,
    /// Once the bug is dead, the time until it is taken from the field.
    pub wait_for_remove: Countdown,
    /// The state for which an animation was last started.
    pub last_state: BugState,
    pub state: BugState,
    pub animations: BugAnimations,
}

impl BugData {
    /// The bug has taken the clicks that kill it.
    pub open spec fn dead(self) -> bool {
        self.clicks >= self.max_clicks
    }

    /// The state and the hit count agree: the bug is in `Death` exactly
    /// when it has taken the clicks that kill it. And the bug has not
    /// outstayed its removal delay.
    pub open spec fn wf(self) -> bool {
        &&& self.max_clicks > 0
        &&& (self.state == BugState::Death <==> self.dead())
        &&& self.wait_for_remove.remaining > 0
    }

    /// The data of a bug that spawns at this score.
    pub open spec fn fresh(score: u64, animations: BugAnimations) -> BugData {
        BugData {
            clicks: 0,
            max_clicks: clicks_to_kill(score),
            wait_for_remove: Countdown { remaining: REMOVAL_DELAY },
            last_state: BugState::Idle,
            state: BugState::Idle,
            animations,
        }
    }

    /// Says whether the data are sound.
    pub fn is_valid(&self) -> (valid: bool)
        ensures
            valid == self.wf(),
    {
        let death = match self.state {
            BugState::Death => true,
            _ => false,
        };
        self.max_clicks > 0 && death == (self.clicks >= self.max_clicks)
            && self.wait_for_remove.remaining > 0
    }

    /// Says whether the bug has taken the clicks that kill it.
    pub fn is_dead(&self) -> (dead: bool)
        ensures
            dead == self.dead(),
    {
        self.clicks >= self.max_clicks
    }

    /// The data of a bug that spawns at this score: idle, not yet struck,
    /// killed by two clicks at a crab score and by one otherwise.
    pub fn factory(score: u64, animations: BugAnimations) -> (data: BugData)
        ensures
            data == Self::fresh(score, animations),
            data.wf(),
    {
        let max_clicks: u64 = if crab_score(score) {
            2
        } else {
            1
        };
        BugData {
            clicks: 0,
            max_clicks,
            animations,
            state: BugState::Idle,
            last_state: BugState::Idle,
            wait_for_remove: Countdown::new(REMOVAL_DELAY),
        }
    }
}

/// The patrol of one bug: the waypoints, the index of the waypoint it
/// reached last, and its speed in field units per unit of time.
#[derive(Debug)]
pub struct BugPathWalk {
    pub current_path: usize,
    pub points: Vec<Point>,
    pub speed: u32,
}

impl BugPathWalk {
    /// The patrol has a way to go: at least two waypoints, the last reached
    /// one among them, and a speed.
    pub open spec fn wf(self) -> bool {
        &&& self.points.len() >= 2
        &&& self.current_path < self.points.len()
        &&& self.speed > 0
    }

    /// No waypoint is left to walk to.
    pub open spec fn exhausted(self) -> bool {
        self.current_path + 1 >= self.points.len()
    }

    /// Says whether the patrol has a way to go.
    pub fn is_valid(&self) -> (valid: bool)
        ensures
            valid == self.wf(),
    {
        self.points.len() >= 2 && self.current_path < self.points.len() && self.speed > 0
    }

    /// Says whether no waypoint is left to walk to.
    pub fn is_exhausted(&self) -> (done: bool)
        ensures
            done == self.exhausted(),
    {
        self.points.len() == 0 || self.current_path >= self.points.len() - 1
    }

    /// The waypoint that the bug is walking to, if one is left.
    pub fn next_waypoint(&self) -> (next: Option<Point>)
        ensures
            next == (if self.exhausted() {
                None
            } else {
                Some(self.points@[self.current_path + 1])
            }),
    {
        let len = self.points.len();
        if len == 0 || self.current_path >= len - 1 {
            None
        } else {
            Some(self.points[self.current_path + 1])
        }
    }
}

/// One bug on the field: its identity, where it is, and what it carries.
#[derive(Debug)]
pub struct BugRecord {
    /// Unique among the bugs on the field.
    pub id: u64,
    pub position: Point,
    pub data: BugData,
    pub walk: BugPathWalk,
}

impl BugRecord {
    /// The record is sound: state and hit count agree, and the patrol has a
    /// way to go.
    pub open spec fn wf(self) -> bool {
        self.data.wf() && self.walk.wf()
    }

    /// The bug is alive: idle or walking.
    pub open spec fn alive(self) -> bool {
        self.data.state != BugState::Death
    }

    /// The record of a bug that spawns at this score with this identity and
    /// patrol: it stands on the first waypoint.
    pub open spec fn fresh(id: u64, score: u64, walk: BugPathWalk) -> BugRecord {
        BugRecord {
            id,
            position: walk.points@[0],
            data: BugData::fresh(score, BugAnimations::for_score(score).1),
            walk,
        }
    }

    /// The tier of the bug: crab or spider.
    pub open spec fn tier_of(self) -> usize {
        if self.data.max_clicks >= 2 {
            CRAB_TIER
        } else {
            SPIDER_TIER
        }
    }

    /// Builds the record of a bug that spawns at this score.
    pub fn spawn(id: u64, score: u64, walk: BugPathWalk) -> (bug: BugRecord)
        requires
            walk.wf(),
        ensures
            bug == Self::fresh(id, score, walk),
            bug.wf(),
            bug.alive(),
    {
        let (_, animations) = BugAnimations::factory(score);
        BugRecord { id, position: walk.points[0], data: BugData::factory(score, animations), walk }
    }

    /// Says whether the record is sound.
    pub fn is_valid(&self) -> (valid: bool)
        ensures
            valid == self.wf(),
    {
        self.data.is_valid() && self.walk.is_valid()
    }

    /// Says whether the bug is alive.
    pub fn is_alive(&self) -> (alive: bool)
        ensures
            alive == self.alive(),
    {
        match self.data.state {
            BugState::Death => false,
            _ => true,
        }
    }

    /// The tier of the bug, for the presentation layer to pick its model.
    pub fn tier(&self) -> (tier: usize)
        ensures
            tier == self.tier_of(),
    {
        if self.data.max_clicks >= 2 {
            CRAB_TIER
        } else {
            SPIDER_TIER
        }
    }
}

} // verus!
