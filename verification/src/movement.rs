//! Movement along the patrol path.
//!
//! Each tick a live bug walks toward its next waypoint, by its speed times
//! the elapsed time, and no further than the waypoint. A live bug with no
//! waypoint left has escaped and leaves the field. A dead bug does not
//! move.

use crate::components::BugData;
use crate::components::BugPathWalk;
use crate::components::BugRecord;
use crate::components::BugState;
use crate::geometry::reaches;
use crate::geometry::step_toward;
use vstd::prelude::*;

verus! {

/// The length of the step that a bug of this speed takes in this time.
pub open spec fn stride(speed: u32, elapsed: u64) -> int {
    speed * elapsed
}

/// A live bug with no waypoint left: it escapes.
pub open spec fn escapes(bug: BugRecord) -> bool {
    bug.alive() && bug.walk.exhausted()
}

/// What one movement pass makes of one bug: `None` if it escapes, else the
/// bug after the pass.
///
/// A dead bug stays as it is. A live bug is walking from now on; it steps
/// toward its next waypoint, and where the step reaches the waypoint that
/// waypoint becomes the last one reached.
pub open spec fn walked(bug: BugRecord, elapsed: u64) -> Option<BugRecord> {
    if !bug.alive() {
        Some(bug)
    } else if bug.walk.exhausted() {
        None
    } else {
        let next = bug.walk.points@[bug.walk.current_path + 1];
        let step = stride(bug.walk.speed, elapsed);
        Some(
            BugRecord {
                position: step_toward(bug.position, next, step),
                data: BugData { state: BugState::Walking, ..bug.data },
                walk: BugPathWalk {
                    current_path: if reaches(bug.position, next, step) {
                        (bug.walk.current_path + 1) as usize
                    } else {
                        bug.walk.current_path
                    },
                    ..bug.walk
                },
                ..bug
            },
        )
    }
}

/// What one movement pass makes of all the bugs: those that stay, in
/// their old order.
pub open spec fn walked_all(bugs: Seq<BugRecord>, elapsed: u64) -> Seq<BugRecord>
    decreases bugs.len(),
{
    if bugs.len() == 0 {
        Seq::empty()
    } else {
        match walked(bugs.last(), elapsed) {
            Some(bug) => walked_all(bugs.drop_last(), elapsed).push(bug),
            None => walked_all(bugs.drop_last(), elapsed),
        }
    }
}

impl BugRecord {
    /// Runs one movement pass for this bug, and says whether it stays on
    /// the field. A bug that escapes is left as it was.
    pub fn advance(&mut self, elapsed: u64) -> (stays: bool)
        ensures
            stays == !escapes(*old(self)),
            stays ==> walked(*old(self), elapsed) == Some(*final(self)),
            !stays ==> *final(self) == *old(self),
    {
        if self.data.state == BugState::Death {
            return true;
        }
        let len = self.walk.points.len();
        if len == 0 || self.walk.current_path >= len - 1 {
            return false;
        }
        self.data.state = BugState::Walking;
        let next = self.walk.points[self.walk.current_path + 1];
        assert(self.walk.speed * elapsed <= u128::MAX) by (nonlinear_arith)
            requires
                self.walk.speed <= u32::MAX,
                elapsed <= u64::MAX,
        ;
        let step: u128 = self.walk.speed as u128 * elapsed as u128;
        if self.position.move_towards(next, step) {
            self.walk.current_path += 1;
        }
        true
    }
}

} // verus!
