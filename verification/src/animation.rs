//! Animation cues: telling the presentation layer, once for each change of
//! state, which clip to start.
//!
//! Each bug remembers the state for which a cue was last given. A cue is
//! due when the bug has left `Idle` and its state differs from the one
//! remembered; giving the cue brings the memory up to date, so that no
//! state is announced twice.

use crate::components::BugData;
use crate::components::BugRecord;
use crate::components::BugState;
use vstd::prelude::*;

verus! {

/// A request to start a clip for a bug that has changed its state.
#[derive(Clone, Copy, Debug, PartialEq, Eq, Structural)]
pub struct AnimationCue {
    /// The bug.
    pub id: u64,
    /// The state that it has entered.
    pub state: BugState,
    /// The clip to start, as an index into the table of clips.
    pub clip: usize,
}

/// A cue is due for the bug.
pub open spec fn cue_due(bug: BugRecord) -> bool {
    bug.data.state != BugState::Idle && bug.data.state != bug.data.last_state
}

/// The cue for the state that the bug is in: the death clip for `Death`,
/// else the walk clip.
pub open spec fn cue_of(bug: BugRecord) -> AnimationCue {
    AnimationCue {
        id: bug.id,
        state: bug.data.state,
        clip: if bug.data.state == BugState::Death {
            bug.data.animations.death
        } else {
            bug.data.animations.walk
        },
    }
}

/// The bug once its cue, if one was due, has been given.
pub open spec fn announced(bug: BugRecord) -> BugRecord {
    if cue_due(bug) {
        BugRecord { data: BugData { last_state: bug.data.state, ..bug.data }, ..bug }
    } else {
        bug
    }
}

/// The cues that are due for the bugs, in the order of the bugs.
pub open spec fn cues(bugs: Seq<BugRecord>) -> Seq<AnimationCue>
    decreases bugs.len(),
{
    if bugs.len() == 0 {
        Seq::empty()
    } else if cue_due(bugs.last()) {
        cues(bugs.drop_last()).push(cue_of(bugs.last()))
    } else {
        cues(bugs.drop_last())
    }
}

/// The bugs once the cues that were due have been given.
pub open spec fn announced_all(bugs: Seq<BugRecord>) -> Seq<BugRecord> {
    Seq::new(bugs.len(), |i: int| announced(bugs[i]))
}

impl BugRecord {
    /// Gives the cue for this bug, if one is due, and remembers the state
    /// that it announces.
    pub fn announce(&mut self) -> (cue: Option<AnimationCue>)
        ensures
            *final(self) == announced(*old(self)),
            cue == (if cue_due(*old(self)) {
                Some(cue_of(*old(self)))
            } else {
                None
            }),
    {
        if self.data.state == BugState::Idle || self.data.state == self.data.last_state {
            return None;
        }
        self.data.last_state = self.data.state;
        let clip = match self.data.state {
            BugState::Death => self.data.animations.death,
            _ => self.data.animations.walk,
        };
        Some(AnimationCue { id: self.id, state: self.data.state, clip })
    }
}

} // verus!
