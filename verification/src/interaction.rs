//! Clicks and their consequences: hits, the kill, and the removal of the
//! dead.
//!
//! Each tick hands over the clicks gathered since the tick before. A live
//! bug takes every click aimed at it, and dies in the same tick once it
//! has taken the clicks that kill it. A dead bug takes no more clicks: it
//! waits out its removal delay and is then taken from the field.

use crate::components::BugData;
use crate::components::BugRecord;
use crate::components::BugState;
use crate::effects::EffectTypeEvent;
use crate::geometry::Point;
use vstd::prelude::*;

verus! {

/// One click on a bug: the identity of the bug, and the point of impact
/// where the pointer layer could tell it.
#[derive(Clone, Copy, Debug, PartialEq, Eq)]
pub struct BugEntityClickedEvent(pub u64, pub Option<Point>);

/// What became of a bug in one pass over the clicks.
#[derive(Clone, Copy, Debug, PartialEq, Eq, Structural)]
pub enum Fate {
    /// The bug stays on the field as it was: alive, or dead and waiting.
    Stays,
    /// The bug was alive and has died in this pass.
    Killed,
    /// The bug was dead, its removal delay is over, and it leaves.
    Removed,
}

/// What one pass over the clicks makes of one bug.
pub struct Verdict {
    /// The bug after the pass, or `None` if it leaves the field.
    pub bug: Option<BugRecord>,
    /// The effects that the pass emits for it, in order.
    pub effects: Seq<EffectTypeEvent>,
    /// The bug has died in this pass.
    pub kill: bool,
}

/// What one pass over the clicks makes of all the bugs.
pub struct Tally {
    /// The bugs that stay, in their old order.
    pub bugs: Seq<BugRecord>,
    /// The effects emitted, bug by bug, in order.
    pub effects: Seq<EffectTypeEvent>,
    /// The number of bugs that have died in this pass.
    pub kills: nat,
}

/// The number of clicks in the batch that are aimed at the bug `id`.
pub open spec fn hits_on(clicks: Seq<BugEntityClickedEvent>, id: u64) -> nat
    decreases clicks.len(),
{
    if clicks.len() == 0 {
        0
    } else {
        hits_on(clicks.drop_last(), id) + if clicks.last().0 == id {
            1nat
        } else {
            0nat
        }
    }
}

/// The point that a click struck: its point of impact if it has one, else
/// the position of the bug.
pub open spec fn impact_point(click: BugEntityClickedEvent, at: Point) -> Point {
    match click.1 {
        Some(p) => p,
        None => at,
    }
}

/// The impact effects of the clicks aimed at the bug `id`, which stands at
/// `at`: one for each such click, in the order of the clicks.
pub open spec fn impacts(clicks: Seq<BugEntityClickedEvent>, id: u64, at: Point) -> Seq<
    EffectTypeEvent,
>
    decreases clicks.len(),
{
    if clicks.len() == 0 {
        Seq::empty()
    } else if clicks.last().0 == id {
        impacts(clicks.drop_last(), id, at).push(
            EffectTypeEvent::Click { pos: impact_point(clicks.last(), at) },
        )
    } else {
        impacts(clicks.drop_last(), id, at)
    }
}

/// A hit count after `hits` more clicks: it grows by `hits`, and stops at
/// the largest number it can hold.
pub open spec fn counted(clicks: u64, hits: nat) -> u64 {
    if clicks + hits > u64::MAX {
        u64::MAX
    } else {
        (clicks + hits) as u64
    }
}

/// The data of a live bug after `hits` more clicks: the hit count grows by
/// `hits`, and the bug is in `Death` if the count has reached the clicks
/// that kill it.
pub open spec fn struck(data: BugData, hits: nat) -> BugData {
    let clicks = counted(data.clicks, hits);
    BugData {
        clicks,
        state: if clicks >= data.max_clicks {
            BugState::Death
        } else {
            data.state
        },
        ..data
    }
}

/// A dead bug after `elapsed` more time of its removal delay.
pub open spec fn aged(bug: BugRecord, elapsed: u64) -> BugRecord {
    BugRecord {
        data: BugData { wait_for_remove: bug.data.wait_for_remove.ticked(elapsed), ..bug.data },
        ..bug
    }
}

/// The one effect with which a dead bug leaves the field: `Dead`, at the
/// position of the bug.
pub open spec fn dead_effect(bug: BugRecord) -> Seq<EffectTypeEvent> {
    seq![EffectTypeEvent::Dead { pos: bug.position }]
}

/// What one pass over the clicks makes of one bug.
///
/// A dead bug waits: its removal delay runs down by `elapsed`, and when it
/// is over the bug leaves with a `Dead` effect at its position. A live bug
/// takes the clicks aimed at it, with one `Click` effect each, and dies if
/// they are enough.
pub open spec fn judged(bug: BugRecord, clicks: Seq<BugEntityClickedEvent>, elapsed: u64) -> Verdict {
    if bug.data.state == BugState::Death {
        if aged(bug, elapsed).data.wait_for_remove.is_finished() {
            Verdict { bug: None, effects: dead_effect(bug), kill: false }
        } else {
            Verdict { bug: Some(aged(bug, elapsed)), effects: Seq::empty(), kill: false }
        }
    } else {
        let data = struck(bug.data, hits_on(clicks, bug.id));
        Verdict {
            bug: Some(BugRecord { data, ..bug }),
            effects: impacts(clicks, bug.id, bug.position),
            kill: data.state == BugState::Death,
        }
    }
}

/// What one pass over the clicks makes of all the bugs, taken in order.
pub open spec fn judged_all(
    bugs: Seq<BugRecord>,
    clicks: Seq<BugEntityClickedEvent>,
    elapsed: u64,
) -> Tally
    decreases bugs.len(),
{
    if bugs.len() == 0 {
        Tally { bugs: Seq::empty(), effects: Seq::empty(), kills: 0 }
    } else {
        let before = judged_all(bugs.drop_last(), clicks, elapsed);
        let verdict = judged(bugs.last(), clicks, elapsed);
        Tally {
            bugs: match verdict.bug {
                Some(bug) => before.bugs.push(bug),
                None => before.bugs,
            },
            effects: before.effects + verdict.effects,
            kills: before.kills + if verdict.kill {
                1nat
            } else {
                0nat
            },
        }
    }
}

impl BugRecord {
    /// Runs one pass over the clicks for this bug, appends the effects to
    /// `effects`, and says what became of the bug.
    pub fn judge(
        &mut self,
        clicks: &Vec<BugEntityClickedEvent>,
        elapsed: u64,
        effects: &mut Vec<EffectTypeEvent>,
    ) -> (fate: Fate)
        ensures
            final(effects)@ == old(effects)@ + judged(*old(self), clicks@, elapsed).effects,
            (fate == Fate::Killed) == judged(*old(self), clicks@, elapsed).kill,
            (fate == Fate::Removed) == (judged(*old(self), clicks@, elapsed).bug is None),
            fate != Fate::Removed ==> judged(*old(self), clicks@, elapsed).bug == Some(
                *final(self),
            ),
            fate == Fate::Removed ==> *final(self) == aged(*old(self), elapsed),
    {
        let ghost before = *self;
        if self.data.state == BugState::Death {
            let fired = self.data.wait_for_remove.tick(elapsed);
            if fired {
                effects.push(EffectTypeEvent::Dead { pos: self.position });
                return Fate::Removed;
            }
            return Fate::Stays;
        }
        let mut j: usize = 0;
        while j < clicks.len()
            invariant
                j <= clicks.len(),
                self.data == (BugData {
                    clicks: counted(
                        before.data.clicks,
                        hits_on(clicks@.take(j as int), before.id),
                    ),
                    ..before.data
                }),
                self.id == before.id,
                self.position == before.position,
                self.walk == before.walk,
                before.data.state != BugState::Death,
                effects@ == old(effects)@ + impacts(
                    clicks@.take(j as int),
                    before.id,
                    before.position,
                ),
            decreases clicks.len() - j,
        {
            assert(clicks@.take(j + 1).drop_last() == clicks@.take(j as int));
            if clicks[j].0 == self.id {
                self.data.clicks = self.data.clicks.saturating_add(1);
                let pos = match clicks[j].1 {
                    Some(p) => p,
                    None => self.position,
                };
                effects.push(EffectTypeEvent::Click { pos });
            }
            j += 1;
        }
        assert(clicks@.take(j as int) == clicks@);
        if self.data.clicks >= self.data.max_clicks {
            self.data.state = BugState::Death;
            Fate::Killed
        } else {
            Fate::Stays
        }
    }
}

} // verus!
