//! What holds of the simulation, proved from the definitions of its steps.

use crate::animation::announced_all;
use crate::animation::cue_due;
use crate::components::BugRecord;
use crate::components::BugState;
use crate::effects::EffectTypeEvent;
use crate::interaction::counted;
use crate::interaction::dead_effect;
use crate::interaction::hits_on;
use crate::interaction::impacts;
use crate::interaction::judged;
use crate::interaction::judged_all;
use crate::interaction::BugEntityClickedEvent;
use crate::model::all_wf;
use crate::model::ids_ascend;
use crate::model::ids_below;
use crate::model::is_run;
use crate::model::live_count;
use crate::model::lookup;
use crate::model::total_time;
use crate::model::SessionView;
use crate::movement::escapes;
use crate::movement::walked;
use crate::movement::walked_all;
use vstd::prelude::*;

verus! {

/// A dead bug's removal delay is over after `elapsed` more time.
pub open spec fn expires(bug: BugRecord, elapsed: u64) -> bool {
    !bug.alive() && elapsed >= bug.data.wait_for_remove.remaining
}

/// What one tick makes of one bug that is on the field when the movement
/// step begins: `None` if it leaves the field, else the bug after the
/// movement step and the interaction step.
pub open spec fn lived(bug: BugRecord, clicks: Seq<BugEntityClickedEvent>, elapsed: u64) -> Option<
    BugRecord,
> {
    match walked(bug, elapsed) {
        Some(after) => judged(after, clicks, elapsed).bug,
        None => None,
    }
}

/// The movement step keeps the identity, the hit count and the life of
/// every bug that stays, and keeps a sound record sound. A dead bug is not
/// moved at all.
pub proof fn lemma_walked(bug: BugRecord, elapsed: u64)
    ensures
        walked(bug, elapsed) is None <==> escapes(bug),
        !bug.alive() ==> walked(bug, elapsed) == Some(bug),
        walked(bug, elapsed) matches Some(after) ==> ({
            &&& after.id == bug.id
            &&& after.alive() == bug.alive()
            &&& after.data.clicks == bug.data.clicks
            &&& after.data.max_clicks == bug.data.max_clicks
            &&& after.walk.points == bug.walk.points
            &&& after.walk.speed == bug.walk.speed
            &&& after.walk.current_path >= bug.walk.current_path
            &&& (bug.wf() ==> after.wf())
        }),
{
}

/// The interaction step keeps the identity of every bug that stays, and
/// keeps a sound record sound. Only a dead bug leaves, and only when its
/// removal delay is over; it leaves with one `Dead` effect and no change
/// of the score. Only a live bug dies, and only when the clicks aimed at
/// it bring its hit count to the clicks that kill it. A dead bug takes no
/// hits and stays dead.
pub proof fn lemma_judged(bug: BugRecord, clicks: Seq<BugEntityClickedEvent>, elapsed: u64)
    ensures
        judged(bug, clicks, elapsed).bug is None <==> expires(bug, elapsed),
        judged(bug, clicks, elapsed).bug is None ==> !judged(bug, clicks, elapsed).kill,
        judged(bug, clicks, elapsed).bug is None ==> judged(bug, clicks, elapsed).effects
            == dead_effect(bug),
        judged(bug, clicks, elapsed).kill <==> bug.alive() && counted(
            bug.data.clicks,
            hits_on(clicks, bug.id),
        ) >= bug.data.max_clicks,
        judged(bug, clicks, elapsed).bug matches Some(after) ==> ({
            &&& after.id == bug.id
            &&& after.position == bug.position
            &&& after.walk == bug.walk
            &&& after.data.max_clicks == bug.data.max_clicks
            &&& (!bug.alive() ==> !after.alive() && after.data.clicks == bug.data.clicks
                && after.data.wait_for_remove.remaining == bug.data.wait_for_remove.remaining
                - elapsed)
            &&& (bug.alive() ==> after.alive() == !judged(bug, clicks, elapsed).kill)
            &&& (bug.wf() ==> after.wf())
        }),
        !bug.alive() ==> judged(bug, clicks, elapsed).effects.len() <= 1,
        bug.alive() ==> judged(bug, clicks, elapsed).effects == impacts(
            clicks,
            bug.id,
            bug.position,
        ),
{
}

/// The clicks aimed at a bug emit one effect each, all of them `Click`
/// effects.
pub proof fn lemma_impacts(clicks: Seq<BugEntityClickedEvent>, id: u64, at: crate::geometry::Point)
    ensures
        impacts(clicks, id, at).len() == hits_on(clicks, id),
        forall|i: int|
            0 <= i < impacts(clicks, id, at).len() ==> (#[trigger] impacts(clicks, id, at)[i])
                is Click,
    decreases clicks.len(),
{
    if clicks.len() > 0 {
        lemma_impacts(clicks.drop_last(), id, at);
    }
}

/// A batch without a click aimed at the bug `id` does nothing to it: no
/// hit and no effect.
pub proof fn lemma_stale_clicks(clicks: Seq<BugEntityClickedEvent>, id: u64, at: crate::geometry::Point)
    requires
        forall|i: int| 0 <= i < clicks.len() ==> (#[trigger] clicks[i]).0 != id,
    ensures
        hits_on(clicks, id) == 0,
        impacts(clicks, id, at) == Seq::<EffectTypeEvent>::empty(),
    decreases clicks.len(),
{
    if clicks.len() > 0 {
        lemma_stale_clicks(clicks.drop_last(), id, at);
    }
}

/// Clicks aimed at no bug on the field are dropped: a batch in which every
/// click names an identity that no bug has changes no bug, raises no
/// score and emits no effect beyond what the passing of time does alone.
pub proof fn lemma_unmatched_clicks_are_dropped(
    bugs: Seq<BugRecord>,
    clicks: Seq<BugEntityClickedEvent>,
    elapsed: u64,
)
    requires
        forall|i: int, j: int|
            0 <= i < clicks.len() && 0 <= j < bugs.len() ==> (#[trigger] clicks[i]).0 != (
            #[trigger] bugs[j]).id,
    ensures
        judged_all(bugs, clicks, elapsed) == judged_all(bugs, Seq::empty(), elapsed),
    decreases bugs.len(),
{
    if bugs.len() > 0 {
        let last = bugs.last();
        lemma_unmatched_clicks_are_dropped(bugs.drop_last(), clicks, elapsed);
        assert forall|i: int| 0 <= i < clicks.len() implies (#[trigger] clicks[i]).0 != last.id by {
            assert(clicks[i].0 != bugs[bugs.len() - 1].id);
        }
        lemma_stale_clicks(clicks, last.id, last.position);
    }
}

/// What `live_count` and `lookup` make of a sequence with one more bug at
/// its end.
pub proof fn lemma_push(bugs: Seq<BugRecord>, bug: BugRecord)
    ensures
        bugs.push(bug).drop_last() == bugs,
        bugs.push(bug).last() == bug,
        live_count(bugs.push(bug)) == live_count(bugs) + (if bug.alive() {
            1nat
        } else {
            0nat
        }),
        forall|id: u64|
            #[trigger] lookup(bugs.push(bug), id) == (if bug.id == id {
                Some(bug)
            } else {
                lookup(bugs, id)
            }),
{
    assert(bugs.push(bug).drop_last() =~= bugs);
}

/// No bug is found under an identity that is not in use.
pub proof fn lemma_lookup_unused(bugs: Seq<BugRecord>, bound: int, id: u64)
    requires
        ids_below(bugs, bound),
        id >= bound,
    ensures
        lookup(bugs, id) is None,
    decreases bugs.len(),
{
    if bugs.len() > 0 {
        lemma_lookup_unused(bugs.drop_last(), bound, id);
    }
}

/// A bug that is found under an identity has that identity and is one of
/// the bugs; and every bug is found under its own identity, where no two
/// share one.
pub proof fn lemma_lookup(bugs: Seq<BugRecord>, id: u64)
    ensures
        lookup(bugs, id) matches Some(bug) ==> bug.id == id && bugs.contains(bug),
        ids_ascend(bugs) ==> forall|i: int|
            0 <= i < bugs.len() && (#[trigger] bugs[i]).id == id ==> lookup(bugs, id) == Some(
                bugs[i],
            ),
    decreases bugs.len(),
{
    if bugs.len() > 0 {
        lemma_lookup(bugs.drop_last(), id);
        if ids_ascend(bugs) {
            assert forall|i: int| 0 <= i < bugs.len() && (#[trigger] bugs[i]).id == id implies lookup(
                bugs,
                id,
            ) == Some(bugs[i]) by {
                if i < bugs.len() - 1 {
                    assert(bugs[i].id < bugs[bugs.len() - 1].id);
                    assert(bugs.drop_last()[i] == bugs[i]);
                }
            }
        }
    }
}

/// Where the identities grow along the bugs, they grow along all but the
/// last, and stay below that of the last.
pub proof fn lemma_ascend_drop_last(bugs: Seq<BugRecord>)
    requires
        ids_ascend(bugs),
        bugs.len() > 0,
    ensures
        ids_ascend(bugs.drop_last()),
        ids_below(bugs.drop_last(), bugs.last().id as int),
{
}

/// Where the identities grow along the bugs and stay below that of one
/// more bug, they grow along the bugs with that bug at their end.
pub proof fn lemma_ascend_push(bugs: Seq<BugRecord>, bug: BugRecord)
    requires
        ids_ascend(bugs),
        ids_below(bugs, bug.id as int),
    ensures
        ids_ascend(bugs.push(bug)),
{
}

/// The movement step over all the bugs: no bug joins, the bugs that stay
/// keep their order and identities, sound records stay sound, no dead bug
/// comes back to life, and every bug that leaves was alive.
pub proof fn lemma_walked_all(bugs: Seq<BugRecord>, elapsed: u64, bound: int)
    ensures
        walked_all(bugs, elapsed).len() <= bugs.len(),
        all_wf(bugs) ==> all_wf(walked_all(bugs, elapsed)),
        ids_below(bugs, bound) ==> ids_below(walked_all(bugs, elapsed), bound),
        ids_ascend(bugs) ==> ids_ascend(walked_all(bugs, elapsed)),
        live_count(walked_all(bugs, elapsed)) <= live_count(bugs),
        bugs.len() - walked_all(bugs, elapsed).len() == live_count(bugs) - live_count(
            walked_all(bugs, elapsed),
        ),
    decreases bugs.len(),
{
    if bugs.len() > 0 {
        let rest = bugs.drop_last();
        let last = bugs.last();
        lemma_walked_all(rest, elapsed, bound);
        lemma_walked_all(rest, elapsed, last.id as int);
        lemma_walked(last, elapsed);
        let before = walked_all(rest, elapsed);
        if ids_ascend(bugs) {
            lemma_ascend_drop_last(bugs);
        }
        match walked(last, elapsed) {
            Some(after) => {
                lemma_push(before, after);
                if ids_ascend(bugs) {
                    lemma_ascend_push(before, after);
                }
            },
            None => {},
        }
    }
}

/// The movement step, bug by bug: a bug is on the field after the step
/// exactly if it was there before and does not escape, and it is then what
/// the step makes of that one bug.
pub proof fn lemma_walked_all_lookup(bugs: Seq<BugRecord>, elapsed: u64, id: u64)
    requires
        ids_ascend(bugs),
    ensures
        lookup(walked_all(bugs, elapsed), id) == (match lookup(bugs, id) {
            Some(bug) => walked(bug, elapsed),
            None => None,
        }),
    decreases bugs.len(),
{
    if bugs.len() > 0 {
        let rest = bugs.drop_last();
        let last = bugs.last();
        lemma_ascend_drop_last(bugs);
        lemma_walked_all_lookup(rest, elapsed, id);
        lemma_walked(last, elapsed);
        if last.id == id {
            lemma_lookup_unused(rest, last.id as int, id);
        }
        match walked(last, elapsed) {
            Some(after) => {
                lemma_push(walked_all(rest, elapsed), after);
            },
            None => {},
        }
    }
}

/// The interaction step over all the bugs: no bug joins, the bugs that
/// stay keep their order and identities, sound records stay sound, and
/// the bugs that were alive are those that are still alive and those that
/// have died in the step.
pub proof fn lemma_judged_all(
    bugs: Seq<BugRecord>,
    clicks: Seq<BugEntityClickedEvent>,
    elapsed: u64,
    bound: int,
)
    ensures
        judged_all(bugs, clicks, elapsed).bugs.len() <= bugs.len(),
        all_wf(bugs) ==> all_wf(judged_all(bugs, clicks, elapsed).bugs),
        ids_below(bugs, bound) ==> ids_below(judged_all(bugs, clicks, elapsed).bugs, bound),
        ids_ascend(bugs) ==> ids_ascend(judged_all(bugs, clicks, elapsed).bugs),
        live_count(judged_all(bugs, clicks, elapsed).bugs) + judged_all(
            bugs,
            clicks,
            elapsed,
        ).kills == live_count(bugs),
    decreases bugs.len(),
{
    if bugs.len() > 0 {
        let rest = bugs.drop_last();
        let last = bugs.last();
        lemma_judged_all(rest, clicks, elapsed, bound);
        lemma_judged_all(rest, clicks, elapsed, last.id as int);
        lemma_judged(last, clicks, elapsed);
        let before = judged_all(rest, clicks, elapsed).bugs;
        if ids_ascend(bugs) {
            lemma_ascend_drop_last(bugs);
        }
        match judged(last, clicks, elapsed).bug {
            Some(after) => {
                lemma_push(before, after);
                if ids_ascend(bugs) {
                    lemma_ascend_push(before, after);
                }
            },
            None => {},
        }
    }
}

/// The interaction step, bug by bug: a bug is on the field after the step
/// exactly if it was there before and its removal delay is not over, and
/// it is then what the step makes of that one bug.
pub proof fn lemma_judged_all_lookup(
    bugs: Seq<BugRecord>,
    clicks: Seq<BugEntityClickedEvent>,
    elapsed: u64,
    id: u64,
)
    requires
        ids_ascend(bugs),
    ensures
        lookup(judged_all(bugs, clicks, elapsed).bugs, id) == (match lookup(bugs, id) {
            Some(bug) => judged(bug, clicks, elapsed).bug,
            None => None,
        }),
    decreases bugs.len(),
{
    if bugs.len() > 0 {
        let rest = bugs.drop_last();
        let last = bugs.last();
        lemma_ascend_drop_last(bugs);
        lemma_judged_all_lookup(rest, clicks, elapsed, id);
        lemma_judged(last, clicks, elapsed);
        if last.id == id {
            lemma_lookup_unused(rest, last.id as int, id);
        }
        match judged(last, clicks, elapsed).bug {
            Some(after) => {
                lemma_push(judged_all(rest, clicks, elapsed).bugs, after);
            },
            None => {},
        }
    }
}

/// Among the first `k` of the bugs no more are alive than among all.
pub proof fn lemma_live_count_take(bugs: Seq<BugRecord>, k: int)
    requires
        0 <= k <= bugs.len(),
    ensures
        live_count(bugs.take(k)) <= live_count(bugs),
    decreases bugs.len() - k,
{
    if k < bugs.len() {
        lemma_live_count_take(bugs, k + 1);
        assert(bugs.take(k + 1).drop_last() =~= bugs.take(k));
    } else {
        assert(bugs.take(k) =~= bugs);
    }
}

/// The spawn step keeps a sound state sound, whatever sound patrol was
/// drawn: in particular the field never holds more bugs than the
/// population cap, and the step admits at most one bug.
pub proof fn lemma_spawned_wf(
    before: SessionView,
    elapsed: u64,
    walk: crate::components::BugPathWalk,
    delay: u64,
)
    requires
        before.wf(),
        walk.wf(),
    ensures
        before.spawned(elapsed, walk, delay).wf(),
        before.spawned(elapsed, walk, delay).bugs.len() <= before.schedule.population_cap,
        before.spawned(elapsed, walk, delay).bugs.len() == before.bugs.len() + (if before.admits(
            elapsed,
        ) {
            1nat
        } else {
            0nat
        }),
        before.spawned(elapsed, walk, delay).score == before.score,
        before.spawned(elapsed, walk, delay).effects == before.effects,
{
    if before.admits(elapsed) {
        let bug = BugRecord::fresh(before.next_id, before.score, walk);
        lemma_push(before.bugs, bug);
        lemma_ascend_push(before.bugs, bug);
    }
}

/// The movement step keeps a sound state sound. It changes neither the
/// score nor the effects, and brings no bug onto the field.
pub proof fn lemma_moved_wf(before: SessionView, elapsed: u64)
    requires
        before.wf(),
    ensures
        before.moved(elapsed).wf(),
        before.moved(elapsed).bugs.len() <= before.bugs.len(),
        before.moved(elapsed).score == before.score,
        before.moved(elapsed).effects == before.effects,
{
    lemma_walked_all(before.bugs, elapsed, before.next_id as int);
}

/// The interaction step keeps a sound state sound. The score grows by the
/// number of bugs that have died in the step, which is at most the number
/// of bugs that were alive, and the count of it fits the score.
pub proof fn lemma_struck_wf(
    before: SessionView,
    clicks: Seq<BugEntityClickedEvent>,
    elapsed: u64,
)
    requires
        before.wf(),
    ensures
        before.struck(clicks, elapsed).wf(),
        before.struck(clicks, elapsed).bugs.len() <= before.bugs.len(),
        before.struck(clicks, elapsed).score == before.score + judged_all(
            before.bugs,
            clicks,
            elapsed,
        ).kills,
        judged_all(before.bugs, clicks, elapsed).kills <= live_count(before.bugs),
{
    lemma_judged_all(before.bugs, clicks, elapsed, before.next_id as int);
}

/// Giving the animation cues keeps a sound state sound: it changes no
/// bug but in what it remembers as announced, and no identity, life or
/// hit count.
pub proof fn lemma_announced_wf(before: SessionView)
    requires
        before.wf(),
    ensures
        before.announced().wf(),
        before.announced().bugs.len() == before.bugs.len(),
        forall|i: int|
            0 <= i < before.bugs.len() ==> ({
                &&& (#[trigger] before.announced().bugs[i]).id == before.bugs[i].id
                &&& before.announced().bugs[i].data.state == before.bugs[i].data.state
                &&& before.announced().bugs[i].data.clicks == before.bugs[i].data.clicks
                &&& before.announced().bugs[i].position == before.bugs[i].position
                &&& !cue_due(before.announced().bugs[i])
            }),
{
    lemma_announced_live_count(before.bugs);
}

/// Giving the animation cues changes the life of no bug.
proof fn lemma_announced_live_count(bugs: Seq<BugRecord>)
    ensures
        live_count(announced_all(bugs)) == live_count(bugs),
    decreases bugs.len(),
{
    if bugs.len() > 0 {
        lemma_announced_live_count(bugs.drop_last());
        assert(announced_all(bugs).drop_last() =~= announced_all(bugs.drop_last()));
    }
}

/// What sound rules allow to be drawn is a sound patrol.
pub proof fn lemma_allowed_walk(
    rules: crate::spawn::SpawnRules,
    walk: crate::components::BugPathWalk,
    delay: u64,
)
    requires
        rules.wf(),
        rules.allows(walk, delay),
    ensures
        walk.wf(),
        !walk.exhausted(),
{
}

/// One tick makes one exit for one bug: a bug leaves the field exactly if
/// it escapes or its removal delay is over, and never both. A bug that
/// escapes is alive with no waypoint left; a bug whose delay is over is
/// dead. A live bug with a waypoint left stays, and so does a dead bug
/// whose delay is not over.
pub proof fn lemma_lived(bug: BugRecord, clicks: Seq<BugEntityClickedEvent>, elapsed: u64)
    ensures
        lived(bug, clicks, elapsed) is None <==> escapes(bug) || expires(bug, elapsed),
        !(escapes(bug) && expires(bug, elapsed)),
        escapes(bug) ==> bug.alive(),
        expires(bug, elapsed) ==> !bug.alive(),
        lived(bug, clicks, elapsed) matches Some(after) ==> ({
            &&& after.id == bug.id
            &&& (!bug.alive() ==> !after.alive())
            &&& (!bug.alive() ==> after.data.wait_for_remove.remaining
                == bug.data.wait_for_remove.remaining - elapsed)
            &&& (bug.wf() ==> after.wf())
        }),
{
    lemma_walked(bug, elapsed);
    if walked(bug, elapsed) is Some {
        lemma_judged(walked(bug, elapsed)->0, clicks, elapsed);
    }
}

/// The spawn step keeps a sound state sound, and the population within
/// its cap: after the step the field holds no more bugs than the cap, and
/// at most one more than before. Every bug that was on the field is still
/// there, unchanged and in its place; the score and the effects are as
/// they were.
pub proof fn lemma_spawn_step(before: SessionView, elapsed: u64, after: SessionView)
    requires
        before.wf(),
        before.spawn_leads_to(elapsed, after),
    ensures
        after.wf(),
        after.bugs.len() <= after.schedule.population_cap,
        after.schedule.population_cap == before.schedule.population_cap,
        before.bugs.len() <= after.bugs.len() <= before.bugs.len() + 1,
        after.bugs.take(before.bugs.len() as int) == before.bugs,
        after.bugs.len() > before.bugs.len() ==> before.schedule.ticked(elapsed).due(
            before.bugs.len(),
        ),
        after.score == before.score,
        after.effects == before.effects,
        after.next_id >= before.next_id,
        forall|id: u64|
            id < before.next_id ==> #[trigger] lookup(after.bugs, id) == lookup(before.bugs, id),
{
    if before.admits(elapsed) {
        let (walk, delay) = choose|walk: crate::components::BugPathWalk, delay: u64|
            #![trigger before.spawned(elapsed, walk, delay)]
            before.rules.allows(walk, delay) && after == before.spawned(elapsed, walk, delay);
        lemma_allowed_walk(before.rules, walk, delay);
        lemma_spawned_wf(before, elapsed, walk, delay);
        let bug = BugRecord::fresh(before.next_id, before.score, walk);
        lemma_push(before.bugs, bug);
    }
}

/// One tick keeps a sound state sound. So after every tick the field
/// holds no more bugs than the population cap, and every bug on it is in
/// `Death` exactly if its hit count has reached the clicks that kill it.
/// The score never falls.
pub proof fn lemma_tick(
    before: SessionView,
    elapsed: u64,
    clicks: Seq<BugEntityClickedEvent>,
    after: SessionView,
)
    requires
        before.wf(),
        before.tick_leads_to(elapsed, clicks, after),
    ensures
        after.wf(),
        after.bugs.len() <= after.schedule.population_cap,
        after.bugs.len() <= before.bugs.len() + 1,
        after.score >= before.score,
        after.next_id >= before.next_id,
{
    let mid = choose|mid: SessionView|
        #![trigger before.cleared().spawn_leads_to(elapsed, mid)]
        before.cleared().spawn_leads_to(elapsed, mid) && after == mid.moved(elapsed).struck(
            clicks,
            elapsed,
        );
    lemma_spawn_step(before.cleared(), elapsed, mid);
    lemma_moved_wf(mid, elapsed);
    lemma_struck_wf(mid.moved(elapsed), clicks, elapsed);
}

/// In a sound state every bug is in `Death` exactly if its hit count has
/// reached the clicks that kill it.
pub proof fn lemma_state_agrees_with_hits(state: SessionView, i: int)
    requires
        state.wf(),
        0 <= i < state.bugs.len(),
    ensures
        state.bugs[i].data.state == BugState::Death <==> state.bugs[i].data.clicks
            >= state.bugs[i].data.max_clicks,
{
}

/// Every dead bug on the field has raised the score when it died: the
/// score is at least the number of dead bugs on the field.
pub proof fn lemma_dead_bugs_have_scored(state: SessionView)
    requires
        state.wf(),
    ensures
        state.bugs.len() - live_count(state.bugs) <= state.score,
{
}

/// The score counts kills, not hits: in the interaction step it grows by
/// exactly the number of bugs that pass from alive to dead, however many
/// clicks struck them. The spawn step and the movement step leave it as
/// it is.
pub proof fn lemma_score_counts_kills(
    before: SessionView,
    clicks: Seq<BugEntityClickedEvent>,
    elapsed: u64,
)
    requires
        before.wf(),
    ensures
        before.struck(clicks, elapsed).score == before.score + (live_count(before.bugs)
            - live_count(before.struck(clicks, elapsed).bugs)),
        before.struck(clicks, elapsed).score >= before.score,
        before.moved(elapsed).score == before.score,
{
    lemma_judged_all(before.bugs, clicks, elapsed, before.next_id as int);
}

/// One tick, bug by bug. A bug that was on the field before the tick is
/// on it afterwards exactly if it neither escapes nor sees its removal
/// delay run out, and it is then what the movement step and the
/// interaction step make of that one bug. No bug comes onto the field
/// under an identity that was given out before.
pub proof fn lemma_tick_by_bug(
    before: SessionView,
    elapsed: u64,
    clicks: Seq<BugEntityClickedEvent>,
    after: SessionView,
    id: u64,
)
    requires
        before.wf(),
        before.tick_leads_to(elapsed, clicks, after),
        id < before.next_id,
    ensures
        lookup(after.bugs, id) == (match lookup(before.bugs, id) {
            Some(bug) => lived(bug, clicks, elapsed),
            None => None,
        }),
{
    let mid = choose|mid: SessionView|
        #![trigger before.cleared().spawn_leads_to(elapsed, mid)]
        before.cleared().spawn_leads_to(elapsed, mid) && after == mid.moved(elapsed).struck(
            clicks,
            elapsed,
        );
    lemma_spawn_step(before.cleared(), elapsed, mid);
    lemma_walked_all(mid.bugs, elapsed, mid.next_id as int);
    lemma_walked_all_lookup(mid.bugs, elapsed, id);
    lemma_judged_all_lookup(walked_all(mid.bugs, elapsed), clicks, elapsed, id);
}

/// Death is final. A bug that is dead before a tick is, after the tick,
/// either gone from the field or still dead, with its removal delay
/// shorter by the elapsed time; and it is gone exactly if the elapsed time
/// covers what was left of the delay. So a dead bug is gone once the
/// ticks since its death have covered the delay.
pub proof fn lemma_death_is_final(
    before: SessionView,
    elapsed: u64,
    clicks: Seq<BugEntityClickedEvent>,
    after: SessionView,
    id: u64,
)
    requires
        before.wf(),
        before.tick_leads_to(elapsed, clicks, after),
        lookup(before.bugs, id) is Some,
        !lookup(before.bugs, id)->0.alive(),
    ensures
        lookup(after.bugs, id) is None <==> elapsed >= lookup(
            before.bugs,
            id,
        )->0.data.wait_for_remove.remaining,
        lookup(after.bugs, id) matches Some(bug) ==> ({
            &&& bug.data.state == BugState::Death
            &&& bug.data.wait_for_remove.remaining == lookup(
                before.bugs,
                id,
            )->0.data.wait_for_remove.remaining - elapsed
        }),
{
    let bug = lookup(before.bugs, id)->0;
    lemma_lookup(before.bugs, id);
    lemma_tick_by_bug(before, elapsed, clicks, after, id);
    lemma_lived(bug, clicks, elapsed);
}

/// A bug leaves the field in exactly one way. A bug that was on the field
/// before a tick and is gone after it has either escaped, alive and with
/// no waypoint left, or was dead and its removal delay has run out; never
/// both. A bug of which neither holds is still on the field.
pub proof fn lemma_one_way_out(
    before: SessionView,
    elapsed: u64,
    clicks: Seq<BugEntityClickedEvent>,
    after: SessionView,
    id: u64,
)
    requires
        before.wf(),
        before.tick_leads_to(elapsed, clicks, after),
        lookup(before.bugs, id) is Some,
    ensures
        lookup(after.bugs, id) is None <==> escapes(lookup(before.bugs, id)->0) || expires(
            lookup(before.bugs, id)->0,
            elapsed,
        ),
        !(escapes(lookup(before.bugs, id)->0) && expires(lookup(before.bugs, id)->0, elapsed)),
{
    let bug = lookup(before.bugs, id)->0;
    lemma_lookup(before.bugs, id);
    lemma_tick_by_bug(before, elapsed, clicks, after, id);
    lemma_lived(bug, clicks, elapsed);
}

/// A run of ticks without its last tick is a run.
pub proof fn lemma_run_prefix(
    states: Seq<SessionView>,
    elapsed: Seq<u64>,
    clicks: Seq<Seq<BugEntityClickedEvent>>,
)
    requires
        is_run(states, elapsed, clicks),
        elapsed.len() > 0,
    ensures
        is_run(states.drop_last(), elapsed.drop_last(), clicks.drop_last()),
        states[states.len() - 2].tick_leads_to(elapsed.last(), clicks.last(), states.last()),
        states.drop_last().last() == states[states.len() - 2],
        states.drop_last()[0] == states[0],
{
}

/// Whatever the ticks of a run, it ends in a sound state if it began in
/// one. So at every tick the field holds no more bugs than the population
/// cap, and every bug is in `Death` exactly if its hit count has reached
/// the clicks that kill it. The score at the end is at least the score at
/// the beginning.
pub proof fn lemma_run(
    states: Seq<SessionView>,
    elapsed: Seq<u64>,
    clicks: Seq<Seq<BugEntityClickedEvent>>,
)
    requires
        is_run(states, elapsed, clicks),
        states[0].wf(),
    ensures
        states.last().wf(),
        states.last().bugs.len() <= states.last().schedule.population_cap,
        states.last().score >= states[0].score,
        states.last().next_id >= states[0].next_id,
    decreases elapsed.len(),
{
    if elapsed.len() > 0 {
        lemma_run_prefix(states, elapsed, clicks);
        lemma_run(states.drop_last(), elapsed.drop_last(), clicks.drop_last());
        lemma_tick(states[states.len() - 2], elapsed.last(), clicks.last(), states.last());
    }
}

/// A dead bug is gone for good once its removal delay has passed, and
/// until then it stays dead: over a run of ticks that begins with the bug
/// dead, the bug is off the field at the end exactly if the time of the
/// run covers the removal delay that it had left, and is otherwise still
/// in `Death`, with the delay shorter by the time of the run.
pub proof fn lemma_run_death_is_final(
    states: Seq<SessionView>,
    elapsed: Seq<u64>,
    clicks: Seq<Seq<BugEntityClickedEvent>>,
    id: u64,
)
    requires
        is_run(states, elapsed, clicks),
        states[0].wf(),
        lookup(states[0].bugs, id) is Some,
        !lookup(states[0].bugs, id)->0.alive(),
    ensures
        lookup(states.last().bugs, id) is None <==> total_time(elapsed) >= lookup(
            states[0].bugs,
            id,
        )->0.data.wait_for_remove.remaining,
        lookup(states.last().bugs, id) matches Some(bug) ==> ({
            &&& bug.data.state == BugState::Death
            &&& bug.data.wait_for_remove.remaining == lookup(
                states[0].bugs,
                id,
            )->0.data.wait_for_remove.remaining - total_time(elapsed)
        }),
    decreases elapsed.len(),
{
    lemma_lookup(states[0].bugs, id);
    if elapsed.len() > 0 {
        lemma_run_prefix(states, elapsed, clicks);
        lemma_run_death_is_final(states.drop_last(), elapsed.drop_last(), clicks.drop_last(), id);
        lemma_run(states.drop_last(), elapsed.drop_last(), clicks.drop_last());
        let before = states[states.len() - 2];
        if lookup(before.bugs, id) is Some {
            lemma_death_is_final(before, elapsed.last(), clicks.last(), states.last(), id);
        } else {
            lemma_tick_by_bug(before, elapsed.last(), clicks.last(), states.last(), id);
        }
    }
}

/// A bug that has left the field does not come back: an identity that was
/// given out before a run of ticks, and that no bug on the field has when
/// the run begins, is that of no bug on the field when the run ends.
pub proof fn lemma_run_gone_is_gone(
    states: Seq<SessionView>,
    elapsed: Seq<u64>,
    clicks: Seq<Seq<BugEntityClickedEvent>>,
    id: u64,
)
    requires
        is_run(states, elapsed, clicks),
        states[0].wf(),
        id < states[0].next_id,
        lookup(states[0].bugs, id) is None,
    ensures
        lookup(states.last().bugs, id) is None,
    decreases elapsed.len(),
{
    if elapsed.len() > 0 {
        lemma_run_prefix(states, elapsed, clicks);
        lemma_run_gone_is_gone(states.drop_last(), elapsed.drop_last(), clicks.drop_last(), id);
        lemma_run(states.drop_last(), elapsed.drop_last(), clicks.drop_last());
        lemma_tick_by_bug(
            states[states.len() - 2],
            elapsed.last(),
            clicks.last(),
            states.last(),
            id,
        );
    }
}

} // verus!
