use kill_errors::components::BugPathWalk;
use kill_errors::components::BugState;
use kill_errors::components::REMOVAL_DELAY;
use kill_errors::effects::EffectTypeEvent;
use kill_errors::geometry::Point;
use kill_errors::interaction::BugEntityClickedEvent;
use kill_errors::path::Field;
use kill_errors::session::Session;
use kill_errors::spawn::SpawnRules;
use kill_errors::spawn::SpawnSchedule;
use kill_errors::spawn::SPAWN_DELAY_MAX;
use rand::rngs::StdRng;
use rand::SeedableRng;

fn rules() -> SpawnRules {
    SpawnRules::standard(Field::new(-2000, 2000, -1000, 1000, 300).unwrap(), 2)
}

fn session(first_delay: u64, cap: usize) -> Session {
    Session::new(rules(), SpawnSchedule::new(first_delay, cap)).unwrap()
}

fn long_walk() -> BugPathWalk {
    let points = vec![Point::new(-2100, -1100), Point::new(0, 0), Point::new(2100, 1100)];
    BugPathWalk { current_path: 0, points, speed: 2 }
}

fn short_walk() -> BugPathWalk {
    let points = vec![Point::new(-2100, -1100), Point::new(-2100, -1000)];
    BugPathWalk { current_path: 0, points, speed: 2 }
}

fn click(id: u64) -> Vec<BugEntityClickedEvent> {
    vec![BugEntityClickedEvent(id, None)]
}

/// Brings the score of a session with room for one bug to `score`, by
/// spawning and killing spiders, and leaves the field empty.
fn raise_score(s: &mut Session, score: u64) {
    while s.score() < score {
        // The countdown has fired and the field is empty: a spider spawns.
        s.tick_with(0, &vec![], long_walk(), 0);
        let id = s.bugs()[0].id;
        assert_eq!(s.bugs()[0].data.max_clicks, 1);
        s.tick_with(0, &click(id), long_walk(), 0);
        s.tick_with(REMOVAL_DELAY, &vec![], long_walk(), 0);
        assert_eq!(s.population(), 0);
    }
}

#[test]
fn cap_of_one_admits_one() {
    let mut s = session(0, 1);
    assert_eq!(s.population(), 0);
    // The countdown fires at time zero with no bug on the field.
    assert!(s.spawn_with(0, long_walk(), 0));
    assert_eq!(s.population(), 1);
    // It fires again while the one bug is alive.
    assert!(s.schedule().timer.finished());
    assert!(!s.spawn_with(0, long_walk(), 0));
    assert_eq!(s.population(), 1);
    assert!(!s.spawn_with(10_000, long_walk(), 0));
    assert_eq!(s.population(), 1);
    assert_eq!(s.bugs()[0].id, 0);
}

#[test]
fn cap_of_one_admits_one_drawn_bug() {
    let mut rng = StdRng::seed_from_u64(11);
    let mut s = session(0, 1);
    s.tick(&mut rng, 0, &vec![]);
    assert_eq!(s.population(), 1);
    let id = s.bugs()[0].id;
    // The countdown fires again and again while the one bug is alive.
    for _ in 0..5 {
        s.tick(&mut rng, SPAWN_DELAY_MAX, &vec![]);
        assert!(s.schedule().timer.finished());
        assert_eq!(s.population(), 1);
        assert_eq!(s.bugs()[0].id, id);
    }
}

#[test]
fn one_click_kills_and_the_bug_leaves_after_the_delay() {
    let mut s = session(0, 1);
    s.tick_with(0, &vec![], long_walk(), 1_000_000);
    let id = s.bugs()[0].id;
    assert_eq!(s.bugs()[0].data.max_clicks, 1);
    assert_eq!(s.bugs()[0].position, Point::new(-2100, -1100));
    // The click and its consequences come in one tick.
    s.tick_with(0, &click(id), long_walk(), 0);
    assert_eq!(s.bugs()[0].data.state, BugState::Death);
    assert_eq!(s.score(), 1);
    assert_eq!(
        s.effects(),
        &vec![EffectTypeEvent::Click { pos: Point::new(-2100, -1100) }]
    );
    // The bug lies dead until the delay is over.
    s.tick_with(REMOVAL_DELAY - 1, &vec![], long_walk(), 0);
    assert_eq!(s.population(), 1);
    assert_eq!(s.bugs()[0].data.state, BugState::Death);
    assert!(s.effects().is_empty());
    assert_eq!(s.score(), 1);
    // Then it leaves with a `Dead` effect.
    s.tick_with(1, &vec![], long_walk(), 0);
    assert_eq!(s.population(), 0);
    assert_eq!(s.effects(), &vec![EffectTypeEvent::Dead { pos: Point::new(-2100, -1100) }]);
    assert_eq!(s.score(), 1);
    // And is not seen again.
    s.tick_with(1, &click(id), long_walk(), 0);
    assert!(s.effects().is_empty());
    assert_eq!(s.score(), 1);
}

#[test]
fn a_dead_bug_lies_three_seconds() {
    let mut s = session(0, 1);
    s.tick_with(0, &vec![], long_walk(), u64::MAX);
    s.tick_with(0, &click(0), long_walk(), 0);
    s.tick_with(2999, &vec![], long_walk(), 0);
    assert_eq!(s.population(), 1);
    s.tick_with(1, &vec![], long_walk(), 0);
    assert_eq!(s.population(), 0);
}

#[test]
fn a_crab_scores_once_at_the_second_click() {
    let mut s = session(0, 1);
    raise_score(&mut s, 4);
    assert_eq!(s.score(), 4);
    s.tick_with(u64::MAX, &vec![], long_walk(), u64::MAX);
    assert_eq!(s.population(), 1);
    let id = s.bugs()[0].id;
    assert_eq!(s.bugs()[0].data.max_clicks, 2);
    // The first click, in one tick.
    s.tick_with(1, &click(id), long_walk(), 0);
    assert_eq!(s.score(), 4);
    assert_eq!(s.bugs()[0].data.clicks, 1);
    assert_eq!(s.bugs()[0].data.state, BugState::Walking);
    assert_eq!(s.effects().len(), 1);
    // No click, in another tick.
    s.tick_with(1, &vec![], long_walk(), 0);
    assert_eq!(s.score(), 4);
    // The second click, in a third tick.
    s.tick_with(1, &click(id), long_walk(), 0);
    assert_eq!(s.score(), 5);
    assert_eq!(s.bugs()[0].data.clicks, 2);
    assert_eq!(s.bugs()[0].data.state, BugState::Death);
    assert_eq!(s.effects().len(), 1);
    // No more score for clicks on the dead crab.
    s.tick_with(1, &click(id), long_walk(), 0);
    assert_eq!(s.score(), 5);
    assert!(s.effects().is_empty());
}

#[test]
fn two_clicks_in_one_tick_score_once() {
    let mut s = session(0, 1);
    raise_score(&mut s, 4);
    s.tick_with(u64::MAX, &vec![], long_walk(), u64::MAX);
    let id = s.bugs()[0].id;
    let clicks = vec![BugEntityClickedEvent(id, None), BugEntityClickedEvent(id, None)];
    s.tick_with(1, &clicks, long_walk(), 0);
    assert_eq!(s.score(), 5);
    assert_eq!(s.effects().len(), 2);
    assert_eq!(s.bugs()[0].data.state, BugState::Death);
}

#[test]
fn a_bug_at_the_end_of_its_path_escapes() {
    let mut s = session(0, 1);
    // The bug spawns and walks its whole path of one leg in the first tick.
    s.tick_with(1000, &vec![], short_walk(), u64::MAX);
    assert_eq!(s.population(), 1);
    assert_eq!(s.bugs()[0].walk.current_path, 1);
    assert_eq!(s.bugs()[0].position, Point::new(-2100, -1000));
    assert_eq!(s.bugs()[0].data.state, BugState::Walking);
    // With no waypoint left, it is taken from the field.
    s.tick_with(16, &vec![], short_walk(), u64::MAX);
    assert_eq!(s.population(), 0);
    assert_eq!(s.score(), 0);
    assert!(s.effects().is_empty());
    // Nothing follows later either.
    s.tick_with(REMOVAL_DELAY, &vec![], short_walk(), u64::MAX);
    assert_eq!(s.score(), 0);
    assert!(s.effects().is_empty());
}

#[test]
fn a_click_in_the_tick_of_the_escape_is_lost() {
    let mut s = session(0, 1);
    s.tick_with(1000, &vec![], short_walk(), u64::MAX);
    let id = s.bugs()[0].id;
    s.tick_with(16, &click(id), short_walk(), u64::MAX);
    assert_eq!(s.population(), 0);
    assert_eq!(s.score(), 0);
    assert!(s.effects().is_empty());
}

#[test]
fn a_click_on_no_bug_does_nothing() {
    let mut s = session(0, 2);
    s.tick_with(0, &vec![], long_walk(), 0);
    s.tick_with(0, &vec![], long_walk(), u64::MAX);
    assert_eq!(s.population(), 2);
    let before: Vec<_> = s.bugs().iter().map(|b| (b.id, b.data)).collect();
    let clicks = vec![
        BugEntityClickedEvent(77, None),
        BugEntityClickedEvent(u64::MAX, Some(Point::new(1, 1))),
    ];
    s.tick_with(0, &clicks, long_walk(), 0);
    assert_eq!(s.score(), 0);
    assert!(s.effects().is_empty());
    assert_eq!(s.population(), 2);
    for (bug, (id, data)) in s.bugs().iter().zip(before) {
        assert_eq!(bug.id, id);
        assert_eq!(bug.data.clicks, data.clicks);
    }
}

#[test]
fn a_click_on_an_empty_field_does_nothing() {
    let mut s = session(1000, 2);
    s.tick_with(0, &click(0), long_walk(), 0);
    assert_eq!(s.score(), 0);
    assert!(s.effects().is_empty());
    assert_eq!(s.population(), 0);
}
