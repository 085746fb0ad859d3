use kill_errors::animation::AnimationCue;
use kill_errors::components::BugPathWalk;
use kill_errors::components::BugState;
use kill_errors::components::REMOVAL_DELAY;
use kill_errors::effects::EffectTypeEvent;
use kill_errors::geometry::Point;
use kill_errors::interaction::BugEntityClickedEvent;
use kill_errors::path::Field;
use kill_errors::session::Session;
use kill_errors::spawn::SpawnRules;
use kill_errors::spawn::SpawnSchedule;
use kill_errors::spawn::SPAWN_DELAY_MAX;
use kill_errors::spawn::SPAWN_DELAY_MIN;
use rand::rngs::StdRng;
use rand::SeedableRng;

fn field() -> Field {
    Field::new(-2000, 2000, -1000, 1000, 300).unwrap()
}

fn new_session(first_delay: u64, cap: usize) -> Session {
    Session::new(SpawnRules::standard(field(), 2), SpawnSchedule::new(first_delay, cap)).unwrap()
}

fn walk() -> BugPathWalk {
    let points = vec![Point::new(-2100, -1100), Point::new(0, 0), Point::new(2100, 1100)];
    BugPathWalk { current_path: 0, points, speed: 2 }
}

/// What every state of a session shows: the cap is kept, the identities
/// grow along the field, and the state of each bug agrees with its hits.
fn check_state(s: &Session) {
    assert!(s.is_valid());
    for bug in s.bugs() {
        assert_eq!(s.bug(bug.id).map(|b| b.id), Some(bug.id));
        assert!(bug.is_valid());
    }
    assert!(s.population() <= s.schedule().population_cap);
    assert_eq!(s.population(), s.bugs().len());
    for pair in s.bugs().windows(2) {
        assert!(pair[0].id < pair[1].id);
    }
    for bug in s.bugs() {
        assert_eq!(bug.data.state == BugState::Death, bug.data.clicks >= bug.data.max_clicks);
        assert_eq!(bug.data.state == BugState::Death, bug.data.is_dead());
        assert!(bug.walk.current_path < bug.walk.points.len());
        assert!(bug.data.wait_for_remove.remaining > 0);
    }
}

#[test]
fn new_session_is_empty() {
    let s = new_session(2000, 30);
    assert_eq!(s.population(), 0);
    assert_eq!(s.score(), 0);
    assert!(s.bugs().is_empty());
    assert!(s.effects().is_empty());
    assert_eq!(s.schedule(), SpawnSchedule::new(2000, 30));
    assert_eq!(s.rules(), SpawnRules::standard(field(), 2));
}

#[test]
fn new_session_refuses_a_cap_of_zero() {
    assert!(Session::new(SpawnRules::standard(field(), 2), SpawnSchedule::new(0, 0)).is_none());
}

#[test]
fn new_session_refuses_unsound_rules() {
    let schedule = SpawnSchedule::standard();
    assert!(Session::new(SpawnRules::standard(field(), 0), schedule).is_none());
    let mut rules = SpawnRules::standard(field(), 2);
    rules.speed_min = 3;
    assert!(Session::new(rules, schedule).is_none());
    let mut rules = SpawnRules::standard(field(), 2);
    rules.delay_min = rules.delay_max + 1;
    assert!(Session::new(rules, schedule).is_none());
    let mut rules = SpawnRules::standard(field(), 2);
    rules.field.band = 0;
    assert!(Session::new(rules, schedule).is_none());
    assert!(Session::new(SpawnRules::standard(field(), 2), schedule).is_some());
}

#[test]
fn standard_rules() {
    let rules = SpawnRules::standard(field(), 25);
    assert!(rules.is_valid());
    assert_eq!(rules.speed_min, 25);
    assert_eq!(rules.speed_max, 25);
    assert_eq!(rules.delay_min, SPAWN_DELAY_MIN);
    assert_eq!(rules.delay_max, SPAWN_DELAY_MAX);
    assert_eq!((SPAWN_DELAY_MIN, SPAWN_DELAY_MAX), (2000, 5000));
}

#[test]
fn no_spawn_before_the_countdown_fires() {
    let mut s = new_session(100, 5);
    assert!(!s.spawn_with(99, walk(), 7));
    assert_eq!(s.population(), 0);
    assert_eq!(s.schedule().timer.remaining, 1);
    assert!(s.spawn_with(1, walk(), 7));
    assert_eq!(s.population(), 1);
    assert_eq!(s.schedule().timer.remaining, 7);
}

#[test]
fn spawn_rearms_the_countdown() {
    let mut s = new_session(0, 5);
    assert!(s.spawn_with(0, walk(), 40));
    assert!(!s.spawn_with(39, walk(), 40));
    assert!(s.spawn_with(1, walk(), 40));
    assert_eq!(s.population(), 2);
    assert_eq!(s.bugs()[0].id, 0);
    assert_eq!(s.bugs()[1].id, 1);
}

#[test]
fn one_spawn_a_tick_at_most() {
    let mut s = new_session(0, 5);
    assert!(s.spawn_with(1_000_000, walk(), 0));
    assert_eq!(s.population(), 1);
    assert!(s.spawn_with(0, walk(), 0));
    assert_eq!(s.population(), 2);
}

#[test]
fn full_field_holds_the_countdown_fired() {
    let mut s = new_session(0, 1);
    s.tick_with(0, &vec![], walk(), 50);
    assert_eq!(s.population(), 1);
    // The countdown fires while the field is full, and stays fired.
    s.tick_with(50, &vec![], walk(), 50);
    assert_eq!(s.population(), 1);
    assert!(s.schedule().timer.finished());
    s.tick_with(0, &vec![BugEntityClickedEvent(0, None)], walk(), 50);
    s.tick_with(REMOVAL_DELAY, &vec![], walk(), 50);
    assert_eq!(s.population(), 0);
    assert!(s.schedule().timer.finished());
    // Room again: the next tick spawns without waiting for a new countdown.
    s.tick_with(0, &vec![], walk(), 50);
    assert_eq!(s.population(), 1);
    assert_eq!(s.bugs()[0].id, 1);
    assert_eq!(s.schedule().timer.remaining, 50);
}

#[test]
fn new_bug_moves_in_the_tick_of_its_spawn() {
    let mut s = new_session(0, 1);
    s.tick_with(10, &vec![], walk(), 50);
    assert_eq!(s.bugs()[0].data.state, BugState::Walking);
    assert_ne!(s.bugs()[0].position, Point::new(-2100, -1100));
}

#[test]
fn effects_last_one_tick() {
    let mut s = new_session(0, 1);
    s.tick_with(0, &vec![BugEntityClickedEvent(0, None)], walk(), 50);
    assert_eq!(s.effects().len(), 1);
    s.tick_with(0, &vec![], walk(), 50);
    assert!(s.effects().is_empty());
}

#[test]
fn effects_come_in_the_order_of_the_bugs() {
    let mut s = new_session(0, 3);
    s.tick_with(0, &vec![], walk(), 0);
    s.tick_with(0, &vec![], walk(), 0);
    s.tick_with(0, &vec![], walk(), u64::MAX);
    let clicks = vec![
        BugEntityClickedEvent(2, Some(Point::new(2, 2))),
        BugEntityClickedEvent(0, Some(Point::new(5, 5))),
        BugEntityClickedEvent(2, Some(Point::new(3, 3))),
    ];
    s.tick_with(0, &clicks, walk(), 0);
    assert_eq!(
        s.effects(),
        &vec![
            EffectTypeEvent::Click { pos: Point::new(5, 5) },
            EffectTypeEvent::Click { pos: Point::new(2, 2) },
            EffectTypeEvent::Click { pos: Point::new(3, 3) },
        ]
    );
    assert_eq!(s.score(), 2);
    check_state(&s);
}

#[test]
fn drain_effects_hands_them_over() {
    let mut s = new_session(0, 1);
    s.tick_with(0, &vec![BugEntityClickedEvent(0, Some(Point::new(1, 2)))], walk(), 50);
    assert_eq!(s.drain_effects(), vec![EffectTypeEvent::Click { pos: Point::new(1, 2) }]);
    assert!(s.effects().is_empty());
    assert!(s.drain_effects().is_empty());
    assert_eq!(s.score(), 1);
}

#[test]
fn clear_effects_keeps_the_rest() {
    let mut s = new_session(0, 1);
    s.tick_with(0, &vec![BugEntityClickedEvent(0, None)], walk(), 50);
    s.clear_effects();
    assert!(s.effects().is_empty());
    assert_eq!(s.score(), 1);
    assert_eq!(s.population(), 1);
}

#[test]
fn steps_can_be_run_one_by_one() {
    let mut s = new_session(0, 2);
    s.spawn_with(0, walk(), 0);
    s.spawn_with(0, walk(), 0);
    s.movement_bugs(10);
    assert_eq!(s.bugs()[0].data.state, BugState::Walking);
    s.kill_detect(&vec![BugEntityClickedEvent(1, None)], 10);
    assert_eq!(s.score(), 1);
    assert_eq!(s.bugs()[0].data.state, BugState::Walking);
    assert_eq!(s.bugs()[1].data.state, BugState::Death);
    s.kill_detect(&vec![], REMOVAL_DELAY);
    assert_eq!(s.population(), 1);
    assert_eq!(s.bugs()[0].id, 0);
    assert_eq!(s.effects().len(), 2);
    check_state(&s);
}

#[test]
fn animation_cues_come_once_for_each_state() {
    let mut s = new_session(0, 2);
    s.spawn_with(0, walk(), 0);
    s.spawn_with(0, walk(), 0);
    assert!(s.animate_bugs().is_empty());
    s.movement_bugs(10);
    assert_eq!(
        s.animate_bugs(),
        vec![
            AnimationCue { id: 0, state: BugState::Walking, clip: 0 },
            AnimationCue { id: 1, state: BugState::Walking, clip: 0 },
        ]
    );
    assert!(s.animate_bugs().is_empty());
    s.kill_detect(&vec![BugEntityClickedEvent(1, None)], 10);
    assert_eq!(
        s.animate_bugs(),
        vec![AnimationCue { id: 1, state: BugState::Death, clip: 1 }]
    );
    assert!(s.animate_bugs().is_empty());
    check_state(&s);
}

#[test]
fn drawn_bugs_follow_the_rules() {
    let mut rules = SpawnRules::standard(field(), 2);
    rules.speed_min = 2;
    rules.speed_max = 9;
    let mut s = Session::new(rules, SpawnSchedule::new(0, 50)).unwrap();
    let mut rng = StdRng::seed_from_u64(3);
    let mut speeds = Vec::new();
    let mut delays = Vec::new();
    for _ in 0..50 {
        let before = s.population();
        s.factory_bugs(&mut rng, 10_000);
        assert_eq!(s.population(), before + 1);
        let bug = &s.bugs()[before];
        assert_eq!(bug.id, before as u64);
        assert_eq!(bug.walk.points.len(), 9);
        assert_eq!(bug.walk.current_path, 0);
        assert_eq!(bug.position, bug.walk.points[0]);
        assert_eq!(bug.data.state, BugState::Idle);
        assert_eq!(bug.data.clicks, 0);
        assert!(2 <= bug.walk.speed && bug.walk.speed <= 9);
        let delay = s.schedule().timer.remaining;
        assert!(SPAWN_DELAY_MIN <= delay && delay <= SPAWN_DELAY_MAX);
        speeds.push(bug.walk.speed);
        delays.push(delay);
    }
    // The draws are draws: not all the least, and not all the most.
    assert!(speeds.iter().any(|v| *v != 2) && speeds.iter().any(|v| *v != 9));
    assert!(delays.iter().any(|v| *v != SPAWN_DELAY_MIN));
    assert!(delays.iter().any(|v| *v != SPAWN_DELAY_MAX));
    s.factory_bugs(&mut rng, 10_000);
    assert_eq!(s.population(), 50);
    check_state(&s);
}

#[test]
fn population_stays_within_the_cap() {
    let mut rng = StdRng::seed_from_u64(5);
    let mut s = new_session(0, 3);
    for _ in 0..500 {
        let before = s.population();
        s.tick(&mut rng, 700, &vec![]);
        assert!(s.population() <= 3);
        assert!(s.population() <= before + 1);
        check_state(&s);
    }
}

#[test]
fn score_never_falls_and_counts_kills() {
    let mut rng = StdRng::seed_from_u64(9);
    let mut s = new_session(0, 4);
    let mut kills = 0;
    for round in 0..400u64 {
        let before = s.score();
        let alive_before: Vec<u64> =
            s.bugs().iter().filter(|b| b.data.state != BugState::Death).map(|b| b.id).collect();
        let mut clicks = Vec::new();
        if round % 3 == 0 {
            for bug in s.bugs() {
                clicks.push(BugEntityClickedEvent(bug.id, None));
                clicks.push(BugEntityClickedEvent(bug.id, Some(bug.position)));
            }
            clicks.push(BugEntityClickedEvent(u64::MAX, None));
        }
        s.tick(&mut rng, 500, &clicks);
        let died = s
            .bugs()
            .iter()
            .filter(|b| b.data.state == BugState::Death && alive_before.contains(&b.id))
            .count() as u64;
        assert!(s.score() >= before);
        // A bug spawned in this tick may be clicked only in the next one.
        assert_eq!(s.score(), before + died);
        kills += died;
        check_state(&s);
    }
    assert_eq!(s.score(), kills);
    assert!(kills > 0);
}

#[test]
fn death_is_final() {
    let mut s = new_session(0, 2);
    s.tick_with(0, &vec![], walk(), 0);
    s.tick_with(0, &vec![BugEntityClickedEvent(0, None)], walk(), u64::MAX);
    assert_eq!(s.bugs()[0].data.state, BugState::Death);
    let position = s.bugs()[0].position;
    let mut waited = 0;
    while waited + 100 < REMOVAL_DELAY {
        s.tick_with(100, &vec![BugEntityClickedEvent(0, None)], walk(), u64::MAX);
        waited += 100;
        assert_eq!(s.bugs()[0].id, 0);
        assert_eq!(s.bugs()[0].data.state, BugState::Death);
        assert_eq!(s.bugs()[0].data.clicks, 1);
        assert_eq!(s.bugs()[0].position, position);
        assert_eq!(s.bugs()[0].data.wait_for_remove.remaining, REMOVAL_DELAY - waited);
        assert_eq!(s.score(), 1);
        check_state(&s);
    }
    s.tick_with(100, &vec![], walk(), u64::MAX);
    assert!(s.bugs().iter().all(|b| b.id != 0));
    assert_eq!(s.effects(), &vec![EffectTypeEvent::Dead { pos: position }]);
}

#[test]
fn a_bug_leaves_in_one_way_only() {
    let mut rng = StdRng::seed_from_u64(21);
    let mut s = new_session(0, 6);
    let mut escaped = 0;
    let mut removed = 0;
    for round in 0..3000u64 {
        let before: Vec<_> = s
            .bugs()
            .iter()
            .map(|b| (b.id, b.data.state, b.walk.is_exhausted(), b.data.wait_for_remove.remaining))
            .collect();
        let score = s.score();
        let mut clicks = Vec::new();
        if round % 7 == 0 && !s.bugs().is_empty() {
            clicks.push(BugEntityClickedEvent(s.bugs()[0].id, None));
        }
        s.tick(&mut rng, 400, &clicks);
        let mut deads = 0;
        for (id, state, exhausted, remaining) in before {
            if s.bugs().iter().any(|b| b.id == id) {
                continue;
            }
            let escapes = state != BugState::Death && exhausted;
            let expires = state == BugState::Death && remaining <= 400;
            assert!(escapes != expires);
            if escapes {
                escaped += 1;
            } else {
                removed += 1;
                deads += 1;
            }
        }
        let dead_effects =
            s.effects().iter().filter(|e| matches!(e, EffectTypeEvent::Dead { .. })).count();
        assert_eq!(dead_effects, deads);
        assert!(s.score() - score <= clicks.len() as u64);
        check_state(&s);
    }
    assert!(escaped > 0);
    assert!(removed > 0);
}

#[test]
fn a_bug_is_found_by_its_identity() {
    let mut s = new_session(0, 3);
    assert!(s.bug(0).is_none());
    s.spawn_with(0, walk(), 0);
    s.spawn_with(0, walk(), 0);
    s.spawn_with(0, walk(), 0);
    for id in 0..3 {
        let bug = s.bug(id).unwrap();
        assert_eq!(bug.id, id);
        assert_eq!(bug.position, Point::new(-2100, -1100));
    }
    assert!(s.bug(3).is_none());
    assert!(s.bug(u64::MAX).is_none());
    s.kill_detect(&vec![BugEntityClickedEvent(1, None)], 0);
    s.kill_detect(&vec![], REMOVAL_DELAY);
    assert!(s.bug(1).is_none());
    assert_eq!(s.bug(0).unwrap().id, 0);
    assert_eq!(s.bug(2).unwrap().id, 2);
    check_state(&s);
}

#[test]
fn a_session_stays_sound() {
    let mut rng = StdRng::seed_from_u64(2);
    let mut s = new_session(0, 5);
    assert!(s.is_valid());
    for round in 0..300u64 {
        let clicks: Vec<_> = s
            .bugs()
            .iter()
            .filter(|b| (b.id + round) % 5 == 0)
            .map(|b| BugEntityClickedEvent(b.id, None))
            .collect();
        s.tick(&mut rng, 333, &clicks);
        assert!(s.is_valid());
        s.animate_bugs();
        assert!(s.is_valid());
        s.drain_effects();
        assert!(s.is_valid());
    }
}
