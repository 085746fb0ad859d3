use kill_errors::components::crab_score;
use kill_errors::components::BugAnimations;
use kill_errors::components::BugData;
use kill_errors::components::BugPathWalk;
use kill_errors::components::BugRecord;
use kill_errors::components::BugState;
use kill_errors::components::CRAB_SCORES;
use kill_errors::components::CRAB_TIER;
use kill_errors::components::REMOVAL_DELAY;
use kill_errors::components::SPIDER_TIER;
use kill_errors::geometry::Point;
use kill_errors::timer::Countdown;

#[test]
fn crab_scores_are_the_tough_ones() {
    assert_eq!(CRAB_SCORES, [4, 40, 404, 405, 406, 407, 408]);
    for score in CRAB_SCORES {
        assert!(crab_score(score));
    }
    for score in [0, 1, 3, 5, 39, 41, 403, 409, u64::MAX] {
        assert!(!crab_score(score));
    }
}

#[test]
fn animations_follow_the_tier() {
    assert_eq!(BugAnimations::factory(0), (SPIDER_TIER, BugAnimations { walk: 0, death: 1 }));
    assert_eq!(BugAnimations::factory(4), (CRAB_TIER, BugAnimations { walk: 2, death: 3 }));
    assert_eq!(BugAnimations::factory(408), (CRAB_TIER, BugAnimations { walk: 2, death: 3 }));
    assert_eq!(BugAnimations::factory(409), (SPIDER_TIER, BugAnimations { walk: 0, death: 1 }));
}

#[test]
fn bug_data_factory_for_a_spider() {
    let animations = BugAnimations { walk: 0, death: 1 };
    let data = BugData::factory(0, animations);
    assert_eq!(data.clicks, 0);
    assert_eq!(data.max_clicks, 1);
    assert_eq!(data.state, BugState::Idle);
    assert_eq!(data.last_state, BugState::Idle);
    assert_eq!(data.wait_for_remove, Countdown { remaining: REMOVAL_DELAY });
    assert_eq!(data.animations, animations);
    assert!(!data.is_dead());
}

#[test]
fn bug_data_factory_for_a_crab() {
    let data = BugData::factory(40, BugAnimations { walk: 2, death: 3 });
    assert_eq!(data.clicks, 0);
    assert_eq!(data.max_clicks, 2);
    assert_eq!(data.state, BugState::Idle);
    assert!(!data.is_dead());
}

#[test]
fn is_dead_goes_by_the_hit_count() {
    let mut data = BugData::factory(4, BugAnimations { walk: 2, death: 3 });
    assert!(!data.is_dead());
    data.clicks = 1;
    assert!(!data.is_dead());
    data.clicks = 2;
    assert!(data.is_dead());
    data.clicks = 3;
    assert!(data.is_dead());
}

#[test]
fn default_state_is_idle() {
    assert_eq!(BugState::default(), BugState::Idle);
}

#[test]
fn removal_delay_is_three_seconds() {
    assert_eq!(REMOVAL_DELAY, 3000);
}

#[test]
fn walk_validity() {
    let two = vec![Point::new(0, 0), Point::new(1, 1)];
    assert!(BugPathWalk { current_path: 0, points: two.clone(), speed: 1 }.is_valid());
    assert!(BugPathWalk { current_path: 1, points: two.clone(), speed: 1 }.is_valid());
    assert!(!BugPathWalk { current_path: 2, points: two.clone(), speed: 1 }.is_valid());
    assert!(!BugPathWalk { current_path: 0, points: two.clone(), speed: 0 }.is_valid());
    assert!(!BugPathWalk { current_path: 0, points: vec![Point::new(0, 0)], speed: 1 }.is_valid());
    assert!(!BugPathWalk { current_path: 0, points: vec![], speed: 1 }.is_valid());
}

#[test]
fn next_waypoint_follows_the_cursor() {
    let points = vec![Point::new(0, 0), Point::new(1, 1), Point::new(2, 2)];
    let mut walk = BugPathWalk { current_path: 0, points, speed: 1 };
    assert!(!walk.is_exhausted());
    assert_eq!(walk.next_waypoint(), Some(Point::new(1, 1)));
    walk.current_path = 1;
    assert!(!walk.is_exhausted());
    assert_eq!(walk.next_waypoint(), Some(Point::new(2, 2)));
    walk.current_path = 2;
    assert!(walk.is_exhausted());
    assert_eq!(walk.next_waypoint(), None);
    walk.current_path = usize::MAX;
    assert!(walk.is_exhausted());
    assert_eq!(walk.next_waypoint(), None);
}

#[test]
fn empty_walk_is_exhausted() {
    let walk = BugPathWalk { current_path: 0, points: vec![], speed: 1 };
    assert!(walk.is_exhausted());
    assert_eq!(walk.next_waypoint(), None);
}

#[test]
fn spawned_record_stands_on_the_first_waypoint() {
    let points = vec![Point::new(-7, 3), Point::new(1, 1), Point::new(2, 2)];
    let walk = BugPathWalk { current_path: 0, points: points.clone(), speed: 9 };
    let bug = BugRecord::spawn(17, 0, walk);
    assert_eq!(bug.id, 17);
    assert_eq!(bug.position, Point::new(-7, 3));
    assert_eq!(bug.data, BugData::factory(0, BugAnimations { walk: 0, death: 1 }));
    assert_eq!(bug.walk.points, points);
    assert_eq!(bug.walk.current_path, 0);
    assert_eq!(bug.walk.speed, 9);
    assert_eq!(bug.tier(), SPIDER_TIER);
}

#[test]
fn spawned_record_at_a_crab_score_is_a_crab() {
    let walk = BugPathWalk {
        current_path: 0,
        points: vec![Point::new(0, 0), Point::new(1, 1)],
        speed: 1,
    };
    let bug = BugRecord::spawn(0, 404, walk);
    assert_eq!(bug.data.max_clicks, 2);
    assert_eq!(bug.data.animations, BugAnimations { walk: 2, death: 3 });
    assert_eq!(bug.tier(), CRAB_TIER);
}
