use migration_sim::adult_whale::AdultWhale;
use migration_sim::adult_whale::AdultWhaleState;
use migration_sim::adult_whale::FOREVER;
use migration_sim::assets::SfxKey;
use migration_sim::baby_whale::depart_baby_whale;
use migration_sim::baby_whale::spawn_baby_on_flip;
use migration_sim::baby_whale::spawn_baby_on_flip_for;
use migration_sim::baby_whale::BabyWhale;
use migration_sim::baby_whale::BabyWhaleStatus;
use migration_sim::bird::Curious;
use migration_sim::geometry::Point;
use migration_sim::movement::follow;
use migration_sim::travel::TravelDistance;
use migration_sim::units::UNIT;
use migration_sim::window::WindowSize;

fn clock_at(distance: i64) -> TravelDistance {
    let mut clock = TravelDistance::default();
    clock.update(distance);
    clock
}

#[test]
fn baby_whale_leaves_when_its_time_has_come() {
    let mut status = BabyWhaleStatus { departure_time: 0, has_whale: true };
    let whale = Point::new(0, 100 * UNIT);
    let at = spawn_baby_on_flip(&mut status, 10 * UNIT, Some(whale));
    assert_eq!(at, Some(Point::new(0, 120 * UNIT)));
    assert!(!status.has_whale);
    let d = status.departure_time;
    assert!(45 * UNIT <= d && d < 65 * UNIT);

    let mut baby = BabyWhale::new();
    let mut distance = 10 * UNIT;
    while distance < d {
        assert!(!baby.depart_baby_whale(&status, &clock_at(distance)));
        assert!(baby.is_baby);
        distance += UNIT / 4;
    }
    assert!(!baby.depart_baby_whale(&status, &clock_at(d - 1)));
    assert!(baby.is_baby);
    assert!(baby.depart_baby_whale(&status, &clock_at(d)));
    assert!(!baby.is_baby);
    // it leaves once
    assert!(!baby.depart_baby_whale(&status, &clock_at(d + UNIT)));
    assert!(!baby.is_baby);
}

#[test]
fn departure_is_the_distance_plus_the_stay() {
    let mut status = BabyWhaleStatus { departure_time: 0, has_whale: true };
    spawn_baby_on_flip_for(&mut status, 10 * UNIT, 40 * UNIT, None);
    assert_eq!(status, BabyWhaleStatus { departure_time: 50 * UNIT, has_whale: false });
}

#[test]
fn no_baby_whale_without_a_whale_met() {
    let mut status = BabyWhaleStatus { departure_time: 77 * UNIT, has_whale: false };
    let at = spawn_baby_on_flip(&mut status, 10 * UNIT, Some(Point::new(0, 0)));
    assert_eq!(at, None);
    assert_eq!(status, BabyWhaleStatus::default());
}

#[test]
fn a_whale_met_is_used_up_by_one_flip() {
    let mut status = BabyWhaleStatus { departure_time: 0, has_whale: true };
    assert!(spawn_baby_on_flip(&mut status, 0, Some(Point::new(0, 0))).is_some());
    assert!(spawn_baby_on_flip(&mut status, 0, Some(Point::new(0, 0))).is_none());
}

#[test]
fn no_baby_whale_is_spawned_while_the_whale_is_missing() {
    let mut status = BabyWhaleStatus { departure_time: 0, has_whale: true };
    assert_eq!(spawn_baby_on_flip(&mut status, 0, None), None);
    assert!(!status.has_whale);
    assert!(35 * UNIT <= status.departure_time && status.departure_time < 55 * UNIT);
}

#[test]
fn baby_whale_heads_for_a_place_outside_the_window() {
    let status = BabyWhaleStatus { departure_time: 50 * UNIT, has_whale: false };
    let window = WindowSize::new(Point::new(800 * UNIT, 600 * UNIT));
    let mut baby = BabyWhale::new();
    assert_eq!(depart_baby_whale(&mut baby, &window, &clock_at(50 * UNIT - 1), &status), None);
    assert!(baby.is_baby);
    let mover = depart_baby_whale(&mut baby, &window, &clock_at(50 * UNIT), &status).unwrap();
    assert!(!baby.is_baby);
    assert_eq!(mover.speed, 400_000);
    let across_x = mover.target.x.abs() == 700 * UNIT && mover.target.y.abs() <= 300 * UNIT;
    let across_y = mover.target.y.abs() == 600 * UNIT && mover.target.x.abs() <= 400 * UNIT;
    assert!(across_x || across_y);
    assert_eq!(depart_baby_whale(&mut baby, &window, &clock_at(60 * UNIT), &status), None);
}

#[test]
fn baby_whale_stays_while_there_is_no_window() {
    let status = BabyWhaleStatus { departure_time: 50 * UNIT, has_whale: false };
    let window = WindowSize::new(Point::new(0, 0));
    let mut baby = BabyWhale::new();
    assert_eq!(depart_baby_whale(&mut baby, &window, &clock_at(60 * UNIT), &status), None);
    assert!(baby.is_baby);
}

#[test]
fn adult_whale_near_the_whale_is_curious_for_good() {
    let mut status = BabyWhaleStatus::default();
    let mut adult = AdultWhale::new();
    assert_eq!(adult.state(), AdultWhaleState::Travelling);
    let far = Point::new(80 * UNIT, 0);
    assert!(adult.adult_whale_gain_curiosity(&mut status, far, Point::new(0, 0)).is_none());
    assert!(!status.has_whale);
    assert!(!adult.is_curious());
    let near = Point::new(80 * UNIT - 1, 0);
    let (song, velocity) =
        adult.adult_whale_gain_curiosity(&mut status, near, Point::new(0, 0)).unwrap();
    assert_eq!(song.key, SfxKey::AdultWhaleSong);
    assert_eq!(velocity, Point::new(-400_000, 0));
    assert!(status.has_whale);
    assert_eq!(adult.state(), AdultWhaleState::Curious(Curious { until: FOREVER }));
    assert_eq!(FOREVER, i64::MAX);
}

#[test]
fn adult_whale_is_made_curious_only_once() {
    let mut status = BabyWhaleStatus::default();
    let mut adult = AdultWhale::new();
    assert!(adult
        .adult_whale_gain_curiosity(&mut status, Point::new(0, 0), Point::new(0, 0))
        .is_some());
    status.has_whale = false;
    for _ in 0..10 {
        assert!(adult
            .adult_whale_gain_curiosity(&mut status, Point::new(0, 0), Point::new(0, 0))
            .is_none());
        assert!(adult.is_curious());
        assert!(!status.has_whale);
    }
}

#[test]
fn follower_heads_for_the_point_ahead_of_the_whale() {
    let whale = Point::new(0, 0);
    let up = Point::new(0, UNIT);
    // the target is (0, 10); the follower is 100 to its right
    let velocity = follow(whale, up, Point::new(100 * UNIT, 10 * UNIT), 70 * UNIT);
    assert_eq!(velocity, Point::new(-392_000, 0));
    // the follower is 300 to the left of the target and 400 below it
    let velocity = follow(whale, up, Point::new(-300 * UNIT, -390 * UNIT), 70 * UNIT);
    assert_eq!(velocity, Point::new(235_200, 313_600));
}

#[test]
fn follower_within_its_distance_drifts_with_the_water() {
    let whale = Point::new(0, 0);
    let up = Point::new(0, UNIT);
    let velocity = follow(whale, up, Point::new(69 * UNIT, 10 * UNIT), 70 * UNIT);
    assert_eq!(velocity, Point::new(0, -392_000));
    let velocity = follow(whale, up, Point::new(70 * UNIT, 10 * UNIT), 70 * UNIT);
    assert_eq!(velocity, Point::new(-392_000, 0));
    let up = Point::new(-600_000, 800_000);
    let velocity = follow(whale, up, Point::new(-6 * UNIT, 8 * UNIT), 70 * UNIT);
    assert_eq!(velocity, Point::new(235_200, -313_600));
}

#[test]
fn only_a_curious_adult_whale_follows() {
    let mut status = BabyWhaleStatus::default();
    let mut adult = AdultWhale::new();
    let whale = Point::new(0, 0);
    let up = Point::new(0, UNIT);
    let position = Point::new(60 * UNIT, 0);
    assert_eq!(adult.adult_whale_follows_player_whale(whale, up, position), None);
    adult.adult_whale_gain_curiosity(&mut status, position, whale);
    assert_eq!(
        adult.adult_whale_follows_player_whale(whale, up, position),
        Some(Point::new(0, -392_000))
    );
}

#[test]
fn baby_whale_keeps_closer_than_an_adult() {
    let mut baby = BabyWhale::new();
    let whale = Point::new(0, 0);
    let up = Point::new(0, UNIT);
    let position = Point::new(60 * UNIT, 10 * UNIT);
    assert_eq!(
        baby.baby_follows_adult_whale(whale, up, position),
        Some(Point::new(-392_000, 0))
    );
    let position = Point::new(49 * UNIT, 10 * UNIT);
    assert_eq!(
        baby.baby_follows_adult_whale(whale, up, position),
        Some(Point::new(0, -392_000))
    );
    baby.is_baby = false;
    assert_eq!(baby.baby_follows_adult_whale(whale, up, position), None);
}
