use migration_sim::assets::SfxKey;
use migration_sim::bird::curiosity_target;
use migration_sim::bird::curious_birds_follow_whale;
use migration_sim::bird::gain_curiosity;
use migration_sim::bird::lose_curiosity;
use migration_sim::bird::Bird;
use migration_sim::bird::BirdState;
use migration_sim::bird::Curious;
use migration_sim::bird::BIRD_CURIOSITY_THRESHOLD;
use migration_sim::bird::BIRD_MIN_SCALE;
use migration_sim::bird::BIRD_SPEED;
use migration_sim::geometry::Point;
use migration_sim::units::UNIT;

fn origin() -> Point {
    Point::new(0, 0)
}

#[test]
fn bird_near_the_whale_is_curious_until_its_deadline() {
    let mut bird = Bird::spawn_with(false);
    assert_eq!(bird.state(), BirdState::Neutral);
    let near = Point::new(100 * UNIT, 0);
    assert!(bird.gain_curiosity(5 * UNIT, near, origin()));
    let until = match bird.state() {
        BirdState::Curious(Curious { until }) => until,
        other => panic!("not curious: {:?}", other),
    };
    assert!(15 * UNIT <= until && until <= 30 * UNIT);
    assert!(!bird.lose_curiosity(until - 1));
    assert!(bird.is_curious());
    assert!(bird.lose_curiosity(31 * UNIT));
    assert_eq!(bird.state(), BirdState::LosingCuriosity);
}

#[test]
fn deadline_is_the_time_plus_the_duration() {
    let mut bird = Bird::spawn_with(false);
    assert!(bird.gain_curiosity_for(5 * UNIT, origin(), origin(), 12 * UNIT));
    assert_eq!(bird.state(), BirdState::Curious(Curious { until: 17 * UNIT }));
    assert!(!bird.lose_curiosity(17 * UNIT - 1));
    assert!(bird.lose_curiosity(17 * UNIT));
}

#[test]
fn deadline_stops_at_the_end_of_the_range() {
    let mut bird = Bird::spawn_with(false);
    assert!(bird.gain_curiosity_for(i64::MAX - 1, origin(), origin(), 12 * UNIT));
    assert_eq!(bird.state(), BirdState::Curious(Curious { until: i64::MAX }));
}

#[test]
fn bird_at_the_threshold_stays_neutral() {
    let mut bird = Bird::spawn_with(false);
    let at = Point::new(BIRD_CURIOSITY_THRESHOLD, 0);
    assert!(!bird.gain_curiosity(5 * UNIT, at, origin()));
    assert_eq!(bird.state(), BirdState::Neutral);
    let inside = Point::new(BIRD_CURIOSITY_THRESHOLD - 1, 0);
    assert!(bird.gain_curiosity(5 * UNIT, inside, origin()));
}

#[test]
fn distance_is_measured_along_both_axes() {
    let mut bird = Bird::spawn_with(false);
    // 90^2 + 90^2 > 120^2
    assert!(!bird.gain_curiosity(0, Point::new(90 * UNIT, -90 * UNIT), origin()));
    // 72^2 + 96^2 = 120^2
    assert!(!bird.gain_curiosity(0, Point::new(72 * UNIT, 96 * UNIT), origin()));
    assert!(bird.gain_curiosity(0, Point::new(72 * UNIT, 96 * UNIT - 1), origin()));
}

#[test]
fn incurious_bird_is_never_curious() {
    let mut bird = Bird::spawn_with(true);
    assert_eq!(bird.state(), BirdState::Incurious);
    for now in 0..100 {
        assert!(!bird.gain_curiosity(now * UNIT, origin(), origin()));
        assert!(!bird.lose_curiosity(now * UNIT));
        bird.scale_curious_birds();
        assert_eq!(bird.return_to_flying_off(1), 1);
        assert_eq!(bird.state(), BirdState::Incurious);
        assert_eq!(bird.scale(), UNIT);
    }
}

#[test]
fn bird_is_made_curious_only_once() {
    let mut bird = Bird::spawn_with(false);
    assert!(bird.gain_curiosity_for(0, origin(), origin(), 10 * UNIT));
    let state = bird.state();
    // curious: the whale comes near again
    assert!(!bird.gain_curiosity_for(3 * UNIT, origin(), origin(), 20 * UNIT));
    assert_eq!(bird.state(), state);
    assert!(bird.lose_curiosity(10 * UNIT));
    // losing curiosity
    assert!(!bird.gain_curiosity(11 * UNIT, origin(), origin()));
    assert_eq!(bird.state(), BirdState::LosingCuriosity);
    bird.return_to_flying_off(BIRD_SPEED);
    // incurious for good
    assert_eq!(bird.state(), BirdState::Incurious);
    for now in 12..50 {
        assert!(!bird.gain_curiosity(now * UNIT, origin(), origin()));
        assert_eq!(bird.state(), BirdState::Incurious);
    }
}

#[test]
fn curious_bird_shrinks_to_its_smallest_size() {
    let mut bird = Bird::spawn_with(false);
    bird.scale_curious_birds();
    assert_eq!(bird.scale(), UNIT);
    assert!(bird.gain_curiosity_for(0, origin(), origin(), 10 * UNIT));
    bird.scale_curious_birds();
    assert_eq!(bird.scale(), 999_000);
    for _ in 0..348 {
        bird.scale_curious_birds();
    }
    assert_eq!(bird.scale(), 651_000);
    bird.scale_curious_birds();
    assert_eq!(bird.scale(), BIRD_MIN_SCALE);
    bird.scale_curious_birds();
    assert_eq!(bird.scale(), BIRD_MIN_SCALE);
}

#[test]
fn bird_grows_back_and_then_leaves() {
    let mut bird = Bird::spawn_with(false);
    assert!(bird.gain_curiosity_for(0, origin(), origin(), 10 * UNIT));
    for _ in 0..10 {
        bird.scale_curious_birds();
    }
    assert_eq!(bird.scale(), 990_000);
    assert!(bird.lose_curiosity(10 * UNIT));
    assert_eq!(bird.return_to_flying_off(400_000), 400_100);
    assert_eq!(bird.scale(), 993_000);
    assert_eq!(bird.return_to_flying_off(479_950), BIRD_SPEED);
    assert_eq!(bird.scale(), 996_000);
    assert_eq!(bird.return_to_flying_off(BIRD_SPEED), BIRD_SPEED);
    assert_eq!(bird.scale(), 999_000);
    assert_eq!(bird.state(), BirdState::LosingCuriosity);
    bird.return_to_flying_off(BIRD_SPEED);
    assert_eq!(bird.scale(), UNIT);
    assert_eq!(bird.state(), BirdState::Incurious);
}

#[test]
fn some_birds_are_incurious_from_the_start() {
    let mut incurious = 0;
    for _ in 0..400 {
        match Bird::spawn().state() {
            BirdState::Incurious => incurious += 1,
            BirdState::Neutral => {}
            other => panic!("spawned as {:?}", other),
        }
    }
    assert!(incurious > 0 && incurious < 400);
}

#[test]
fn the_point_that_birds_look_at_lies_near_the_whale() {
    let whale = Point::new(7 * UNIT, -3 * UNIT);
    let mut seen = Vec::new();
    for _ in 0..100 {
        let target = curiosity_target(whale);
        assert!(-13 * UNIT <= target.x && target.x < 27 * UNIT);
        assert!(-23 * UNIT <= target.y && target.y < 17 * UNIT);
        if !seen.contains(&target) {
            seen.push(target);
        }
    }
    assert!(seen.len() > 1);
}

#[test]
fn a_bird_that_becomes_curious_calls_and_turns_to_the_whale() {
    let mut bird = Bird::spawn_with(false);
    let position = Point::new(30 * UNIT, 40 * UNIT);
    let target = Point::new(-10 * UNIT, 5 * UNIT);
    let (call, velocity) = gain_curiosity(&mut bird, 0, position, target).unwrap();
    assert_eq!(call.key, SfxKey::Gull);
    assert!(!call.looped);
    assert_eq!(call.volume, UNIT);
    // the way is (-40, -35), of length 53.150729; the speed is 0.48
    assert_eq!(velocity, Point::new(-361_236, -316_082));
    assert!(gain_curiosity(&mut bird, 0, position, target).is_none());
}

#[test]
fn only_curious_birds_follow_the_whale() {
    let mut bird = Bird::spawn_with(false);
    let whale = Point::new(0, 0);
    let position = Point::new(50 * UNIT, 50 * UNIT);
    assert!(curious_birds_follow_whale(&bird, whale, position).is_none());
    bird.gain_curiosity_for(0, position, whale, 10 * UNIT);
    let velocity = curious_birds_follow_whale(&bird, whale, position).unwrap();
    assert!(-480_000 < velocity.x && velocity.x < 0);
    assert!(-480_000 < velocity.y && velocity.y < 0);
    let speed = velocity.length();
    assert!(479_990 <= speed && speed <= 480_000);
    bird.lose_curiosity(10 * UNIT);
    assert!(curious_birds_follow_whale(&bird, whale, position).is_none());
}

#[test]
fn a_bird_that_loses_curiosity_flies_off_the_screen() {
    let size = Point::new(800 * UNIT, 600 * UNIT);
    let mut bird = Bird::spawn_with(false);
    assert!(lose_curiosity(&mut bird, 100 * UNIT, size).is_none());
    bird.gain_curiosity_for(0, origin(), origin(), 10 * UNIT);
    assert!(lose_curiosity(&mut bird, 10 * UNIT - 1, size).is_none());
    assert!(bird.is_curious());
    let mover = lose_curiosity(&mut bird, 10 * UNIT, size).unwrap();
    assert_eq!(bird.state(), BirdState::LosingCuriosity);
    assert_eq!(mover.speed, BIRD_SPEED);
    let off_x = mover.target.x.abs() == 464 * UNIT && mover.target.y.abs() <= 236 * UNIT;
    let off_y = mover.target.y.abs() == 364 * UNIT && mover.target.x.abs() <= 336 * UNIT;
    assert!(off_x || off_y);
}

#[test]
fn a_bird_keeps_its_curiosity_while_there_is_no_window() {
    let mut bird = Bird::spawn_with(false);
    bird.gain_curiosity_for(0, origin(), origin(), 10 * UNIT);
    assert!(lose_curiosity(&mut bird, 20 * UNIT, Point::new(0, 0)).is_none());
    assert!(bird.is_curious());
}
