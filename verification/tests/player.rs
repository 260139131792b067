use migration_sim::assets::SfxKey;
use migration_sim::geometry::Point;
use migration_sim::movement::move_towards_location;
use migration_sim::movement::move_whale;
use migration_sim::movement::move_with_velocity;
use migration_sim::movement::swim_frame_interval;
use migration_sim::movement::update_movement_intent;
use migration_sim::movement::ArrivedAtLocation;
use migration_sim::movement::MoveTowardsLocation;
use migration_sim::movement::MoveWithVelocity;
use migration_sim::movement::SteeringKeys;
use migration_sim::player::move_in_spawning_whale;
use migration_sim::player::spawn_breaths;
use migration_sim::player::spawn_player;
use migration_sim::player::Breath;
use migration_sim::player::BreathingPhase;
use migration_sim::player::BreathingTimer;
use migration_sim::player::WhaleRotation;
use migration_sim::units::UNIT;
use migration_sim::window::WindowSize;

fn keys(left: bool, right: bool, up: bool, down: bool) -> SteeringKeys {
    SteeringKeys { left, right, up, down }
}

#[test]
fn the_whale_drifts_forward_without_keys() {
    let (intent, turned) = update_movement_intent(keys(false, false, false, false), false);
    assert_eq!(intent, Point::new(0, 250_000));
    assert!(!turned);
}

#[test]
fn left_and_right_turn_the_whale() {
    let (intent, turned) = update_movement_intent(keys(true, false, false, false), false);
    assert_eq!(intent, Point::new(-UNIT, 250_000));
    assert!(turned);
    let (intent, turned) = update_movement_intent(keys(false, true, false, false), false);
    assert_eq!(intent, Point::new(UNIT, 250_000));
    assert!(turned);
    let (intent, turned) = update_movement_intent(keys(true, true, false, false), false);
    assert_eq!(intent, Point::new(0, 250_000));
    assert!(!turned);
}

#[test]
fn the_keys_change_sides_with_the_view() {
    let (intent, turned) = update_movement_intent(keys(true, false, false, false), true);
    assert_eq!(intent, Point::new(UNIT, 250_000));
    assert!(turned);
    let (intent, _) = update_movement_intent(keys(false, false, true, false), true);
    assert_eq!(intent, Point::new(0, -UNIT));
    let (intent, _) = update_movement_intent(keys(false, false, false, true), true);
    assert_eq!(intent, Point::new(0, 250_000));
    let (intent, _) = update_movement_intent(keys(false, false, false, true), false);
    assert_eq!(intent, Point::new(0, -UNIT));
    let (intent, _) = update_movement_intent(keys(false, false, true, false), false);
    assert_eq!(intent, Point::new(0, 250_000));
}

#[test]
fn the_heading_follows_its_target() {
    let mut rotation = WhaleRotation::default();
    rotation.steer(UNIT);
    // the target moves by 0.03, the heading by 0.03 of the way to it
    assert_eq!(rotation.target_rotation, 30_000);
    assert_eq!(rotation.current_rotation, 900);
    rotation.steer(UNIT);
    assert_eq!(rotation.target_rotation, 60_000);
    assert_eq!(rotation.current_rotation, 900 + 1_773);
    rotation.steer(-UNIT);
    assert_eq!(rotation.target_rotation, 30_000);
    assert_eq!(rotation.current_rotation, 2_673 + 819);
}

#[test]
fn the_whale_stops_turning_without_an_intent() {
    let mut rotation = WhaleRotation { current_rotation: 100_000, target_rotation: 500_000 };
    rotation.steer(0);
    assert_eq!(rotation, WhaleRotation { current_rotation: 100_000, target_rotation: 100_000 });
    let mut rotation = WhaleRotation { current_rotation: 100_000, target_rotation: 500_000 };
    rotation.steer(9_999);
    assert_eq!(rotation.target_rotation, 100_000 + 299);
    let mut rotation = WhaleRotation { current_rotation: 100_000, target_rotation: 500_000 };
    rotation.steer(10_000);
    assert_eq!(rotation.target_rotation, 500_300);
}

#[test]
fn the_whale_moves_along_its_heading_within_the_window() {
    let window = WindowSize::new(Point::new(800 * UNIT, 600 * UNIT));
    let up = Point::new(0, UNIT);
    let moved = move_whale(&window, Point::new(0, 0), up, 250_000);
    assert_eq!(moved, Point::new(0, 100_000));
    let moved = move_whale(&window, Point::new(0, 0), up, -UNIT);
    assert_eq!(moved, Point::new(0, -400_000));
    let moved = move_whale(&window, Point::new(0, 210 * UNIT), up, 250_000);
    assert_eq!(moved, Point::new(0, 210 * UNIT));
    let up = Point::new(600_000, -800_000);
    let moved = move_whale(&window, Point::new(10 * UNIT, 0), up, UNIT);
    assert_eq!(moved, Point::new(10 * UNIT + 240_000, -320_000));
}

#[test]
fn the_whale_swims_faster_when_steered_back() {
    assert_eq!(swim_frame_interval(250_000), 230);
    assert_eq!(swim_frame_interval(10_000), 230);
    assert_eq!(swim_frame_interval(9_999), 180);
    assert_eq!(swim_frame_interval(-UNIT), 180);
}

#[test]
fn a_creature_moves_by_its_velocity() {
    let moved = move_with_velocity(Point::new(5, -5), &MoveWithVelocity(Point::new(400_000, 0)));
    assert_eq!(moved, Point::new(400_005, -5));
    let moved = move_with_velocity(Point::new(i64::MAX, 0), &MoveWithVelocity(Point::new(1, -1)));
    assert_eq!(moved, Point::new(i64::MAX, -1));
}

#[test]
fn a_creature_arrives_within_one_unit_of_its_target() {
    let details = MoveTowardsLocation { target: Point::new(100 * UNIT, 0), speed: 400_000 };
    assert_eq!(
        move_towards_location(Point::new(98 * UNIT, 0), &details),
        (Point::new(98_400_000, 0), None)
    );
    assert_eq!(
        move_towards_location(Point::new(98_600_000, 0), &details),
        (Point::new(99 * UNIT, 0), None)
    );
    assert_eq!(
        move_towards_location(Point::new(98_600_001, 0), &details),
        (Point::new(99 * UNIT + 1, 0), Some(ArrivedAtLocation))
    );
    // no further than the target
    assert_eq!(
        move_towards_location(Point::new(100 * UNIT + 300_000, -200_000), &details),
        (Point::new(100 * UNIT, 0), Some(ArrivedAtLocation))
    );
    // along both axes: 3 to the left and 4 below, a step of 0.4
    assert_eq!(
        move_towards_location(Point::new(97 * UNIT, -4 * UNIT), &details),
        (Point::new(97_240_000, -3_680_000), None)
    );
}

#[test]
fn the_whale_enters_from_above_the_window() {
    let (start, marker) = spawn_player(300 * UNIT);
    assert_eq!(start, Point::new(0, 364 * UNIT));
    assert_eq!(marker.target_y, 210 * UNIT);
    let (y, arrived) = move_in_spawning_whale(start.y, &marker);
    assert_eq!(y, 364 * UNIT - 400_000);
    assert!(!arrived);
    let (y, arrived) = move_in_spawning_whale(210 * UNIT + 400_000, &marker);
    assert_eq!(y, 210 * UNIT);
    assert!(!arrived);
    let (y, arrived) = move_in_spawning_whale(y, &marker);
    assert_eq!(y, 210 * UNIT - 400_000);
    assert!(arrived);
}

#[test]
fn the_whale_comes_up_and_goes_down_in_turn() {
    let mut breath = BreathingTimer::new();
    assert_eq!(breath.phase, BreathingPhase::Underwater);
    assert_eq!(spawn_breaths(&mut breath, false), None);
    assert_eq!(breath.phase, BreathingPhase::Underwater);
    assert_eq!(spawn_breaths(&mut breath, true), Some((Breath::Surface, 750_000)));
    assert_eq!(breath.phase, BreathingPhase::AboveWater);
    let (what, seconds) = spawn_breaths(&mut breath, true).unwrap();
    match what {
        Breath::Dive(sound) => assert_eq!(sound.key, SfxKey::WhaleBreath),
        Breath::Surface => panic!("surfaced twice"),
    }
    assert!(12 * UNIT <= seconds && seconds < 17 * UNIT);
    assert_eq!(breath.phase, BreathingPhase::Underwater);
    assert_eq!(breath.breathe(13 * UNIT), (Breath::Surface, 750_000));
    assert_eq!(breath.breathe(13 * UNIT).1, 13 * UNIT);
}
