use migration_sim::travel::TravelDirection;
use migration_sim::travel::TravelDistance;
use migration_sim::travel::DISTANCE_FLIPPING;
use migration_sim::units::UNIT;

#[test]
fn three_advances_of_fifty_flip_once_on_the_third() {
    assert_eq!(DISTANCE_FLIPPING, 120 * UNIT);
    let mut clock = TravelDistance::default();
    assert_eq!(clock.get(), 0);
    assert!(!clock.update(50 * UNIT));
    assert!(!clock.update(50 * UNIT));
    assert!(clock.update(50 * UNIT));
    assert_eq!(clock.get(), 150 * UNIT);
    assert_eq!(clock.get() % DISTANCE_FLIPPING, 30 * UNIT);
    assert_eq!(clock.get_flip_number(), 0);
    clock.reset_timer();
    assert_eq!(clock.get_flip_number(), 1);
    assert!(clock.get() < DISTANCE_FLIPPING);
    assert_eq!(clock.get(), 0);
}

#[test]
fn flip_signal_is_not_repeated_while_the_leg_goes_on() {
    let mut clock = TravelDistance::default();
    assert!(!clock.update(100 * UNIT));
    assert!(clock.update(30 * UNIT));
    for _ in 0..200 {
        assert!(!clock.update(UNIT / 60));
    }
    assert_eq!(clock.get_flip_number(), 0);
}

#[test]
fn one_huge_advance_flips_once() {
    let mut clock = TravelDistance::default();
    let mut fired = 0;
    if clock.update(500 * UNIT) {
        fired += 1;
    }
    for _ in 0..10 {
        if clock.update(UNIT) {
            fired += 1;
        }
    }
    assert_eq!(fired, 1);
}

#[test]
fn advance_by_nothing_or_less_changes_nothing() {
    let mut clock = TravelDistance::default();
    assert!(!clock.update(130 * UNIT));
    assert!(!clock.update(0));
    assert!(!clock.update(-5 * UNIT));
    assert_eq!(clock.get(), 130 * UNIT);
    assert!(clock.update(1));
}

#[test]
fn distance_stops_at_the_end_of_the_range() {
    let mut clock = TravelDistance::default();
    clock.update(i64::MAX);
    clock.update(i64::MAX);
    assert_eq!(clock.get(), i64::MAX);
}

#[test]
fn direction_and_message_alternate_with_each_flip() {
    let mut clock = TravelDistance::default();
    assert_eq!(clock.travel_direction(), TravelDirection::North);
    assert_eq!(
        clock.get_message(),
        "The warm Northern waters for are perfect for winter."
    );
    clock.reset_timer();
    assert_eq!(clock.travel_direction(), TravelDirection::South);
    assert_eq!(
        clock.get_message(),
        "The cooler Southern waters are ideal for summer."
    );
    clock.reset_timer();
    assert_eq!(clock.travel_direction(), TravelDirection::North);
    assert_eq!(clock.get_flip_number(), 2);
}

#[test]
fn future_range_lies_ahead_of_the_distance() {
    let mut clock = TravelDistance::default();
    clock.update(10 * UNIT);
    for _ in 0..100 {
        let future = clock.future_range(16 * UNIT..25 * UNIT);
        assert!(26 * UNIT <= future && future < 35 * UNIT);
    }
}
