use migration_sim::day_night_cycle::WeatherState;
use migration_sim::encounters::EncounterTimers;
use migration_sim::encounters::EncounterType;
use migration_sim::encounters::Intercepts;
use migration_sim::flipper::hard_reset_flippables;
use migration_sim::flipper::perform_direction_switch_with_fade;
use migration_sim::flipper::reset_travel_distance;
use migration_sim::flipper::set_flippable_components;
use migration_sim::flipper::set_up_flippables_for_gameplay;
use migration_sim::flipper::update_flip_timer;
use migration_sim::flipper::update_travel_distance;
use migration_sim::flipper::FlipComplete;
use migration_sim::flipper::IsFlipped;
use migration_sim::geometry::Point;
use migration_sim::player::WhaleRotation;
use migration_sim::rain::Raininess;
use migration_sim::splash::check_splash_timer;
use migration_sim::splash::SplashStep;
use migration_sim::splash::UiFadeComplete;
use migration_sim::splash::UiImageFadeInOut;
use migration_sim::travel::TravelDirection;
use migration_sim::travel::TravelDistance;
use migration_sim::units::UNIT;
use migration_sim::window::WindowSize;

#[test]
fn the_view_is_turned_round_and_back() {
    let mut flipped = IsFlipped::new(false);
    assert!(!flipped.get_flipped());
    flipped.toggle();
    assert!(flipped.get_flipped());
    flipped.toggle();
    assert!(!flipped.get_flipped());
    set_up_flippables_for_gameplay(&mut flipped);
    assert!(flipped.get_flipped());
    hard_reset_flippables(&mut flipped);
    assert!(!flipped.get_flipped());
}

#[test]
fn sprites_are_drawn_as_the_view_is() {
    let mut sprites = vec![false, true, false];
    set_flippable_components(&IsFlipped::new(true), &mut sprites);
    assert_eq!(sprites, vec![true, true, true]);
    set_flippable_components(&IsFlipped::new(false), &mut sprites);
    assert_eq!(sprites, vec![false, false, false]);
}

#[test]
fn a_flip_is_asked_for_once_with_the_message_of_the_leg() {
    let mut clock = TravelDistance::default();
    assert!(update_travel_distance(&mut clock, 119 * UNIT).is_none());
    let flip = update_travel_distance(&mut clock, 2 * UNIT).unwrap();
    assert_eq!(flip.flip_text, "The warm Northern waters for are perfect for winter.");
    for _ in 0..90 {
        assert!(update_travel_distance(&mut clock, UNIT / 60).is_none());
    }
    clock.reset_timer();
    assert!(update_travel_distance(&mut clock, 119 * UNIT).is_none());
    let flip = update_travel_distance(&mut clock, 2 * UNIT).unwrap();
    assert_eq!(flip.flip_text, "The cooler Southern waters are ideal for summer.");
    reset_travel_distance(&mut clock);
    assert_eq!(clock.get(), 0);
    assert_eq!(clock.get_flip_number(), 0);
}

#[test]
fn no_flip_starts_while_one_is_under_way() {
    assert!(perform_direction_switch_with_fade(1).is_none());
    assert!(perform_direction_switch_with_fade(3).is_none());
    let (fade, timer) = perform_direction_switch_with_fade(0).unwrap();
    assert_eq!(timer.seconds, 1_500_000);
    assert_eq!(fade.alpha(), 0);
}

#[test]
fn the_flip_puts_everything_back_for_the_next_leg() {
    let window = WindowSize::new(Point::new(800 * UNIT, 600 * UNIT));
    let mut flipped = IsFlipped::new(true);
    let mut clock = TravelDistance::default();
    let mut timers = EncounterTimers::default();
    let mut rain = Raininess::new();
    let mut weather = WeatherState::default();
    let mut rotation = WhaleRotation { current_rotation: 5, target_rotation: 7 };
    clock.update(121 * UNIT);
    let draws = Intercepts { bird: 20 * UNIT, fish: 15 * UNIT, ship: 45 * UNIT, iceberg: -5 * UNIT };
    timers.tick_with(121 * UNIT, TravelDirection::North, draws);
    rain.step(121 * UNIT, UNIT, 20 * UNIT);
    weather.advance(10 * UNIT, true);

    let done = update_flip_timer(
        false,
        &window,
        &mut flipped,
        &mut clock,
        &mut timers,
        &mut rain,
        &mut weather,
        &mut rotation,
    );
    assert_eq!(done, None);
    assert!(flipped.get_flipped());
    assert_eq!(clock.get(), 121 * UNIT);
    assert!(rain.is_raining());
    assert_eq!(weather.time_of_day(), 10 * UNIT);
    assert_eq!(rotation, WhaleRotation { current_rotation: 5, target_rotation: 7 });

    let done = update_flip_timer(
        true,
        &window,
        &mut flipped,
        &mut clock,
        &mut timers,
        &mut rain,
        &mut weather,
        &mut rotation,
    );
    assert_eq!(done, Some((Point::new(0, 240 * UNIT), FlipComplete)));
    assert!(!flipped.get_flipped());
    assert_eq!(clock.get(), 0);
    assert_eq!(clock.get_flip_number(), 1);
    assert_eq!(clock.travel_direction(), TravelDirection::South);
    assert!(!rain.is_raining());
    assert_eq!(rain.factor(), 0);
    assert_eq!(weather.time_of_day(), 6 * UNIT);
    assert_eq!(rotation, WhaleRotation::default());
    // the timers are those of a leg heading south: the first iceberg at 65
    let requests = timers.tick_with(64 * UNIT, TravelDirection::South, draws);
    let kinds: Vec<EncounterType> = requests.iter().map(|r| r.encounter_type).collect();
    assert_eq!(kinds, vec![EncounterType::Bird, EncounterType::Fish, EncounterType::Ship]);
}

#[test]
fn opacity_rises_stays_and_falls() {
    let mut fade = UiImageFadeInOut::new(UNIT, 3 * UNIT);
    assert_eq!(fade.alpha(), 0);
    assert_eq!(fade.tick_fade_in_out(250_000), None);
    // a twelfth of the way: (1 - |2/12 - 1|) * 3 = 0.5
    assert_eq!(fade.alpha(), 499_998);
    assert_eq!(fade.tick_fade_in_out(250_000), None);
    assert_eq!(fade.alpha(), 999_996);
    assert_eq!(fade.tick_fade_in_out(UNIT), None);
    assert_eq!(fade.alpha(), UNIT);
    assert_eq!(fade.tick_fade_in_out(UNIT), None);
    assert_eq!(fade.alpha(), UNIT);
    assert_eq!(fade.tick_fade_in_out(250_000), None);
    assert_eq!(fade.alpha(), 500_004);
    assert_eq!(fade.tick_fade_in_out(249_999), None);
    assert_eq!(fade.alpha(), 6);
    assert_eq!(fade.tick_fade_in_out(2), Some(UiFadeComplete));
    assert_eq!(fade.alpha(), 0);
    assert_eq!(fade.tick_fade_in_out(250_000), None);
    assert_eq!(fade.alpha(), 0);
}

#[test]
fn a_fade_that_ends_exactly_is_complete_twice() {
    let mut fade = UiImageFadeInOut::new(UNIT, 3 * UNIT);
    assert_eq!(fade.tick_fade_in_out(3 * UNIT), Some(UiFadeComplete));
    assert_eq!(fade.tick_fade_in_out(0), Some(UiFadeComplete));
    assert_eq!(fade.tick_fade_in_out(1), Some(UiFadeComplete));
    assert_eq!(fade.tick_fade_in_out(1), None);
}

#[test]
fn the_splash_screen_shows_two_images_and_leaves() {
    let mut shown = 0;
    assert_eq!(check_splash_timer(false, &mut shown), SplashStep::Stay);
    assert_eq!(shown, 0);
    assert_eq!(check_splash_timer(true, &mut shown), SplashStep::ShowNext);
    assert_eq!(shown, 1);
    assert_eq!(check_splash_timer(false, &mut shown), SplashStep::Stay);
    assert_eq!(check_splash_timer(true, &mut shown), SplashStep::Leave);
    assert_eq!(shown, 1);
}
