use migration_sim::geometry::Point;
use migration_sim::movement::despawn_out_of_view;
use migration_sim::units::UNIT;
use migration_sim::window::creature_path_via;
use migration_sim::window::get_creature_path;
use migration_sim::window::Val;
use migration_sim::window::WindowSize;

fn window() -> WindowSize {
    WindowSize::new(Point::new(800 * UNIT, 600 * UNIT))
}

#[test]
fn half_is_half_the_size() {
    let mut win = WindowSize::new(Point::new(1, 1));
    assert_eq!(win.half(), Point::new(0, 0));
    win.set(Point::new(801 * UNIT, 600 * UNIT));
    assert_eq!(win.size(), Point::new(801 * UNIT, 600 * UNIT));
    assert_eq!(win.half(), Point::new(400_500_000, 300 * UNIT));
    win.set(Point::new(-3, 5));
    assert_eq!(win.half(), Point::new(-1, 2));
}

#[test]
fn clamp_keeps_a_buffer_in_pixels() {
    let win = window();
    let kept = win.clamp_to_screen_with_buffer(Point::new(500 * UNIT, -500 * UNIT), Val::Px(20 * UNIT));
    assert_eq!(kept, Point::new(380 * UNIT, -280 * UNIT));
    let inside = Point::new(-379 * UNIT, 10 * UNIT);
    assert_eq!(win.clamp_to_screen_with_buffer(inside, Val::Px(20 * UNIT)), inside);
}

#[test]
fn clamp_keeps_a_buffer_in_percent() {
    let win = window();
    let kept = win.clamp_to_screen_with_buffer(Point::new(900 * UNIT, 900 * UNIT), Val::Percent(30 * UNIT));
    assert_eq!(kept, Point::new(280 * UNIT, 210 * UNIT));
    let kept = win.clamp_to_screen_with_buffer(Point::new(-900 * UNIT, 0), Val::Percent(30 * UNIT));
    assert_eq!(kept, Point::new(-280 * UNIT, 0));
}

#[test]
fn clamp_keeps_the_automatic_buffer_or_none() {
    let win = window();
    let far = Point::new(900 * UNIT, 900 * UNIT);
    assert_eq!(win.clamp_to_screen_with_buffer(far, Val::Auto), Point::new(390 * UNIT, 290 * UNIT));
    assert_eq!(win.clamp_to_screen_with_buffer(far, Val::Vw(50 * UNIT)), Point::new(400 * UNIT, 300 * UNIT));
    assert_eq!(win.clamp_to_screen_with_buffer(far, Val::VMax(50 * UNIT)), Point::new(400 * UNIT, 300 * UNIT));
}

#[test]
fn clamp_leaves_the_point_where_the_buffer_leaves_no_room() {
    let win = WindowSize::new(Point::new(10 * UNIT, 600 * UNIT));
    let far = Point::new(900 * UNIT, 900 * UNIT);
    assert_eq!(win.clamp_to_screen_with_buffer(far, Val::Px(20 * UNIT)), far);
    let win = WindowSize::new(Point::new(0, 0));
    assert_eq!(win.clamp_to_screen_with_buffer(far, Val::Auto), far);
    assert_eq!(win.clamp_to_screen_with_buffer(far, Val::Percent(30 * UNIT)), Point::new(0, 0));
}

#[test]
fn random_positions_lie_in_the_window_and_vary() {
    let win = window();
    let mut seen = Vec::new();
    for _ in 0..100 {
        let at = win.get_random_position().unwrap();
        assert!(-400 * UNIT <= at.x && at.x < 400 * UNIT);
        assert!(-300 * UNIT <= at.y && at.y < 300 * UNIT);
        if !seen.contains(&at) {
            seen.push(at);
        }
    }
    assert!(seen.len() > 1);
}

#[test]
fn no_random_position_in_a_window_without_area() {
    assert_eq!(WindowSize::new(Point::new(0, 0)).get_random_position(), None);
    assert_eq!(WindowSize::new(Point::new(1, 600 * UNIT)).get_random_position(), None);
    assert_eq!(WindowSize::new(Point::new(800 * UNIT, -600 * UNIT)).get_random_position(), None);
    assert_eq!(WindowSize::new(Point::new(0, 0)).get_random_position_outside(), None);
}

#[test]
fn positions_outside_lie_beyond_an_edge() {
    let win = window();
    let mut left = false;
    let mut right = false;
    let mut low = false;
    let mut high = false;
    for _ in 0..200 {
        let at = win.get_random_position_outside().unwrap();
        assert!(despawn_out_of_view(at, win.half()));
        if at.x == -700 * UNIT {
            left = true;
        } else if at.x == 700 * UNIT {
            right = true;
        } else if at.y == -600 * UNIT {
            low = true;
        } else if at.y == 600 * UNIT {
            high = true;
        } else {
            panic!("{:?}", at);
        }
        if at.x.abs() == 700 * UNIT {
            assert!(-300 * UNIT <= at.y && at.y < 300 * UNIT);
        } else {
            assert!(-400 * UNIT <= at.x && at.x < 400 * UNIT);
        }
    }
    assert!(left && right && low && high);
}

#[test]
fn position_outside_across_the_chosen_edge() {
    let win = window();
    for _ in 0..20 {
        let at = win.position_outside_via(true).unwrap();
        assert_eq!(at.x.abs(), 700 * UNIT);
        let at = win.position_outside_via(false).unwrap();
        assert_eq!(at.y.abs(), 600 * UNIT);
    }
    let flat = WindowSize::new(Point::new(800 * UNIT, 0));
    assert_eq!(flat.position_outside_via(true), None);
    assert!(flat.position_outside_via(false).is_some());
}

#[test]
fn a_path_leads_from_one_edge_to_the_one_opposite() {
    let size = Point::new(800 * UNIT, 600 * UNIT);
    for _ in 0..50 {
        let (from, to) = creature_path_via(size, 64 * UNIT, true, false).unwrap();
        assert_eq!(from.x, -464 * UNIT);
        assert_eq!(to.x, 464 * UNIT);
        assert!(-236 * UNIT <= from.y && from.y < 236 * UNIT);
        assert!(-236 * UNIT <= to.y && to.y < 236 * UNIT);
        let (from, to) = creature_path_via(size, 64 * UNIT, true, true).unwrap();
        assert_eq!(from.x, 464 * UNIT);
        assert_eq!(to.x, -464 * UNIT);
        let (from, to) = creature_path_via(size, 64 * UNIT, false, false).unwrap();
        assert_eq!(from.y, -364 * UNIT);
        assert_eq!(to.y, 364 * UNIT);
        assert!(-336 * UNIT <= from.x && from.x < 336 * UNIT);
        assert!(-336 * UNIT <= to.x && to.x < 336 * UNIT);
        let (from, to) = creature_path_via(size, 64 * UNIT, false, true).unwrap();
        assert_eq!(from.y, 364 * UNIT);
        assert_eq!(to.y, -364 * UNIT);
    }
}

#[test]
fn drawn_paths_take_every_way() {
    let size = Point::new(800 * UNIT, 600 * UNIT);
    let mut starts = Vec::new();
    for _ in 0..200 {
        let (from, to) = get_creature_path(size, 64 * UNIT).unwrap();
        let side = if from.x == -464 * UNIT {
            assert_eq!(to.x, 464 * UNIT);
            0
        } else if from.x == 464 * UNIT {
            assert_eq!(to.x, -464 * UNIT);
            1
        } else if from.y == -364 * UNIT {
            assert_eq!(to.y, 364 * UNIT);
            2
        } else {
            assert_eq!(from.y, 364 * UNIT);
            assert_eq!(to.y, -364 * UNIT);
            3
        };
        if !starts.contains(&side) {
            starts.push(side);
        }
    }
    assert_eq!(starts.len(), 4);
}

#[test]
fn no_path_across_a_window_too_small_for_the_creature() {
    assert_eq!(get_creature_path(Point::new(0, 0), 64 * UNIT), None);
    assert_eq!(get_creature_path(Point::new(128 * UNIT, 128 * UNIT), 64 * UNIT), None);
    assert!(get_creature_path(Point::new(128 * UNIT + 2, 128 * UNIT + 2), 64 * UNIT).is_some());
    let size = Point::new(800 * UNIT, 100 * UNIT);
    assert_eq!(creature_path_via(size, 64 * UNIT, true, false), None);
    assert!(creature_path_via(size, 64 * UNIT, false, false).is_some());
}

#[test]
fn creatures_are_removed_beyond_the_buffer() {
    let half = Point::new(400 * UNIT, 300 * UNIT);
    assert!(!despawn_out_of_view(Point::new(550 * UNIT, 0), half));
    assert!(despawn_out_of_view(Point::new(550 * UNIT + 1, 0), half));
    assert!(!despawn_out_of_view(Point::new(-550 * UNIT, -450 * UNIT), half));
    assert!(despawn_out_of_view(Point::new(-550 * UNIT - 1, 0), half));
    assert!(despawn_out_of_view(Point::new(0, 450 * UNIT + 1), half));
    assert!(despawn_out_of_view(Point::new(0, -450 * UNIT - 1), half));
    assert!(!despawn_out_of_view(Point::new(i64::MIN, 0), Point::new(i64::MAX, i64::MAX)));
    assert!(despawn_out_of_view(Point::new(i64::MAX, 0), Point::new(0, 0)));
}
