//! The window: its size, positions in it and around it, and the paths on
//! which creatures cross it.

use crate::geometry::Point;
use crate::movement::is_out_of_view;
use crate::rng::pick;
use crate::rng::gen_range;
use crate::rng::gen_ratio;
use crate::units::clamp_to;
use crate::units::clamped;
use crate::units::div_toward_zero;
use crate::units::product;
use crate::units::sat_mul;
use crate::units::sat_sub;
use crate::units::saturated;
use crate::units::UNIT;
use vstd::prelude::*;

verus! {

/// The margin that `Val::Auto` stands for.
pub const AUTO_BUFFER: i64 = 10_000_000;

/// How far outside the window, beyond the despawn buffer, a creature heads
/// when it leaves.
pub const EXIT_DISTANCE: i64 = 300_000_000;

/// A length on the screen.
#[derive(Debug, Clone, Copy, PartialEq, Eq, Structural)]
pub enum Val {
    Auto,
    Px(i64),
    Percent(i64),
    Vw(i64),
    Vh(i64),
    VMin(i64),
    VMax(i64),
}

/// How far from the origin a point may lie along one axis, in a window that
/// reaches `half` along it, with the given buffer at the edge.
pub open spec fn bound(half: int, buffer: Val) -> int {
    match buffer {
        Val::Px(v) => saturated(half - v),
        Val::Percent(p) => saturated(product(UNIT - div_toward_zero(p as int, 100), half)),
        Val::Auto => saturated(half - AUTO_BUFFER),
        _ => half,
    }
}

/// The half of a length, rounded towards zero.
pub open spec fn halved(size: Point) -> Point {
    Point {
        x: div_toward_zero(size.x as int, 2) as i64,
        y: div_toward_zero(size.y as int, 2) as i64,
    }
}

/// The point nearest to `clampee` that keeps the buffer from the edge of a
/// window that reaches `half` to each side. Where the buffer leaves no room
/// the point stays where it is.
pub open spec fn clamped_to_screen(half: Point, clampee: Point, buffer: Val) -> Point {
    let x_bound = bound(half.x as int, buffer);
    let y_bound = bound(half.y as int, buffer);
    if x_bound < 0 || y_bound < 0 {
        clampee
    } else {
        Point {
            x: clamped(clampee.x as int, -x_bound, x_bound) as i64,
            y: clamped(clampee.y as int, -y_bound, y_bound) as i64,
        }
    }
}

/// Whether `value` lies in the interval that reaches `half` to each side of
/// the origin, the upper end left out.
pub open spec fn spans(half: int, value: int) -> bool {
    -half <= value < half
}

/// Whether `position` lies in a window that reaches `half` to each side.
pub open spec fn is_inside(half: Point, position: Point) -> bool {
    spans(half.x as int, position.x as int) && spans(half.y as int, position.y as int)
}

/// The coordinate of the edge at `half`, or of the one opposite, moved
/// outwards by `by`.
pub open spec fn beyond(half: int, by: int, far: bool) -> int {
    if far {
        saturated(half + by)
    } else {
        saturated(-half - by)
    }
}

/// Whether a creature that leaves a window that reaches `half` to each side
/// may head for `position`: beyond the left or right edge at a height that
/// the window has, or beyond the upper or lower edge at a width that it has.
pub open spec fn is_exit(half: Point, position: Point) -> bool {
    ||| is_exit_edge(half.x as int, position.x as int) && spans(half.y as int, position.y as int)
    ||| is_exit_edge(half.y as int, position.y as int) && spans(half.x as int, position.x as int)
}

/// Whether `coordinate` lies `EXIT_DISTANCE` beyond the edge at `half` or
/// the one opposite.
pub open spec fn is_exit_edge(half: int, coordinate: int) -> bool {
    ||| coordinate == beyond(half, EXIT_DISTANCE as int, false)
    ||| coordinate == beyond(half, EXIT_DISTANCE as int, true)
}

/// The two ends of a path across a window that reaches `half` to each side,
/// for a creature of size `sprite`: from beyond one edge to beyond the one
/// opposite, `first` and `second` being where along those edges, and
/// `swap` turning the path round.
pub open spec fn creature_path(
    half: Point,
    sprite: int,
    left_right: bool,
    first: int,
    second: int,
    swap: bool,
) -> (Point, Point) {
    let (a, b) = if left_right {
        (
            Point { x: beyond(half.x as int, sprite, false) as i64, y: first as i64 },
            Point { x: beyond(half.x as int, sprite, true) as i64, y: second as i64 },
        )
    } else {
        (
            Point { x: first as i64, y: beyond(half.y as int, sprite, false) as i64 },
            Point { x: second as i64, y: beyond(half.y as int, sprite, true) as i64 },
        )
    };
    if swap {
        (b, a)
    } else {
        (a, b)
    }
}

/// The interval along an edge of length `2 * half` in which a creature of
/// size `sprite` starts or ends its path: empty where the window is too
/// small for the creature.
pub open spec fn path_range(half: int, sprite: int) -> (int, int) {
    (saturated(-half + sprite), saturated(half - sprite))
}

/// Whether `path` is a path across the window along the given axis: its
/// ends lie beyond two opposite edges, within the range that the creature's
/// size leaves.
pub open spec fn is_path(half: Point, sprite: int, path: (Point, Point)) -> bool {
    exists|left_right: bool, first: int, second: int, swap: bool|
        {
            let range = if left_right {
                path_range(half.y as int, sprite)
            } else {
                path_range(half.x as int, sprite)
            };
            &&& range.0 <= first < range.1
            &&& range.0 <= second < range.1
            &&& path == #[trigger] creature_path(half, sprite, left_right, first, second, swap)
        }
}

/// The size of the window.
#[derive(Debug, Clone, Copy)]
pub struct WindowSize {
    size: Point,
}

impl View for WindowSize {
    type V = Point;

    closed spec fn view(&self) -> Point {
        self.size
    }
}

fn half_of(v: i64) -> (h: i64)
    ensures
        h == div_toward_zero(v as int, 2),
{
    v / 2
}

fn edge_beyond(half: i64, by: i64, far: bool) -> (edge: i64)
    ensures
        edge == beyond(half as int, by as int, far),
{
    let wide: i128 = if far {
        half as i128 + by as i128
    } else {
        -(half as i128) - by as i128
    };
    crate::units::narrow(wide)
}

fn axis_bound(half: i64, buffer: Val) -> (b: i64)
    ensures
        b == bound(half as int, buffer),
{
    match buffer {
        Val::Px(v) => sat_sub(half, v),
        Val::Percent(p) => sat_mul(UNIT - p / 100, half),
        Val::Auto => sat_sub(half, AUTO_BUFFER),
        _ => half,
    }
}

impl WindowSize {
    pub fn new(size: Point) -> (window: Self)
        ensures
            window@ == size,
    {
        WindowSize { size }
    }

    pub fn set(&mut self, size: Point)
        ensures
            final(self)@ == size,
    {
        self.size = size;
    }

    pub fn size(&self) -> (size: Point)
        ensures
            size == self@,
    {
        self.size
    }

    pub fn half(&self) -> (half: Point)
        ensures
            half == halved(self@),
    {
        Point { x: half_of(self.size.x), y: half_of(self.size.y) }
    }

    /// Keeps `clampee` on the screen, `buffer` away from its edge.
    pub fn clamp_to_screen_with_buffer(&self, clampee: Point, buffer: Val) -> (kept: Point)
        ensures
            kept == clamped_to_screen(halved(self@), clampee, buffer),
    {
        let half = self.half();
        let x_bound = axis_bound(half.x, buffer);
        let y_bound = axis_bound(half.y, buffer);
        if x_bound < 0 || y_bound < 0 {
            return clampee;
        }
        Point {
            x: clamp_to(clampee.x, -x_bound, x_bound),
            y: clamp_to(clampee.y, -y_bound, y_bound),
        }
    }

    /// A position drawn from the window; none where the window has no area.
    pub fn get_random_position(&self) -> (position: Option<Point>)
        ensures
            position is Some <==> halved(self@).x > 0 && halved(self@).y > 0,
            position matches Some(at) ==> is_inside(halved(self@), at),
    {
        let half = self.half();
        if half.x <= 0 || half.y <= 0 {
            return None;
        }
        Some(Point { x: gen_range(-half.x, half.x), y: gen_range(-half.y, half.y) })
    }

    /// A position outside the window for a creature that leaves, for the
    /// drawn edge: across the left or right edge if `via_x`, else across the
    /// upper or lower one; none where the edge has no length.
    pub fn position_outside_via(&self, via_x: bool) -> (position: Option<Point>)
        ensures
            position is Some <==> if via_x {
                halved(self@).y > 0
            } else {
                halved(self@).x > 0
            },
            position matches Some(at) ==> is_exit(halved(self@), at),
            position matches Some(at) ==> if via_x {
                is_exit_edge(halved(self@).x as int, at.x as int) && spans(
                    halved(self@).y as int,
                    at.y as int,
                )
            } else {
                is_exit_edge(halved(self@).y as int, at.y as int) && spans(
                    halved(self@).x as int,
                    at.x as int,
                )
            },
    {
        let half = self.half();
        if via_x {
            if half.y <= 0 {
                return None;
            }
            let near = edge_beyond(half.x, EXIT_DISTANCE, false);
            let far = edge_beyond(half.x, EXIT_DISTANCE, true);
            let edges = [near, far];
            let x = match pick(edges.as_slice()) {
                Some(edge) => edge,
                None => far,
            };
            assert(edges@.contains(x) ==> x == near || x == far);
            Some(Point { x, y: gen_range(-half.y, half.y) })
        } else {
            if half.x <= 0 {
                return None;
            }
            let near = edge_beyond(half.y, EXIT_DISTANCE, false);
            let far = edge_beyond(half.y, EXIT_DISTANCE, true);
            let edges = [near, far];
            let y = match pick(edges.as_slice()) {
                Some(edge) => edge,
                None => far,
            };
            assert(edges@.contains(y) ==> y == near || y == far);
            Some(Point { x: gen_range(-half.x, half.x), y })
        }
    }

    /// A position outside the window for a creature that leaves; none where
    /// the edge it would cross has no length.
    pub fn get_random_position_outside(&self) -> (position: Option<Point>)
        ensures
            halved(self@).x > 0 && halved(self@).y > 0 ==> position is Some,
            halved(self@).x <= 0 && halved(self@).y <= 0 ==> position is None,
            position matches Some(at) ==> is_exit(halved(self@), at),
    {
        self.position_outside_via(gen_ratio(1, 2))
    }
}

/// An exit lies where creatures are removed: outside the window by more
/// than the despawn buffer.
pub proof fn lemma_exit_is_out_of_view(half: Point, position: Point)
    requires
        is_exit(half, position),
        0 <= half.x,
        0 <= half.y,
        half.x + EXIT_DISTANCE <= i64::MAX,
        half.y + EXIT_DISTANCE <= i64::MAX,
    ensures
        is_out_of_view(position, half),
{
}

/// The ends of a path across the window for a creature of size
/// `sprite_size`, for the drawn axis and turn: from left to right if
/// `left_right`, else from bottom to top, and the other way round if `swap`.
/// None where the window is too small for the creature.
pub fn creature_path_via(window_size: Point, sprite_size: i64, left_right: bool, swap: bool) -> (path:
    Option<(Point, Point)>)
    ensures
        path is Some <==> ({
            let half = halved(window_size);
            let range = if left_right {
                path_range(half.y as int, sprite_size as int)
            } else {
                path_range(half.x as int, sprite_size as int)
            };
            range.0 < range.1
        }),
        path matches Some(ends) ==> ({
            let half = halved(window_size);
            let range = if left_right {
                path_range(half.y as int, sprite_size as int)
            } else {
                path_range(half.x as int, sprite_size as int)
            };
            exists|first: int, second: int|
                range.0 <= first < range.1 && range.0 <= second < range.1 && ends
                    == #[trigger] creature_path(
                    half,
                    sprite_size as int,
                    left_right,
                    first,
                    second,
                    swap,
                )
        }),
{
    let half = Point { x: half_of(window_size.x), y: half_of(window_size.y) };
    let along = if left_right {
        half.y
    } else {
        half.x
    };
    let across = if left_right {
        half.x
    } else {
        half.y
    };
    let low = crate::units::narrow(-(along as i128) + sprite_size as i128);
    let high = sat_sub(along, sprite_size);
    if low >= high {
        return None;
    }
    let first = gen_range(low, high);
    let second = gen_range(low, high);
    let near = edge_beyond(across, sprite_size, false);
    let far = edge_beyond(across, sprite_size, true);
    let (a, b) = if left_right {
        (Point { x: near, y: first }, Point { x: far, y: second })
    } else {
        (Point { x: first, y: near }, Point { x: second, y: far })
    };
    let ends = if swap {
        (b, a)
    } else {
        (a, b)
    };
    assert(ends == creature_path(
        half,
        sprite_size as int,
        left_right,
        first as int,
        second as int,
        swap,
    ));
    Some(ends)
}

/// Returns the ends of a path for spawning a creature of size
/// `sprite_size`: from beyond one edge of the window to beyond the one
/// opposite. None where the window is too small for the creature along the
/// drawn axis.
pub fn get_creature_path(window_size: Point, sprite_size: i64) -> (path: Option<(Point, Point)>)
    ensures
        path matches Some(ends) ==> is_path(halved(window_size), sprite_size as int, ends),
        ({
            let half = halved(window_size);
            let x_range = path_range(half.x as int, sprite_size as int);
            let y_range = path_range(half.y as int, sprite_size as int);
            &&& x_range.0 < x_range.1 && y_range.0 < y_range.1 ==> path is Some
            &&& x_range.0 >= x_range.1 && y_range.0 >= y_range.1 ==> path is None
        }),
{
    let left_right = gen_ratio(1, 2);
    let swap = gen_ratio(1, 2);
    creature_path_via(window_size, sprite_size, left_right, swap)
}

} // verus!
