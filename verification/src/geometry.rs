//! Points of the plane the creatures move in, with the centre of the window
//! at the origin.

use crate::rng::gen_range;
use crate::units::div_toward_zero;
use crate::units::lemma_product_fits;
use crate::units::narrow;
use crate::units::sat_add;
use crate::units::sat_sub;
use crate::units::saturated;
use vstd::prelude::*;

verus! {

/// A position, or the difference of two.
#[derive(Debug, Clone, Copy, PartialEq, Eq, Structural)]
pub struct Point {
    pub x: i64,
    pub y: i64,
}

/// Whether two points lie closer together than `radius`.
pub open spec fn is_within(a: Point, b: Point, radius: int) -> bool {
    radius > 0 && (a.x - b.x) * (a.x - b.x) + (a.y - b.y) * (a.y - b.y) < radius * radius
}

/// The point `dx` to the right of `origin` and `dy` above it, each
/// coordinate stopping at the end of the `i64` range.
pub open spec fn shifted(origin: Point, dx: int, dy: int) -> Point {
    Point { x: saturated(origin.x + dx) as i64, y: saturated(origin.y + dy) as i64 }
}

/// The difference `to - from`, each coordinate stopping at the end of the
/// `i64` range.
pub open spec fn difference(to: Point, from: Point) -> Point {
    Point { x: saturated(to.x - from.x) as i64, y: saturated(to.y - from.y) as i64 }
}

/// Whether `root` is the square root of `n`, rounded down.
pub open spec fn is_sqrt(n: int, root: int) -> bool {
    0 <= root && root * root <= n < (root + 1) * (root + 1)
}

/// The square root of `n`, rounded down.
pub open spec fn sqrt_floor(n: int) -> int {
    choose|root: int| is_sqrt(n, root)
}

/// The square of the length of `way`.
pub open spec fn length_squared(way: Point) -> int {
    way.x * way.x + way.y * way.y
}

/// The length of `way`, rounded down.
pub open spec fn length(way: Point) -> int {
    sqrt_floor(length_squared(way))
}

/// The vector of length `speed` along `way`; nothing where `way` has no
/// length. Each coordinate is rounded towards zero.
pub open spec fn along(way: Point, speed: int) -> Point {
    if length(way) == 0 {
        Point { x: 0, y: 0 }
    } else {
        Point {
            x: saturated(div_toward_zero(way.x * speed, length(way))) as i64,
            y: saturated(div_toward_zero(way.y * speed, length(way))) as i64,
        }
    }
}

/// The point reached from `from` by a step of length `by` towards `to`,
/// and `to` itself where it is no further away than that.
pub open spec fn moved_towards(from: Point, to: Point, by: int) -> Point {
    let way = difference(to, from);
    let step = along(way, by);
    if by <= 0 {
        from
    } else if length_squared(way) <= by * by {
        to
    } else {
        shifted(from, step.x as int, step.y as int)
    }
}

/// A square is no smaller than what it is the square of, and squares grow
/// with the size of what is squared.
proof fn lemma_squares(d: int, r: int)
    requires
        0 < r,
    ensures
        d * d >= 0,
        -r < d < r ==> d * d < r * r,
        (d >= r || d <= -r) ==> d * d >= r * r,
{
    assert(d * d >= 0) by (nonlinear_arith);
    assert(-r < d < r ==> d * d < r * r) by (nonlinear_arith)
        requires
            0 < r,
    ;
    assert((d >= r || d <= -r) ==> d * d >= r * r) by (nonlinear_arith)
        requires
            0 < r,
    ;
}

/// The square of an `i64` fits an `i128` twice over.
proof fn lemma_square_fits(d: int)
    requires
        i64::MIN < d <= i64::MAX,
    ensures
        0 <= d * d <= 0x3fff_ffff_ffff_ffff_0000_0000_0000_0001,
{
    assert(0 <= d * d <= 0x3fff_ffff_ffff_ffff_0000_0000_0000_0001) by (nonlinear_arith)
        requires
            -0x7fff_ffff_ffff_ffff <= d <= 0x7fff_ffff_ffff_ffff,
    ;
}

/// A number has one square root rounded down at most.
pub proof fn lemma_sqrt_is_unique(n: int, a: int, b: int)
    requires
        is_sqrt(n, a),
        is_sqrt(n, b),
    ensures
        a == b,
{
    if a < b {
        assert((a + 1) * (a + 1) <= b * b) by (nonlinear_arith)
            requires
                0 <= a,
                a + 1 <= b,
        ;
    } else if b < a {
        assert((b + 1) * (b + 1) <= a * a) by (nonlinear_arith)
            requires
                0 <= b,
                b + 1 <= a,
        ;
    }
}

/// What is found to be the square root rounded down is the square root
/// rounded down.
pub proof fn lemma_sqrt_floor(n: int, root: int)
    requires
        is_sqrt(n, root),
    ensures
        sqrt_floor(n) == root,
{
    lemma_sqrt_is_unique(n, root, sqrt_floor(n));
}

/// Squares grow with what is squared.
proof fn lemma_square_below(a: int, b: int)
    requires
        0 <= a <= b,
    ensures
        a * a <= b * b,
{
    assert(a * a <= b * b) by (nonlinear_arith)
        requires
            0 <= a <= b,
    ;
}

/// No coordinate of a vector is longer than the vector.
proof fn lemma_coordinate_within_length(x: int, y: int, len: int)
    requires
        is_sqrt(x * x + y * y, len),
    ensures
        -len <= x <= len,
{
    assert(y * y >= 0) by (nonlinear_arith);
    if x > len || x < -len {
        assert(x * x >= (len + 1) * (len + 1)) by (nonlinear_arith)
            requires
                0 <= len,
                x > len || x < -len,
        ;
    }
}

/// A share of a speed is no greater than the speed.
proof fn lemma_share_within_speed(x: int, speed: int, len: int)
    requires
        0 < len,
        -len <= x <= len,
        0 <= speed,
    ensures
        -speed <= div_toward_zero(x * speed, len) <= speed,
{
    if x >= 0 {
        assert(0 <= x * speed <= len * speed) by (nonlinear_arith)
            requires
                0 <= x <= len,
                0 <= speed,
        ;
        assert((x * speed) / len <= speed) by (nonlinear_arith)
            requires
                0 <= x * speed <= len * speed,
                0 < len,
        ;
        assert(0 <= (x * speed) / len) by (nonlinear_arith)
            requires
                0 <= x * speed,
                0 < len,
        ;
    } else {
        assert(0 <= -(x * speed) <= len * speed) by (nonlinear_arith)
            requires
                -len <= x < 0,
                0 <= speed,
        ;
        assert((-(x * speed)) / len <= speed) by (nonlinear_arith)
            requires
                0 <= -(x * speed) <= len * speed,
                0 < len,
        ;
        assert(0 <= (-(x * speed)) / len) by (nonlinear_arith)
            requires
                0 <= -(x * speed),
                0 < len,
        ;
    }
}

/// The vector of a given speed along a way moves no faster than that speed
/// along either axis.
pub proof fn lemma_along_within_speed(way: Point, speed: int)
    requires
        0 <= speed <= i64::MAX,
    ensures
        -speed <= along(way, speed).x <= speed,
        -speed <= along(way, speed).y <= speed,
{
    let len = length(way);
    if len != 0 {
        let x = way.x as int;
        let y = way.y as int;
        assert(x * x + y * y >= 0) by (nonlinear_arith);
        lemma_sqrt_exists(x * x + y * y);
        assert(is_sqrt(x * x + y * y, len));
        lemma_coordinate_within_length(x, y, len);
        assert(y * y + x * x == x * x + y * y);
        lemma_coordinate_within_length(y, x, len);
        lemma_share_within_speed(x, speed, len);
        lemma_share_within_speed(y, speed, len);
    }
}

/// Every number that is not negative has a square root rounded down.
pub proof fn lemma_sqrt_exists(n: int)
    requires
        0 <= n,
    ensures
        is_sqrt(n, sqrt_floor(n)),
    decreases n,
{
    if n == 0 {
        assert(is_sqrt(0, 0));
    } else {
        lemma_sqrt_exists(n - 1);
        let r = sqrt_floor(n - 1);
        if n < (r + 1) * (r + 1) {
            assert(is_sqrt(n, r));
        } else {
            assert((r + 2) * (r + 2) > (r + 1) * (r + 1)) by (nonlinear_arith)
                requires
                    0 <= r,
            ;
            assert(is_sqrt(n, r + 1));
        }
    }
}

/// The square root of `n`, rounded down.
pub fn isqrt(n: u128) -> (root: u64)
    ensures
        is_sqrt(n as int, root as int),
        root == sqrt_floor(n as int),
{
    let mut low: u128 = 0;
    let mut high: u128 = 0x1_0000_0000_0000_0000;
    proof {
        assert(0x1_0000_0000_0000_0000int * 0x1_0000_0000_0000_0000int
            == 0x1_0000_0000_0000_0000_0000_0000_0000_0000int) by (nonlinear_arith);
    }
    while high - low > 1
        invariant
            low < high <= 0x1_0000_0000_0000_0000,
            low * low <= n < high * high,
        decreases high - low,
    {
        let mid: u128 = low + (high - low) / 2;
        proof {
            lemma_square_below(mid as int, 0xffff_ffff_ffff_ffff);
            assert(0xffff_ffff_ffff_ffffint * 0xffff_ffff_ffff_ffffint
                == 0xffff_ffff_ffff_fffe_0000_0000_0000_0001int) by (nonlinear_arith);
        }
        if mid * mid <= n {
            low = mid;
        } else {
            high = mid;
        }
    }
    proof {
        lemma_sqrt_floor(n as int, low as int);
    }
    low as u64
}

impl Point {
    pub fn new(x: i64, y: i64) -> (point: Self)
        ensures
            point == (Point { x, y }),
    {
        Point { x, y }
    }

    /// Whether `other` lies closer than `radius`.
    pub fn within(&self, other: &Point, radius: i64) -> (near: bool)
        ensures
            near == is_within(*self, *other, radius as int),
    {
        if radius <= 0 {
            return false;
        }
        let dx: i128 = self.x as i128 - other.x as i128;
        let dy: i128 = self.y as i128 - other.y as i128;
        let r: i128 = radius as i128;
        proof {
            lemma_squares(dx as int, r as int);
            lemma_squares(dy as int, r as int);
        }
        if dx >= r || dx <= -r || dy >= r || dy <= -r {
            return false;
        }
        proof {
            lemma_square_fits(dx as int);
            lemma_square_fits(dy as int);
            lemma_square_fits(r as int);
        }
        dx * dx + dy * dy < r * r
    }

    /// The point `dx` to the right and `dy` up.
    pub fn offset(&self, dx: i64, dy: i64) -> (point: Point)
        ensures
            point == shifted(*self, dx as int, dy as int),
    {
        Point { x: sat_add(self.x, dx), y: sat_add(self.y, dy) }
    }

    /// The way from here to `target`: the difference of the two.
    pub fn way_to(&self, target: Point) -> (way: Point)
        ensures
            way == difference(target, *self),
    {
        Point { x: sat_sub(target.x, self.x), y: sat_sub(target.y, self.y) }
    }

    /// A point drawn from the square around this one that reaches `reach`
    /// to each side.
    pub fn jittered(&self, reach: i64) -> (point: Point)
        requires
            0 < reach,
        ensures
            exists|dx: int, dy: int|
                -reach <= dx < reach && -reach <= dy < reach && point == #[trigger] shifted(
                    *self,
                    dx,
                    dy,
                ),
    {
        let dx = gen_range(-reach, reach);
        let dy = gen_range(-reach, reach);
        let point = self.offset(dx, dy);
        assert(point == shifted(*self, dx as int, dy as int));
        point
    }

    /// The square of the length of this vector.
    pub fn length_squared(&self) -> (squared: u128)
        ensures
            squared == length_squared(*self),
    {
        let x = self.x as i128;
        let y = self.y as i128;
        proof {
            assert(0 <= x * x <= 0x4000_0000_0000_0000_0000_0000_0000_0000) by (nonlinear_arith)
                requires
                    -0x8000_0000_0000_0000 <= x <= 0x8000_0000_0000_0000,
            ;
            assert(0 <= y * y <= 0x4000_0000_0000_0000_0000_0000_0000_0000) by (nonlinear_arith)
                requires
                    -0x8000_0000_0000_0000 <= y <= 0x8000_0000_0000_0000,
            ;
        }
        (x * x) as u128 + (y * y) as u128
    }

    /// The length of this vector, rounded down.
    pub fn length(&self) -> (len: u64)
        ensures
            len == length(*self),
    {
        isqrt(self.length_squared())
    }

    /// The vector of length `speed` along this one; nothing where this one
    /// has no length.
    pub fn along(&self, speed: i64) -> (velocity: Point)
        ensures
            velocity == along(*self, speed as int),
    {
        let len = self.length();
        if len == 0 {
            return Point { x: 0, y: 0 };
        }
        proof {
            lemma_product_fits(self.x as int, speed as int);
            lemma_product_fits(self.y as int, speed as int);
        }
        Point {
            x: narrow((self.x as i128) * (speed as i128) / (len as i128)),
            y: narrow((self.y as i128) * (speed as i128) / (len as i128)),
        }
    }

    /// Moves a step of length `by` towards `target`, and not beyond it.
    pub fn move_towards(&self, target: Point, by: i64) -> (moved: Point)
        ensures
            moved == moved_towards(*self, target, by as int),
    {
        if by <= 0 {
            return *self;
        }
        let way = self.way_to(target);
        proof {
            lemma_product_fits(by as int, by as int);
        }
        if way.length_squared() <= ((by as i128) * (by as i128)) as u128 {
            return target;
        }
        let step = way.along(by);
        self.offset(step.x, step.y)
    }
}

} // verus!
