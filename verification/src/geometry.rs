//! Lattice points, saturating arithmetic and axis-aligned rectangles.
use vstd::prelude::*;

verus! {

/// A point, a displacement or a pair of extents on the integer lattice.
#[derive(Clone, Copy, Debug, PartialEq, Eq)]
pub struct Vec2 {
    pub x: i32,
    pub y: i32,
}

/// The coordinate nearest to `v` that an `i32` can hold.
pub open spec fn clamp_i32(v: int) -> i32 {
    if v < i32::MIN {
        i32::MIN
    } else if v > i32::MAX {
        i32::MAX
    } else {
        v as i32
    }
}

/// The count nearest to `v` that a `u32` can hold.
pub open spec fn clamp_u32(v: int) -> u32 {
    if v < 0 {
        0
    } else if v > u32::MAX {
        u32::MAX
    } else {
        v as u32
    }
}

/// `v` limited to the interval from `low` to `high`.
pub open spec fn clamp_between(v: int, low: int, high: int) -> int {
    if v < low {
        low
    } else if v > high {
        high
    } else {
        v
    }
}

/// Narrows a wide intermediate result to a coordinate, saturating at the
/// ends of `i32`.
pub fn saturate(v: i64) -> (r: i32)
    ensures
        r == clamp_i32(v as int),
{
    if v < i32::MIN as i64 {
        i32::MIN
    } else if v > i32::MAX as i64 {
        i32::MAX
    } else {
        v as i32
    }
}

/// The product of a speed and a duration always fits in an `i64`, with
/// room left to add a coordinate.
pub proof fn lemma_travel_bounds(speed: i32, dt: u32)
    ensures
        -0x7fff_ffff_8000_0000 <= speed * dt <= 0x7fff_fffe_8000_0001,
{
    assert(-0x8000_0000 * dt <= speed * dt <= 0x7fff_ffff * dt) by (nonlinear_arith)
        requires
            -0x8000_0000 <= speed <= 0x7fff_ffff,
            0 <= dt,
    ;
}

/// Where a coordinate `p` stands after moving at `speed` for `dt`:
/// `p + speed * dt`, saturated.
pub fn displace(p: i32, speed: i32, dt: u32) -> (r: i32)
    ensures
        r == clamp_i32(p + speed * dt),
{
    proof {
        lemma_travel_bounds(speed, dt);
    }
    let travel: i64 = (speed as i64) * (dt as i64);
    saturate(p as i64 + travel)
}

/// Moving for `a` and then for `b` at one speed ends where moving for
/// `a + b` ends, saturation included.
pub proof fn lemma_displacement_adds(p: i32, speed: i32, a: u32, b: u32)
    requires
        a + b <= u32::MAX,
    ensures
        clamp_i32(clamp_i32(p + speed * a) + speed * b) == clamp_i32(
            p + speed * ((a + b) as u32),
        ),
{
    assert(speed * (a + b) == speed * a + speed * b) by (nonlinear_arith);
    if speed >= 0 {
        assert(speed * a >= 0 && speed * b >= 0) by (nonlinear_arith)
            requires
                speed >= 0,
                a >= 0,
                b >= 0,
        ;
    } else {
        assert(speed * a <= 0 && speed * b <= 0) by (nonlinear_arith)
            requires
                speed < 0,
                a >= 0,
                b >= 0,
        ;
    }
}

/// An axis-aligned rectangle, given by its corner of least coordinates
/// and its extents.
#[derive(Clone, Copy, Debug, PartialEq, Eq)]
pub struct Rect {
    pub x: i64,
    pub y: i64,
    pub w: i64,
    pub h: i64,
}

/// Whether the open intervals `(a_low, a_high)` and `(b_low, b_high)`
/// reach into each other. Intervals that merely touch do not.
pub open spec fn spans_meet(a_low: int, a_high: int, b_low: int, b_high: int) -> bool {
    a_low < b_high && b_low < a_high
}

impl Rect {
    /// The least horizontal coordinate of the rectangle.
    pub open spec fn left(self) -> int {
        self.x as int
    }

    /// The horizontal coordinate at which the rectangle ends.
    pub open spec fn right(self) -> int {
        self.x + self.w
    }

    /// The least vertical coordinate of the rectangle. Heights grow
    /// downward, so this is its upper edge on screen.
    pub open spec fn top(self) -> int {
        self.y as int
    }

    /// The vertical coordinate at which the rectangle ends.
    pub open spec fn bottom(self) -> int {
        self.y + self.h
    }

    /// Two rectangles intersect when their spans meet on both axes.
    pub open spec fn intersects(self, other: Rect) -> bool {
        &&& spans_meet(self.left(), self.right(), other.left(), other.right())
        &&& spans_meet(self.top(), self.bottom(), other.top(), other.bottom())
    }

    /// Whether the point `(px / 2, py / 2)`, given in half units, lies
    /// strictly inside the rectangle.
    pub open spec fn holds_half_point(self, px: int, py: int) -> bool {
        &&& 2 * self.left() < px < 2 * self.right()
        &&& 2 * self.top() < py < 2 * self.bottom()
    }

    /// Exclusive intersection test: rectangles that share only an edge or
    /// a corner do not overlap.
    pub fn overlaps(&self, other: &Rect) -> (r: bool)
        ensures
            r == self.intersects(*other),
    {
        let a_right: i128 = self.x as i128 + self.w as i128;
        let a_bottom: i128 = self.y as i128 + self.h as i128;
        let b_right: i128 = other.x as i128 + other.w as i128;
        let b_bottom: i128 = other.y as i128 + other.h as i128;
        (self.x as i128) < b_right && (other.x as i128) < a_right && (self.y as i128) < b_bottom
            && (other.y as i128) < a_bottom
    }
}

/// Overlap does not depend on which rectangle is asked.
pub proof fn lemma_intersects_symmetric(a: Rect, b: Rect)
    ensures
        a.intersects(b) == b.intersects(a),
{
}

/// Rectangles that are apart on either axis, or only touch there, do not
/// intersect.
pub proof fn lemma_separated_never_intersect(a: Rect, b: Rect)
    requires
        a.right() <= b.left() || b.right() <= a.left() || a.bottom() <= b.top() || b.bottom()
            <= a.top(),
    ensures
        !a.intersects(b),
{
}

/// Two rectangles of positive extent intersect exactly when some point of
/// the half-unit lattice lies strictly inside both.
pub proof fn lemma_intersects_iff_common_point(a: Rect, b: Rect)
    requires
        a.w > 0,
        a.h > 0,
        b.w > 0,
        b.h > 0,
    ensures
        a.intersects(b) <==> exists|px: int, py: int|
            a.holds_half_point(px, py) && b.holds_half_point(px, py),
{
    if a.intersects(b) {
        let low_x = if a.left() > b.left() { a.left() } else { b.left() };
        let high_x = if a.right() < b.right() { a.right() } else { b.right() };
        let low_y = if a.top() > b.top() { a.top() } else { b.top() };
        let high_y = if a.bottom() < b.bottom() { a.bottom() } else { b.bottom() };
        assert(a.holds_half_point(low_x + high_x, low_y + high_y));
        assert(b.holds_half_point(low_x + high_x, low_y + high_y));
    }
}

} // verus!
