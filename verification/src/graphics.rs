//! Screen geometry: integer points, vectors, sizes, axis-aligned rectangles
//! and RGB colors.
//!
//! Rectangles keep their top-left corner and size separately; a rectangle is
//! well formed when its far corner still fits in the signed coordinate range,
//! which is what every coordinate computation below relies on.

use vstd::prelude::*;

verus! {

pub type ICoordinate = i32;
pub type UCoordinate = u32;

/// Clamping of a coordinate into an inclusive range.
pub open spec fn spec_clamp(v: int, lo: int, hi: int) -> int {
    if v < lo {
        lo
    } else if v > hi {
        hi
    } else {
        v
    }
}

#[derive(Copy, Clone, PartialEq, Eq, Hash, Debug, Structural)]
pub struct Point {
    pub x: ICoordinate,
    pub y: ICoordinate,
}

impl Point {
    pub fn zero() -> (p: Point)
        ensures
            p.x == 0,
            p.y == 0,
    {
        Self::new(0, 0)
    }

    pub fn new(x: ICoordinate, y: ICoordinate) -> (p: Point)
        ensures
            p.x == x,
            p.y == y,
    {
        Self { x, y }
    }

    /// Clamps both coordinates into the rectangle's horizontal extent.
    #[must_use]
    pub fn clamped(&self, r: Rectangle) -> (p: Point)
        requires
            r.wf(),
        ensures
            p.x == spec_clamp(self.x as int, r.spec_min_x(), r.spec_max_x()),
            p.y == spec_clamp(self.y as int, r.spec_min_x(), r.spec_max_x()),
    {
        let mut p = *self;
        p.x = clamp_coordinate(p.x, r.min_x(), r.max_x());
        p.y = clamp_coordinate(p.y, r.min_x(), r.max_x());
        p
    }
}

fn clamp_coordinate(v: ICoordinate, lo: ICoordinate, hi: ICoordinate) -> (r: ICoordinate)
    requires
        lo <= hi,
    ensures
        r == spec_clamp(v as int, lo as int, hi as int),
{
    if v < lo {
        lo
    } else if v > hi {
        hi
    } else {
        v
    }
}

#[derive(Copy, Clone, PartialEq, Eq, Hash, Debug, Structural)]
pub struct Vector2d {
    pub x: ICoordinate,
    pub y: ICoordinate,
}

impl Vector2d {
    pub fn zero() -> (v: Vector2d)
        ensures
            v.x == 0,
            v.y == 0,
    {
        Self::new(0, 0)
    }

    pub fn new(x: ICoordinate, y: ICoordinate) -> (v: Vector2d)
        ensures
            v.x == x,
            v.y == y,
    {
        Self { x, y }
    }
}

#[derive(Copy, Clone, PartialEq, Eq, Hash, Debug, Structural)]
pub struct Size {
    pub x: UCoordinate,
    pub y: UCoordinate,
}

impl Size {
    pub fn zero() -> (s: Size)
        ensures
            s.x == 0,
            s.y == 0,
    {
        Self::new(0, 0)
    }

    pub fn new(x: UCoordinate, y: UCoordinate) -> (s: Size)
        ensures
            s.x == x,
            s.y == y,
    {
        Self { x, y }
    }
}

#[derive(Copy, Clone, PartialEq, Eq, Hash, Debug, Structural)]
pub struct Rectangle {
    top_left: Point,
    size: Size,
}

impl Rectangle {
    pub closed spec fn spec_top_left(&self) -> Point {
        self.top_left
    }

    pub closed spec fn spec_size(&self) -> Size {
        self.size
    }

    pub open spec fn spec_min_x(&self) -> int {
        self.spec_top_left().x as int
    }

    pub open spec fn spec_min_y(&self) -> int {
        self.spec_top_left().y as int
    }

    pub open spec fn spec_max_x(&self) -> int {
        self.spec_top_left().x + self.spec_size().x
    }

    pub open spec fn spec_max_y(&self) -> int {
        self.spec_top_left().y + self.spec_size().y
    }

    /// The far corner still fits in the signed coordinate range.
    pub open spec fn wf(&self) -> bool {
        &&& self.spec_size().x <= i32::MAX
        &&& self.spec_size().y <= i32::MAX
        &&& self.spec_max_x() <= i32::MAX
        &&& self.spec_max_y() <= i32::MAX
    }

    pub open spec fn spec_contains(&self, p: Point) -> bool {
        &&& self.spec_min_x() <= p.x < self.spec_max_x()
        &&& self.spec_min_y() <= p.y < self.spec_max_y()
    }

    pub closed spec fn spec_empty() -> Rectangle {
        Rectangle { top_left: Point { x: 0, y: 0 }, size: Size { x: 0, y: 0 } }
    }

    pub fn empty() -> (r: Rectangle)
        ensures
            r == Self::spec_empty(),
            r.spec_min_x() == 0 && r.spec_min_y() == 0,
            r.spec_max_x() == 0 && r.spec_max_y() == 0,
            r.wf(),
    {
        Self { top_left: Point { x: 0, y: 0 }, size: Size { x: 0, y: 0 } }
    }

    pub fn new(top_left: Point, size: Size) -> (r: Rectangle)
        ensures
            r.spec_top_left() == top_left,
            r.spec_size() == size,
    {
        Self { top_left, size }
    }

    pub fn from_corner(top_left: Point, bottom_right: Point) -> (r: Rectangle)
        requires
            top_left.x <= bottom_right.x,
            top_left.y <= bottom_right.y,
            bottom_right.x - top_left.x <= i32::MAX,
            bottom_right.y - top_left.y <= i32::MAX,
        ensures
            r.spec_top_left() == top_left,
            r.spec_size().x == bottom_right.x - top_left.x,
            r.spec_size().y == bottom_right.y - top_left.y,
            r.wf(),
    {
        let w: ICoordinate = bottom_right.x - top_left.x;
        let h: ICoordinate = bottom_right.y - top_left.y;
        Self { top_left, size: Size::new(w as UCoordinate, h as UCoordinate) }
    }

    pub fn contains(&self, p: &Point) -> (r: bool)
        requires
            self.wf(),
        ensures
            r == self.spec_contains(*p),
    {
        self.min_x() <= p.x && p.x < self.max_x() && self.min_y() <= p.y && p.y < self.max_y()
    }

    pub fn min_x(&self) -> (r: ICoordinate)
        ensures
            r == self.spec_min_x(),
    {
        self.top_left.x
    }

    pub fn min_y(&self) -> (r: ICoordinate)
        ensures
            r == self.spec_min_y(),
    {
        self.top_left.y
    }

    pub fn max_x(&self) -> (r: ICoordinate)
        requires
            self.wf(),
        ensures
            r == self.spec_max_x(),
    {
        self.top_left.x + (self.size.x as ICoordinate)
    }

    pub fn max_y(&self) -> (r: ICoordinate)
        requires
            self.wf(),
        ensures
            r == self.spec_max_y(),
    {
        self.top_left.y + (self.size.y as ICoordinate)
    }

    pub fn top_left(&self) -> (p: Point)
        ensures
            p == self.spec_top_left(),
    {
        self.top_left
    }

    pub fn top_right(&self) -> (p: Point)
        requires
            self.wf(),
        ensures
            p.x == self.spec_max_x(),
            p.y == self.spec_min_y(),
    {
        Point::new(self.max_x(), self.min_y())
    }

    pub fn bottom_left(&self) -> (p: Point)
        requires
            self.wf(),
        ensures
            p.x == self.spec_min_x(),
            p.y == self.spec_max_y(),
    {
        Point::new(self.min_x(), self.max_y())
    }

    pub fn bottom_right(&self) -> (p: Point)
        requires
            self.wf(),
        ensures
            p.x == self.spec_max_x(),
            p.y == self.spec_max_y(),
    {
        Point::new(self.max_x(), self.max_y())
    }

    pub fn width(&self) -> (r: UCoordinate)
        ensures
            r == self.spec_size().x,
    {
        self.size.x
    }

    pub fn height(&self) -> (r: UCoordinate)
        ensures
            r == self.spec_size().y,
    {
        self.size.y
    }

    /// The x coordinates covered by the rectangle, in increasing order.
    pub fn xs(&self) -> (r: Vec<ICoordinate>)
        requires
            self.wf(),
        ensures
            r@.len() == self.spec_size().x,
            forall|i: int| 0 <= i < r@.len() ==> r@[i] == self.spec_min_x() + i,
    {
        let mut r: Vec<ICoordinate> = Vec::new();
        let mut x = self.min_x();
        let max = self.max_x();
        while x < max
            invariant
                self.wf(),
                max == self.spec_max_x(),
                self.spec_min_x() <= x <= max,
                r@.len() == x - self.spec_min_x(),
                forall|i: int| 0 <= i < r@.len() ==> r@[i] == self.spec_min_x() + i,
            decreases max - x,
        {
            r.push(x);
            x = x + 1;
        }
        r
    }

    /// The y coordinates covered by the rectangle, in increasing order.
    pub fn ys(&self) -> (r: Vec<ICoordinate>)
        requires
            self.wf(),
        ensures
            r@.len() == self.spec_size().y,
            forall|i: int| 0 <= i < r@.len() ==> r@[i] == self.spec_min_y() + i,
    {
        let mut r: Vec<ICoordinate> = Vec::new();
        let mut y = self.min_y();
        let max = self.max_y();
        while y < max
            invariant
                self.wf(),
                max == self.spec_max_y(),
                self.spec_min_y() <= y <= max,
                r@.len() == y - self.spec_min_y(),
                forall|i: int| 0 <= i < r@.len() ==> r@[i] == self.spec_min_y() + i,
            decreases max - y,
        {
            r.push(y);
            y = y + 1;
        }
        r
    }

    /// All points of the rectangle in row-major order.
    pub fn points(&self) -> (r: Vec<Point>)
        requires
            self.wf(),
        ensures
            r@.len() == self.spec_size().x * self.spec_size().y,
            forall|i: int|
                0 <= i < r@.len() ==> #[trigger] r@[i] == (Point {
                    x: (self.spec_min_x() + i % (self.spec_size().x as int)) as i32,
                    y: (self.spec_min_y() + i / (self.spec_size().x as int)) as i32,
                }),
    {
        let ghost w = self.size.x as int;
        let ghost min_x = self.spec_min_x();
        let ghost min_y = self.spec_min_y();
        let mut r: Vec<Point> = Vec::new();
        let ys = self.ys();
        let xs = self.xs();
        let mut j: usize = 0;
        while j < ys.len()
            invariant
                self.wf(),
                w == self.spec_size().x as int,
                min_x == self.spec_min_x(),
                min_y == self.spec_min_y(),
                ys@.len() == self.spec_size().y,
                forall|i: int| 0 <= i < ys@.len() ==> ys@[i] == min_y + i,
                xs@.len() == self.spec_size().x,
                forall|i: int| 0 <= i < xs@.len() ==> xs@[i] == min_x + i,
                j <= ys@.len(),
                r@.len() == j * w,
                forall|i: int|
                    0 <= i < r@.len() ==> #[trigger] r@[i] == (Point {
                        x: (min_x + i % w) as i32,
                        y: (min_y + i / w) as i32,
                    }),
            decreases ys@.len() - j,
        {
            let y = ys[j];
            let mut k: usize = 0;
            while k < xs.len()
                invariant
                    self.wf(),
                    w == self.spec_size().x as int,
                    min_x == self.spec_min_x(),
                    min_y == self.spec_min_y(),
                    xs@.len() == self.spec_size().x,
                    forall|i: int| 0 <= i < xs@.len() ==> xs@[i] == min_x + i,
                    j < ys@.len(),
                    y == min_y + j,
                    k <= xs@.len(),
                    r@.len() == j * w + k,
                    forall|i: int|
                        0 <= i < r@.len() ==> #[trigger] r@[i] == (Point {
                            x: (min_x + i % w) as i32,
                            y: (min_y + i / w) as i32,
                        }),
                decreases xs@.len() - k,
            {
                let x = xs[k];
                proof {
                    let i = r@.len() as int;
                    assert(i == j * w + k);
                    assert(i % w == k && i / w == j) by (nonlinear_arith)
                        requires
                            i == j * w + k,
                            0 <= k < w,
                            0 <= j,
                    ;
                }
                r.push(Point { x, y });
                k = k + 1;
            }
            j = j + 1;
            proof {
                assert((j - 1) * w + w == j * w) by (nonlinear_arith);
            }
        }
        proof {
            assert(ys@.len() * w == self.spec_size().x * self.spec_size().y) by (nonlinear_arith)
                requires
                    ys@.len() == self.spec_size().y,
                    w == self.spec_size().x as int,
            ;
        }
        r
    }

    /// The largest rectangle contained in both, or the empty rectangle when
    /// the two do not meet.
    #[must_use]
    pub fn intersection(&self, other: &Self) -> (r: Self)
        requires
            self.wf(),
            other.wf(),
        ensures
            ({
                let lo_x = spec_max(self.spec_min_x(), other.spec_min_x());
                let hi_x = spec_min(self.spec_max_x(), other.spec_max_x());
                let lo_y = spec_max(self.spec_min_y(), other.spec_min_y());
                let hi_y = spec_min(self.spec_max_y(), other.spec_max_y());
                if lo_x <= hi_x && lo_y <= hi_y {
                    r.spec_min_x() == lo_x && r.spec_max_x() == hi_x && r.spec_min_y() == lo_y
                        && r.spec_max_y() == hi_y && r.wf()
                } else {
                    r == Self::spec_empty()
                }
            }),
    {
        let min_x = max_coordinate(self.min_x(), other.min_x());
        let max_x = min_coordinate(self.max_x(), other.max_x());
        let min_y = max_coordinate(self.min_y(), other.min_y());
        let max_y = min_coordinate(self.max_y(), other.max_y());
        if min_x <= max_x && min_y <= max_y {
            Self::new(
                Point::new(min_x, min_y),
                Size::new((max_x - min_x) as UCoordinate, (max_y - min_y) as UCoordinate),
            )
        } else {
            Self::empty()
        }
    }

    /// The smallest rectangle containing both.
    #[must_use]
    pub fn union(&self, other: &Self) -> (r: Self)
        requires
            self.wf(),
            other.wf(),
            spec_max(self.spec_max_x(), other.spec_max_x()) - spec_min(
                self.spec_min_x(),
                other.spec_min_x(),
            ) <= i32::MAX,
            spec_max(self.spec_max_y(), other.spec_max_y()) - spec_min(
                self.spec_min_y(),
                other.spec_min_y(),
            ) <= i32::MAX,
        ensures
            r.spec_min_x() == spec_min(self.spec_min_x(), other.spec_min_x()),
            r.spec_max_x() == spec_max(self.spec_max_x(), other.spec_max_x()),
            r.spec_min_y() == spec_min(self.spec_min_y(), other.spec_min_y()),
            r.spec_max_y() == spec_max(self.spec_max_y(), other.spec_max_y()),
            r.wf(),
    {
        let min_x = min_coordinate(self.min_x(), other.min_x());
        let max_x = max_coordinate(self.max_x(), other.max_x());
        let min_y = min_coordinate(self.min_y(), other.min_y());
        let max_y = max_coordinate(self.max_y(), other.max_y());
        Self::new(
            Point::new(min_x, min_y),
            Size::new((max_x - min_x) as UCoordinate, (max_y - min_y) as UCoordinate),
        )
    }
}

pub open spec fn spec_min(a: int, b: int) -> int {
    if a < b {
        a
    } else {
        b
    }
}

pub open spec fn spec_max(a: int, b: int) -> int {
    if a > b {
        a
    } else {
        b
    }
}

fn min_coordinate(a: ICoordinate, b: ICoordinate) -> (r: ICoordinate)
    ensures
        r == spec_min(a as int, b as int),
{
    if a < b {
        a
    } else {
        b
    }
}

fn max_coordinate(a: ICoordinate, b: ICoordinate) -> (r: ICoordinate)
    ensures
        r == spec_max(a as int, b as int),
{
    if a > b {
        a
    } else {
        b
    }
}

#[derive(Copy, Clone, PartialEq, Eq, Hash, Debug, Structural)]
pub struct Color {
    pub r: u8,
    pub g: u8,
    pub b: u8,
}

impl Color {
    pub fn new(r: u8, g: u8, b: u8) -> (c: Color)
        ensures
            c.r == r,
            c.g == g,
            c.b == b,
    {
        Self { r, g, b }
    }

    pub fn gray_scale(v: u8) -> (c: Color)
        ensures
            c.r == v,
            c.g == v,
            c.b == v,
    {
        Self::new(v, v, v)
    }

    /// Decodes a `0xRRGGBB` color code.
    pub fn from_code(v: u32) -> (c: Color)
        ensures
            c.r == (v >> 16) as u8,
            c.g == (v >> 8) as u8,
            c.b == v as u8,
    {
        Self::new((v >> 16) as u8, (v >> 8) as u8, v as u8)
    }
}

} // verus!
