//! The play field and the patrol paths across it.
//!
//! A patrol path enters from off the field, visits a fixed number of
//! waypoints on the field, and leaves the field again.

use crate::geometry::Point;
use crate::random::draw;
use rand::rngs::StdRng;
use vstd::prelude::*;

verus! {

/// The number of waypoints of a patrol path that lie on the field.
pub const WAYPOINTS: usize = 7;

/// The play field: the visible rectangle, ends included, and the width of
/// the band around it in which bugs enter and leave.
#[derive(Clone, Copy, Debug, PartialEq, Eq, Structural)]
pub struct Field {
    pub min_x: i32,
    pub max_x: i32,
    pub min_y: i32,
    pub max_y: i32,
    pub band: u32,
}

impl Field {
    /// The rectangle is not empty, the band is at least one unit wide, and
    /// the band around the rectangle can be written in coordinates.
    pub open spec fn wf(self) -> bool {
        &&& self.min_x <= self.max_x
        &&& self.min_y <= self.max_y
        &&& self.band >= 1
        &&& self.min_x - self.band >= i32::MIN
        &&& self.max_x + self.band <= i32::MAX
        &&& self.min_y - self.band >= i32::MIN
        &&& self.max_y + self.band <= i32::MAX
    }

    /// The point lies on the visible rectangle.
    pub open spec fn on_field(self, p: Point) -> bool {
        self.min_x <= p.x <= self.max_x && self.min_y <= p.y <= self.max_y
    }

    /// The point lies in the band, outside the visible rectangle on both
    /// axes.
    pub open spec fn off_field(self, p: Point) -> bool {
        &&& (self.min_x - self.band <= p.x < self.min_x || self.max_x < p.x <= self.max_x
            + self.band)
        &&& (self.min_y - self.band <= p.y < self.min_y || self.max_y < p.y <= self.max_y
            + self.band)
    }

    /// The point that lies `dx` and `dy` inside the rectangle, counted from
    /// its lower corner.
    pub open spec fn inner(self, dx: u64, dy: u64) -> Point {
        Point { x: (self.min_x + dx) as i32, y: (self.min_y + dy) as i32 }
    }

    /// The point that lies `dx` and `dy` outside the rectangle: beyond the
    /// upper end of an axis if that axis is `far`, else before its lower
    /// end.
    pub open spec fn outer(self, far_x: bool, far_y: bool, dx: u64, dy: u64) -> Point {
        Point {
            x: (if far_x {
                self.max_x + dx
            } else {
                self.min_x - dx
            }) as i32,
            y: (if far_y {
                self.max_y + dy
            } else {
                self.min_y - dy
            }) as i32,
        }
    }

    /// The points are a patrol path across this field: the first and the
    /// last lie off the field, and `WAYPOINTS` points between them on it.
    pub open spec fn is_patrol(self, points: Seq<Point>) -> bool {
        &&& points.len() == WAYPOINTS + 2
        &&& self.off_field(points[0])
        &&& self.off_field(points[WAYPOINTS + 1])
        &&& forall|i: int| 1 <= i <= WAYPOINTS ==> self.on_field(#[trigger] points[i])
    }

    /// Builds the field, if the numbers describe one.
    pub fn new(min_x: i32, max_x: i32, min_y: i32, max_y: i32, band: u32) -> (field: Option<Field>)
        ensures
            field is Some <==> (Field { min_x, max_x, min_y, max_y, band }).wf(),
            field is Some ==> field->0 == (Field { min_x, max_x, min_y, max_y, band }),
    {
        let field = Field { min_x, max_x, min_y, max_y, band };
        if field.is_valid() {
            Some(field)
        } else {
            None
        }
    }

    /// Says whether the numbers describe a field.
    pub fn is_valid(&self) -> (valid: bool)
        ensures
            valid == self.wf(),
    {
        let band = self.band as i64;
        let lowest = i32::MIN as i64;
        let highest = i32::MAX as i64;
        self.min_x <= self.max_x && self.min_y <= self.max_y && self.band >= 1
            && self.min_x as i64 - band >= lowest && self.max_x as i64 + band <= highest
            && self.min_y as i64 - band >= lowest && self.max_y as i64 + band <= highest
    }

    /// The width of the rectangle.
    pub fn width(&self) -> (w: u64)
        requires
            self.wf(),
        ensures
            w == self.max_x - self.min_x,
    {
        (self.max_x as i64 - self.min_x as i64) as u64
    }

    /// The height of the rectangle.
    pub fn height(&self) -> (h: u64)
        requires
            self.wf(),
        ensures
            h == self.max_y - self.min_y,
    {
        (self.max_y as i64 - self.min_y as i64) as u64
    }

    /// The point that lies `dx` and `dy` inside the rectangle, counted from
    /// its lower corner.
    pub fn inner_point(&self, dx: u64, dy: u64) -> (p: Point)
        requires
            self.wf(),
            dx <= self.max_x - self.min_x,
            dy <= self.max_y - self.min_y,
        ensures
            p == self.inner(dx, dy),
            self.on_field(p),
    {
        Point {
            x: (self.min_x as i64 + dx as i64) as i32,
            y: (self.min_y as i64 + dy as i64) as i32,
        }
    }

    /// The point that lies `dx` and `dy` outside the rectangle, on the
    /// chosen side of each axis.
    pub fn outer_point(&self, far_x: bool, far_y: bool, dx: u64, dy: u64) -> (p: Point)
        requires
            self.wf(),
            1 <= dx <= self.band,
            1 <= dy <= self.band,
        ensures
            p == self.outer(far_x, far_y, dx, dy),
            self.off_field(p),
    {
        let x = if far_x {
            self.max_x as i64 + dx as i64
        } else {
            self.min_x as i64 - dx as i64
        };
        let y = if far_y {
            self.max_y as i64 + dy as i64
        } else {
            self.min_y as i64 - dy as i64
        };
        Point { x: x as i32, y: y as i32 }
    }

    /// Draws a point off the field: a side of each axis, and a distance
    /// from the rectangle within the band.
    fn draw_outer_point(&self, rng: &mut StdRng) -> (p: Point)
        requires
            self.wf(),
        ensures
            self.off_field(p),
    {
        let far_x = draw(rng, 0, 1) == 1;
        let far_y = draw(rng, 0, 1) == 1;
        let dx = draw(rng, 1, self.band as u64);
        let dy = draw(rng, 1, self.band as u64);
        self.outer_point(far_x, far_y, dx, dy)
    }

    /// Draws a point on the field.
    fn draw_inner_point(&self, rng: &mut StdRng) -> (p: Point)
        requires
            self.wf(),
        ensures
            self.on_field(p),
    {
        let dx = draw(rng, 0, self.width());
        let dy = draw(rng, 0, self.height());
        self.inner_point(dx, dy)
    }
}

/// Draws a patrol path across the field: a point of entry off the field,
/// `WAYPOINTS` waypoints on it, and a point of exit off it.
pub fn generate_points(rng: &mut StdRng, field: &Field) -> (points: Vec<Point>)
    requires
        field.wf(),
    ensures
        field.is_patrol(points@),
{
    let mut points: Vec<Point> = Vec::new();
    points.push(field.draw_outer_point(rng));
    let mut i: usize = 0;
    while i < WAYPOINTS
        invariant
            field.wf(),
            i <= WAYPOINTS,
            points@.len() == i + 1,
            field.off_field(points@[0]),
            forall|k: int| 1 <= k <= i ==> field.on_field(#[trigger] points@[k]),
        decreases WAYPOINTS - i,
    {
        points.push(field.draw_inner_point(rng));
        i += 1;
    }
    points.push(field.draw_outer_point(rng));
    points
}

} // verus!
