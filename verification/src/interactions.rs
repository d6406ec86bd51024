//! World-space geometry for pointer interaction: positions, the clickable
//! shapes attached to graph elements, and the point-in-shape tests used to
//! decide what a press or release landed on.
//!
//! Coordinates are integer world units. Every stored position and every
//! stored shape is kept inside fixed bounds, so the squared-distance
//! arithmetic below stays far away from `i64` overflow.

use vstd::prelude::*;

verus! {

/// Largest magnitude a node position may have.
pub const POS_LIMIT: i64 = 100_000_000;

/// Largest magnitude a slot anchor's offset from its node's centre may have;
/// also bounds node widths and heights.
pub const OFFSET_LIMIT: i64 = 20_000_000;

/// Largest magnitude a node's depth index may have.
pub const Z_LIMIT: i64 = 1_000_000_000_000;

/// Largest hit-test radius a configuration may ask for.
pub const THRESHOLD_LIMIT: i64 = 1_000_000;

/// The square of a value bounded by `b` is bounded by the square of `b`.
pub proof fn lemma_square_bound(v: int, b: int)
    requires
        -b <= v <= b,
        0 <= b,
    ensures
        v * v <= b * b,
        0 <= v * v,
{
    assert(v * v <= b * b && 0 <= v * v) by (nonlinear_arith)
        requires
            -b <= v <= b && 0 <= b,
    ;
}

/// A point or translation in integer world coordinates.
#[derive(Clone, Copy, PartialEq, Eq, Structural, Debug)]
pub struct Position {
    pub x: i64,
    pub y: i64,
}

impl Position {
    /// Whether this point lies within the coordinate range the editor
    /// works in (node positions plus slot offsets always do).
    pub open spec fn in_world(self) -> bool {
        &&& -POS_LIMIT - OFFSET_LIMIT <= self.x <= POS_LIMIT + OFFSET_LIMIT
        &&& -POS_LIMIT - OFFSET_LIMIT <= self.y <= POS_LIMIT + OFFSET_LIMIT
    }
}

/// Whether `click` lands in the axis-aligned box of width `w` and height `h`
/// centred on `pos`. Stated over doubled distances so that no midpoint
/// has to be rounded.
pub open spec fn spec_in_area(pos: Position, w: i64, h: i64, click: Position) -> bool {
    &&& -(w as int) <= 2 * (click.x - pos.x) <= w as int
    &&& -(h as int) <= 2 * (click.y - pos.y) <= h as int
}

/// Whether `click` lands in the disc of radius `radius` centred on the
/// point `(x, y)`.
pub open spec fn spec_in_radius_at(x: int, y: int, radius: int, click: Position) -> bool {
    (click.x - x) * (click.x - x) + (click.y - y) * (click.y - y) <= radius * radius
}

/// Whether `click` lands in the disc of radius `radius` centred on `pos`.
pub open spec fn spec_in_radius(pos: Position, radius: i64, click: Position) -> bool {
    spec_in_radius_at(pos.x as int, pos.y as int, radius as int, click)
}

/// The clickable shape of a graph element: a node body is a box around the
/// node's centre, a slot anchor is a disc around the anchor point.
#[derive(Clone, Copy, PartialEq, Eq, Structural, Debug)]
pub enum Clickable {
    Area(i64, i64),
    Radius(i64),
}

impl Clickable {
    /// Whether this shape, placed at `pos`, is within the shape bounds the
    /// editor maintains for every stored element.
    pub open spec fn in_world(self) -> bool {
        match self {
            Clickable::Area(w, h) => 0 <= w <= OFFSET_LIMIT && 0 <= h <= OFFSET_LIMIT,
            Clickable::Radius(r) => 0 <= r <= OFFSET_LIMIT,
        }
    }

    /// Whether `click` hits this shape placed at `pos`.
    pub open spec fn spec_clicked(self, pos: Position, click: Position) -> bool {
        match self {
            Clickable::Area(w, h) => spec_in_area(pos, w, h, click),
            Clickable::Radius(r) => spec_in_radius(pos, r, click),
        }
    }

    /// Run the hit test for this shape placed at `pos`.
    pub fn clicked(&self, pos: Position, click: Position) -> (r: bool)
        requires
            pos.in_world(),
            click.in_world(),
            self.in_world(),
        ensures
            r == self.spec_clicked(pos, click),
    {
        match self {
            Clickable::Area(w, h) => {
                let dx = click.x - pos.x;
                let dy = click.y - pos.y;
                -(*w) <= 2 * dx && 2 * dx <= *w && -(*h) <= 2 * dy && 2 * dy <= *h
            },
            Clickable::Radius(r) => {
                let dx = click.x - pos.x;
                let dy = click.y - pos.y;
                proof {
                    lemma_square_bound(dx as int, 2 * (POS_LIMIT + OFFSET_LIMIT) as int);
                    lemma_square_bound(dy as int, 2 * (POS_LIMIT + OFFSET_LIMIT) as int);
                    lemma_square_bound(*r as int, OFFSET_LIMIT as int);
                }
                dx * dx + dy * dy <= *r * *r
            },
        }
    }
}

} // verus!
