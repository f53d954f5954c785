//! Rectangles, positions and the centroid metric that orders anchor candidates.

use vstd::prelude::*;

verus! {

/// Coordinate units in one logical pixel.
pub const UNITS_PER_PIXEL: i32 = 1000;

/// A point on the desktop. The unit is that of the module that uses it.
#[derive(Clone, Copy, Debug, PartialEq, Eq, Structural)]
pub struct Position {
    pub x: i32,
    pub y: i32,
}

/// An axis-aligned rectangle: its top-left corner and its extent. The unit
/// is that of the module that uses it.
#[derive(Clone, Copy, Debug, PartialEq, Eq, Structural)]
pub struct Rect {
    pub x: i32,
    pub y: i32,
    pub width: i32,
    pub height: i32,
}

/// Twice the coordinate of the centre of an interval that starts at `start`
/// and is `extent` long. Doubling keeps the centre of an odd extent exact.
pub open spec fn doubled_center(start: int, extent: int) -> int {
    2 * start + extent
}

/// Four times the squared Euclidean distance between the centres of `a` and `b`.
///
/// It orders pairs of rectangles exactly as the squared distance of their
/// centroids does, and is an integer for every pair.
pub open spec fn centroid_distance(a: Rect, b: Rect) -> int {
    let dx = doubled_center(a.x as int, a.width as int) - doubled_center(b.x as int, b.width as int);
    let dy = doubled_center(a.y as int, a.height as int) - doubled_center(
        b.y as int,
        b.height as int,
    );
    dx * dx + dy * dy
}

/// The difference of two doubled centres along one axis.
fn doubled_center_gap(a_start: i32, a_extent: i32, b_start: i32, b_extent: i32) -> (gap: i64)
    ensures
        gap == doubled_center(a_start as int, a_extent as int) - doubled_center(
            b_start as int,
            b_extent as int,
        ),
        -0x4_0000_0000 <= gap <= 0x4_0000_0000,
{
    let a: i64 = 2 * (a_start as i64) + (a_extent as i64);
    let b: i64 = 2 * (b_start as i64) + (b_extent as i64);
    a - b
}

/// Computes [`centroid_distance`] without overflow for every pair of rectangles.
pub fn centroid_distance_of(a: &Rect, b: &Rect) -> (d: u128)
    ensures
        d == centroid_distance(*a, *b),
{
    let dx: i64 = doubled_center_gap(a.x, a.width, b.x, b.width);
    let dy: i64 = doubled_center_gap(a.y, a.height, b.y, b.height);
    let wx: i128 = dx as i128;
    let wy: i128 = dy as i128;
    assert(0 <= wx * wx <= 0x10_0000_0000_0000_0000) by (nonlinear_arith)
        requires
            -0x4_0000_0000 <= wx <= 0x4_0000_0000,
    ;
    assert(0 <= wy * wy <= 0x10_0000_0000_0000_0000) by (nonlinear_arith)
        requires
            -0x4_0000_0000 <= wy <= 0x4_0000_0000,
    ;
    let sx: i128 = wx * wx;
    let sy: i128 = wy * wy;
    (sx + sy) as u128
}

} // verus!
