//! Plain geometric values carried by the selection proxy.
//!
//! Coordinates are integral milli-units. The proxy never computes with the
//! coordinates of a point beyond dropping the height component; projection
//! onto a curve is the pick surface's job and happens outside this crate.

use vstd::prelude::*;

verus! {

/// A point of the ground plane, in milli-units.
#[derive(Clone, Copy, PartialEq, Eq, Structural, Debug)]
pub struct Point2 {
    pub x: i64,
    pub y: i64,
}

/// A point of the scene, in milli-units.
#[derive(Clone, Copy, PartialEq, Eq, Structural, Debug)]
pub struct Point3 {
    pub x: i64,
    pub y: i64,
    pub z: i64,
}

impl Point3 {
    /// The ground-plane shadow of a scene point: the height is dropped.
    pub open spec fn into_2d_spec(self) -> Point2 {
        Point2 { x: self.x, y: self.y }
    }

    /// Drop a scene point onto the ground plane.
    pub fn into_2d(self) -> (r: Point2)
        ensures
            r == self.into_2d_spec(),
    {
        Point2 { x: self.x, y: self.y }
    }
}

/// An arc-length-parameterized curve, described by the polyline the pick
/// surface renders and its total arc length in milli-units.
///
/// The proxy's logic reads only the length; the points travel along so that
/// the hit-test band handed to the pick surface carries the full geometry.
/// Projection of a point onto the curve always yields an arc length within
/// `[0, length]` or nothing at all.
#[derive(PartialEq, Eq, Debug)]
pub struct Path {
    pub points: Vec<Point2>,
    pub length: u64,
}

impl Path {
    pub fn new(points: Vec<Point2>, length: u64) -> (r: Path)
        ensures
            r.points@ == points@,
            r.length == length,
    {
        Path { points, length }
    }
}

impl Clone for Path {
    fn clone(&self) -> (r: Self)
        ensures
            r.points@ == self.points@,
            r.length == self.length,
    {
        let points = self.points.clone();
        proof {
            assert(points@ =~= self.points@);
        }
        Path { points, length: self.length }
    }
}

/// A constant-radius band around a path: the hit-test volume under which the
/// pick surface makes a selectable stroke pickable.
#[derive(PartialEq, Eq, Debug)]
pub struct Band {
    pub path: Path,
    pub radius: u64,
}

} // verus!
