//! The small decisions of the reference path tracer and of the pass that
//! shades rasterised hits.

use vstd::prelude::*;

use crate::bvh::{Lanes, TriangleId};

verus! {

/// Where a pixel's ray of the reference path tracer comes from.
#[derive(Clone, Copy, Debug, PartialEq, Eq, Structural)]
pub enum RaySource {
    /// From the camera: the path starts.
    Camera,
    /// From the buffer of rays: the path goes on.
    Stored,
    /// From nowhere: the path has ended.
    Ended,
}

/// Where the ray of a pixel comes from at bounce number `depth`, given the
/// record that holds the direction of the ray stored for it. A path whose
/// stored direction is all zero has ended.
pub open spec fn ray_source_of(depth: u32, stored_direction: Lanes) -> RaySource {
    if depth == 0 {
        RaySource::Camera
    } else if stored_direction == (Lanes { x: 0, y: 0, z: 0, w: 0 }) {
        RaySource::Ended
    } else {
        RaySource::Stored
    }
}

/// The triangle that a pixel of the hit buffer shows: the buffer holds
/// zero where nothing was hit, and the triangle's number plus one
/// elsewhere.
pub open spec fn triangle_of(hit: u32) -> Option<TriangleId> {
    if hit == 0 {
        None
    } else {
        Some(TriangleId { id: (hit - 1) as u32 })
    }
}

/// Tells where the ray of a pixel comes from at bounce number `depth`.
pub fn ray_source(depth: u32, stored_direction: Lanes) -> (source: RaySource)
    ensures
        source == ray_source_of(depth, stored_direction),
{
    if depth == 0 {
        RaySource::Camera
    } else if stored_direction.x == 0 && stored_direction.y == 0 && stored_direction.z == 0
        && stored_direction.w == 0 {
        RaySource::Ended
    } else {
        RaySource::Stored
    }
}

/// Tells which triangle a pixel of the hit buffer shows; a pixel that
/// shows none is given the clear colour.
pub fn hit_triangle(hit: u32) -> (triangle: Option<TriangleId>)
    ensures
        triangle == triangle_of(hit),
{
    if hit == 0 {
        None
    } else {
        Some(TriangleId::new(hit - 1))
    }
}

} // verus!
