//! Where a pixel was in the previous frame, and how far that is to be
//! trusted.

use vstd::prelude::*;

use crate::camera::{clamped, Camera, Offset, ScreenPos};
use crate::fixed::{least, lesser, product, times, ONE};
use crate::surface::{
    agreement_of_depths, cosine, cosine_between, depth_agreement, depth_gap, gap_between,
    normal_agreement, Surface,
};

verus! {

/// Coordinate that marks a pixel without a place in the previous frame.
pub const NO_REPROJECTION: u32 = 0xffff_ffff;

/// One entry of the reprojection map.
#[derive(Clone, Copy, Debug, PartialEq, Eq, Structural)]
pub struct Reprojection {
    /// The pixel's place in the previous frame.
    pub prev_x: u32,
    pub prev_y: u32,
    /// How well the surface seen there agrees with the one seen now, from
    /// zero to one.
    pub confidence: u64,
}

/// The entry of a pixel without a place in the previous frame.
pub open spec fn no_reprojection() -> Reprojection {
    Reprojection { prev_x: NO_REPROJECTION, prev_y: NO_REPROJECTION, confidence: 0 }
}

/// The confidence in a reprojection to `prev`: the product of the agreement
/// of the normals and the agreement of the depths, neither counted as more
/// than one, or zero where `prev` lies outside the viewport.
pub open spec fn confidence_of(
    camera: Camera,
    prev: Offset,
    normal_agreement: u64,
    depth_agreement: u64,
) -> int {
    if 0 <= prev.x < camera.viewport_size.x && 0 <= prev.y < camera.viewport_size.y {
        product(
            least(normal_agreement as int, ONE as int),
            least(depth_agreement as int, ONE as int),
        )
    } else {
        0
    }
}

/// The entry for a pixel that was at `prev` in the previous frame. A pixel
/// in which no confidence is left has no place there.
pub open spec fn reprojected(
    camera: Camera,
    prev: Offset,
    normal_agreement: u64,
    depth_agreement: u64,
) -> Reprojection {
    let confidence = confidence_of(camera, prev, normal_agreement, depth_agreement);
    if confidence == 0 {
        no_reprojection()
    } else {
        Reprojection { prev_x: prev.x as u32, prev_y: prev.y as u32, confidence: confidence as u64 }
    }
}

impl Reprojection {
    /// Whether the pixel has a place in the previous frame.
    pub open spec fn valid(self) -> bool {
        self.prev_x != NO_REPROJECTION || self.prev_y != NO_REPROJECTION
    }

    /// The entry of a pixel without a place in the previous frame.
    pub fn none() -> (entry: Reprojection)
        ensures
            entry == no_reprojection(),
            !entry.valid(),
    {
        Reprojection { prev_x: NO_REPROJECTION, prev_y: NO_REPROJECTION, confidence: 0 }
    }

    /// Builds the entry of a pixel that was at `prev` in the previous
    /// frame, given how well the normals and the depths seen there and
    /// now agree.
    pub fn new(camera: &Camera, prev: Offset, normal_agreement: u64, depth_agreement: u64) -> (entry:
        Reprojection)
        ensures
            entry == reprojected(*camera, prev, normal_agreement, depth_agreement),
            entry.confidence <= ONE,
            entry.valid() <==> confidence_of(*camera, prev, normal_agreement, depth_agreement) > 0,
            entry.valid() ==> camera.holds(entry.prev_screen_pos_value()),
    {
        if prev.x < 0 || prev.y < 0 || prev.x >= camera.viewport_size.x as i64 || prev.y
            >= camera.viewport_size.y as i64 {
            return Reprojection::none();
        }
        let x: u32 = prev.x as u32;
        let y: u32 = prev.y as u32;
        let normals = lesser(normal_agreement, ONE);
        let depths = lesser(depth_agreement, ONE);
        proof {
            crate::fixed::product_of_fractions(normals as int, depths as int);
        }
        let confidence = times(normals, depths);
        if confidence == 0 {
            return Reprojection::none();
        }
        Reprojection { prev_x: x, prev_y: y, confidence }
    }

    /// Builds the entry of a pixel that was at `prev` in the previous
    /// frame from the surface seen through it now and the surface seen at
    /// `prev` then: the confidence is the agreement of their normals times
    /// the agreement of their depths, the difference in depth being
    /// measured against the depth seen now.
    pub fn between(camera: &Camera, prev: Offset, current: &Surface, previous: &Surface) -> (entry:
        Reprojection)
        ensures
            entry == reprojected(
                *camera,
                prev,
                normal_agreement(cosine_between(current.normal, previous.normal)) as u64,
                depth_agreement(depth_gap(current.depth as int, previous.depth as int)) as u64,
            ),
            entry.confidence <= ONE,
    {
        let facing = cosine(current.normal, previous.normal);
        let normals = times(facing, facing);
        let depths = agreement_of_depths(gap_between(current.depth, previous.depth));
        Reprojection::new(camera, prev, normals, depths)
    }

    /// The pixel's place in the previous frame.
    pub open spec fn prev_screen_pos_value(self) -> ScreenPos {
        ScreenPos { x: self.prev_x, y: self.prev_y }
    }

    /// Whether the pixel has a place in the previous frame.
    pub fn is_valid(&self) -> (valid: bool)
        ensures
            valid == self.valid(),
    {
        self.prev_x != NO_REPROJECTION || self.prev_y != NO_REPROJECTION
    }

    /// Whether the pixel has a place in the previous frame.
    pub fn is_some(&self) -> (valid: bool)
        ensures
            valid == self.valid(),
    {
        self.is_valid()
    }

    /// Whether the pixel has no place in the previous frame.
    pub fn is_none(&self) -> (invalid: bool)
        ensures
            invalid == !self.valid(),
    {
        !self.is_valid()
    }

    /// The pixel's place in the previous frame.
    pub fn prev_screen_pos(&self) -> (pos: ScreenPos)
        ensures
            pos == self.prev_screen_pos_value(),
    {
        ScreenPos { x: self.prev_x, y: self.prev_y }
    }
}

/// The entry of the pixel with index `index`, which was at
/// `prev_positions[index]` in the previous frame. The surface seen then is
/// that of the pixel nearest to that position.
pub open spec fn entry_of(
    camera: Camera,
    prev_positions: Seq<Offset>,
    surfaces: Seq<Surface>,
    past_surfaces: Seq<Surface>,
    index: int,
) -> Reprojection {
    let prev = prev_positions[index];
    let seen_then = past_surfaces[clamped(prev.y as int, camera.viewport_size.y as int)
        * camera.viewport_size.x + clamped(prev.x as int, camera.viewport_size.x as int)];
    reprojected(
        camera,
        prev,
        normal_agreement(cosine_between(surfaces[index].normal, seen_then.normal)) as u64,
        depth_agreement(depth_gap(surfaces[index].depth as int, seen_then.depth as int)) as u64,
    )
}

/// Builds the reprojection map of a frame. `prev_positions` tells where
/// every pixel was in the previous frame, `surfaces` and `past_surfaces`
/// what is seen through every pixel now and what was seen then; all hold
/// the viewport row by row.
pub fn build_map(
    camera: &Camera,
    prev_positions: &[Offset],
    surfaces: &[Surface],
    past_surfaces: &[Surface],
) -> (map: Vec<Reprojection>)
    requires
        camera.is_valid(),
        prev_positions@.len() == camera.viewport_size.x * camera.viewport_size.y,
        surfaces@.len() == camera.viewport_size.x * camera.viewport_size.y,
        past_surfaces@.len() == camera.viewport_size.x * camera.viewport_size.y,
    ensures
        map@.len() == prev_positions@.len(),
        forall|i: int|
            0 <= i < map@.len() ==> #[trigger] map@[i] == entry_of(
                *camera,
                prev_positions@,
                surfaces@,
                past_surfaces@,
                i,
            ),
{
    let mut map: Vec<Reprojection> = Vec::new();
    let mut index: usize = 0;
    while index < prev_positions.len()
        invariant
            camera.is_valid(),
            prev_positions@.len() == camera.viewport_size.x * camera.viewport_size.y,
            surfaces@.len() == prev_positions@.len(),
            past_surfaces@.len() == prev_positions@.len(),
            index <= prev_positions@.len(),
            map@.len() == index,
            forall|i: int|
                0 <= i < index ==> #[trigger] map@[i] == entry_of(
                    *camera,
                    prev_positions@,
                    surfaces@,
                    past_surfaces@,
                    i,
                ),
        decreases prev_positions@.len() - index,
    {
        let prev = prev_positions[index];
        let seen_then = &past_surfaces[camera.screen_to_idx(camera.contain(prev))];
        map.push(Reprojection::between(camera, prev, &surfaces[index], seen_then));
        index += 1;
    }
    map
}

/// The reprojection map is a function of the camera and of what is seen:
/// two maps built from the same viewport, the same positions and the same
/// surfaces are the same map, entry by entry.
pub proof fn reprojection_is_determined(
    camera: Camera,
    prev_positions: Seq<Offset>,
    surfaces: Seq<Surface>,
    past_surfaces: Seq<Surface>,
    first: Seq<Reprojection>,
    second: Seq<Reprojection>,
)
    requires
        first.len() == prev_positions.len(),
        second.len() == prev_positions.len(),
        forall|i: int|
            0 <= i < first.len() ==> #[trigger] first[i] == entry_of(
                camera,
                prev_positions,
                surfaces,
                past_surfaces,
                i,
            ),
        forall|i: int|
            0 <= i < second.len() ==> #[trigger] second[i] == entry_of(
                camera,
                prev_positions,
                surfaces,
                past_surfaces,
                i,
            ),
    ensures
        first == second,
{
    assert(first =~= second);
}

} // verus!
