use strolle::bvh::{Lanes, TriangleId};
use strolle::reference::{hit_triangle, ray_source, RaySource};

const ZERO: Lanes = Lanes { x: 0, y: 0, z: 0, w: 0 };

#[test]
fn first_ray_comes_from_the_camera() {
    assert_eq!(ray_source(0, ZERO), RaySource::Camera);
    assert_eq!(ray_source(0, Lanes { x: 1, y: 2, z: 3, w: 4 }), RaySource::Camera);
}

#[test]
fn later_rays_come_from_the_buffer() {
    assert_eq!(ray_source(1, Lanes { x: 1, y: 0, z: 0, w: 0 }), RaySource::Stored);
    assert_eq!(ray_source(5, Lanes { x: 0, y: 0, z: 0, w: 1 }), RaySource::Stored);
}

#[test]
fn path_without_a_direction_has_ended() {
    assert_eq!(ray_source(1, ZERO), RaySource::Ended);
    assert_eq!(ray_source(u32::MAX, ZERO), RaySource::Ended);
}

#[test]
fn hit_buffer_counts_triangles_from_one() {
    assert_eq!(hit_triangle(0), None);
    assert_eq!(hit_triangle(1), Some(TriangleId::new(0)));
    assert_eq!(hit_triangle(u32::MAX), Some(TriangleId::new(u32::MAX - 1)));
}
