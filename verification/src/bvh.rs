//! The bounding volume hierarchy as the renderer holds it, and its layout
//! as a flat stream of four-lane records for the GPU.
//!
//! Coordinates are carried as the 32-bit words the GPU will read; nothing
//! here computes on them.

use vstd::prelude::*;

pub mod depth;
pub mod serialize;

verus! {

/// Record tag of an internal node.
pub const OP_INTERNAL: u32 = 0;

/// Record tag of a leaf entry.
pub const OP_LEAF: u32 = 1;

/// Identifies a triangle in the triangle table.
#[derive(Clone, Copy, Debug, PartialEq, Eq, Structural)]
pub struct TriangleId {
    pub id: u32,
}

/// Identifies a material in the material table.
#[derive(Clone, Copy, Debug, PartialEq, Eq, Structural)]
pub struct MaterialId {
    pub id: u32,
}

/// A point whose coordinates are words to be read by the GPU.
#[derive(Clone, Copy, Debug, PartialEq, Eq, Structural)]
pub struct Point {
    pub x: u32,
    pub y: u32,
    pub z: u32,
}

/// An axis-aligned box given by two corners.
#[derive(Clone, Copy, Debug, PartialEq, Eq, Structural)]
pub struct BoundingBox {
    pub min: Point,
    pub max: Point,
}

/// A triangle as the hierarchy's builder sees it.
#[derive(Clone, Copy, Debug, PartialEq, Eq, Structural)]
pub struct BvhTriangle {
    pub bb: BoundingBox,
    pub center: Point,
    pub triangle_id: TriangleId,
    pub material_id: MaterialId,
}

/// A node of the hierarchy. The right child of an internal node follows its
/// left child in the node table.
#[derive(Debug)]
pub enum BvhNode {
    Internal { bb: BoundingBox, left_node_id: u32 },
    Leaf { bb: BoundingBox, primitives: Vec<BvhTriangle> },
}

/// How a material treats its alpha channel.
#[derive(Clone, Copy, Debug, PartialEq, Eq, Structural)]
pub enum AlphaMode {
    Opaque,
    Blend,
}

/// What the layout needs to know of a material.
#[derive(Clone, Copy, Debug, PartialEq, Eq, Structural)]
pub struct Material {
    pub alpha_mode: AlphaMode,
}

/// One record of the stream: four 32-bit lanes.
#[derive(Clone, Copy, Debug, PartialEq, Eq, Structural)]
pub struct Lanes {
    pub x: u32,
    pub y: u32,
    pub z: u32,
    pub w: u32,
}

impl TriangleId {
    /// The id of triangle number `id`.
    pub fn new(id: u32) -> (r: Self)
        ensures
            r.id == id,
    {
        TriangleId { id }
    }

    /// The triangle's number.
    pub fn get(self) -> (id: u32)
        ensures
            id == self.id,
    {
        self.id
    }
}

impl MaterialId {
    /// The id of material number `id`.
    pub fn new(id: u32) -> (r: Self)
        ensures
            r.id == id,
    {
        MaterialId { id }
    }

    /// The material's number.
    pub fn get(self) -> (id: u32)
        ensures
            id == self.id,
    {
        self.id
    }
}

impl BvhNode {
    /// The box that encloses the node.
    pub open spec fn bounding_box(self) -> BoundingBox {
        match self {
            BvhNode::Internal { bb, .. } => bb,
            BvhNode::Leaf { bb, .. } => bb,
        }
    }

    /// The box that encloses the node.
    pub fn bounds(&self) -> (bb: BoundingBox)
        ensures
            bb == self.bounding_box(),
    {
        match self {
            BvhNode::Internal { bb, .. } => *bb,
            BvhNode::Leaf { bb, .. } => *bb,
        }
    }
}

/// The flag word of a leaf entry: bit 0 says that another triangle of the
/// same leaf follows, bit 1 that the triangle's material blends.
pub open spec fn leaf_flags(more_follow: bool, blends: bool) -> u32 {
    ((if more_follow {
        1int
    } else {
        0int
    }) + (if blends {
        2int
    } else {
        0int
    })) as u32
}

/// The record of one triangle of a leaf.
pub open spec fn leaf_entry(triangle: BvhTriangle, more_follow: bool, blends: bool) -> Lanes {
    Lanes {
        x: leaf_flags(more_follow, blends),
        y: triangle.triangle_id.id,
        z: triangle.material_id.id,
        w: OP_LEAF,
    }
}

/// The four records of an internal node: the corners of the left child's
/// box, then those of the right child's. The first record carries the tag,
/// the second the position of the right child; the left child follows
/// immediately.
pub open spec fn internal_entries(left: BoundingBox, right: BoundingBox, right_ptr: u32) -> Seq<
    Lanes,
> {
    seq![
        Lanes { x: left.min.x, y: left.min.y, z: left.min.z, w: OP_INTERNAL },
        Lanes { x: left.max.x, y: left.max.y, z: left.max.z, w: right_ptr },
        Lanes { x: right.min.x, y: right.min.y, z: right.min.z, w: 0 },
        Lanes { x: right.max.x, y: right.max.y, z: right.max.z, w: 0 },
    ]
}

/// Whether material `id` of `materials` blends.
pub open spec fn blends(materials: Seq<Material>, id: MaterialId) -> bool {
    materials[id.id as int].alpha_mode == AlphaMode::Blend
}

/// The records of a leaf with the given triangles.
pub open spec fn leaf_entries(materials: Seq<Material>, primitives: Seq<BvhTriangle>) -> Seq<
    Lanes,
> {
    Seq::new(
        primitives.len(),
        |k: int|
            leaf_entry(
                primitives[k],
                k + 1 < primitives.len(),
                blends(materials, primitives[k].material_id),
            ),
    )
}

/// Whether every one of the triangles names a material of the table.
pub open spec fn known(materials: Seq<Material>, primitives: Seq<BvhTriangle>) -> bool {
    forall|k: int|
        0 <= k < primitives.len() ==> (#[trigger] primitives[k]).material_id.id < materials.len()
}

/// The records of the subtree of `node_id`, laid out from position `base`
/// of the stream on: a node's own records, then its left subtree, then its
/// right subtree. `depth` is the number of levels that are followed; what
/// lies deeper is left out.
pub open spec fn stream(
    materials: Seq<Material>,
    nodes: Seq<BvhNode>,
    node_id: int,
    base: int,
    depth: nat,
) -> Seq<Lanes>
    decreases depth,
{
    if depth > 0 && 0 <= node_id < nodes.len() {
        match nodes[node_id] {
            BvhNode::Internal { left_node_id, .. } => {
                if left_node_id + 1 < nodes.len() {
                    let left = stream(
                        materials,
                        nodes,
                        left_node_id as int,
                        base + 4,
                        (depth - 1) as nat,
                    );
                    let right = stream(
                        materials,
                        nodes,
                        left_node_id + 1,
                        base + 4 + left.len(),
                        (depth - 1) as nat,
                    );
                    internal_entries(
                        nodes[left_node_id as int].bounding_box(),
                        nodes[left_node_id + 1].bounding_box(),
                        (base + 4 + left.len()) as u32,
                    ) + left + right
                } else {
                    Seq::empty()
                }
            },
            BvhNode::Leaf { primitives, .. } => leaf_entries(materials, primitives@),
        }
    } else {
        Seq::empty()
    }
}

} // verus!
