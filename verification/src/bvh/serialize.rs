//! Lays a node table out as the stream of records that the GPU traverses.

use vstd::prelude::*;

use crate::bvh::{
    internal_entries, known, leaf_entries, leaf_flags, stream, AlphaMode, BvhNode, BvhTriangle,
    Lanes, Material, OP_INTERNAL, OP_LEAF,
};

verus! {

/// Why a node table cannot be laid out.
#[derive(Clone, Copy, Debug, PartialEq, Eq, Structural)]
pub enum LayoutError {
    /// The table has no root.
    Empty,
    /// A node that is reached has a child that the table lacks, or the
    /// hierarchy goes deeper than the table has nodes.
    Malformed,
    /// A triangle that is reached names a material that the table of
    /// materials lacks.
    UnknownMaterial,
    /// The stream would reach past the positions a 32-bit word can hold.
    TooLong,
}

/// The last position a record of the stream can have.
pub const LAST_POSITION: u32 = 0xffff_ffff;

/// What laying out the subtree of `node_id` comes to when `depth` levels
/// may be followed and `room` records may be written: the number of
/// records that the subtree takes, or the first obstacle met on the way,
/// a node being looked at before its left subtree and that before its
/// right one. Nothing but what is reached from `node_id` counts.
pub open spec fn examined(
    materials: Seq<Material>,
    nodes: Seq<BvhNode>,
    node_id: int,
    depth: nat,
    room: int,
) -> Result<int, LayoutError>
    decreases depth,
{
    if depth == 0 || !(0 <= node_id < nodes.len()) {
        Err(LayoutError::Malformed)
    } else {
        match nodes[node_id] {
            BvhNode::Leaf { primitives, .. } => {
                if !known(materials, primitives@) {
                    Err(LayoutError::UnknownMaterial)
                } else if primitives@.len() > room {
                    Err(LayoutError::TooLong)
                } else {
                    Ok(primitives@.len() as int)
                }
            },
            BvhNode::Internal { left_node_id, .. } => {
                if left_node_id == u32::MAX || left_node_id + 1 >= nodes.len() {
                    Err(LayoutError::Malformed)
                } else if room < 4 {
                    Err(LayoutError::TooLong)
                } else {
                    match examined(
                        materials,
                        nodes,
                        left_node_id as int,
                        (depth - 1) as nat,
                        room - 4,
                    ) {
                        Err(obstacle) => Err(obstacle),
                        Ok(left) => match examined(
                            materials,
                            nodes,
                            left_node_id + 1,
                            (depth - 1) as nat,
                            room - 4 - left,
                        ) {
                            Err(obstacle) => Err(obstacle),
                            Ok(right) => Ok(4 + left + right),
                        },
                    }
                }
            },
        }
    }
}

/// What laying out the whole hierarchy, whose root is node 0, after `base`
/// records comes to. As many levels are followed as the table has nodes,
/// which is enough for every hierarchy that can be laid out at all (see
/// `depth::table_depth_is_enough`).
pub open spec fn verdict(materials: Seq<Material>, nodes: Seq<BvhNode>, base: int) -> Result<
    (),
    LayoutError,
> {
    if nodes.len() == 0 {
        Err(LayoutError::Empty)
    } else if base > LAST_POSITION {
        Err(LayoutError::TooLong)
    } else {
        match examined(materials, nodes, 0, nodes.len(), LAST_POSITION - base) {
            Ok(_) => Ok(()),
            Err(obstacle) => Err(obstacle),
        }
    }
}

/// A subtree that can be laid out takes as many records as its stream
/// has, wherever it is laid out, and no more than there is room for.
pub proof fn examined_counts_the_stream(
    materials: Seq<Material>,
    nodes: Seq<BvhNode>,
    node_id: int,
    depth: nat,
    room: int,
    base: int,
)
    requires
        examined(materials, nodes, node_id, depth, room) is Ok,
    ensures
        examined(materials, nodes, node_id, depth, room)->Ok_0 == stream(
            materials,
            nodes,
            node_id,
            base,
            depth,
        ).len(),
        0 <= examined(materials, nodes, node_id, depth, room)->Ok_0 <= room,
    decreases depth,
{
    match nodes[node_id] {
        BvhNode::Internal { left_node_id, .. } => {
            let below = (depth - 1) as nat;
            let left = examined(materials, nodes, left_node_id as int, below, room - 4);
            examined_counts_the_stream(
                materials,
                nodes,
                left_node_id as int,
                below,
                room - 4,
                base + 4,
            );
            examined_counts_the_stream(
                materials,
                nodes,
                left_node_id + 1,
                below,
                room - 4 - left->Ok_0,
                base + 4 + left->Ok_0,
            );
        },
        BvhNode::Leaf { .. } => {},
    }
}

/// Appends the stream of the whole hierarchy, whose root is node 0, to `out`.
/// Positions stored in the stream count from the start of `out`.
pub fn run(materials: &[Material], nodes: &[BvhNode], out: &mut Vec<Lanes>)
    requires
        verdict(materials@, nodes@, old(out)@.len() as int) is Ok,
    ensures
        final(out)@ == old(out)@ + stream(
            materials@,
            nodes@,
            0,
            old(out)@.len() as int,
            nodes@.len(),
        ),
{
    run_ex(materials, nodes, out, 0, Ghost(nodes@.len()));
}

/// The flag word of a leaf entry.
fn flags_of(got_more_triangles: bool, has_alpha_blending: bool) -> (flags: u32)
    ensures
        flags == leaf_flags(got_more_triangles, has_alpha_blending),
{
    let more: u32 = if got_more_triangles {
        1
    } else {
        0
    };
    let blend: u32 = if has_alpha_blending {
        1
    } else {
        0
    };
    assert((more | (blend << 1u32)) == more + 2 * blend) by (bit_vector)
        requires
            more <= 1,
            blend <= 1,
    ;
    more | (blend << 1u32)
}

/// Appends the records of a leaf's triangles to `out`.
fn push_leaf(materials: &[Material], primitives: &Vec<BvhTriangle>, out: &mut Vec<Lanes>)
    requires
        known(materials@, primitives@),
    ensures
        final(out)@ == old(out)@ + leaf_entries(materials@, primitives@),
{
    let ghost before = out@;
    let mut primitive_idx: usize = 0;
    while primitive_idx < primitives.len()
        invariant
            primitive_idx <= primitives@.len(),
            known(materials@, primitives@),
            out@ == before + leaf_entries(materials@, primitives@).take(primitive_idx as int),
        decreases primitives@.len() - primitive_idx,
    {
        let primitive = primitives[primitive_idx];
        let material = &materials[primitive.material_id.get() as usize];
        let got_more_triangles = primitive_idx + 1 < primitives.len();
        let has_alpha_blending = match material.alpha_mode {
            AlphaMode::Blend => true,
            AlphaMode::Opaque => false,
        };
        let flags = flags_of(got_more_triangles, has_alpha_blending);
        out.push(
            Lanes {
                x: flags,
                y: primitive.triangle_id.get(),
                z: primitive.material_id.get(),
                w: OP_LEAF,
            },
        );
        assert(leaf_entries(materials@, primitives@).take(primitive_idx + 1)
            == leaf_entries(materials@, primitives@).take(primitive_idx as int).push(
            leaf_entries(materials@, primitives@)[primitive_idx as int],
        ));
        primitive_idx += 1;
    }
    assert(leaf_entries(materials@, primitives@).take(primitive_idx as int) == leaf_entries(
        materials@,
        primitives@,
    ));
}

/// Appends the stream of the subtree of `node_id` to `out` and returns the
/// position at which it starts.
fn run_ex(
    materials: &[Material],
    nodes: &[BvhNode],
    out: &mut Vec<Lanes>,
    node_id: u32,
    Ghost(depth): Ghost<nat>,
) -> (ptr: u32)
    requires
        old(out)@.len() <= LAST_POSITION,
        examined(materials@, nodes@, node_id as int, depth, LAST_POSITION - old(out)@.len()) is Ok,
    ensures
        ptr == old(out)@.len(),
        final(out)@ == old(out)@ + stream(
            materials@,
            nodes@,
            node_id as int,
            old(out)@.len() as int,
            depth,
        ),
    decreases depth,
{
    let ptr = out.len();
    let ghost before = out@;
    let ghost room = LAST_POSITION - before.len();
    match &nodes[node_id as usize] {
        BvhNode::Internal { left_node_id, .. } => {
            let left_node_id = *left_node_id;
            let right_node_id = left_node_id + 1;
            let blank_record = Lanes { x: 0, y: 0, z: 0, w: 0 };
            out.push(blank_record);
            out.push(blank_record);
            out.push(blank_record);
            out.push(blank_record);

            let left_bb = nodes[left_node_id as usize].bounds();
            let right_bb = nodes[right_node_id as usize].bounds();

            let ghost below = (depth - 1) as nat;
            let ghost left = stream(materials@, nodes@, left_node_id as int, ptr + 4, below);
            let ghost right = stream(
                materials@,
                nodes@,
                right_node_id as int,
                ptr + 4 + left.len(),
                below,
            );
            proof {
                examined_counts_the_stream(
                    materials@,
                    nodes@,
                    left_node_id as int,
                    below,
                    room - 4,
                    ptr + 4,
                );
                examined_counts_the_stream(
                    materials@,
                    nodes@,
                    right_node_id as int,
                    below,
                    room - 4 - left.len(),
                    ptr + 4 + left.len(),
                );
            }

            let _left_ptr = run_ex(materials, nodes, out, left_node_id, Ghost(below));
            let right_ptr = run_ex(materials, nodes, out, right_node_id, Ghost(below));

            out.set(
                ptr,
                Lanes { x: left_bb.min.x, y: left_bb.min.y, z: left_bb.min.z, w: OP_INTERNAL },
            );
            out.set(
                ptr + 1,
                Lanes { x: left_bb.max.x, y: left_bb.max.y, z: left_bb.max.z, w: right_ptr },
            );
            out.set(
                ptr + 2,
                Lanes { x: right_bb.min.x, y: right_bb.min.y, z: right_bb.min.z, w: 0 },
            );
            out.set(
                ptr + 3,
                Lanes { x: right_bb.max.x, y: right_bb.max.y, z: right_bb.max.z, w: 0 },
            );
            assert(out@ =~= before + (internal_entries(left_bb, right_bb, right_ptr) + left
                + right));
        },
        BvhNode::Leaf { primitives, .. } => {
            push_leaf(materials, primitives, out);
        },
    }
    ptr as u32
}

/// Tells whether every one of the triangles names a material of the table.
fn knows(materials: &[Material], primitives: &Vec<BvhTriangle>) -> (ok: bool)
    ensures
        ok == known(materials@, primitives@),
{
    let mut k: usize = 0;
    while k < primitives.len()
        invariant
            k <= primitives@.len(),
            forall|l: int|
                0 <= l < k ==> (#[trigger] primitives@[l]).material_id.id < materials@.len(),
        decreases primitives@.len() - k,
    {
        if primitives[k].material_id.get() as usize >= materials.len() {
            return false;
        }
        k += 1;
    }
    true
}

/// Finds out what laying out the subtree of `node_id` comes to when
/// `depth` levels may be followed and `room` records may be written: the
/// number of records that the subtree takes, or the first obstacle.
pub fn examine(materials: &[Material], nodes: &[BvhNode], node_id: u32, depth: usize, room: u32)
    -> (found: Result<u32, LayoutError>)
    ensures
        match found {
            Ok(len) => examined(materials@, nodes@, node_id as int, depth as nat, room as int)
                == Ok::<int, LayoutError>(len as int) && len <= room,
            Err(obstacle) => examined(
                materials@,
                nodes@,
                node_id as int,
                depth as nat,
                room as int,
            ) == Err::<int, LayoutError>(obstacle),
        },
    decreases depth,
{
    if depth == 0 || node_id as usize >= nodes.len() {
        return Err(LayoutError::Malformed);
    }
    match &nodes[node_id as usize] {
        BvhNode::Leaf { primitives, .. } => {
            if !knows(materials, primitives) {
                Err(LayoutError::UnknownMaterial)
            } else if primitives.len() > room as usize {
                Err(LayoutError::TooLong)
            } else {
                Ok(primitives.len() as u32)
            }
        },
        BvhNode::Internal { left_node_id, .. } => {
            let left_node_id = *left_node_id;
            if left_node_id == u32::MAX || left_node_id as usize >= nodes.len() - 1 {
                return Err(LayoutError::Malformed);
            }
            if room < 4 {
                return Err(LayoutError::TooLong);
            }
            match examine(materials, nodes, left_node_id, depth - 1, room - 4) {
                Err(obstacle) => Err(obstacle),
                Ok(left) => match examine(
                    materials,
                    nodes,
                    left_node_id + 1,
                    depth - 1,
                    room - 4 - left,
                ) {
                    Err(obstacle) => Err(obstacle),
                    Ok(right) => Ok(4 + left + right),
                },
            }
        },
    }
}

/// Appends the stream of the whole hierarchy to `out` if it can be laid
/// out, and says why not otherwise, leaving `out` as it was.
pub fn try_run(materials: &[Material], nodes: &[BvhNode], out: &mut Vec<Lanes>) -> (done: Result<
    (),
    LayoutError,
>)
    ensures
        done == verdict(materials@, nodes@, old(out)@.len() as int),
        match done {
            Ok(()) => final(out)@ == old(out)@ + stream(
                materials@,
                nodes@,
                0,
                old(out)@.len() as int,
                nodes@.len(),
            ),
            Err(_) => final(out)@ == old(out)@,
        },
{
    if nodes.len() == 0 {
        return Err(LayoutError::Empty);
    }
    if out.len() > LAST_POSITION as usize {
        return Err(LayoutError::TooLong);
    }
    let room: u32 = LAST_POSITION - (out.len() as u32);
    match examine(materials, nodes, 0, nodes.len(), room) {
        Err(obstacle) => Err(obstacle),
        Ok(_) => {
            run(materials, nodes, out);
            Ok(())
        },
    }
}

} // verus!
