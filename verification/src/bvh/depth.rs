//! Why it is enough to follow as many levels as the table has nodes: a
//! hierarchy that can be laid out at all has no way down that is longer.

use vstd::prelude::*;

use crate::bvh::serialize::{examined, verdict, LayoutError, LAST_POSITION};
use crate::bvh::{known, BvhNode, Material};

verus! {

/// Whether `child` is one of the two children of node `parent`.
pub open spec fn is_child(nodes: Seq<BvhNode>, parent: int, child: int) -> bool {
    &&& 0 <= parent < nodes.len()
    &&& nodes[parent] matches BvhNode::Internal { left_node_id, .. }
    &&& left_node_id < u32::MAX
    &&& left_node_id + 1 < nodes.len()
    &&& (child == left_node_id || child == left_node_id + 1)
}

/// Whether `path` is a way down the hierarchy: it starts at a node of the
/// table, and each of its nodes but the first is a child of the one before.
pub open spec fn descends(nodes: Seq<BvhNode>, path: Seq<int>) -> bool {
    &&& path.len() >= 1
    &&& 0 <= path[0] < nodes.len()
    &&& forall|i: int| 0 <= i < path.len() - 1 ==> is_child(nodes, #[trigger] path[i], path[i + 1])
}

/// The way down that goes as `path` goes up to its node number `i` and
/// then `rounds` times round from there to node number `j`, which is the
/// same node.
pub open spec fn pumped(path: Seq<int>, i: int, j: int, rounds: nat) -> Seq<int>
    decreases rounds,
{
    if rounds == 0 {
        path.take(i + 1)
    } else {
        pumped(path, i, j, (rounds - 1) as nat) + path.subrange(i + 1, j + 1)
    }
}

/// Every node of a way down is a node of the table.
proof fn ways_down_stay_in_the_table(nodes: Seq<BvhNode>, path: Seq<int>, i: int)
    requires
        descends(nodes, path),
        0 <= i < path.len(),
    ensures
        0 <= path[i] < nodes.len(),
{
    if i > 0 {
        assert(is_child(nodes, path[i - 1], path[i - 1 + 1]));
    }
}

/// A way down from a node whose subtree can be laid out following `depth`
/// levels has `depth` nodes at most.
proof fn ways_down_are_bounded(
    materials: Seq<Material>,
    nodes: Seq<BvhNode>,
    node_id: int,
    depth: nat,
    room: int,
    path: Seq<int>,
)
    requires
        examined(materials, nodes, node_id, depth, room) is Ok,
        descends(nodes, path),
        path[0] == node_id,
    ensures
        path.len() <= depth,
    decreases depth,
{
    if path.len() > 1 {
        let rest = path.subrange(1, path.len() as int);
        assert(is_child(nodes, path[0], path[0int + 1]));
        assert(descends(nodes, rest)) by {
            assert forall|i: int| 0 <= i < rest.len() - 1 implies is_child(
                nodes,
                #[trigger] rest[i],
                rest[i + 1],
            ) by {
                assert(is_child(nodes, path[i + 1], path[i + 1 + 1]));
            }
        }
        match nodes[node_id] {
            BvhNode::Internal { left_node_id, .. } => {
                let below = (depth - 1) as nat;
                let left = examined(materials, nodes, left_node_id as int, below, room - 4);
                if path[1] == left_node_id {
                    ways_down_are_bounded(
                        materials,
                        nodes,
                        left_node_id as int,
                        below,
                        room - 4,
                        rest,
                    );
                } else {
                    ways_down_are_bounded(
                        materials,
                        nodes,
                        left_node_id + 1,
                        below,
                        room - 4 - left->Ok_0,
                        rest,
                    );
                }
            },
            BvhNode::Leaf { .. } => {},
        }
    }
}

/// Going round a circle once more gives a way down again, and a longer one.
proof fn pumping_gives_a_way_down(nodes: Seq<BvhNode>, path: Seq<int>, i: int, j: int, rounds: nat)
    requires
        descends(nodes, path),
        0 <= i < j < path.len(),
        path[i] == path[j],
    ensures
        descends(nodes, pumped(path, i, j, rounds)),
        pumped(path, i, j, rounds)[0] == path[0],
        pumped(path, i, j, rounds).last() == path[i],
        pumped(path, i, j, rounds).len() >= rounds + 1,
    decreases rounds,
{
    if rounds == 0 {
        let start = path.take(i + 1);
        assert forall|t: int| 0 <= t < start.len() - 1 implies is_child(
            nodes,
            #[trigger] start[t],
            start[t + 1],
        ) by {
            assert(is_child(nodes, path[t], path[t + 1]));
        }
    } else {
        let before = pumped(path, i, j, (rounds - 1) as nat);
        let round = path.subrange(i + 1, j + 1);
        let longer = before + round;
        pumping_gives_a_way_down(nodes, path, i, j, (rounds - 1) as nat);
        assert forall|t: int| 0 <= t < longer.len() - 1 implies is_child(
            nodes,
            #[trigger] longer[t],
            longer[t + 1],
        ) by {
            if t < before.len() - 1 {
                assert(is_child(nodes, before[t], before[t + 1]));
            } else if t == before.len() - 1 {
                assert(longer[t] == path[i]);
                assert(longer[t + 1] == path[i + 1]);
                assert(is_child(nodes, path[i], path[i + 1]));
            } else {
                let s = t - before.len();
                assert(longer[t] == path[i + 1 + s]);
                assert(longer[t + 1] == path[i + 1 + s + 1]);
                assert(is_child(nodes, path[i + 1 + s], path[i + 1 + s + 1]));
            }
        }
        assert(longer[0] == before[0]);
        assert(longer.last() == path[j]);
    }
}

/// Of more nodes than the table has, one comes twice.
proof fn some_node_comes_twice(path: Seq<int>, count: int) -> (twice: (int, int))
    requires
        0 <= count < path.len(),
        forall|i: int| 0 <= i < path.len() ==> 0 <= #[trigger] path[i] < count,
    ensures
        0 <= twice.0 < twice.1 < path.len(),
        path[twice.0] == path[twice.1],
{
    if path.no_duplicates() {
        path.unique_seq_to_set();
        vstd::set_lib::lemma_int_range(0, count);
        assert(path.to_set().subset_of(vstd::set_lib::set_int_range(0, count))) by {
            assert forall|a: int| path.to_set().contains(a) implies vstd::set_lib::set_int_range(
                0,
                count,
            ).contains(a) by {
                let i = choose|i: int| 0 <= i < path.len() && path[i] == a;
                assert(0 <= path[i] < count);
            }
        }
        vstd::set_lib::lemma_len_subset(path.to_set(), vstd::set_lib::set_int_range(0, count));
        (0, 0)
    } else {
        let (i, j) = choose|i: int, j: int|
            0 <= i < path.len() && 0 <= j < path.len() && i != j && path[i] == path[j];
        if i < j {
            (i, j)
        } else {
            (j, i)
        }
    }
}

/// A way down from a node whose subtree can be laid out at all has no more
/// nodes than the table has: a longer one would pass some node twice and
/// could go round from there for ever.
proof fn ways_down_fit_the_table(
    materials: Seq<Material>,
    nodes: Seq<BvhNode>,
    node_id: int,
    depth: nat,
    room: int,
    path: Seq<int>,
)
    requires
        examined(materials, nodes, node_id, depth, room) is Ok,
        descends(nodes, path),
        path[0] == node_id,
    ensures
        path.len() <= nodes.len(),
{
    if path.len() > nodes.len() {
        assert forall|i: int| 0 <= i < path.len() implies 0 <= #[trigger] path[i] < nodes.len() by {
            ways_down_stay_in_the_table(nodes, path, i);
        }
        let (i, j) = some_node_comes_twice(path, nodes.len() as int);
        pumping_gives_a_way_down(nodes, path, i, j, depth);
        ways_down_are_bounded(materials, nodes, node_id, depth, room, pumped(path, i, j, depth));
    }
}

/// Following more levels than the longest way down has nodes changes
/// nothing.
proof fn longest_way_down_is_enough(
    materials: Seq<Material>,
    nodes: Seq<BvhNode>,
    node_id: int,
    depth: nat,
    room: int,
    longest: nat,
)
    requires
        examined(materials, nodes, node_id, depth, room) is Ok,
        forall|path: Seq<int>| #[trigger]
            descends(nodes, path) && path[0] == node_id ==> path.len() <= longest,
    ensures
        examined(materials, nodes, node_id, longest, room) == examined(
            materials,
            nodes,
            node_id,
            depth,
            room,
        ),
    decreases depth,
{
    assert(descends(nodes, seq![node_id]));
    assert(seq![node_id][0] == node_id);
    match nodes[node_id] {
        BvhNode::Internal { left_node_id, .. } => {
            let below = (depth - 1) as nat;
            let shorter = (longest - 1) as nat;
            let left = examined(materials, nodes, left_node_id as int, below, room - 4);
            assert forall|path: Seq<int>| #[trigger]
                descends(nodes, path) && (path[0] == left_node_id || path[0] == left_node_id
                    + 1) implies path.len() <= shorter by {
                let longer = seq![node_id] + path;
                assert(longer[0] == node_id);
                assert forall|t: int| 0 <= t < longer.len() - 1 implies is_child(
                    nodes,
                    #[trigger] longer[t],
                    longer[t + 1],
                ) by {
                    if t == 0 {
                        assert(longer[1] == path[0]);
                    } else {
                        assert(longer[t] == path[t - 1]);
                        assert(longer[t + 1] == path[t - 1 + 1]);
                        assert(is_child(nodes, path[t - 1], path[t - 1 + 1]));
                    }
                }
                assert(descends(nodes, longer));
            }
            longest_way_down_is_enough(
                materials,
                nodes,
                left_node_id as int,
                below,
                room - 4,
                shorter,
            );
            longest_way_down_is_enough(
                materials,
                nodes,
                left_node_id + 1,
                below,
                room - 4 - left->Ok_0,
                shorter,
            );
        },
        BvhNode::Leaf { .. } => {},
    }
}

/// As many levels as the table has nodes are enough: a subtree that can be
/// laid out following any number of levels can be laid out following that
/// many, and takes the same number of records. So the layout refuses for
/// its depth only a hierarchy in which some node is its own descendant.
pub proof fn table_depth_is_enough(
    materials: Seq<Material>,
    nodes: Seq<BvhNode>,
    node_id: int,
    depth: nat,
    room: int,
)
    requires
        examined(materials, nodes, node_id, depth, room) is Ok,
    ensures
        examined(materials, nodes, node_id, nodes.len(), room) == examined(
            materials,
            nodes,
            node_id,
            depth,
            room,
        ),
{
    assert forall|path: Seq<int>| #[trigger]
        descends(nodes, path) && path[0] == node_id implies path.len() <= nodes.len() by {
        ways_down_fit_the_table(materials, nodes, node_id, depth, room, path);
    }
    longest_way_down_is_enough(materials, nodes, node_id, depth, room, nodes.len());
}

/// The layout refuses no hierarchy for its depth that could be laid out by
/// following more levels: what can be laid out following any number of
/// levels is laid out.
pub proof fn what_can_be_laid_out_is(
    materials: Seq<Material>,
    nodes: Seq<BvhNode>,
    base: int,
    depth: nat,
)
    requires
        0 <= base <= LAST_POSITION,
        examined(materials, nodes, 0, depth, LAST_POSITION - base) is Ok,
    ensures
        verdict(materials, nodes, base) is Ok,
{
    table_depth_is_enough(materials, nodes, 0, depth, LAST_POSITION - base);
}

/// Whether node `node_id` has what the layout asks of a node by itself: an
/// internal node has both its children in the table, a leaf names only
/// materials of the table.
pub open spec fn is_sound(materials: Seq<Material>, nodes: Seq<BvhNode>, node_id: int) -> bool {
    match nodes[node_id] {
        BvhNode::Internal { left_node_id, .. } => left_node_id < u32::MAX && left_node_id + 1
            < nodes.len(),
        BvhNode::Leaf { primitives, .. } => known(materials, primitives@),
    }
}

/// Whether what is reached from node 0 is a hierarchy: every node that is
/// reached is sound, and no way down passes a node twice. Nodes that are
/// not reached may be anything, and children may stand before their
/// parents.
pub open spec fn is_hierarchy(materials: Seq<Material>, nodes: Seq<BvhNode>) -> bool {
    &&& nodes.len() > 0
    &&& forall|path: Seq<int>| #[trigger]
        descends(nodes, path) && path[0] == 0 ==> path.no_duplicates() && is_sound(
            materials,
            nodes,
            path.last(),
        )
}

/// In a hierarchy the subtree of every node that is reached can be laid
/// out if only there is room for it.
proof fn reached_nodes_can_be_laid_out(
    materials: Seq<Material>,
    nodes: Seq<BvhNode>,
    path: Seq<int>,
    depth: nat,
    room: int,
)
    requires
        is_hierarchy(materials, nodes),
        descends(nodes, path),
        path[0] == 0,
        depth + path.len() > nodes.len(),
    ensures
        examined(materials, nodes, path.last(), depth, room) is Ok || examined(
            materials,
            nodes,
            path.last(),
            depth,
            room,
        ) == Err::<int, LayoutError>(LayoutError::TooLong),
    decreases depth,
{
    let node_id = path.last();
    ways_down_stay_in_the_table(nodes, path, path.len() - 1);
    if path.len() > nodes.len() {
        assert forall|i: int| 0 <= i < path.len() implies 0 <= #[trigger] path[i] < nodes.len() by {
            ways_down_stay_in_the_table(nodes, path, i);
        }
        some_node_comes_twice(path, nodes.len() as int);
        assert(path.no_duplicates());
    }
    assert(is_sound(materials, nodes, node_id));
    match nodes[node_id] {
        BvhNode::Internal { left_node_id, .. } => {
            let below = (depth - 1) as nat;
            let to_left = path.push(left_node_id as int);
            let to_right = path.push(left_node_id + 1);
            assert forall|t: int| 0 <= t < to_left.len() - 1 implies is_child(
                nodes,
                #[trigger] to_left[t],
                to_left[t + 1],
            ) by {
                if t < path.len() - 1 {
                    assert(is_child(nodes, path[t], path[t + 1]));
                }
            }
            assert forall|t: int| 0 <= t < to_right.len() - 1 implies is_child(
                nodes,
                #[trigger] to_right[t],
                to_right[t + 1],
            ) by {
                if t < path.len() - 1 {
                    assert(is_child(nodes, path[t], path[t + 1]));
                }
            }
            if room >= 4 {
                reached_nodes_can_be_laid_out(materials, nodes, to_left, below, room - 4);
                let left = examined(materials, nodes, left_node_id as int, below, room - 4);
                if left is Ok {
                    reached_nodes_can_be_laid_out(
                        materials,
                        nodes,
                        to_right,
                        below,
                        room - 4 - left->Ok_0,
                    );
                }
            }
        },
        BvhNode::Leaf { .. } => {},
    }
}

/// Every hierarchy is laid out unless the stream grows too long: the
/// layout refuses no hierarchy as malformed or for a material.
pub proof fn hierarchies_are_laid_out(materials: Seq<Material>, nodes: Seq<BvhNode>, base: int)
    requires
        is_hierarchy(materials, nodes),
    ensures
        verdict(materials, nodes, base) is Ok || verdict(materials, nodes, base) == Err::<
            (),
            LayoutError,
        >(LayoutError::TooLong),
{
    if base <= LAST_POSITION {
        assert(descends(nodes, seq![0int]));
        reached_nodes_can_be_laid_out(
            materials,
            nodes,
            seq![0int],
            nodes.len(),
            LAST_POSITION - base,
        );
    }
}

} // verus!
