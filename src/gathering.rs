//! The gathering rule: which node, if any, the player gathers on a tick, and
//! what that does to the inventory, the nodes and the cooldown.
use vstd::prelude::*;
use crate::cooldown::Cooldown;
use crate::geometry::{
    COSINE_SCALE, Direction, Position, dist_sq, distance_squared, facing, is_facing,
    is_within_range, within_range,
};
use crate::inventory::ResourceType;

verus! {

/// The player as the gathering rule sees it.
#[derive(Clone, Copy, Debug, PartialEq, Eq, Structural)]
pub struct Player {
    pub position: Position,
    pub forward: Direction,
    /// How far the player reaches, in the units of `Position`.
    pub gathering_range: u32,
    /// Cosine of the half-angle of the cone the player faces, in thousandths.
    pub facing_threshold: i32,
    pub gathering_cooldown: Cooldown,
}

impl Player {
    pub open spec fn wf(self) -> bool {
        &&& -COSINE_SCALE <= self.facing_threshold <= COSINE_SCALE
        &&& self.gathering_cooldown.wf()
    }

    /// The player moved to `position`, facing `forward`.
    pub open spec fn posed(self, position: Position, forward: Direction) -> Player {
        Player { position, forward, ..self }
    }
}

/// A resource node of the world. A gathered node stays in its slot, inactive,
/// so that the index of every node stays its identifier.
#[derive(Clone, Copy, Debug, PartialEq, Eq, Structural)]
pub struct ResourceNode {
    pub resource_type: ResourceType,
    pub position: Position,
    pub active: bool,
}

/// The node as it is once gathered.
pub open spec fn deactivated(n: ResourceNode) -> ResourceNode {
    ResourceNode { active: false, ..n }
}

/// What a successful gather reports: the node taken, its kind and the new count
/// of that kind.
#[derive(Clone, Copy, Debug, PartialEq, Eq, Structural)]
pub struct GatherEvent {
    pub node_id: usize,
    pub resource_type: ResourceType,
    pub new_total: u32,
}

/// The node is active, within the player's range and inside the cone it faces.
pub open spec fn eligible(p: Player, n: ResourceNode) -> bool {
    &&& n.active
    &&& within_range(p.position, n.position, p.gathering_range)
    &&& facing(p.forward, p.position, n.position, p.facing_threshold)
}

/// Some node of `nodes` is eligible.
pub open spec fn any_eligible(p: Player, nodes: Seq<ResourceNode>) -> bool {
    exists|i: int| 0 <= i < nodes.len() && eligible(p, #[trigger] nodes[i])
}

/// Node `i` is the eligible node nearest the player; of several at the same
/// distance, the first in the sequence.
pub open spec fn is_nearest(p: Player, nodes: Seq<ResourceNode>, i: int) -> bool {
    &&& 0 <= i < nodes.len()
    &&& eligible(p, nodes[i])
    &&& forall|j: int|
        0 <= j < i && eligible(p, #[trigger] nodes[j])
            ==> dist_sq(p.position, nodes[j].position) > dist_sq(p.position, nodes[i].position)
    &&& forall|j: int|
        i < j < nodes.len() && eligible(p, #[trigger] nodes[j])
            ==> dist_sq(p.position, nodes[j].position) >= dist_sq(p.position, nodes[i].position)
}

/// Whether `n` is eligible for player `p`.
pub fn is_eligible(p: &Player, n: &ResourceNode) -> (r: bool)
    requires
        p.wf(),
    ensures
        r == eligible(*p, *n),
{
    n.active && is_within_range(&p.position, &n.position, p.gathering_range) && is_facing(
        &p.forward,
        &p.position,
        &n.position,
        p.facing_threshold,
    )
}

/// The eligible node nearest the player, the first of equals; `None` when no
/// node is eligible.
pub fn select_target(p: &Player, nodes: &Vec<ResourceNode>) -> (r: Option<usize>)
    requires
        p.wf(),
    ensures
        match r {
            Some(i) => is_nearest(*p, nodes@, i as int),
            None => !any_eligible(*p, nodes@),
        },
{
    let mut best: Option<usize> = None;
    let mut best_d: i128 = 0;
    let mut k: usize = 0;
    while k < nodes.len()
        invariant
            p.wf(),
            0 <= k <= nodes.len(),
            match best {
                Some(b) => {
                    &&& b < k
                    &&& eligible(*p, nodes@[b as int])
                    &&& best_d == dist_sq(p.position, nodes@[b as int].position)
                    &&& forall|j: int|
                        0 <= j < b && eligible(*p, #[trigger] nodes@[j])
                            ==> dist_sq(p.position, nodes@[j].position) > best_d
                    &&& forall|j: int|
                        b < j < k && eligible(*p, #[trigger] nodes@[j])
                            ==> dist_sq(p.position, nodes@[j].position) >= best_d
                },
                None => forall|j: int| 0 <= j < k ==> !eligible(*p, #[trigger] nodes@[j]),
            },
        decreases nodes.len() - k,
    {
        let n = &nodes[k];
        if is_eligible(p, n) {
            let d = distance_squared(&p.position, &n.position);
            match best {
                Some(_) => {
                    if d < best_d {
                        best = Some(k);
                        best_d = d;
                    }
                },
                None => {
                    best = Some(k);
                    best_d = d;
                },
            }
        }
        k = k + 1;
    }
    best
}

} // verus!
