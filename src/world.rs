//! Generation of the world's resource nodes at random places.
use rand::Rng;
use vstd::prelude::*;
use crate::engine::GatherEngine;
use crate::gathering::ResourceNode;
use crate::geometry::Position;
use crate::inventory::ResourceType;

verus! {

/// Relies on `rand::thread_rng` and `rand::Rng::gen_range`: a value drawn from
/// `lo..hi`, which `gen_range` refuses when empty.
#[verifier::external_body]
fn random_coordinate(lo: i32, hi: i32) -> (r: i32)
    requires
        lo < hi,
    ensures
        lo <= r < hi,
{
    rand::thread_rng().gen_range(lo..hi)
}

/// Node `n` is an active node of kind `k` on the ground (`y == 0`) with `x` and
/// `z` in `-half_extent .. half_extent`.
pub open spec fn spawned_as(n: ResourceNode, k: ResourceType, half_extent: i32) -> bool {
    &&& n.active
    &&& n.resource_type == k
    &&& n.position.y == 0
    &&& -half_extent <= n.position.x < half_extent
    &&& -half_extent <= n.position.z < half_extent
}

impl GatherEngine {
    /// Adds `count` active nodes of kind `k` at random places on the ground
    /// within `half_extent` of the origin along `x` and `z`.
    fn spawn_kind(&mut self, k: ResourceType, count: usize, half_extent: i32)
        requires
            old(self).wf(),
            0 < half_extent,
            old(self).nodes.len() + count < usize::MAX,
        ensures
            final(self).wf(),
            final(self).player == old(self).player,
            final(self).inventory == old(self).inventory,
            final(self).nodes@.len() == old(self).nodes@.len() + count,
            forall|i: int|
                0 <= i < old(self).nodes@.len() ==> #[trigger] final(self).nodes@[i]
                    == old(self).nodes@[i],
            forall|i: int|
                old(self).nodes@.len() <= i < final(self).nodes@.len() ==> spawned_as(
                    #[trigger] final(self).nodes@[i],
                    k,
                    half_extent,
                ),
    {
        let ghost start = self.nodes@;
        let mut n: usize = 0;
        while n < count
            invariant
                self.wf(),
                0 < half_extent,
                0 <= n <= count,
                start.len() + count < usize::MAX,
                self.player == old(self).player,
                self.inventory == old(self).inventory,
                start == old(self).nodes@,
                self.nodes@.len() == start.len() + n,
                forall|i: int| 0 <= i < start.len() ==> #[trigger] self.nodes@[i] == start[i],
                forall|i: int|
                    start.len() <= i < self.nodes@.len() ==> spawned_as(
                        #[trigger] self.nodes@[i],
                        k,
                        half_extent,
                    ),
            decreases count - n,
        {
            let x = random_coordinate(-half_extent, half_extent);
            let z = random_coordinate(-half_extent, half_extent);
            self.add_node(k, Position { x, y: 0, z });
            n = n + 1;
        }
    }

    /// Scatters `trees` wood nodes, then `rocks` stone nodes, at random places
    /// on the ground within `half_extent` of the origin along `x` and `z`.
    pub fn spawn_resources(&mut self, trees: usize, rocks: usize, half_extent: i32)
        requires
            old(self).wf(),
            0 < half_extent,
            old(self).nodes.len() + trees + rocks < usize::MAX,
        ensures
            final(self).wf(),
            final(self).player == old(self).player,
            final(self).inventory == old(self).inventory,
            final(self).nodes@.len() == old(self).nodes@.len() + trees + rocks,
            forall|i: int|
                0 <= i < old(self).nodes@.len() ==> #[trigger] final(self).nodes@[i]
                    == old(self).nodes@[i],
            forall|i: int|
                old(self).nodes@.len() <= i < old(self).nodes@.len() + trees ==> spawned_as(
                    #[trigger] final(self).nodes@[i],
                    ResourceType::Wood,
                    half_extent,
                ),
            forall|i: int|
                old(self).nodes@.len() + trees <= i < final(self).nodes@.len() ==> spawned_as(
                    #[trigger] final(self).nodes@[i],
                    ResourceType::Stone,
                    half_extent,
                ),
    {
        self.spawn_kind(ResourceType::Wood, trees, half_extent);
        self.spawn_kind(ResourceType::Stone, rocks, half_extent);
    }
}

} // verus!
