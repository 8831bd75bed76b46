//! The gathering engine: the player, the inventory and the node arena, advanced
//! one tick at a time by the host.
use vstd::prelude::*;
use crate::gathering::{
    GatherEvent, Player, ResourceNode, any_eligible, deactivated, eligible, is_nearest,
    select_target,
};
use crate::geometry::{Direction, Position, dist_sq, facing};
use crate::inventory::{PlayerInventory, ResourceType};

verus! {

/// The state of the engine in mathematical terms.
pub struct GatherState {
    pub player: Player,
    pub inventory: PlayerInventory,
    pub nodes: Seq<ResourceNode>,
}

impl GatherState {
    pub open spec fn wf(self) -> bool {
        &&& self.player.wf()
        &&& self.inventory.wf()
        &&& self.nodes.len() <= usize::MAX
    }
}

/// What gathering node `i` does: with room for its kind, the count goes up by
/// one, the node becomes inactive, the cooldown starts over and an event is
/// reported; without room, nothing changes and nothing is reported.
pub open spec fn gather_at(s: GatherState, i: int, s1: GatherState, r: Option<GatherEvent>) -> bool {
    let k = s.nodes[i].resource_type;
    let total = (s.inventory.count(k) + 1) as u32;
    if s.inventory.has_room(k) {
        &&& r == Some(GatherEvent { node_id: i as usize, resource_type: k, new_total: total })
        &&& s1 == GatherState {
            player: Player {
                gathering_cooldown: s.player.gathering_cooldown.restarted(),
                ..s.player
            },
            inventory: s.inventory.with_count(k, total),
            nodes: s.nodes.update(i, deactivated(s.nodes[i])),
        }
    } else {
        r is None && s1 == s
    }
}

/// One tick of the engine, from `s0` to `s1` reporting `r`. The player first
/// takes the pose given by the host. While the cooldown runs, the tick only
/// lets `dt` pass. Once it has run out, a press of the gather key gathers the
/// nearest eligible node, if there is one.
pub open spec fn gather_step(
    s0: GatherState,
    dt: u64,
    position: Position,
    forward: Direction,
    gather_pressed: bool,
    s1: GatherState,
    r: Option<GatherEvent>,
) -> bool {
    let p = s0.player.posed(position, forward);
    let s = GatherState { player: p, ..s0 };
    if !p.gathering_cooldown.is_finished() {
        &&& r is None
        &&& s1 == GatherState {
            player: Player { gathering_cooldown: p.gathering_cooldown.ticked(dt), ..p },
            ..s
        }
    } else if !gather_pressed || !any_eligible(p, s.nodes) {
        r is None && s1 == s
    } else {
        exists|i: int| #[trigger] is_nearest(p, s.nodes, i) && gather_at(s, i, s1, r)
    }
}

/// The player, its inventory and the resource nodes of the world. A node's
/// index in `nodes` is its identifier.
pub struct GatherEngine {
    pub player: Player,
    pub inventory: PlayerInventory,
    pub nodes: Vec<ResourceNode>,
}

impl View for GatherEngine {
    type V = GatherState;

    open spec fn view(&self) -> GatherState {
        GatherState { player: self.player, inventory: self.inventory, nodes: self.nodes@ }
    }
}

impl GatherEngine {
    pub open spec fn wf(&self) -> bool {
        self@.wf()
    }

    /// An engine with no nodes and an empty inventory capped at `max_stack_size`.
    pub fn new(player: Player, max_stack_size: u32) -> (r: GatherEngine)
        requires
            player.wf(),
        ensures
            r.wf(),
            r.player == player,
            r.inventory.max_stack_size == max_stack_size,
            forall|k: ResourceType| #[trigger] r.inventory.count(k) == 0,
            r.nodes@.len() == 0,
    {
        GatherEngine { player, inventory: PlayerInventory::new(max_stack_size), nodes: Vec::new() }
    }

    /// Places an active node of kind `resource_type` at `position` and returns
    /// its identifier.
    pub fn add_node(&mut self, resource_type: ResourceType, position: Position) -> (r: usize)
        requires
            old(self).wf(),
            old(self).nodes.len() < usize::MAX,
        ensures
            final(self).wf(),
            r == old(self).nodes.len(),
            final(self).player == old(self).player,
            final(self).inventory == old(self).inventory,
            final(self).nodes@ == old(self).nodes@.push(
                ResourceNode { resource_type, position, active: true },
            ),
    {
        let id = self.nodes.len();
        self.nodes.push(ResourceNode { resource_type, position, active: true });
        id
    }

    /// Whether node `id` is still there to be gathered.
    pub fn is_active(&self, id: usize) -> (r: bool)
        requires
            id < self.nodes.len(),
        ensures
            r == self.nodes@[id as int].active,
    {
        self.nodes[id].active
    }

    /// Advances the engine by one tick of `dt` time units, with the player at
    /// `position` facing `forward`, and `gather_pressed` telling whether the
    /// gather key went down on this tick. Reports the gather, if one happened.
    pub fn gather_resources(
        &mut self,
        dt: u64,
        position: Position,
        forward: Direction,
        gather_pressed: bool,
    ) -> (r: Option<GatherEvent>)
        requires
            old(self).wf(),
        ensures
            final(self).wf(),
            gather_step(old(self)@, dt, position, forward, gather_pressed, final(self)@, r),
    {
        self.player.position = position;
        self.player.forward = forward;
        if !self.player.gathering_cooldown.finished() {
            self.player.gathering_cooldown.tick(dt);
            return None;
        }
        if !gather_pressed {
            return None;
        }
        match select_target(&self.player, &self.nodes) {
            None => None,
            Some(i) => {
                let k = self.nodes[i].resource_type;
                if !self.inventory.has_headroom(k) {
                    return None;
                }
                let total = self.inventory.increment(k);
                let mut n = self.nodes[i];
                n.active = false;
                self.nodes.set(i, n);
                self.player.gathering_cooldown.reset();
                let ghost s = old(self)@;
                assert(is_nearest(s.player.posed(position, forward), s.nodes, i as int));
                Some(GatherEvent { node_id: i, resource_type: k, new_total: total })
            },
        }
    }
}

/// Every tick keeps each stack within `0 ..= max_stack_size`.
pub proof fn lemma_step_keeps_stacks_capped(
    s0: GatherState,
    dt: u64,
    position: Position,
    forward: Direction,
    gather_pressed: bool,
    s1: GatherState,
    r: Option<GatherEvent>,
)
    requires
        s0.wf(),
        gather_step(s0, dt, position, forward, gather_pressed, s1, r),
    ensures
        s1.wf(),
        forall|k: ResourceType| 0 <= #[trigger] s1.inventory.count(k) <= s1.inventory.max_stack_size,
{
    let p = s0.player.posed(position, forward);
    let s = GatherState { player: p, ..s0 };
    if p.gathering_cooldown.is_finished() && gather_pressed && any_eligible(p, s.nodes) {
        let i = choose|i: int| #[trigger] is_nearest(p, s.nodes, i) && gather_at(s, i, s1, r);
        let k = s.nodes[i].resource_type;
        if s.inventory.has_room(k) {
            assert forall|j: ResourceType| #[trigger] s1.inventory.count(j) <= s1.inventory.max_stack_size by {
                assert(s0.inventory.count(j) <= s0.inventory.max_stack_size);
            }
        }
    }
}

/// A tick leaves an inactive node inactive and never gathers it.
pub proof fn lemma_inactive_node_stays_ungathered(
    s0: GatherState,
    dt: u64,
    position: Position,
    forward: Direction,
    gather_pressed: bool,
    s1: GatherState,
    r: Option<GatherEvent>,
    id: int,
)
    requires
        s0.wf(),
        gather_step(s0, dt, position, forward, gather_pressed, s1, r),
        0 <= id < s0.nodes.len(),
        !s0.nodes[id].active,
    ensures
        s1.nodes.len() == s0.nodes.len(),
        s1.nodes[id] == s0.nodes[id],
        r matches Some(ev) ==> ev.node_id != id,
{
    let p = s0.player.posed(position, forward);
    let s = GatherState { player: p, ..s0 };
    if p.gathering_cooldown.is_finished() && gather_pressed && any_eligible(p, s.nodes) {
        let i = choose|i: int| #[trigger] is_nearest(p, s.nodes, i) && gather_at(s, i, s1, r);
        assert(i != id);
    }
}

/// Gathering a node takes it out of play exactly once: the tick that gathers it
/// turns it from active to inactive and leaves every other node as it was, and
/// no later tick gathers it again.
pub proof fn lemma_gathered_node_never_gathered_again(
    s0: GatherState,
    dt0: u64,
    position0: Position,
    forward0: Direction,
    pressed0: bool,
    s1: GatherState,
    ev: GatherEvent,
    dt1: u64,
    position1: Position,
    forward1: Direction,
    pressed1: bool,
    s2: GatherState,
    r: Option<GatherEvent>,
)
    requires
        s0.wf(),
        gather_step(s0, dt0, position0, forward0, pressed0, s1, Some(ev)),
        gather_step(s1, dt1, position1, forward1, pressed1, s2, r),
    ensures
        ev.node_id < s0.nodes.len(),
        s0.nodes[ev.node_id as int].active,
        s1.nodes == s0.nodes.update(ev.node_id as int, deactivated(s0.nodes[ev.node_id as int])),
        !s2.nodes[ev.node_id as int].active,
        r matches Some(ev2) ==> ev2.node_id != ev.node_id,
{
    let p = s0.player.posed(position0, forward0);
    let s = GatherState { player: p, ..s0 };
    let i = choose|i: int| #[trigger] is_nearest(p, s.nodes, i) && gather_at(s, i, s1, Some(ev));
    assert(ev.node_id == i);
    lemma_step_keeps_stacks_capped(s0, dt0, position0, forward0, pressed0, s1, Some(ev));
    lemma_inactive_node_stays_ungathered(s1, dt1, position1, forward1, pressed1, s2, r, i);
}

/// A node farther from the player than its range is never gathered, whatever
/// the player faces, and stays as it was.
pub proof fn lemma_out_of_range_never_gathered(
    s0: GatherState,
    dt: u64,
    position: Position,
    forward: Direction,
    gather_pressed: bool,
    s1: GatherState,
    r: Option<GatherEvent>,
    id: int,
)
    requires
        s0.wf(),
        gather_step(s0, dt, position, forward, gather_pressed, s1, r),
        0 <= id < s0.nodes.len(),
        dist_sq(position, s0.nodes[id].position) > s0.player.gathering_range
            * s0.player.gathering_range,
    ensures
        s1.nodes[id] == s0.nodes[id],
        r matches Some(ev) ==> ev.node_id != id,
{
    let p = s0.player.posed(position, forward);
    let s = GatherState { player: p, ..s0 };
    if p.gathering_cooldown.is_finished() && gather_pressed && any_eligible(p, s.nodes) {
        let i = choose|i: int| #[trigger] is_nearest(p, s.nodes, i) && gather_at(s, i, s1, r);
        assert(i != id);
    }
}

/// A node outside the cone the player faces is never gathered, however near,
/// and stays as it was.
pub proof fn lemma_not_faced_never_gathered(
    s0: GatherState,
    dt: u64,
    position: Position,
    forward: Direction,
    gather_pressed: bool,
    s1: GatherState,
    r: Option<GatherEvent>,
    id: int,
)
    requires
        s0.wf(),
        gather_step(s0, dt, position, forward, gather_pressed, s1, r),
        0 <= id < s0.nodes.len(),
        !facing(forward, position, s0.nodes[id].position, s0.player.facing_threshold),
    ensures
        s1.nodes[id] == s0.nodes[id],
        r matches Some(ev) ==> ev.node_id != id,
{
    let p = s0.player.posed(position, forward);
    let s = GatherState { player: p, ..s0 };
    if p.gathering_cooldown.is_finished() && gather_pressed && any_eligible(p, s.nodes) {
        let i = choose|i: int| #[trigger] is_nearest(p, s.nodes, i) && gather_at(s, i, s1, r);
        assert(i != id);
    }
}

/// While the cooldown runs, a tick gathers nothing, pressed key or not: the
/// inventory and the nodes stay as they were.
pub proof fn lemma_cooldown_blocks_gathering(
    s0: GatherState,
    dt: u64,
    position: Position,
    forward: Direction,
    gather_pressed: bool,
    s1: GatherState,
    r: Option<GatherEvent>,
)
    requires
        s0.wf(),
        gather_step(s0, dt, position, forward, gather_pressed, s1, r),
        !s0.player.gathering_cooldown.is_finished(),
    ensures
        r is None,
        s1.inventory == s0.inventory,
        s1.nodes == s0.nodes,
        s1.player.gathering_cooldown == s0.player.gathering_cooldown.ticked(dt),
{
}

/// An attempt whose target is of a kind whose stack is full changes nothing:
/// the inventory, the nodes and the cooldown stay as they were.
pub proof fn lemma_full_stack_changes_nothing(
    s0: GatherState,
    dt: u64,
    position: Position,
    forward: Direction,
    s1: GatherState,
    r: Option<GatherEvent>,
    target: int,
)
    requires
        s0.wf(),
        gather_step(s0, dt, position, forward, true, s1, r),
        s0.player.gathering_cooldown.is_finished(),
        is_nearest(s0.player.posed(position, forward), s0.nodes, target),
        !s0.inventory.has_room(s0.nodes[target].resource_type),
    ensures
        r is None,
        s1.inventory == s0.inventory,
        s1.nodes == s0.nodes,
        s1.player.gathering_cooldown == s0.player.gathering_cooldown,
{
    let p = s0.player.posed(position, forward);
    let s = GatherState { player: p, ..s0 };
    assert(any_eligible(p, s.nodes)) by {
        assert(0 <= target < s.nodes.len() && eligible(p, s.nodes[target]));
    }
    let i = choose|i: int| #[trigger] is_nearest(p, s.nodes, i) && gather_at(s, i, s1, r);
    lemma_nearest_unique(p, s.nodes, i, target);
}

/// At most one node is the nearest eligible one.
pub proof fn lemma_nearest_unique(p: Player, nodes: Seq<ResourceNode>, i: int, j: int)
    requires
        is_nearest(p, nodes, i),
        is_nearest(p, nodes, j),
    ensures
        i == j,
{
    if i < j {
        assert(eligible(p, nodes[i]));
    } else if j < i {
        assert(eligible(p, nodes[j]));
    }
}

} // verus!
