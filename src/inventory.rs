//! The kinds of resource and the capped inventory that holds them.
use vstd::prelude::*;

verus! {

/// What a resource node yields when it is gathered.
#[derive(Clone, Copy, Debug, PartialEq, Eq, Structural, Hash)]
pub enum ResourceType {
    Wood,
    Stone,
    Ore,
}

/// The display name of each kind.
pub open spec fn resource_name(k: ResourceType) -> Seq<char> {
    match k {
        ResourceType::Wood => "Wood"@,
        ResourceType::Stone => "Stone"@,
        ResourceType::Ore => "Ore"@,
    }
}

impl ResourceType {
    /// The display name of this kind.
    pub fn get_name(&self) -> (r: &'static str)
        ensures
            r@ == resource_name(*self),
    {
        match self {
            ResourceType::Wood => "Wood",
            ResourceType::Stone => "Stone",
            ResourceType::Ore => "Ore",
        }
    }
}

/// How many of each kind the player holds, each stack capped by `max_stack_size`.
#[derive(Clone, Copy, Debug, PartialEq, Eq, Structural)]
pub struct PlayerInventory {
    pub wood: u32,
    pub stone: u32,
    pub ore: u32,
    pub max_stack_size: u32,
}

impl PlayerInventory {
    /// The count held of kind `k`.
    pub open spec fn count(self, k: ResourceType) -> u32 {
        match k {
            ResourceType::Wood => self.wood,
            ResourceType::Stone => self.stone,
            ResourceType::Ore => self.ore,
        }
    }

    /// No stack exceeds the cap.
    pub open spec fn wf(self) -> bool {
        forall|k: ResourceType| #[trigger] self.count(k) <= self.max_stack_size
    }

    /// The inventory with the count of `k` set to `v` and every other count kept.
    pub open spec fn with_count(self, k: ResourceType, v: u32) -> PlayerInventory {
        match k {
            ResourceType::Wood => PlayerInventory { wood: v, ..self },
            ResourceType::Stone => PlayerInventory { stone: v, ..self },
            ResourceType::Ore => PlayerInventory { ore: v, ..self },
        }
    }

    /// Whether one more of `k` fits under the cap.
    pub open spec fn has_room(self, k: ResourceType) -> bool {
        self.count(k) < self.max_stack_size
    }

    /// An empty inventory with the given cap.
    pub fn new(max_stack_size: u32) -> (r: PlayerInventory)
        ensures
            r.wf(),
            r.max_stack_size == max_stack_size,
            forall|k: ResourceType| #[trigger] r.count(k) == 0,
    {
        PlayerInventory { wood: 0, stone: 0, ore: 0, max_stack_size }
    }

    /// The count held of kind `k`.
    pub fn get(&self, k: ResourceType) -> (r: u32)
        ensures
            r == self.count(k),
    {
        match k {
            ResourceType::Wood => self.wood,
            ResourceType::Stone => self.stone,
            ResourceType::Ore => self.ore,
        }
    }

    /// Whether one more of `k` fits under the cap.
    pub fn has_headroom(&self, k: ResourceType) -> (r: bool)
        ensures
            r == self.has_room(k),
    {
        self.get(k) < self.max_stack_size
    }

    /// Adds one of `k` and returns the new count. The caller makes sure that
    /// the stack has room.
    pub fn increment(&mut self, k: ResourceType) -> (r: u32)
        requires
            old(self).wf(),
            old(self).has_room(k),
        ensures
            r == old(self).count(k) + 1,
            *final(self) == old(self).with_count(k, r),
            final(self).wf(),
    {
        let v = self.get(k) + 1;
        match k {
            ResourceType::Wood => self.wood = v,
            ResourceType::Stone => self.stone = v,
            ResourceType::Ore => self.ore = v,
        }
        proof {
            assert forall|j: ResourceType| #[trigger] final(self).count(j) <= final(self).max_stack_size by {
                assert(old(self).count(j) <= old(self).max_stack_size);
            }
        }
        v
    }
}

} // verus!
