use resource_gathering::cooldown::Cooldown;
use resource_gathering::engine::GatherEngine;
use resource_gathering::gathering::{select_target, GatherEvent, Player, ResourceNode};
use resource_gathering::geometry::{distance_squared, is_facing, is_within_range, Direction, Position};
use resource_gathering::inventory::{PlayerInventory, ResourceType};

fn pos(x: i32, y: i32, z: i32) -> Position {
    Position { x, y, z }
}

const FORWARD_Z: Direction = Direction { x: 0, y: 0, z: 1 };

fn player(range: u32, threshold: i32, cooldown: u64) -> Player {
    Player {
        position: pos(0, 0, 0),
        forward: FORWARD_Z,
        gathering_range: range,
        facing_threshold: threshold,
        gathering_cooldown: Cooldown::new(cooldown),
    }
}

fn node(kind: ResourceType, p: Position) -> ResourceNode {
    ResourceNode { resource_type: kind, position: p, active: true }
}

#[test]
fn near_node_in_front_is_gathered() {
    let mut e = GatherEngine::new(player(2, 700, 5), 10);
    let id = e.add_node(ResourceType::Wood, pos(0, 0, 1));
    let r = e.gather_resources(1, pos(0, 0, 0), FORWARD_Z, true);
    assert_eq!(r, Some(GatherEvent { node_id: id, resource_type: ResourceType::Wood, new_total: 1 }));
    assert_eq!(e.inventory.get(ResourceType::Wood), 1);
    assert!(!e.is_active(id));
    assert_eq!(e.player.gathering_cooldown.remaining, 5);
}

#[test]
fn far_node_is_not_gathered() {
    let mut e = GatherEngine::new(player(2, 700, 5), 10);
    let id = e.add_node(ResourceType::Wood, pos(0, 0, 5));
    let r = e.gather_resources(1, pos(0, 0, 0), FORWARD_Z, true);
    assert_eq!(r, None);
    assert_eq!(e.inventory.get(ResourceType::Wood), 0);
    assert!(e.is_active(id));
    assert_eq!(e.player.gathering_cooldown.remaining, 0);
}

#[test]
fn nearest_of_two_eligible_nodes_is_gathered() {
    let mut e = GatherEngine::new(player(5, 700, 5), 10);
    let far = e.add_node(ResourceType::Stone, pos(0, 0, 3));
    let near = e.add_node(ResourceType::Wood, pos(0, 0, 2));
    let r = e.gather_resources(1, pos(0, 0, 0), FORWARD_Z, true);
    assert_eq!(r, Some(GatherEvent { node_id: near, resource_type: ResourceType::Wood, new_total: 1 }));
    assert!(e.is_active(far));
    assert!(!e.is_active(near));
    assert_eq!(e.inventory.get(ResourceType::Stone), 0);
}

#[test]
fn full_stack_leaves_everything_unchanged() {
    let mut e = GatherEngine::new(player(2, 700, 5), 10);
    e.inventory.wood = 10;
    let id = e.add_node(ResourceType::Wood, pos(0, 0, 1));
    let r = e.gather_resources(1, pos(0, 0, 0), FORWARD_Z, true);
    assert_eq!(r, None);
    assert_eq!(e.inventory.get(ResourceType::Wood), 10);
    assert!(e.is_active(id));
    assert!(e.player.gathering_cooldown.finished());
}

#[test]
fn presses_during_cooldown_gather_nothing() {
    let mut p = player(2, 700, 5);
    p.gathering_cooldown.reset();
    let mut e = GatherEngine::new(p, 10);
    let id = e.add_node(ResourceType::Wood, pos(0, 0, 1));
    assert_eq!(e.gather_resources(1, pos(0, 0, 0), FORWARD_Z, true), None);
    assert_eq!(e.gather_resources(1, pos(0, 0, 0), FORWARD_Z, true), None);
    assert_eq!(e.inventory.get(ResourceType::Wood), 0);
    assert!(e.is_active(id));
    assert_eq!(e.player.gathering_cooldown.remaining, 3);
}

#[test]
fn cooldown_spaces_gathers_apart() {
    let mut e = GatherEngine::new(player(3, 700, 2), 10);
    let a = e.add_node(ResourceType::Wood, pos(0, 0, 1));
    let b = e.add_node(ResourceType::Ore, pos(0, 0, 2));
    assert_eq!(e.gather_resources(1, pos(0, 0, 0), FORWARD_Z, true).map(|ev| ev.node_id), Some(a));
    assert_eq!(e.gather_resources(1, pos(0, 0, 0), FORWARD_Z, true), None);
    // The tick on which the cooldown runs out evaluates no press either.
    assert_eq!(e.gather_resources(1, pos(0, 0, 0), FORWARD_Z, true), None);
    assert!(e.player.gathering_cooldown.finished());
    let r = e.gather_resources(1, pos(0, 0, 0), FORWARD_Z, true);
    assert_eq!(r, Some(GatherEvent { node_id: b, resource_type: ResourceType::Ore, new_total: 1 }));
}

#[test]
fn gathered_node_is_never_gathered_again() {
    let mut e = GatherEngine::new(player(2, 700, 0), 10);
    let id = e.add_node(ResourceType::Wood, pos(0, 0, 1));
    assert!(e.gather_resources(1, pos(0, 0, 0), FORWARD_Z, true).is_some());
    for _ in 0..3 {
        assert_eq!(e.gather_resources(1, pos(0, 0, 0), FORWARD_Z, true), None);
    }
    assert!(!e.is_active(id));
    assert_eq!(e.inventory.get(ResourceType::Wood), 1);
}

#[test]
fn no_press_no_gather() {
    let mut e = GatherEngine::new(player(2, 700, 5), 10);
    let id = e.add_node(ResourceType::Wood, pos(0, 0, 1));
    assert_eq!(e.gather_resources(1, pos(0, 0, 0), FORWARD_Z, false), None);
    assert!(e.is_active(id));
}

#[test]
fn node_behind_the_player_is_not_gathered() {
    let mut e = GatherEngine::new(player(2, 700, 5), 10);
    let id = e.add_node(ResourceType::Wood, pos(0, 0, -1));
    assert_eq!(e.gather_resources(1, pos(0, 0, 0), FORWARD_Z, true), None);
    assert!(e.is_active(id));
}

#[test]
fn pose_given_on_the_tick_is_used() {
    let mut e = GatherEngine::new(player(2, 700, 5), 10);
    let id = e.add_node(ResourceType::Stone, pos(10, 0, 0));
    let east = Direction { x: 7, y: 0, z: 0 };
    let r = e.gather_resources(1, pos(9, 0, 0), east, true);
    assert_eq!(r, Some(GatherEvent { node_id: id, resource_type: ResourceType::Stone, new_total: 1 }));
    assert_eq!(e.player.position, pos(9, 0, 0));
    assert_eq!(e.player.forward, east);
}

#[test]
fn equal_distances_resolve_to_first_node() {
    let p = Player { gathering_range: 10, facing_threshold: 0, ..player(0, 0, 0) };
    let nodes = vec![
        node(ResourceType::Wood, pos(0, 0, -3)),
        node(ResourceType::Stone, pos(3, 0, 3)),
        node(ResourceType::Ore, pos(-3, 0, 3)),
    ];
    assert_eq!(select_target(&p, &nodes), Some(1));
}

#[test]
fn inactive_nodes_are_skipped() {
    let p = player(10, 700, 0);
    let mut gone = node(ResourceType::Wood, pos(0, 0, 1));
    gone.active = false;
    let nodes = vec![gone, node(ResourceType::Ore, pos(0, 0, 4))];
    assert_eq!(select_target(&p, &nodes), Some(1));
    assert_eq!(select_target(&p, &vec![]), None);
}

#[test]
fn distance_is_squared_euclidean() {
    assert_eq!(distance_squared(&pos(1, 2, 3), &pos(4, 6, 3)), 25);
    assert_eq!(distance_squared(&pos(i32::MIN, i32::MIN, i32::MIN), &pos(i32::MAX, i32::MAX, i32::MAX)), 3 * (u32::MAX as i128) * (u32::MAX as i128));
    assert!(is_within_range(&pos(0, 0, 0), &pos(3, 4, 0), 5));
    assert!(!is_within_range(&pos(0, 0, 0), &pos(3, 4, 1), 5));
}

#[test]
fn facing_cone_bounds() {
    let o = pos(0, 0, 0);
    let f = Direction { x: 0, y: 0, z: 1 };
    // cos 45 degrees is about 0.7071: inside a 700 cone, outside a 708 cone.
    assert!(is_facing(&f, &o, &pos(1, 0, 1), 700));
    assert!(!is_facing(&f, &o, &pos(1, 0, 1), 708));
    // A cosine exactly at the threshold does not pass.
    assert!(!is_facing(&f, &o, &pos(0, 0, 1), 1000));
    assert!(is_facing(&f, &o, &pos(0, 0, 1), 999));
    // Perpendicular: cosine zero.
    assert!(!is_facing(&f, &o, &pos(1, 0, 0), 0));
    assert!(is_facing(&f, &o, &pos(1, 0, 0), -1));
    // Straight behind: cosine -1 exceeds no threshold.
    assert!(!is_facing(&f, &o, &pos(0, 0, -1), -1000));
    assert!(!is_facing(&f, &o, &pos(0, 0, -1), -999));
    // Behind at 135 degrees: cosine about -0.7071.
    assert!(is_facing(&f, &o, &pos(1, 0, -1), -708));
    assert!(!is_facing(&f, &o, &pos(1, 0, -1), -700));
    // Zero vectors count as cosine zero.
    assert!(!is_facing(&f, &o, &o, 700));
    assert!(is_facing(&f, &o, &o, -1));
    assert!(!is_facing(&Direction { x: 0, y: 0, z: 0 }, &o, &pos(0, 0, 1), 0));
    // Extreme values do not overflow.
    let big = Direction { x: i16::MIN, y: i16::MIN, z: i16::MIN };
    assert!(is_facing(&big, &pos(i32::MAX, i32::MAX, i32::MAX), &pos(i32::MIN, i32::MIN, i32::MIN), 999));
    assert!(!is_facing(&big, &pos(i32::MIN, i32::MIN, i32::MIN), &pos(i32::MAX, i32::MAX, i32::MAX), -999));
}

#[test]
fn inventory_counts_and_cap() {
    let mut inv = PlayerInventory::new(2);
    assert_eq!(inv.get(ResourceType::Stone), 0);
    assert!(inv.has_headroom(ResourceType::Stone));
    assert_eq!(inv.increment(ResourceType::Stone), 1);
    assert_eq!(inv.increment(ResourceType::Stone), 2);
    assert!(!inv.has_headroom(ResourceType::Stone));
    assert_eq!(inv.get(ResourceType::Wood), 0);
    assert_eq!(inv.get(ResourceType::Ore), 0);
    assert!(!PlayerInventory::new(0).has_headroom(ResourceType::Ore));
}

#[test]
fn cooldown_ticks_and_resets() {
    let mut c = Cooldown::new(10);
    assert!(c.finished());
    c.reset();
    assert_eq!(c.remaining, 10);
    assert!(!c.finished());
    c.tick(4);
    assert_eq!(c.remaining, 6);
    c.tick(100);
    assert_eq!(c.remaining, 0);
    assert!(c.finished());
}

#[test]
fn spawned_resources_lie_in_bounds() {
    let mut e = GatherEngine::new(player(2, 700, 0), 10);
    e.add_node(ResourceType::Ore, pos(100, 100, 100));
    e.spawn_resources(20, 10, 20);
    assert_eq!(e.nodes.len(), 31);
    assert_eq!(e.nodes[0], node(ResourceType::Ore, pos(100, 100, 100)));
    for (i, n) in e.nodes.iter().enumerate().skip(1) {
        let kind = if i <= 20 { ResourceType::Wood } else { ResourceType::Stone };
        assert_eq!(n.resource_type, kind);
        assert!(n.active);
        assert_eq!(n.position.y, 0);
        assert!(-20 <= n.position.x && n.position.x < 20);
        assert!(-20 <= n.position.z && n.position.z < 20);
    }
    let mut tight = GatherEngine::new(player(2, 700, 0), 10);
    tight.spawn_resources(5, 0, 1);
    for n in tight.nodes.iter() {
        assert!(n.position.x == -1 || n.position.x == 0);
    }
}
