use bevy_triplanar_splatting::barrier::{BarrierState, LoadBarrier};
use bevy_triplanar_splatting::material::TextureId;

fn id(n: u32) -> TextureId {
    TextureId::Index { index: n, generation: 1 }
}

#[test]
fn four_distinct_textures_out_of_order() {
    let (a, b, c, d) = (id(1), id(2), id(3), id(4));
    let mut bar = LoadBarrier::new(&vec![a, b, c, d]);
    assert_eq!(bar.state(), BarrierState::Pending);
    for e in [d, b, a] {
        assert!(bar.check_loaded(&e));
        assert!(!bar.all_loaded());
        assert_eq!(bar.state(), BarrierState::Pending);
    }
    assert!(bar.check_loaded(&c));
    assert!(bar.all_loaded());
    assert_eq!(bar.state(), BarrierState::Ready);
}

#[test]
fn aliased_textures_marked_by_one_event() {
    let (x, y, z) = (id(10), id(11), id(12));
    // base color, emissive, normal map, occlusion
    let mut bar = LoadBarrier::new(&vec![x, x, y, z]);
    let t = bar.poll(&vec![x]);
    assert_eq!(t.reconfigure, vec![x]);
    assert!(!t.spawn);
    assert!(!bar.all_loaded());
    let t = bar.poll(&vec![y]);
    assert!(!t.spawn);
    assert!(!bar.all_loaded());
    let t = bar.poll(&vec![z]);
    assert!(t.spawn);
    assert!(bar.all_loaded());
    assert_eq!(bar.state(), BarrierState::Spawned);
}

#[test]
fn aliased_slots_need_no_second_event() {
    let (x, y) = (id(1), TextureId::Uuid(77));
    let mut bar = LoadBarrier::new(&vec![x, y, x]);
    assert!(bar.check_loaded(&y));
    assert!(!bar.all_loaded());
    assert!(bar.check_loaded(&x));
    assert!(bar.all_loaded());
}

#[test]
fn every_permutation_loads_all() {
    let ids = [id(1), id(2), id(3)];
    let perms = [[0, 1, 2], [0, 2, 1], [1, 0, 2], [1, 2, 0], [2, 0, 1], [2, 1, 0]];
    for p in perms {
        let mut bar = LoadBarrier::new(&vec![ids[0], ids[1], ids[2], ids[1]]);
        let events: Vec<TextureId> = p.iter().map(|k| ids[*k]).collect();
        let t = bar.poll(&events);
        assert!(t.spawn);
        assert!(bar.all_loaded());
    }
}

#[test]
fn duplicate_event_changes_nothing_more() {
    let (a, b) = (id(1), id(2));
    let mut bar = LoadBarrier::new(&vec![a, b]);
    assert!(bar.check_loaded(&a));
    let state = bar.state();
    let loaded = bar.all_loaded();
    assert!(bar.check_loaded(&a));
    assert_eq!(bar.state(), state);
    assert_eq!(bar.all_loaded(), loaded);
    assert!(!bar.all_loaded());
}

#[test]
fn unknown_event_is_ignored() {
    let mut bar = LoadBarrier::new(&vec![id(1)]);
    assert!(!bar.check_loaded(&id(2)));
    assert!(!bar.check_loaded(&TextureId::Uuid(1)));
    assert_eq!(bar.state(), BarrierState::Pending);
    let t = bar.poll(&vec![id(3), id(1), id(4), id(1)]);
    assert_eq!(t.reconfigure, vec![id(1), id(1)]);
    assert!(t.spawn);
}

#[test]
fn spawn_only_when_ready_and_only_once() {
    let a = id(1);
    let mut bar = LoadBarrier::new(&vec![a]);
    assert!(!bar.mark_spawned());
    assert_eq!(bar.state(), BarrierState::Pending);
    bar.check_loaded(&a);
    assert_eq!(bar.state(), BarrierState::Ready);
    assert!(bar.mark_spawned());
    assert_eq!(bar.state(), BarrierState::Spawned);
    assert!(!bar.mark_spawned());
    assert_eq!(bar.state(), BarrierState::Spawned);
    bar.check_loaded(&a);
    assert_eq!(bar.state(), BarrierState::Spawned);
    let t = bar.poll(&vec![a]);
    assert!(t.reconfigure.is_empty());
    assert!(!t.spawn);
    assert_eq!(bar.state(), BarrierState::Spawned);
}

#[test]
fn poll_before_any_event_waits() {
    let mut bar = LoadBarrier::new(&vec![id(1), id(2)]);
    let t = bar.poll(&vec![]);
    assert!(t.reconfigure.is_empty());
    assert!(!t.spawn);
    assert_eq!(bar.state(), BarrierState::Pending);
}

#[test]
fn empty_barrier_is_ready() {
    let mut bar = LoadBarrier::new(&vec![]);
    assert!(bar.all_loaded());
    assert_eq!(bar.state(), BarrierState::Ready);
    assert!(bar.poll(&vec![]).spawn);
}
