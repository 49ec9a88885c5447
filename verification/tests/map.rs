use std::collections::HashMap;

use bleedthorn::map::MapMap;
use bleedthorn::{idx_to_2d, HashFlt, Vec3};

fn v(x: f32, y: f32, z: f32) -> Vec3 {
    Vec3(HashFlt(x.to_bits()), HashFlt(y.to_bits()), HashFlt(z.to_bits()))
}

#[test]
#[allow(non_snake_case)]
fn add_to_MapMap() {
    let v = v(0.0, 0.0, 0.0);
    let mut m = MapMap::<u8>::new();
    let id = m.add(v, 100);
    let (_, x) = *m.index(id);

    assert_eq!(x, 100);
}

#[test]
fn new_map_is_empty() {
    let m = MapMap::<u8>::new();
    assert_eq!(m.len(), 0);
    assert_eq!(m.1, 0);
}

#[test]
fn add_hands_out_ids_in_order() {
    let mut m = MapMap::<u8>::new();
    assert_eq!(m.add(v(0.0, 0.0, 0.0), 1), 0);
    assert_eq!(m.add(v(1.0, 0.0, 0.0), 2), 1);
    assert_eq!(m.add(v(0.0, 0.0, 0.0), 3), 2);
    assert_eq!(m.len(), 3);
    assert_eq!(*m.index(0), (v(0.0, 0.0, 0.0), 1));
    assert_eq!(*m.index(1), (v(1.0, 0.0, 0.0), 2));
    assert_eq!(*m.index(2), (v(0.0, 0.0, 0.0), 3));
}

#[test]
fn add_skips_ids_in_use() {
    let mut inner = HashMap::new();
    inner.insert(5u64, (v(0.0, 0.0, 0.0), 'a'));
    inner.insert(6u64, (v(0.0, 0.0, 0.0), 'b'));
    let mut m = MapMap(inner, 5);
    assert_eq!(m.add(v(2.0, 0.0, 0.0), 'c'), 7);
    assert_eq!(m.1, 7);
    assert_eq!(m.len(), 3);
}

#[test]
fn add_wraps_around_past_max_to_one() {
    let mut inner = HashMap::new();
    inner.insert(u64::MAX, (v(0.0, 0.0, 0.0), 0u8));
    let mut m = MapMap(inner, u64::MAX);
    /* 0 is free, but the probe goes from u64::MAX straight to 1 */
    assert_eq!(m.add(v(1.0, 0.0, 0.0), 1), 1);
    assert_eq!(m.1, 1);
}

#[test]
fn add_keeps_a_free_counter() {
    let mut m = MapMap::<u8>(HashMap::new(), 42);
    assert_eq!(m.add(v(1.0, 0.0, 0.0), 1), 42);
    assert_eq!(m.1, 42);
}

#[test]
fn add_no_matching_pos_reuses_the_entry_at_a_position() {
    let mut m = MapMap::<u8>::new();
    let a = m.add_no_matching_pos(v(1.0, 2.0, 3.0), 10);
    let b = m.add_no_matching_pos(v(1.0, 2.0, 3.0), 20);
    let c = m.add_no_matching_pos(v(3.0, 2.0, 1.0), 30);
    assert_eq!(a, 0);
    assert_eq!(b, 0);
    assert_eq!(c, 1);
    assert_eq!(m.len(), 2);
    assert_eq!(*m.index(0), (v(1.0, 2.0, 3.0), 10));
    assert_eq!(*m.index(1), (v(3.0, 2.0, 1.0), 30));
}

#[test]
fn add_no_matching_pos_compares_bit_patterns() {
    let mut m = MapMap::<u8>::new();
    let a = m.add_no_matching_pos(v(0.0, 0.0, 0.0), 1);
    let b = m.add_no_matching_pos(v(-0.0, 0.0, 0.0), 2);
    assert_ne!(a, b);
    assert_eq!(m.len(), 2);
}

#[test]
fn index_mut_changes_the_entry_in_place() {
    let mut m = MapMap::<u8>::new();
    let id = m.add(v(0.0, 0.0, 0.0), 1);
    let (_, x) = m.index_mut(id);
    *x = 100;
    assert_eq!(*m.index(id), (v(0.0, 0.0, 0.0), 100));
    assert_eq!(m.len(), 1);
}

#[test]
fn iter_visits_every_entry_once() {
    let mut m = MapMap::<u8>::new();
    m.add(v(0.0, 0.0, 0.0), 1);
    m.add(v(1.0, 0.0, 0.0), 2);
    m.add(v(2.0, 0.0, 0.0), 3);
    let mut seen: Vec<(u64, u8)> = m.iter().map(|(i, (_, x))| (*i, *x)).collect();
    seen.sort();
    assert_eq!(seen, vec![(0, 1), (1, 2), (2, 3)]);
}

#[test]
fn idx_to_2d_counts_row_by_row() {
    assert_eq!(idx_to_2d(0, 50, 50), (0, 0));
    assert_eq!(idx_to_2d(49, 50, 50), (49, 0));
    assert_eq!(idx_to_2d(50, 50, 50), (0, 1));
    assert_eq!(idx_to_2d(99, 50, 50), (49, 1));
}

#[test]
#[allow(non_snake_case)]
fn IndexMut_MapMap() {
    let mut m = MapMap::new();
    let (_, x) = m.index_mut(0);
    *x = 100;

    assert_eq!(*x, 100);
}

#[test]
fn index_mut_on_a_missing_id_adds_a_default_entry() {
    let mut m = MapMap::<u8>::new();
    m.add(v(1.0, 0.0, 0.0), 7);
    let (p, x) = *m.index_mut(5);
    assert_eq!(p, Vec3::zero());
    assert_eq!(x, 0);
    assert_eq!(m.len(), 2);
    assert_eq!(m.1, 0);
    assert_eq!(*m.index(5), (Vec3::zero(), 0));
}

#[test]
fn add_no_matching_pos_twice_gives_the_same_id() {
    let mut inner = HashMap::new();
    inner.insert(3u64, (v(1.0, 0.0, 0.0), 1u8));
    inner.insert(8u64, (v(1.0, 0.0, 0.0), 2u8));
    let mut m = MapMap(inner, 0);
    let a = m.add_no_matching_pos(v(1.0, 0.0, 0.0), 3);
    let b = m.add_no_matching_pos(v(1.0, 0.0, 0.0), 4);
    assert!(a == 3 || a == 8);
    assert_eq!(a, b);
    assert_eq!(m.len(), 2);
}
