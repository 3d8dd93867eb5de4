use std::sync::Arc;

use ayagami::pose::{Descriptor, Key, Pose, PoseMap};
use ayagami::types::RawF32;

fn map_of(keys: &[Key]) -> Arc<PoseMap> {
    let mut m = PoseMap::new();
    for (i, k) in keys.iter().enumerate() {
        m.add(Descriptor {
            key: k.clone(),
            uid: i as u64,
            name: None,
            min: RawF32(0),
            max: RawF32(0),
            default: RawF32(0),
        });
    }
    Arc::new(m)
}

#[test]
fn put_then_get_and_unset() {
    let map = map_of(&[Key::param("A"), Key::param("B")]);
    let mut p: Pose<u32> = Pose::with_map(map);
    assert!(!p.has_value(&Key::param("A")));
    p.put(&Key::param("A"), 7);
    assert_eq!(p.get(&Key::param("A")), Some(&7));
    assert!(p.has_value(&Key::param("A")));
    assert!(!p.has_value(&Key::param("B")));
    p.put(&Key::param("A"), 9);
    assert_eq!(p.get(&Key::param("A")), Some(&9));
    assert_eq!(p.iter().len(), 1);
    p.put(&Key::param("Missing"), 1);
    assert_eq!(p.iter().len(), 1);
    p.unset(&Key::param("A"));
    assert_eq!(p.get(&Key::param("A")), None);
    assert!(p.has_key(&Key::param("A")));
}

#[test]
fn get_mut_changes_in_place() {
    let mut p: Pose<u32> = Pose::with_map(map_of(&[Key::part("P")]));
    assert!(p.get_mut(&Key::part("P")).is_none());
    p.put(&Key::part("P"), 1);
    *p.get_mut(&Key::part("P")).unwrap() = 5;
    assert_eq!(p.get(&Key::part("P")), Some(&5));
}

#[test]
fn iter_all_lists_every_key_in_map_order() {
    let mut p: Pose<u32> = Pose::with_map(map_of(&[Key::param("A"), Key::param("B"), Key::part("C")]));
    p.put(&Key::part("C"), 3);
    let all = p.iter_all();
    assert_eq!(all.len(), 3);
    assert_eq!(*all[0].0, Key::param("A"));
    assert_eq!(all[0].1, None);
    assert_eq!(all[2].1, Some(&3));
    let descs = p.iter_desc_all();
    assert_eq!(descs[2].0.uid, 2);
    assert_eq!(*p.keys()[0], Key::part("C"));
    assert_eq!(p.descriptors()[0].uid, 2);
    assert_eq!(p.iter_desc()[0].1, &3);
}

#[test]
fn add_key_and_put_or_add() {
    let mut p: Pose<u32> = Pose::empty();
    assert!(p.add_key(Key::param("X")));
    assert!(!p.add_key(Key::param("X")));
    assert_eq!(p.map().len(), 1);
    p.put_or_add(Key::param("Y"), 4);
    assert_eq!(p.map().len(), 2);
    assert_eq!(p.get(&Key::param("Y")), Some(&4));
    p.put_or_add(Key::param("X"), 2);
    assert_eq!(p.map().len(), 2);
    assert_eq!(p.get(&Key::param("X")), Some(&2));
}

#[test]
fn apply_on_shared_map_blends_or_creates() {
    let map = map_of(&[Key::param("A"), Key::param("B")]);
    let mut a: Pose<u32> = Pose::with_map(map.clone());
    let mut b: Pose<u32> = Pose::with_map(map);
    a.put(&Key::param("A"), 10);
    b.put(&Key::param("A"), 1);
    b.put(&Key::param("B"), 2);
    a.apply(&b, |x, y| x + y, |y| Some(*y * 100));
    assert_eq!(a.get(&Key::param("A")), Some(&11));
    assert_eq!(a.get(&Key::param("B")), Some(&200));
    let mut c: Pose<u32> = a.clone();
    c.apply(&b, |x, _| *x, |_| None);
    assert_eq!(c.get(&Key::param("B")), Some(&200));
}

#[test]
fn apply_on_other_map_matches_keys() {
    let mut a: Pose<u32> = Pose::with_map(map_of(&[Key::param("B"), Key::param("A")]));
    let mut b: Pose<u32> = Pose::with_map(map_of(&[Key::param("A"), Key::param("C")]));
    a.put(&Key::param("A"), 10);
    b.put(&Key::param("A"), 1);
    b.put(&Key::param("C"), 5);
    a.apply(&b, |x, y| x * 1000 + y, |y| Some(*y));
    assert_eq!(a.get(&Key::param("A")), Some(&10001));
    assert_eq!(a.get(&Key::param("B")), None);
}

#[test]
fn map_mut_copies_a_shared_map() {
    let map = map_of(&[Key::param("A")]);
    let mut p: Pose<u32> = Pose::with_map(map.clone());
    p.put(&Key::param("A"), 3);
    p.map_mut().add_key(Key::param("B"));
    assert!(p.has_key(&Key::param("B")));
    assert!(!map.has_key(&Key::param("B")));
    assert_eq!(map.len(), 1);
    assert_eq!(p.map().len(), 2);
    assert_eq!(p.get(&Key::param("A")), Some(&3));
}

#[test]
fn add_key_leaves_other_poses_on_the_old_map() {
    let map = map_of(&[Key::param("A")]);
    let other: Pose<u32> = Pose::with_map(map.clone());
    let mut p: Pose<u32> = Pose::with_map(map);
    assert!(p.add_key(Key::part("P")));
    assert!(!p.add_key(Key::part("P")));
    assert!(p.has_key(&Key::part("P")));
    assert!(!other.has_key(&Key::part("P")));
}
