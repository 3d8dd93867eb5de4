use ayagami::pose::{Descriptor, Key, PoseMap, INFINITY_BITS, NEG_INFINITY_BITS};
use ayagami::types::RawF32;

fn descriptor(key: Key, uid: u64) -> Descriptor {
    Descriptor { key, uid, name: None, min: RawF32(0), max: RawF32(0x3f80_0000), default: RawF32(0) }
}

#[test]
fn keys_compare_by_kind_and_name() {
    assert_eq!(Key::param("A"), Key::from_param("A".to_string()));
    assert_eq!(Key::part("A"), Key::from_part("A".to_string()));
    assert_ne!(Key::param("A"), Key::part("A"));
    assert_ne!(Key::param("A"), Key::param("B"));
    assert_eq!(Key::as_owned(Key::part("Hair")), Key::part("Hair"));
}

#[test]
fn pose_map_finds_what_was_added() {
    let mut m = PoseMap::new();
    assert_eq!(m.len(), 0);
    m.add(descriptor(Key::param("ParamAngleX"), 3));
    m.add(descriptor(Key::part("PartHair"), 7));
    assert_eq!(m.len(), 2);
    let (i, d) = m.get(&Key::part("PartHair")).unwrap();
    assert_eq!(i, 1);
    assert_eq!(d.uid, 7);
    assert!(m.has_key(&Key::param("ParamAngleX")));
    assert!(!m.has_key(&Key::param("PartHair")));
    assert!(m.get(&Key::param("Missing")).is_none());
    assert_eq!(m.index(0).unwrap().uid, 3);
    assert!(m.index(2).is_none());
}

#[test]
fn add_key_gives_unbounded_range() {
    let mut m = PoseMap::default();
    m.add_key(Key::param("Extra"));
    let d = m.index(0).unwrap();
    assert_eq!(d.uid, 0);
    assert!(d.name.is_none());
    assert_eq!(d.min, RawF32(NEG_INFINITY_BITS));
    assert_eq!(d.max, RawF32(INFINITY_BITS));
    assert_eq!(f32::from_bits(d.min.0), f32::NEG_INFINITY);
    assert_eq!(f32::from_bits(d.default.0), 0.0);
}

#[test]
fn keys_and_iter_follow_insertion_order() {
    let mut m = PoseMap::new();
    m.add(descriptor(Key::param("B"), 1));
    m.add(descriptor(Key::param("A"), 2));
    let keys = m.keys();
    assert_eq!(*keys[0], Key::param("B"));
    assert_eq!(*keys[1], Key::param("A"));
    let pairs = m.iter();
    assert_eq!(pairs[1].1.uid, 2);
    assert_eq!(m.descriptors().len(), 2);
    let c = m.clone();
    assert_eq!(c.len(), 2);
    assert_eq!(c.index(1).unwrap().key, Key::param("A"));
}

#[test]
fn parameter_keys_order_before_part_keys() {
    assert!(Key::param("Zz") < Key::part("Aa"));
    assert!(Key::part("A") > Key::param("ZZZ"));
    assert!(Key::param("ParamA") < Key::param("ParamB"));
    assert!(Key::part("ab") < Key::part("abc"));
    assert_eq!(Key::part("x").partial_cmp(&Key::part("x")), Some(std::cmp::Ordering::Equal));
    assert_eq!(Key::param("é").cmp(&Key::param("z")), Key::param("é").partial_cmp(&Key::param("z")).unwrap());
    assert!(Key::param("z") < Key::param("é"));
}
