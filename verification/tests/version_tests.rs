use std::marker::PhantomData;

use ayagami::error::ParseError;
use ayagami::model::ParsedModel;
use ayagami::types::{Idx, OptIdx};
use ayagami::version::{Pass, Version, NUM_PASSES};

#[test]
fn version_bytes_one_to_six() {
    assert_eq!(Version::from_repr(0), None);
    assert_eq!(Version::from_repr(1), Some(Version::V3_0));
    assert_eq!(Version::from_repr(4), Some(Version::V4_2));
    assert_eq!(Version::from_repr(6), Some(Version::V5_3));
    assert_eq!(Version::from_repr(7), None);
    for b in 1u8..=6 {
        assert_eq!(Version::from_repr(b).unwrap().repr(), b);
    }
}

#[test]
fn version_names() {
    assert_eq!(Version::V3_0.as_str(), "3.0");
    assert_eq!(Version::V3_3.as_str(), "3.3");
    assert_eq!(Version::V4_0.as_str(), "4.0");
    assert_eq!(Version::V4_2.as_str(), "4.2");
    assert_eq!(Version::V5_0.as_str(), "5.0");
    assert_eq!(Version::V5_3.as_str(), "5.3");
}

#[test]
fn passes_follow_versions_in_order() {
    assert_eq!(Version::V4_2.pass(), Pass::V4_2);
    assert_eq!(Pass::at(4), Pass::V4_2A);
    assert_eq!(Pass::at(NUM_PASSES - 1), Pass::Internal);
    for i in 0..NUM_PASSES {
        assert_eq!(Pass::at(i).index(), i);
    }
    let versions = [Version::V3_0, Version::V3_3, Version::V4_0, Version::V4_2, Version::V5_0, Version::V5_3];
    for a in versions {
        for b in versions {
            assert_eq!(a.repr() <= b.repr(), a.pass().le(&b.pass()));
        }
    }
    assert!(Pass::Base.le(&Pass::V3_0));
    assert!(!Pass::Internal.le(&Pass::V5_3));
}

#[test]
fn load_counts_fills_the_classes_of_a_pass_in_file_order() {
    let mut m = ParsedModel::default();
    let counts: Vec<u32> = (1..=32).collect();
    m.load_counts(Pass::V3_0, &counts);
    assert_eq!(m.part.raw_count, 1);
    assert_eq!(m.deformer.raw_count, 2);
    assert_eq!(m.keypoint.raw_count, 15);
    assert_eq!(m.glue_form.raw_count, 23);
    assert_eq!(m.multiply_color.raw_count, 0);
    m.load_counts(Pass::V4_2, &counts);
    assert_eq!(m.multiply_color.raw_count, 24);
    assert_eq!(m.blend_weight_limit_point.raw_count, 32);
    assert_eq!(m.part_blend_form_maps.raw_count, 0);
}

#[test]
fn optional_index_word_round_trip() {
    let none: OptIdx<()> = OptIdx::from_index(None);
    assert_eq!(none.0, -1);
    assert!(none.to_index().is_none());
    let some: OptIdx<()> = OptIdx::from_index(Some(Idx::new(7)));
    assert_eq!(some.0, 7);
    assert_eq!(some.to_index().unwrap().0, 7);
    let stored: OptIdx<()> = OptIdx(12, PhantomData);
    assert_eq!(OptIdx::<()>::from_index(stored.to_index()).0, 12);
}

#[test]
fn primitive_counts_must_fill_whole_items() {
    let mut m = ParsedModel::default();
    m.vertex_coord.raw_count = 10;
    assert_eq!(m.vertex_coord.item_count(), Ok(5));
    m.vertex_coord.raw_count = 7;
    assert_eq!(
        m.vertex_coord.item_count(),
        Err(ParseError::UnalignedItemCount("VertexCoord", 7, 2))
    );
    m.tex_coord.raw_count = 3;
    assert_eq!(m.tex_coord.item_count(), Err(ParseError::UnalignedItemCount("TexCoord", 3, 2)));
    m.keypoint.raw_count = 3;
    assert_eq!(m.keypoint.item_count(), Ok(3));
}
