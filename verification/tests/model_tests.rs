use std::marker::PhantomData;

use ayagami::classes::{
    AlphaBlendMode, BlendConfig, ColorBlendMode, DeformerType, DrawItemType, ParamSnapType,
};
use ayagami::error::ParseError;
use ayagami::model::{ArtMeshView, DeformerView, DrawGroupView, GlueView, ParsedModel, PartFormView, PartView};
use ayagami::pose::{Key, PoseMap, ONE_BITS};
use ayagami::driver::{param_uid_by_id, part_uid_by_id, DrawNode, DriverError};
use ayagami::render::needs_offscreen;
use ayagami::refs::check_part_refs;
use ayagami::types::{Coord, Idx, ObjectView, OptIdx, RawF32, U32Pair};
use ayagami::views::{DrawEntry, GlueVertex, TypedDeformerView};

fn some<C>(i: i32) -> OptIdx<C> {
    OptIdx(i, PhantomData)
}

fn none<C>() -> OptIdx<C> {
    OptIdx(-1, PhantomData)
}

fn f(v: f32) -> RawF32 {
    RawF32(v.to_bits())
}

/// One part with six forms over two parameter maps (two and three keypoints), one
/// parameter, one warp deformer, one art mesh, one glue and a draw group holding the art
/// mesh and the part.
fn sample_model() -> ParsedModel {
    let mut m = ParsedModel::default();

    m.keypoint.raw_count = 5;
    m.keypoint.values = vec![f(0.0), f(1.0), f(-1.0), f(0.0), f(1.0)];

    m.param_map.raw_count = 2;
    m.param_map.i_keypoints = vec![Idx::new(0), Idx::new(2)];
    m.param_map.cnt_keypoints = vec![2, 3];

    m.param_map_ref.raw_count = 2;
    m.param_map_ref.i_map = vec![Idx::new(0), Idx::new(1)];

    m.param_map_set.raw_count = 1;
    m.param_map_set.i_refs = vec![Idx::new(0)];
    m.param_map_set.cnt_refs = vec![2];

    m.part.raw_count = 1;
    m.part.hdr = vec![U32Pair(0, 0)];
    m.part.id = vec!["PartA".to_string()];
    m.part.i_param_map_set = vec![Idx::new(0)];
    m.part.i_forms = vec![Idx::new(0)];
    m.part.cnt_forms = vec![6];
    m.part.visible_artmeshes = vec![true];
    m.part.visible_deformers = vec![true];
    m.part.i_parent = vec![none()];
    m.part.i_offscreen_part = vec![none()];
    m.part.i_blend_form_maps = vec![none()];

    m.part_form.raw_count = 6;
    m.part_form.depth = vec![f(0.0); 6];
    m.part_form.i_offscreen = vec![none(); 6];

    m.param.raw_count = 1;
    m.param.hdr = vec![U32Pair(0, 0)];
    m.param.id = vec!["ParamA".to_string()];
    m.param.max = vec![f(1.0)];
    m.param.min = vec![f(-1.0)];
    m.param.default = vec![f(0.0)];
    m.param.repeat = vec![false];
    m.param.snap_type = vec![ParamSnapType::Normal];
    m.param.i_maps = vec![Idx::new(0)];
    m.param.cnt_maps = vec![1];
    m.param.unk_zero_2 = vec![U32Pair(0, 0)];
    m.param.i_keypoints = vec![Idx::new(2)];
    m.param.cnt_keypoints = vec![3];
    m.param.blendshape = vec![false];
    m.param.i_blend_maps = vec![Idx::new(0)];
    m.param.cnt_blend_maps = vec![0];

    m.deformer.raw_count = 1;
    m.deformer.hdr = vec![U32Pair(0, 0)];
    m.deformer.id = vec!["Warp1".to_string()];
    m.deformer.i_param_map_set = vec![Idx::new(0)];
    m.deformer.unk_flag1 = vec![false];
    m.deformer.visible = vec![true];
    m.deformer.i_part = vec![some(0)];
    m.deformer.i_parent = vec![none()];
    m.deformer.deformer_type = vec![DeformerType::Warp];
    m.deformer.i_typed = vec![0];

    m.warp_deformer.raw_count = 1;
    m.warp_deformer.i_param_map_set = vec![Idx::new(0)];
    m.warp_deformer.i_forms = vec![Idx::new(0)];
    m.warp_deformer.cnt_forms = vec![0];
    m.warp_deformer.vertex_count = vec![12];
    m.warp_deformer.y_divs = vec![3];
    m.warp_deformer.x_divs = vec![2];
    m.warp_deformer.bilinear_interpolation = vec![false];
    m.warp_deformer.i_color_forms = vec![0];
    m.warp_deformer.i_deformer = vec![some(0)];
    m.warp_deformer.i_blend_form_maps = vec![none()];

    m.tex_coord.raw_count = 8;
    m.tex_coord.values = vec![Coord::default(); 4];
    m.vertex_index.raw_count = 3;
    m.vertex_index.values = vec![0, 1, 2];

    m.art_mesh_ref.raw_count = 2;
    m.art_mesh_ref.i_artmesh = vec![some(0), none()];

    m.art_mesh.raw_count = 1;
    m.art_mesh.hdr = vec![U32Pair(0, 0)];
    m.art_mesh.unk_a = vec![U32Pair(0, 0)];
    m.art_mesh.unk_b = vec![U32Pair(0, 0)];
    m.art_mesh.unk_c = vec![U32Pair(0, 0)];
    m.art_mesh.id = vec!["Mesh1".to_string()];
    m.art_mesh.i_param_map_set = vec![Idx::new(0)];
    m.art_mesh.i_forms = vec![Idx::new(0)];
    m.art_mesh.cnt_forms = vec![0];
    m.art_mesh.unk_flag1 = vec![false];
    m.art_mesh.visible = vec![true];
    m.art_mesh.i_part = vec![some(0)];
    m.art_mesh.i_deformer = vec![some(0)];
    m.art_mesh.texture = vec![0];
    m.art_mesh.render_config = vec![0x4];
    m.art_mesh.vertex_count = vec![3];
    m.art_mesh.i_texcoord_start = vec![Idx::new(4)];
    m.art_mesh.i_indices = vec![Idx::new(0)];
    m.art_mesh.cnt_indices = vec![3];
    m.art_mesh.i_clips = vec![Idx::new(0)];
    m.art_mesh.cnt_clips = vec![2];
    m.art_mesh.i_color_forms = vec![0];
    m.art_mesh.blend_config = vec![BlendConfig::default()];
    m.art_mesh.i_blend_form_maps = vec![none()];

    m.glue_coord.raw_count = 4;
    m.glue_coord.weight = vec![f(0.25), f(0.75), f(0.5), f(0.5)];
    m.glue_coord.vertex_index = vec![1, 2, 0, 2];

    m.glue.raw_count = 1;
    m.glue.hdr = vec![U32Pair(0, 0)];
    m.glue.id = vec!["Glue1".to_string()];
    m.glue.i_param_map_set = vec![Idx::new(0)];
    m.glue.i_forms = vec![Idx::new(0)];
    m.glue.cnt_forms = vec![0];
    m.glue.i_artmesh_1 = vec![Idx::new(0)];
    m.glue.i_artmesh_2 = vec![Idx::new(0)];
    m.glue.i_coords = vec![Idx::new(0)];
    m.glue.cnt_coords = vec![4];
    m.glue.i_blend_form_maps = vec![none()];

    m.draw_group.raw_count = 2;
    m.draw_group.i_items = vec![Idx::new(0), Idx::new(2)];
    m.draw_group.cnt_items = vec![2, 0];
    m.draw_group.total_artmesh_count = vec![1, 0];
    m.draw_group.max_depth = vec![f(1.0), f(0.0)];
    m.draw_group.min_depth = vec![f(0.0), f(0.0)];

    m.draw_item.raw_count = 2;
    m.draw_item.item_type = vec![DrawItemType::ArtMesh, DrawItemType::Part];
    m.draw_item.i_child = vec![0, 0];
    m.draw_item.i_draw_group = vec![none(), some(1)];

    m.root_draw_group = Some(Idx::new(0));
    m
}

#[test]
fn validate_accepts_consistent_model_and_opens_counts() {
    let mut m = sample_model();
    assert_eq!(m.part.count, 0);
    assert_eq!(m.validate(), Ok(()));
    assert_eq!(m.part.count, 1);
    assert_eq!(m.part_form.count, 6);
    assert_eq!(m.draw_item.count, 2);
    assert_eq!(m.post_validate(), Ok(()));
}

#[test]
fn validate_reports_reference_out_of_range() {
    let mut m = sample_model();
    m.part.i_param_map_set = vec![Idx::new(5)];
    assert_eq!(m.validate(), Err(ParseError::InvalidReference("Part.param_map_set", 0)));
    assert_eq!(m.part.count, 0);

    let mut m = sample_model();
    m.art_mesh.cnt_clips = vec![3];
    assert_eq!(m.validate(), Err(ParseError::InvalidReference("ArtMesh.clips", 0)));

    let mut m = sample_model();
    m.deformer.i_parent = vec![some(1)];
    assert_eq!(m.validate(), Err(ParseError::InvalidReference("Deformer.parent", 0)));
}

#[test]
fn validate_reports_nonzero_header() {
    let mut m = sample_model();
    m.part.hdr = vec![U32Pair(0, 1)];
    assert_eq!(
        m.validate(),
        Err(ParseError::ValidationError("Part", 0, "*self.f_hdr() == U32Pair(0, 0)".to_string()))
    );
    assert_eq!(m.part.count, 1);
}

#[test]
fn validate_checks_draw_items() {
    let mut m = sample_model();
    m.draw_item.i_draw_group = vec![some(1), some(1)];
    assert_eq!(
        m.validate(),
        Err(ParseError::ValidationError("DrawItem", 0, "self.i_draw_group().get().is_none()".to_string()))
    );
    let mut m = sample_model();
    m.draw_item.i_child = vec![0, 1];
    assert_eq!(
        m.validate(),
        Err(ParseError::ValidationError(
            "DrawItem",
            1,
            "(*self.f_i_child() as usize) < self.model.part.count".to_string()
        ))
    );
}

#[test]
fn validate_allows_typed_index_equal_to_count() {
    let mut m = sample_model();
    m.deformer.i_typed = vec![1];
    assert_eq!(m.validate(), Ok(()));
    let mut m = sample_model();
    m.deformer.i_typed = vec![2];
    assert_eq!(
        m.validate(),
        Err(ParseError::ValidationError(
            "Deformer",
            0,
            "*self.f_i_typed() as usize <= self.model.warp_deformer.count".to_string()
        ))
    );
}

#[test]
fn validate_checks_art_mesh_render_config() {
    let mut m = sample_model();
    m.art_mesh.render_config = vec![0x13];
    assert_eq!(
        m.validate(),
        Err(ParseError::ValidationError("ArtMesh", 0, "(self.f_render_config() >> 4) == 0".to_string()))
    );
    let mut m = sample_model();
    m.art_mesh.render_config = vec![0x3];
    assert_eq!(
        m.validate(),
        Err(ParseError::ValidationError(
            "ArtMesh",
            0,
            "BlendMode::from_repr(self.f_render_config() & 3).is_some()".to_string()
        ))
    );
}

#[test]
fn validate_checks_glue_coordinate_pairs() {
    let mut m = sample_model();
    m.glue.cnt_coords = vec![3];
    assert_eq!(
        m.validate(),
        Err(ParseError::ValidationError("Glue", 0, "self.cnt_coords().is_multiple_of(2)".to_string()))
    );
}

#[test]
fn validate_checks_screen_colors_are_finite() {
    let mut m = sample_model();
    m.screen_color.raw_count = 1;
    m.screen_color.r = vec![f(2.0)];
    m.screen_color.g = vec![f(f32::NAN)];
    m.screen_color.b = vec![f(0.0)];
    assert_eq!(
        m.validate(),
        Err(ParseError::ValidationError("ScreenColor", 0, "self.f_g().is_finite()".to_string()))
    );
}

#[test]
fn typed_deformer_names_its_warp() {
    let mut m = sample_model();
    m.validate().unwrap();
    let d = DeformerView::get(&m, Idx::new(0)).unwrap();
    match d.typed() {
        TypedDeformerView::Warp(w) => {
            assert_eq!(w.idx, 0);
            assert_eq!(w.size(), (2, 3));
            assert_eq!(w.vertex_count(), 12);
        }
        TypedDeformerView::Rotation(_) => panic!("expected a warp deformer"),
    }
}

#[test]
fn form_uses_mixed_radix_first_map_fastest() {
    let mut m = sample_model();
    m.validate().unwrap();
    let p = PartView::get(&m, Idx::new(0)).unwrap();
    assert_eq!(p.form(&[1, 2]).unwrap().0.idx, 5);
    assert_eq!(p.form(&[0, 1]).unwrap().0.idx, 2);
    assert_eq!(p.form(&[1, 0]).unwrap().0.idx, 1);
    assert_eq!(p.form(&[1, 0]).unwrap().0.parent, Some(0));
    // An index equal to its map's count is still accepted.
    assert_eq!(p.form(&[2, 0]).unwrap().0.idx, 2);
    assert!(p.form(&[3, 0]).is_none());
    assert!(p.form(&[0, 3]).is_none());
    let maps = p.param_maps();
    assert_eq!(maps.len(), 2);
    assert_eq!(maps[1].0.idx, 1);
}

#[test]
fn draw_group_items_in_order() {
    let mut m = sample_model();
    m.validate().unwrap();
    let g = m.root_draw_group().unwrap();
    let items = g.0.items();
    assert_eq!(items.len(), 2);
    match &items[0] {
        DrawEntry::ArtMesh(a) => assert_eq!(a.0.idx, 0),
        DrawEntry::Part(_) => panic!("expected an art mesh"),
    }
    match &items[1] {
        DrawEntry::Part(p) => {
            assert_eq!(p.part.0.idx, 0);
            assert_eq!(p.draw_group.0.idx, 1);
        }
        DrawEntry::ArtMesh(_) => panic!("expected a part"),
    }
    let inner = DrawGroupView::get(&m, Idx::new(1)).unwrap();
    assert!(inner.items().is_empty());
}

#[test]
fn art_mesh_render_flags_and_ranges() {
    let mut m = sample_model();
    m.validate().unwrap();
    let a = ArtMeshView::get(&m, Idx::new(0)).unwrap();
    assert!(!a.culling());
    assert!(!a.invert_mask());
    assert_eq!(a.texcoord_offset(), 2);
    assert_eq!(a.index_range(), 0..3);
    let clips = a.clips();
    assert_eq!(clips.len(), 1);
    assert_eq!(clips[0].0.idx, 0);
    assert_eq!(m.index_buffer(), Some(&[0u16, 1, 2][..]));
}

#[test]
fn glue_coords_come_in_pairs() {
    let mut m = sample_model();
    m.validate().unwrap();
    let g = GlueView::get(&m, Idx::new(0)).unwrap();
    let pairs = g.coords();
    assert_eq!(pairs.len(), 2);
    assert_eq!(pairs[0][0], GlueVertex { weight: f(0.25), vertex_index: 1 });
    assert_eq!(pairs[0][1], GlueVertex { weight: f(0.75), vertex_index: 2 });
    assert_eq!(pairs[1][0], GlueVertex { weight: f(0.5), vertex_index: 0 });
}

#[test]
fn param_keypoints() {
    let mut m = sample_model();
    m.validate().unwrap();
    let p = m.params().index(0).unwrap();
    assert_eq!(p.0.keypoints(), Some(&[f(-1.0), f(0.0), f(1.0)][..]));
    assert_eq!(m.params().count(), 1);
}

#[test]
fn pose_map_lists_params_then_parts() {
    let m = {
        let mut m = sample_model();
        m.validate().unwrap();
        m
    };
    let pm = PoseMap::from_model(&m);
    assert_eq!(pm.len(), 2);
    let (i, d) = pm.get(&Key::param("ParamA")).unwrap();
    assert_eq!(i, 0);
    assert_eq!(d.uid, 0);
    assert_eq!(d.min, f(-1.0));
    assert_eq!(d.max, f(1.0));
    let (j, e) = pm.get(&Key::part("PartA")).unwrap();
    assert_eq!(j, 1);
    assert_eq!(e.default, RawF32(ONE_BITS));
    assert_eq!(e.min, RawF32(0));
    assert!(!pm.has_key(&Key::param("PartA")));
}

/// Adds to the sample an offscreen part for the part, with one blend map that mirrors the
/// part's own blend map.
fn offscreen_model() -> ParsedModel {
    let mut m = sample_model();
    m.part.i_offscreen_part = vec![some(0)];
    m.part.i_blend_form_maps = vec![some(0)];

    m.multiply_color.raw_count = 1;
    m.multiply_color.r = vec![f(1.0)];
    m.multiply_color.g = vec![f(1.0)];
    m.multiply_color.b = vec![f(1.0)];
    m.screen_color.raw_count = 1;
    m.screen_color.r = vec![f(0.0)];
    m.screen_color.g = vec![f(0.0)];
    m.screen_color.b = vec![f(0.0)];

    m.offscreen_part.raw_count = 1;
    m.offscreen_part.unk_zeros = vec![0];
    m.offscreen_part.i_part = vec![Idx::new(0)];
    m.offscreen_part.render_config = vec![0x8 | 1];
    m.offscreen_part.blend_config =
        vec![BlendConfig { color: ColorBlendMode::PremultAdd, alpha: AlphaBlendMode::Over, pad: 0 }];
    m.offscreen_part.i_clips = vec![Idx::new(0)];
    m.offscreen_part.cnt_clips = vec![2];
    m.offscreen_part.i_blend_form_maps = vec![some(0)];

    m.offscreen_part_form.raw_count = 2;
    m.offscreen_part_form.opacity = vec![f(0.5), f(1.0)];
    m.offscreen_part_form.i_multiply_color = vec![Idx::new(0), Idx::new(0)];
    m.offscreen_part_form.i_screen_color = vec![Idx::new(0), Idx::new(0)];
    m.part_form.i_offscreen = vec![some(0), some(1), none(), none(), none(), none()];

    m.blend_param_map.raw_count = 1;
    m.blend_param_map.i_keypoints = vec![Idx::new(0)];
    m.blend_param_map.cnt_keypoints = vec![2];
    m.blend_param_map.neutral_index = vec![0];

    m.blend_form_map.raw_count = 2;
    m.blend_form_map.i_param_map = vec![Idx::new(0), Idx::new(0)];
    m.blend_form_map.i_forms = vec![0, 0];
    m.blend_form_map.cnt_forms = vec![2, 2];
    m.blend_form_map.i_blendweight_limits = vec![Idx::new(0), Idx::new(0)];
    m.blend_form_map.cnt_blendweight_limits = vec![0, 0];

    m.part_blend_form_maps.raw_count = 1;
    m.part_blend_form_maps.i_part = vec![Idx::new(0)];
    m.part_blend_form_maps.i_maps = vec![Idx::new(0)];
    m.part_blend_form_maps.cnt_maps = vec![1];

    m.offscreen_part_blend_form_maps.raw_count = 1;
    m.offscreen_part_blend_form_maps.i_offscreen_part = vec![Idx::new(0)];
    m.offscreen_part_blend_form_maps.i_maps = vec![Idx::new(1)];
    m.offscreen_part_blend_form_maps.cnt_maps = vec![1];
    m
}

#[test]
fn offscreen_blend_maps_mirror_part_maps() {
    let mut m = offscreen_model();
    assert_eq!(m.validate(), Ok(()));
    assert_eq!(m.post_validate(), Ok(()));
    let p = PartView::get(&m, Idx::new(0)).unwrap();
    assert!(p.offscreen());
    assert_eq!(p.blend_config().unwrap().color, ColorBlendMode::PremultAdd);
    assert_eq!(p.invert_mask(), Some(true));
    assert_eq!(p.clips().unwrap().len(), 1);
    let form = PartFormView::get(&m, Idx::new(1)).unwrap();
    assert_eq!(form.opacity(), Some(f(1.0)));
    assert_eq!(form.multiply_color(), Some([f(1.0), f(1.0), f(1.0)]));
}

#[test]
fn post_validate_reports_mismatched_forms() {
    let mut m = offscreen_model();
    m.part_form.i_offscreen = vec![some(0), some(0), none(), none(), none(), none()];
    assert_eq!(m.validate(), Ok(()));
    assert_eq!(
        m.post_validate(),
        Err(ParseError::ValidationError(
            "OffscreenPartBlendFormMaps",
            0,
            "partform.i_offscreen().get() == Some(form.idx)".to_string()
        ))
    );
}

#[test]
fn offscreen_part_render_config_must_repeat_simple_mode() {
    let mut m = offscreen_model();
    m.offscreen_part.render_config = vec![0];
    assert_eq!(
        m.validate(),
        Err(ParseError::ValidationError(
            "OffscreenPart",
            0,
            "self.f_render_config() & 3 == self.f_blend_config().color as u8".to_string()
        ))
    );
}

/// A second part, like the first, so that index checks can meet two bad objects.
fn two_part_model() -> ParsedModel {
    let mut m = sample_model();
    m.part.raw_count = 2;
    m.part.hdr.push(U32Pair(0, 0));
    m.part.id.push("PartB".to_string());
    m.part.i_param_map_set.push(Idx::new(0));
    m.part.i_forms.push(Idx::new(0));
    m.part.cnt_forms.push(6);
    m.part.visible_artmeshes.push(true);
    m.part.visible_deformers.push(true);
    m.part.i_parent.push(none());
    m.part.i_offscreen_part.push(none());
    m.part.i_blend_form_maps.push(none());
    m
}

#[test]
fn reference_check_goes_field_by_field() {
    // Object 0 has a bad parent (a later field), object 1 a bad parameter map set (an
    // earlier field): the earlier field is checked over all objects first.
    let mut m = two_part_model();
    m.part.i_parent[0] = some(9);
    m.part.i_param_map_set[1] = Idx::new(4);
    assert_eq!(check_part_refs(&m), Err(ParseError::InvalidReference("Part.param_map_set", 1)));
    assert_eq!(m.validate(), Err(ParseError::InvalidReference("Part.param_map_set", 1)));

    // Within one field, the first bad object is reported.
    let mut m = two_part_model();
    m.part.i_parent[0] = some(9);
    m.part.i_parent[1] = some(7);
    assert_eq!(check_part_refs(&m), Err(ParseError::InvalidReference("Part.parent", 0)));

    let m = two_part_model();
    assert_eq!(check_part_refs(&m), Ok(()));
}

#[test]
fn object_checks_report_the_first_failing_object() {
    let mut m = two_part_model();
    m.part.hdr[1] = U32Pair(0, 1);
    assert_eq!(
        m.validate(),
        Err(ParseError::ValidationError("Part", 1, "*self.f_hdr() == U32Pair(0, 0)".to_string()))
    );
}

#[test]
fn iterator_walks_the_run_then_stays_empty() {
    let mut m = two_part_model();
    m.validate().unwrap();
    let parts = m.parts();
    assert_eq!(parts.count(), 2);
    let first = parts.index(0).unwrap().0.idx;
    let mut it = m.parts().into_iter();
    assert_eq!(it.next().unwrap().0.idx, first);
    assert_eq!(it.next().unwrap().0.idx, 1);
    assert!(it.next().is_none());
    assert!(it.next().is_none());
}

#[test]
fn pose_map_from_model_checks_ids() {
    let mut m = two_part_model();
    m.validate().unwrap();
    let p = PoseMap::try_from_model(&m).unwrap();
    assert_eq!(p.len(), 3);
    assert!(p.has_key(&Key::part("PartB")));
    let mut m = two_part_model();
    m.part.id[1] = "PartA".to_string();
    m.validate().unwrap();
    assert!(PoseMap::try_from_model(&m).is_none());
}

#[test]
fn names_resolve_to_the_last_object_with_that_id() {
    let mut m = two_part_model();
    m.part.id[1] = "PartA".to_string();
    m.validate().unwrap();
    assert_eq!(param_uid_by_id(&m, "ParamA"), Ok(0));
    assert_eq!(param_uid_by_id(&m, "Nope"), Err(DriverError::ParameterNotFound("Nope".to_string())));
    assert_eq!(part_uid_by_id(&m, "PartA"), Ok(1));
    assert_eq!(part_uid_by_id(&m, "ParamA"), Err(DriverError::PartNotFound("ParamA".to_string())));
}

#[test]
fn offscreen_target_needed_for_advanced_blending() {
    let mut m = sample_model();
    m.validate().unwrap();
    assert!(!needs_offscreen(&m, &vec![DrawNode::ArtMesh(0)]));
    assert!(!needs_offscreen(&m, &Vec::new()));
    m.art_mesh.blend_config[0] =
        BlendConfig { color: ColorBlendMode::Darken, alpha: AlphaBlendMode::Over, pad: 0 };
    assert!(needs_offscreen(&m, &vec![DrawNode::ArtMesh(0)]));
}
