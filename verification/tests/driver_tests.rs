use std::marker::PhantomData;

use ayagami::classes::{BlendConfig, DrawItemType};
use ayagami::driver::{
    collect_drawgroup, corner_form_indices, propagate_glue_updates, sort_by_key, DrawNode, DriverError,
};
use ayagami::model::{DrawGroupView, ParsedModel};
use ayagami::types::{Idx, ObjectView, OptIdx, RawF32, U32Pair};

#[test]
fn sort_by_key_is_stable() {
    assert_eq!(sort_by_key(&[3, 1, 2, 1]), vec![1, 3, 2, 0]);
    assert_eq!(sort_by_key(&[]), Vec::<usize>::new());
    assert_eq!(sort_by_key(&[5, 5, 5]), vec![0, 1, 2]);
    assert_eq!(sort_by_key(&[u32::MAX, 0]), vec![1, 0]);
}

#[test]
fn driver_error_messages() {
    assert_eq!(
        DriverError::ParameterNotFound("ParamAngleX".to_string()).message(),
        "Parameter ParamAngleX does not exist"
    );
    assert_eq!(DriverError::PartNotFound("#3".to_string()).message(), "Part #3 does not exist");
}

fn some<C>(i: i32) -> OptIdx<C> {
    OptIdx(i, PhantomData)
}

fn none<C>() -> OptIdx<C> {
    OptIdx(-1, PhantomData)
}

/// Two art meshes and two parts: the root group holds mesh 0, part 0 (drawn offscreen, its
/// group holds mesh 1) and part 1 (drawn in place, its group is empty).
fn draw_model() -> ParsedModel {
    let mut m = ParsedModel::default();
    m.param_map_set.raw_count = 1;
    m.param_map_set.i_refs = vec![Idx::new(0)];
    m.param_map_set.cnt_refs = vec![0];

    m.part.raw_count = 2;
    m.part.hdr = vec![U32Pair(0, 0); 2];
    m.part.id = vec!["P0".to_string(), "P1".to_string()];
    m.part.i_param_map_set = vec![Idx::new(0); 2];
    m.part.i_forms = vec![Idx::new(0); 2];
    m.part.cnt_forms = vec![0; 2];
    m.part.visible_artmeshes = vec![true; 2];
    m.part.visible_deformers = vec![true; 2];
    m.part.i_parent = vec![none(), none()];
    m.part.i_offscreen_part = vec![some(0), none()];
    m.part.i_blend_form_maps = vec![none(), none()];

    m.offscreen_part.raw_count = 1;
    m.offscreen_part.unk_zeros = vec![0];
    m.offscreen_part.i_part = vec![Idx::new(0)];
    m.offscreen_part.render_config = vec![0];
    m.offscreen_part.blend_config = vec![BlendConfig::default()];
    m.offscreen_part.i_clips = vec![Idx::new(0)];
    m.offscreen_part.cnt_clips = vec![0];
    m.offscreen_part.i_blend_form_maps = vec![none()];

    m.art_mesh.raw_count = 2;
    m.art_mesh.hdr = vec![U32Pair(0, 0); 2];
    m.art_mesh.unk_a = vec![U32Pair(0, 0); 2];
    m.art_mesh.unk_b = vec![U32Pair(0, 0); 2];
    m.art_mesh.unk_c = vec![U32Pair(0, 0); 2];
    m.art_mesh.id = vec!["M0".to_string(), "M1".to_string()];
    m.art_mesh.i_param_map_set = vec![Idx::new(0); 2];
    m.art_mesh.i_forms = vec![Idx::new(0); 2];
    m.art_mesh.cnt_forms = vec![0; 2];
    m.art_mesh.unk_flag1 = vec![false; 2];
    m.art_mesh.visible = vec![true; 2];
    m.art_mesh.i_part = vec![some(0), some(0)];
    m.art_mesh.i_deformer = vec![none(), none()];
    m.art_mesh.texture = vec![0; 2];
    m.art_mesh.render_config = vec![0; 2];
    m.art_mesh.vertex_count = vec![0; 2];
    m.art_mesh.i_texcoord_start = vec![Idx::new(0); 2];
    m.art_mesh.i_indices = vec![Idx::new(0); 2];
    m.art_mesh.cnt_indices = vec![0; 2];
    m.art_mesh.i_clips = vec![Idx::new(0); 2];
    m.art_mesh.cnt_clips = vec![0; 2];
    m.art_mesh.i_color_forms = vec![0; 2];
    m.art_mesh.blend_config = vec![BlendConfig::default(); 2];
    m.art_mesh.i_blend_form_maps = vec![none(), none()];

    m.draw_group.raw_count = 3;
    m.draw_group.i_items = vec![Idx::new(0), Idx::new(3), Idx::new(4)];
    m.draw_group.cnt_items = vec![3, 1, 0];
    m.draw_group.total_artmesh_count = vec![2, 1, 0];
    m.draw_group.max_depth = vec![RawF32(0); 3];
    m.draw_group.min_depth = vec![RawF32(0); 3];

    m.draw_item.raw_count = 4;
    m.draw_item.item_type =
        vec![DrawItemType::ArtMesh, DrawItemType::Part, DrawItemType::Part, DrawItemType::ArtMesh];
    m.draw_item.i_child = vec![0, 0, 1, 1];
    m.draw_item.i_draw_group = vec![none(), some(1), some(2), none()];

    m.tex_coord.raw_count = 2;
    m.tex_coord.values = vec![Default::default()];
    m
}

#[test]
fn draw_order_sorts_by_depth_and_branches_offscreen_parts() {
    let mut m = draw_model();
    m.validate().unwrap();
    let root = DrawGroupView::get(&m, Idx::new(0)).unwrap();
    let mut branches = Vec::new();
    let mut nodes = Vec::new();
    // Mesh 0 is deepest; part 1 comes before part 0.
    collect_drawgroup(&m, &root, &[5, 0], &[2, 1], &mut branches, &mut nodes);
    assert_eq!(nodes, vec![DrawNode::OffscreenPart(0), DrawNode::ArtMesh(0)]);
    assert_eq!(branches.len(), 1);
    assert_eq!(branches[0].0, 0);
    assert_eq!(branches[0].1, vec![DrawNode::ArtMesh(1)]);
}

#[test]
fn draw_order_keeps_item_order_on_equal_depths() {
    let mut m = draw_model();
    m.validate().unwrap();
    let root = DrawGroupView::get(&m, Idx::new(0)).unwrap();
    let mut branches = vec![(0usize, vec![DrawNode::ArtMesh(7)])];
    let mut nodes = vec![DrawNode::ArtMesh(9)];
    collect_drawgroup(&m, &root, &[0, 0], &[0, 0], &mut branches, &mut nodes);
    assert_eq!(nodes, vec![DrawNode::ArtMesh(9), DrawNode::ArtMesh(0), DrawNode::OffscreenPart(0)]);
    assert_eq!(branches, vec![(0usize, vec![DrawNode::ArtMesh(1)])]);
}

#[test]
fn negative_depths_sort_last() {
    let mut m = draw_model();
    m.validate().unwrap();
    let root = DrawGroupView::get(&m, Idx::new(0)).unwrap();
    let mut branches = Vec::new();
    let mut nodes = Vec::new();
    collect_drawgroup(&m, &root, &[-1, 0], &[3, 3], &mut branches, &mut nodes);
    assert_eq!(nodes, vec![DrawNode::OffscreenPart(0), DrawNode::ArtMesh(0)]);
}

#[test]
fn glue_updates_spread_along_chains() {
    // Glues 0-1, 1-2 and 3-4; art mesh 2 is updated, so 0 and 1 follow, 3 and 4 do not.
    let mut updated = vec![false, false, true, false, false, false];
    let glues = vec![(0usize, 1usize), (1, 2), (3, 4)];
    propagate_glue_updates(&mut updated, &glues);
    assert_eq!(updated, vec![true, true, true, false, false, false]);
}

#[test]
fn glue_updates_reach_backwards_through_later_glues() {
    // The chain runs against the glue order: 4-3, 3-2, 2-1, 1-0 with 0 updated.
    let mut updated = vec![true, false, false, false, false];
    let glues = vec![(4usize, 3usize), (3, 2), (2, 1), (1, 0)];
    propagate_glue_updates(&mut updated, &glues);
    assert_eq!(updated, vec![true; 5]);
}

#[test]
fn glue_updates_without_glues_change_nothing() {
    let mut updated = vec![false, true, false];
    propagate_glue_updates(&mut updated, &Vec::new());
    assert_eq!(updated, vec![false, true, false]);
}

#[test]
fn corner_indices_count_first_map_fastest() {
    // Two maps of two and three keypoints, the cell starting at keypoints 0 and 1.
    assert_eq!(corner_form_indices(&vec![(2, 0), (3, 1)]), vec![2, 3, 4, 5]);
    // The second map's cell at its last keypoint: the upper corners lie one row further.
    assert_eq!(corner_form_indices(&vec![(2, 1), (3, 2)]), vec![5, 6, 7, 8]);
}

#[test]
fn corner_indices_of_no_maps_and_one_map() {
    assert_eq!(corner_form_indices(&Vec::new()), vec![0]);
    assert_eq!(corner_form_indices(&vec![(4, 2)]), vec![2, 3]);
    assert_eq!(corner_form_indices(&vec![(2, 0), (2, 0), (2, 0)]), vec![0, 1, 2, 3, 4, 5, 6, 7]);
}
