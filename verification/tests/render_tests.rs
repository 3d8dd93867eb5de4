use ayagami::classes::{AlphaBlendMode, BlendConfig, ColorBlendMode};
use ayagami::driver::DrawNode;
use ayagami::frame::{plan_frame, FrameEvent, FrameLayout, FramePath, FrameState};
use ayagami::render::{
    blend_state_for, group_clip_sets, shader_entry, writes_alpha, BlendComponent, BlendFactor, BlendOperation,
    BlendState, ClipSetEntry, ShaderEntry,
};

fn comp(src: BlendFactor, dst: BlendFactor) -> BlendComponent {
    BlendComponent { src_factor: src, dst_factor: dst, operation: BlendOperation::Add }
}

fn cfg(color: ColorBlendMode, alpha: AlphaBlendMode) -> BlendConfig {
    BlendConfig { color, alpha, pad: 0 }
}

#[test]
fn blend_states_per_mode() {
    let over = comp(BlendFactor::One, BlendFactor::OneMinusSrcAlpha);
    assert_eq!(
        blend_state_for(cfg(ColorBlendMode::Normal, AlphaBlendMode::Over)),
        BlendState { color: over, alpha: over }
    );
    assert_eq!(
        blend_state_for(cfg(ColorBlendMode::PremultAdd, AlphaBlendMode::Over)),
        BlendState {
            color: comp(BlendFactor::One, BlendFactor::One),
            alpha: comp(BlendFactor::Zero, BlendFactor::One)
        }
    );
    assert_eq!(
        blend_state_for(cfg(ColorBlendMode::PremultMultiply, AlphaBlendMode::Over)),
        BlendState {
            color: comp(BlendFactor::Dst, BlendFactor::OneMinusSrcAlpha),
            alpha: comp(BlendFactor::Zero, BlendFactor::One)
        }
    );
    let replace = comp(BlendFactor::One, BlendFactor::Zero);
    assert_eq!(
        blend_state_for(cfg(ColorBlendMode::Normal, AlphaBlendMode::Atop)),
        BlendState { color: replace, alpha: replace }
    );
    assert_eq!(
        blend_state_for(cfg(ColorBlendMode::Add, AlphaBlendMode::Over)),
        BlendState { color: replace, alpha: replace }
    );
}

#[test]
fn write_masks_and_shader_entries() {
    assert!(!writes_alpha(cfg(ColorBlendMode::PremultAdd, AlphaBlendMode::Over)));
    assert!(!writes_alpha(cfg(ColorBlendMode::PremultMultiply, AlphaBlendMode::Over)));
    assert!(writes_alpha(cfg(ColorBlendMode::Normal, AlphaBlendMode::Over)));
    assert_eq!(shader_entry(cfg(ColorBlendMode::Normal, AlphaBlendMode::Over), false), ShaderEntry::Normal);
    assert_eq!(shader_entry(cfg(ColorBlendMode::Normal, AlphaBlendMode::Over), true).name(), "fs_normal_mask");
    assert_eq!(shader_entry(cfg(ColorBlendMode::Add, AlphaBlendMode::Over), false).name(), "fs_advanced");
    assert_eq!(shader_entry(cfg(ColorBlendMode::Add, AlphaBlendMode::Over), true), ShaderEntry::AdvancedMask);
}

#[test]
fn clip_lists_share_sets_in_order_of_first_use() {
    let lists = vec![vec![3, 1], vec![], vec![2], vec![3, 1], vec![1, 3], vec![2]];
    let (uses, sets) = group_clip_sets(&lists);
    assert_eq!(uses, vec![Some(0), None, Some(1), Some(0), Some(2), Some(1)]);
    assert_eq!(
        sets,
        vec![
            ClipSetEntry { targets: vec![3, 1], use_count: 2 },
            ClipSetEntry { targets: vec![2], use_count: 2 },
            ClipSetEntry { targets: vec![1, 3], use_count: 1 },
        ]
    );
    let (uses, sets) = group_clip_sets(&Vec::new());
    assert!(uses.is_empty() && sets.is_empty());
}

fn frame_layout() -> FrameLayout {
    // Art mesh 0 at the top level; offscreen part 0 holds art mesh 1. Clip set 0 lists art
    // mesh 0; clip set 1 lists both and masks the offscreen part.
    FrameLayout {
        root: vec![DrawNode::ArtMesh(0), DrawNode::OffscreenPart(0)],
        branches: vec![(0usize, vec![DrawNode::ArtMesh(1)])],
        am_clip_set: vec![None, Some(0)],
        part_clip_set: vec![Some(1)],
        clip_targets: vec![vec![0], vec![0, 1]],
        needs_offscreen: false,
        has_offscreen_parts: true,
    }
}

fn quiet_event() -> FrameEvent {
    FrameEvent {
        mask_resized: false,
        transform_changed: false,
        am_updated: vec![false, false],
        am_visible: vec![true, true],
        am_opaque: vec![true, false],
        part_drawn: vec![true],
    }
}

#[test]
fn first_frame_counts_clip_uses_through_offscreen_parts() {
    let lay = frame_layout();
    let mut st = FrameState {
        am_dirty: vec![false, false],
        clip_dirty: vec![false, false],
        clip_queued: vec![false, false],
        model_queued: false,
    };
    let mut ev = quiet_event();
    ev.mask_resized = true;
    ev.am_updated = vec![true, true];
    let plan = plan_frame(&lay, &mut st, &ev);
    assert!(plan.proceed);
    assert_eq!(plan.clip_use, vec![0, 1]);
    assert_eq!(plan.am_clip_use, vec![1, 1]);
    assert_eq!(plan.upload_uniform, vec![true, false]);
    assert_eq!(plan.upload_vertices, vec![true, true]);
    assert_eq!(plan.redraw_clip, vec![false, true]);
    assert_eq!(plan.path, FramePath::Children);
    assert!(plan.changed);
    assert_eq!(st.am_dirty, vec![false, false]);
    assert_eq!(st.clip_dirty, vec![true, true]);
    assert_eq!(st.clip_queued, vec![false, true]);
    assert!(st.model_queued);
}

#[test]
fn quiet_frame_is_skipped_but_keeps_marks() {
    let lay = frame_layout();
    let mut st = FrameState {
        am_dirty: vec![false, false],
        clip_dirty: vec![false, false],
        clip_queued: vec![false, false],
        model_queued: false,
    };
    let plan = plan_frame(&lay, &mut st, &quiet_event());
    assert!(!plan.proceed);
    assert_eq!(plan.path, FramePath::Skip);
    assert!(!plan.changed);

    // An update of an invisible mesh marks it without drawing the frame.
    let mut ev = quiet_event();
    ev.am_visible = vec![true, false];
    ev.am_updated = vec![false, true];
    let plan = plan_frame(&lay, &mut st, &ev);
    assert!(!plan.proceed);
    assert_eq!(st.am_dirty, vec![false, true]);

    // A queued offscreen render keeps the next frame going.
    st.model_queued = true;
    let plan = plan_frame(&lay, &mut st, &quiet_event());
    assert!(plan.proceed);
    // Art mesh 1 is dirty and in clip set 1, so that mask is redrawn.
    assert_eq!(plan.redraw_clip, vec![false, true]);
    assert_eq!(st.clip_dirty, vec![false, true]);
}

#[test]
fn physics_outputs_need_a_pendulum() {
    assert_eq!(
        ayagami::physics::usable_outputs(&vec![0, 1, 3, 4], 3),
        vec![false, true, true, false]
    );
}
