use vstd::prelude::*;
use std::ops::Range;
use std::sync::Arc;
use crate::checks::{draw_item_ok, glue_ok};
use crate::pose::PoseMap;
use crate::classes::{BlendConfig, DeformerType, DrawItemType, RENDER_DOUBLE_SIDED, RENDER_INVERT_MASK};
use crate::model::{
    ArtMeshRefView, ArtMeshView, BlendFormMapView, ClassId, DeformerView, MultiplyColorView,
    GlueView, OptIArtMesh, ParamMapSetView, ParamMapView, ParsedModel, PartView, RotDeformerView, ScreenColorView,
    WarpDeformerView, PartFormView, WarpFormView, RotFormView, ArtMeshFormView, GlueFormView, DrawGroupView,
    BlendWeightLimitView, ParamView, BlendParamMapView,
};
use crate::refs::{
    art_mesh_refs_ok_at, art_mesh_ref_refs_ok_at, deformer_refs_ok_at, glue_refs_ok_at, offscreen_part_refs_ok_at,
    param_map_ref_refs_ok_at, param_map_set_refs_ok_at, part_refs_ok_at, rot_deformer_refs_ok_at,
    warp_deformer_refs_ok_at, warp_form_refs_ok_at, rot_form_refs_ok_at, art_mesh_form_refs_ok_at,
    part_form_refs_ok_at, offscreen_part_form_refs_ok_at, draw_group_refs_ok_at, draw_item_refs_ok_at,
    blend_weight_limit_refs_ok_at, param_refs_ok_at, param_map_refs_ok_at, blend_param_map_refs_ok_at,
};
use crate::types::{
    opt_idx_get, ChildView, Color, Coord, Idx, ItemCollection, Object, ObjectView, OptReference, PrivRef, RawF32, RawObject,
    Reference, ViewRef,
};

verus! {

impl<'model> BlendFormMapView<'model> {
    /// The forms of this map, as indices of the form class `T` that its owner uses.
    pub fn range_forms<T: Object>(&self) -> (r: Range<T::Idx>)
        requires
            self.valid(),
            self.model.blend_form_map.i_forms@[self.idx as int] + self.model.blend_form_map.cnt_forms@[
                self.idx as int] * <T::Idx as PrivRef>::spec_stride() <= u32::MAX,
        ensures
            r.start.spec_get() == self.model.blend_form_map.i_forms@[self.idx as int],
            r.end.spec_get() == self.model.blend_form_map.i_forms@[self.idx as int]
                + self.model.blend_form_map.cnt_forms@[self.idx as int] * <T::Idx as PrivRef>::spec_stride(),
    {
        let i = T::Idx::new(self.model.blend_form_map.i_forms[self.idx as usize]);
        let cnt = *self.f_cnt_forms();
        let end = i.offset(cnt);
        Range { start: i, end }
    }

    /// Views of the forms of this map, each carrying this map as its parent.
    pub fn forms_views<T: Object>(&self) -> (r: ItemCollection<'model, T::View<'model>>)
        requires
            self.valid(),
            self.model.blend_form_map.i_forms@[self.idx as int] + self.model.blend_form_map.cnt_forms@[
                self.idx as int] * <T::Idx as PrivRef>::spec_stride() <= u32::MAX,
        ensures
            r.model == self.model,
            r.start == self.model.blend_form_map.i_forms@[self.idx as int],
            r.limit == self.model.blend_form_map.i_forms@[self.idx as int]
                + self.model.blend_form_map.cnt_forms@[self.idx as int] * <T::Idx as PrivRef>::spec_stride(),
            r.parent == Some(self.idx),
    {
        let range = self.range_forms::<T>();
        let mut c = ItemCollection::new(self.model, range.start.get(), range.end.get());
        c.parent = Some(self.idx);
        c
    }
}

/// A deformer seen as what it is: a warp deformer or a rotation deformer.
pub enum TypedDeformerView<'a> {
    Warp(WarpDeformerView<'a>),
    Rotation(RotDeformerView<'a>),
}

impl<'a> DeformerView<'a> {
    /// The warp or rotation deformer that this deformer is, by its type and typed index.
    pub fn typed(&self) -> (r: TypedDeformerView<'a>)
        requires
            self.valid(),
            match self.model.deformer.deformer_type@[self.idx as int] {
                DeformerType::Warp => self.model.deformer.i_typed@[self.idx as int] < self.model.warp_deformer.count,
                DeformerType::Rotation => self.model.deformer.i_typed@[self.idx as int] < self.model.rot_deformer.count,
            },
        ensures
            match r {
                TypedDeformerView::Warp(v) => self.model.deformer.deformer_type@[self.idx as int] == DeformerType::Warp
                    && v.model == self.model && v.idx == self.model.deformer.i_typed@[self.idx as int]
                    && v.parent is None,
                TypedDeformerView::Rotation(v) => self.model.deformer.deformer_type@[self.idx as int]
                    == DeformerType::Rotation && v.model == self.model && v.idx
                    == self.model.deformer.i_typed@[self.idx as int] && v.parent is None,
            },
    {
        let i = *self.f_i_typed();
        match self.f_deformer_type() {
            DeformerType::Warp => TypedDeformerView::Warp(WarpDeformerView::get(self.model, Idx::new(i)).unwrap()),
            DeformerType::Rotation => TypedDeformerView::Rotation(
                RotDeformerView::get(self.model, Idx::new(i)).unwrap(),
            ),
        }
    }
}

impl<'a> MultiplyColorView<'a> {
    /// The color's three components.
    pub fn color(&self) -> (r: Color)
        requires
            self.valid(),
        ensures
            r@ == seq![
                self.model.multiply_color.r@[self.idx as int],
                self.model.multiply_color.g@[self.idx as int],
                self.model.multiply_color.b@[self.idx as int],
            ],
    {
        let r = [*self.f_r(), *self.f_g(), *self.f_b()];
        assert(r@ =~= seq![
            self.model.multiply_color.r@[self.idx as int],
            self.model.multiply_color.g@[self.idx as int],
            self.model.multiply_color.b@[self.idx as int],
        ]);
        r
    }
}

impl<'a> ScreenColorView<'a> {
    /// The color's three components.
    pub fn color(&self) -> (r: Color)
        requires
            self.valid(),
        ensures
            r@ == seq![
                self.model.screen_color.r@[self.idx as int],
                self.model.screen_color.g@[self.idx as int],
                self.model.screen_color.b@[self.idx as int],
            ],
    {
        let r = [*self.f_r(), *self.f_g(), *self.f_b()];
        assert(r@ =~= seq![
            self.model.screen_color.r@[self.idx as int],
            self.model.screen_color.g@[self.idx as int],
            self.model.screen_color.b@[self.idx as int],
        ]);
        r
    }
}

/// The art meshes that a run of clip entries names, in order, skipping empty entries.
pub open spec fn clip_targets(refs: Seq<OptIArtMesh>) -> Seq<u32>
    decreases refs.len(),
{
    if refs.len() == 0 {
        Seq::empty()
    } else {
        let rest = clip_targets(refs.drop_last());
        match opt_idx_get(refs.last().0) {
            Some(j) => rest.push(j),
            None => rest,
        }
    }
}

/// Collects the art meshes that the clip entries of `clips` name, skipping empty entries.
fn collect_clips<'model>(clips: ItemCollection<'model, ArtMeshRefView<'model>>) -> (r: Vec<
    ViewRef<'model, ArtMeshView<'model>>,
>)
    requires
        clips.model.validated(),
        clips.start <= clips.limit <= clips.model.art_mesh_ref.count,
    ensures
        r@.len() == clip_targets(clips.model.art_mesh_ref.i_artmesh@.subrange(clips.start as int, clips.limit as int)).len(),
        forall|k: int|
            0 <= k < r@.len() ==> #[trigger] r@[k].0.idx == clip_targets(
                clips.model.art_mesh_ref.i_artmesh@.subrange(clips.start as int, clips.limit as int),
            )[k] && r@[k].0.model == clips.model && r@[k].0.parent is None,
{
    let ghost m = clips.model;
    let ghost start = clips.start as int;
    let ghost limit = clips.limit as int;
    proof {
        assert(m.count_of(ClassId::ArtMeshRef) == m.raw_count_of(ClassId::ArtMeshRef));
        assert(m.count_of(ClassId::ArtMesh) == m.raw_count_of(ClassId::ArtMesh));
    }
    let mut it = clips.into_iter();
    let mut out: Vec<ViewRef<'model, ArtMeshView<'model>>> = Vec::new();
    loop
        invariant
            m.validated(),
            it.model == m,
            0 <= start <= it.idx <= limit,
            it.limit == limit,
            limit <= m.art_mesh_ref.count,
            m.art_mesh_ref.count == m.art_mesh_ref.raw_count,
            m.art_mesh.count == m.art_mesh.raw_count,
            out@.len() == clip_targets(m.art_mesh_ref.i_artmesh@.subrange(start, it.idx as int)).len(),
            forall|k: int|
                0 <= k < out@.len() ==> #[trigger] out@[k].0.idx == clip_targets(
                    m.art_mesh_ref.i_artmesh@.subrange(start, it.idx as int),
                )[k] && out@[k].0.model == m && out@[k].0.parent is None,
        ensures
            it.idx == limit,
        decreases limit - it.idx,
    {
        let ghost before = it.idx as int;
        let item = match it.next() {
            Some(v) => v.0,
            None => {
                break;
            },
        };
        let ghost sub = m.art_mesh_ref.i_artmesh@.subrange(start, before + 1);
        proof {
            assert(art_mesh_ref_refs_ok_at(m, item.idx as int));
            assert(item.idx == before);
            assert(before + 1 <= m.art_mesh_ref.i_artmesh@.len());
            assert(sub.drop_last() =~= m.art_mesh_ref.i_artmesh@.subrange(start, before));
            assert(sub.last() == m.art_mesh_ref.i_artmesh@[before]);
        }
        match item.artmesh_view() {
            Some(v) => {
                out.push(v.into_ref());
            },
            None => {},
        }
    }
    out
}

impl<'model> ArtMeshView<'model> {
    /// The art meshes that clip this one, skipping empty clip entries.
    pub fn clips(&self) -> (r: Vec<ViewRef<'model, ArtMeshView<'model>>>)
        requires
            self.valid(),
            self.model.validated(),
        ensures
            r@.len() == clip_targets(
                self.model.art_mesh_ref.i_artmesh@.subrange(
                    self.model.art_mesh.i_clips@[self.idx as int].0 as int,
                    self.model.art_mesh.i_clips@[self.idx as int].0 + self.model.art_mesh.cnt_clips@[self.idx as int],
                ),
            ).len(),
            forall|k: int|
                0 <= k < r@.len() ==> #[trigger] r@[k].0.idx == clip_targets(
                    self.model.art_mesh_ref.i_artmesh@.subrange(
                        self.model.art_mesh.i_clips@[self.idx as int].0 as int,
                        self.model.art_mesh.i_clips@[self.idx as int].0 + self.model.art_mesh.cnt_clips@[self.idx as int],
                    ),
                )[k] && r@[k].0.model == self.model,
    {
        proof {
            assert(art_mesh_refs_ok_at(self.model, self.idx as int));
            assert(self.model.count_of(ClassId::ArtMeshRef) == self.model.raw_count_of(ClassId::ArtMeshRef));
        }
        collect_clips(self.clips_views())
    }

    /// Whether back faces are culled: the render configuration does not mark the mesh
    /// double-sided.
    pub fn culling(&self) -> (r: bool)
        requires
            self.valid(),
        ensures
            r == (self.model.art_mesh.render_config@[self.idx as int] & RENDER_DOUBLE_SIDED == 0),
    {
        *self.f_render_config() & RENDER_DOUBLE_SIDED == 0
    }

    /// Whether the mask of this mesh is inverted.
    pub fn invert_mask(&self) -> (r: bool)
        requires
            self.valid(),
        ensures
            r == (self.model.art_mesh.render_config@[self.idx as int] & RENDER_INVERT_MASK != 0),
    {
        *self.f_render_config() & RENDER_INVERT_MASK != 0
    }

    /// The first texture coordinate of this mesh, counted in coordinates.
    pub fn texcoord_offset(&self) -> (r: u32)
        requires
            self.valid(),
        ensures
            r == self.model.art_mesh.i_texcoord_start@[self.idx as int].0 / 2,
    {
        self.i_texcoord_start().0 / 2
    }

    /// The run of vertex indices that this mesh draws.
    pub fn index_range(&self) -> (r: Range<u32>)
        requires
            self.valid(),
            self.model.art_mesh.i_indices@[self.idx as int].0 + self.model.art_mesh.cnt_indices@[self.idx as int]
                <= u32::MAX,
        ensures
            r.start == self.model.art_mesh.i_indices@[self.idx as int].0,
            r.end == self.model.art_mesh.i_indices@[self.idx as int].0 + self.model.art_mesh.cnt_indices@[self.idx as int],
    {
        let r = self.range_indices();
        Range { start: r.start.get(), end: r.end.get() }
    }

    /// How this mesh blends with what lies under it.
    pub fn blend_config(&self) -> (r: BlendConfig)
        requires
            self.valid(),
        ensures
            r == self.model.art_mesh.blend_config@[self.idx as int],
    {
        *self.f_blend_config()
    }
}

impl<'model> PartView<'model> {
    /// Whether this part is drawn offscreen.
    pub fn offscreen(&self) -> (r: bool)
        requires
            self.valid(),
        ensures
            r == opt_idx_get(self.model.part.i_offscreen_part@[self.idx as int].0) is Some,
    {
        self.i_offscreen_part().get().is_some()
    }

    /// How this part blends, when it is drawn offscreen.
    pub fn blend_config(&self) -> (r: Option<BlendConfig>)
        requires
            self.valid(),
            self.model.validated(),
        ensures
            r is Some <==> opt_idx_get(self.model.part.i_offscreen_part@[self.idx as int].0) is Some,
            r matches Some(c) ==> c == self.model.offscreen_part.blend_config@[
                opt_idx_get(self.model.part.i_offscreen_part@[self.idx as int].0).unwrap() as int],
    {
        proof {
            assert(part_refs_ok_at(self.model, self.idx as int));
            assert(self.model.count_of(ClassId::OffscreenPart) == self.model.raw_count_of(ClassId::OffscreenPart));
        }
        match self.offscreen_part_view() {
            Some(o) => Some(*o.f_blend_config()),
            None => None,
        }
    }

    /// Whether the mask of this part is inverted, when it is drawn offscreen.
    pub fn invert_mask(&self) -> (r: Option<bool>)
        requires
            self.valid(),
            self.model.validated(),
        ensures
            r is Some <==> opt_idx_get(self.model.part.i_offscreen_part@[self.idx as int].0) is Some,
            r matches Some(b) ==> b == (self.model.offscreen_part.render_config@[
                opt_idx_get(self.model.part.i_offscreen_part@[self.idx as int].0).unwrap() as int]
                & RENDER_INVERT_MASK != 0),
    {
        proof {
            assert(part_refs_ok_at(self.model, self.idx as int));
            assert(self.model.count_of(ClassId::OffscreenPart) == self.model.raw_count_of(ClassId::OffscreenPart));
        }
        match self.offscreen_part_view() {
            Some(o) => Some(*o.f_render_config() & RENDER_INVERT_MASK != 0),
            None => None,
        }
    }

    /// The art meshes that clip this part, when it is drawn offscreen, skipping empty
    /// clip entries.
    pub fn clips(&self) -> (r: Option<Vec<ViewRef<'model, ArtMeshView<'model>>>>)
        requires
            self.valid(),
            self.model.validated(),
        ensures
            r is Some <==> opt_idx_get(self.model.part.i_offscreen_part@[self.idx as int].0) is Some,
            r matches Some(v) ==> {
                let o = opt_idx_get(self.model.part.i_offscreen_part@[self.idx as int].0).unwrap() as int;
                let targets = clip_targets(
                    self.model.art_mesh_ref.i_artmesh@.subrange(
                        self.model.offscreen_part.i_clips@[o].0 as int,
                        self.model.offscreen_part.i_clips@[o].0 + self.model.offscreen_part.cnt_clips@[o],
                    ),
                );
                &&& v@.len() == targets.len()
                &&& forall|k: int| 0 <= k < v@.len() ==> #[trigger] v@[k].0.idx == targets[k] && v@[k].0.model == self.model
            },
    {
        proof {
            assert(part_refs_ok_at(self.model, self.idx as int));
            assert(self.model.count_of(ClassId::OffscreenPart) == self.model.raw_count_of(ClassId::OffscreenPart));
            assert(self.model.count_of(ClassId::ArtMeshRef) == self.model.raw_count_of(ClassId::ArtMeshRef));
        }
        match self.offscreen_part_view() {
            Some(o) => {
                proof {
                    assert(offscreen_part_refs_ok_at(self.model, o.idx as int));
                }
                Some(collect_clips(o.clips_views()))
            },
            None => None,
        }
    }
}

/// The keypoint counts of the parameter maps that parameter map set `s` lists, in order.
pub open spec fn keypoint_counts(m: &ParsedModel, s: int) -> Seq<u32> {
    let start = m.param_map_set.i_refs@[s].0 as int;
    Seq::new(
        m.param_map_set.cnt_refs@[s] as nat,
        |k: int| m.param_map.cnt_keypoints@[m.param_map_ref.i_map@[start + k].0 as int],
    )
}

/// The mixed-radix walk over the first `n` keypoint indices, the first parameter varying
/// fastest: whether every index so far was within its map's count, the form position
/// reached, and the place value of the next index.
pub open spec fn form_walk(counts: Seq<u32>, indices: Seq<u32>, n: nat) -> (bool, int, int)
    decreases n,
{
    if n == 0 {
        (true, 0, 1)
    } else {
        let prev = form_walk(counts, indices, (n - 1) as nat);
        if !prev.0 || indices[n - 1] > counts[n - 1] {
            (false, prev.1, prev.2)
        } else {
            (true, prev.1 + prev.2 * indices[n - 1], prev.2 * counts[n - 1])
        }
    }
}

/// Every position and place value of the walk fits in 32 bits.
pub open spec fn form_walk_fits(counts: Seq<u32>, indices: Seq<u32>) -> bool {
    forall|n: nat|
        n <= counts.len() ==> #[trigger] form_walk(counts, indices, n).1 <= u32::MAX && form_walk(counts, indices, n).2
            <= u32::MAX
}

/// The form position that the keypoint indices pick, if every index is within its map's
/// count.
pub open spec fn form_position(counts: Seq<u32>, indices: Seq<u32>) -> Option<int> {
    let w = form_walk(counts, indices, counts.len());
    if w.0 {
        Some(w.1)
    } else {
        None
    }
}

proof fn lemma_form_walk_nonneg(counts: Seq<u32>, indices: Seq<u32>, n: nat)
    ensures
        form_walk(counts, indices, n).1 >= 0,
        form_walk(counts, indices, n).2 >= 0,
    decreases n,
{
    if n > 0 {
        lemma_form_walk_nonneg(counts, indices, (n - 1) as nat);
        let prev = form_walk(counts, indices, (n - 1) as nat);
        if prev.0 && indices[n - 1] <= counts[n - 1] {
            assert(prev.2 * indices[n - 1] >= 0) by (nonlinear_arith)
                requires
                    prev.2 >= 0,
            ;
            assert(prev.2 * counts[n - 1] >= 0) by (nonlinear_arith)
                requires
                    prev.2 >= 0,
            ;
        }
    }
}

impl<'model> ParamMapSetView<'model> {
    /// The parameter maps that this set lists, in order.
    pub fn param_maps(&self) -> (r: Vec<ViewRef<'model, ParamMapView<'model>>>)
        requires
            self.valid(),
            self.model.validated(),
        ensures
            r@.len() == self.model.param_map_set.cnt_refs@[self.idx as int],
            forall|k: int|
                0 <= k < r@.len() ==> #[trigger] r@[k].0.idx == self.model.param_map_ref.i_map@[
                    self.model.param_map_set.i_refs@[self.idx as int].0 + k].0 && r@[k].0.model == self.model
                    && r@[k].0.parent is None,
    {
        let ghost m = self.model;
        let ghost start = m.param_map_set.i_refs@[self.idx as int].0 as int;
        let ghost cnt = m.param_map_set.cnt_refs@[self.idx as int] as int;
        proof {
            assert(param_map_set_refs_ok_at(m, self.idx as int));
            assert(m.count_of(ClassId::ParamMapRef) == m.raw_count_of(ClassId::ParamMapRef));
            assert(m.count_of(ClassId::ParamMap) == m.raw_count_of(ClassId::ParamMap));
        }
        let mut it = self.refs_views().into_iter();
        let mut out: Vec<ViewRef<'model, ParamMapView<'model>>> = Vec::new();
        loop
            invariant
                m.validated(),
                it.model == m,
                0 <= start <= it.idx <= start + cnt,
                it.limit == start + cnt,
                start + cnt <= m.param_map_ref.count,
                m.param_map_ref.count == m.param_map_ref.raw_count,
                m.param_map.count == m.param_map.raw_count,
                out@.len() == it.idx - start,
                forall|k: int|
                    0 <= k < out@.len() ==> #[trigger] out@[k].0.idx == m.param_map_ref.i_map@[start + k].0
                        && out@[k].0.model == m && out@[k].0.parent is None,
            ensures
                it.idx == start + cnt,
            decreases start + cnt - it.idx,
        {
            let r = match it.next() {
                Some(v) => v.0,
                None => {
                    break;
                },
            };
            proof {
                assert(param_map_ref_refs_ok_at(m, r.idx as int));
            }
            out.push(r.map_view().into_ref());
        }
        out
    }

    /// The position in a form table of the form that `indices` picks, one keypoint index
    /// per parameter map of this set, the first map varying fastest; `None` when an index
    /// exceeds its map's keypoint count.
    pub fn form_index(&self, indices: &[u32]) -> (r: Option<u32>)
        requires
            self.valid(),
            self.model.validated(),
            indices@.len() == self.model.param_map_set.cnt_refs@[self.idx as int],
            form_walk_fits(keypoint_counts(self.model, self.idx as int), indices@),
        ensures
            r is Some <==> form_position(keypoint_counts(self.model, self.idx as int), indices@) is Some,
            r matches Some(i) ==> i == form_position(keypoint_counts(self.model, self.idx as int), indices@).unwrap(),
    {
        let ghost m = self.model;
        let ghost counts = keypoint_counts(m, self.idx as int);
        let ghost start = m.param_map_set.i_refs@[self.idx as int].0 as int;
        let ghost cnt = m.param_map_set.cnt_refs@[self.idx as int] as int;
        proof {
            assert(param_map_set_refs_ok_at(m, self.idx as int));
            assert(m.count_of(ClassId::ParamMapRef) == m.raw_count_of(ClassId::ParamMapRef));
            assert(m.count_of(ClassId::ParamMap) == m.raw_count_of(ClassId::ParamMap));
        }
        let mut it = self.refs_views().into_iter();
        let mut index: u32 = 0;
        let mut step: u32 = 1;
        let mut i: usize = 0;
        loop
            invariant
                m.validated(),
                m == self.model,
                it.model == m,
                it.idx == start + i,
                0 <= start,
                0 <= i <= cnt,
                it.limit == start + cnt,
                start + cnt <= m.param_map_ref.count,
                m.param_map_ref.count == m.param_map_ref.raw_count,
                m.param_map.count == m.param_map.raw_count,
                indices@.len() == cnt,
                counts.len() == cnt,
                counts == keypoint_counts(m, self.idx as int),
                start == m.param_map_set.i_refs@[self.idx as int].0,
                form_walk_fits(counts, indices@),
                form_walk(counts, indices@, i as nat) == (true, index as int, step as int),
            ensures
                i == cnt,
                form_walk(counts, indices@, cnt as nat) == (true, index as int, step as int),
            decreases cnt - i,
        {
            let pmr = match it.next() {
                Some(v) => v.0,
                None => {
                    break;
                },
            };
            proof {
                assert(param_map_ref_refs_ok_at(m, pmr.idx as int));
            }
            let c = pmr.map_view().cnt_keypoints();
            proof {
                assert(c == counts[i as int]);
                assert(form_walk(counts, indices@, (i + 1) as nat).1 <= u32::MAX);
                assert(form_walk(counts, indices@, (i + 1) as nat).2 <= u32::MAX);
                lemma_form_walk_nonneg(counts, indices@, i as nat);
            }
            if indices[i] > c {
                proof {
                    lemma_form_walk_stuck(counts, indices@, (i + 1) as nat);
                }
                return None;
            }
            index = index + step * indices[i];
            step = step * c;
            i = i + 1;
        }
        Some(index)
    }
}

/// Once the walk has failed, it stays failed.
proof fn lemma_form_walk_stuck(counts: Seq<u32>, indices: Seq<u32>, n: nat)
    requires
        !form_walk(counts, indices, n).0,
        n <= counts.len(),
    ensures
        !form_walk(counts, indices, counts.len()).0,
    decreases counts.len() - n,
{
    if n < counts.len() {
        lemma_form_walk_stuck(counts, indices, n + 1);
    }
}

impl<'model> PartView<'model> {
    /// The parameter maps that drive this object, in order.
    pub fn param_maps(&self) -> (r: Vec<ViewRef<'model, ParamMapView<'model>>>)
        requires
            self.valid(),
            self.model.validated(),
        ensures
            r@.len() == self.model.param_map_set.cnt_refs@[self.model.part.i_param_map_set@[self.idx as int].0 as int],
            forall|k: int|
                0 <= k < r@.len() ==> #[trigger] r@[k].0.idx == self.model.param_map_ref.i_map@[
                    self.model.param_map_set.i_refs@[self.model.part.i_param_map_set@[self.idx as int].0 as int].0 + k].0
                    && r@[k].0.model == self.model,
    {
        proof {
            assert(part_refs_ok_at(self.model, self.idx as int));
            assert(self.model.count_of(ClassId::ParamMapSet) == self.model.raw_count_of(ClassId::ParamMapSet));
        }
        self.param_map_set_view().param_maps()
    }

    /// The form that `indices` picks, one keypoint index per parameter map of this object;
    /// `None` when an index exceeds its map's keypoint count or the position is past the
    /// forms of this object.
    pub fn form(&self, indices: &[u32]) -> (r: Option<ViewRef<'model, PartFormView<'model>>>)
        requires
            self.valid(),
            self.model.validated(),
            indices@.len() == self.model.param_map_set.cnt_refs@[self.model.part.i_param_map_set@[self.idx as int].0 as int],
            form_walk_fits(keypoint_counts(self.model, self.model.part.i_param_map_set@[self.idx as int].0 as int), indices@),
            form_position(keypoint_counts(self.model, self.model.part.i_param_map_set@[self.idx as int].0 as int), indices@)
                matches Some(p) ==> self.model.part.i_forms@[self.idx as int].0 + p <= u32::MAX,
        ensures
            ({
                let pos = form_position(
                    keypoint_counts(self.model, self.model.part.i_param_map_set@[self.idx as int].0 as int),
                    indices@,
                );
                &&& r is Some <==> (pos matches Some(p) && p < self.model.part.cnt_forms@[self.idx as int])
                &&& r matches Some(v) ==> v.0.idx == self.model.part.i_forms@[self.idx as int].0 + pos.unwrap()
                    && v.0.model == self.model && v.0.parent == Some(self.idx)
            }),
    {
        proof {
            assert(part_refs_ok_at(self.model, self.idx as int));
            assert(self.model.count_of(ClassId::ParamMapSet) == self.model.raw_count_of(ClassId::ParamMapSet));
            assert(self.model.count_of(ClassId::PartForm) == self.model.raw_count_of(ClassId::PartForm));
        }
        let pms = self.param_map_set_view();
        match pms.form_index(indices) {
            Some(index) => self.forms_views().index(index as usize),
            None => None,
        }
    }
}

impl<'model> DeformerView<'model> {
    /// The parameter maps that drive this object, in order.
    pub fn param_maps(&self) -> (r: Vec<ViewRef<'model, ParamMapView<'model>>>)
        requires
            self.valid(),
            self.model.validated(),
        ensures
            r@.len() == self.model.param_map_set.cnt_refs@[self.model.deformer.i_param_map_set@[self.idx as int].0 as int],
            forall|k: int|
                0 <= k < r@.len() ==> #[trigger] r@[k].0.idx == self.model.param_map_ref.i_map@[
                    self.model.param_map_set.i_refs@[self.model.deformer.i_param_map_set@[self.idx as int].0 as int].0 + k].0
                    && r@[k].0.model == self.model,
    {
        proof {
            assert(deformer_refs_ok_at(self.model, self.idx as int));
            assert(self.model.count_of(ClassId::ParamMapSet) == self.model.raw_count_of(ClassId::ParamMapSet));
        }
        self.param_map_set_view().param_maps()
    }
}

impl<'model> WarpDeformerView<'model> {
    /// The parameter maps that drive this object, in order.
    pub fn param_maps(&self) -> (r: Vec<ViewRef<'model, ParamMapView<'model>>>)
        requires
            self.valid(),
            self.model.validated(),
        ensures
            r@.len() == self.model.param_map_set.cnt_refs@[self.model.warp_deformer.i_param_map_set@[self.idx as int].0 as int],
            forall|k: int|
                0 <= k < r@.len() ==> #[trigger] r@[k].0.idx == self.model.param_map_ref.i_map@[
                    self.model.param_map_set.i_refs@[self.model.warp_deformer.i_param_map_set@[self.idx as int].0 as int].0 + k].0
                    && r@[k].0.model == self.model,
    {
        proof {
            assert(warp_deformer_refs_ok_at(self.model, self.idx as int));
            assert(self.model.count_of(ClassId::ParamMapSet) == self.model.raw_count_of(ClassId::ParamMapSet));
        }
        self.param_map_set_view().param_maps()
    }

    /// The form that `indices` picks, one keypoint index per parameter map of this object;
    /// `None` when an index exceeds its map's keypoint count or the position is past the
    /// forms of this object.
    pub fn form(&self, indices: &[u32]) -> (r: Option<ViewRef<'model, WarpFormView<'model>>>)
        requires
            self.valid(),
            self.model.validated(),
            indices@.len() == self.model.param_map_set.cnt_refs@[self.model.warp_deformer.i_param_map_set@[self.idx as int].0 as int],
            form_walk_fits(keypoint_counts(self.model, self.model.warp_deformer.i_param_map_set@[self.idx as int].0 as int), indices@),
            form_position(keypoint_counts(self.model, self.model.warp_deformer.i_param_map_set@[self.idx as int].0 as int), indices@)
                matches Some(p) ==> self.model.warp_deformer.i_forms@[self.idx as int].0 + p <= u32::MAX,
        ensures
            ({
                let pos = form_position(
                    keypoint_counts(self.model, self.model.warp_deformer.i_param_map_set@[self.idx as int].0 as int),
                    indices@,
                );
                &&& r is Some <==> (pos matches Some(p) && p < self.model.warp_deformer.cnt_forms@[self.idx as int])
                &&& r matches Some(v) ==> v.0.idx == self.model.warp_deformer.i_forms@[self.idx as int].0 + pos.unwrap()
                    && v.0.model == self.model && v.0.parent == Some(self.idx)
            }),
    {
        proof {
            assert(warp_deformer_refs_ok_at(self.model, self.idx as int));
            assert(self.model.count_of(ClassId::ParamMapSet) == self.model.raw_count_of(ClassId::ParamMapSet));
            assert(self.model.count_of(ClassId::WarpForm) == self.model.raw_count_of(ClassId::WarpForm));
        }
        let pms = self.param_map_set_view();
        match pms.form_index(indices) {
            Some(index) => self.forms_views().index(index as usize),
            None => None,
        }
    }
}

impl<'model> RotDeformerView<'model> {
    /// The parameter maps that drive this object, in order.
    pub fn param_maps(&self) -> (r: Vec<ViewRef<'model, ParamMapView<'model>>>)
        requires
            self.valid(),
            self.model.validated(),
        ensures
            r@.len() == self.model.param_map_set.cnt_refs@[self.model.rot_deformer.i_param_map_set@[self.idx as int].0 as int],
            forall|k: int|
                0 <= k < r@.len() ==> #[trigger] r@[k].0.idx == self.model.param_map_ref.i_map@[
                    self.model.param_map_set.i_refs@[self.model.rot_deformer.i_param_map_set@[self.idx as int].0 as int].0 + k].0
                    && r@[k].0.model == self.model,
    {
        proof {
            assert(rot_deformer_refs_ok_at(self.model, self.idx as int));
            assert(self.model.count_of(ClassId::ParamMapSet) == self.model.raw_count_of(ClassId::ParamMapSet));
        }
        self.param_map_set_view().param_maps()
    }

    /// The form that `indices` picks, one keypoint index per parameter map of this object;
    /// `None` when an index exceeds its map's keypoint count or the position is past the
    /// forms of this object.
    pub fn form(&self, indices: &[u32]) -> (r: Option<ViewRef<'model, RotFormView<'model>>>)
        requires
            self.valid(),
            self.model.validated(),
            indices@.len() == self.model.param_map_set.cnt_refs@[self.model.rot_deformer.i_param_map_set@[self.idx as int].0 as int],
            form_walk_fits(keypoint_counts(self.model, self.model.rot_deformer.i_param_map_set@[self.idx as int].0 as int), indices@),
            form_position(keypoint_counts(self.model, self.model.rot_deformer.i_param_map_set@[self.idx as int].0 as int), indices@)
                matches Some(p) ==> self.model.rot_deformer.i_forms@[self.idx as int].0 + p <= u32::MAX,
        ensures
            ({
                let pos = form_position(
                    keypoint_counts(self.model, self.model.rot_deformer.i_param_map_set@[self.idx as int].0 as int),
                    indices@,
                );
                &&& r is Some <==> (pos matches Some(p) && p < self.model.rot_deformer.cnt_forms@[self.idx as int])
                &&& r matches Some(v) ==> v.0.idx == self.model.rot_deformer.i_forms@[self.idx as int].0 + pos.unwrap()
                    && v.0.model == self.model && v.0.parent == Some(self.idx)
            }),
    {
        proof {
            assert(rot_deformer_refs_ok_at(self.model, self.idx as int));
            assert(self.model.count_of(ClassId::ParamMapSet) == self.model.raw_count_of(ClassId::ParamMapSet));
            assert(self.model.count_of(ClassId::RotForm) == self.model.raw_count_of(ClassId::RotForm));
        }
        let pms = self.param_map_set_view();
        match pms.form_index(indices) {
            Some(index) => self.forms_views().index(index as usize),
            None => None,
        }
    }
}

impl<'model> ArtMeshView<'model> {
    /// The parameter maps that drive this object, in order.
    pub fn param_maps(&self) -> (r: Vec<ViewRef<'model, ParamMapView<'model>>>)
        requires
            self.valid(),
            self.model.validated(),
        ensures
            r@.len() == self.model.param_map_set.cnt_refs@[self.model.art_mesh.i_param_map_set@[self.idx as int].0 as int],
            forall|k: int|
                0 <= k < r@.len() ==> #[trigger] r@[k].0.idx == self.model.param_map_ref.i_map@[
                    self.model.param_map_set.i_refs@[self.model.art_mesh.i_param_map_set@[self.idx as int].0 as int].0 + k].0
                    && r@[k].0.model == self.model,
    {
        proof {
            assert(art_mesh_refs_ok_at(self.model, self.idx as int));
            assert(self.model.count_of(ClassId::ParamMapSet) == self.model.raw_count_of(ClassId::ParamMapSet));
        }
        self.param_map_set_view().param_maps()
    }

    /// The form that `indices` picks, one keypoint index per parameter map of this object;
    /// `None` when an index exceeds its map's keypoint count or the position is past the
    /// forms of this object.
    pub fn form(&self, indices: &[u32]) -> (r: Option<ViewRef<'model, ArtMeshFormView<'model>>>)
        requires
            self.valid(),
            self.model.validated(),
            indices@.len() == self.model.param_map_set.cnt_refs@[self.model.art_mesh.i_param_map_set@[self.idx as int].0 as int],
            form_walk_fits(keypoint_counts(self.model, self.model.art_mesh.i_param_map_set@[self.idx as int].0 as int), indices@),
            form_position(keypoint_counts(self.model, self.model.art_mesh.i_param_map_set@[self.idx as int].0 as int), indices@)
                matches Some(p) ==> self.model.art_mesh.i_forms@[self.idx as int].0 + p <= u32::MAX,
        ensures
            ({
                let pos = form_position(
                    keypoint_counts(self.model, self.model.art_mesh.i_param_map_set@[self.idx as int].0 as int),
                    indices@,
                );
                &&& r is Some <==> (pos matches Some(p) && p < self.model.art_mesh.cnt_forms@[self.idx as int])
                &&& r matches Some(v) ==> v.0.idx == self.model.art_mesh.i_forms@[self.idx as int].0 + pos.unwrap()
                    && v.0.model == self.model && v.0.parent == Some(self.idx)
            }),
    {
        proof {
            assert(art_mesh_refs_ok_at(self.model, self.idx as int));
            assert(self.model.count_of(ClassId::ParamMapSet) == self.model.raw_count_of(ClassId::ParamMapSet));
            assert(self.model.count_of(ClassId::ArtMeshForm) == self.model.raw_count_of(ClassId::ArtMeshForm));
        }
        let pms = self.param_map_set_view();
        match pms.form_index(indices) {
            Some(index) => self.forms_views().index(index as usize),
            None => None,
        }
    }
}

impl<'model> GlueView<'model> {
    /// The parameter maps that drive this object, in order.
    pub fn param_maps(&self) -> (r: Vec<ViewRef<'model, ParamMapView<'model>>>)
        requires
            self.valid(),
            self.model.validated(),
        ensures
            r@.len() == self.model.param_map_set.cnt_refs@[self.model.glue.i_param_map_set@[self.idx as int].0 as int],
            forall|k: int|
                0 <= k < r@.len() ==> #[trigger] r@[k].0.idx == self.model.param_map_ref.i_map@[
                    self.model.param_map_set.i_refs@[self.model.glue.i_param_map_set@[self.idx as int].0 as int].0 + k].0
                    && r@[k].0.model == self.model,
    {
        proof {
            assert(glue_refs_ok_at(self.model, self.idx as int));
            assert(self.model.count_of(ClassId::ParamMapSet) == self.model.raw_count_of(ClassId::ParamMapSet));
        }
        self.param_map_set_view().param_maps()
    }

    /// The form that `indices` picks, one keypoint index per parameter map of this object;
    /// `None` when an index exceeds its map's keypoint count or the position is past the
    /// forms of this object.
    pub fn form(&self, indices: &[u32]) -> (r: Option<ViewRef<'model, GlueFormView<'model>>>)
        requires
            self.valid(),
            self.model.validated(),
            indices@.len() == self.model.param_map_set.cnt_refs@[self.model.glue.i_param_map_set@[self.idx as int].0 as int],
            form_walk_fits(keypoint_counts(self.model, self.model.glue.i_param_map_set@[self.idx as int].0 as int), indices@),
            form_position(keypoint_counts(self.model, self.model.glue.i_param_map_set@[self.idx as int].0 as int), indices@)
                matches Some(p) ==> self.model.glue.i_forms@[self.idx as int].0 + p <= u32::MAX,
        ensures
            ({
                let pos = form_position(
                    keypoint_counts(self.model, self.model.glue.i_param_map_set@[self.idx as int].0 as int),
                    indices@,
                );
                &&& r is Some <==> (pos matches Some(p) && p < self.model.glue.cnt_forms@[self.idx as int])
                &&& r matches Some(v) ==> v.0.idx == self.model.glue.i_forms@[self.idx as int].0 + pos.unwrap()
                    && v.0.model == self.model && v.0.parent == Some(self.idx)
            }),
    {
        proof {
            assert(glue_refs_ok_at(self.model, self.idx as int));
            assert(self.model.count_of(ClassId::ParamMapSet) == self.model.raw_count_of(ClassId::ParamMapSet));
            assert(self.model.count_of(ClassId::GlueForm) == self.model.raw_count_of(ClassId::GlueForm));
        }
        let pms = self.param_map_set_view();
        match pms.form_index(indices) {
            Some(index) => self.forms_views().index(index as usize),
            None => None,
        }
    }
}

impl<'model> WarpFormView<'model> {
    /// The multiply color of this form.
    pub fn multiply_color(&self) -> (r: Color)
        requires
            self.valid(),
            self.model.validated(),
        ensures
            ({
                let c = self.model.warp_form.i_multiply_color@[self.idx as int].0 as int;
                r@ == seq![self.model.multiply_color.r@[c], self.model.multiply_color.g@[c], self.model.multiply_color.b@[c]]
            }),
    {
        proof {
            assert(warp_form_refs_ok_at(self.model, self.idx as int));
            assert(self.model.count_of(ClassId::MultiplyColor) == self.model.raw_count_of(ClassId::MultiplyColor));
        }
        self.multiply_color_view().color()
    }

    /// The screen color of this form.
    pub fn screen_color(&self) -> (r: Color)
        requires
            self.valid(),
            self.model.validated(),
        ensures
            ({
                let c = self.model.warp_form.i_screen_color@[self.idx as int].0 as int;
                r@ == seq![self.model.screen_color.r@[c], self.model.screen_color.g@[c], self.model.screen_color.b@[c]]
            }),
    {
        proof {
            assert(warp_form_refs_ok_at(self.model, self.idx as int));
            assert(self.model.count_of(ClassId::ScreenColor) == self.model.raw_count_of(ClassId::ScreenColor));
        }
        self.screen_color_view().color()
    }

    /// The vertex positions of this form: as many as its WarpDeformer declares, from this
    /// form's first vertex on.
    pub fn vertices(&self) -> (r: &'model [Coord])
        requires
            self.valid(),
            self.model.validated(),
            self.parent matches Some(p) && p < self.model.warp_deformer.count,
            ({
                let start = self.model.warp_form.i_start_vertex@[self.idx as int].0 as int;
                let count = self.model.warp_deformer.vertex_count@[self.parent.unwrap() as int] as int;
                &&& start % 2 == 0
                &&& start + count * 2 <= u32::MAX
                &&& start / 2 + count <= self.model.vertex_coord.values@.len()
            }),
        ensures
            ({
                let start = self.model.warp_form.i_start_vertex@[self.idx as int].0 as int;
                let count = self.model.warp_deformer.vertex_count@[self.parent.unwrap() as int] as int;
                r@ == self.model.vertex_coord.values@.subrange(start / 2, start / 2 + count)
            }),
    {
        proof {
            assert(self.model.count_of(ClassId::WarpDeformer) == self.model.raw_count_of(ClassId::WarpDeformer));
            assert(self.model.count_of(ClassId::ArtMesh) == self.model.raw_count_of(ClassId::ArtMesh));
        }
        let start = self.i_start_vertex();
        let count = *self.parent().f_vertex_count();
        let end = start.offset(count);
        self.model.vertex_coord.slice(Range { start, end })
    }
}

impl<'model> RotFormView<'model> {
    /// The multiply color of this form.
    pub fn multiply_color(&self) -> (r: Color)
        requires
            self.valid(),
            self.model.validated(),
        ensures
            ({
                let c = self.model.rot_form.i_multiply_color@[self.idx as int].0 as int;
                r@ == seq![self.model.multiply_color.r@[c], self.model.multiply_color.g@[c], self.model.multiply_color.b@[c]]
            }),
    {
        proof {
            assert(rot_form_refs_ok_at(self.model, self.idx as int));
            assert(self.model.count_of(ClassId::MultiplyColor) == self.model.raw_count_of(ClassId::MultiplyColor));
        }
        self.multiply_color_view().color()
    }

    /// The screen color of this form.
    pub fn screen_color(&self) -> (r: Color)
        requires
            self.valid(),
            self.model.validated(),
        ensures
            ({
                let c = self.model.rot_form.i_screen_color@[self.idx as int].0 as int;
                r@ == seq![self.model.screen_color.r@[c], self.model.screen_color.g@[c], self.model.screen_color.b@[c]]
            }),
    {
        proof {
            assert(rot_form_refs_ok_at(self.model, self.idx as int));
            assert(self.model.count_of(ClassId::ScreenColor) == self.model.raw_count_of(ClassId::ScreenColor));
        }
        self.screen_color_view().color()
    }

    /// The position of this form's origin.
    pub fn position(&self) -> (r: Coord)
        requires
            self.valid(),
        ensures
            r == (Coord { x: self.model.rot_form.pos_x@[self.idx as int], y: self.model.rot_form.pos_y@[self.idx as int] }),
    {
        Coord { x: *self.f_pos_x(), y: *self.f_pos_y() }
    }
}

impl<'model> ArtMeshFormView<'model> {
    /// The multiply color of this form.
    pub fn multiply_color(&self) -> (r: Color)
        requires
            self.valid(),
            self.model.validated(),
        ensures
            ({
                let c = self.model.art_mesh_form.i_multiply_color@[self.idx as int].0 as int;
                r@ == seq![self.model.multiply_color.r@[c], self.model.multiply_color.g@[c], self.model.multiply_color.b@[c]]
            }),
    {
        proof {
            assert(art_mesh_form_refs_ok_at(self.model, self.idx as int));
            assert(self.model.count_of(ClassId::MultiplyColor) == self.model.raw_count_of(ClassId::MultiplyColor));
        }
        self.multiply_color_view().color()
    }

    /// The screen color of this form.
    pub fn screen_color(&self) -> (r: Color)
        requires
            self.valid(),
            self.model.validated(),
        ensures
            ({
                let c = self.model.art_mesh_form.i_screen_color@[self.idx as int].0 as int;
                r@ == seq![self.model.screen_color.r@[c], self.model.screen_color.g@[c], self.model.screen_color.b@[c]]
            }),
    {
        proof {
            assert(art_mesh_form_refs_ok_at(self.model, self.idx as int));
            assert(self.model.count_of(ClassId::ScreenColor) == self.model.raw_count_of(ClassId::ScreenColor));
        }
        self.screen_color_view().color()
    }

    /// The vertex positions of this form: as many as its ArtMesh declares, from this
    /// form's first vertex on.
    pub fn vertices(&self) -> (r: &'model [Coord])
        requires
            self.valid(),
            self.model.validated(),
            self.parent matches Some(p) && p < self.model.art_mesh.count,
            ({
                let start = self.model.art_mesh_form.i_start_vertex@[self.idx as int].0 as int;
                let count = self.model.art_mesh.vertex_count@[self.parent.unwrap() as int] as int;
                &&& start % 2 == 0
                &&& start + count * 2 <= u32::MAX
                &&& start / 2 + count <= self.model.vertex_coord.values@.len()
            }),
        ensures
            ({
                let start = self.model.art_mesh_form.i_start_vertex@[self.idx as int].0 as int;
                let count = self.model.art_mesh.vertex_count@[self.parent.unwrap() as int] as int;
                r@ == self.model.vertex_coord.values@.subrange(start / 2, start / 2 + count)
            }),
    {
        proof {
            assert(self.model.count_of(ClassId::WarpDeformer) == self.model.raw_count_of(ClassId::WarpDeformer));
            assert(self.model.count_of(ClassId::ArtMesh) == self.model.raw_count_of(ClassId::ArtMesh));
        }
        let start = self.i_start_vertex();
        let count = *self.parent().f_vertex_count();
        let end = start.offset(count);
        self.model.vertex_coord.slice(Range { start, end })
    }
}

impl<'model> PartFormView<'model> {
    /// The multiply color of this form, when its part is drawn offscreen.
    pub fn multiply_color(&self) -> (r: Option<Color>)
        requires
            self.valid(),
            self.model.validated(),
        ensures
            r is Some <==> opt_idx_get(self.model.part_form.i_offscreen@[self.idx as int].0) is Some,
            r matches Some(col) ==> ({
                let o = opt_idx_get(self.model.part_form.i_offscreen@[self.idx as int].0).unwrap() as int;
                let c = self.model.offscreen_part_form.i_multiply_color@[o].0 as int;
                col@ == seq![self.model.multiply_color.r@[c], self.model.multiply_color.g@[c], self.model.multiply_color.b@[c]]
            }),
    {
        proof {
            assert(part_form_refs_ok_at(self.model, self.idx as int));
            assert(self.model.count_of(ClassId::OffscreenPartForm) == self.model.raw_count_of(ClassId::OffscreenPartForm));
            assert(self.model.count_of(ClassId::MultiplyColor) == self.model.raw_count_of(ClassId::MultiplyColor));
        }
        match self.offscreen_view() {
            Some(v) => {
                proof {
                    assert(offscreen_part_form_refs_ok_at(self.model, v.idx as int));
                }
                Some(v.multiply_color_view().color())
            },
            None => None,
        }
    }

    /// The screen color of this form, when its part is drawn offscreen.
    pub fn screen_color(&self) -> (r: Option<Color>)
        requires
            self.valid(),
            self.model.validated(),
        ensures
            r is Some <==> opt_idx_get(self.model.part_form.i_offscreen@[self.idx as int].0) is Some,
            r matches Some(col) ==> ({
                let o = opt_idx_get(self.model.part_form.i_offscreen@[self.idx as int].0).unwrap() as int;
                let c = self.model.offscreen_part_form.i_screen_color@[o].0 as int;
                col@ == seq![self.model.screen_color.r@[c], self.model.screen_color.g@[c], self.model.screen_color.b@[c]]
            }),
    {
        proof {
            assert(part_form_refs_ok_at(self.model, self.idx as int));
            assert(self.model.count_of(ClassId::OffscreenPartForm) == self.model.raw_count_of(ClassId::OffscreenPartForm));
            assert(self.model.count_of(ClassId::ScreenColor) == self.model.raw_count_of(ClassId::ScreenColor));
        }
        match self.offscreen_view() {
            Some(v) => {
                proof {
                    assert(offscreen_part_form_refs_ok_at(self.model, v.idx as int));
                }
                Some(v.screen_color_view().color())
            },
            None => None,
        }
    }

    /// The opacity of this form, when its part is drawn offscreen.
    pub fn opacity(&self) -> (r: Option<RawF32>)
        requires
            self.valid(),
            self.model.validated(),
        ensures
            r is Some <==> opt_idx_get(self.model.part_form.i_offscreen@[self.idx as int].0) is Some,
            r matches Some(o) ==> o == self.model.offscreen_part_form.opacity@[
                opt_idx_get(self.model.part_form.i_offscreen@[self.idx as int].0).unwrap() as int],
    {
        proof {
            assert(part_form_refs_ok_at(self.model, self.idx as int));
            assert(self.model.count_of(ClassId::OffscreenPartForm) == self.model.raw_count_of(ClassId::OffscreenPartForm));
        }
        match self.offscreen_view() {
            Some(v) => Some(*v.f_opacity()),
            None => None,
        }
    }
}

impl<'model> WarpDeformerView<'model> {
    /// The grid of this warp deformer: columns, then rows.
    pub fn size(&self) -> (r: (u32, u32))
        requires
            self.valid(),
        ensures
            r == (self.model.warp_deformer.x_divs@[self.idx as int], self.model.warp_deformer.y_divs@[self.idx as int]),
    {
        (*self.f_x_divs(), *self.f_y_divs())
    }

    /// The number of vertices of the grid: one more than its columns times one more than its
    /// rows.
    pub fn vertex_count(&self) -> (r: usize)
        requires
            self.valid(),
            (self.model.warp_deformer.x_divs@[self.idx as int] + 1) * (self.model.warp_deformer.y_divs@[
                self.idx as int
            ] + 1) <= usize::MAX,
        ensures
            r == (self.model.warp_deformer.x_divs@[self.idx as int] + 1) * (self.model.warp_deformer.y_divs@[
                self.idx as int
            ] + 1),
    {
        let (x, y) = self.size();
        let xs = x as usize;
        let ys = y as usize;
        assert(xs + 1 <= usize::MAX && ys + 1 <= usize::MAX) by (nonlinear_arith)
            requires
                (xs + 1) * (ys + 1) <= usize::MAX,
                xs >= 0,
                ys >= 0,
        ;
        (xs + 1) * (ys + 1)
    }
}

/// An item of a draw group: an art mesh, or a part with the draw group of its children.
pub enum DrawEntry<'model> {
    ArtMesh(ViewRef<'model, ArtMeshView<'model>>),
    Part(PartDrawEntry<'model>),
}

/// A part in a draw group, with the draw group that orders its children.
pub struct PartDrawEntry<'model> {
    pub part: ViewRef<'model, PartView<'model>>,
    pub draw_group: ViewRef<'model, DrawGroupView<'model>>,
}

/// Draw item `d` of model `m` is what `e` shows.
pub open spec fn draw_entry_matches(m: &ParsedModel, d: int, e: DrawEntry) -> bool {
    match e {
        DrawEntry::ArtMesh(v) => {
            &&& m.draw_item.item_type@[d] == DrawItemType::ArtMesh
            &&& v.0.idx == m.draw_item.i_child@[d]
            &&& v.0.model == m
        },
        DrawEntry::Part(p) => {
            &&& m.draw_item.item_type@[d] == DrawItemType::Part
            &&& p.part.0.idx == m.draw_item.i_child@[d]
            &&& p.part.0.model == m
            &&& Some(p.draw_group.0.idx) == opt_idx_get(m.draw_item.i_draw_group@[d].0)
            &&& p.draw_group.0.model == m
        },
    }
}

impl<'model> DrawGroupView<'model> {
    /// The items of this draw group, in drawing order.
    pub fn items(&self) -> (r: Vec<DrawEntry<'model>>)
        requires
            self.valid(),
            self.model.validated(),
        ensures
            r@.len() == self.model.draw_group.cnt_items@[self.idx as int],
            forall|k: int|
                0 <= k < r@.len() ==> #[trigger] draw_entry_matches(
                    self.model,
                    self.model.draw_group.i_items@[self.idx as int].0 + k,
                    r@[k],
                ),
    {
        let ghost m = self.model;
        let ghost start = m.draw_group.i_items@[self.idx as int].0 as int;
        let ghost cnt = m.draw_group.cnt_items@[self.idx as int] as int;
        proof {
            assert(draw_group_refs_ok_at(m, self.idx as int));
            assert(m.count_of(ClassId::DrawItem) == m.raw_count_of(ClassId::DrawItem));
            assert(m.count_of(ClassId::DrawGroup) == m.raw_count_of(ClassId::DrawGroup));
            assert(m.count_of(ClassId::ArtMesh) == m.raw_count_of(ClassId::ArtMesh));
            assert(m.count_of(ClassId::Part) == m.raw_count_of(ClassId::Part));
        }
        let mut it = self.items_views().into_iter();
        let mut out: Vec<DrawEntry<'model>> = Vec::new();
        loop
            invariant
                m.validated(),
                it.model == m,
                0 <= start <= it.idx <= start + cnt,
                it.limit == start + cnt,
                start + cnt <= m.draw_item.count,
                m.draw_item.count == m.draw_item.raw_count,
                m.draw_group.count == m.draw_group.raw_count,
                m == self.model,
                out@.len() == it.idx - start,
                forall|k: int| 0 <= k < out@.len() ==> #[trigger] draw_entry_matches(m, start + k, out@[k]),
            ensures
                it.idx == start + cnt,
            decreases start + cnt - it.idx,
        {
            let item = match it.next() {
                Some(v) => v.0,
                None => {
                    break;
                },
            };
            proof {
                assert(draw_item_refs_ok_at(m, item.idx as int));
                assert(draw_item_ok(m, item.idx as int));
            }
            let entry = match item.f_item_type() {
                DrawItemType::ArtMesh => DrawEntry::ArtMesh(
                    ArtMeshView::get_ref(self.model, Idx::new(*item.f_i_child())).unwrap(),
                ),
                DrawItemType::Part => DrawEntry::Part(
                    PartDrawEntry {
                        part: PartView::get_ref(self.model, Idx::new(*item.f_i_child())).unwrap(),
                        draw_group: item.draw_group_view().unwrap().into_ref(),
                    },
                ),
            };
            out.push(entry);
        }
        out
    }
}

/// One end of a glue: a weight and the vertex it pulls.
#[derive(Debug, Copy, Clone, PartialEq, Eq, Structural)]
pub struct GlueVertex {
    pub weight: RawF32,
    pub vertex_index: u32,
}

/// The end of a glue that glue coordinate `c` of model `m` describes.
pub open spec fn glue_vertex_of(m: &ParsedModel, c: int) -> GlueVertex {
    GlueVertex { weight: m.glue_coord.weight@[c], vertex_index: m.glue_coord.vertex_index@[c] as u32 }
}

impl<'model> GlueView<'model> {
    /// The glued vertex pairs: consecutive glue coordinates taken two at a time.
    pub fn coords(&self) -> (r: Vec<[GlueVertex; 2]>)
        requires
            self.valid(),
            self.model.validated(),
        ensures
            r@.len() == self.model.glue.cnt_coords@[self.idx as int] / 2,
            forall|k: int|
                0 <= k < r@.len() ==> {
                    let c = self.model.glue.i_coords@[self.idx as int].0 + 2 * k;
                    &&& (#[trigger] r@[k])@[0] == glue_vertex_of(self.model, c)
                    &&& r@[k]@[1] == glue_vertex_of(self.model, c + 1)
                },
    {
        let ghost m = self.model;
        proof {
            assert(glue_refs_ok_at(m, self.idx as int));
            assert(glue_ok(m, self.idx as int));
            assert(m.count_of(ClassId::GlueCoord) == m.raw_count_of(ClassId::GlueCoord));
            assert(m.count_of(ClassId::Glue) == m.raw_count_of(ClassId::Glue));
        }
        let arr = self.coords_views();
        let count = arr.count();
        let ghost start = arr.start as int;
        let mut out: Vec<[GlueVertex; 2]> = Vec::new();
        let mut i: usize = 0;
        while i < count
            invariant
                m.validated(),
                arr.model == m,
                arr.start == start,
                arr.limit == start + count,
                arr.parent == Some(self.idx),
                start + count <= m.glue_coord.count,
                m.glue_coord.count == m.glue_coord.raw_count,
                count % 2 == 0,
                i % 2 == 0,
                i <= count,
                out@.len() == i / 2,
                forall|k: int|
                    0 <= k < out@.len() ==> {
                        let c = start + 2 * k;
                        &&& (#[trigger] out@[k])@[0] == glue_vertex_of(m, c)
                        &&& out@[k]@[1] == glue_vertex_of(m, c + 1)
                    },
            decreases count - i,
        {
            let c1 = arr.index(i).unwrap();
            let c2 = arr.index(i + 1).unwrap();
            let pair = [
                GlueVertex { weight: *c1.0.f_weight(), vertex_index: *c1.0.f_vertex_index() as u32 },
                GlueVertex { weight: *c2.0.f_weight(), vertex_index: *c2.0.f_vertex_index() as u32 },
            ];
            out.push(pair);
            i = i + 2;
        }
        out
    }
}

/// A point of a blend weight limit: a parameter value and the weight allowed there.
#[derive(Debug, Copy, Clone, PartialEq, Eq, Structural)]
pub struct LimitPoint {
    pub value: RawF32,
    pub weight: RawF32,
}

impl<'model> BlendWeightLimitView<'model> {
    /// The points of this limit, in order.
    pub fn points(&self) -> (r: Vec<LimitPoint>)
        requires
            self.valid(),
            self.model.validated(),
        ensures
            r@.len() == self.model.blend_weight_limit.cnt_points@[self.idx as int],
            forall|k: int|
                0 <= k < r@.len() ==> {
                    let p = self.model.blend_weight_limit.i_points@[self.idx as int].0 + k;
                    #[trigger] r@[k] == (LimitPoint {
                        value: self.model.blend_weight_limit_point.value@[p],
                        weight: self.model.blend_weight_limit_point.weight@[p],
                    })
                },
    {
        let ghost m = self.model;
        let ghost start = m.blend_weight_limit.i_points@[self.idx as int].0 as int;
        let ghost cnt = m.blend_weight_limit.cnt_points@[self.idx as int] as int;
        proof {
            assert(blend_weight_limit_refs_ok_at(m, self.idx as int));
            assert(m.count_of(ClassId::BlendWeightLimitPoint) == m.raw_count_of(ClassId::BlendWeightLimitPoint));
        }
        let mut it = self.points_views().into_iter();
        let mut out: Vec<LimitPoint> = Vec::new();
        loop
            invariant
                m.validated(),
                it.model == m,
                0 <= start <= it.idx <= start + cnt,
                it.limit == start + cnt,
                start + cnt <= m.blend_weight_limit_point.count,
                m.blend_weight_limit_point.count == m.blend_weight_limit_point.raw_count,
                out@.len() == it.idx - start,
                forall|k: int|
                    0 <= k < out@.len() ==> #[trigger] out@[k] == (LimitPoint {
                        value: m.blend_weight_limit_point.value@[start + k],
                        weight: m.blend_weight_limit_point.weight@[start + k],
                    }),
            ensures
                it.idx == start + cnt,
            decreases start + cnt - it.idx,
        {
            let pt = match it.next() {
                Some(v) => v.0,
                None => {
                    break;
                },
            };
            out.push(LimitPoint { value: *pt.f_value(), weight: *pt.f_weight() });
        }
        out
    }
}

impl<'model> ParamView<'model> {
    /// The keypoints of this parameter, when it has any.
    pub fn keypoints(&self) -> (r: Option<&'model [RawF32]>)
        requires
            self.valid(),
            self.model.validated(),
        ensures
            ({
                let s = self.model.param.i_keypoints@[self.idx as int].0 as int;
                let n = self.model.param.cnt_keypoints@[self.idx as int] as int;
                &&& r is None <==> n == 0
                &&& r matches Some(kp) ==> kp@ == self.model.keypoint.values@.subrange(s, s + n)
            }),
    {
        proof {
            assert(param_refs_ok_at(self.model, self.idx as int));
            assert(self.model.count_of(ClassId::Keypoint) == self.model.raw_count_of(ClassId::Keypoint));
        }
        let kp = self.keypoints_slice();
        if kp.len() == 0 {
            None
        } else {
            Some(kp)
        }
    }
}

impl<'model> ParamMapView<'model> {
    /// The keypoints of this map.
    pub fn keypoints(&self) -> (r: &'model [RawF32])
        requires
            self.valid(),
            self.model.validated(),
        ensures
            r@ == self.model.keypoint.values@.subrange(
                self.model.param_map.i_keypoints@[self.idx as int].0 as int,
                self.model.param_map.i_keypoints@[self.idx as int].0 + self.model.param_map.cnt_keypoints@[self.idx as int],
            ),
    {
        proof {
            assert(param_map_refs_ok_at(self.model, self.idx as int));
            assert(self.model.count_of(ClassId::Keypoint) == self.model.raw_count_of(ClassId::Keypoint));
        }
        self.keypoints_slice()
    }
}

impl<'model> BlendParamMapView<'model> {
    /// The keypoints of this map.
    pub fn keypoints(&self) -> (r: &'model [RawF32])
        requires
            self.valid(),
            self.model.validated(),
        ensures
            r@ == self.model.keypoint.values@.subrange(
                self.model.blend_param_map.i_keypoints@[self.idx as int].0 as int,
                self.model.blend_param_map.i_keypoints@[self.idx as int].0 + self.model.blend_param_map.cnt_keypoints@[
                    self.idx as int],
            ),
    {
        proof {
            assert(blend_param_map_refs_ok_at(self.model, self.idx as int));
            assert(self.model.count_of(ClassId::Keypoint) == self.model.raw_count_of(ClassId::Keypoint));
        }
        self.keypoints_slice()
    }
}

impl ParsedModel {
    /// Every `Part` object of the model, by id.
    pub fn parts(&self) -> (r: ItemCollection<'_, PartView<'_>>)
        requires
            self.part.count <= u32::MAX,
        ensures
            r.model == self,
            r.start == 0,
            r.limit == self.part.count,
            r.parent is None,
    {
        ItemCollection::new(self, 0, self.part.count as u32)
    }

    /// Every `ArtMesh` object of the model, by id.
    pub fn artmeshes(&self) -> (r: ItemCollection<'_, ArtMeshView<'_>>)
        requires
            self.art_mesh.count <= u32::MAX,
        ensures
            r.model == self,
            r.start == 0,
            r.limit == self.art_mesh.count,
            r.parent is None,
    {
        ItemCollection::new(self, 0, self.art_mesh.count as u32)
    }

    /// Every `Deformer` object of the model, by id.
    pub fn deformers(&self) -> (r: ItemCollection<'_, DeformerView<'_>>)
        requires
            self.deformer.count <= u32::MAX,
        ensures
            r.model == self,
            r.start == 0,
            r.limit == self.deformer.count,
            r.parent is None,
    {
        ItemCollection::new(self, 0, self.deformer.count as u32)
    }

    /// Every `DrawGroup` object of the model, by id.
    pub fn draw_groups(&self) -> (r: ItemCollection<'_, DrawGroupView<'_>>)
        requires
            self.draw_group.count <= u32::MAX,
        ensures
            r.model == self,
            r.start == 0,
            r.limit == self.draw_group.count,
            r.parent is None,
    {
        ItemCollection::new(self, 0, self.draw_group.count as u32)
    }

    /// Every `ParamMap` object of the model, by id.
    pub fn param_maps(&self) -> (r: ItemCollection<'_, ParamMapView<'_>>)
        requires
            self.param_map.count <= u32::MAX,
        ensures
            r.model == self,
            r.start == 0,
            r.limit == self.param_map.count,
            r.parent is None,
    {
        ItemCollection::new(self, 0, self.param_map.count as u32)
    }

    /// Every `BlendParamMap` object of the model, by id.
    pub fn blend_param_maps(&self) -> (r: ItemCollection<'_, BlendParamMapView<'_>>)
        requires
            self.blend_param_map.count <= u32::MAX,
        ensures
            r.model == self,
            r.start == 0,
            r.limit == self.blend_param_map.count,
            r.parent is None,
    {
        ItemCollection::new(self, 0, self.blend_param_map.count as u32)
    }

    /// Every `BlendWeightLimit` object of the model, by id.
    pub fn blend_weight_limits(&self) -> (r: ItemCollection<'_, BlendWeightLimitView<'_>>)
        requires
            self.blend_weight_limit.count <= u32::MAX,
        ensures
            r.model == self,
            r.start == 0,
            r.limit == self.blend_weight_limit.count,
            r.parent is None,
    {
        ItemCollection::new(self, 0, self.blend_weight_limit.count as u32)
    }

    /// Every `Param` object of the model, by id.
    pub fn params(&self) -> (r: ItemCollection<'_, ParamView<'_>>)
        requires
            self.param.count <= u32::MAX,
        ensures
            r.model == self,
            r.start == 0,
            r.limit == self.param.count,
            r.parent is None,
    {
        ItemCollection::new(self, 0, self.param.count as u32)
    }

    /// Every `Glue` object of the model, by id.
    pub fn glues(&self) -> (r: ItemCollection<'_, GlueView<'_>>)
        requires
            self.glue.count <= u32::MAX,
        ensures
            r.model == self,
            r.start == 0,
            r.limit == self.glue.count,
            r.parent is None,
    {
        ItemCollection::new(self, 0, self.glue.count as u32)
    }

    /// The draw group at the root of the drawing order, if the model names one.
    pub fn root_draw_group(&self) -> (r: Option<ViewRef<'_, DrawGroupView<'_>>>)
        requires
            self.root_draw_group matches Some(g) ==> g.0 < self.draw_group.count,
        ensures
            r is Some <==> self.root_draw_group is Some,
            r matches Some(v) ==> v.0.model == self && v.0.idx == self.root_draw_group.unwrap().0,
    {
        match self.root_draw_group {
            Some(idx) => Some(DrawGroupView::get_ref(self, idx).unwrap()),
            None => None,
        }
    }

    /// The keys that a pose of this model can hold; the model must have them.
    pub fn pose_map(&self) -> (r: &Arc<PoseMap>)
        requires
            self.pose_map is Some,
        ensures
            *r == self.pose_map.unwrap(),
    {
        self.pose_map.as_ref().unwrap()
    }

    /// The vertex indices of every mesh, end to end.
    pub fn index_buffer(&self) -> (r: Option<&[u16]>)
        ensures
            r matches Some(b) && b@ == self.vertex_index.values@,
    {
        Some(self.vertex_index.values.as_slice())
    }

    /// The texture coordinates of every mesh, end to end.
    pub fn texcoord_buffer(&self) -> (r: Option<&[Coord]>)
        ensures
            r matches Some(b) && b@ == self.tex_coord.values@,
    {
        Some(self.tex_coord.values.as_slice())
    }
}

} // verus!
