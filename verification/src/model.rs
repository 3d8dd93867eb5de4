use vstd::prelude::*;
use std::marker::PhantomData;
use std::ops::Range;
use std::sync::Arc;
use crate::classes::{BlendConfig, DeformerType, DrawItemType, ParamSnapType};
use crate::error::ParseError;
use crate::pose::PoseMap;
use crate::types::{ClassInfo, Coord, Idx, OptIdx, RawF32, U32Pair, ItemCollection, ObjectView, ViewRef, RawObject, Object, ChildView, PrivRef, Reference, OptReference, opt_idx_get};
use crate::version::{Pass, Version};

verus! {

/// Canvas placement of the model (IEEE-754 single-precision bit patterns).
#[derive(Copy, Clone, Debug, Default)]
pub struct Canvas {
    pub scale: RawF32,
    pub center_x: RawF32,
    pub center_y: RawF32,
    pub width: RawF32,
    pub height: RawF32,
}

/// Marker of the `Part` class.
#[derive(Debug, Copy, Clone)]
pub struct Part();

impl ClassInfo for Part {
    open spec fn spec_stride() -> u32 { 1 }
    open spec fn spec_bound(model: &ParsedModel) -> usize { model.part.raw_count }
    fn stride() -> (r: u32) { 1 }
    fn bound(model: &ParsedModel) -> (r: usize) { model.part.raw_count }
}

impl RawObject for Part {
    type Idx = Idx<Part>;
    type OptIdx = OptIdx<Part>;
}

pub type IPart = Idx<Part>;
pub type OptIPart = OptIdx<Part>;

impl Object for Part {
    type View<'a> = PartView<'a>;
}

/// Marker of the `Deformer` class.
#[derive(Debug, Copy, Clone)]
pub struct Deformer();

impl ClassInfo for Deformer {
    open spec fn spec_stride() -> u32 { 1 }
    open spec fn spec_bound(model: &ParsedModel) -> usize { model.deformer.raw_count }
    fn stride() -> (r: u32) { 1 }
    fn bound(model: &ParsedModel) -> (r: usize) { model.deformer.raw_count }
}

impl RawObject for Deformer {
    type Idx = Idx<Deformer>;
    type OptIdx = OptIdx<Deformer>;
}

pub type IDeformer = Idx<Deformer>;
pub type OptIDeformer = OptIdx<Deformer>;

impl Object for Deformer {
    type View<'a> = DeformerView<'a>;
}

/// Marker of the `WarpDeformer` class.
#[derive(Debug, Copy, Clone)]
pub struct WarpDeformer();

impl ClassInfo for WarpDeformer {
    open spec fn spec_stride() -> u32 { 1 }
    open spec fn spec_bound(model: &ParsedModel) -> usize { model.warp_deformer.raw_count }
    fn stride() -> (r: u32) { 1 }
    fn bound(model: &ParsedModel) -> (r: usize) { model.warp_deformer.raw_count }
}

impl RawObject for WarpDeformer {
    type Idx = Idx<WarpDeformer>;
    type OptIdx = OptIdx<WarpDeformer>;
}

pub type IWarpDeformer = Idx<WarpDeformer>;
pub type OptIWarpDeformer = OptIdx<WarpDeformer>;

impl Object for WarpDeformer {
    type View<'a> = WarpDeformerView<'a>;
}

/// Marker of the `RotDeformer` class.
#[derive(Debug, Copy, Clone)]
pub struct RotDeformer();

impl ClassInfo for RotDeformer {
    open spec fn spec_stride() -> u32 { 1 }
    open spec fn spec_bound(model: &ParsedModel) -> usize { model.rot_deformer.raw_count }
    fn stride() -> (r: u32) { 1 }
    fn bound(model: &ParsedModel) -> (r: usize) { model.rot_deformer.raw_count }
}

impl RawObject for RotDeformer {
    type Idx = Idx<RotDeformer>;
    type OptIdx = OptIdx<RotDeformer>;
}

pub type IRotDeformer = Idx<RotDeformer>;
pub type OptIRotDeformer = OptIdx<RotDeformer>;

impl Object for RotDeformer {
    type View<'a> = RotDeformerView<'a>;
}

/// Marker of the `ArtMesh` class.
#[derive(Debug, Copy, Clone)]
pub struct ArtMesh();

impl ClassInfo for ArtMesh {
    open spec fn spec_stride() -> u32 { 1 }
    open spec fn spec_bound(model: &ParsedModel) -> usize { model.art_mesh.raw_count }
    fn stride() -> (r: u32) { 1 }
    fn bound(model: &ParsedModel) -> (r: usize) { model.art_mesh.raw_count }
}

impl RawObject for ArtMesh {
    type Idx = Idx<ArtMesh>;
    type OptIdx = OptIdx<ArtMesh>;
}

pub type IArtMesh = Idx<ArtMesh>;
pub type OptIArtMesh = OptIdx<ArtMesh>;

impl Object for ArtMesh {
    type View<'a> = ArtMeshView<'a>;
}

/// Marker of the `Param` class.
#[derive(Debug, Copy, Clone)]
pub struct Param();

impl ClassInfo for Param {
    open spec fn spec_stride() -> u32 { 1 }
    open spec fn spec_bound(model: &ParsedModel) -> usize { model.param.raw_count }
    fn stride() -> (r: u32) { 1 }
    fn bound(model: &ParsedModel) -> (r: usize) { model.param.raw_count }
}

impl RawObject for Param {
    type Idx = Idx<Param>;
    type OptIdx = OptIdx<Param>;
}

pub type IParam = Idx<Param>;
pub type OptIParam = OptIdx<Param>;

impl Object for Param {
    type View<'a> = ParamView<'a>;
}

/// Marker of the `PartForm` class.
#[derive(Debug, Copy, Clone)]
pub struct PartForm();

impl ClassInfo for PartForm {
    open spec fn spec_stride() -> u32 { 1 }
    open spec fn spec_bound(model: &ParsedModel) -> usize { model.part_form.raw_count }
    fn stride() -> (r: u32) { 1 }
    fn bound(model: &ParsedModel) -> (r: usize) { model.part_form.raw_count }
}

impl RawObject for PartForm {
    type Idx = Idx<PartForm>;
    type OptIdx = OptIdx<PartForm>;
}

pub type IPartForm = Idx<PartForm>;
pub type OptIPartForm = OptIdx<PartForm>;

impl Object for PartForm {
    type View<'a> = PartFormView<'a>;
}

/// Marker of the `WarpForm` class.
#[derive(Debug, Copy, Clone)]
pub struct WarpForm();

impl ClassInfo for WarpForm {
    open spec fn spec_stride() -> u32 { 1 }
    open spec fn spec_bound(model: &ParsedModel) -> usize { model.warp_form.raw_count }
    fn stride() -> (r: u32) { 1 }
    fn bound(model: &ParsedModel) -> (r: usize) { model.warp_form.raw_count }
}

impl RawObject for WarpForm {
    type Idx = Idx<WarpForm>;
    type OptIdx = OptIdx<WarpForm>;
}

pub type IWarpForm = Idx<WarpForm>;
pub type OptIWarpForm = OptIdx<WarpForm>;

impl Object for WarpForm {
    type View<'a> = WarpFormView<'a>;
}

/// Marker of the `RotForm` class.
#[derive(Debug, Copy, Clone)]
pub struct RotForm();

impl ClassInfo for RotForm {
    open spec fn spec_stride() -> u32 { 1 }
    open spec fn spec_bound(model: &ParsedModel) -> usize { model.rot_form.raw_count }
    fn stride() -> (r: u32) { 1 }
    fn bound(model: &ParsedModel) -> (r: usize) { model.rot_form.raw_count }
}

impl RawObject for RotForm {
    type Idx = Idx<RotForm>;
    type OptIdx = OptIdx<RotForm>;
}

pub type IRotForm = Idx<RotForm>;
pub type OptIRotForm = OptIdx<RotForm>;

impl Object for RotForm {
    type View<'a> = RotFormView<'a>;
}

/// Marker of the `ArtMeshForm` class.
#[derive(Debug, Copy, Clone)]
pub struct ArtMeshForm();

impl ClassInfo for ArtMeshForm {
    open spec fn spec_stride() -> u32 { 1 }
    open spec fn spec_bound(model: &ParsedModel) -> usize { model.art_mesh_form.raw_count }
    fn stride() -> (r: u32) { 1 }
    fn bound(model: &ParsedModel) -> (r: usize) { model.art_mesh_form.raw_count }
}

impl RawObject for ArtMeshForm {
    type Idx = Idx<ArtMeshForm>;
    type OptIdx = OptIdx<ArtMeshForm>;
}

pub type IArtMeshForm = Idx<ArtMeshForm>;
pub type OptIArtMeshForm = OptIdx<ArtMeshForm>;

impl Object for ArtMeshForm {
    type View<'a> = ArtMeshFormView<'a>;
}

/// Marker of the `VertexCoord` class.
#[derive(Debug, Copy, Clone)]
pub struct VertexCoord();

impl ClassInfo for VertexCoord {
    open spec fn spec_stride() -> u32 { 2 }
    open spec fn spec_bound(model: &ParsedModel) -> usize { model.vertex_coord.raw_count }
    fn stride() -> (r: u32) { 2 }
    fn bound(model: &ParsedModel) -> (r: usize) { model.vertex_coord.raw_count }
}

impl RawObject for VertexCoord {
    type Idx = Idx<VertexCoord>;
    type OptIdx = OptIdx<VertexCoord>;
}

pub type IVertexCoord = Idx<VertexCoord>;
pub type OptIVertexCoord = OptIdx<VertexCoord>;

/// Marker of the `ParamMapRef` class.
#[derive(Debug, Copy, Clone)]
pub struct ParamMapRef();

impl ClassInfo for ParamMapRef {
    open spec fn spec_stride() -> u32 { 1 }
    open spec fn spec_bound(model: &ParsedModel) -> usize { model.param_map_ref.raw_count }
    fn stride() -> (r: u32) { 1 }
    fn bound(model: &ParsedModel) -> (r: usize) { model.param_map_ref.raw_count }
}

impl RawObject for ParamMapRef {
    type Idx = Idx<ParamMapRef>;
    type OptIdx = OptIdx<ParamMapRef>;
}

pub type IParamMapRef = Idx<ParamMapRef>;
pub type OptIParamMapRef = OptIdx<ParamMapRef>;

impl Object for ParamMapRef {
    type View<'a> = ParamMapRefView<'a>;
}

/// Marker of the `ParamMapSet` class.
#[derive(Debug, Copy, Clone)]
pub struct ParamMapSet();

impl ClassInfo for ParamMapSet {
    open spec fn spec_stride() -> u32 { 1 }
    open spec fn spec_bound(model: &ParsedModel) -> usize { model.param_map_set.raw_count }
    fn stride() -> (r: u32) { 1 }
    fn bound(model: &ParsedModel) -> (r: usize) { model.param_map_set.raw_count }
}

impl RawObject for ParamMapSet {
    type Idx = Idx<ParamMapSet>;
    type OptIdx = OptIdx<ParamMapSet>;
}

pub type IParamMapSet = Idx<ParamMapSet>;
pub type OptIParamMapSet = OptIdx<ParamMapSet>;

impl Object for ParamMapSet {
    type View<'a> = ParamMapSetView<'a>;
}

/// Marker of the `ParamMap` class.
#[derive(Debug, Copy, Clone)]
pub struct ParamMap();

impl ClassInfo for ParamMap {
    open spec fn spec_stride() -> u32 { 1 }
    open spec fn spec_bound(model: &ParsedModel) -> usize { model.param_map.raw_count }
    fn stride() -> (r: u32) { 1 }
    fn bound(model: &ParsedModel) -> (r: usize) { model.param_map.raw_count }
}

impl RawObject for ParamMap {
    type Idx = Idx<ParamMap>;
    type OptIdx = OptIdx<ParamMap>;
}

pub type IParamMap = Idx<ParamMap>;
pub type OptIParamMap = OptIdx<ParamMap>;

impl Object for ParamMap {
    type View<'a> = ParamMapView<'a>;
}

/// Marker of the `Keypoint` class.
#[derive(Debug, Copy, Clone)]
pub struct Keypoint();

impl ClassInfo for Keypoint {
    open spec fn spec_stride() -> u32 { 1 }
    open spec fn spec_bound(model: &ParsedModel) -> usize { model.keypoint.raw_count }
    fn stride() -> (r: u32) { 1 }
    fn bound(model: &ParsedModel) -> (r: usize) { model.keypoint.raw_count }
}

impl RawObject for Keypoint {
    type Idx = Idx<Keypoint>;
    type OptIdx = OptIdx<Keypoint>;
}

pub type IKeypoint = Idx<Keypoint>;
pub type OptIKeypoint = OptIdx<Keypoint>;

/// Marker of the `TexCoord` class.
#[derive(Debug, Copy, Clone)]
pub struct TexCoord();

impl ClassInfo for TexCoord {
    open spec fn spec_stride() -> u32 { 2 }
    open spec fn spec_bound(model: &ParsedModel) -> usize { model.tex_coord.raw_count }
    fn stride() -> (r: u32) { 2 }
    fn bound(model: &ParsedModel) -> (r: usize) { model.tex_coord.raw_count }
}

impl RawObject for TexCoord {
    type Idx = Idx<TexCoord>;
    type OptIdx = OptIdx<TexCoord>;
}

pub type ITexCoord = Idx<TexCoord>;
pub type OptITexCoord = OptIdx<TexCoord>;

/// Marker of the `VertexIndex` class.
#[derive(Debug, Copy, Clone)]
pub struct VertexIndex();

impl ClassInfo for VertexIndex {
    open spec fn spec_stride() -> u32 { 1 }
    open spec fn spec_bound(model: &ParsedModel) -> usize { model.vertex_index.raw_count }
    fn stride() -> (r: u32) { 1 }
    fn bound(model: &ParsedModel) -> (r: usize) { model.vertex_index.raw_count }
}

impl RawObject for VertexIndex {
    type Idx = Idx<VertexIndex>;
    type OptIdx = OptIdx<VertexIndex>;
}

pub type IVertexIndex = Idx<VertexIndex>;
pub type OptIVertexIndex = OptIdx<VertexIndex>;

/// Marker of the `ArtMeshRef` class.
#[derive(Debug, Copy, Clone)]
pub struct ArtMeshRef();

impl ClassInfo for ArtMeshRef {
    open spec fn spec_stride() -> u32 { 1 }
    open spec fn spec_bound(model: &ParsedModel) -> usize { model.art_mesh_ref.raw_count }
    fn stride() -> (r: u32) { 1 }
    fn bound(model: &ParsedModel) -> (r: usize) { model.art_mesh_ref.raw_count }
}

impl RawObject for ArtMeshRef {
    type Idx = Idx<ArtMeshRef>;
    type OptIdx = OptIdx<ArtMeshRef>;
}

pub type IArtMeshRef = Idx<ArtMeshRef>;
pub type OptIArtMeshRef = OptIdx<ArtMeshRef>;

impl Object for ArtMeshRef {
    type View<'a> = ArtMeshRefView<'a>;
}

/// Marker of the `DrawGroup` class.
#[derive(Debug, Copy, Clone)]
pub struct DrawGroup();

impl ClassInfo for DrawGroup {
    open spec fn spec_stride() -> u32 { 1 }
    open spec fn spec_bound(model: &ParsedModel) -> usize { model.draw_group.raw_count }
    fn stride() -> (r: u32) { 1 }
    fn bound(model: &ParsedModel) -> (r: usize) { model.draw_group.raw_count }
}

impl RawObject for DrawGroup {
    type Idx = Idx<DrawGroup>;
    type OptIdx = OptIdx<DrawGroup>;
}

pub type IDrawGroup = Idx<DrawGroup>;
pub type OptIDrawGroup = OptIdx<DrawGroup>;

impl Object for DrawGroup {
    type View<'a> = DrawGroupView<'a>;
}

/// Marker of the `DrawItem` class.
#[derive(Debug, Copy, Clone)]
pub struct DrawItem();

impl ClassInfo for DrawItem {
    open spec fn spec_stride() -> u32 { 1 }
    open spec fn spec_bound(model: &ParsedModel) -> usize { model.draw_item.raw_count }
    fn stride() -> (r: u32) { 1 }
    fn bound(model: &ParsedModel) -> (r: usize) { model.draw_item.raw_count }
}

impl RawObject for DrawItem {
    type Idx = Idx<DrawItem>;
    type OptIdx = OptIdx<DrawItem>;
}

pub type IDrawItem = Idx<DrawItem>;
pub type OptIDrawItem = OptIdx<DrawItem>;

impl Object for DrawItem {
    type View<'a> = DrawItemView<'a>;
}

/// Marker of the `Glue` class.
#[derive(Debug, Copy, Clone)]
pub struct Glue();

impl ClassInfo for Glue {
    open spec fn spec_stride() -> u32 { 1 }
    open spec fn spec_bound(model: &ParsedModel) -> usize { model.glue.raw_count }
    fn stride() -> (r: u32) { 1 }
    fn bound(model: &ParsedModel) -> (r: usize) { model.glue.raw_count }
}

impl RawObject for Glue {
    type Idx = Idx<Glue>;
    type OptIdx = OptIdx<Glue>;
}

pub type IGlue = Idx<Glue>;
pub type OptIGlue = OptIdx<Glue>;

impl Object for Glue {
    type View<'a> = GlueView<'a>;
}

/// Marker of the `GlueCoord` class.
#[derive(Debug, Copy, Clone)]
pub struct GlueCoord();

impl ClassInfo for GlueCoord {
    open spec fn spec_stride() -> u32 { 1 }
    open spec fn spec_bound(model: &ParsedModel) -> usize { model.glue_coord.raw_count }
    fn stride() -> (r: u32) { 1 }
    fn bound(model: &ParsedModel) -> (r: usize) { model.glue_coord.raw_count }
}

impl RawObject for GlueCoord {
    type Idx = Idx<GlueCoord>;
    type OptIdx = OptIdx<GlueCoord>;
}

pub type IGlueCoord = Idx<GlueCoord>;
pub type OptIGlueCoord = OptIdx<GlueCoord>;

impl Object for GlueCoord {
    type View<'a> = GlueCoordView<'a>;
}

/// Marker of the `GlueForm` class.
#[derive(Debug, Copy, Clone)]
pub struct GlueForm();

impl ClassInfo for GlueForm {
    open spec fn spec_stride() -> u32 { 1 }
    open spec fn spec_bound(model: &ParsedModel) -> usize { model.glue_form.raw_count }
    fn stride() -> (r: u32) { 1 }
    fn bound(model: &ParsedModel) -> (r: usize) { model.glue_form.raw_count }
}

impl RawObject for GlueForm {
    type Idx = Idx<GlueForm>;
    type OptIdx = OptIdx<GlueForm>;
}

pub type IGlueForm = Idx<GlueForm>;
pub type OptIGlueForm = OptIdx<GlueForm>;

impl Object for GlueForm {
    type View<'a> = GlueFormView<'a>;
}

/// Marker of the `MultiplyColor` class.
#[derive(Debug, Copy, Clone)]
pub struct MultiplyColor();

impl ClassInfo for MultiplyColor {
    open spec fn spec_stride() -> u32 { 1 }
    open spec fn spec_bound(model: &ParsedModel) -> usize { model.multiply_color.raw_count }
    fn stride() -> (r: u32) { 1 }
    fn bound(model: &ParsedModel) -> (r: usize) { model.multiply_color.raw_count }
}

impl RawObject for MultiplyColor {
    type Idx = Idx<MultiplyColor>;
    type OptIdx = OptIdx<MultiplyColor>;
}

pub type IMultiplyColor = Idx<MultiplyColor>;
pub type OptIMultiplyColor = OptIdx<MultiplyColor>;

impl Object for MultiplyColor {
    type View<'a> = MultiplyColorView<'a>;
}

/// Marker of the `ScreenColor` class.
#[derive(Debug, Copy, Clone)]
pub struct ScreenColor();

impl ClassInfo for ScreenColor {
    open spec fn spec_stride() -> u32 { 1 }
    open spec fn spec_bound(model: &ParsedModel) -> usize { model.screen_color.raw_count }
    fn stride() -> (r: u32) { 1 }
    fn bound(model: &ParsedModel) -> (r: usize) { model.screen_color.raw_count }
}

impl RawObject for ScreenColor {
    type Idx = Idx<ScreenColor>;
    type OptIdx = OptIdx<ScreenColor>;
}

pub type IScreenColor = Idx<ScreenColor>;
pub type OptIScreenColor = OptIdx<ScreenColor>;

impl Object for ScreenColor {
    type View<'a> = ScreenColorView<'a>;
}

/// Marker of the `BlendParamMap` class.
#[derive(Debug, Copy, Clone)]
pub struct BlendParamMap();

impl ClassInfo for BlendParamMap {
    open spec fn spec_stride() -> u32 { 1 }
    open spec fn spec_bound(model: &ParsedModel) -> usize { model.blend_param_map.raw_count }
    fn stride() -> (r: u32) { 1 }
    fn bound(model: &ParsedModel) -> (r: usize) { model.blend_param_map.raw_count }
}

impl RawObject for BlendParamMap {
    type Idx = Idx<BlendParamMap>;
    type OptIdx = OptIdx<BlendParamMap>;
}

pub type IBlendParamMap = Idx<BlendParamMap>;
pub type OptIBlendParamMap = OptIdx<BlendParamMap>;

impl Object for BlendParamMap {
    type View<'a> = BlendParamMapView<'a>;
}

/// Marker of the `BlendFormMap` class.
#[derive(Debug, Copy, Clone)]
pub struct BlendFormMap();

impl ClassInfo for BlendFormMap {
    open spec fn spec_stride() -> u32 { 1 }
    open spec fn spec_bound(model: &ParsedModel) -> usize { model.blend_form_map.raw_count }
    fn stride() -> (r: u32) { 1 }
    fn bound(model: &ParsedModel) -> (r: usize) { model.blend_form_map.raw_count }
}

impl RawObject for BlendFormMap {
    type Idx = Idx<BlendFormMap>;
    type OptIdx = OptIdx<BlendFormMap>;
}

pub type IBlendFormMap = Idx<BlendFormMap>;
pub type OptIBlendFormMap = OptIdx<BlendFormMap>;

impl Object for BlendFormMap {
    type View<'a> = BlendFormMapView<'a>;
}

/// Marker of the `WarpBlendFormMaps` class.
#[derive(Debug, Copy, Clone)]
pub struct WarpBlendFormMaps();

impl ClassInfo for WarpBlendFormMaps {
    open spec fn spec_stride() -> u32 { 1 }
    open spec fn spec_bound(model: &ParsedModel) -> usize { model.warp_blend_form_maps.raw_count }
    fn stride() -> (r: u32) { 1 }
    fn bound(model: &ParsedModel) -> (r: usize) { model.warp_blend_form_maps.raw_count }
}

impl RawObject for WarpBlendFormMaps {
    type Idx = Idx<WarpBlendFormMaps>;
    type OptIdx = OptIdx<WarpBlendFormMaps>;
}

pub type IWarpBlendFormMaps = Idx<WarpBlendFormMaps>;
pub type OptIWarpBlendFormMaps = OptIdx<WarpBlendFormMaps>;

impl Object for WarpBlendFormMaps {
    type View<'a> = WarpBlendFormMapsView<'a>;
}

/// Marker of the `ArtMeshBlendFormMaps` class.
#[derive(Debug, Copy, Clone)]
pub struct ArtMeshBlendFormMaps();

impl ClassInfo for ArtMeshBlendFormMaps {
    open spec fn spec_stride() -> u32 { 1 }
    open spec fn spec_bound(model: &ParsedModel) -> usize { model.art_mesh_blend_form_maps.raw_count }
    fn stride() -> (r: u32) { 1 }
    fn bound(model: &ParsedModel) -> (r: usize) { model.art_mesh_blend_form_maps.raw_count }
}

impl RawObject for ArtMeshBlendFormMaps {
    type Idx = Idx<ArtMeshBlendFormMaps>;
    type OptIdx = OptIdx<ArtMeshBlendFormMaps>;
}

pub type IArtMeshBlendFormMaps = Idx<ArtMeshBlendFormMaps>;
pub type OptIArtMeshBlendFormMaps = OptIdx<ArtMeshBlendFormMaps>;

impl Object for ArtMeshBlendFormMaps {
    type View<'a> = ArtMeshBlendFormMapsView<'a>;
}

/// Marker of the `BlendWeightLimitRef` class.
#[derive(Debug, Copy, Clone)]
pub struct BlendWeightLimitRef();

impl ClassInfo for BlendWeightLimitRef {
    open spec fn spec_stride() -> u32 { 1 }
    open spec fn spec_bound(model: &ParsedModel) -> usize { model.blend_weight_limit_ref.raw_count }
    fn stride() -> (r: u32) { 1 }
    fn bound(model: &ParsedModel) -> (r: usize) { model.blend_weight_limit_ref.raw_count }
}

impl RawObject for BlendWeightLimitRef {
    type Idx = Idx<BlendWeightLimitRef>;
    type OptIdx = OptIdx<BlendWeightLimitRef>;
}

pub type IBlendWeightLimitRef = Idx<BlendWeightLimitRef>;
pub type OptIBlendWeightLimitRef = OptIdx<BlendWeightLimitRef>;

impl Object for BlendWeightLimitRef {
    type View<'a> = BlendWeightLimitRefView<'a>;
}

/// Marker of the `BlendWeightLimit` class.
#[derive(Debug, Copy, Clone)]
pub struct BlendWeightLimit();

impl ClassInfo for BlendWeightLimit {
    open spec fn spec_stride() -> u32 { 1 }
    open spec fn spec_bound(model: &ParsedModel) -> usize { model.blend_weight_limit.raw_count }
    fn stride() -> (r: u32) { 1 }
    fn bound(model: &ParsedModel) -> (r: usize) { model.blend_weight_limit.raw_count }
}

impl RawObject for BlendWeightLimit {
    type Idx = Idx<BlendWeightLimit>;
    type OptIdx = OptIdx<BlendWeightLimit>;
}

pub type IBlendWeightLimit = Idx<BlendWeightLimit>;
pub type OptIBlendWeightLimit = OptIdx<BlendWeightLimit>;

impl Object for BlendWeightLimit {
    type View<'a> = BlendWeightLimitView<'a>;
}

/// Marker of the `BlendWeightLimitPoint` class.
#[derive(Debug, Copy, Clone)]
pub struct BlendWeightLimitPoint();

impl ClassInfo for BlendWeightLimitPoint {
    open spec fn spec_stride() -> u32 { 1 }
    open spec fn spec_bound(model: &ParsedModel) -> usize { model.blend_weight_limit_point.raw_count }
    fn stride() -> (r: u32) { 1 }
    fn bound(model: &ParsedModel) -> (r: usize) { model.blend_weight_limit_point.raw_count }
}

impl RawObject for BlendWeightLimitPoint {
    type Idx = Idx<BlendWeightLimitPoint>;
    type OptIdx = OptIdx<BlendWeightLimitPoint>;
}

pub type IBlendWeightLimitPoint = Idx<BlendWeightLimitPoint>;
pub type OptIBlendWeightLimitPoint = OptIdx<BlendWeightLimitPoint>;

impl Object for BlendWeightLimitPoint {
    type View<'a> = BlendWeightLimitPointView<'a>;
}

/// Marker of the `PartBlendFormMaps` class.
#[derive(Debug, Copy, Clone)]
pub struct PartBlendFormMaps();

impl ClassInfo for PartBlendFormMaps {
    open spec fn spec_stride() -> u32 { 1 }
    open spec fn spec_bound(model: &ParsedModel) -> usize { model.part_blend_form_maps.raw_count }
    fn stride() -> (r: u32) { 1 }
    fn bound(model: &ParsedModel) -> (r: usize) { model.part_blend_form_maps.raw_count }
}

impl RawObject for PartBlendFormMaps {
    type Idx = Idx<PartBlendFormMaps>;
    type OptIdx = OptIdx<PartBlendFormMaps>;
}

pub type IPartBlendFormMaps = Idx<PartBlendFormMaps>;
pub type OptIPartBlendFormMaps = OptIdx<PartBlendFormMaps>;

impl Object for PartBlendFormMaps {
    type View<'a> = PartBlendFormMapsView<'a>;
}

/// Marker of the `RotBlendFormMaps` class.
#[derive(Debug, Copy, Clone)]
pub struct RotBlendFormMaps();

impl ClassInfo for RotBlendFormMaps {
    open spec fn spec_stride() -> u32 { 1 }
    open spec fn spec_bound(model: &ParsedModel) -> usize { model.rot_blend_form_maps.raw_count }
    fn stride() -> (r: u32) { 1 }
    fn bound(model: &ParsedModel) -> (r: usize) { model.rot_blend_form_maps.raw_count }
}

impl RawObject for RotBlendFormMaps {
    type Idx = Idx<RotBlendFormMaps>;
    type OptIdx = OptIdx<RotBlendFormMaps>;
}

pub type IRotBlendFormMaps = Idx<RotBlendFormMaps>;
pub type OptIRotBlendFormMaps = OptIdx<RotBlendFormMaps>;

impl Object for RotBlendFormMaps {
    type View<'a> = RotBlendFormMapsView<'a>;
}

/// Marker of the `GlueBlendFormMaps` class.
#[derive(Debug, Copy, Clone)]
pub struct GlueBlendFormMaps();

impl ClassInfo for GlueBlendFormMaps {
    open spec fn spec_stride() -> u32 { 1 }
    open spec fn spec_bound(model: &ParsedModel) -> usize { model.glue_blend_form_maps.raw_count }
    fn stride() -> (r: u32) { 1 }
    fn bound(model: &ParsedModel) -> (r: usize) { model.glue_blend_form_maps.raw_count }
}

impl RawObject for GlueBlendFormMaps {
    type Idx = Idx<GlueBlendFormMaps>;
    type OptIdx = OptIdx<GlueBlendFormMaps>;
}

pub type IGlueBlendFormMaps = Idx<GlueBlendFormMaps>;
pub type OptIGlueBlendFormMaps = OptIdx<GlueBlendFormMaps>;

impl Object for GlueBlendFormMaps {
    type View<'a> = GlueBlendFormMapsView<'a>;
}

/// Marker of the `OffscreenPart` class.
#[derive(Debug, Copy, Clone)]
pub struct OffscreenPart();

impl ClassInfo for OffscreenPart {
    open spec fn spec_stride() -> u32 { 1 }
    open spec fn spec_bound(model: &ParsedModel) -> usize { model.offscreen_part.raw_count }
    fn stride() -> (r: u32) { 1 }
    fn bound(model: &ParsedModel) -> (r: usize) { model.offscreen_part.raw_count }
}

impl RawObject for OffscreenPart {
    type Idx = Idx<OffscreenPart>;
    type OptIdx = OptIdx<OffscreenPart>;
}

pub type IOffscreenPart = Idx<OffscreenPart>;
pub type OptIOffscreenPart = OptIdx<OffscreenPart>;

impl Object for OffscreenPart {
    type View<'a> = OffscreenPartView<'a>;
}

/// Marker of the `OffscreenPartForm` class.
#[derive(Debug, Copy, Clone)]
pub struct OffscreenPartForm();

impl ClassInfo for OffscreenPartForm {
    open spec fn spec_stride() -> u32 { 1 }
    open spec fn spec_bound(model: &ParsedModel) -> usize { model.offscreen_part_form.raw_count }
    fn stride() -> (r: u32) { 1 }
    fn bound(model: &ParsedModel) -> (r: usize) { model.offscreen_part_form.raw_count }
}

impl RawObject for OffscreenPartForm {
    type Idx = Idx<OffscreenPartForm>;
    type OptIdx = OptIdx<OffscreenPartForm>;
}

pub type IOffscreenPartForm = Idx<OffscreenPartForm>;
pub type OptIOffscreenPartForm = OptIdx<OffscreenPartForm>;

impl Object for OffscreenPartForm {
    type View<'a> = OffscreenPartFormView<'a>;
}

/// Marker of the `OffscreenPartBlendFormMaps` class.
#[derive(Debug, Copy, Clone)]
pub struct OffscreenPartBlendFormMaps();

impl ClassInfo for OffscreenPartBlendFormMaps {
    open spec fn spec_stride() -> u32 { 1 }
    open spec fn spec_bound(model: &ParsedModel) -> usize { model.offscreen_part_blend_form_maps.raw_count }
    fn stride() -> (r: u32) { 1 }
    fn bound(model: &ParsedModel) -> (r: usize) { model.offscreen_part_blend_form_maps.raw_count }
}

impl RawObject for OffscreenPartBlendFormMaps {
    type Idx = Idx<OffscreenPartBlendFormMaps>;
    type OptIdx = OptIdx<OffscreenPartBlendFormMaps>;
}

pub type IOffscreenPartBlendFormMaps = Idx<OffscreenPartBlendFormMaps>;
pub type OptIOffscreenPartBlendFormMaps = OptIdx<OffscreenPartBlendFormMaps>;

impl Object for OffscreenPartBlendFormMaps {
    type View<'a> = OffscreenPartBlendFormMapsView<'a>;
}

/// The columns of the `Part` class, one entry per object.
#[derive(Debug, Default)]
pub struct PartFields {
    pub raw_count: usize,
    pub count: usize,
    pub hdr: Vec<U32Pair>,
    pub id: Vec<String>,
    pub i_param_map_set: Vec<IParamMapSet>,
    pub i_forms: Vec<IPartForm>,
    pub cnt_forms: Vec<u32>,
    pub visible_artmeshes: Vec<bool>,
    pub visible_deformers: Vec<bool>,
    pub i_parent: Vec<OptIPart>,
    pub i_offscreen_part: Vec<OptIOffscreenPart>,
    pub i_blend_form_maps: Vec<OptIPartBlendFormMaps>,
}

impl PartFields {
    /// Every column holds one entry per object.
    pub open spec fn columns_ok(&self) -> bool {
        &&& self.raw_count <= u32::MAX
        &&& self.hdr.len() == self.raw_count
        &&& self.id.len() == self.raw_count
        &&& self.i_param_map_set.len() == self.raw_count
        &&& self.i_forms.len() == self.raw_count
        &&& self.cnt_forms.len() == self.raw_count
        &&& self.visible_artmeshes.len() == self.raw_count
        &&& self.visible_deformers.len() == self.raw_count
        &&& self.i_parent.len() == self.raw_count
        &&& self.i_offscreen_part.len() == self.raw_count
        &&& self.i_blend_form_maps.len() == self.raw_count
    }

    pub open spec fn wf(&self) -> bool {
        &&& self.columns_ok()
        &&& self.count <= self.raw_count
        &&& self.raw_count <= u32::MAX
    }
}

/// The columns of the `Deformer` class, one entry per object.
#[derive(Debug, Default)]
pub struct DeformerFields {
    pub raw_count: usize,
    pub count: usize,
    pub hdr: Vec<U32Pair>,
    pub id: Vec<String>,
    pub i_param_map_set: Vec<IParamMapSet>,
    pub unk_flag1: Vec<bool>,
    pub visible: Vec<bool>,
    pub i_part: Vec<OptIPart>,
    pub i_parent: Vec<OptIDeformer>,
    pub deformer_type: Vec<DeformerType>,
    pub i_typed: Vec<u32>,
}

impl DeformerFields {
    /// Every column holds one entry per object.
    pub open spec fn columns_ok(&self) -> bool {
        &&& self.raw_count <= u32::MAX
        &&& self.hdr.len() == self.raw_count
        &&& self.id.len() == self.raw_count
        &&& self.i_param_map_set.len() == self.raw_count
        &&& self.unk_flag1.len() == self.raw_count
        &&& self.visible.len() == self.raw_count
        &&& self.i_part.len() == self.raw_count
        &&& self.i_parent.len() == self.raw_count
        &&& self.deformer_type.len() == self.raw_count
        &&& self.i_typed.len() == self.raw_count
    }

    pub open spec fn wf(&self) -> bool {
        &&& self.columns_ok()
        &&& self.count <= self.raw_count
        &&& self.raw_count <= u32::MAX
    }
}

/// The columns of the `WarpDeformer` class, one entry per object.
#[derive(Debug, Default)]
pub struct WarpDeformerFields {
    pub raw_count: usize,
    pub count: usize,
    pub i_param_map_set: Vec<IParamMapSet>,
    pub i_forms: Vec<IWarpForm>,
    pub cnt_forms: Vec<u32>,
    pub vertex_count: Vec<u32>,
    pub y_divs: Vec<u32>,
    pub x_divs: Vec<u32>,
    pub bilinear_interpolation: Vec<bool>,
    pub i_color_forms: Vec<u32>,
    pub i_deformer: Vec<OptIDeformer>,
    pub i_blend_form_maps: Vec<OptIWarpBlendFormMaps>,
}

impl WarpDeformerFields {
    /// Every column holds one entry per object.
    pub open spec fn columns_ok(&self) -> bool {
        &&& self.raw_count <= u32::MAX
        &&& self.i_param_map_set.len() == self.raw_count
        &&& self.i_forms.len() == self.raw_count
        &&& self.cnt_forms.len() == self.raw_count
        &&& self.vertex_count.len() == self.raw_count
        &&& self.y_divs.len() == self.raw_count
        &&& self.x_divs.len() == self.raw_count
        &&& self.bilinear_interpolation.len() == self.raw_count
        &&& self.i_color_forms.len() == self.raw_count
        &&& self.i_deformer.len() == self.raw_count
        &&& self.i_blend_form_maps.len() == self.raw_count
    }

    pub open spec fn wf(&self) -> bool {
        &&& self.columns_ok()
        &&& self.count <= self.raw_count
        &&& self.raw_count <= u32::MAX
    }
}

/// The columns of the `RotDeformer` class, one entry per object.
#[derive(Debug, Default)]
pub struct RotDeformerFields {
    pub raw_count: usize,
    pub count: usize,
    pub i_param_map_set: Vec<IParamMapSet>,
    pub i_forms: Vec<IRotForm>,
    pub cnt_forms: Vec<u32>,
    pub angle_offset: Vec<RawF32>,
    pub i_color_forms: Vec<u32>,
    pub i_deformer: Vec<OptIDeformer>,
    pub i_blend_form_maps: Vec<OptIRotBlendFormMaps>,
}

impl RotDeformerFields {
    /// Every column holds one entry per object.
    pub open spec fn columns_ok(&self) -> bool {
        &&& self.raw_count <= u32::MAX
        &&& self.i_param_map_set.len() == self.raw_count
        &&& self.i_forms.len() == self.raw_count
        &&& self.cnt_forms.len() == self.raw_count
        &&& self.angle_offset.len() == self.raw_count
        &&& self.i_color_forms.len() == self.raw_count
        &&& self.i_deformer.len() == self.raw_count
        &&& self.i_blend_form_maps.len() == self.raw_count
    }

    pub open spec fn wf(&self) -> bool {
        &&& self.columns_ok()
        &&& self.count <= self.raw_count
        &&& self.raw_count <= u32::MAX
    }
}

/// The columns of the `ArtMesh` class, one entry per object.
#[derive(Debug, Default)]
pub struct ArtMeshFields {
    pub raw_count: usize,
    pub count: usize,
    pub hdr: Vec<U32Pair>,
    pub unk_a: Vec<U32Pair>,
    pub unk_b: Vec<U32Pair>,
    pub unk_c: Vec<U32Pair>,
    pub id: Vec<String>,
    pub i_param_map_set: Vec<IParamMapSet>,
    pub i_forms: Vec<IArtMeshForm>,
    pub cnt_forms: Vec<u32>,
    pub unk_flag1: Vec<bool>,
    pub visible: Vec<bool>,
    pub i_part: Vec<OptIPart>,
    pub i_deformer: Vec<OptIDeformer>,
    pub texture: Vec<u32>,
    pub render_config: Vec<u8>,
    pub vertex_count: Vec<u32>,
    pub i_texcoord_start: Vec<ITexCoord>,
    pub i_indices: Vec<IVertexIndex>,
    pub cnt_indices: Vec<u32>,
    pub i_clips: Vec<IArtMeshRef>,
    pub cnt_clips: Vec<u32>,
    pub i_color_forms: Vec<u32>,
    pub blend_config: Vec<BlendConfig>,
    pub i_blend_form_maps: Vec<OptIArtMeshBlendFormMaps>,
}

impl ArtMeshFields {
    /// Every column holds one entry per object.
    pub open spec fn columns_ok(&self) -> bool {
        &&& self.raw_count <= u32::MAX
        &&& self.hdr.len() == self.raw_count
        &&& self.unk_a.len() == self.raw_count
        &&& self.unk_b.len() == self.raw_count
        &&& self.unk_c.len() == self.raw_count
        &&& self.id.len() == self.raw_count
        &&& self.i_param_map_set.len() == self.raw_count
        &&& self.i_forms.len() == self.raw_count
        &&& self.cnt_forms.len() == self.raw_count
        &&& self.unk_flag1.len() == self.raw_count
        &&& self.visible.len() == self.raw_count
        &&& self.i_part.len() == self.raw_count
        &&& self.i_deformer.len() == self.raw_count
        &&& self.texture.len() == self.raw_count
        &&& self.render_config.len() == self.raw_count
        &&& self.vertex_count.len() == self.raw_count
        &&& self.i_texcoord_start.len() == self.raw_count
        &&& self.i_indices.len() == self.raw_count
        &&& self.cnt_indices.len() == self.raw_count
        &&& self.i_clips.len() == self.raw_count
        &&& self.cnt_clips.len() == self.raw_count
        &&& self.i_color_forms.len() == self.raw_count
        &&& self.blend_config.len() == self.raw_count
        &&& self.i_blend_form_maps.len() == self.raw_count
    }

    pub open spec fn wf(&self) -> bool {
        &&& self.columns_ok()
        &&& self.count <= self.raw_count
        &&& self.raw_count <= u32::MAX
    }
}

/// The columns of the `Param` class, one entry per object.
#[derive(Debug, Default)]
pub struct ParamFields {
    pub raw_count: usize,
    pub count: usize,
    pub hdr: Vec<U32Pair>,
    pub id: Vec<String>,
    pub max: Vec<RawF32>,
    pub min: Vec<RawF32>,
    pub default: Vec<RawF32>,
    pub repeat: Vec<bool>,
    pub snap_type: Vec<ParamSnapType>,
    pub i_maps: Vec<IParamMap>,
    pub cnt_maps: Vec<u32>,
    pub unk_zero_2: Vec<U32Pair>,
    pub i_keypoints: Vec<IKeypoint>,
    pub cnt_keypoints: Vec<u32>,
    pub blendshape: Vec<bool>,
    pub i_blend_maps: Vec<IBlendParamMap>,
    pub cnt_blend_maps: Vec<u32>,
}

impl ParamFields {
    /// Every column holds one entry per object.
    pub open spec fn columns_ok(&self) -> bool {
        &&& self.raw_count <= u32::MAX
        &&& self.hdr.len() == self.raw_count
        &&& self.id.len() == self.raw_count
        &&& self.max.len() == self.raw_count
        &&& self.min.len() == self.raw_count
        &&& self.default.len() == self.raw_count
        &&& self.repeat.len() == self.raw_count
        &&& self.snap_type.len() == self.raw_count
        &&& self.i_maps.len() == self.raw_count
        &&& self.cnt_maps.len() == self.raw_count
        &&& self.unk_zero_2.len() == self.raw_count
        &&& self.i_keypoints.len() == self.raw_count
        &&& self.cnt_keypoints.len() == self.raw_count
        &&& self.blendshape.len() == self.raw_count
        &&& self.i_blend_maps.len() == self.raw_count
        &&& self.cnt_blend_maps.len() == self.raw_count
    }

    pub open spec fn wf(&self) -> bool {
        &&& self.columns_ok()
        &&& self.count <= self.raw_count
        &&& self.raw_count <= u32::MAX
    }
}

/// The columns of the `PartForm` class, one entry per object.
#[derive(Debug, Default)]
pub struct PartFormFields {
    pub raw_count: usize,
    pub count: usize,
    pub depth: Vec<RawF32>,
    pub i_offscreen: Vec<OptIOffscreenPartForm>,
}

impl PartFormFields {
    /// Every column holds one entry per object.
    pub open spec fn columns_ok(&self) -> bool {
        &&& self.raw_count <= u32::MAX
        &&& self.depth.len() == self.raw_count
        &&& self.i_offscreen.len() == self.raw_count
    }

    pub open spec fn wf(&self) -> bool {
        &&& self.columns_ok()
        &&& self.count <= self.raw_count
        &&& self.raw_count <= u32::MAX
    }
}

/// The columns of the `WarpForm` class, one entry per object.
#[derive(Debug, Default)]
pub struct WarpFormFields {
    pub raw_count: usize,
    pub count: usize,
    pub opacity: Vec<RawF32>,
    pub i_start_vertex: Vec<IVertexCoord>,
    pub i_multiply_color: Vec<IMultiplyColor>,
    pub i_screen_color: Vec<IScreenColor>,
}

impl WarpFormFields {
    /// Every column holds one entry per object.
    pub open spec fn columns_ok(&self) -> bool {
        &&& self.raw_count <= u32::MAX
        &&& self.opacity.len() == self.raw_count
        &&& self.i_start_vertex.len() == self.raw_count
        &&& self.i_multiply_color.len() == self.raw_count
        &&& self.i_screen_color.len() == self.raw_count
    }

    pub open spec fn wf(&self) -> bool {
        &&& self.columns_ok()
        &&& self.count <= self.raw_count
        &&& self.raw_count <= u32::MAX
    }
}

/// The columns of the `RotForm` class, one entry per object.
#[derive(Debug, Default)]
pub struct RotFormFields {
    pub raw_count: usize,
    pub count: usize,
    pub opacity: Vec<RawF32>,
    pub angle: Vec<RawF32>,
    pub pos_x: Vec<RawF32>,
    pub pos_y: Vec<RawF32>,
    pub scale: Vec<RawF32>,
    pub flip_x: Vec<bool>,
    pub flip_y: Vec<bool>,
    pub i_multiply_color: Vec<IMultiplyColor>,
    pub i_screen_color: Vec<IScreenColor>,
}

impl RotFormFields {
    /// Every column holds one entry per object.
    pub open spec fn columns_ok(&self) -> bool {
        &&& self.raw_count <= u32::MAX
        &&& self.opacity.len() == self.raw_count
        &&& self.angle.len() == self.raw_count
        &&& self.pos_x.len() == self.raw_count
        &&& self.pos_y.len() == self.raw_count
        &&& self.scale.len() == self.raw_count
        &&& self.flip_x.len() == self.raw_count
        &&& self.flip_y.len() == self.raw_count
        &&& self.i_multiply_color.len() == self.raw_count
        &&& self.i_screen_color.len() == self.raw_count
    }

    pub open spec fn wf(&self) -> bool {
        &&& self.columns_ok()
        &&& self.count <= self.raw_count
        &&& self.raw_count <= u32::MAX
    }
}

/// The columns of the `ArtMeshForm` class, one entry per object.
#[derive(Debug, Default)]
pub struct ArtMeshFormFields {
    pub raw_count: usize,
    pub count: usize,
    pub opacity: Vec<RawF32>,
    pub depth: Vec<RawF32>,
    pub i_start_vertex: Vec<IVertexCoord>,
    pub i_multiply_color: Vec<IMultiplyColor>,
    pub i_screen_color: Vec<IScreenColor>,
}

impl ArtMeshFormFields {
    /// Every column holds one entry per object.
    pub open spec fn columns_ok(&self) -> bool {
        &&& self.raw_count <= u32::MAX
        &&& self.opacity.len() == self.raw_count
        &&& self.depth.len() == self.raw_count
        &&& self.i_start_vertex.len() == self.raw_count
        &&& self.i_multiply_color.len() == self.raw_count
        &&& self.i_screen_color.len() == self.raw_count
    }

    pub open spec fn wf(&self) -> bool {
        &&& self.columns_ok()
        &&& self.count <= self.raw_count
        &&& self.raw_count <= u32::MAX
    }
}

/// The columns of the `VertexCoord` class, one entry per object.
#[derive(Debug, Default)]
pub struct VertexCoordFields {
    pub raw_count: usize,
    pub count: usize,
    pub values: Vec<Coord>,
}

impl VertexCoordFields {
    /// Every column holds one entry per object.
    pub open spec fn columns_ok(&self) -> bool {
        self.values.len() * 2 == self.raw_count
    }

    pub open spec fn wf(&self) -> bool {
        &&& self.columns_ok()
        &&& self.count <= self.raw_count
        &&& self.raw_count <= u32::MAX
    }

    /// The number of items that the declared scalar count makes, two scalars to an item;
    /// a count that is not a multiple of that is refused.
    pub fn item_count(&self) -> (r: Result<usize, ParseError>)
        ensures
            r is Ok <==> self.raw_count % 2 == 0,
            r matches Ok(n) ==> n == self.raw_count / 2,
            r matches Err(e) ==> (e matches ParseError::UnalignedItemCount(c, n, s) && c@ == "VertexCoord"@
                && n == self.raw_count && s == 2),
    {
        if self.raw_count % 2 != 0 {
            return Err(ParseError::UnalignedItemCount("VertexCoord", self.raw_count, 2));
        }
        Ok(self.raw_count / 2)
    }
}

/// The columns of the `ParamMapRef` class, one entry per object.
#[derive(Debug, Default)]
pub struct ParamMapRefFields {
    pub raw_count: usize,
    pub count: usize,
    pub i_map: Vec<IParamMap>,
}

impl ParamMapRefFields {
    /// Every column holds one entry per object.
    pub open spec fn columns_ok(&self) -> bool {
        &&& self.raw_count <= u32::MAX
        &&& self.i_map.len() == self.raw_count
    }

    pub open spec fn wf(&self) -> bool {
        &&& self.columns_ok()
        &&& self.count <= self.raw_count
        &&& self.raw_count <= u32::MAX
    }
}

/// The columns of the `ParamMapSet` class, one entry per object.
#[derive(Debug, Default)]
pub struct ParamMapSetFields {
    pub raw_count: usize,
    pub count: usize,
    pub i_refs: Vec<IParamMapRef>,
    pub cnt_refs: Vec<u32>,
}

impl ParamMapSetFields {
    /// Every column holds one entry per object.
    pub open spec fn columns_ok(&self) -> bool {
        &&& self.raw_count <= u32::MAX
        &&& self.i_refs.len() == self.raw_count
        &&& self.cnt_refs.len() == self.raw_count
    }

    pub open spec fn wf(&self) -> bool {
        &&& self.columns_ok()
        &&& self.count <= self.raw_count
        &&& self.raw_count <= u32::MAX
    }
}

/// The columns of the `ParamMap` class, one entry per object.
#[derive(Debug, Default)]
pub struct ParamMapFields {
    pub raw_count: usize,
    pub count: usize,
    pub i_keypoints: Vec<IKeypoint>,
    pub cnt_keypoints: Vec<u32>,
}

impl ParamMapFields {
    /// Every column holds one entry per object.
    pub open spec fn columns_ok(&self) -> bool {
        &&& self.raw_count <= u32::MAX
        &&& self.i_keypoints.len() == self.raw_count
        &&& self.cnt_keypoints.len() == self.raw_count
    }

    pub open spec fn wf(&self) -> bool {
        &&& self.columns_ok()
        &&& self.count <= self.raw_count
        &&& self.raw_count <= u32::MAX
    }
}

/// The columns of the `Keypoint` class, one entry per object.
#[derive(Debug, Default)]
pub struct KeypointFields {
    pub raw_count: usize,
    pub count: usize,
    pub values: Vec<RawF32>,
}

impl KeypointFields {
    /// Every column holds one entry per object.
    pub open spec fn columns_ok(&self) -> bool {
        self.values.len() * 1 == self.raw_count
    }

    pub open spec fn wf(&self) -> bool {
        &&& self.columns_ok()
        &&& self.count <= self.raw_count
        &&& self.raw_count <= u32::MAX
    }

    /// The number of items that the declared scalar count makes, one scalar to an item;
    /// a count that is not a multiple of that is refused.
    pub fn item_count(&self) -> (r: Result<usize, ParseError>)
        ensures
            r is Ok <==> self.raw_count % 1 == 0,
            r matches Ok(n) ==> n == self.raw_count / 1,
            r matches Err(e) ==> (e matches ParseError::UnalignedItemCount(c, n, s) && c@ == "Keypoint"@
                && n == self.raw_count && s == 1),
    {
        if self.raw_count % 1 != 0 {
            return Err(ParseError::UnalignedItemCount("Keypoint", self.raw_count, 1));
        }
        Ok(self.raw_count / 1)
    }
}

/// The columns of the `TexCoord` class, one entry per object.
#[derive(Debug, Default)]
pub struct TexCoordFields {
    pub raw_count: usize,
    pub count: usize,
    pub values: Vec<Coord>,
}

impl TexCoordFields {
    /// Every column holds one entry per object.
    pub open spec fn columns_ok(&self) -> bool {
        self.values.len() * 2 == self.raw_count
    }

    pub open spec fn wf(&self) -> bool {
        &&& self.columns_ok()
        &&& self.count <= self.raw_count
        &&& self.raw_count <= u32::MAX
    }

    /// The number of items that the declared scalar count makes, two scalars to an item;
    /// a count that is not a multiple of that is refused.
    pub fn item_count(&self) -> (r: Result<usize, ParseError>)
        ensures
            r is Ok <==> self.raw_count % 2 == 0,
            r matches Ok(n) ==> n == self.raw_count / 2,
            r matches Err(e) ==> (e matches ParseError::UnalignedItemCount(c, n, s) && c@ == "TexCoord"@
                && n == self.raw_count && s == 2),
    {
        if self.raw_count % 2 != 0 {
            return Err(ParseError::UnalignedItemCount("TexCoord", self.raw_count, 2));
        }
        Ok(self.raw_count / 2)
    }
}

/// The columns of the `VertexIndex` class, one entry per object.
#[derive(Debug, Default)]
pub struct VertexIndexFields {
    pub raw_count: usize,
    pub count: usize,
    pub values: Vec<u16>,
}

impl VertexIndexFields {
    /// Every column holds one entry per object.
    pub open spec fn columns_ok(&self) -> bool {
        self.values.len() * 1 == self.raw_count
    }

    pub open spec fn wf(&self) -> bool {
        &&& self.columns_ok()
        &&& self.count <= self.raw_count
        &&& self.raw_count <= u32::MAX
    }

    /// The number of items that the declared scalar count makes, one scalar to an item;
    /// a count that is not a multiple of that is refused.
    pub fn item_count(&self) -> (r: Result<usize, ParseError>)
        ensures
            r is Ok <==> self.raw_count % 1 == 0,
            r matches Ok(n) ==> n == self.raw_count / 1,
            r matches Err(e) ==> (e matches ParseError::UnalignedItemCount(c, n, s) && c@ == "VertexIndex"@
                && n == self.raw_count && s == 1),
    {
        if self.raw_count % 1 != 0 {
            return Err(ParseError::UnalignedItemCount("VertexIndex", self.raw_count, 1));
        }
        Ok(self.raw_count / 1)
    }
}

/// The columns of the `ArtMeshRef` class, one entry per object.
#[derive(Debug, Default)]
pub struct ArtMeshRefFields {
    pub raw_count: usize,
    pub count: usize,
    pub i_artmesh: Vec<OptIArtMesh>,
}

impl ArtMeshRefFields {
    /// Every column holds one entry per object.
    pub open spec fn columns_ok(&self) -> bool {
        &&& self.raw_count <= u32::MAX
        &&& self.i_artmesh.len() == self.raw_count
    }

    pub open spec fn wf(&self) -> bool {
        &&& self.columns_ok()
        &&& self.count <= self.raw_count
        &&& self.raw_count <= u32::MAX
    }
}

/// The columns of the `DrawGroup` class, one entry per object.
#[derive(Debug, Default)]
pub struct DrawGroupFields {
    pub raw_count: usize,
    pub count: usize,
    pub i_items: Vec<IDrawItem>,
    pub cnt_items: Vec<u32>,
    pub total_artmesh_count: Vec<u32>,
    pub max_depth: Vec<RawF32>,
    pub min_depth: Vec<RawF32>,
}

impl DrawGroupFields {
    /// Every column holds one entry per object.
    pub open spec fn columns_ok(&self) -> bool {
        &&& self.raw_count <= u32::MAX
        &&& self.i_items.len() == self.raw_count
        &&& self.cnt_items.len() == self.raw_count
        &&& self.total_artmesh_count.len() == self.raw_count
        &&& self.max_depth.len() == self.raw_count
        &&& self.min_depth.len() == self.raw_count
    }

    pub open spec fn wf(&self) -> bool {
        &&& self.columns_ok()
        &&& self.count <= self.raw_count
        &&& self.raw_count <= u32::MAX
    }
}

/// The columns of the `DrawItem` class, one entry per object.
#[derive(Debug, Default)]
pub struct DrawItemFields {
    pub raw_count: usize,
    pub count: usize,
    pub item_type: Vec<DrawItemType>,
    pub i_child: Vec<u32>,
    pub i_draw_group: Vec<OptIDrawGroup>,
}

impl DrawItemFields {
    /// Every column holds one entry per object.
    pub open spec fn columns_ok(&self) -> bool {
        &&& self.raw_count <= u32::MAX
        &&& self.item_type.len() == self.raw_count
        &&& self.i_child.len() == self.raw_count
        &&& self.i_draw_group.len() == self.raw_count
    }

    pub open spec fn wf(&self) -> bool {
        &&& self.columns_ok()
        &&& self.count <= self.raw_count
        &&& self.raw_count <= u32::MAX
    }
}

/// The columns of the `Glue` class, one entry per object.
#[derive(Debug, Default)]
pub struct GlueFields {
    pub raw_count: usize,
    pub count: usize,
    pub hdr: Vec<U32Pair>,
    pub id: Vec<String>,
    pub i_param_map_set: Vec<IParamMapSet>,
    pub i_forms: Vec<IGlueForm>,
    pub cnt_forms: Vec<u32>,
    pub i_artmesh_1: Vec<IArtMesh>,
    pub i_artmesh_2: Vec<IArtMesh>,
    pub i_coords: Vec<IGlueCoord>,
    pub cnt_coords: Vec<u32>,
    pub i_blend_form_maps: Vec<OptIGlueBlendFormMaps>,
}

impl GlueFields {
    /// Every column holds one entry per object.
    pub open spec fn columns_ok(&self) -> bool {
        &&& self.raw_count <= u32::MAX
        &&& self.hdr.len() == self.raw_count
        &&& self.id.len() == self.raw_count
        &&& self.i_param_map_set.len() == self.raw_count
        &&& self.i_forms.len() == self.raw_count
        &&& self.cnt_forms.len() == self.raw_count
        &&& self.i_artmesh_1.len() == self.raw_count
        &&& self.i_artmesh_2.len() == self.raw_count
        &&& self.i_coords.len() == self.raw_count
        &&& self.cnt_coords.len() == self.raw_count
        &&& self.i_blend_form_maps.len() == self.raw_count
    }

    pub open spec fn wf(&self) -> bool {
        &&& self.columns_ok()
        &&& self.count <= self.raw_count
        &&& self.raw_count <= u32::MAX
    }
}

/// The columns of the `GlueCoord` class, one entry per object.
#[derive(Debug, Default)]
pub struct GlueCoordFields {
    pub raw_count: usize,
    pub count: usize,
    pub weight: Vec<RawF32>,
    pub vertex_index: Vec<u16>,
}

impl GlueCoordFields {
    /// Every column holds one entry per object.
    pub open spec fn columns_ok(&self) -> bool {
        &&& self.raw_count <= u32::MAX
        &&& self.weight.len() == self.raw_count
        &&& self.vertex_index.len() == self.raw_count
    }

    pub open spec fn wf(&self) -> bool {
        &&& self.columns_ok()
        &&& self.count <= self.raw_count
        &&& self.raw_count <= u32::MAX
    }
}

/// The columns of the `GlueForm` class, one entry per object.
#[derive(Debug, Default)]
pub struct GlueFormFields {
    pub raw_count: usize,
    pub count: usize,
    pub compatibility: Vec<RawF32>,
}

impl GlueFormFields {
    /// Every column holds one entry per object.
    pub open spec fn columns_ok(&self) -> bool {
        &&& self.raw_count <= u32::MAX
        &&& self.compatibility.len() == self.raw_count
    }

    pub open spec fn wf(&self) -> bool {
        &&& self.columns_ok()
        &&& self.count <= self.raw_count
        &&& self.raw_count <= u32::MAX
    }
}

/// The columns of the `MultiplyColor` class, one entry per object.
#[derive(Debug, Default)]
pub struct MultiplyColorFields {
    pub raw_count: usize,
    pub count: usize,
    pub r: Vec<RawF32>,
    pub g: Vec<RawF32>,
    pub b: Vec<RawF32>,
}

impl MultiplyColorFields {
    /// Every column holds one entry per object.
    pub open spec fn columns_ok(&self) -> bool {
        &&& self.raw_count <= u32::MAX
        &&& self.r.len() == self.raw_count
        &&& self.g.len() == self.raw_count
        &&& self.b.len() == self.raw_count
    }

    pub open spec fn wf(&self) -> bool {
        &&& self.columns_ok()
        &&& self.count <= self.raw_count
        &&& self.raw_count <= u32::MAX
    }
}

/// The columns of the `ScreenColor` class, one entry per object.
#[derive(Debug, Default)]
pub struct ScreenColorFields {
    pub raw_count: usize,
    pub count: usize,
    pub r: Vec<RawF32>,
    pub g: Vec<RawF32>,
    pub b: Vec<RawF32>,
}

impl ScreenColorFields {
    /// Every column holds one entry per object.
    pub open spec fn columns_ok(&self) -> bool {
        &&& self.raw_count <= u32::MAX
        &&& self.r.len() == self.raw_count
        &&& self.g.len() == self.raw_count
        &&& self.b.len() == self.raw_count
    }

    pub open spec fn wf(&self) -> bool {
        &&& self.columns_ok()
        &&& self.count <= self.raw_count
        &&& self.raw_count <= u32::MAX
    }
}

/// The columns of the `BlendParamMap` class, one entry per object.
#[derive(Debug, Default)]
pub struct BlendParamMapFields {
    pub raw_count: usize,
    pub count: usize,
    pub i_keypoints: Vec<IKeypoint>,
    pub cnt_keypoints: Vec<u32>,
    pub neutral_index: Vec<u32>,
}

impl BlendParamMapFields {
    /// Every column holds one entry per object.
    pub open spec fn columns_ok(&self) -> bool {
        &&& self.raw_count <= u32::MAX
        &&& self.i_keypoints.len() == self.raw_count
        &&& self.cnt_keypoints.len() == self.raw_count
        &&& self.neutral_index.len() == self.raw_count
    }

    pub open spec fn wf(&self) -> bool {
        &&& self.columns_ok()
        &&& self.count <= self.raw_count
        &&& self.raw_count <= u32::MAX
    }
}

/// The columns of the `BlendFormMap` class, one entry per object.
#[derive(Debug, Default)]
pub struct BlendFormMapFields {
    pub raw_count: usize,
    pub count: usize,
    pub i_param_map: Vec<IBlendParamMap>,
    pub i_forms: Vec<u32>,
    pub cnt_forms: Vec<u32>,
    pub i_blendweight_limits: Vec<IBlendWeightLimitRef>,
    pub cnt_blendweight_limits: Vec<u32>,
}

impl BlendFormMapFields {
    /// Every column holds one entry per object.
    pub open spec fn columns_ok(&self) -> bool {
        &&& self.raw_count <= u32::MAX
        &&& self.i_param_map.len() == self.raw_count
        &&& self.i_forms.len() == self.raw_count
        &&& self.cnt_forms.len() == self.raw_count
        &&& self.i_blendweight_limits.len() == self.raw_count
        &&& self.cnt_blendweight_limits.len() == self.raw_count
    }

    pub open spec fn wf(&self) -> bool {
        &&& self.columns_ok()
        &&& self.count <= self.raw_count
        &&& self.raw_count <= u32::MAX
    }
}

/// The columns of the `WarpBlendFormMaps` class, one entry per object.
#[derive(Debug, Default)]
pub struct WarpBlendFormMapsFields {
    pub raw_count: usize,
    pub count: usize,
    pub i_warp: Vec<IWarpDeformer>,
    pub i_maps: Vec<IBlendFormMap>,
    pub cnt_maps: Vec<u32>,
}

impl WarpBlendFormMapsFields {
    /// Every column holds one entry per object.
    pub open spec fn columns_ok(&self) -> bool {
        &&& self.raw_count <= u32::MAX
        &&& self.i_warp.len() == self.raw_count
        &&& self.i_maps.len() == self.raw_count
        &&& self.cnt_maps.len() == self.raw_count
    }

    pub open spec fn wf(&self) -> bool {
        &&& self.columns_ok()
        &&& self.count <= self.raw_count
        &&& self.raw_count <= u32::MAX
    }
}

/// The columns of the `ArtMeshBlendFormMaps` class, one entry per object.
#[derive(Debug, Default)]
pub struct ArtMeshBlendFormMapsFields {
    pub raw_count: usize,
    pub count: usize,
    pub i_artmesh: Vec<IArtMesh>,
    pub i_maps: Vec<IBlendFormMap>,
    pub cnt_maps: Vec<u32>,
}

impl ArtMeshBlendFormMapsFields {
    /// Every column holds one entry per object.
    pub open spec fn columns_ok(&self) -> bool {
        &&& self.raw_count <= u32::MAX
        &&& self.i_artmesh.len() == self.raw_count
        &&& self.i_maps.len() == self.raw_count
        &&& self.cnt_maps.len() == self.raw_count
    }

    pub open spec fn wf(&self) -> bool {
        &&& self.columns_ok()
        &&& self.count <= self.raw_count
        &&& self.raw_count <= u32::MAX
    }
}

/// The columns of the `BlendWeightLimitRef` class, one entry per object.
#[derive(Debug, Default)]
pub struct BlendWeightLimitRefFields {
    pub raw_count: usize,
    pub count: usize,
    pub i_limit: Vec<IBlendWeightLimit>,
}

impl BlendWeightLimitRefFields {
    /// Every column holds one entry per object.
    pub open spec fn columns_ok(&self) -> bool {
        &&& self.raw_count <= u32::MAX
        &&& self.i_limit.len() == self.raw_count
    }

    pub open spec fn wf(&self) -> bool {
        &&& self.columns_ok()
        &&& self.count <= self.raw_count
        &&& self.raw_count <= u32::MAX
    }
}

/// The columns of the `BlendWeightLimit` class, one entry per object.
#[derive(Debug, Default)]
pub struct BlendWeightLimitFields {
    pub raw_count: usize,
    pub count: usize,
    pub i_param: Vec<IParam>,
    pub i_points: Vec<IBlendWeightLimitPoint>,
    pub cnt_points: Vec<u32>,
}

impl BlendWeightLimitFields {
    /// Every column holds one entry per object.
    pub open spec fn columns_ok(&self) -> bool {
        &&& self.raw_count <= u32::MAX
        &&& self.i_param.len() == self.raw_count
        &&& self.i_points.len() == self.raw_count
        &&& self.cnt_points.len() == self.raw_count
    }

    pub open spec fn wf(&self) -> bool {
        &&& self.columns_ok()
        &&& self.count <= self.raw_count
        &&& self.raw_count <= u32::MAX
    }
}

/// The columns of the `BlendWeightLimitPoint` class, one entry per object.
#[derive(Debug, Default)]
pub struct BlendWeightLimitPointFields {
    pub raw_count: usize,
    pub count: usize,
    pub value: Vec<RawF32>,
    pub weight: Vec<RawF32>,
}

impl BlendWeightLimitPointFields {
    /// Every column holds one entry per object.
    pub open spec fn columns_ok(&self) -> bool {
        &&& self.raw_count <= u32::MAX
        &&& self.value.len() == self.raw_count
        &&& self.weight.len() == self.raw_count
    }

    pub open spec fn wf(&self) -> bool {
        &&& self.columns_ok()
        &&& self.count <= self.raw_count
        &&& self.raw_count <= u32::MAX
    }
}

/// The columns of the `PartBlendFormMaps` class, one entry per object.
#[derive(Debug, Default)]
pub struct PartBlendFormMapsFields {
    pub raw_count: usize,
    pub count: usize,
    pub i_part: Vec<IPart>,
    pub i_maps: Vec<IBlendFormMap>,
    pub cnt_maps: Vec<u32>,
}

impl PartBlendFormMapsFields {
    /// Every column holds one entry per object.
    pub open spec fn columns_ok(&self) -> bool {
        &&& self.raw_count <= u32::MAX
        &&& self.i_part.len() == self.raw_count
        &&& self.i_maps.len() == self.raw_count
        &&& self.cnt_maps.len() == self.raw_count
    }

    pub open spec fn wf(&self) -> bool {
        &&& self.columns_ok()
        &&& self.count <= self.raw_count
        &&& self.raw_count <= u32::MAX
    }
}

/// The columns of the `RotBlendFormMaps` class, one entry per object.
#[derive(Debug, Default)]
pub struct RotBlendFormMapsFields {
    pub raw_count: usize,
    pub count: usize,
    pub i_rot: Vec<IRotDeformer>,
    pub i_maps: Vec<IBlendFormMap>,
    pub cnt_maps: Vec<u32>,
}

impl RotBlendFormMapsFields {
    /// Every column holds one entry per object.
    pub open spec fn columns_ok(&self) -> bool {
        &&& self.raw_count <= u32::MAX
        &&& self.i_rot.len() == self.raw_count
        &&& self.i_maps.len() == self.raw_count
        &&& self.cnt_maps.len() == self.raw_count
    }

    pub open spec fn wf(&self) -> bool {
        &&& self.columns_ok()
        &&& self.count <= self.raw_count
        &&& self.raw_count <= u32::MAX
    }
}

/// The columns of the `GlueBlendFormMaps` class, one entry per object.
#[derive(Debug, Default)]
pub struct GlueBlendFormMapsFields {
    pub raw_count: usize,
    pub count: usize,
    pub i_glue: Vec<IGlue>,
    pub i_maps: Vec<IBlendFormMap>,
    pub cnt_maps: Vec<u32>,
}

impl GlueBlendFormMapsFields {
    /// Every column holds one entry per object.
    pub open spec fn columns_ok(&self) -> bool {
        &&& self.raw_count <= u32::MAX
        &&& self.i_glue.len() == self.raw_count
        &&& self.i_maps.len() == self.raw_count
        &&& self.cnt_maps.len() == self.raw_count
    }

    pub open spec fn wf(&self) -> bool {
        &&& self.columns_ok()
        &&& self.count <= self.raw_count
        &&& self.raw_count <= u32::MAX
    }
}

/// The columns of the `OffscreenPart` class, one entry per object.
#[derive(Debug, Default)]
pub struct OffscreenPartFields {
    pub raw_count: usize,
    pub count: usize,
    pub unk_zeros: Vec<u32>,
    pub i_part: Vec<IPart>,
    pub render_config: Vec<u8>,
    pub blend_config: Vec<BlendConfig>,
    pub i_clips: Vec<IArtMeshRef>,
    pub cnt_clips: Vec<u32>,
    pub i_blend_form_maps: Vec<OptIOffscreenPartBlendFormMaps>,
}

impl OffscreenPartFields {
    /// Every column holds one entry per object.
    pub open spec fn columns_ok(&self) -> bool {
        &&& self.raw_count <= u32::MAX
        &&& self.unk_zeros.len() == self.raw_count
        &&& self.i_part.len() == self.raw_count
        &&& self.render_config.len() == self.raw_count
        &&& self.blend_config.len() == self.raw_count
        &&& self.i_clips.len() == self.raw_count
        &&& self.cnt_clips.len() == self.raw_count
        &&& self.i_blend_form_maps.len() == self.raw_count
    }

    pub open spec fn wf(&self) -> bool {
        &&& self.columns_ok()
        &&& self.count <= self.raw_count
        &&& self.raw_count <= u32::MAX
    }
}

/// The columns of the `OffscreenPartForm` class, one entry per object.
#[derive(Debug, Default)]
pub struct OffscreenPartFormFields {
    pub raw_count: usize,
    pub count: usize,
    pub opacity: Vec<RawF32>,
    pub i_multiply_color: Vec<IMultiplyColor>,
    pub i_screen_color: Vec<IScreenColor>,
}

impl OffscreenPartFormFields {
    /// Every column holds one entry per object.
    pub open spec fn columns_ok(&self) -> bool {
        &&& self.raw_count <= u32::MAX
        &&& self.opacity.len() == self.raw_count
        &&& self.i_multiply_color.len() == self.raw_count
        &&& self.i_screen_color.len() == self.raw_count
    }

    pub open spec fn wf(&self) -> bool {
        &&& self.columns_ok()
        &&& self.count <= self.raw_count
        &&& self.raw_count <= u32::MAX
    }
}

/// The columns of the `OffscreenPartBlendFormMaps` class, one entry per object.
#[derive(Debug, Default)]
pub struct OffscreenPartBlendFormMapsFields {
    pub raw_count: usize,
    pub count: usize,
    pub i_offscreen_part: Vec<IOffscreenPart>,
    pub i_maps: Vec<IBlendFormMap>,
    pub cnt_maps: Vec<u32>,
}

impl OffscreenPartBlendFormMapsFields {
    /// Every column holds one entry per object.
    pub open spec fn columns_ok(&self) -> bool {
        &&& self.raw_count <= u32::MAX
        &&& self.i_offscreen_part.len() == self.raw_count
        &&& self.i_maps.len() == self.raw_count
        &&& self.cnt_maps.len() == self.raw_count
    }

    pub open spec fn wf(&self) -> bool {
        &&& self.columns_ok()
        &&& self.count <= self.raw_count
        &&& self.raw_count <= u32::MAX
    }
}

/// A decoded model file: the global values and one column set per class.
#[derive(Debug, Default)]
pub struct ParsedModel {
    pub canvas: Canvas,
    pub version: Option<Version>,
    pub root_draw_group: Option<IDrawGroup>,
    pub pose_map: Option<Arc<PoseMap>>,
    pub part: PartFields,
    pub deformer: DeformerFields,
    pub warp_deformer: WarpDeformerFields,
    pub rot_deformer: RotDeformerFields,
    pub art_mesh: ArtMeshFields,
    pub param: ParamFields,
    pub part_form: PartFormFields,
    pub warp_form: WarpFormFields,
    pub rot_form: RotFormFields,
    pub art_mesh_form: ArtMeshFormFields,
    pub vertex_coord: VertexCoordFields,
    pub param_map_ref: ParamMapRefFields,
    pub param_map_set: ParamMapSetFields,
    pub param_map: ParamMapFields,
    pub keypoint: KeypointFields,
    pub tex_coord: TexCoordFields,
    pub vertex_index: VertexIndexFields,
    pub art_mesh_ref: ArtMeshRefFields,
    pub draw_group: DrawGroupFields,
    pub draw_item: DrawItemFields,
    pub glue: GlueFields,
    pub glue_coord: GlueCoordFields,
    pub glue_form: GlueFormFields,
    pub multiply_color: MultiplyColorFields,
    pub screen_color: ScreenColorFields,
    pub blend_param_map: BlendParamMapFields,
    pub blend_form_map: BlendFormMapFields,
    pub warp_blend_form_maps: WarpBlendFormMapsFields,
    pub art_mesh_blend_form_maps: ArtMeshBlendFormMapsFields,
    pub blend_weight_limit_ref: BlendWeightLimitRefFields,
    pub blend_weight_limit: BlendWeightLimitFields,
    pub blend_weight_limit_point: BlendWeightLimitPointFields,
    pub part_blend_form_maps: PartBlendFormMapsFields,
    pub rot_blend_form_maps: RotBlendFormMapsFields,
    pub glue_blend_form_maps: GlueBlendFormMapsFields,
    pub offscreen_part: OffscreenPartFields,
    pub offscreen_part_form: OffscreenPartFormFields,
    pub offscreen_part_blend_form_maps: OffscreenPartBlendFormMapsFields,
}

/// The classes of a model file, in file order.
#[derive(Debug, Copy, Clone, PartialEq, Eq, Structural)]
pub enum ClassId {
    Part,
    Deformer,
    WarpDeformer,
    RotDeformer,
    ArtMesh,
    Param,
    PartForm,
    WarpForm,
    RotForm,
    ArtMeshForm,
    VertexCoord,
    ParamMapRef,
    ParamMapSet,
    ParamMap,
    Keypoint,
    TexCoord,
    VertexIndex,
    ArtMeshRef,
    DrawGroup,
    DrawItem,
    Glue,
    GlueCoord,
    GlueForm,
    MultiplyColor,
    ScreenColor,
    BlendParamMap,
    BlendFormMap,
    WarpBlendFormMaps,
    ArtMeshBlendFormMaps,
    BlendWeightLimitRef,
    BlendWeightLimit,
    BlendWeightLimitPoint,
    PartBlendFormMaps,
    RotBlendFormMaps,
    GlueBlendFormMaps,
    OffscreenPart,
    OffscreenPartForm,
    OffscreenPartBlendFormMaps,
}

/// Number of classes.
pub const NUM_CLASSES: usize = 38;

impl ClassId {
    /// The pass from which on files hold this class.
    pub open spec fn spec_pass(self) -> Pass {
        match self {
            ClassId::Part => Pass::Base,
            ClassId::Deformer => Pass::Base,
            ClassId::WarpDeformer => Pass::Base,
            ClassId::RotDeformer => Pass::Base,
            ClassId::ArtMesh => Pass::Base,
            ClassId::Param => Pass::Base,
            ClassId::PartForm => Pass::Base,
            ClassId::WarpForm => Pass::Base,
            ClassId::RotForm => Pass::Base,
            ClassId::ArtMeshForm => Pass::Base,
            ClassId::VertexCoord => Pass::Base,
            ClassId::ParamMapRef => Pass::Base,
            ClassId::ParamMapSet => Pass::Base,
            ClassId::ParamMap => Pass::Base,
            ClassId::Keypoint => Pass::Base,
            ClassId::TexCoord => Pass::Base,
            ClassId::VertexIndex => Pass::Base,
            ClassId::ArtMeshRef => Pass::Base,
            ClassId::DrawGroup => Pass::Base,
            ClassId::DrawItem => Pass::Base,
            ClassId::Glue => Pass::V3_0,
            ClassId::GlueCoord => Pass::V3_0,
            ClassId::GlueForm => Pass::V3_0,
            ClassId::MultiplyColor => Pass::V4_2B,
            ClassId::ScreenColor => Pass::V4_2B,
            ClassId::BlendParamMap => Pass::V4_2,
            ClassId::BlendFormMap => Pass::V4_2,
            ClassId::WarpBlendFormMaps => Pass::V4_2,
            ClassId::ArtMeshBlendFormMaps => Pass::V4_2,
            ClassId::BlendWeightLimitRef => Pass::V4_2,
            ClassId::BlendWeightLimit => Pass::V4_2,
            ClassId::BlendWeightLimitPoint => Pass::V4_2,
            ClassId::PartBlendFormMaps => Pass::V5_0,
            ClassId::RotBlendFormMaps => Pass::V5_0,
            ClassId::GlueBlendFormMaps => Pass::V5_0,
            ClassId::OffscreenPart => Pass::V5_3A,
            ClassId::OffscreenPartForm => Pass::V5_3,
            ClassId::OffscreenPartBlendFormMaps => Pass::V5_3,
        }
    }

    pub fn pass(&self) -> (r: Pass)
        ensures r == self.spec_pass(),
    {
        match self {
            ClassId::Part => Pass::Base,
            ClassId::Deformer => Pass::Base,
            ClassId::WarpDeformer => Pass::Base,
            ClassId::RotDeformer => Pass::Base,
            ClassId::ArtMesh => Pass::Base,
            ClassId::Param => Pass::Base,
            ClassId::PartForm => Pass::Base,
            ClassId::WarpForm => Pass::Base,
            ClassId::RotForm => Pass::Base,
            ClassId::ArtMeshForm => Pass::Base,
            ClassId::VertexCoord => Pass::Base,
            ClassId::ParamMapRef => Pass::Base,
            ClassId::ParamMapSet => Pass::Base,
            ClassId::ParamMap => Pass::Base,
            ClassId::Keypoint => Pass::Base,
            ClassId::TexCoord => Pass::Base,
            ClassId::VertexIndex => Pass::Base,
            ClassId::ArtMeshRef => Pass::Base,
            ClassId::DrawGroup => Pass::Base,
            ClassId::DrawItem => Pass::Base,
            ClassId::Glue => Pass::V3_0,
            ClassId::GlueCoord => Pass::V3_0,
            ClassId::GlueForm => Pass::V3_0,
            ClassId::MultiplyColor => Pass::V4_2B,
            ClassId::ScreenColor => Pass::V4_2B,
            ClassId::BlendParamMap => Pass::V4_2,
            ClassId::BlendFormMap => Pass::V4_2,
            ClassId::WarpBlendFormMaps => Pass::V4_2,
            ClassId::ArtMeshBlendFormMaps => Pass::V4_2,
            ClassId::BlendWeightLimitRef => Pass::V4_2,
            ClassId::BlendWeightLimit => Pass::V4_2,
            ClassId::BlendWeightLimitPoint => Pass::V4_2,
            ClassId::PartBlendFormMaps => Pass::V5_0,
            ClassId::RotBlendFormMaps => Pass::V5_0,
            ClassId::GlueBlendFormMaps => Pass::V5_0,
            ClassId::OffscreenPart => Pass::V5_3A,
            ClassId::OffscreenPartForm => Pass::V5_3,
            ClassId::OffscreenPartBlendFormMaps => Pass::V5_3,
        }
    }

    /// How many sections the fields of this class take in a pass.
    pub open spec fn spec_num_fields(self, pass: Pass) -> nat {
        match self {
            ClassId::Part => if pass == Pass::Base { 8 } else if pass == Pass::V5_3A { 1 } else if pass == Pass::Internal { 1 } else { 0 },
            ClassId::Deformer => if pass == Pass::Base { 9 } else { 0 },
            ClassId::WarpDeformer => if pass == Pass::Base { 6 } else if pass == Pass::V3_3 { 1 } else if pass == Pass::V4_2B { 1 } else if pass == Pass::Internal { 2 } else { 0 },
            ClassId::RotDeformer => if pass == Pass::Base { 4 } else if pass == Pass::V4_2B { 1 } else if pass == Pass::Internal { 2 } else { 0 },
            ClassId::ArtMesh => if pass == Pass::Base { 20 } else if pass == Pass::V4_2B { 1 } else if pass == Pass::V5_3A { 1 } else if pass == Pass::Internal { 1 } else { 0 },
            ClassId::Param => if pass == Pass::Base { 9 } else if pass == Pass::V4_2A { 3 } else if pass == Pass::V4_2 { 3 } else { 0 },
            ClassId::PartForm => if pass == Pass::Base { 1 } else if pass == Pass::V5_3 { 1 } else { 0 },
            ClassId::WarpForm => if pass == Pass::Base { 2 } else if pass == Pass::V5_0 { 2 } else { 0 },
            ClassId::RotForm => if pass == Pass::Base { 7 } else if pass == Pass::V5_0 { 2 } else { 0 },
            ClassId::ArtMeshForm => if pass == Pass::Base { 3 } else if pass == Pass::V5_0 { 2 } else { 0 },
            ClassId::VertexCoord => if pass == Pass::Base { 1 } else { 0 },
            ClassId::ParamMapRef => if pass == Pass::Base { 1 } else { 0 },
            ClassId::ParamMapSet => if pass == Pass::Base { 2 } else { 0 },
            ClassId::ParamMap => if pass == Pass::Base { 2 } else { 0 },
            ClassId::Keypoint => if pass == Pass::Base { 1 } else { 0 },
            ClassId::TexCoord => if pass == Pass::Base { 1 } else { 0 },
            ClassId::VertexIndex => if pass == Pass::Base { 1 } else { 0 },
            ClassId::ArtMeshRef => if pass == Pass::Base { 1 } else { 0 },
            ClassId::DrawGroup => if pass == Pass::Base { 5 } else { 0 },
            ClassId::DrawItem => if pass == Pass::Base { 3 } else { 0 },
            ClassId::Glue => if pass == Pass::V3_0 { 9 } else if pass == Pass::Internal { 1 } else { 0 },
            ClassId::GlueCoord => if pass == Pass::V3_0 { 2 } else { 0 },
            ClassId::GlueForm => if pass == Pass::V3_0 { 1 } else { 0 },
            ClassId::MultiplyColor => if pass == Pass::V4_2B { 3 } else { 0 },
            ClassId::ScreenColor => if pass == Pass::V4_2B { 3 } else { 0 },
            ClassId::BlendParamMap => if pass == Pass::V4_2 { 3 } else { 0 },
            ClassId::BlendFormMap => if pass == Pass::V4_2 { 5 } else { 0 },
            ClassId::WarpBlendFormMaps => if pass == Pass::V4_2 { 3 } else { 0 },
            ClassId::ArtMeshBlendFormMaps => if pass == Pass::V4_2 { 3 } else { 0 },
            ClassId::BlendWeightLimitRef => if pass == Pass::V4_2 { 1 } else { 0 },
            ClassId::BlendWeightLimit => if pass == Pass::V4_2 { 3 } else { 0 },
            ClassId::BlendWeightLimitPoint => if pass == Pass::V4_2 { 2 } else { 0 },
            ClassId::PartBlendFormMaps => if pass == Pass::V5_0 { 3 } else { 0 },
            ClassId::RotBlendFormMaps => if pass == Pass::V5_0 { 3 } else { 0 },
            ClassId::GlueBlendFormMaps => if pass == Pass::V5_0 { 3 } else { 0 },
            ClassId::OffscreenPart => if pass == Pass::V5_3A { 6 } else if pass == Pass::Internal { 1 } else { 0 },
            ClassId::OffscreenPartForm => if pass == Pass::V5_3 { 3 } else { 0 },
            ClassId::OffscreenPartBlendFormMaps => if pass == Pass::V5_3 { 3 } else { 0 },
        }
    }

    pub fn num_fields(&self, pass: Pass) -> (r: usize)
        ensures r == self.spec_num_fields(pass),
    {
        match self {
            ClassId::Part => if pass == Pass::Base { 8 } else if pass == Pass::V5_3A { 1 } else if pass == Pass::Internal { 1 } else { 0 },
            ClassId::Deformer => if pass == Pass::Base { 9 } else { 0 },
            ClassId::WarpDeformer => if pass == Pass::Base { 6 } else if pass == Pass::V3_3 { 1 } else if pass == Pass::V4_2B { 1 } else if pass == Pass::Internal { 2 } else { 0 },
            ClassId::RotDeformer => if pass == Pass::Base { 4 } else if pass == Pass::V4_2B { 1 } else if pass == Pass::Internal { 2 } else { 0 },
            ClassId::ArtMesh => if pass == Pass::Base { 20 } else if pass == Pass::V4_2B { 1 } else if pass == Pass::V5_3A { 1 } else if pass == Pass::Internal { 1 } else { 0 },
            ClassId::Param => if pass == Pass::Base { 9 } else if pass == Pass::V4_2A { 3 } else if pass == Pass::V4_2 { 3 } else { 0 },
            ClassId::PartForm => if pass == Pass::Base { 1 } else if pass == Pass::V5_3 { 1 } else { 0 },
            ClassId::WarpForm => if pass == Pass::Base { 2 } else if pass == Pass::V5_0 { 2 } else { 0 },
            ClassId::RotForm => if pass == Pass::Base { 7 } else if pass == Pass::V5_0 { 2 } else { 0 },
            ClassId::ArtMeshForm => if pass == Pass::Base { 3 } else if pass == Pass::V5_0 { 2 } else { 0 },
            ClassId::VertexCoord => if pass == Pass::Base { 1 } else { 0 },
            ClassId::ParamMapRef => if pass == Pass::Base { 1 } else { 0 },
            ClassId::ParamMapSet => if pass == Pass::Base { 2 } else { 0 },
            ClassId::ParamMap => if pass == Pass::Base { 2 } else { 0 },
            ClassId::Keypoint => if pass == Pass::Base { 1 } else { 0 },
            ClassId::TexCoord => if pass == Pass::Base { 1 } else { 0 },
            ClassId::VertexIndex => if pass == Pass::Base { 1 } else { 0 },
            ClassId::ArtMeshRef => if pass == Pass::Base { 1 } else { 0 },
            ClassId::DrawGroup => if pass == Pass::Base { 5 } else { 0 },
            ClassId::DrawItem => if pass == Pass::Base { 3 } else { 0 },
            ClassId::Glue => if pass == Pass::V3_0 { 9 } else if pass == Pass::Internal { 1 } else { 0 },
            ClassId::GlueCoord => if pass == Pass::V3_0 { 2 } else { 0 },
            ClassId::GlueForm => if pass == Pass::V3_0 { 1 } else { 0 },
            ClassId::MultiplyColor => if pass == Pass::V4_2B { 3 } else { 0 },
            ClassId::ScreenColor => if pass == Pass::V4_2B { 3 } else { 0 },
            ClassId::BlendParamMap => if pass == Pass::V4_2 { 3 } else { 0 },
            ClassId::BlendFormMap => if pass == Pass::V4_2 { 5 } else { 0 },
            ClassId::WarpBlendFormMaps => if pass == Pass::V4_2 { 3 } else { 0 },
            ClassId::ArtMeshBlendFormMaps => if pass == Pass::V4_2 { 3 } else { 0 },
            ClassId::BlendWeightLimitRef => if pass == Pass::V4_2 { 1 } else { 0 },
            ClassId::BlendWeightLimit => if pass == Pass::V4_2 { 3 } else { 0 },
            ClassId::BlendWeightLimitPoint => if pass == Pass::V4_2 { 2 } else { 0 },
            ClassId::PartBlendFormMaps => if pass == Pass::V5_0 { 3 } else { 0 },
            ClassId::RotBlendFormMaps => if pass == Pass::V5_0 { 3 } else { 0 },
            ClassId::GlueBlendFormMaps => if pass == Pass::V5_0 { 3 } else { 0 },
            ClassId::OffscreenPart => if pass == Pass::V5_3A { 6 } else if pass == Pass::Internal { 1 } else { 0 },
            ClassId::OffscreenPartForm => if pass == Pass::V5_3 { 3 } else { 0 },
            ClassId::OffscreenPartBlendFormMaps => if pass == Pass::V5_3 { 3 } else { 0 },
        }
    }

    /// The class at a position in file order.
    pub open spec fn spec_at(i: nat) -> ClassId {
        if i == 0 { ClassId::Part }
        else if i == 1 { ClassId::Deformer }
        else if i == 2 { ClassId::WarpDeformer }
        else if i == 3 { ClassId::RotDeformer }
        else if i == 4 { ClassId::ArtMesh }
        else if i == 5 { ClassId::Param }
        else if i == 6 { ClassId::PartForm }
        else if i == 7 { ClassId::WarpForm }
        else if i == 8 { ClassId::RotForm }
        else if i == 9 { ClassId::ArtMeshForm }
        else if i == 10 { ClassId::VertexCoord }
        else if i == 11 { ClassId::ParamMapRef }
        else if i == 12 { ClassId::ParamMapSet }
        else if i == 13 { ClassId::ParamMap }
        else if i == 14 { ClassId::Keypoint }
        else if i == 15 { ClassId::TexCoord }
        else if i == 16 { ClassId::VertexIndex }
        else if i == 17 { ClassId::ArtMeshRef }
        else if i == 18 { ClassId::DrawGroup }
        else if i == 19 { ClassId::DrawItem }
        else if i == 20 { ClassId::Glue }
        else if i == 21 { ClassId::GlueCoord }
        else if i == 22 { ClassId::GlueForm }
        else if i == 23 { ClassId::MultiplyColor }
        else if i == 24 { ClassId::ScreenColor }
        else if i == 25 { ClassId::BlendParamMap }
        else if i == 26 { ClassId::BlendFormMap }
        else if i == 27 { ClassId::WarpBlendFormMaps }
        else if i == 28 { ClassId::ArtMeshBlendFormMaps }
        else if i == 29 { ClassId::BlendWeightLimitRef }
        else if i == 30 { ClassId::BlendWeightLimit }
        else if i == 31 { ClassId::BlendWeightLimitPoint }
        else if i == 32 { ClassId::PartBlendFormMaps }
        else if i == 33 { ClassId::RotBlendFormMaps }
        else if i == 34 { ClassId::GlueBlendFormMaps }
        else if i == 35 { ClassId::OffscreenPart }
        else if i == 36 { ClassId::OffscreenPartForm }
        else { ClassId::OffscreenPartBlendFormMaps }
    }

    pub fn at(i: usize) -> (r: ClassId)
        requires i < NUM_CLASSES,
        ensures r == ClassId::spec_at(i as nat),
    {
        if i == 0 { ClassId::Part }
        else if i == 1 { ClassId::Deformer }
        else if i == 2 { ClassId::WarpDeformer }
        else if i == 3 { ClassId::RotDeformer }
        else if i == 4 { ClassId::ArtMesh }
        else if i == 5 { ClassId::Param }
        else if i == 6 { ClassId::PartForm }
        else if i == 7 { ClassId::WarpForm }
        else if i == 8 { ClassId::RotForm }
        else if i == 9 { ClassId::ArtMeshForm }
        else if i == 10 { ClassId::VertexCoord }
        else if i == 11 { ClassId::ParamMapRef }
        else if i == 12 { ClassId::ParamMapSet }
        else if i == 13 { ClassId::ParamMap }
        else if i == 14 { ClassId::Keypoint }
        else if i == 15 { ClassId::TexCoord }
        else if i == 16 { ClassId::VertexIndex }
        else if i == 17 { ClassId::ArtMeshRef }
        else if i == 18 { ClassId::DrawGroup }
        else if i == 19 { ClassId::DrawItem }
        else if i == 20 { ClassId::Glue }
        else if i == 21 { ClassId::GlueCoord }
        else if i == 22 { ClassId::GlueForm }
        else if i == 23 { ClassId::MultiplyColor }
        else if i == 24 { ClassId::ScreenColor }
        else if i == 25 { ClassId::BlendParamMap }
        else if i == 26 { ClassId::BlendFormMap }
        else if i == 27 { ClassId::WarpBlendFormMaps }
        else if i == 28 { ClassId::ArtMeshBlendFormMaps }
        else if i == 29 { ClassId::BlendWeightLimitRef }
        else if i == 30 { ClassId::BlendWeightLimit }
        else if i == 31 { ClassId::BlendWeightLimitPoint }
        else if i == 32 { ClassId::PartBlendFormMaps }
        else if i == 33 { ClassId::RotBlendFormMaps }
        else if i == 34 { ClassId::GlueBlendFormMaps }
        else if i == 35 { ClassId::OffscreenPart }
        else if i == 36 { ClassId::OffscreenPartForm }
        else { ClassId::OffscreenPartBlendFormMaps }
    }

    /// The name of the class, as written in error messages.
    pub open spec fn spec_name(self) -> Seq<char> {
        match self {
            ClassId::Part => "Part"@,
            ClassId::Deformer => "Deformer"@,
            ClassId::WarpDeformer => "WarpDeformer"@,
            ClassId::RotDeformer => "RotDeformer"@,
            ClassId::ArtMesh => "ArtMesh"@,
            ClassId::Param => "Param"@,
            ClassId::PartForm => "PartForm"@,
            ClassId::WarpForm => "WarpForm"@,
            ClassId::RotForm => "RotForm"@,
            ClassId::ArtMeshForm => "ArtMeshForm"@,
            ClassId::VertexCoord => "VertexCoord"@,
            ClassId::ParamMapRef => "ParamMapRef"@,
            ClassId::ParamMapSet => "ParamMapSet"@,
            ClassId::ParamMap => "ParamMap"@,
            ClassId::Keypoint => "Keypoint"@,
            ClassId::TexCoord => "TexCoord"@,
            ClassId::VertexIndex => "VertexIndex"@,
            ClassId::ArtMeshRef => "ArtMeshRef"@,
            ClassId::DrawGroup => "DrawGroup"@,
            ClassId::DrawItem => "DrawItem"@,
            ClassId::Glue => "Glue"@,
            ClassId::GlueCoord => "GlueCoord"@,
            ClassId::GlueForm => "GlueForm"@,
            ClassId::MultiplyColor => "MultiplyColor"@,
            ClassId::ScreenColor => "ScreenColor"@,
            ClassId::BlendParamMap => "BlendParamMap"@,
            ClassId::BlendFormMap => "BlendFormMap"@,
            ClassId::WarpBlendFormMaps => "WarpBlendFormMaps"@,
            ClassId::ArtMeshBlendFormMaps => "ArtMeshBlendFormMaps"@,
            ClassId::BlendWeightLimitRef => "BlendWeightLimitRef"@,
            ClassId::BlendWeightLimit => "BlendWeightLimit"@,
            ClassId::BlendWeightLimitPoint => "BlendWeightLimitPoint"@,
            ClassId::PartBlendFormMaps => "PartBlendFormMaps"@,
            ClassId::RotBlendFormMaps => "RotBlendFormMaps"@,
            ClassId::GlueBlendFormMaps => "GlueBlendFormMaps"@,
            ClassId::OffscreenPart => "OffscreenPart"@,
            ClassId::OffscreenPartForm => "OffscreenPartForm"@,
            ClassId::OffscreenPartBlendFormMaps => "OffscreenPartBlendFormMaps"@,
        }
    }

    /// The name of the class.
    pub fn name(&self) -> (r: &'static str)
        ensures
            r@ == self.spec_name(),
    {
        match self {
            ClassId::Part => "Part",
            ClassId::Deformer => "Deformer",
            ClassId::WarpDeformer => "WarpDeformer",
            ClassId::RotDeformer => "RotDeformer",
            ClassId::ArtMesh => "ArtMesh",
            ClassId::Param => "Param",
            ClassId::PartForm => "PartForm",
            ClassId::WarpForm => "WarpForm",
            ClassId::RotForm => "RotForm",
            ClassId::ArtMeshForm => "ArtMeshForm",
            ClassId::VertexCoord => "VertexCoord",
            ClassId::ParamMapRef => "ParamMapRef",
            ClassId::ParamMapSet => "ParamMapSet",
            ClassId::ParamMap => "ParamMap",
            ClassId::Keypoint => "Keypoint",
            ClassId::TexCoord => "TexCoord",
            ClassId::VertexIndex => "VertexIndex",
            ClassId::ArtMeshRef => "ArtMeshRef",
            ClassId::DrawGroup => "DrawGroup",
            ClassId::DrawItem => "DrawItem",
            ClassId::Glue => "Glue",
            ClassId::GlueCoord => "GlueCoord",
            ClassId::GlueForm => "GlueForm",
            ClassId::MultiplyColor => "MultiplyColor",
            ClassId::ScreenColor => "ScreenColor",
            ClassId::BlendParamMap => "BlendParamMap",
            ClassId::BlendFormMap => "BlendFormMap",
            ClassId::WarpBlendFormMaps => "WarpBlendFormMaps",
            ClassId::ArtMeshBlendFormMaps => "ArtMeshBlendFormMaps",
            ClassId::BlendWeightLimitRef => "BlendWeightLimitRef",
            ClassId::BlendWeightLimit => "BlendWeightLimit",
            ClassId::BlendWeightLimitPoint => "BlendWeightLimitPoint",
            ClassId::PartBlendFormMaps => "PartBlendFormMaps",
            ClassId::RotBlendFormMaps => "RotBlendFormMaps",
            ClassId::GlueBlendFormMaps => "GlueBlendFormMaps",
            ClassId::OffscreenPart => "OffscreenPart",
            ClassId::OffscreenPartForm => "OffscreenPartForm",
            ClassId::OffscreenPartBlendFormMaps => "OffscreenPartBlendFormMaps",
        }
    }
}

impl ParsedModel {
    /// Every class's columns are consistent.
    pub open spec fn wf(&self) -> bool {
        &&& self.part.wf()
        &&& self.deformer.wf()
        &&& self.warp_deformer.wf()
        &&& self.rot_deformer.wf()
        &&& self.art_mesh.wf()
        &&& self.param.wf()
        &&& self.part_form.wf()
        &&& self.warp_form.wf()
        &&& self.rot_form.wf()
        &&& self.art_mesh_form.wf()
        &&& self.vertex_coord.wf()
        &&& self.param_map_ref.wf()
        &&& self.param_map_set.wf()
        &&& self.param_map.wf()
        &&& self.keypoint.wf()
        &&& self.tex_coord.wf()
        &&& self.vertex_index.wf()
        &&& self.art_mesh_ref.wf()
        &&& self.draw_group.wf()
        &&& self.draw_item.wf()
        &&& self.glue.wf()
        &&& self.glue_coord.wf()
        &&& self.glue_form.wf()
        &&& self.multiply_color.wf()
        &&& self.screen_color.wf()
        &&& self.blend_param_map.wf()
        &&& self.blend_form_map.wf()
        &&& self.warp_blend_form_maps.wf()
        &&& self.art_mesh_blend_form_maps.wf()
        &&& self.blend_weight_limit_ref.wf()
        &&& self.blend_weight_limit.wf()
        &&& self.blend_weight_limit_point.wf()
        &&& self.part_blend_form_maps.wf()
        &&& self.rot_blend_form_maps.wf()
        &&& self.glue_blend_form_maps.wf()
        &&& self.offscreen_part.wf()
        &&& self.offscreen_part_form.wf()
        &&& self.offscreen_part_blend_form_maps.wf()
    }

    /// Every class's columns hold one entry per object.
    pub open spec fn columns_ok(&self) -> bool {
        &&& self.part.columns_ok()
        &&& self.deformer.columns_ok()
        &&& self.warp_deformer.columns_ok()
        &&& self.rot_deformer.columns_ok()
        &&& self.art_mesh.columns_ok()
        &&& self.param.columns_ok()
        &&& self.part_form.columns_ok()
        &&& self.warp_form.columns_ok()
        &&& self.rot_form.columns_ok()
        &&& self.art_mesh_form.columns_ok()
        &&& self.vertex_coord.columns_ok()
        &&& self.param_map_ref.columns_ok()
        &&& self.param_map_set.columns_ok()
        &&& self.param_map.columns_ok()
        &&& self.keypoint.columns_ok()
        &&& self.tex_coord.columns_ok()
        &&& self.vertex_index.columns_ok()
        &&& self.art_mesh_ref.columns_ok()
        &&& self.draw_group.columns_ok()
        &&& self.draw_item.columns_ok()
        &&& self.glue.columns_ok()
        &&& self.glue_coord.columns_ok()
        &&& self.glue_form.columns_ok()
        &&& self.multiply_color.columns_ok()
        &&& self.screen_color.columns_ok()
        &&& self.blend_param_map.columns_ok()
        &&& self.blend_form_map.columns_ok()
        &&& self.warp_blend_form_maps.columns_ok()
        &&& self.art_mesh_blend_form_maps.columns_ok()
        &&& self.blend_weight_limit_ref.columns_ok()
        &&& self.blend_weight_limit.columns_ok()
        &&& self.blend_weight_limit_point.columns_ok()
        &&& self.part_blend_form_maps.columns_ok()
        &&& self.rot_blend_form_maps.columns_ok()
        &&& self.glue_blend_form_maps.columns_ok()
        &&& self.offscreen_part.columns_ok()
        &&& self.offscreen_part_form.columns_ok()
        &&& self.offscreen_part_blend_form_maps.columns_ok()
        &&& self.vertex_coord.raw_count <= u32::MAX
        &&& self.keypoint.raw_count <= u32::MAX
        &&& self.tex_coord.raw_count <= u32::MAX
        &&& self.vertex_index.raw_count <= u32::MAX
    }

    /// The number of objects of a class that the file declares.
    pub open spec fn raw_count_of(&self, c: ClassId) -> usize {
        match c {
            ClassId::Part => self.part.raw_count,
            ClassId::Deformer => self.deformer.raw_count,
            ClassId::WarpDeformer => self.warp_deformer.raw_count,
            ClassId::RotDeformer => self.rot_deformer.raw_count,
            ClassId::ArtMesh => self.art_mesh.raw_count,
            ClassId::Param => self.param.raw_count,
            ClassId::PartForm => self.part_form.raw_count,
            ClassId::WarpForm => self.warp_form.raw_count,
            ClassId::RotForm => self.rot_form.raw_count,
            ClassId::ArtMeshForm => self.art_mesh_form.raw_count,
            ClassId::VertexCoord => self.vertex_coord.raw_count,
            ClassId::ParamMapRef => self.param_map_ref.raw_count,
            ClassId::ParamMapSet => self.param_map_set.raw_count,
            ClassId::ParamMap => self.param_map.raw_count,
            ClassId::Keypoint => self.keypoint.raw_count,
            ClassId::TexCoord => self.tex_coord.raw_count,
            ClassId::VertexIndex => self.vertex_index.raw_count,
            ClassId::ArtMeshRef => self.art_mesh_ref.raw_count,
            ClassId::DrawGroup => self.draw_group.raw_count,
            ClassId::DrawItem => self.draw_item.raw_count,
            ClassId::Glue => self.glue.raw_count,
            ClassId::GlueCoord => self.glue_coord.raw_count,
            ClassId::GlueForm => self.glue_form.raw_count,
            ClassId::MultiplyColor => self.multiply_color.raw_count,
            ClassId::ScreenColor => self.screen_color.raw_count,
            ClassId::BlendParamMap => self.blend_param_map.raw_count,
            ClassId::BlendFormMap => self.blend_form_map.raw_count,
            ClassId::WarpBlendFormMaps => self.warp_blend_form_maps.raw_count,
            ClassId::ArtMeshBlendFormMaps => self.art_mesh_blend_form_maps.raw_count,
            ClassId::BlendWeightLimitRef => self.blend_weight_limit_ref.raw_count,
            ClassId::BlendWeightLimit => self.blend_weight_limit.raw_count,
            ClassId::BlendWeightLimitPoint => self.blend_weight_limit_point.raw_count,
            ClassId::PartBlendFormMaps => self.part_blend_form_maps.raw_count,
            ClassId::RotBlendFormMaps => self.rot_blend_form_maps.raw_count,
            ClassId::GlueBlendFormMaps => self.glue_blend_form_maps.raw_count,
            ClassId::OffscreenPart => self.offscreen_part.raw_count,
            ClassId::OffscreenPartForm => self.offscreen_part_form.raw_count,
            ClassId::OffscreenPartBlendFormMaps => self.offscreen_part_blend_form_maps.raw_count,
        }
    }

    /// The number of objects of a class that views may reach.
    pub open spec fn count_of(&self, c: ClassId) -> usize {
        match c {
            ClassId::Part => self.part.count,
            ClassId::Deformer => self.deformer.count,
            ClassId::WarpDeformer => self.warp_deformer.count,
            ClassId::RotDeformer => self.rot_deformer.count,
            ClassId::ArtMesh => self.art_mesh.count,
            ClassId::Param => self.param.count,
            ClassId::PartForm => self.part_form.count,
            ClassId::WarpForm => self.warp_form.count,
            ClassId::RotForm => self.rot_form.count,
            ClassId::ArtMeshForm => self.art_mesh_form.count,
            ClassId::VertexCoord => self.vertex_coord.count,
            ClassId::ParamMapRef => self.param_map_ref.count,
            ClassId::ParamMapSet => self.param_map_set.count,
            ClassId::ParamMap => self.param_map.count,
            ClassId::Keypoint => self.keypoint.count,
            ClassId::TexCoord => self.tex_coord.count,
            ClassId::VertexIndex => self.vertex_index.count,
            ClassId::ArtMeshRef => self.art_mesh_ref.count,
            ClassId::DrawGroup => self.draw_group.count,
            ClassId::DrawItem => self.draw_item.count,
            ClassId::Glue => self.glue.count,
            ClassId::GlueCoord => self.glue_coord.count,
            ClassId::GlueForm => self.glue_form.count,
            ClassId::MultiplyColor => self.multiply_color.count,
            ClassId::ScreenColor => self.screen_color.count,
            ClassId::BlendParamMap => self.blend_param_map.count,
            ClassId::BlendFormMap => self.blend_form_map.count,
            ClassId::WarpBlendFormMaps => self.warp_blend_form_maps.count,
            ClassId::ArtMeshBlendFormMaps => self.art_mesh_blend_form_maps.count,
            ClassId::BlendWeightLimitRef => self.blend_weight_limit_ref.count,
            ClassId::BlendWeightLimit => self.blend_weight_limit.count,
            ClassId::BlendWeightLimitPoint => self.blend_weight_limit_point.count,
            ClassId::PartBlendFormMaps => self.part_blend_form_maps.count,
            ClassId::RotBlendFormMaps => self.rot_blend_form_maps.count,
            ClassId::GlueBlendFormMaps => self.glue_blend_form_maps.count,
            ClassId::OffscreenPart => self.offscreen_part.count,
            ClassId::OffscreenPartForm => self.offscreen_part_form.count,
            ClassId::OffscreenPartBlendFormMaps => self.offscreen_part_blend_form_maps.count,
        }
    }

    /// The two models hold the same values, apart from the object counts.
    pub open spec fn same_columns(&self, other: &ParsedModel) -> bool {
        &&& self.canvas == other.canvas
        &&& self.version == other.version
        &&& self.root_draw_group == other.root_draw_group
        &&& self.pose_map == other.pose_map
        &&& self.part.hdr@ == other.part.hdr@
        &&& self.part.id@ == other.part.id@
        &&& self.part.i_param_map_set@ == other.part.i_param_map_set@
        &&& self.part.i_forms@ == other.part.i_forms@
        &&& self.part.cnt_forms@ == other.part.cnt_forms@
        &&& self.part.visible_artmeshes@ == other.part.visible_artmeshes@
        &&& self.part.visible_deformers@ == other.part.visible_deformers@
        &&& self.part.i_parent@ == other.part.i_parent@
        &&& self.part.i_offscreen_part@ == other.part.i_offscreen_part@
        &&& self.part.i_blend_form_maps@ == other.part.i_blend_form_maps@
        &&& self.deformer.hdr@ == other.deformer.hdr@
        &&& self.deformer.id@ == other.deformer.id@
        &&& self.deformer.i_param_map_set@ == other.deformer.i_param_map_set@
        &&& self.deformer.unk_flag1@ == other.deformer.unk_flag1@
        &&& self.deformer.visible@ == other.deformer.visible@
        &&& self.deformer.i_part@ == other.deformer.i_part@
        &&& self.deformer.i_parent@ == other.deformer.i_parent@
        &&& self.deformer.deformer_type@ == other.deformer.deformer_type@
        &&& self.deformer.i_typed@ == other.deformer.i_typed@
        &&& self.warp_deformer.i_param_map_set@ == other.warp_deformer.i_param_map_set@
        &&& self.warp_deformer.i_forms@ == other.warp_deformer.i_forms@
        &&& self.warp_deformer.cnt_forms@ == other.warp_deformer.cnt_forms@
        &&& self.warp_deformer.vertex_count@ == other.warp_deformer.vertex_count@
        &&& self.warp_deformer.y_divs@ == other.warp_deformer.y_divs@
        &&& self.warp_deformer.x_divs@ == other.warp_deformer.x_divs@
        &&& self.warp_deformer.bilinear_interpolation@ == other.warp_deformer.bilinear_interpolation@
        &&& self.warp_deformer.i_color_forms@ == other.warp_deformer.i_color_forms@
        &&& self.warp_deformer.i_deformer@ == other.warp_deformer.i_deformer@
        &&& self.warp_deformer.i_blend_form_maps@ == other.warp_deformer.i_blend_form_maps@
        &&& self.rot_deformer.i_param_map_set@ == other.rot_deformer.i_param_map_set@
        &&& self.rot_deformer.i_forms@ == other.rot_deformer.i_forms@
        &&& self.rot_deformer.cnt_forms@ == other.rot_deformer.cnt_forms@
        &&& self.rot_deformer.angle_offset@ == other.rot_deformer.angle_offset@
        &&& self.rot_deformer.i_color_forms@ == other.rot_deformer.i_color_forms@
        &&& self.rot_deformer.i_deformer@ == other.rot_deformer.i_deformer@
        &&& self.rot_deformer.i_blend_form_maps@ == other.rot_deformer.i_blend_form_maps@
        &&& self.art_mesh.hdr@ == other.art_mesh.hdr@
        &&& self.art_mesh.unk_a@ == other.art_mesh.unk_a@
        &&& self.art_mesh.unk_b@ == other.art_mesh.unk_b@
        &&& self.art_mesh.unk_c@ == other.art_mesh.unk_c@
        &&& self.art_mesh.id@ == other.art_mesh.id@
        &&& self.art_mesh.i_param_map_set@ == other.art_mesh.i_param_map_set@
        &&& self.art_mesh.i_forms@ == other.art_mesh.i_forms@
        &&& self.art_mesh.cnt_forms@ == other.art_mesh.cnt_forms@
        &&& self.art_mesh.unk_flag1@ == other.art_mesh.unk_flag1@
        &&& self.art_mesh.visible@ == other.art_mesh.visible@
        &&& self.art_mesh.i_part@ == other.art_mesh.i_part@
        &&& self.art_mesh.i_deformer@ == other.art_mesh.i_deformer@
        &&& self.art_mesh.texture@ == other.art_mesh.texture@
        &&& self.art_mesh.render_config@ == other.art_mesh.render_config@
        &&& self.art_mesh.vertex_count@ == other.art_mesh.vertex_count@
        &&& self.art_mesh.i_texcoord_start@ == other.art_mesh.i_texcoord_start@
        &&& self.art_mesh.i_indices@ == other.art_mesh.i_indices@
        &&& self.art_mesh.cnt_indices@ == other.art_mesh.cnt_indices@
        &&& self.art_mesh.i_clips@ == other.art_mesh.i_clips@
        &&& self.art_mesh.cnt_clips@ == other.art_mesh.cnt_clips@
        &&& self.art_mesh.i_color_forms@ == other.art_mesh.i_color_forms@
        &&& self.art_mesh.blend_config@ == other.art_mesh.blend_config@
        &&& self.art_mesh.i_blend_form_maps@ == other.art_mesh.i_blend_form_maps@
        &&& self.param.hdr@ == other.param.hdr@
        &&& self.param.id@ == other.param.id@
        &&& self.param.max@ == other.param.max@
        &&& self.param.min@ == other.param.min@
        &&& self.param.default@ == other.param.default@
        &&& self.param.repeat@ == other.param.repeat@
        &&& self.param.snap_type@ == other.param.snap_type@
        &&& self.param.i_maps@ == other.param.i_maps@
        &&& self.param.cnt_maps@ == other.param.cnt_maps@
        &&& self.param.unk_zero_2@ == other.param.unk_zero_2@
        &&& self.param.i_keypoints@ == other.param.i_keypoints@
        &&& self.param.cnt_keypoints@ == other.param.cnt_keypoints@
        &&& self.param.blendshape@ == other.param.blendshape@
        &&& self.param.i_blend_maps@ == other.param.i_blend_maps@
        &&& self.param.cnt_blend_maps@ == other.param.cnt_blend_maps@
        &&& self.part_form.depth@ == other.part_form.depth@
        &&& self.part_form.i_offscreen@ == other.part_form.i_offscreen@
        &&& self.warp_form.opacity@ == other.warp_form.opacity@
        &&& self.warp_form.i_start_vertex@ == other.warp_form.i_start_vertex@
        &&& self.warp_form.i_multiply_color@ == other.warp_form.i_multiply_color@
        &&& self.warp_form.i_screen_color@ == other.warp_form.i_screen_color@
        &&& self.rot_form.opacity@ == other.rot_form.opacity@
        &&& self.rot_form.angle@ == other.rot_form.angle@
        &&& self.rot_form.pos_x@ == other.rot_form.pos_x@
        &&& self.rot_form.pos_y@ == other.rot_form.pos_y@
        &&& self.rot_form.scale@ == other.rot_form.scale@
        &&& self.rot_form.flip_x@ == other.rot_form.flip_x@
        &&& self.rot_form.flip_y@ == other.rot_form.flip_y@
        &&& self.rot_form.i_multiply_color@ == other.rot_form.i_multiply_color@
        &&& self.rot_form.i_screen_color@ == other.rot_form.i_screen_color@
        &&& self.art_mesh_form.opacity@ == other.art_mesh_form.opacity@
        &&& self.art_mesh_form.depth@ == other.art_mesh_form.depth@
        &&& self.art_mesh_form.i_start_vertex@ == other.art_mesh_form.i_start_vertex@
        &&& self.art_mesh_form.i_multiply_color@ == other.art_mesh_form.i_multiply_color@
        &&& self.art_mesh_form.i_screen_color@ == other.art_mesh_form.i_screen_color@
        &&& self.vertex_coord.values@ == other.vertex_coord.values@
        &&& self.param_map_ref.i_map@ == other.param_map_ref.i_map@
        &&& self.param_map_set.i_refs@ == other.param_map_set.i_refs@
        &&& self.param_map_set.cnt_refs@ == other.param_map_set.cnt_refs@
        &&& self.param_map.i_keypoints@ == other.param_map.i_keypoints@
        &&& self.param_map.cnt_keypoints@ == other.param_map.cnt_keypoints@
        &&& self.keypoint.values@ == other.keypoint.values@
        &&& self.tex_coord.values@ == other.tex_coord.values@
        &&& self.vertex_index.values@ == other.vertex_index.values@
        &&& self.art_mesh_ref.i_artmesh@ == other.art_mesh_ref.i_artmesh@
        &&& self.draw_group.i_items@ == other.draw_group.i_items@
        &&& self.draw_group.cnt_items@ == other.draw_group.cnt_items@
        &&& self.draw_group.total_artmesh_count@ == other.draw_group.total_artmesh_count@
        &&& self.draw_group.max_depth@ == other.draw_group.max_depth@
        &&& self.draw_group.min_depth@ == other.draw_group.min_depth@
        &&& self.draw_item.item_type@ == other.draw_item.item_type@
        &&& self.draw_item.i_child@ == other.draw_item.i_child@
        &&& self.draw_item.i_draw_group@ == other.draw_item.i_draw_group@
        &&& self.glue.hdr@ == other.glue.hdr@
        &&& self.glue.id@ == other.glue.id@
        &&& self.glue.i_param_map_set@ == other.glue.i_param_map_set@
        &&& self.glue.i_forms@ == other.glue.i_forms@
        &&& self.glue.cnt_forms@ == other.glue.cnt_forms@
        &&& self.glue.i_artmesh_1@ == other.glue.i_artmesh_1@
        &&& self.glue.i_artmesh_2@ == other.glue.i_artmesh_2@
        &&& self.glue.i_coords@ == other.glue.i_coords@
        &&& self.glue.cnt_coords@ == other.glue.cnt_coords@
        &&& self.glue.i_blend_form_maps@ == other.glue.i_blend_form_maps@
        &&& self.glue_coord.weight@ == other.glue_coord.weight@
        &&& self.glue_coord.vertex_index@ == other.glue_coord.vertex_index@
        &&& self.glue_form.compatibility@ == other.glue_form.compatibility@
        &&& self.multiply_color.r@ == other.multiply_color.r@
        &&& self.multiply_color.g@ == other.multiply_color.g@
        &&& self.multiply_color.b@ == other.multiply_color.b@
        &&& self.screen_color.r@ == other.screen_color.r@
        &&& self.screen_color.g@ == other.screen_color.g@
        &&& self.screen_color.b@ == other.screen_color.b@
        &&& self.blend_param_map.i_keypoints@ == other.blend_param_map.i_keypoints@
        &&& self.blend_param_map.cnt_keypoints@ == other.blend_param_map.cnt_keypoints@
        &&& self.blend_param_map.neutral_index@ == other.blend_param_map.neutral_index@
        &&& self.blend_form_map.i_param_map@ == other.blend_form_map.i_param_map@
        &&& self.blend_form_map.i_forms@ == other.blend_form_map.i_forms@
        &&& self.blend_form_map.cnt_forms@ == other.blend_form_map.cnt_forms@
        &&& self.blend_form_map.i_blendweight_limits@ == other.blend_form_map.i_blendweight_limits@
        &&& self.blend_form_map.cnt_blendweight_limits@ == other.blend_form_map.cnt_blendweight_limits@
        &&& self.warp_blend_form_maps.i_warp@ == other.warp_blend_form_maps.i_warp@
        &&& self.warp_blend_form_maps.i_maps@ == other.warp_blend_form_maps.i_maps@
        &&& self.warp_blend_form_maps.cnt_maps@ == other.warp_blend_form_maps.cnt_maps@
        &&& self.art_mesh_blend_form_maps.i_artmesh@ == other.art_mesh_blend_form_maps.i_artmesh@
        &&& self.art_mesh_blend_form_maps.i_maps@ == other.art_mesh_blend_form_maps.i_maps@
        &&& self.art_mesh_blend_form_maps.cnt_maps@ == other.art_mesh_blend_form_maps.cnt_maps@
        &&& self.blend_weight_limit_ref.i_limit@ == other.blend_weight_limit_ref.i_limit@
        &&& self.blend_weight_limit.i_param@ == other.blend_weight_limit.i_param@
        &&& self.blend_weight_limit.i_points@ == other.blend_weight_limit.i_points@
        &&& self.blend_weight_limit.cnt_points@ == other.blend_weight_limit.cnt_points@
        &&& self.blend_weight_limit_point.value@ == other.blend_weight_limit_point.value@
        &&& self.blend_weight_limit_point.weight@ == other.blend_weight_limit_point.weight@
        &&& self.part_blend_form_maps.i_part@ == other.part_blend_form_maps.i_part@
        &&& self.part_blend_form_maps.i_maps@ == other.part_blend_form_maps.i_maps@
        &&& self.part_blend_form_maps.cnt_maps@ == other.part_blend_form_maps.cnt_maps@
        &&& self.rot_blend_form_maps.i_rot@ == other.rot_blend_form_maps.i_rot@
        &&& self.rot_blend_form_maps.i_maps@ == other.rot_blend_form_maps.i_maps@
        &&& self.rot_blend_form_maps.cnt_maps@ == other.rot_blend_form_maps.cnt_maps@
        &&& self.glue_blend_form_maps.i_glue@ == other.glue_blend_form_maps.i_glue@
        &&& self.glue_blend_form_maps.i_maps@ == other.glue_blend_form_maps.i_maps@
        &&& self.glue_blend_form_maps.cnt_maps@ == other.glue_blend_form_maps.cnt_maps@
        &&& self.offscreen_part.unk_zeros@ == other.offscreen_part.unk_zeros@
        &&& self.offscreen_part.i_part@ == other.offscreen_part.i_part@
        &&& self.offscreen_part.render_config@ == other.offscreen_part.render_config@
        &&& self.offscreen_part.blend_config@ == other.offscreen_part.blend_config@
        &&& self.offscreen_part.i_clips@ == other.offscreen_part.i_clips@
        &&& self.offscreen_part.cnt_clips@ == other.offscreen_part.cnt_clips@
        &&& self.offscreen_part.i_blend_form_maps@ == other.offscreen_part.i_blend_form_maps@
        &&& self.offscreen_part_form.opacity@ == other.offscreen_part_form.opacity@
        &&& self.offscreen_part_form.i_multiply_color@ == other.offscreen_part_form.i_multiply_color@
        &&& self.offscreen_part_form.i_screen_color@ == other.offscreen_part_form.i_screen_color@
        &&& self.offscreen_part_blend_form_maps.i_offscreen_part@ == other.offscreen_part_blend_form_maps.i_offscreen_part@
        &&& self.offscreen_part_blend_form_maps.i_maps@ == other.offscreen_part_blend_form_maps.i_maps@
        &&& self.offscreen_part_blend_form_maps.cnt_maps@ == other.offscreen_part_blend_form_maps.cnt_maps@
    }

    pub fn raw_count(&self, c: ClassId) -> (r: usize)
        ensures r == self.raw_count_of(c),
    {
        match c {
            ClassId::Part => self.part.raw_count,
            ClassId::Deformer => self.deformer.raw_count,
            ClassId::WarpDeformer => self.warp_deformer.raw_count,
            ClassId::RotDeformer => self.rot_deformer.raw_count,
            ClassId::ArtMesh => self.art_mesh.raw_count,
            ClassId::Param => self.param.raw_count,
            ClassId::PartForm => self.part_form.raw_count,
            ClassId::WarpForm => self.warp_form.raw_count,
            ClassId::RotForm => self.rot_form.raw_count,
            ClassId::ArtMeshForm => self.art_mesh_form.raw_count,
            ClassId::VertexCoord => self.vertex_coord.raw_count,
            ClassId::ParamMapRef => self.param_map_ref.raw_count,
            ClassId::ParamMapSet => self.param_map_set.raw_count,
            ClassId::ParamMap => self.param_map.raw_count,
            ClassId::Keypoint => self.keypoint.raw_count,
            ClassId::TexCoord => self.tex_coord.raw_count,
            ClassId::VertexIndex => self.vertex_index.raw_count,
            ClassId::ArtMeshRef => self.art_mesh_ref.raw_count,
            ClassId::DrawGroup => self.draw_group.raw_count,
            ClassId::DrawItem => self.draw_item.raw_count,
            ClassId::Glue => self.glue.raw_count,
            ClassId::GlueCoord => self.glue_coord.raw_count,
            ClassId::GlueForm => self.glue_form.raw_count,
            ClassId::MultiplyColor => self.multiply_color.raw_count,
            ClassId::ScreenColor => self.screen_color.raw_count,
            ClassId::BlendParamMap => self.blend_param_map.raw_count,
            ClassId::BlendFormMap => self.blend_form_map.raw_count,
            ClassId::WarpBlendFormMaps => self.warp_blend_form_maps.raw_count,
            ClassId::ArtMeshBlendFormMaps => self.art_mesh_blend_form_maps.raw_count,
            ClassId::BlendWeightLimitRef => self.blend_weight_limit_ref.raw_count,
            ClassId::BlendWeightLimit => self.blend_weight_limit.raw_count,
            ClassId::BlendWeightLimitPoint => self.blend_weight_limit_point.raw_count,
            ClassId::PartBlendFormMaps => self.part_blend_form_maps.raw_count,
            ClassId::RotBlendFormMaps => self.rot_blend_form_maps.raw_count,
            ClassId::GlueBlendFormMaps => self.glue_blend_form_maps.raw_count,
            ClassId::OffscreenPart => self.offscreen_part.raw_count,
            ClassId::OffscreenPartForm => self.offscreen_part_form.raw_count,
            ClassId::OffscreenPartBlendFormMaps => self.offscreen_part_blend_form_maps.raw_count,
        }
    }

    /// Sets the number of objects that the file declares for one class.
    pub fn set_raw_count(&mut self, c: ClassId, n: usize)
        ensures
            final(self).same_columns(&*old(self)),
            final(self).raw_count_of(c) == n,
            forall|d: ClassId| d != c ==> #[trigger] final(self).raw_count_of(d) == old(self).raw_count_of(d),
            forall|d: ClassId| #[trigger] final(self).count_of(d) == old(self).count_of(d),
    {
        match c {
            ClassId::Part => { self.part.raw_count = n; }
            ClassId::Deformer => { self.deformer.raw_count = n; }
            ClassId::WarpDeformer => { self.warp_deformer.raw_count = n; }
            ClassId::RotDeformer => { self.rot_deformer.raw_count = n; }
            ClassId::ArtMesh => { self.art_mesh.raw_count = n; }
            ClassId::Param => { self.param.raw_count = n; }
            ClassId::PartForm => { self.part_form.raw_count = n; }
            ClassId::WarpForm => { self.warp_form.raw_count = n; }
            ClassId::RotForm => { self.rot_form.raw_count = n; }
            ClassId::ArtMeshForm => { self.art_mesh_form.raw_count = n; }
            ClassId::VertexCoord => { self.vertex_coord.raw_count = n; }
            ClassId::ParamMapRef => { self.param_map_ref.raw_count = n; }
            ClassId::ParamMapSet => { self.param_map_set.raw_count = n; }
            ClassId::ParamMap => { self.param_map.raw_count = n; }
            ClassId::Keypoint => { self.keypoint.raw_count = n; }
            ClassId::TexCoord => { self.tex_coord.raw_count = n; }
            ClassId::VertexIndex => { self.vertex_index.raw_count = n; }
            ClassId::ArtMeshRef => { self.art_mesh_ref.raw_count = n; }
            ClassId::DrawGroup => { self.draw_group.raw_count = n; }
            ClassId::DrawItem => { self.draw_item.raw_count = n; }
            ClassId::Glue => { self.glue.raw_count = n; }
            ClassId::GlueCoord => { self.glue_coord.raw_count = n; }
            ClassId::GlueForm => { self.glue_form.raw_count = n; }
            ClassId::MultiplyColor => { self.multiply_color.raw_count = n; }
            ClassId::ScreenColor => { self.screen_color.raw_count = n; }
            ClassId::BlendParamMap => { self.blend_param_map.raw_count = n; }
            ClassId::BlendFormMap => { self.blend_form_map.raw_count = n; }
            ClassId::WarpBlendFormMaps => { self.warp_blend_form_maps.raw_count = n; }
            ClassId::ArtMeshBlendFormMaps => { self.art_mesh_blend_form_maps.raw_count = n; }
            ClassId::BlendWeightLimitRef => { self.blend_weight_limit_ref.raw_count = n; }
            ClassId::BlendWeightLimit => { self.blend_weight_limit.raw_count = n; }
            ClassId::BlendWeightLimitPoint => { self.blend_weight_limit_point.raw_count = n; }
            ClassId::PartBlendFormMaps => { self.part_blend_form_maps.raw_count = n; }
            ClassId::RotBlendFormMaps => { self.rot_blend_form_maps.raw_count = n; }
            ClassId::GlueBlendFormMaps => { self.glue_blend_form_maps.raw_count = n; }
            ClassId::OffscreenPart => { self.offscreen_part.raw_count = n; }
            ClassId::OffscreenPartForm => { self.offscreen_part_form.raw_count = n; }
            ClassId::OffscreenPartBlendFormMaps => { self.offscreen_part_blend_form_maps.raw_count = n; }
        }
    }

    /// Opens every class to views: the reachable count becomes the declared count.
    pub fn open_counts(&mut self)
        ensures
            final(self).same_columns(&*old(self)),
            forall|d: ClassId| #[trigger] final(self).raw_count_of(d) == old(self).raw_count_of(d),
            forall|d: ClassId| #[trigger] final(self).count_of(d) == old(self).raw_count_of(d),
    {
        self.part.count = self.part.raw_count;
        self.deformer.count = self.deformer.raw_count;
        self.warp_deformer.count = self.warp_deformer.raw_count;
        self.rot_deformer.count = self.rot_deformer.raw_count;
        self.art_mesh.count = self.art_mesh.raw_count;
        self.param.count = self.param.raw_count;
        self.part_form.count = self.part_form.raw_count;
        self.warp_form.count = self.warp_form.raw_count;
        self.rot_form.count = self.rot_form.raw_count;
        self.art_mesh_form.count = self.art_mesh_form.raw_count;
        self.vertex_coord.count = self.vertex_coord.raw_count;
        self.param_map_ref.count = self.param_map_ref.raw_count;
        self.param_map_set.count = self.param_map_set.raw_count;
        self.param_map.count = self.param_map.raw_count;
        self.keypoint.count = self.keypoint.raw_count;
        self.tex_coord.count = self.tex_coord.raw_count;
        self.vertex_index.count = self.vertex_index.raw_count;
        self.art_mesh_ref.count = self.art_mesh_ref.raw_count;
        self.draw_group.count = self.draw_group.raw_count;
        self.draw_item.count = self.draw_item.raw_count;
        self.glue.count = self.glue.raw_count;
        self.glue_coord.count = self.glue_coord.raw_count;
        self.glue_form.count = self.glue_form.raw_count;
        self.multiply_color.count = self.multiply_color.raw_count;
        self.screen_color.count = self.screen_color.raw_count;
        self.blend_param_map.count = self.blend_param_map.raw_count;
        self.blend_form_map.count = self.blend_form_map.raw_count;
        self.warp_blend_form_maps.count = self.warp_blend_form_maps.raw_count;
        self.art_mesh_blend_form_maps.count = self.art_mesh_blend_form_maps.raw_count;
        self.blend_weight_limit_ref.count = self.blend_weight_limit_ref.raw_count;
        self.blend_weight_limit.count = self.blend_weight_limit.raw_count;
        self.blend_weight_limit_point.count = self.blend_weight_limit_point.raw_count;
        self.part_blend_form_maps.count = self.part_blend_form_maps.raw_count;
        self.rot_blend_form_maps.count = self.rot_blend_form_maps.raw_count;
        self.glue_blend_form_maps.count = self.glue_blend_form_maps.raw_count;
        self.offscreen_part.count = self.offscreen_part.raw_count;
        self.offscreen_part_form.count = self.offscreen_part_form.raw_count;
        self.offscreen_part_blend_form_maps.count = self.offscreen_part_blend_form_maps.raw_count;
    }
}

/// One `Part` object of a model.
#[derive(Clone, Debug)]
pub struct PartView<'model> {
    pub model: &'model ParsedModel,
    pub idx: u32,
    pub parent: Option<u32>,
}

impl<'model> PartView<'model> {
    /// The view's object exists and its class's columns are consistent.
    pub open spec fn valid(&self) -> bool {
        &&& self.model.part.wf()
        &&& self.idx < self.model.part.count
    }

    pub fn idx(&self) -> (r: IPart)
        ensures r.0 == self.idx,
    {
        Idx::new(self.idx)
    }

    pub fn fields(&self) -> (r: &'model PartFields)
        ensures r == &self.model.part,
    {
        &self.model.part
    }

    pub fn f_hdr(&self) -> (r: &'model U32Pair)
        requires self.valid(),
        ensures *r == self.model.part.hdr@[self.idx as int],
    {
        &self.model.part.hdr[self.idx as usize]
    }

    pub fn f_id(&self) -> (r: &'model String)
        requires self.valid(),
        ensures *r == self.model.part.id@[self.idx as int],
    {
        &self.model.part.id[self.idx as usize]
    }

    pub fn i_param_map_set(&self) -> (r: IParamMapSet)
        requires self.valid(),
        ensures r == self.model.part.i_param_map_set@[self.idx as int],
    {
        self.model.part.i_param_map_set[self.idx as usize]
    }

    pub fn param_map_set_view(&self) -> (r: ParamMapSetView<'model>)
        requires
            self.valid(),
            self.model.part.i_param_map_set@[self.idx as int].0 < self.model.param_map_set.count,
        ensures
            r.model == self.model && r.idx == self.model.part.i_param_map_set@[self.idx as int].0 && r.parent is None,
    {
        let idx = self.i_param_map_set();
        ParamMapSetView::get(self.model, idx).unwrap()
    }

    pub fn range_forms(&self) -> (r: Range<IPartForm>)
        requires
            self.valid(),
            self.model.part.i_forms@[self.idx as int].0 + self.model.part.cnt_forms@[self.idx as int] <= u32::MAX,
        ensures
            r.start.0 == self.model.part.i_forms@[self.idx as int].0,
            r.end.0 == self.model.part.i_forms@[self.idx as int].0 + self.model.part.cnt_forms@[self.idx as int],
    {
        let i = self.model.part.i_forms[self.idx as usize];
        let cnt = self.model.part.cnt_forms[self.idx as usize];
        let end = i.offset(cnt);
        Range { start: i, end }
    }

    pub fn cnt_forms(&self) -> (r: u32)
        requires self.valid(),
        ensures r == self.model.part.cnt_forms@[self.idx as int],
    {
        self.model.part.cnt_forms[self.idx as usize]
    }

    pub fn forms_views(&self) -> (r: ItemCollection<'model, PartFormView<'model>>)
        requires
            self.valid(),
            self.model.part.i_forms@[self.idx as int].0 + self.model.part.cnt_forms@[self.idx as int] <= u32::MAX,
        ensures
            r.model == self.model,
            r.start == self.model.part.i_forms@[self.idx as int].0,
            r.limit == self.model.part.i_forms@[self.idx as int].0 + self.model.part.cnt_forms@[self.idx as int],
            r.parent == Some(self.idx),
    {
        let range = self.range_forms();
        let mut c = ItemCollection::new(self.model, range.start.0, range.end.0);
        c.parent = Some(self.idx);
        c
    }

    pub fn f_visible_artmeshes(&self) -> (r: &'model bool)
        requires self.valid(),
        ensures *r == self.model.part.visible_artmeshes@[self.idx as int],
    {
        &self.model.part.visible_artmeshes[self.idx as usize]
    }

    pub fn f_visible_deformers(&self) -> (r: &'model bool)
        requires self.valid(),
        ensures *r == self.model.part.visible_deformers@[self.idx as int],
    {
        &self.model.part.visible_deformers[self.idx as usize]
    }

    pub fn i_parent(&self) -> (r: OptIPart)
        requires self.valid(),
        ensures r == self.model.part.i_parent@[self.idx as int],
    {
        self.model.part.i_parent[self.idx as usize]
    }

    pub fn parent_view(&self) -> (r: Option<PartView<'model>>)
        requires
            self.valid(),
            opt_idx_get(self.model.part.i_parent@[self.idx as int].0) matches Some(j) ==> j < self.model.part.count,
        ensures
            r is Some <==> opt_idx_get(self.model.part.i_parent@[self.idx as int].0) is Some,
            r matches Some(v) ==> v.model == self.model && Some(v.idx) == opt_idx_get(self.model.part.i_parent@[self.idx as int].0) && v.parent is None,
    {
        let idx = self.i_parent().to_index();
        match idx {
            Some(a) => Some(PartView::get(self.model, a).unwrap()),
            None => None,
        }
    }

    pub fn i_offscreen_part(&self) -> (r: OptIOffscreenPart)
        requires self.valid(),
        ensures r == self.model.part.i_offscreen_part@[self.idx as int],
    {
        self.model.part.i_offscreen_part[self.idx as usize]
    }

    pub fn offscreen_part_view(&self) -> (r: Option<OffscreenPartView<'model>>)
        requires
            self.valid(),
            opt_idx_get(self.model.part.i_offscreen_part@[self.idx as int].0) matches Some(j) ==> j < self.model.offscreen_part.count,
        ensures
            r is Some <==> opt_idx_get(self.model.part.i_offscreen_part@[self.idx as int].0) is Some,
            r matches Some(v) ==> v.model == self.model && Some(v.idx) == opt_idx_get(self.model.part.i_offscreen_part@[self.idx as int].0) && v.parent is None,
    {
        let idx = self.i_offscreen_part().to_index();
        match idx {
            Some(a) => Some(OffscreenPartView::get(self.model, a).unwrap()),
            None => None,
        }
    }

    pub fn i_blend_form_maps(&self) -> (r: OptIPartBlendFormMaps)
        requires self.valid(),
        ensures r == self.model.part.i_blend_form_maps@[self.idx as int],
    {
        self.model.part.i_blend_form_maps[self.idx as usize]
    }

    pub fn blend_form_maps_view(&self) -> (r: Option<PartBlendFormMapsView<'model>>)
        requires
            self.valid(),
            opt_idx_get(self.model.part.i_blend_form_maps@[self.idx as int].0) matches Some(j) ==> j < self.model.part_blend_form_maps.count,
        ensures
            r is Some <==> opt_idx_get(self.model.part.i_blend_form_maps@[self.idx as int].0) is Some,
            r matches Some(v) ==> v.model == self.model && Some(v.idx) == opt_idx_get(self.model.part.i_blend_form_maps@[self.idx as int].0) && v.parent is None,
    {
        let idx = self.i_blend_form_maps().to_index();
        match idx {
            Some(a) => Some(PartBlendFormMapsView::get(self.model, a).unwrap()),
            None => None,
        }
    }

}

impl<'model> ObjectView<'model> for PartView<'model> {
    type Object = Part;

    open spec fn class_count(model: &ParsedModel) -> nat { model.part.count as nat }
    open spec fn spec_model(&self) -> &'model ParsedModel { self.model }
    open spec fn spec_idx(&self) -> u32 { self.idx }
    open spec fn spec_parent(&self) -> Option<u32> { self.parent }

    proof fn lemma_unit_stride() {}

    fn get(model: &'model ParsedModel, idx: IPart) -> (r: Option<Self>) {
        if model.part.count > idx.0 as usize {
            Some(PartView { model, idx: idx.0, parent: None })
        } else {
            None
        }
    }

    fn get_ref(model: &'model ParsedModel, idx: IPart) -> (r: Option<ViewRef<'model, Self>>) {
        match Self::get(model, idx) {
            Some(v) => Some(ViewRef::new(v)),
            None => None,
        }
    }

    fn into_ref(self) -> (r: ViewRef<'model, Self>) {
        ViewRef::new(self)
    }

    fn set_parent_idx(&mut self, idx: u32) {
        self.parent = Some(idx);
    }
}

/// One `Deformer` object of a model.
#[derive(Clone, Debug)]
pub struct DeformerView<'model> {
    pub model: &'model ParsedModel,
    pub idx: u32,
    pub parent: Option<u32>,
}

impl<'model> DeformerView<'model> {
    /// The view's object exists and its class's columns are consistent.
    pub open spec fn valid(&self) -> bool {
        &&& self.model.deformer.wf()
        &&& self.idx < self.model.deformer.count
    }

    pub fn idx(&self) -> (r: IDeformer)
        ensures r.0 == self.idx,
    {
        Idx::new(self.idx)
    }

    pub fn fields(&self) -> (r: &'model DeformerFields)
        ensures r == &self.model.deformer,
    {
        &self.model.deformer
    }

    pub fn f_hdr(&self) -> (r: &'model U32Pair)
        requires self.valid(),
        ensures *r == self.model.deformer.hdr@[self.idx as int],
    {
        &self.model.deformer.hdr[self.idx as usize]
    }

    pub fn f_id(&self) -> (r: &'model String)
        requires self.valid(),
        ensures *r == self.model.deformer.id@[self.idx as int],
    {
        &self.model.deformer.id[self.idx as usize]
    }

    pub fn i_param_map_set(&self) -> (r: IParamMapSet)
        requires self.valid(),
        ensures r == self.model.deformer.i_param_map_set@[self.idx as int],
    {
        self.model.deformer.i_param_map_set[self.idx as usize]
    }

    pub fn param_map_set_view(&self) -> (r: ParamMapSetView<'model>)
        requires
            self.valid(),
            self.model.deformer.i_param_map_set@[self.idx as int].0 < self.model.param_map_set.count,
        ensures
            r.model == self.model && r.idx == self.model.deformer.i_param_map_set@[self.idx as int].0 && r.parent is None,
    {
        let idx = self.i_param_map_set();
        ParamMapSetView::get(self.model, idx).unwrap()
    }

    pub fn f_unk_flag1(&self) -> (r: &'model bool)
        requires self.valid(),
        ensures *r == self.model.deformer.unk_flag1@[self.idx as int],
    {
        &self.model.deformer.unk_flag1[self.idx as usize]
    }

    pub fn f_visible(&self) -> (r: &'model bool)
        requires self.valid(),
        ensures *r == self.model.deformer.visible@[self.idx as int],
    {
        &self.model.deformer.visible[self.idx as usize]
    }

    pub fn i_part(&self) -> (r: OptIPart)
        requires self.valid(),
        ensures r == self.model.deformer.i_part@[self.idx as int],
    {
        self.model.deformer.i_part[self.idx as usize]
    }

    pub fn part_view(&self) -> (r: Option<PartView<'model>>)
        requires
            self.valid(),
            opt_idx_get(self.model.deformer.i_part@[self.idx as int].0) matches Some(j) ==> j < self.model.part.count,
        ensures
            r is Some <==> opt_idx_get(self.model.deformer.i_part@[self.idx as int].0) is Some,
            r matches Some(v) ==> v.model == self.model && Some(v.idx) == opt_idx_get(self.model.deformer.i_part@[self.idx as int].0) && v.parent is None,
    {
        let idx = self.i_part().to_index();
        match idx {
            Some(a) => Some(PartView::get(self.model, a).unwrap()),
            None => None,
        }
    }

    pub fn i_parent(&self) -> (r: OptIDeformer)
        requires self.valid(),
        ensures r == self.model.deformer.i_parent@[self.idx as int],
    {
        self.model.deformer.i_parent[self.idx as usize]
    }

    pub fn parent_view(&self) -> (r: Option<DeformerView<'model>>)
        requires
            self.valid(),
            opt_idx_get(self.model.deformer.i_parent@[self.idx as int].0) matches Some(j) ==> j < self.model.deformer.count,
        ensures
            r is Some <==> opt_idx_get(self.model.deformer.i_parent@[self.idx as int].0) is Some,
            r matches Some(v) ==> v.model == self.model && Some(v.idx) == opt_idx_get(self.model.deformer.i_parent@[self.idx as int].0) && v.parent is None,
    {
        let idx = self.i_parent().to_index();
        match idx {
            Some(a) => Some(DeformerView::get(self.model, a).unwrap()),
            None => None,
        }
    }

    pub fn f_deformer_type(&self) -> (r: &'model DeformerType)
        requires self.valid(),
        ensures *r == self.model.deformer.deformer_type@[self.idx as int],
    {
        &self.model.deformer.deformer_type[self.idx as usize]
    }

    pub fn f_i_typed(&self) -> (r: &'model u32)
        requires self.valid(),
        ensures *r == self.model.deformer.i_typed@[self.idx as int],
    {
        &self.model.deformer.i_typed[self.idx as usize]
    }

}

impl<'model> ObjectView<'model> for DeformerView<'model> {
    type Object = Deformer;

    open spec fn class_count(model: &ParsedModel) -> nat { model.deformer.count as nat }
    open spec fn spec_model(&self) -> &'model ParsedModel { self.model }
    open spec fn spec_idx(&self) -> u32 { self.idx }
    open spec fn spec_parent(&self) -> Option<u32> { self.parent }

    proof fn lemma_unit_stride() {}

    fn get(model: &'model ParsedModel, idx: IDeformer) -> (r: Option<Self>) {
        if model.deformer.count > idx.0 as usize {
            Some(DeformerView { model, idx: idx.0, parent: None })
        } else {
            None
        }
    }

    fn get_ref(model: &'model ParsedModel, idx: IDeformer) -> (r: Option<ViewRef<'model, Self>>) {
        match Self::get(model, idx) {
            Some(v) => Some(ViewRef::new(v)),
            None => None,
        }
    }

    fn into_ref(self) -> (r: ViewRef<'model, Self>) {
        ViewRef::new(self)
    }

    fn set_parent_idx(&mut self, idx: u32) {
        self.parent = Some(idx);
    }
}

/// One `WarpDeformer` object of a model.
#[derive(Clone, Debug)]
pub struct WarpDeformerView<'model> {
    pub model: &'model ParsedModel,
    pub idx: u32,
    pub parent: Option<u32>,
}

impl<'model> WarpDeformerView<'model> {
    /// The view's object exists and its class's columns are consistent.
    pub open spec fn valid(&self) -> bool {
        &&& self.model.warp_deformer.wf()
        &&& self.idx < self.model.warp_deformer.count
    }

    pub fn idx(&self) -> (r: IWarpDeformer)
        ensures r.0 == self.idx,
    {
        Idx::new(self.idx)
    }

    pub fn fields(&self) -> (r: &'model WarpDeformerFields)
        ensures r == &self.model.warp_deformer,
    {
        &self.model.warp_deformer
    }

    pub fn i_param_map_set(&self) -> (r: IParamMapSet)
        requires self.valid(),
        ensures r == self.model.warp_deformer.i_param_map_set@[self.idx as int],
    {
        self.model.warp_deformer.i_param_map_set[self.idx as usize]
    }

    pub fn param_map_set_view(&self) -> (r: ParamMapSetView<'model>)
        requires
            self.valid(),
            self.model.warp_deformer.i_param_map_set@[self.idx as int].0 < self.model.param_map_set.count,
        ensures
            r.model == self.model && r.idx == self.model.warp_deformer.i_param_map_set@[self.idx as int].0 && r.parent is None,
    {
        let idx = self.i_param_map_set();
        ParamMapSetView::get(self.model, idx).unwrap()
    }

    pub fn range_forms(&self) -> (r: Range<IWarpForm>)
        requires
            self.valid(),
            self.model.warp_deformer.i_forms@[self.idx as int].0 + self.model.warp_deformer.cnt_forms@[self.idx as int] <= u32::MAX,
        ensures
            r.start.0 == self.model.warp_deformer.i_forms@[self.idx as int].0,
            r.end.0 == self.model.warp_deformer.i_forms@[self.idx as int].0 + self.model.warp_deformer.cnt_forms@[self.idx as int],
    {
        let i = self.model.warp_deformer.i_forms[self.idx as usize];
        let cnt = self.model.warp_deformer.cnt_forms[self.idx as usize];
        let end = i.offset(cnt);
        Range { start: i, end }
    }

    pub fn cnt_forms(&self) -> (r: u32)
        requires self.valid(),
        ensures r == self.model.warp_deformer.cnt_forms@[self.idx as int],
    {
        self.model.warp_deformer.cnt_forms[self.idx as usize]
    }

    pub fn forms_views(&self) -> (r: ItemCollection<'model, WarpFormView<'model>>)
        requires
            self.valid(),
            self.model.warp_deformer.i_forms@[self.idx as int].0 + self.model.warp_deformer.cnt_forms@[self.idx as int] <= u32::MAX,
        ensures
            r.model == self.model,
            r.start == self.model.warp_deformer.i_forms@[self.idx as int].0,
            r.limit == self.model.warp_deformer.i_forms@[self.idx as int].0 + self.model.warp_deformer.cnt_forms@[self.idx as int],
            r.parent == Some(self.idx),
    {
        let range = self.range_forms();
        let mut c = ItemCollection::new(self.model, range.start.0, range.end.0);
        c.parent = Some(self.idx);
        c
    }

    pub fn f_vertex_count(&self) -> (r: &'model u32)
        requires self.valid(),
        ensures *r == self.model.warp_deformer.vertex_count@[self.idx as int],
    {
        &self.model.warp_deformer.vertex_count[self.idx as usize]
    }

    pub fn f_y_divs(&self) -> (r: &'model u32)
        requires self.valid(),
        ensures *r == self.model.warp_deformer.y_divs@[self.idx as int],
    {
        &self.model.warp_deformer.y_divs[self.idx as usize]
    }

    pub fn f_x_divs(&self) -> (r: &'model u32)
        requires self.valid(),
        ensures *r == self.model.warp_deformer.x_divs@[self.idx as int],
    {
        &self.model.warp_deformer.x_divs[self.idx as usize]
    }

    pub fn f_bilinear_interpolation(&self) -> (r: &'model bool)
        requires self.valid(),
        ensures *r == self.model.warp_deformer.bilinear_interpolation@[self.idx as int],
    {
        &self.model.warp_deformer.bilinear_interpolation[self.idx as usize]
    }

    pub fn f_i_color_forms(&self) -> (r: &'model u32)
        requires self.valid(),
        ensures *r == self.model.warp_deformer.i_color_forms@[self.idx as int],
    {
        &self.model.warp_deformer.i_color_forms[self.idx as usize]
    }

    pub fn i_deformer(&self) -> (r: OptIDeformer)
        requires self.valid(),
        ensures r == self.model.warp_deformer.i_deformer@[self.idx as int],
    {
        self.model.warp_deformer.i_deformer[self.idx as usize]
    }

    pub fn deformer_view(&self) -> (r: Option<DeformerView<'model>>)
        requires
            self.valid(),
            opt_idx_get(self.model.warp_deformer.i_deformer@[self.idx as int].0) matches Some(j) ==> j < self.model.deformer.count,
        ensures
            r is Some <==> opt_idx_get(self.model.warp_deformer.i_deformer@[self.idx as int].0) is Some,
            r matches Some(v) ==> v.model == self.model && Some(v.idx) == opt_idx_get(self.model.warp_deformer.i_deformer@[self.idx as int].0) && v.parent is None,
    {
        let idx = self.i_deformer().to_index();
        match idx {
            Some(a) => Some(DeformerView::get(self.model, a).unwrap()),
            None => None,
        }
    }

    pub fn i_blend_form_maps(&self) -> (r: OptIWarpBlendFormMaps)
        requires self.valid(),
        ensures r == self.model.warp_deformer.i_blend_form_maps@[self.idx as int],
    {
        self.model.warp_deformer.i_blend_form_maps[self.idx as usize]
    }

    pub fn blend_form_maps_view(&self) -> (r: Option<WarpBlendFormMapsView<'model>>)
        requires
            self.valid(),
            opt_idx_get(self.model.warp_deformer.i_blend_form_maps@[self.idx as int].0) matches Some(j) ==> j < self.model.warp_blend_form_maps.count,
        ensures
            r is Some <==> opt_idx_get(self.model.warp_deformer.i_blend_form_maps@[self.idx as int].0) is Some,
            r matches Some(v) ==> v.model == self.model && Some(v.idx) == opt_idx_get(self.model.warp_deformer.i_blend_form_maps@[self.idx as int].0) && v.parent is None,
    {
        let idx = self.i_blend_form_maps().to_index();
        match idx {
            Some(a) => Some(WarpBlendFormMapsView::get(self.model, a).unwrap()),
            None => None,
        }
    }

}

impl<'model> ObjectView<'model> for WarpDeformerView<'model> {
    type Object = WarpDeformer;

    open spec fn class_count(model: &ParsedModel) -> nat { model.warp_deformer.count as nat }
    open spec fn spec_model(&self) -> &'model ParsedModel { self.model }
    open spec fn spec_idx(&self) -> u32 { self.idx }
    open spec fn spec_parent(&self) -> Option<u32> { self.parent }

    proof fn lemma_unit_stride() {}

    fn get(model: &'model ParsedModel, idx: IWarpDeformer) -> (r: Option<Self>) {
        if model.warp_deformer.count > idx.0 as usize {
            Some(WarpDeformerView { model, idx: idx.0, parent: None })
        } else {
            None
        }
    }

    fn get_ref(model: &'model ParsedModel, idx: IWarpDeformer) -> (r: Option<ViewRef<'model, Self>>) {
        match Self::get(model, idx) {
            Some(v) => Some(ViewRef::new(v)),
            None => None,
        }
    }

    fn into_ref(self) -> (r: ViewRef<'model, Self>) {
        ViewRef::new(self)
    }

    fn set_parent_idx(&mut self, idx: u32) {
        self.parent = Some(idx);
    }
}

/// One `RotDeformer` object of a model.
#[derive(Clone, Debug)]
pub struct RotDeformerView<'model> {
    pub model: &'model ParsedModel,
    pub idx: u32,
    pub parent: Option<u32>,
}

impl<'model> RotDeformerView<'model> {
    /// The view's object exists and its class's columns are consistent.
    pub open spec fn valid(&self) -> bool {
        &&& self.model.rot_deformer.wf()
        &&& self.idx < self.model.rot_deformer.count
    }

    pub fn idx(&self) -> (r: IRotDeformer)
        ensures r.0 == self.idx,
    {
        Idx::new(self.idx)
    }

    pub fn fields(&self) -> (r: &'model RotDeformerFields)
        ensures r == &self.model.rot_deformer,
    {
        &self.model.rot_deformer
    }

    pub fn i_param_map_set(&self) -> (r: IParamMapSet)
        requires self.valid(),
        ensures r == self.model.rot_deformer.i_param_map_set@[self.idx as int],
    {
        self.model.rot_deformer.i_param_map_set[self.idx as usize]
    }

    pub fn param_map_set_view(&self) -> (r: ParamMapSetView<'model>)
        requires
            self.valid(),
            self.model.rot_deformer.i_param_map_set@[self.idx as int].0 < self.model.param_map_set.count,
        ensures
            r.model == self.model && r.idx == self.model.rot_deformer.i_param_map_set@[self.idx as int].0 && r.parent is None,
    {
        let idx = self.i_param_map_set();
        ParamMapSetView::get(self.model, idx).unwrap()
    }

    pub fn range_forms(&self) -> (r: Range<IRotForm>)
        requires
            self.valid(),
            self.model.rot_deformer.i_forms@[self.idx as int].0 + self.model.rot_deformer.cnt_forms@[self.idx as int] <= u32::MAX,
        ensures
            r.start.0 == self.model.rot_deformer.i_forms@[self.idx as int].0,
            r.end.0 == self.model.rot_deformer.i_forms@[self.idx as int].0 + self.model.rot_deformer.cnt_forms@[self.idx as int],
    {
        let i = self.model.rot_deformer.i_forms[self.idx as usize];
        let cnt = self.model.rot_deformer.cnt_forms[self.idx as usize];
        let end = i.offset(cnt);
        Range { start: i, end }
    }

    pub fn cnt_forms(&self) -> (r: u32)
        requires self.valid(),
        ensures r == self.model.rot_deformer.cnt_forms@[self.idx as int],
    {
        self.model.rot_deformer.cnt_forms[self.idx as usize]
    }

    pub fn forms_views(&self) -> (r: ItemCollection<'model, RotFormView<'model>>)
        requires
            self.valid(),
            self.model.rot_deformer.i_forms@[self.idx as int].0 + self.model.rot_deformer.cnt_forms@[self.idx as int] <= u32::MAX,
        ensures
            r.model == self.model,
            r.start == self.model.rot_deformer.i_forms@[self.idx as int].0,
            r.limit == self.model.rot_deformer.i_forms@[self.idx as int].0 + self.model.rot_deformer.cnt_forms@[self.idx as int],
            r.parent == Some(self.idx),
    {
        let range = self.range_forms();
        let mut c = ItemCollection::new(self.model, range.start.0, range.end.0);
        c.parent = Some(self.idx);
        c
    }

    pub fn f_angle_offset(&self) -> (r: &'model RawF32)
        requires self.valid(),
        ensures *r == self.model.rot_deformer.angle_offset@[self.idx as int],
    {
        &self.model.rot_deformer.angle_offset[self.idx as usize]
    }

    pub fn f_i_color_forms(&self) -> (r: &'model u32)
        requires self.valid(),
        ensures *r == self.model.rot_deformer.i_color_forms@[self.idx as int],
    {
        &self.model.rot_deformer.i_color_forms[self.idx as usize]
    }

    pub fn i_deformer(&self) -> (r: OptIDeformer)
        requires self.valid(),
        ensures r == self.model.rot_deformer.i_deformer@[self.idx as int],
    {
        self.model.rot_deformer.i_deformer[self.idx as usize]
    }

    pub fn deformer_view(&self) -> (r: Option<DeformerView<'model>>)
        requires
            self.valid(),
            opt_idx_get(self.model.rot_deformer.i_deformer@[self.idx as int].0) matches Some(j) ==> j < self.model.deformer.count,
        ensures
            r is Some <==> opt_idx_get(self.model.rot_deformer.i_deformer@[self.idx as int].0) is Some,
            r matches Some(v) ==> v.model == self.model && Some(v.idx) == opt_idx_get(self.model.rot_deformer.i_deformer@[self.idx as int].0) && v.parent is None,
    {
        let idx = self.i_deformer().to_index();
        match idx {
            Some(a) => Some(DeformerView::get(self.model, a).unwrap()),
            None => None,
        }
    }

    pub fn i_blend_form_maps(&self) -> (r: OptIRotBlendFormMaps)
        requires self.valid(),
        ensures r == self.model.rot_deformer.i_blend_form_maps@[self.idx as int],
    {
        self.model.rot_deformer.i_blend_form_maps[self.idx as usize]
    }

    pub fn blend_form_maps_view(&self) -> (r: Option<RotBlendFormMapsView<'model>>)
        requires
            self.valid(),
            opt_idx_get(self.model.rot_deformer.i_blend_form_maps@[self.idx as int].0) matches Some(j) ==> j < self.model.rot_blend_form_maps.count,
        ensures
            r is Some <==> opt_idx_get(self.model.rot_deformer.i_blend_form_maps@[self.idx as int].0) is Some,
            r matches Some(v) ==> v.model == self.model && Some(v.idx) == opt_idx_get(self.model.rot_deformer.i_blend_form_maps@[self.idx as int].0) && v.parent is None,
    {
        let idx = self.i_blend_form_maps().to_index();
        match idx {
            Some(a) => Some(RotBlendFormMapsView::get(self.model, a).unwrap()),
            None => None,
        }
    }

}

impl<'model> ObjectView<'model> for RotDeformerView<'model> {
    type Object = RotDeformer;

    open spec fn class_count(model: &ParsedModel) -> nat { model.rot_deformer.count as nat }
    open spec fn spec_model(&self) -> &'model ParsedModel { self.model }
    open spec fn spec_idx(&self) -> u32 { self.idx }
    open spec fn spec_parent(&self) -> Option<u32> { self.parent }

    proof fn lemma_unit_stride() {}

    fn get(model: &'model ParsedModel, idx: IRotDeformer) -> (r: Option<Self>) {
        if model.rot_deformer.count > idx.0 as usize {
            Some(RotDeformerView { model, idx: idx.0, parent: None })
        } else {
            None
        }
    }

    fn get_ref(model: &'model ParsedModel, idx: IRotDeformer) -> (r: Option<ViewRef<'model, Self>>) {
        match Self::get(model, idx) {
            Some(v) => Some(ViewRef::new(v)),
            None => None,
        }
    }

    fn into_ref(self) -> (r: ViewRef<'model, Self>) {
        ViewRef::new(self)
    }

    fn set_parent_idx(&mut self, idx: u32) {
        self.parent = Some(idx);
    }
}

/// One `ArtMesh` object of a model.
#[derive(Clone, Debug)]
pub struct ArtMeshView<'model> {
    pub model: &'model ParsedModel,
    pub idx: u32,
    pub parent: Option<u32>,
}

impl<'model> ArtMeshView<'model> {
    /// The view's object exists and its class's columns are consistent.
    pub open spec fn valid(&self) -> bool {
        &&& self.model.art_mesh.wf()
        &&& self.idx < self.model.art_mesh.count
    }

    pub fn idx(&self) -> (r: IArtMesh)
        ensures r.0 == self.idx,
    {
        Idx::new(self.idx)
    }

    pub fn fields(&self) -> (r: &'model ArtMeshFields)
        ensures r == &self.model.art_mesh,
    {
        &self.model.art_mesh
    }

    pub fn f_hdr(&self) -> (r: &'model U32Pair)
        requires self.valid(),
        ensures *r == self.model.art_mesh.hdr@[self.idx as int],
    {
        &self.model.art_mesh.hdr[self.idx as usize]
    }

    pub fn f_unk_a(&self) -> (r: &'model U32Pair)
        requires self.valid(),
        ensures *r == self.model.art_mesh.unk_a@[self.idx as int],
    {
        &self.model.art_mesh.unk_a[self.idx as usize]
    }

    pub fn f_unk_b(&self) -> (r: &'model U32Pair)
        requires self.valid(),
        ensures *r == self.model.art_mesh.unk_b@[self.idx as int],
    {
        &self.model.art_mesh.unk_b[self.idx as usize]
    }

    pub fn f_unk_c(&self) -> (r: &'model U32Pair)
        requires self.valid(),
        ensures *r == self.model.art_mesh.unk_c@[self.idx as int],
    {
        &self.model.art_mesh.unk_c[self.idx as usize]
    }

    pub fn f_id(&self) -> (r: &'model String)
        requires self.valid(),
        ensures *r == self.model.art_mesh.id@[self.idx as int],
    {
        &self.model.art_mesh.id[self.idx as usize]
    }

    pub fn i_param_map_set(&self) -> (r: IParamMapSet)
        requires self.valid(),
        ensures r == self.model.art_mesh.i_param_map_set@[self.idx as int],
    {
        self.model.art_mesh.i_param_map_set[self.idx as usize]
    }

    pub fn param_map_set_view(&self) -> (r: ParamMapSetView<'model>)
        requires
            self.valid(),
            self.model.art_mesh.i_param_map_set@[self.idx as int].0 < self.model.param_map_set.count,
        ensures
            r.model == self.model && r.idx == self.model.art_mesh.i_param_map_set@[self.idx as int].0 && r.parent is None,
    {
        let idx = self.i_param_map_set();
        ParamMapSetView::get(self.model, idx).unwrap()
    }

    pub fn range_forms(&self) -> (r: Range<IArtMeshForm>)
        requires
            self.valid(),
            self.model.art_mesh.i_forms@[self.idx as int].0 + self.model.art_mesh.cnt_forms@[self.idx as int] <= u32::MAX,
        ensures
            r.start.0 == self.model.art_mesh.i_forms@[self.idx as int].0,
            r.end.0 == self.model.art_mesh.i_forms@[self.idx as int].0 + self.model.art_mesh.cnt_forms@[self.idx as int],
    {
        let i = self.model.art_mesh.i_forms[self.idx as usize];
        let cnt = self.model.art_mesh.cnt_forms[self.idx as usize];
        let end = i.offset(cnt);
        Range { start: i, end }
    }

    pub fn cnt_forms(&self) -> (r: u32)
        requires self.valid(),
        ensures r == self.model.art_mesh.cnt_forms@[self.idx as int],
    {
        self.model.art_mesh.cnt_forms[self.idx as usize]
    }

    pub fn forms_views(&self) -> (r: ItemCollection<'model, ArtMeshFormView<'model>>)
        requires
            self.valid(),
            self.model.art_mesh.i_forms@[self.idx as int].0 + self.model.art_mesh.cnt_forms@[self.idx as int] <= u32::MAX,
        ensures
            r.model == self.model,
            r.start == self.model.art_mesh.i_forms@[self.idx as int].0,
            r.limit == self.model.art_mesh.i_forms@[self.idx as int].0 + self.model.art_mesh.cnt_forms@[self.idx as int],
            r.parent == Some(self.idx),
    {
        let range = self.range_forms();
        let mut c = ItemCollection::new(self.model, range.start.0, range.end.0);
        c.parent = Some(self.idx);
        c
    }

    pub fn f_unk_flag1(&self) -> (r: &'model bool)
        requires self.valid(),
        ensures *r == self.model.art_mesh.unk_flag1@[self.idx as int],
    {
        &self.model.art_mesh.unk_flag1[self.idx as usize]
    }

    pub fn f_visible(&self) -> (r: &'model bool)
        requires self.valid(),
        ensures *r == self.model.art_mesh.visible@[self.idx as int],
    {
        &self.model.art_mesh.visible[self.idx as usize]
    }

    pub fn i_part(&self) -> (r: OptIPart)
        requires self.valid(),
        ensures r == self.model.art_mesh.i_part@[self.idx as int],
    {
        self.model.art_mesh.i_part[self.idx as usize]
    }

    pub fn part_view(&self) -> (r: Option<PartView<'model>>)
        requires
            self.valid(),
            opt_idx_get(self.model.art_mesh.i_part@[self.idx as int].0) matches Some(j) ==> j < self.model.part.count,
        ensures
            r is Some <==> opt_idx_get(self.model.art_mesh.i_part@[self.idx as int].0) is Some,
            r matches Some(v) ==> v.model == self.model && Some(v.idx) == opt_idx_get(self.model.art_mesh.i_part@[self.idx as int].0) && v.parent is None,
    {
        let idx = self.i_part().to_index();
        match idx {
            Some(a) => Some(PartView::get(self.model, a).unwrap()),
            None => None,
        }
    }

    pub fn i_deformer(&self) -> (r: OptIDeformer)
        requires self.valid(),
        ensures r == self.model.art_mesh.i_deformer@[self.idx as int],
    {
        self.model.art_mesh.i_deformer[self.idx as usize]
    }

    pub fn deformer_view(&self) -> (r: Option<DeformerView<'model>>)
        requires
            self.valid(),
            opt_idx_get(self.model.art_mesh.i_deformer@[self.idx as int].0) matches Some(j) ==> j < self.model.deformer.count,
        ensures
            r is Some <==> opt_idx_get(self.model.art_mesh.i_deformer@[self.idx as int].0) is Some,
            r matches Some(v) ==> v.model == self.model && Some(v.idx) == opt_idx_get(self.model.art_mesh.i_deformer@[self.idx as int].0) && v.parent is None,
    {
        let idx = self.i_deformer().to_index();
        match idx {
            Some(a) => Some(DeformerView::get(self.model, a).unwrap()),
            None => None,
        }
    }

    pub fn f_texture(&self) -> (r: &'model u32)
        requires self.valid(),
        ensures *r == self.model.art_mesh.texture@[self.idx as int],
    {
        &self.model.art_mesh.texture[self.idx as usize]
    }

    pub fn f_render_config(&self) -> (r: &'model u8)
        requires self.valid(),
        ensures *r == self.model.art_mesh.render_config@[self.idx as int],
    {
        &self.model.art_mesh.render_config[self.idx as usize]
    }

    pub fn f_vertex_count(&self) -> (r: &'model u32)
        requires self.valid(),
        ensures *r == self.model.art_mesh.vertex_count@[self.idx as int],
    {
        &self.model.art_mesh.vertex_count[self.idx as usize]
    }

    pub fn i_texcoord_start(&self) -> (r: ITexCoord)
        requires self.valid(),
        ensures r == self.model.art_mesh.i_texcoord_start@[self.idx as int],
    {
        self.model.art_mesh.i_texcoord_start[self.idx as usize]
    }

    pub fn range_indices(&self) -> (r: Range<IVertexIndex>)
        requires
            self.valid(),
            self.model.art_mesh.i_indices@[self.idx as int].0 + self.model.art_mesh.cnt_indices@[self.idx as int] <= u32::MAX,
        ensures
            r.start.0 == self.model.art_mesh.i_indices@[self.idx as int].0,
            r.end.0 == self.model.art_mesh.i_indices@[self.idx as int].0 + self.model.art_mesh.cnt_indices@[self.idx as int],
    {
        let i = self.model.art_mesh.i_indices[self.idx as usize];
        let cnt = self.model.art_mesh.cnt_indices[self.idx as usize];
        let end = i.offset(cnt);
        Range { start: i, end }
    }

    pub fn cnt_indices(&self) -> (r: u32)
        requires self.valid(),
        ensures r == self.model.art_mesh.cnt_indices@[self.idx as int],
    {
        self.model.art_mesh.cnt_indices[self.idx as usize]
    }

    pub fn indices_slice(&self) -> (r: &'model [u16])
        requires
            self.valid(),
            self.model.vertex_index.wf(),
            self.model.art_mesh.i_indices@[self.idx as int].0 + self.model.art_mesh.cnt_indices@[self.idx as int] <= self.model.vertex_index.values.len(),
        ensures
            r@ == self.model.vertex_index.values@.subrange(self.model.art_mesh.i_indices@[self.idx as int].0 as int, self.model.art_mesh.i_indices@[self.idx as int].0 + self.model.art_mesh.cnt_indices@[self.idx as int]),
    {
        self.model.vertex_index.slice(self.range_indices())
    }

    pub fn range_clips(&self) -> (r: Range<IArtMeshRef>)
        requires
            self.valid(),
            self.model.art_mesh.i_clips@[self.idx as int].0 + self.model.art_mesh.cnt_clips@[self.idx as int] <= u32::MAX,
        ensures
            r.start.0 == self.model.art_mesh.i_clips@[self.idx as int].0,
            r.end.0 == self.model.art_mesh.i_clips@[self.idx as int].0 + self.model.art_mesh.cnt_clips@[self.idx as int],
    {
        let i = self.model.art_mesh.i_clips[self.idx as usize];
        let cnt = self.model.art_mesh.cnt_clips[self.idx as usize];
        let end = i.offset(cnt);
        Range { start: i, end }
    }

    pub fn cnt_clips(&self) -> (r: u32)
        requires self.valid(),
        ensures r == self.model.art_mesh.cnt_clips@[self.idx as int],
    {
        self.model.art_mesh.cnt_clips[self.idx as usize]
    }

    pub fn clips_views(&self) -> (r: ItemCollection<'model, ArtMeshRefView<'model>>)
        requires
            self.valid(),
            self.model.art_mesh.i_clips@[self.idx as int].0 + self.model.art_mesh.cnt_clips@[self.idx as int] <= u32::MAX,
        ensures
            r.model == self.model,
            r.start == self.model.art_mesh.i_clips@[self.idx as int].0,
            r.limit == self.model.art_mesh.i_clips@[self.idx as int].0 + self.model.art_mesh.cnt_clips@[self.idx as int],
            r.parent == Some(self.idx),
    {
        let range = self.range_clips();
        let mut c = ItemCollection::new(self.model, range.start.0, range.end.0);
        c.parent = Some(self.idx);
        c
    }

    pub fn f_i_color_forms(&self) -> (r: &'model u32)
        requires self.valid(),
        ensures *r == self.model.art_mesh.i_color_forms@[self.idx as int],
    {
        &self.model.art_mesh.i_color_forms[self.idx as usize]
    }

    pub fn f_blend_config(&self) -> (r: &'model BlendConfig)
        requires self.valid(),
        ensures *r == self.model.art_mesh.blend_config@[self.idx as int],
    {
        &self.model.art_mesh.blend_config[self.idx as usize]
    }

    pub fn i_blend_form_maps(&self) -> (r: OptIArtMeshBlendFormMaps)
        requires self.valid(),
        ensures r == self.model.art_mesh.i_blend_form_maps@[self.idx as int],
    {
        self.model.art_mesh.i_blend_form_maps[self.idx as usize]
    }

    pub fn blend_form_maps_view(&self) -> (r: Option<ArtMeshBlendFormMapsView<'model>>)
        requires
            self.valid(),
            opt_idx_get(self.model.art_mesh.i_blend_form_maps@[self.idx as int].0) matches Some(j) ==> j < self.model.art_mesh_blend_form_maps.count,
        ensures
            r is Some <==> opt_idx_get(self.model.art_mesh.i_blend_form_maps@[self.idx as int].0) is Some,
            r matches Some(v) ==> v.model == self.model && Some(v.idx) == opt_idx_get(self.model.art_mesh.i_blend_form_maps@[self.idx as int].0) && v.parent is None,
    {
        let idx = self.i_blend_form_maps().to_index();
        match idx {
            Some(a) => Some(ArtMeshBlendFormMapsView::get(self.model, a).unwrap()),
            None => None,
        }
    }

}

impl<'model> ObjectView<'model> for ArtMeshView<'model> {
    type Object = ArtMesh;

    open spec fn class_count(model: &ParsedModel) -> nat { model.art_mesh.count as nat }
    open spec fn spec_model(&self) -> &'model ParsedModel { self.model }
    open spec fn spec_idx(&self) -> u32 { self.idx }
    open spec fn spec_parent(&self) -> Option<u32> { self.parent }

    proof fn lemma_unit_stride() {}

    fn get(model: &'model ParsedModel, idx: IArtMesh) -> (r: Option<Self>) {
        if model.art_mesh.count > idx.0 as usize {
            Some(ArtMeshView { model, idx: idx.0, parent: None })
        } else {
            None
        }
    }

    fn get_ref(model: &'model ParsedModel, idx: IArtMesh) -> (r: Option<ViewRef<'model, Self>>) {
        match Self::get(model, idx) {
            Some(v) => Some(ViewRef::new(v)),
            None => None,
        }
    }

    fn into_ref(self) -> (r: ViewRef<'model, Self>) {
        ViewRef::new(self)
    }

    fn set_parent_idx(&mut self, idx: u32) {
        self.parent = Some(idx);
    }
}

/// One `Param` object of a model.
#[derive(Clone, Debug)]
pub struct ParamView<'model> {
    pub model: &'model ParsedModel,
    pub idx: u32,
    pub parent: Option<u32>,
}

impl<'model> ParamView<'model> {
    /// The view's object exists and its class's columns are consistent.
    pub open spec fn valid(&self) -> bool {
        &&& self.model.param.wf()
        &&& self.idx < self.model.param.count
    }

    pub fn idx(&self) -> (r: IParam)
        ensures r.0 == self.idx,
    {
        Idx::new(self.idx)
    }

    pub fn fields(&self) -> (r: &'model ParamFields)
        ensures r == &self.model.param,
    {
        &self.model.param
    }

    pub fn f_hdr(&self) -> (r: &'model U32Pair)
        requires self.valid(),
        ensures *r == self.model.param.hdr@[self.idx as int],
    {
        &self.model.param.hdr[self.idx as usize]
    }

    pub fn f_id(&self) -> (r: &'model String)
        requires self.valid(),
        ensures *r == self.model.param.id@[self.idx as int],
    {
        &self.model.param.id[self.idx as usize]
    }

    pub fn f_max(&self) -> (r: &'model RawF32)
        requires self.valid(),
        ensures *r == self.model.param.max@[self.idx as int],
    {
        &self.model.param.max[self.idx as usize]
    }

    pub fn f_min(&self) -> (r: &'model RawF32)
        requires self.valid(),
        ensures *r == self.model.param.min@[self.idx as int],
    {
        &self.model.param.min[self.idx as usize]
    }

    pub fn f_default(&self) -> (r: &'model RawF32)
        requires self.valid(),
        ensures *r == self.model.param.default@[self.idx as int],
    {
        &self.model.param.default[self.idx as usize]
    }

    pub fn f_repeat(&self) -> (r: &'model bool)
        requires self.valid(),
        ensures *r == self.model.param.repeat@[self.idx as int],
    {
        &self.model.param.repeat[self.idx as usize]
    }

    pub fn f_snap_type(&self) -> (r: &'model ParamSnapType)
        requires self.valid(),
        ensures *r == self.model.param.snap_type@[self.idx as int],
    {
        &self.model.param.snap_type[self.idx as usize]
    }

    pub fn range_maps(&self) -> (r: Range<IParamMap>)
        requires
            self.valid(),
            self.model.param.i_maps@[self.idx as int].0 + self.model.param.cnt_maps@[self.idx as int] <= u32::MAX,
        ensures
            r.start.0 == self.model.param.i_maps@[self.idx as int].0,
            r.end.0 == self.model.param.i_maps@[self.idx as int].0 + self.model.param.cnt_maps@[self.idx as int],
    {
        let i = self.model.param.i_maps[self.idx as usize];
        let cnt = self.model.param.cnt_maps[self.idx as usize];
        let end = i.offset(cnt);
        Range { start: i, end }
    }

    pub fn cnt_maps(&self) -> (r: u32)
        requires self.valid(),
        ensures r == self.model.param.cnt_maps@[self.idx as int],
    {
        self.model.param.cnt_maps[self.idx as usize]
    }

    pub fn maps_views(&self) -> (r: ItemCollection<'model, ParamMapView<'model>>)
        requires
            self.valid(),
            self.model.param.i_maps@[self.idx as int].0 + self.model.param.cnt_maps@[self.idx as int] <= u32::MAX,
        ensures
            r.model == self.model,
            r.start == self.model.param.i_maps@[self.idx as int].0,
            r.limit == self.model.param.i_maps@[self.idx as int].0 + self.model.param.cnt_maps@[self.idx as int],
            r.parent == Some(self.idx),
    {
        let range = self.range_maps();
        let mut c = ItemCollection::new(self.model, range.start.0, range.end.0);
        c.parent = Some(self.idx);
        c
    }

    pub fn f_unk_zero_2(&self) -> (r: &'model U32Pair)
        requires self.valid(),
        ensures *r == self.model.param.unk_zero_2@[self.idx as int],
    {
        &self.model.param.unk_zero_2[self.idx as usize]
    }

    pub fn range_keypoints(&self) -> (r: Range<IKeypoint>)
        requires
            self.valid(),
            self.model.param.i_keypoints@[self.idx as int].0 + self.model.param.cnt_keypoints@[self.idx as int] <= u32::MAX,
        ensures
            r.start.0 == self.model.param.i_keypoints@[self.idx as int].0,
            r.end.0 == self.model.param.i_keypoints@[self.idx as int].0 + self.model.param.cnt_keypoints@[self.idx as int],
    {
        let i = self.model.param.i_keypoints[self.idx as usize];
        let cnt = self.model.param.cnt_keypoints[self.idx as usize];
        let end = i.offset(cnt);
        Range { start: i, end }
    }

    pub fn cnt_keypoints(&self) -> (r: u32)
        requires self.valid(),
        ensures r == self.model.param.cnt_keypoints@[self.idx as int],
    {
        self.model.param.cnt_keypoints[self.idx as usize]
    }

    pub fn keypoints_slice(&self) -> (r: &'model [RawF32])
        requires
            self.valid(),
            self.model.keypoint.wf(),
            self.model.param.i_keypoints@[self.idx as int].0 + self.model.param.cnt_keypoints@[self.idx as int] <= self.model.keypoint.values.len(),
        ensures
            r@ == self.model.keypoint.values@.subrange(self.model.param.i_keypoints@[self.idx as int].0 as int, self.model.param.i_keypoints@[self.idx as int].0 + self.model.param.cnt_keypoints@[self.idx as int]),
    {
        self.model.keypoint.slice(self.range_keypoints())
    }

    pub fn f_blendshape(&self) -> (r: &'model bool)
        requires self.valid(),
        ensures *r == self.model.param.blendshape@[self.idx as int],
    {
        &self.model.param.blendshape[self.idx as usize]
    }

    pub fn range_blend_maps(&self) -> (r: Range<IBlendParamMap>)
        requires
            self.valid(),
            self.model.param.i_blend_maps@[self.idx as int].0 + self.model.param.cnt_blend_maps@[self.idx as int] <= u32::MAX,
        ensures
            r.start.0 == self.model.param.i_blend_maps@[self.idx as int].0,
            r.end.0 == self.model.param.i_blend_maps@[self.idx as int].0 + self.model.param.cnt_blend_maps@[self.idx as int],
    {
        let i = self.model.param.i_blend_maps[self.idx as usize];
        let cnt = self.model.param.cnt_blend_maps[self.idx as usize];
        let end = i.offset(cnt);
        Range { start: i, end }
    }

    pub fn cnt_blend_maps(&self) -> (r: u32)
        requires self.valid(),
        ensures r == self.model.param.cnt_blend_maps@[self.idx as int],
    {
        self.model.param.cnt_blend_maps[self.idx as usize]
    }

    pub fn blend_maps_views(&self) -> (r: ItemCollection<'model, BlendParamMapView<'model>>)
        requires
            self.valid(),
            self.model.param.i_blend_maps@[self.idx as int].0 + self.model.param.cnt_blend_maps@[self.idx as int] <= u32::MAX,
        ensures
            r.model == self.model,
            r.start == self.model.param.i_blend_maps@[self.idx as int].0,
            r.limit == self.model.param.i_blend_maps@[self.idx as int].0 + self.model.param.cnt_blend_maps@[self.idx as int],
            r.parent == Some(self.idx),
    {
        let range = self.range_blend_maps();
        let mut c = ItemCollection::new(self.model, range.start.0, range.end.0);
        c.parent = Some(self.idx);
        c
    }

}

impl<'model> ObjectView<'model> for ParamView<'model> {
    type Object = Param;

    open spec fn class_count(model: &ParsedModel) -> nat { model.param.count as nat }
    open spec fn spec_model(&self) -> &'model ParsedModel { self.model }
    open spec fn spec_idx(&self) -> u32 { self.idx }
    open spec fn spec_parent(&self) -> Option<u32> { self.parent }

    proof fn lemma_unit_stride() {}

    fn get(model: &'model ParsedModel, idx: IParam) -> (r: Option<Self>) {
        if model.param.count > idx.0 as usize {
            Some(ParamView { model, idx: idx.0, parent: None })
        } else {
            None
        }
    }

    fn get_ref(model: &'model ParsedModel, idx: IParam) -> (r: Option<ViewRef<'model, Self>>) {
        match Self::get(model, idx) {
            Some(v) => Some(ViewRef::new(v)),
            None => None,
        }
    }

    fn into_ref(self) -> (r: ViewRef<'model, Self>) {
        ViewRef::new(self)
    }

    fn set_parent_idx(&mut self, idx: u32) {
        self.parent = Some(idx);
    }
}

/// One `PartForm` object of a model.
#[derive(Clone, Debug)]
pub struct PartFormView<'model> {
    pub model: &'model ParsedModel,
    pub idx: u32,
    pub parent: Option<u32>,
}

impl<'model> PartFormView<'model> {
    /// The view's object exists and its class's columns are consistent.
    pub open spec fn valid(&self) -> bool {
        &&& self.model.part_form.wf()
        &&& self.idx < self.model.part_form.count
    }

    pub fn idx(&self) -> (r: IPartForm)
        ensures r.0 == self.idx,
    {
        Idx::new(self.idx)
    }

    pub fn fields(&self) -> (r: &'model PartFormFields)
        ensures r == &self.model.part_form,
    {
        &self.model.part_form
    }

    pub fn f_depth(&self) -> (r: &'model RawF32)
        requires self.valid(),
        ensures *r == self.model.part_form.depth@[self.idx as int],
    {
        &self.model.part_form.depth[self.idx as usize]
    }

    pub fn i_offscreen(&self) -> (r: OptIOffscreenPartForm)
        requires self.valid(),
        ensures r == self.model.part_form.i_offscreen@[self.idx as int],
    {
        self.model.part_form.i_offscreen[self.idx as usize]
    }

    pub fn offscreen_view(&self) -> (r: Option<OffscreenPartFormView<'model>>)
        requires
            self.valid(),
            opt_idx_get(self.model.part_form.i_offscreen@[self.idx as int].0) matches Some(j) ==> j < self.model.offscreen_part_form.count,
        ensures
            r is Some <==> opt_idx_get(self.model.part_form.i_offscreen@[self.idx as int].0) is Some,
            r matches Some(v) ==> v.model == self.model && Some(v.idx) == opt_idx_get(self.model.part_form.i_offscreen@[self.idx as int].0) && v.parent is None,
    {
        let idx = self.i_offscreen().to_index();
        match idx {
            Some(a) => Some(OffscreenPartFormView::get(self.model, a).unwrap()),
            None => None,
        }
    }

}

impl<'model> ObjectView<'model> for PartFormView<'model> {
    type Object = PartForm;

    open spec fn class_count(model: &ParsedModel) -> nat { model.part_form.count as nat }
    open spec fn spec_model(&self) -> &'model ParsedModel { self.model }
    open spec fn spec_idx(&self) -> u32 { self.idx }
    open spec fn spec_parent(&self) -> Option<u32> { self.parent }

    proof fn lemma_unit_stride() {}

    fn get(model: &'model ParsedModel, idx: IPartForm) -> (r: Option<Self>) {
        if model.part_form.count > idx.0 as usize {
            Some(PartFormView { model, idx: idx.0, parent: None })
        } else {
            None
        }
    }

    fn get_ref(model: &'model ParsedModel, idx: IPartForm) -> (r: Option<ViewRef<'model, Self>>) {
        match Self::get(model, idx) {
            Some(v) => Some(ViewRef::new(v)),
            None => None,
        }
    }

    fn into_ref(self) -> (r: ViewRef<'model, Self>) {
        ViewRef::new(self)
    }

    fn set_parent_idx(&mut self, idx: u32) {
        self.parent = Some(idx);
    }
}

/// One `WarpForm` object of a model.
#[derive(Clone, Debug)]
pub struct WarpFormView<'model> {
    pub model: &'model ParsedModel,
    pub idx: u32,
    pub parent: Option<u32>,
}

impl<'model> WarpFormView<'model> {
    /// The view's object exists and its class's columns are consistent.
    pub open spec fn valid(&self) -> bool {
        &&& self.model.warp_form.wf()
        &&& self.idx < self.model.warp_form.count
    }

    pub fn idx(&self) -> (r: IWarpForm)
        ensures r.0 == self.idx,
    {
        Idx::new(self.idx)
    }

    pub fn fields(&self) -> (r: &'model WarpFormFields)
        ensures r == &self.model.warp_form,
    {
        &self.model.warp_form
    }

    pub fn f_opacity(&self) -> (r: &'model RawF32)
        requires self.valid(),
        ensures *r == self.model.warp_form.opacity@[self.idx as int],
    {
        &self.model.warp_form.opacity[self.idx as usize]
    }

    pub fn i_start_vertex(&self) -> (r: IVertexCoord)
        requires self.valid(),
        ensures r == self.model.warp_form.i_start_vertex@[self.idx as int],
    {
        self.model.warp_form.i_start_vertex[self.idx as usize]
    }

    pub fn i_multiply_color(&self) -> (r: IMultiplyColor)
        requires self.valid(),
        ensures r == self.model.warp_form.i_multiply_color@[self.idx as int],
    {
        self.model.warp_form.i_multiply_color[self.idx as usize]
    }

    pub fn multiply_color_view(&self) -> (r: MultiplyColorView<'model>)
        requires
            self.valid(),
            self.model.warp_form.i_multiply_color@[self.idx as int].0 < self.model.multiply_color.count,
        ensures
            r.model == self.model && r.idx == self.model.warp_form.i_multiply_color@[self.idx as int].0 && r.parent is None,
    {
        let idx = self.i_multiply_color();
        MultiplyColorView::get(self.model, idx).unwrap()
    }

    pub fn i_screen_color(&self) -> (r: IScreenColor)
        requires self.valid(),
        ensures r == self.model.warp_form.i_screen_color@[self.idx as int],
    {
        self.model.warp_form.i_screen_color[self.idx as usize]
    }

    pub fn screen_color_view(&self) -> (r: ScreenColorView<'model>)
        requires
            self.valid(),
            self.model.warp_form.i_screen_color@[self.idx as int].0 < self.model.screen_color.count,
        ensures
            r.model == self.model && r.idx == self.model.warp_form.i_screen_color@[self.idx as int].0 && r.parent is None,
    {
        let idx = self.i_screen_color();
        ScreenColorView::get(self.model, idx).unwrap()
    }

}

impl<'model> ObjectView<'model> for WarpFormView<'model> {
    type Object = WarpForm;

    open spec fn class_count(model: &ParsedModel) -> nat { model.warp_form.count as nat }
    open spec fn spec_model(&self) -> &'model ParsedModel { self.model }
    open spec fn spec_idx(&self) -> u32 { self.idx }
    open spec fn spec_parent(&self) -> Option<u32> { self.parent }

    proof fn lemma_unit_stride() {}

    fn get(model: &'model ParsedModel, idx: IWarpForm) -> (r: Option<Self>) {
        if model.warp_form.count > idx.0 as usize {
            Some(WarpFormView { model, idx: idx.0, parent: None })
        } else {
            None
        }
    }

    fn get_ref(model: &'model ParsedModel, idx: IWarpForm) -> (r: Option<ViewRef<'model, Self>>) {
        match Self::get(model, idx) {
            Some(v) => Some(ViewRef::new(v)),
            None => None,
        }
    }

    fn into_ref(self) -> (r: ViewRef<'model, Self>) {
        ViewRef::new(self)
    }

    fn set_parent_idx(&mut self, idx: u32) {
        self.parent = Some(idx);
    }
}

/// One `RotForm` object of a model.
#[derive(Clone, Debug)]
pub struct RotFormView<'model> {
    pub model: &'model ParsedModel,
    pub idx: u32,
    pub parent: Option<u32>,
}

impl<'model> RotFormView<'model> {
    /// The view's object exists and its class's columns are consistent.
    pub open spec fn valid(&self) -> bool {
        &&& self.model.rot_form.wf()
        &&& self.idx < self.model.rot_form.count
    }

    pub fn idx(&self) -> (r: IRotForm)
        ensures r.0 == self.idx,
    {
        Idx::new(self.idx)
    }

    pub fn fields(&self) -> (r: &'model RotFormFields)
        ensures r == &self.model.rot_form,
    {
        &self.model.rot_form
    }

    pub fn f_opacity(&self) -> (r: &'model RawF32)
        requires self.valid(),
        ensures *r == self.model.rot_form.opacity@[self.idx as int],
    {
        &self.model.rot_form.opacity[self.idx as usize]
    }

    pub fn f_angle(&self) -> (r: &'model RawF32)
        requires self.valid(),
        ensures *r == self.model.rot_form.angle@[self.idx as int],
    {
        &self.model.rot_form.angle[self.idx as usize]
    }

    pub fn f_pos_x(&self) -> (r: &'model RawF32)
        requires self.valid(),
        ensures *r == self.model.rot_form.pos_x@[self.idx as int],
    {
        &self.model.rot_form.pos_x[self.idx as usize]
    }

    pub fn f_pos_y(&self) -> (r: &'model RawF32)
        requires self.valid(),
        ensures *r == self.model.rot_form.pos_y@[self.idx as int],
    {
        &self.model.rot_form.pos_y[self.idx as usize]
    }

    pub fn f_scale(&self) -> (r: &'model RawF32)
        requires self.valid(),
        ensures *r == self.model.rot_form.scale@[self.idx as int],
    {
        &self.model.rot_form.scale[self.idx as usize]
    }

    pub fn f_flip_x(&self) -> (r: &'model bool)
        requires self.valid(),
        ensures *r == self.model.rot_form.flip_x@[self.idx as int],
    {
        &self.model.rot_form.flip_x[self.idx as usize]
    }

    pub fn f_flip_y(&self) -> (r: &'model bool)
        requires self.valid(),
        ensures *r == self.model.rot_form.flip_y@[self.idx as int],
    {
        &self.model.rot_form.flip_y[self.idx as usize]
    }

    pub fn i_multiply_color(&self) -> (r: IMultiplyColor)
        requires self.valid(),
        ensures r == self.model.rot_form.i_multiply_color@[self.idx as int],
    {
        self.model.rot_form.i_multiply_color[self.idx as usize]
    }

    pub fn multiply_color_view(&self) -> (r: MultiplyColorView<'model>)
        requires
            self.valid(),
            self.model.rot_form.i_multiply_color@[self.idx as int].0 < self.model.multiply_color.count,
        ensures
            r.model == self.model && r.idx == self.model.rot_form.i_multiply_color@[self.idx as int].0 && r.parent is None,
    {
        let idx = self.i_multiply_color();
        MultiplyColorView::get(self.model, idx).unwrap()
    }

    pub fn i_screen_color(&self) -> (r: IScreenColor)
        requires self.valid(),
        ensures r == self.model.rot_form.i_screen_color@[self.idx as int],
    {
        self.model.rot_form.i_screen_color[self.idx as usize]
    }

    pub fn screen_color_view(&self) -> (r: ScreenColorView<'model>)
        requires
            self.valid(),
            self.model.rot_form.i_screen_color@[self.idx as int].0 < self.model.screen_color.count,
        ensures
            r.model == self.model && r.idx == self.model.rot_form.i_screen_color@[self.idx as int].0 && r.parent is None,
    {
        let idx = self.i_screen_color();
        ScreenColorView::get(self.model, idx).unwrap()
    }

}

impl<'model> ObjectView<'model> for RotFormView<'model> {
    type Object = RotForm;

    open spec fn class_count(model: &ParsedModel) -> nat { model.rot_form.count as nat }
    open spec fn spec_model(&self) -> &'model ParsedModel { self.model }
    open spec fn spec_idx(&self) -> u32 { self.idx }
    open spec fn spec_parent(&self) -> Option<u32> { self.parent }

    proof fn lemma_unit_stride() {}

    fn get(model: &'model ParsedModel, idx: IRotForm) -> (r: Option<Self>) {
        if model.rot_form.count > idx.0 as usize {
            Some(RotFormView { model, idx: idx.0, parent: None })
        } else {
            None
        }
    }

    fn get_ref(model: &'model ParsedModel, idx: IRotForm) -> (r: Option<ViewRef<'model, Self>>) {
        match Self::get(model, idx) {
            Some(v) => Some(ViewRef::new(v)),
            None => None,
        }
    }

    fn into_ref(self) -> (r: ViewRef<'model, Self>) {
        ViewRef::new(self)
    }

    fn set_parent_idx(&mut self, idx: u32) {
        self.parent = Some(idx);
    }
}

/// One `ArtMeshForm` object of a model.
#[derive(Clone, Debug)]
pub struct ArtMeshFormView<'model> {
    pub model: &'model ParsedModel,
    pub idx: u32,
    pub parent: Option<u32>,
}

impl<'model> ArtMeshFormView<'model> {
    /// The view's object exists and its class's columns are consistent.
    pub open spec fn valid(&self) -> bool {
        &&& self.model.art_mesh_form.wf()
        &&& self.idx < self.model.art_mesh_form.count
    }

    pub fn idx(&self) -> (r: IArtMeshForm)
        ensures r.0 == self.idx,
    {
        Idx::new(self.idx)
    }

    pub fn fields(&self) -> (r: &'model ArtMeshFormFields)
        ensures r == &self.model.art_mesh_form,
    {
        &self.model.art_mesh_form
    }

    pub fn f_opacity(&self) -> (r: &'model RawF32)
        requires self.valid(),
        ensures *r == self.model.art_mesh_form.opacity@[self.idx as int],
    {
        &self.model.art_mesh_form.opacity[self.idx as usize]
    }

    pub fn f_depth(&self) -> (r: &'model RawF32)
        requires self.valid(),
        ensures *r == self.model.art_mesh_form.depth@[self.idx as int],
    {
        &self.model.art_mesh_form.depth[self.idx as usize]
    }

    pub fn i_start_vertex(&self) -> (r: IVertexCoord)
        requires self.valid(),
        ensures r == self.model.art_mesh_form.i_start_vertex@[self.idx as int],
    {
        self.model.art_mesh_form.i_start_vertex[self.idx as usize]
    }

    pub fn i_multiply_color(&self) -> (r: IMultiplyColor)
        requires self.valid(),
        ensures r == self.model.art_mesh_form.i_multiply_color@[self.idx as int],
    {
        self.model.art_mesh_form.i_multiply_color[self.idx as usize]
    }

    pub fn multiply_color_view(&self) -> (r: MultiplyColorView<'model>)
        requires
            self.valid(),
            self.model.art_mesh_form.i_multiply_color@[self.idx as int].0 < self.model.multiply_color.count,
        ensures
            r.model == self.model && r.idx == self.model.art_mesh_form.i_multiply_color@[self.idx as int].0 && r.parent is None,
    {
        let idx = self.i_multiply_color();
        MultiplyColorView::get(self.model, idx).unwrap()
    }

    pub fn i_screen_color(&self) -> (r: IScreenColor)
        requires self.valid(),
        ensures r == self.model.art_mesh_form.i_screen_color@[self.idx as int],
    {
        self.model.art_mesh_form.i_screen_color[self.idx as usize]
    }

    pub fn screen_color_view(&self) -> (r: ScreenColorView<'model>)
        requires
            self.valid(),
            self.model.art_mesh_form.i_screen_color@[self.idx as int].0 < self.model.screen_color.count,
        ensures
            r.model == self.model && r.idx == self.model.art_mesh_form.i_screen_color@[self.idx as int].0 && r.parent is None,
    {
        let idx = self.i_screen_color();
        ScreenColorView::get(self.model, idx).unwrap()
    }

}

impl<'model> ObjectView<'model> for ArtMeshFormView<'model> {
    type Object = ArtMeshForm;

    open spec fn class_count(model: &ParsedModel) -> nat { model.art_mesh_form.count as nat }
    open spec fn spec_model(&self) -> &'model ParsedModel { self.model }
    open spec fn spec_idx(&self) -> u32 { self.idx }
    open spec fn spec_parent(&self) -> Option<u32> { self.parent }

    proof fn lemma_unit_stride() {}

    fn get(model: &'model ParsedModel, idx: IArtMeshForm) -> (r: Option<Self>) {
        if model.art_mesh_form.count > idx.0 as usize {
            Some(ArtMeshFormView { model, idx: idx.0, parent: None })
        } else {
            None
        }
    }

    fn get_ref(model: &'model ParsedModel, idx: IArtMeshForm) -> (r: Option<ViewRef<'model, Self>>) {
        match Self::get(model, idx) {
            Some(v) => Some(ViewRef::new(v)),
            None => None,
        }
    }

    fn into_ref(self) -> (r: ViewRef<'model, Self>) {
        ViewRef::new(self)
    }

    fn set_parent_idx(&mut self, idx: u32) {
        self.parent = Some(idx);
    }
}

/// One `ParamMapRef` object of a model.
#[derive(Clone, Debug)]
pub struct ParamMapRefView<'model> {
    pub model: &'model ParsedModel,
    pub idx: u32,
    pub parent: Option<u32>,
}

impl<'model> ParamMapRefView<'model> {
    /// The view's object exists and its class's columns are consistent.
    pub open spec fn valid(&self) -> bool {
        &&& self.model.param_map_ref.wf()
        &&& self.idx < self.model.param_map_ref.count
    }

    pub fn idx(&self) -> (r: IParamMapRef)
        ensures r.0 == self.idx,
    {
        Idx::new(self.idx)
    }

    pub fn fields(&self) -> (r: &'model ParamMapRefFields)
        ensures r == &self.model.param_map_ref,
    {
        &self.model.param_map_ref
    }

    pub fn i_map(&self) -> (r: IParamMap)
        requires self.valid(),
        ensures r == self.model.param_map_ref.i_map@[self.idx as int],
    {
        self.model.param_map_ref.i_map[self.idx as usize]
    }

    pub fn map_view(&self) -> (r: ParamMapView<'model>)
        requires
            self.valid(),
            self.model.param_map_ref.i_map@[self.idx as int].0 < self.model.param_map.count,
        ensures
            r.model == self.model && r.idx == self.model.param_map_ref.i_map@[self.idx as int].0 && r.parent is None,
    {
        let idx = self.i_map();
        ParamMapView::get(self.model, idx).unwrap()
    }

}

impl<'model> ObjectView<'model> for ParamMapRefView<'model> {
    type Object = ParamMapRef;

    open spec fn class_count(model: &ParsedModel) -> nat { model.param_map_ref.count as nat }
    open spec fn spec_model(&self) -> &'model ParsedModel { self.model }
    open spec fn spec_idx(&self) -> u32 { self.idx }
    open spec fn spec_parent(&self) -> Option<u32> { self.parent }

    proof fn lemma_unit_stride() {}

    fn get(model: &'model ParsedModel, idx: IParamMapRef) -> (r: Option<Self>) {
        if model.param_map_ref.count > idx.0 as usize {
            Some(ParamMapRefView { model, idx: idx.0, parent: None })
        } else {
            None
        }
    }

    fn get_ref(model: &'model ParsedModel, idx: IParamMapRef) -> (r: Option<ViewRef<'model, Self>>) {
        match Self::get(model, idx) {
            Some(v) => Some(ViewRef::new(v)),
            None => None,
        }
    }

    fn into_ref(self) -> (r: ViewRef<'model, Self>) {
        ViewRef::new(self)
    }

    fn set_parent_idx(&mut self, idx: u32) {
        self.parent = Some(idx);
    }
}

/// One `ParamMapSet` object of a model.
#[derive(Clone, Debug)]
pub struct ParamMapSetView<'model> {
    pub model: &'model ParsedModel,
    pub idx: u32,
    pub parent: Option<u32>,
}

impl<'model> ParamMapSetView<'model> {
    /// The view's object exists and its class's columns are consistent.
    pub open spec fn valid(&self) -> bool {
        &&& self.model.param_map_set.wf()
        &&& self.idx < self.model.param_map_set.count
    }

    pub fn idx(&self) -> (r: IParamMapSet)
        ensures r.0 == self.idx,
    {
        Idx::new(self.idx)
    }

    pub fn fields(&self) -> (r: &'model ParamMapSetFields)
        ensures r == &self.model.param_map_set,
    {
        &self.model.param_map_set
    }

    pub fn range_refs(&self) -> (r: Range<IParamMapRef>)
        requires
            self.valid(),
            self.model.param_map_set.i_refs@[self.idx as int].0 + self.model.param_map_set.cnt_refs@[self.idx as int] <= u32::MAX,
        ensures
            r.start.0 == self.model.param_map_set.i_refs@[self.idx as int].0,
            r.end.0 == self.model.param_map_set.i_refs@[self.idx as int].0 + self.model.param_map_set.cnt_refs@[self.idx as int],
    {
        let i = self.model.param_map_set.i_refs[self.idx as usize];
        let cnt = self.model.param_map_set.cnt_refs[self.idx as usize];
        let end = i.offset(cnt);
        Range { start: i, end }
    }

    pub fn cnt_refs(&self) -> (r: u32)
        requires self.valid(),
        ensures r == self.model.param_map_set.cnt_refs@[self.idx as int],
    {
        self.model.param_map_set.cnt_refs[self.idx as usize]
    }

    pub fn refs_views(&self) -> (r: ItemCollection<'model, ParamMapRefView<'model>>)
        requires
            self.valid(),
            self.model.param_map_set.i_refs@[self.idx as int].0 + self.model.param_map_set.cnt_refs@[self.idx as int] <= u32::MAX,
        ensures
            r.model == self.model,
            r.start == self.model.param_map_set.i_refs@[self.idx as int].0,
            r.limit == self.model.param_map_set.i_refs@[self.idx as int].0 + self.model.param_map_set.cnt_refs@[self.idx as int],
            r.parent == Some(self.idx),
    {
        let range = self.range_refs();
        let mut c = ItemCollection::new(self.model, range.start.0, range.end.0);
        c.parent = Some(self.idx);
        c
    }

}

impl<'model> ObjectView<'model> for ParamMapSetView<'model> {
    type Object = ParamMapSet;

    open spec fn class_count(model: &ParsedModel) -> nat { model.param_map_set.count as nat }
    open spec fn spec_model(&self) -> &'model ParsedModel { self.model }
    open spec fn spec_idx(&self) -> u32 { self.idx }
    open spec fn spec_parent(&self) -> Option<u32> { self.parent }

    proof fn lemma_unit_stride() {}

    fn get(model: &'model ParsedModel, idx: IParamMapSet) -> (r: Option<Self>) {
        if model.param_map_set.count > idx.0 as usize {
            Some(ParamMapSetView { model, idx: idx.0, parent: None })
        } else {
            None
        }
    }

    fn get_ref(model: &'model ParsedModel, idx: IParamMapSet) -> (r: Option<ViewRef<'model, Self>>) {
        match Self::get(model, idx) {
            Some(v) => Some(ViewRef::new(v)),
            None => None,
        }
    }

    fn into_ref(self) -> (r: ViewRef<'model, Self>) {
        ViewRef::new(self)
    }

    fn set_parent_idx(&mut self, idx: u32) {
        self.parent = Some(idx);
    }
}

/// One `ParamMap` object of a model.
#[derive(Clone, Debug)]
pub struct ParamMapView<'model> {
    pub model: &'model ParsedModel,
    pub idx: u32,
    pub parent: Option<u32>,
}

impl<'model> ParamMapView<'model> {
    /// The view's object exists and its class's columns are consistent.
    pub open spec fn valid(&self) -> bool {
        &&& self.model.param_map.wf()
        &&& self.idx < self.model.param_map.count
    }

    pub fn idx(&self) -> (r: IParamMap)
        ensures r.0 == self.idx,
    {
        Idx::new(self.idx)
    }

    pub fn fields(&self) -> (r: &'model ParamMapFields)
        ensures r == &self.model.param_map,
    {
        &self.model.param_map
    }

    pub fn range_keypoints(&self) -> (r: Range<IKeypoint>)
        requires
            self.valid(),
            self.model.param_map.i_keypoints@[self.idx as int].0 + self.model.param_map.cnt_keypoints@[self.idx as int] <= u32::MAX,
        ensures
            r.start.0 == self.model.param_map.i_keypoints@[self.idx as int].0,
            r.end.0 == self.model.param_map.i_keypoints@[self.idx as int].0 + self.model.param_map.cnt_keypoints@[self.idx as int],
    {
        let i = self.model.param_map.i_keypoints[self.idx as usize];
        let cnt = self.model.param_map.cnt_keypoints[self.idx as usize];
        let end = i.offset(cnt);
        Range { start: i, end }
    }

    pub fn cnt_keypoints(&self) -> (r: u32)
        requires self.valid(),
        ensures r == self.model.param_map.cnt_keypoints@[self.idx as int],
    {
        self.model.param_map.cnt_keypoints[self.idx as usize]
    }

    pub fn keypoints_slice(&self) -> (r: &'model [RawF32])
        requires
            self.valid(),
            self.model.keypoint.wf(),
            self.model.param_map.i_keypoints@[self.idx as int].0 + self.model.param_map.cnt_keypoints@[self.idx as int] <= self.model.keypoint.values.len(),
        ensures
            r@ == self.model.keypoint.values@.subrange(self.model.param_map.i_keypoints@[self.idx as int].0 as int, self.model.param_map.i_keypoints@[self.idx as int].0 + self.model.param_map.cnt_keypoints@[self.idx as int]),
    {
        self.model.keypoint.slice(self.range_keypoints())
    }

}

impl<'model> ObjectView<'model> for ParamMapView<'model> {
    type Object = ParamMap;

    open spec fn class_count(model: &ParsedModel) -> nat { model.param_map.count as nat }
    open spec fn spec_model(&self) -> &'model ParsedModel { self.model }
    open spec fn spec_idx(&self) -> u32 { self.idx }
    open spec fn spec_parent(&self) -> Option<u32> { self.parent }

    proof fn lemma_unit_stride() {}

    fn get(model: &'model ParsedModel, idx: IParamMap) -> (r: Option<Self>) {
        if model.param_map.count > idx.0 as usize {
            Some(ParamMapView { model, idx: idx.0, parent: None })
        } else {
            None
        }
    }

    fn get_ref(model: &'model ParsedModel, idx: IParamMap) -> (r: Option<ViewRef<'model, Self>>) {
        match Self::get(model, idx) {
            Some(v) => Some(ViewRef::new(v)),
            None => None,
        }
    }

    fn into_ref(self) -> (r: ViewRef<'model, Self>) {
        ViewRef::new(self)
    }

    fn set_parent_idx(&mut self, idx: u32) {
        self.parent = Some(idx);
    }
}

/// One `ArtMeshRef` object of a model.
#[derive(Clone, Debug)]
pub struct ArtMeshRefView<'model> {
    pub model: &'model ParsedModel,
    pub idx: u32,
    pub parent: Option<u32>,
}

impl<'model> ArtMeshRefView<'model> {
    /// The view's object exists and its class's columns are consistent.
    pub open spec fn valid(&self) -> bool {
        &&& self.model.art_mesh_ref.wf()
        &&& self.idx < self.model.art_mesh_ref.count
    }

    pub fn idx(&self) -> (r: IArtMeshRef)
        ensures r.0 == self.idx,
    {
        Idx::new(self.idx)
    }

    pub fn fields(&self) -> (r: &'model ArtMeshRefFields)
        ensures r == &self.model.art_mesh_ref,
    {
        &self.model.art_mesh_ref
    }

    pub fn i_artmesh(&self) -> (r: OptIArtMesh)
        requires self.valid(),
        ensures r == self.model.art_mesh_ref.i_artmesh@[self.idx as int],
    {
        self.model.art_mesh_ref.i_artmesh[self.idx as usize]
    }

    pub fn artmesh_view(&self) -> (r: Option<ArtMeshView<'model>>)
        requires
            self.valid(),
            opt_idx_get(self.model.art_mesh_ref.i_artmesh@[self.idx as int].0) matches Some(j) ==> j < self.model.art_mesh.count,
        ensures
            r is Some <==> opt_idx_get(self.model.art_mesh_ref.i_artmesh@[self.idx as int].0) is Some,
            r matches Some(v) ==> v.model == self.model && Some(v.idx) == opt_idx_get(self.model.art_mesh_ref.i_artmesh@[self.idx as int].0) && v.parent is None,
    {
        let idx = self.i_artmesh().to_index();
        match idx {
            Some(a) => Some(ArtMeshView::get(self.model, a).unwrap()),
            None => None,
        }
    }

}

impl<'model> ObjectView<'model> for ArtMeshRefView<'model> {
    type Object = ArtMeshRef;

    open spec fn class_count(model: &ParsedModel) -> nat { model.art_mesh_ref.count as nat }
    open spec fn spec_model(&self) -> &'model ParsedModel { self.model }
    open spec fn spec_idx(&self) -> u32 { self.idx }
    open spec fn spec_parent(&self) -> Option<u32> { self.parent }

    proof fn lemma_unit_stride() {}

    fn get(model: &'model ParsedModel, idx: IArtMeshRef) -> (r: Option<Self>) {
        if model.art_mesh_ref.count > idx.0 as usize {
            Some(ArtMeshRefView { model, idx: idx.0, parent: None })
        } else {
            None
        }
    }

    fn get_ref(model: &'model ParsedModel, idx: IArtMeshRef) -> (r: Option<ViewRef<'model, Self>>) {
        match Self::get(model, idx) {
            Some(v) => Some(ViewRef::new(v)),
            None => None,
        }
    }

    fn into_ref(self) -> (r: ViewRef<'model, Self>) {
        ViewRef::new(self)
    }

    fn set_parent_idx(&mut self, idx: u32) {
        self.parent = Some(idx);
    }
}

/// One `DrawGroup` object of a model.
#[derive(Clone, Debug)]
pub struct DrawGroupView<'model> {
    pub model: &'model ParsedModel,
    pub idx: u32,
    pub parent: Option<u32>,
}

impl<'model> DrawGroupView<'model> {
    /// The view's object exists and its class's columns are consistent.
    pub open spec fn valid(&self) -> bool {
        &&& self.model.draw_group.wf()
        &&& self.idx < self.model.draw_group.count
    }

    pub fn idx(&self) -> (r: IDrawGroup)
        ensures r.0 == self.idx,
    {
        Idx::new(self.idx)
    }

    pub fn fields(&self) -> (r: &'model DrawGroupFields)
        ensures r == &self.model.draw_group,
    {
        &self.model.draw_group
    }

    pub fn range_items(&self) -> (r: Range<IDrawItem>)
        requires
            self.valid(),
            self.model.draw_group.i_items@[self.idx as int].0 + self.model.draw_group.cnt_items@[self.idx as int] <= u32::MAX,
        ensures
            r.start.0 == self.model.draw_group.i_items@[self.idx as int].0,
            r.end.0 == self.model.draw_group.i_items@[self.idx as int].0 + self.model.draw_group.cnt_items@[self.idx as int],
    {
        let i = self.model.draw_group.i_items[self.idx as usize];
        let cnt = self.model.draw_group.cnt_items[self.idx as usize];
        let end = i.offset(cnt);
        Range { start: i, end }
    }

    pub fn cnt_items(&self) -> (r: u32)
        requires self.valid(),
        ensures r == self.model.draw_group.cnt_items@[self.idx as int],
    {
        self.model.draw_group.cnt_items[self.idx as usize]
    }

    pub fn items_views(&self) -> (r: ItemCollection<'model, DrawItemView<'model>>)
        requires
            self.valid(),
            self.model.draw_group.i_items@[self.idx as int].0 + self.model.draw_group.cnt_items@[self.idx as int] <= u32::MAX,
        ensures
            r.model == self.model,
            r.start == self.model.draw_group.i_items@[self.idx as int].0,
            r.limit == self.model.draw_group.i_items@[self.idx as int].0 + self.model.draw_group.cnt_items@[self.idx as int],
            r.parent == Some(self.idx),
    {
        let range = self.range_items();
        let mut c = ItemCollection::new(self.model, range.start.0, range.end.0);
        c.parent = Some(self.idx);
        c
    }

    pub fn f_total_artmesh_count(&self) -> (r: &'model u32)
        requires self.valid(),
        ensures *r == self.model.draw_group.total_artmesh_count@[self.idx as int],
    {
        &self.model.draw_group.total_artmesh_count[self.idx as usize]
    }

    pub fn f_max_depth(&self) -> (r: &'model RawF32)
        requires self.valid(),
        ensures *r == self.model.draw_group.max_depth@[self.idx as int],
    {
        &self.model.draw_group.max_depth[self.idx as usize]
    }

    pub fn f_min_depth(&self) -> (r: &'model RawF32)
        requires self.valid(),
        ensures *r == self.model.draw_group.min_depth@[self.idx as int],
    {
        &self.model.draw_group.min_depth[self.idx as usize]
    }

}

impl<'model> ObjectView<'model> for DrawGroupView<'model> {
    type Object = DrawGroup;

    open spec fn class_count(model: &ParsedModel) -> nat { model.draw_group.count as nat }
    open spec fn spec_model(&self) -> &'model ParsedModel { self.model }
    open spec fn spec_idx(&self) -> u32 { self.idx }
    open spec fn spec_parent(&self) -> Option<u32> { self.parent }

    proof fn lemma_unit_stride() {}

    fn get(model: &'model ParsedModel, idx: IDrawGroup) -> (r: Option<Self>) {
        if model.draw_group.count > idx.0 as usize {
            Some(DrawGroupView { model, idx: idx.0, parent: None })
        } else {
            None
        }
    }

    fn get_ref(model: &'model ParsedModel, idx: IDrawGroup) -> (r: Option<ViewRef<'model, Self>>) {
        match Self::get(model, idx) {
            Some(v) => Some(ViewRef::new(v)),
            None => None,
        }
    }

    fn into_ref(self) -> (r: ViewRef<'model, Self>) {
        ViewRef::new(self)
    }

    fn set_parent_idx(&mut self, idx: u32) {
        self.parent = Some(idx);
    }
}

/// One `DrawItem` object of a model.
#[derive(Clone, Debug)]
pub struct DrawItemView<'model> {
    pub model: &'model ParsedModel,
    pub idx: u32,
    pub parent: Option<u32>,
}

impl<'model> DrawItemView<'model> {
    /// The view's object exists and its class's columns are consistent.
    pub open spec fn valid(&self) -> bool {
        &&& self.model.draw_item.wf()
        &&& self.idx < self.model.draw_item.count
    }

    pub fn idx(&self) -> (r: IDrawItem)
        ensures r.0 == self.idx,
    {
        Idx::new(self.idx)
    }

    pub fn fields(&self) -> (r: &'model DrawItemFields)
        ensures r == &self.model.draw_item,
    {
        &self.model.draw_item
    }

    pub fn f_item_type(&self) -> (r: &'model DrawItemType)
        requires self.valid(),
        ensures *r == self.model.draw_item.item_type@[self.idx as int],
    {
        &self.model.draw_item.item_type[self.idx as usize]
    }

    pub fn f_i_child(&self) -> (r: &'model u32)
        requires self.valid(),
        ensures *r == self.model.draw_item.i_child@[self.idx as int],
    {
        &self.model.draw_item.i_child[self.idx as usize]
    }

    pub fn i_draw_group(&self) -> (r: OptIDrawGroup)
        requires self.valid(),
        ensures r == self.model.draw_item.i_draw_group@[self.idx as int],
    {
        self.model.draw_item.i_draw_group[self.idx as usize]
    }

    pub fn draw_group_view(&self) -> (r: Option<DrawGroupView<'model>>)
        requires
            self.valid(),
            opt_idx_get(self.model.draw_item.i_draw_group@[self.idx as int].0) matches Some(j) ==> j < self.model.draw_group.count,
        ensures
            r is Some <==> opt_idx_get(self.model.draw_item.i_draw_group@[self.idx as int].0) is Some,
            r matches Some(v) ==> v.model == self.model && Some(v.idx) == opt_idx_get(self.model.draw_item.i_draw_group@[self.idx as int].0) && v.parent is None,
    {
        let idx = self.i_draw_group().to_index();
        match idx {
            Some(a) => Some(DrawGroupView::get(self.model, a).unwrap()),
            None => None,
        }
    }

}

impl<'model> ObjectView<'model> for DrawItemView<'model> {
    type Object = DrawItem;

    open spec fn class_count(model: &ParsedModel) -> nat { model.draw_item.count as nat }
    open spec fn spec_model(&self) -> &'model ParsedModel { self.model }
    open spec fn spec_idx(&self) -> u32 { self.idx }
    open spec fn spec_parent(&self) -> Option<u32> { self.parent }

    proof fn lemma_unit_stride() {}

    fn get(model: &'model ParsedModel, idx: IDrawItem) -> (r: Option<Self>) {
        if model.draw_item.count > idx.0 as usize {
            Some(DrawItemView { model, idx: idx.0, parent: None })
        } else {
            None
        }
    }

    fn get_ref(model: &'model ParsedModel, idx: IDrawItem) -> (r: Option<ViewRef<'model, Self>>) {
        match Self::get(model, idx) {
            Some(v) => Some(ViewRef::new(v)),
            None => None,
        }
    }

    fn into_ref(self) -> (r: ViewRef<'model, Self>) {
        ViewRef::new(self)
    }

    fn set_parent_idx(&mut self, idx: u32) {
        self.parent = Some(idx);
    }
}

/// One `Glue` object of a model.
#[derive(Clone, Debug)]
pub struct GlueView<'model> {
    pub model: &'model ParsedModel,
    pub idx: u32,
    pub parent: Option<u32>,
}

impl<'model> GlueView<'model> {
    /// The view's object exists and its class's columns are consistent.
    pub open spec fn valid(&self) -> bool {
        &&& self.model.glue.wf()
        &&& self.idx < self.model.glue.count
    }

    pub fn idx(&self) -> (r: IGlue)
        ensures r.0 == self.idx,
    {
        Idx::new(self.idx)
    }

    pub fn fields(&self) -> (r: &'model GlueFields)
        ensures r == &self.model.glue,
    {
        &self.model.glue
    }

    pub fn f_hdr(&self) -> (r: &'model U32Pair)
        requires self.valid(),
        ensures *r == self.model.glue.hdr@[self.idx as int],
    {
        &self.model.glue.hdr[self.idx as usize]
    }

    pub fn f_id(&self) -> (r: &'model String)
        requires self.valid(),
        ensures *r == self.model.glue.id@[self.idx as int],
    {
        &self.model.glue.id[self.idx as usize]
    }

    pub fn i_param_map_set(&self) -> (r: IParamMapSet)
        requires self.valid(),
        ensures r == self.model.glue.i_param_map_set@[self.idx as int],
    {
        self.model.glue.i_param_map_set[self.idx as usize]
    }

    pub fn param_map_set_view(&self) -> (r: ParamMapSetView<'model>)
        requires
            self.valid(),
            self.model.glue.i_param_map_set@[self.idx as int].0 < self.model.param_map_set.count,
        ensures
            r.model == self.model && r.idx == self.model.glue.i_param_map_set@[self.idx as int].0 && r.parent is None,
    {
        let idx = self.i_param_map_set();
        ParamMapSetView::get(self.model, idx).unwrap()
    }

    pub fn range_forms(&self) -> (r: Range<IGlueForm>)
        requires
            self.valid(),
            self.model.glue.i_forms@[self.idx as int].0 + self.model.glue.cnt_forms@[self.idx as int] <= u32::MAX,
        ensures
            r.start.0 == self.model.glue.i_forms@[self.idx as int].0,
            r.end.0 == self.model.glue.i_forms@[self.idx as int].0 + self.model.glue.cnt_forms@[self.idx as int],
    {
        let i = self.model.glue.i_forms[self.idx as usize];
        let cnt = self.model.glue.cnt_forms[self.idx as usize];
        let end = i.offset(cnt);
        Range { start: i, end }
    }

    pub fn cnt_forms(&self) -> (r: u32)
        requires self.valid(),
        ensures r == self.model.glue.cnt_forms@[self.idx as int],
    {
        self.model.glue.cnt_forms[self.idx as usize]
    }

    pub fn forms_views(&self) -> (r: ItemCollection<'model, GlueFormView<'model>>)
        requires
            self.valid(),
            self.model.glue.i_forms@[self.idx as int].0 + self.model.glue.cnt_forms@[self.idx as int] <= u32::MAX,
        ensures
            r.model == self.model,
            r.start == self.model.glue.i_forms@[self.idx as int].0,
            r.limit == self.model.glue.i_forms@[self.idx as int].0 + self.model.glue.cnt_forms@[self.idx as int],
            r.parent == Some(self.idx),
    {
        let range = self.range_forms();
        let mut c = ItemCollection::new(self.model, range.start.0, range.end.0);
        c.parent = Some(self.idx);
        c
    }

    pub fn i_artmesh_1(&self) -> (r: IArtMesh)
        requires self.valid(),
        ensures r == self.model.glue.i_artmesh_1@[self.idx as int],
    {
        self.model.glue.i_artmesh_1[self.idx as usize]
    }

    pub fn artmesh_1_view(&self) -> (r: ArtMeshView<'model>)
        requires
            self.valid(),
            self.model.glue.i_artmesh_1@[self.idx as int].0 < self.model.art_mesh.count,
        ensures
            r.model == self.model && r.idx == self.model.glue.i_artmesh_1@[self.idx as int].0 && r.parent is None,
    {
        let idx = self.i_artmesh_1();
        ArtMeshView::get(self.model, idx).unwrap()
    }

    pub fn i_artmesh_2(&self) -> (r: IArtMesh)
        requires self.valid(),
        ensures r == self.model.glue.i_artmesh_2@[self.idx as int],
    {
        self.model.glue.i_artmesh_2[self.idx as usize]
    }

    pub fn artmesh_2_view(&self) -> (r: ArtMeshView<'model>)
        requires
            self.valid(),
            self.model.glue.i_artmesh_2@[self.idx as int].0 < self.model.art_mesh.count,
        ensures
            r.model == self.model && r.idx == self.model.glue.i_artmesh_2@[self.idx as int].0 && r.parent is None,
    {
        let idx = self.i_artmesh_2();
        ArtMeshView::get(self.model, idx).unwrap()
    }

    pub fn range_coords(&self) -> (r: Range<IGlueCoord>)
        requires
            self.valid(),
            self.model.glue.i_coords@[self.idx as int].0 + self.model.glue.cnt_coords@[self.idx as int] <= u32::MAX,
        ensures
            r.start.0 == self.model.glue.i_coords@[self.idx as int].0,
            r.end.0 == self.model.glue.i_coords@[self.idx as int].0 + self.model.glue.cnt_coords@[self.idx as int],
    {
        let i = self.model.glue.i_coords[self.idx as usize];
        let cnt = self.model.glue.cnt_coords[self.idx as usize];
        let end = i.offset(cnt);
        Range { start: i, end }
    }

    pub fn cnt_coords(&self) -> (r: u32)
        requires self.valid(),
        ensures r == self.model.glue.cnt_coords@[self.idx as int],
    {
        self.model.glue.cnt_coords[self.idx as usize]
    }

    pub fn coords_views(&self) -> (r: ItemCollection<'model, GlueCoordView<'model>>)
        requires
            self.valid(),
            self.model.glue.i_coords@[self.idx as int].0 + self.model.glue.cnt_coords@[self.idx as int] <= u32::MAX,
        ensures
            r.model == self.model,
            r.start == self.model.glue.i_coords@[self.idx as int].0,
            r.limit == self.model.glue.i_coords@[self.idx as int].0 + self.model.glue.cnt_coords@[self.idx as int],
            r.parent == Some(self.idx),
    {
        let range = self.range_coords();
        let mut c = ItemCollection::new(self.model, range.start.0, range.end.0);
        c.parent = Some(self.idx);
        c
    }

    pub fn i_blend_form_maps(&self) -> (r: OptIGlueBlendFormMaps)
        requires self.valid(),
        ensures r == self.model.glue.i_blend_form_maps@[self.idx as int],
    {
        self.model.glue.i_blend_form_maps[self.idx as usize]
    }

    pub fn blend_form_maps_view(&self) -> (r: Option<GlueBlendFormMapsView<'model>>)
        requires
            self.valid(),
            opt_idx_get(self.model.glue.i_blend_form_maps@[self.idx as int].0) matches Some(j) ==> j < self.model.glue_blend_form_maps.count,
        ensures
            r is Some <==> opt_idx_get(self.model.glue.i_blend_form_maps@[self.idx as int].0) is Some,
            r matches Some(v) ==> v.model == self.model && Some(v.idx) == opt_idx_get(self.model.glue.i_blend_form_maps@[self.idx as int].0) && v.parent is None,
    {
        let idx = self.i_blend_form_maps().to_index();
        match idx {
            Some(a) => Some(GlueBlendFormMapsView::get(self.model, a).unwrap()),
            None => None,
        }
    }

}

impl<'model> ObjectView<'model> for GlueView<'model> {
    type Object = Glue;

    open spec fn class_count(model: &ParsedModel) -> nat { model.glue.count as nat }
    open spec fn spec_model(&self) -> &'model ParsedModel { self.model }
    open spec fn spec_idx(&self) -> u32 { self.idx }
    open spec fn spec_parent(&self) -> Option<u32> { self.parent }

    proof fn lemma_unit_stride() {}

    fn get(model: &'model ParsedModel, idx: IGlue) -> (r: Option<Self>) {
        if model.glue.count > idx.0 as usize {
            Some(GlueView { model, idx: idx.0, parent: None })
        } else {
            None
        }
    }

    fn get_ref(model: &'model ParsedModel, idx: IGlue) -> (r: Option<ViewRef<'model, Self>>) {
        match Self::get(model, idx) {
            Some(v) => Some(ViewRef::new(v)),
            None => None,
        }
    }

    fn into_ref(self) -> (r: ViewRef<'model, Self>) {
        ViewRef::new(self)
    }

    fn set_parent_idx(&mut self, idx: u32) {
        self.parent = Some(idx);
    }
}

/// One `GlueCoord` object of a model.
#[derive(Clone, Debug)]
pub struct GlueCoordView<'model> {
    pub model: &'model ParsedModel,
    pub idx: u32,
    pub parent: Option<u32>,
}

impl<'model> GlueCoordView<'model> {
    /// The view's object exists and its class's columns are consistent.
    pub open spec fn valid(&self) -> bool {
        &&& self.model.glue_coord.wf()
        &&& self.idx < self.model.glue_coord.count
    }

    pub fn idx(&self) -> (r: IGlueCoord)
        ensures r.0 == self.idx,
    {
        Idx::new(self.idx)
    }

    pub fn fields(&self) -> (r: &'model GlueCoordFields)
        ensures r == &self.model.glue_coord,
    {
        &self.model.glue_coord
    }

    pub fn f_weight(&self) -> (r: &'model RawF32)
        requires self.valid(),
        ensures *r == self.model.glue_coord.weight@[self.idx as int],
    {
        &self.model.glue_coord.weight[self.idx as usize]
    }

    pub fn f_vertex_index(&self) -> (r: &'model u16)
        requires self.valid(),
        ensures *r == self.model.glue_coord.vertex_index@[self.idx as int],
    {
        &self.model.glue_coord.vertex_index[self.idx as usize]
    }

}

impl<'model> ObjectView<'model> for GlueCoordView<'model> {
    type Object = GlueCoord;

    open spec fn class_count(model: &ParsedModel) -> nat { model.glue_coord.count as nat }
    open spec fn spec_model(&self) -> &'model ParsedModel { self.model }
    open spec fn spec_idx(&self) -> u32 { self.idx }
    open spec fn spec_parent(&self) -> Option<u32> { self.parent }

    proof fn lemma_unit_stride() {}

    fn get(model: &'model ParsedModel, idx: IGlueCoord) -> (r: Option<Self>) {
        if model.glue_coord.count > idx.0 as usize {
            Some(GlueCoordView { model, idx: idx.0, parent: None })
        } else {
            None
        }
    }

    fn get_ref(model: &'model ParsedModel, idx: IGlueCoord) -> (r: Option<ViewRef<'model, Self>>) {
        match Self::get(model, idx) {
            Some(v) => Some(ViewRef::new(v)),
            None => None,
        }
    }

    fn into_ref(self) -> (r: ViewRef<'model, Self>) {
        ViewRef::new(self)
    }

    fn set_parent_idx(&mut self, idx: u32) {
        self.parent = Some(idx);
    }
}

/// One `GlueForm` object of a model.
#[derive(Clone, Debug)]
pub struct GlueFormView<'model> {
    pub model: &'model ParsedModel,
    pub idx: u32,
    pub parent: Option<u32>,
}

impl<'model> GlueFormView<'model> {
    /// The view's object exists and its class's columns are consistent.
    pub open spec fn valid(&self) -> bool {
        &&& self.model.glue_form.wf()
        &&& self.idx < self.model.glue_form.count
    }

    pub fn idx(&self) -> (r: IGlueForm)
        ensures r.0 == self.idx,
    {
        Idx::new(self.idx)
    }

    pub fn fields(&self) -> (r: &'model GlueFormFields)
        ensures r == &self.model.glue_form,
    {
        &self.model.glue_form
    }

    pub fn f_compatibility(&self) -> (r: &'model RawF32)
        requires self.valid(),
        ensures *r == self.model.glue_form.compatibility@[self.idx as int],
    {
        &self.model.glue_form.compatibility[self.idx as usize]
    }

}

impl<'model> ObjectView<'model> for GlueFormView<'model> {
    type Object = GlueForm;

    open spec fn class_count(model: &ParsedModel) -> nat { model.glue_form.count as nat }
    open spec fn spec_model(&self) -> &'model ParsedModel { self.model }
    open spec fn spec_idx(&self) -> u32 { self.idx }
    open spec fn spec_parent(&self) -> Option<u32> { self.parent }

    proof fn lemma_unit_stride() {}

    fn get(model: &'model ParsedModel, idx: IGlueForm) -> (r: Option<Self>) {
        if model.glue_form.count > idx.0 as usize {
            Some(GlueFormView { model, idx: idx.0, parent: None })
        } else {
            None
        }
    }

    fn get_ref(model: &'model ParsedModel, idx: IGlueForm) -> (r: Option<ViewRef<'model, Self>>) {
        match Self::get(model, idx) {
            Some(v) => Some(ViewRef::new(v)),
            None => None,
        }
    }

    fn into_ref(self) -> (r: ViewRef<'model, Self>) {
        ViewRef::new(self)
    }

    fn set_parent_idx(&mut self, idx: u32) {
        self.parent = Some(idx);
    }
}

/// One `MultiplyColor` object of a model.
#[derive(Clone, Debug)]
pub struct MultiplyColorView<'model> {
    pub model: &'model ParsedModel,
    pub idx: u32,
    pub parent: Option<u32>,
}

impl<'model> MultiplyColorView<'model> {
    /// The view's object exists and its class's columns are consistent.
    pub open spec fn valid(&self) -> bool {
        &&& self.model.multiply_color.wf()
        &&& self.idx < self.model.multiply_color.count
    }

    pub fn idx(&self) -> (r: IMultiplyColor)
        ensures r.0 == self.idx,
    {
        Idx::new(self.idx)
    }

    pub fn fields(&self) -> (r: &'model MultiplyColorFields)
        ensures r == &self.model.multiply_color,
    {
        &self.model.multiply_color
    }

    pub fn f_r(&self) -> (r: &'model RawF32)
        requires self.valid(),
        ensures *r == self.model.multiply_color.r@[self.idx as int],
    {
        &self.model.multiply_color.r[self.idx as usize]
    }

    pub fn f_g(&self) -> (r: &'model RawF32)
        requires self.valid(),
        ensures *r == self.model.multiply_color.g@[self.idx as int],
    {
        &self.model.multiply_color.g[self.idx as usize]
    }

    pub fn f_b(&self) -> (r: &'model RawF32)
        requires self.valid(),
        ensures *r == self.model.multiply_color.b@[self.idx as int],
    {
        &self.model.multiply_color.b[self.idx as usize]
    }

}

impl<'model> ObjectView<'model> for MultiplyColorView<'model> {
    type Object = MultiplyColor;

    open spec fn class_count(model: &ParsedModel) -> nat { model.multiply_color.count as nat }
    open spec fn spec_model(&self) -> &'model ParsedModel { self.model }
    open spec fn spec_idx(&self) -> u32 { self.idx }
    open spec fn spec_parent(&self) -> Option<u32> { self.parent }

    proof fn lemma_unit_stride() {}

    fn get(model: &'model ParsedModel, idx: IMultiplyColor) -> (r: Option<Self>) {
        if model.multiply_color.count > idx.0 as usize {
            Some(MultiplyColorView { model, idx: idx.0, parent: None })
        } else {
            None
        }
    }

    fn get_ref(model: &'model ParsedModel, idx: IMultiplyColor) -> (r: Option<ViewRef<'model, Self>>) {
        match Self::get(model, idx) {
            Some(v) => Some(ViewRef::new(v)),
            None => None,
        }
    }

    fn into_ref(self) -> (r: ViewRef<'model, Self>) {
        ViewRef::new(self)
    }

    fn set_parent_idx(&mut self, idx: u32) {
        self.parent = Some(idx);
    }
}

/// One `ScreenColor` object of a model.
#[derive(Clone, Debug)]
pub struct ScreenColorView<'model> {
    pub model: &'model ParsedModel,
    pub idx: u32,
    pub parent: Option<u32>,
}

impl<'model> ScreenColorView<'model> {
    /// The view's object exists and its class's columns are consistent.
    pub open spec fn valid(&self) -> bool {
        &&& self.model.screen_color.wf()
        &&& self.idx < self.model.screen_color.count
    }

    pub fn idx(&self) -> (r: IScreenColor)
        ensures r.0 == self.idx,
    {
        Idx::new(self.idx)
    }

    pub fn fields(&self) -> (r: &'model ScreenColorFields)
        ensures r == &self.model.screen_color,
    {
        &self.model.screen_color
    }

    pub fn f_r(&self) -> (r: &'model RawF32)
        requires self.valid(),
        ensures *r == self.model.screen_color.r@[self.idx as int],
    {
        &self.model.screen_color.r[self.idx as usize]
    }

    pub fn f_g(&self) -> (r: &'model RawF32)
        requires self.valid(),
        ensures *r == self.model.screen_color.g@[self.idx as int],
    {
        &self.model.screen_color.g[self.idx as usize]
    }

    pub fn f_b(&self) -> (r: &'model RawF32)
        requires self.valid(),
        ensures *r == self.model.screen_color.b@[self.idx as int],
    {
        &self.model.screen_color.b[self.idx as usize]
    }

}

impl<'model> ObjectView<'model> for ScreenColorView<'model> {
    type Object = ScreenColor;

    open spec fn class_count(model: &ParsedModel) -> nat { model.screen_color.count as nat }
    open spec fn spec_model(&self) -> &'model ParsedModel { self.model }
    open spec fn spec_idx(&self) -> u32 { self.idx }
    open spec fn spec_parent(&self) -> Option<u32> { self.parent }

    proof fn lemma_unit_stride() {}

    fn get(model: &'model ParsedModel, idx: IScreenColor) -> (r: Option<Self>) {
        if model.screen_color.count > idx.0 as usize {
            Some(ScreenColorView { model, idx: idx.0, parent: None })
        } else {
            None
        }
    }

    fn get_ref(model: &'model ParsedModel, idx: IScreenColor) -> (r: Option<ViewRef<'model, Self>>) {
        match Self::get(model, idx) {
            Some(v) => Some(ViewRef::new(v)),
            None => None,
        }
    }

    fn into_ref(self) -> (r: ViewRef<'model, Self>) {
        ViewRef::new(self)
    }

    fn set_parent_idx(&mut self, idx: u32) {
        self.parent = Some(idx);
    }
}

/// One `BlendParamMap` object of a model.
#[derive(Clone, Debug)]
pub struct BlendParamMapView<'model> {
    pub model: &'model ParsedModel,
    pub idx: u32,
    pub parent: Option<u32>,
}

impl<'model> BlendParamMapView<'model> {
    /// The view's object exists and its class's columns are consistent.
    pub open spec fn valid(&self) -> bool {
        &&& self.model.blend_param_map.wf()
        &&& self.idx < self.model.blend_param_map.count
    }

    pub fn idx(&self) -> (r: IBlendParamMap)
        ensures r.0 == self.idx,
    {
        Idx::new(self.idx)
    }

    pub fn fields(&self) -> (r: &'model BlendParamMapFields)
        ensures r == &self.model.blend_param_map,
    {
        &self.model.blend_param_map
    }

    pub fn range_keypoints(&self) -> (r: Range<IKeypoint>)
        requires
            self.valid(),
            self.model.blend_param_map.i_keypoints@[self.idx as int].0 + self.model.blend_param_map.cnt_keypoints@[self.idx as int] <= u32::MAX,
        ensures
            r.start.0 == self.model.blend_param_map.i_keypoints@[self.idx as int].0,
            r.end.0 == self.model.blend_param_map.i_keypoints@[self.idx as int].0 + self.model.blend_param_map.cnt_keypoints@[self.idx as int],
    {
        let i = self.model.blend_param_map.i_keypoints[self.idx as usize];
        let cnt = self.model.blend_param_map.cnt_keypoints[self.idx as usize];
        let end = i.offset(cnt);
        Range { start: i, end }
    }

    pub fn cnt_keypoints(&self) -> (r: u32)
        requires self.valid(),
        ensures r == self.model.blend_param_map.cnt_keypoints@[self.idx as int],
    {
        self.model.blend_param_map.cnt_keypoints[self.idx as usize]
    }

    pub fn keypoints_slice(&self) -> (r: &'model [RawF32])
        requires
            self.valid(),
            self.model.keypoint.wf(),
            self.model.blend_param_map.i_keypoints@[self.idx as int].0 + self.model.blend_param_map.cnt_keypoints@[self.idx as int] <= self.model.keypoint.values.len(),
        ensures
            r@ == self.model.keypoint.values@.subrange(self.model.blend_param_map.i_keypoints@[self.idx as int].0 as int, self.model.blend_param_map.i_keypoints@[self.idx as int].0 + self.model.blend_param_map.cnt_keypoints@[self.idx as int]),
    {
        self.model.keypoint.slice(self.range_keypoints())
    }

    pub fn f_neutral_index(&self) -> (r: &'model u32)
        requires self.valid(),
        ensures *r == self.model.blend_param_map.neutral_index@[self.idx as int],
    {
        &self.model.blend_param_map.neutral_index[self.idx as usize]
    }

}

impl<'model> ObjectView<'model> for BlendParamMapView<'model> {
    type Object = BlendParamMap;

    open spec fn class_count(model: &ParsedModel) -> nat { model.blend_param_map.count as nat }
    open spec fn spec_model(&self) -> &'model ParsedModel { self.model }
    open spec fn spec_idx(&self) -> u32 { self.idx }
    open spec fn spec_parent(&self) -> Option<u32> { self.parent }

    proof fn lemma_unit_stride() {}

    fn get(model: &'model ParsedModel, idx: IBlendParamMap) -> (r: Option<Self>) {
        if model.blend_param_map.count > idx.0 as usize {
            Some(BlendParamMapView { model, idx: idx.0, parent: None })
        } else {
            None
        }
    }

    fn get_ref(model: &'model ParsedModel, idx: IBlendParamMap) -> (r: Option<ViewRef<'model, Self>>) {
        match Self::get(model, idx) {
            Some(v) => Some(ViewRef::new(v)),
            None => None,
        }
    }

    fn into_ref(self) -> (r: ViewRef<'model, Self>) {
        ViewRef::new(self)
    }

    fn set_parent_idx(&mut self, idx: u32) {
        self.parent = Some(idx);
    }
}

/// One `BlendFormMap` object of a model.
#[derive(Clone, Debug)]
pub struct BlendFormMapView<'model> {
    pub model: &'model ParsedModel,
    pub idx: u32,
    pub parent: Option<u32>,
}

impl<'model> BlendFormMapView<'model> {
    /// The view's object exists and its class's columns are consistent.
    pub open spec fn valid(&self) -> bool {
        &&& self.model.blend_form_map.wf()
        &&& self.idx < self.model.blend_form_map.count
    }

    pub fn idx(&self) -> (r: IBlendFormMap)
        ensures r.0 == self.idx,
    {
        Idx::new(self.idx)
    }

    pub fn fields(&self) -> (r: &'model BlendFormMapFields)
        ensures r == &self.model.blend_form_map,
    {
        &self.model.blend_form_map
    }

    pub fn i_param_map(&self) -> (r: IBlendParamMap)
        requires self.valid(),
        ensures r == self.model.blend_form_map.i_param_map@[self.idx as int],
    {
        self.model.blend_form_map.i_param_map[self.idx as usize]
    }

    pub fn param_map_view(&self) -> (r: BlendParamMapView<'model>)
        requires
            self.valid(),
            self.model.blend_form_map.i_param_map@[self.idx as int].0 < self.model.blend_param_map.count,
        ensures
            r.model == self.model && r.idx == self.model.blend_form_map.i_param_map@[self.idx as int].0 && r.parent is None,
    {
        let idx = self.i_param_map();
        BlendParamMapView::get(self.model, idx).unwrap()
    }

    pub fn f_i_forms(&self) -> (r: &'model u32)
        requires self.valid(),
        ensures *r == self.model.blend_form_map.i_forms@[self.idx as int],
    {
        &self.model.blend_form_map.i_forms[self.idx as usize]
    }

    pub fn f_cnt_forms(&self) -> (r: &'model u32)
        requires self.valid(),
        ensures *r == self.model.blend_form_map.cnt_forms@[self.idx as int],
    {
        &self.model.blend_form_map.cnt_forms[self.idx as usize]
    }

    pub fn range_blendweight_limits(&self) -> (r: Range<IBlendWeightLimitRef>)
        requires
            self.valid(),
            self.model.blend_form_map.i_blendweight_limits@[self.idx as int].0 + self.model.blend_form_map.cnt_blendweight_limits@[self.idx as int] <= u32::MAX,
        ensures
            r.start.0 == self.model.blend_form_map.i_blendweight_limits@[self.idx as int].0,
            r.end.0 == self.model.blend_form_map.i_blendweight_limits@[self.idx as int].0 + self.model.blend_form_map.cnt_blendweight_limits@[self.idx as int],
    {
        let i = self.model.blend_form_map.i_blendweight_limits[self.idx as usize];
        let cnt = self.model.blend_form_map.cnt_blendweight_limits[self.idx as usize];
        let end = i.offset(cnt);
        Range { start: i, end }
    }

    pub fn cnt_blendweight_limits(&self) -> (r: u32)
        requires self.valid(),
        ensures r == self.model.blend_form_map.cnt_blendweight_limits@[self.idx as int],
    {
        self.model.blend_form_map.cnt_blendweight_limits[self.idx as usize]
    }

    pub fn blendweight_limits_views(&self) -> (r: ItemCollection<'model, BlendWeightLimitRefView<'model>>)
        requires
            self.valid(),
            self.model.blend_form_map.i_blendweight_limits@[self.idx as int].0 + self.model.blend_form_map.cnt_blendweight_limits@[self.idx as int] <= u32::MAX,
        ensures
            r.model == self.model,
            r.start == self.model.blend_form_map.i_blendweight_limits@[self.idx as int].0,
            r.limit == self.model.blend_form_map.i_blendweight_limits@[self.idx as int].0 + self.model.blend_form_map.cnt_blendweight_limits@[self.idx as int],
            r.parent == Some(self.idx),
    {
        let range = self.range_blendweight_limits();
        let mut c = ItemCollection::new(self.model, range.start.0, range.end.0);
        c.parent = Some(self.idx);
        c
    }

}

impl<'model> ObjectView<'model> for BlendFormMapView<'model> {
    type Object = BlendFormMap;

    open spec fn class_count(model: &ParsedModel) -> nat { model.blend_form_map.count as nat }
    open spec fn spec_model(&self) -> &'model ParsedModel { self.model }
    open spec fn spec_idx(&self) -> u32 { self.idx }
    open spec fn spec_parent(&self) -> Option<u32> { self.parent }

    proof fn lemma_unit_stride() {}

    fn get(model: &'model ParsedModel, idx: IBlendFormMap) -> (r: Option<Self>) {
        if model.blend_form_map.count > idx.0 as usize {
            Some(BlendFormMapView { model, idx: idx.0, parent: None })
        } else {
            None
        }
    }

    fn get_ref(model: &'model ParsedModel, idx: IBlendFormMap) -> (r: Option<ViewRef<'model, Self>>) {
        match Self::get(model, idx) {
            Some(v) => Some(ViewRef::new(v)),
            None => None,
        }
    }

    fn into_ref(self) -> (r: ViewRef<'model, Self>) {
        ViewRef::new(self)
    }

    fn set_parent_idx(&mut self, idx: u32) {
        self.parent = Some(idx);
    }
}

/// One `WarpBlendFormMaps` object of a model.
#[derive(Clone, Debug)]
pub struct WarpBlendFormMapsView<'model> {
    pub model: &'model ParsedModel,
    pub idx: u32,
    pub parent: Option<u32>,
}

impl<'model> WarpBlendFormMapsView<'model> {
    /// The view's object exists and its class's columns are consistent.
    pub open spec fn valid(&self) -> bool {
        &&& self.model.warp_blend_form_maps.wf()
        &&& self.idx < self.model.warp_blend_form_maps.count
    }

    pub fn idx(&self) -> (r: IWarpBlendFormMaps)
        ensures r.0 == self.idx,
    {
        Idx::new(self.idx)
    }

    pub fn fields(&self) -> (r: &'model WarpBlendFormMapsFields)
        ensures r == &self.model.warp_blend_form_maps,
    {
        &self.model.warp_blend_form_maps
    }

    pub fn i_warp(&self) -> (r: IWarpDeformer)
        requires self.valid(),
        ensures r == self.model.warp_blend_form_maps.i_warp@[self.idx as int],
    {
        self.model.warp_blend_form_maps.i_warp[self.idx as usize]
    }

    pub fn warp_view(&self) -> (r: WarpDeformerView<'model>)
        requires
            self.valid(),
            self.model.warp_blend_form_maps.i_warp@[self.idx as int].0 < self.model.warp_deformer.count,
        ensures
            r.model == self.model && r.idx == self.model.warp_blend_form_maps.i_warp@[self.idx as int].0 && r.parent is None,
    {
        let idx = self.i_warp();
        WarpDeformerView::get(self.model, idx).unwrap()
    }

    pub fn range_maps(&self) -> (r: Range<IBlendFormMap>)
        requires
            self.valid(),
            self.model.warp_blend_form_maps.i_maps@[self.idx as int].0 + self.model.warp_blend_form_maps.cnt_maps@[self.idx as int] <= u32::MAX,
        ensures
            r.start.0 == self.model.warp_blend_form_maps.i_maps@[self.idx as int].0,
            r.end.0 == self.model.warp_blend_form_maps.i_maps@[self.idx as int].0 + self.model.warp_blend_form_maps.cnt_maps@[self.idx as int],
    {
        let i = self.model.warp_blend_form_maps.i_maps[self.idx as usize];
        let cnt = self.model.warp_blend_form_maps.cnt_maps[self.idx as usize];
        let end = i.offset(cnt);
        Range { start: i, end }
    }

    pub fn cnt_maps(&self) -> (r: u32)
        requires self.valid(),
        ensures r == self.model.warp_blend_form_maps.cnt_maps@[self.idx as int],
    {
        self.model.warp_blend_form_maps.cnt_maps[self.idx as usize]
    }

    pub fn maps_views(&self) -> (r: ItemCollection<'model, BlendFormMapView<'model>>)
        requires
            self.valid(),
            self.model.warp_blend_form_maps.i_maps@[self.idx as int].0 + self.model.warp_blend_form_maps.cnt_maps@[self.idx as int] <= u32::MAX,
        ensures
            r.model == self.model,
            r.start == self.model.warp_blend_form_maps.i_maps@[self.idx as int].0,
            r.limit == self.model.warp_blend_form_maps.i_maps@[self.idx as int].0 + self.model.warp_blend_form_maps.cnt_maps@[self.idx as int],
            r.parent == Some(self.idx),
    {
        let range = self.range_maps();
        let mut c = ItemCollection::new(self.model, range.start.0, range.end.0);
        c.parent = Some(self.idx);
        c
    }

}

impl<'model> ObjectView<'model> for WarpBlendFormMapsView<'model> {
    type Object = WarpBlendFormMaps;

    open spec fn class_count(model: &ParsedModel) -> nat { model.warp_blend_form_maps.count as nat }
    open spec fn spec_model(&self) -> &'model ParsedModel { self.model }
    open spec fn spec_idx(&self) -> u32 { self.idx }
    open spec fn spec_parent(&self) -> Option<u32> { self.parent }

    proof fn lemma_unit_stride() {}

    fn get(model: &'model ParsedModel, idx: IWarpBlendFormMaps) -> (r: Option<Self>) {
        if model.warp_blend_form_maps.count > idx.0 as usize {
            Some(WarpBlendFormMapsView { model, idx: idx.0, parent: None })
        } else {
            None
        }
    }

    fn get_ref(model: &'model ParsedModel, idx: IWarpBlendFormMaps) -> (r: Option<ViewRef<'model, Self>>) {
        match Self::get(model, idx) {
            Some(v) => Some(ViewRef::new(v)),
            None => None,
        }
    }

    fn into_ref(self) -> (r: ViewRef<'model, Self>) {
        ViewRef::new(self)
    }

    fn set_parent_idx(&mut self, idx: u32) {
        self.parent = Some(idx);
    }
}

/// One `ArtMeshBlendFormMaps` object of a model.
#[derive(Clone, Debug)]
pub struct ArtMeshBlendFormMapsView<'model> {
    pub model: &'model ParsedModel,
    pub idx: u32,
    pub parent: Option<u32>,
}

impl<'model> ArtMeshBlendFormMapsView<'model> {
    /// The view's object exists and its class's columns are consistent.
    pub open spec fn valid(&self) -> bool {
        &&& self.model.art_mesh_blend_form_maps.wf()
        &&& self.idx < self.model.art_mesh_blend_form_maps.count
    }

    pub fn idx(&self) -> (r: IArtMeshBlendFormMaps)
        ensures r.0 == self.idx,
    {
        Idx::new(self.idx)
    }

    pub fn fields(&self) -> (r: &'model ArtMeshBlendFormMapsFields)
        ensures r == &self.model.art_mesh_blend_form_maps,
    {
        &self.model.art_mesh_blend_form_maps
    }

    pub fn i_artmesh(&self) -> (r: IArtMesh)
        requires self.valid(),
        ensures r == self.model.art_mesh_blend_form_maps.i_artmesh@[self.idx as int],
    {
        self.model.art_mesh_blend_form_maps.i_artmesh[self.idx as usize]
    }

    pub fn artmesh_view(&self) -> (r: ArtMeshView<'model>)
        requires
            self.valid(),
            self.model.art_mesh_blend_form_maps.i_artmesh@[self.idx as int].0 < self.model.art_mesh.count,
        ensures
            r.model == self.model && r.idx == self.model.art_mesh_blend_form_maps.i_artmesh@[self.idx as int].0 && r.parent is None,
    {
        let idx = self.i_artmesh();
        ArtMeshView::get(self.model, idx).unwrap()
    }

    pub fn range_maps(&self) -> (r: Range<IBlendFormMap>)
        requires
            self.valid(),
            self.model.art_mesh_blend_form_maps.i_maps@[self.idx as int].0 + self.model.art_mesh_blend_form_maps.cnt_maps@[self.idx as int] <= u32::MAX,
        ensures
            r.start.0 == self.model.art_mesh_blend_form_maps.i_maps@[self.idx as int].0,
            r.end.0 == self.model.art_mesh_blend_form_maps.i_maps@[self.idx as int].0 + self.model.art_mesh_blend_form_maps.cnt_maps@[self.idx as int],
    {
        let i = self.model.art_mesh_blend_form_maps.i_maps[self.idx as usize];
        let cnt = self.model.art_mesh_blend_form_maps.cnt_maps[self.idx as usize];
        let end = i.offset(cnt);
        Range { start: i, end }
    }

    pub fn cnt_maps(&self) -> (r: u32)
        requires self.valid(),
        ensures r == self.model.art_mesh_blend_form_maps.cnt_maps@[self.idx as int],
    {
        self.model.art_mesh_blend_form_maps.cnt_maps[self.idx as usize]
    }

    pub fn maps_views(&self) -> (r: ItemCollection<'model, BlendFormMapView<'model>>)
        requires
            self.valid(),
            self.model.art_mesh_blend_form_maps.i_maps@[self.idx as int].0 + self.model.art_mesh_blend_form_maps.cnt_maps@[self.idx as int] <= u32::MAX,
        ensures
            r.model == self.model,
            r.start == self.model.art_mesh_blend_form_maps.i_maps@[self.idx as int].0,
            r.limit == self.model.art_mesh_blend_form_maps.i_maps@[self.idx as int].0 + self.model.art_mesh_blend_form_maps.cnt_maps@[self.idx as int],
            r.parent == Some(self.idx),
    {
        let range = self.range_maps();
        let mut c = ItemCollection::new(self.model, range.start.0, range.end.0);
        c.parent = Some(self.idx);
        c
    }

}

impl<'model> ObjectView<'model> for ArtMeshBlendFormMapsView<'model> {
    type Object = ArtMeshBlendFormMaps;

    open spec fn class_count(model: &ParsedModel) -> nat { model.art_mesh_blend_form_maps.count as nat }
    open spec fn spec_model(&self) -> &'model ParsedModel { self.model }
    open spec fn spec_idx(&self) -> u32 { self.idx }
    open spec fn spec_parent(&self) -> Option<u32> { self.parent }

    proof fn lemma_unit_stride() {}

    fn get(model: &'model ParsedModel, idx: IArtMeshBlendFormMaps) -> (r: Option<Self>) {
        if model.art_mesh_blend_form_maps.count > idx.0 as usize {
            Some(ArtMeshBlendFormMapsView { model, idx: idx.0, parent: None })
        } else {
            None
        }
    }

    fn get_ref(model: &'model ParsedModel, idx: IArtMeshBlendFormMaps) -> (r: Option<ViewRef<'model, Self>>) {
        match Self::get(model, idx) {
            Some(v) => Some(ViewRef::new(v)),
            None => None,
        }
    }

    fn into_ref(self) -> (r: ViewRef<'model, Self>) {
        ViewRef::new(self)
    }

    fn set_parent_idx(&mut self, idx: u32) {
        self.parent = Some(idx);
    }
}

/// One `BlendWeightLimitRef` object of a model.
#[derive(Clone, Debug)]
pub struct BlendWeightLimitRefView<'model> {
    pub model: &'model ParsedModel,
    pub idx: u32,
    pub parent: Option<u32>,
}

impl<'model> BlendWeightLimitRefView<'model> {
    /// The view's object exists and its class's columns are consistent.
    pub open spec fn valid(&self) -> bool {
        &&& self.model.blend_weight_limit_ref.wf()
        &&& self.idx < self.model.blend_weight_limit_ref.count
    }

    pub fn idx(&self) -> (r: IBlendWeightLimitRef)
        ensures r.0 == self.idx,
    {
        Idx::new(self.idx)
    }

    pub fn fields(&self) -> (r: &'model BlendWeightLimitRefFields)
        ensures r == &self.model.blend_weight_limit_ref,
    {
        &self.model.blend_weight_limit_ref
    }

    pub fn i_limit(&self) -> (r: IBlendWeightLimit)
        requires self.valid(),
        ensures r == self.model.blend_weight_limit_ref.i_limit@[self.idx as int],
    {
        self.model.blend_weight_limit_ref.i_limit[self.idx as usize]
    }

    pub fn limit_view(&self) -> (r: BlendWeightLimitView<'model>)
        requires
            self.valid(),
            self.model.blend_weight_limit_ref.i_limit@[self.idx as int].0 < self.model.blend_weight_limit.count,
        ensures
            r.model == self.model && r.idx == self.model.blend_weight_limit_ref.i_limit@[self.idx as int].0 && r.parent is None,
    {
        let idx = self.i_limit();
        BlendWeightLimitView::get(self.model, idx).unwrap()
    }

}

impl<'model> ObjectView<'model> for BlendWeightLimitRefView<'model> {
    type Object = BlendWeightLimitRef;

    open spec fn class_count(model: &ParsedModel) -> nat { model.blend_weight_limit_ref.count as nat }
    open spec fn spec_model(&self) -> &'model ParsedModel { self.model }
    open spec fn spec_idx(&self) -> u32 { self.idx }
    open spec fn spec_parent(&self) -> Option<u32> { self.parent }

    proof fn lemma_unit_stride() {}

    fn get(model: &'model ParsedModel, idx: IBlendWeightLimitRef) -> (r: Option<Self>) {
        if model.blend_weight_limit_ref.count > idx.0 as usize {
            Some(BlendWeightLimitRefView { model, idx: idx.0, parent: None })
        } else {
            None
        }
    }

    fn get_ref(model: &'model ParsedModel, idx: IBlendWeightLimitRef) -> (r: Option<ViewRef<'model, Self>>) {
        match Self::get(model, idx) {
            Some(v) => Some(ViewRef::new(v)),
            None => None,
        }
    }

    fn into_ref(self) -> (r: ViewRef<'model, Self>) {
        ViewRef::new(self)
    }

    fn set_parent_idx(&mut self, idx: u32) {
        self.parent = Some(idx);
    }
}

/// One `BlendWeightLimit` object of a model.
#[derive(Clone, Debug)]
pub struct BlendWeightLimitView<'model> {
    pub model: &'model ParsedModel,
    pub idx: u32,
    pub parent: Option<u32>,
}

impl<'model> BlendWeightLimitView<'model> {
    /// The view's object exists and its class's columns are consistent.
    pub open spec fn valid(&self) -> bool {
        &&& self.model.blend_weight_limit.wf()
        &&& self.idx < self.model.blend_weight_limit.count
    }

    pub fn idx(&self) -> (r: IBlendWeightLimit)
        ensures r.0 == self.idx,
    {
        Idx::new(self.idx)
    }

    pub fn fields(&self) -> (r: &'model BlendWeightLimitFields)
        ensures r == &self.model.blend_weight_limit,
    {
        &self.model.blend_weight_limit
    }

    pub fn i_param(&self) -> (r: IParam)
        requires self.valid(),
        ensures r == self.model.blend_weight_limit.i_param@[self.idx as int],
    {
        self.model.blend_weight_limit.i_param[self.idx as usize]
    }

    pub fn param_view(&self) -> (r: ParamView<'model>)
        requires
            self.valid(),
            self.model.blend_weight_limit.i_param@[self.idx as int].0 < self.model.param.count,
        ensures
            r.model == self.model && r.idx == self.model.blend_weight_limit.i_param@[self.idx as int].0 && r.parent is None,
    {
        let idx = self.i_param();
        ParamView::get(self.model, idx).unwrap()
    }

    pub fn range_points(&self) -> (r: Range<IBlendWeightLimitPoint>)
        requires
            self.valid(),
            self.model.blend_weight_limit.i_points@[self.idx as int].0 + self.model.blend_weight_limit.cnt_points@[self.idx as int] <= u32::MAX,
        ensures
            r.start.0 == self.model.blend_weight_limit.i_points@[self.idx as int].0,
            r.end.0 == self.model.blend_weight_limit.i_points@[self.idx as int].0 + self.model.blend_weight_limit.cnt_points@[self.idx as int],
    {
        let i = self.model.blend_weight_limit.i_points[self.idx as usize];
        let cnt = self.model.blend_weight_limit.cnt_points[self.idx as usize];
        let end = i.offset(cnt);
        Range { start: i, end }
    }

    pub fn cnt_points(&self) -> (r: u32)
        requires self.valid(),
        ensures r == self.model.blend_weight_limit.cnt_points@[self.idx as int],
    {
        self.model.blend_weight_limit.cnt_points[self.idx as usize]
    }

    pub fn points_views(&self) -> (r: ItemCollection<'model, BlendWeightLimitPointView<'model>>)
        requires
            self.valid(),
            self.model.blend_weight_limit.i_points@[self.idx as int].0 + self.model.blend_weight_limit.cnt_points@[self.idx as int] <= u32::MAX,
        ensures
            r.model == self.model,
            r.start == self.model.blend_weight_limit.i_points@[self.idx as int].0,
            r.limit == self.model.blend_weight_limit.i_points@[self.idx as int].0 + self.model.blend_weight_limit.cnt_points@[self.idx as int],
            r.parent == Some(self.idx),
    {
        let range = self.range_points();
        let mut c = ItemCollection::new(self.model, range.start.0, range.end.0);
        c.parent = Some(self.idx);
        c
    }

}

impl<'model> ObjectView<'model> for BlendWeightLimitView<'model> {
    type Object = BlendWeightLimit;

    open spec fn class_count(model: &ParsedModel) -> nat { model.blend_weight_limit.count as nat }
    open spec fn spec_model(&self) -> &'model ParsedModel { self.model }
    open spec fn spec_idx(&self) -> u32 { self.idx }
    open spec fn spec_parent(&self) -> Option<u32> { self.parent }

    proof fn lemma_unit_stride() {}

    fn get(model: &'model ParsedModel, idx: IBlendWeightLimit) -> (r: Option<Self>) {
        if model.blend_weight_limit.count > idx.0 as usize {
            Some(BlendWeightLimitView { model, idx: idx.0, parent: None })
        } else {
            None
        }
    }

    fn get_ref(model: &'model ParsedModel, idx: IBlendWeightLimit) -> (r: Option<ViewRef<'model, Self>>) {
        match Self::get(model, idx) {
            Some(v) => Some(ViewRef::new(v)),
            None => None,
        }
    }

    fn into_ref(self) -> (r: ViewRef<'model, Self>) {
        ViewRef::new(self)
    }

    fn set_parent_idx(&mut self, idx: u32) {
        self.parent = Some(idx);
    }
}

/// One `BlendWeightLimitPoint` object of a model.
#[derive(Clone, Debug)]
pub struct BlendWeightLimitPointView<'model> {
    pub model: &'model ParsedModel,
    pub idx: u32,
    pub parent: Option<u32>,
}

impl<'model> BlendWeightLimitPointView<'model> {
    /// The view's object exists and its class's columns are consistent.
    pub open spec fn valid(&self) -> bool {
        &&& self.model.blend_weight_limit_point.wf()
        &&& self.idx < self.model.blend_weight_limit_point.count
    }

    pub fn idx(&self) -> (r: IBlendWeightLimitPoint)
        ensures r.0 == self.idx,
    {
        Idx::new(self.idx)
    }

    pub fn fields(&self) -> (r: &'model BlendWeightLimitPointFields)
        ensures r == &self.model.blend_weight_limit_point,
    {
        &self.model.blend_weight_limit_point
    }

    pub fn f_value(&self) -> (r: &'model RawF32)
        requires self.valid(),
        ensures *r == self.model.blend_weight_limit_point.value@[self.idx as int],
    {
        &self.model.blend_weight_limit_point.value[self.idx as usize]
    }

    pub fn f_weight(&self) -> (r: &'model RawF32)
        requires self.valid(),
        ensures *r == self.model.blend_weight_limit_point.weight@[self.idx as int],
    {
        &self.model.blend_weight_limit_point.weight[self.idx as usize]
    }

}

impl<'model> ObjectView<'model> for BlendWeightLimitPointView<'model> {
    type Object = BlendWeightLimitPoint;

    open spec fn class_count(model: &ParsedModel) -> nat { model.blend_weight_limit_point.count as nat }
    open spec fn spec_model(&self) -> &'model ParsedModel { self.model }
    open spec fn spec_idx(&self) -> u32 { self.idx }
    open spec fn spec_parent(&self) -> Option<u32> { self.parent }

    proof fn lemma_unit_stride() {}

    fn get(model: &'model ParsedModel, idx: IBlendWeightLimitPoint) -> (r: Option<Self>) {
        if model.blend_weight_limit_point.count > idx.0 as usize {
            Some(BlendWeightLimitPointView { model, idx: idx.0, parent: None })
        } else {
            None
        }
    }

    fn get_ref(model: &'model ParsedModel, idx: IBlendWeightLimitPoint) -> (r: Option<ViewRef<'model, Self>>) {
        match Self::get(model, idx) {
            Some(v) => Some(ViewRef::new(v)),
            None => None,
        }
    }

    fn into_ref(self) -> (r: ViewRef<'model, Self>) {
        ViewRef::new(self)
    }

    fn set_parent_idx(&mut self, idx: u32) {
        self.parent = Some(idx);
    }
}

/// One `PartBlendFormMaps` object of a model.
#[derive(Clone, Debug)]
pub struct PartBlendFormMapsView<'model> {
    pub model: &'model ParsedModel,
    pub idx: u32,
    pub parent: Option<u32>,
}

impl<'model> PartBlendFormMapsView<'model> {
    /// The view's object exists and its class's columns are consistent.
    pub open spec fn valid(&self) -> bool {
        &&& self.model.part_blend_form_maps.wf()
        &&& self.idx < self.model.part_blend_form_maps.count
    }

    pub fn idx(&self) -> (r: IPartBlendFormMaps)
        ensures r.0 == self.idx,
    {
        Idx::new(self.idx)
    }

    pub fn fields(&self) -> (r: &'model PartBlendFormMapsFields)
        ensures r == &self.model.part_blend_form_maps,
    {
        &self.model.part_blend_form_maps
    }

    pub fn i_part(&self) -> (r: IPart)
        requires self.valid(),
        ensures r == self.model.part_blend_form_maps.i_part@[self.idx as int],
    {
        self.model.part_blend_form_maps.i_part[self.idx as usize]
    }

    pub fn part_view(&self) -> (r: PartView<'model>)
        requires
            self.valid(),
            self.model.part_blend_form_maps.i_part@[self.idx as int].0 < self.model.part.count,
        ensures
            r.model == self.model && r.idx == self.model.part_blend_form_maps.i_part@[self.idx as int].0 && r.parent is None,
    {
        let idx = self.i_part();
        PartView::get(self.model, idx).unwrap()
    }

    pub fn range_maps(&self) -> (r: Range<IBlendFormMap>)
        requires
            self.valid(),
            self.model.part_blend_form_maps.i_maps@[self.idx as int].0 + self.model.part_blend_form_maps.cnt_maps@[self.idx as int] <= u32::MAX,
        ensures
            r.start.0 == self.model.part_blend_form_maps.i_maps@[self.idx as int].0,
            r.end.0 == self.model.part_blend_form_maps.i_maps@[self.idx as int].0 + self.model.part_blend_form_maps.cnt_maps@[self.idx as int],
    {
        let i = self.model.part_blend_form_maps.i_maps[self.idx as usize];
        let cnt = self.model.part_blend_form_maps.cnt_maps[self.idx as usize];
        let end = i.offset(cnt);
        Range { start: i, end }
    }

    pub fn cnt_maps(&self) -> (r: u32)
        requires self.valid(),
        ensures r == self.model.part_blend_form_maps.cnt_maps@[self.idx as int],
    {
        self.model.part_blend_form_maps.cnt_maps[self.idx as usize]
    }

    pub fn maps_views(&self) -> (r: ItemCollection<'model, BlendFormMapView<'model>>)
        requires
            self.valid(),
            self.model.part_blend_form_maps.i_maps@[self.idx as int].0 + self.model.part_blend_form_maps.cnt_maps@[self.idx as int] <= u32::MAX,
        ensures
            r.model == self.model,
            r.start == self.model.part_blend_form_maps.i_maps@[self.idx as int].0,
            r.limit == self.model.part_blend_form_maps.i_maps@[self.idx as int].0 + self.model.part_blend_form_maps.cnt_maps@[self.idx as int],
            r.parent == Some(self.idx),
    {
        let range = self.range_maps();
        let mut c = ItemCollection::new(self.model, range.start.0, range.end.0);
        c.parent = Some(self.idx);
        c
    }

}

impl<'model> ObjectView<'model> for PartBlendFormMapsView<'model> {
    type Object = PartBlendFormMaps;

    open spec fn class_count(model: &ParsedModel) -> nat { model.part_blend_form_maps.count as nat }
    open spec fn spec_model(&self) -> &'model ParsedModel { self.model }
    open spec fn spec_idx(&self) -> u32 { self.idx }
    open spec fn spec_parent(&self) -> Option<u32> { self.parent }

    proof fn lemma_unit_stride() {}

    fn get(model: &'model ParsedModel, idx: IPartBlendFormMaps) -> (r: Option<Self>) {
        if model.part_blend_form_maps.count > idx.0 as usize {
            Some(PartBlendFormMapsView { model, idx: idx.0, parent: None })
        } else {
            None
        }
    }

    fn get_ref(model: &'model ParsedModel, idx: IPartBlendFormMaps) -> (r: Option<ViewRef<'model, Self>>) {
        match Self::get(model, idx) {
            Some(v) => Some(ViewRef::new(v)),
            None => None,
        }
    }

    fn into_ref(self) -> (r: ViewRef<'model, Self>) {
        ViewRef::new(self)
    }

    fn set_parent_idx(&mut self, idx: u32) {
        self.parent = Some(idx);
    }
}

/// One `RotBlendFormMaps` object of a model.
#[derive(Clone, Debug)]
pub struct RotBlendFormMapsView<'model> {
    pub model: &'model ParsedModel,
    pub idx: u32,
    pub parent: Option<u32>,
}

impl<'model> RotBlendFormMapsView<'model> {
    /// The view's object exists and its class's columns are consistent.
    pub open spec fn valid(&self) -> bool {
        &&& self.model.rot_blend_form_maps.wf()
        &&& self.idx < self.model.rot_blend_form_maps.count
    }

    pub fn idx(&self) -> (r: IRotBlendFormMaps)
        ensures r.0 == self.idx,
    {
        Idx::new(self.idx)
    }

    pub fn fields(&self) -> (r: &'model RotBlendFormMapsFields)
        ensures r == &self.model.rot_blend_form_maps,
    {
        &self.model.rot_blend_form_maps
    }

    pub fn i_rot(&self) -> (r: IRotDeformer)
        requires self.valid(),
        ensures r == self.model.rot_blend_form_maps.i_rot@[self.idx as int],
    {
        self.model.rot_blend_form_maps.i_rot[self.idx as usize]
    }

    pub fn rot_view(&self) -> (r: RotDeformerView<'model>)
        requires
            self.valid(),
            self.model.rot_blend_form_maps.i_rot@[self.idx as int].0 < self.model.rot_deformer.count,
        ensures
            r.model == self.model && r.idx == self.model.rot_blend_form_maps.i_rot@[self.idx as int].0 && r.parent is None,
    {
        let idx = self.i_rot();
        RotDeformerView::get(self.model, idx).unwrap()
    }

    pub fn range_maps(&self) -> (r: Range<IBlendFormMap>)
        requires
            self.valid(),
            self.model.rot_blend_form_maps.i_maps@[self.idx as int].0 + self.model.rot_blend_form_maps.cnt_maps@[self.idx as int] <= u32::MAX,
        ensures
            r.start.0 == self.model.rot_blend_form_maps.i_maps@[self.idx as int].0,
            r.end.0 == self.model.rot_blend_form_maps.i_maps@[self.idx as int].0 + self.model.rot_blend_form_maps.cnt_maps@[self.idx as int],
    {
        let i = self.model.rot_blend_form_maps.i_maps[self.idx as usize];
        let cnt = self.model.rot_blend_form_maps.cnt_maps[self.idx as usize];
        let end = i.offset(cnt);
        Range { start: i, end }
    }

    pub fn cnt_maps(&self) -> (r: u32)
        requires self.valid(),
        ensures r == self.model.rot_blend_form_maps.cnt_maps@[self.idx as int],
    {
        self.model.rot_blend_form_maps.cnt_maps[self.idx as usize]
    }

    pub fn maps_views(&self) -> (r: ItemCollection<'model, BlendFormMapView<'model>>)
        requires
            self.valid(),
            self.model.rot_blend_form_maps.i_maps@[self.idx as int].0 + self.model.rot_blend_form_maps.cnt_maps@[self.idx as int] <= u32::MAX,
        ensures
            r.model == self.model,
            r.start == self.model.rot_blend_form_maps.i_maps@[self.idx as int].0,
            r.limit == self.model.rot_blend_form_maps.i_maps@[self.idx as int].0 + self.model.rot_blend_form_maps.cnt_maps@[self.idx as int],
            r.parent == Some(self.idx),
    {
        let range = self.range_maps();
        let mut c = ItemCollection::new(self.model, range.start.0, range.end.0);
        c.parent = Some(self.idx);
        c
    }

}

impl<'model> ObjectView<'model> for RotBlendFormMapsView<'model> {
    type Object = RotBlendFormMaps;

    open spec fn class_count(model: &ParsedModel) -> nat { model.rot_blend_form_maps.count as nat }
    open spec fn spec_model(&self) -> &'model ParsedModel { self.model }
    open spec fn spec_idx(&self) -> u32 { self.idx }
    open spec fn spec_parent(&self) -> Option<u32> { self.parent }

    proof fn lemma_unit_stride() {}

    fn get(model: &'model ParsedModel, idx: IRotBlendFormMaps) -> (r: Option<Self>) {
        if model.rot_blend_form_maps.count > idx.0 as usize {
            Some(RotBlendFormMapsView { model, idx: idx.0, parent: None })
        } else {
            None
        }
    }

    fn get_ref(model: &'model ParsedModel, idx: IRotBlendFormMaps) -> (r: Option<ViewRef<'model, Self>>) {
        match Self::get(model, idx) {
            Some(v) => Some(ViewRef::new(v)),
            None => None,
        }
    }

    fn into_ref(self) -> (r: ViewRef<'model, Self>) {
        ViewRef::new(self)
    }

    fn set_parent_idx(&mut self, idx: u32) {
        self.parent = Some(idx);
    }
}

/// One `GlueBlendFormMaps` object of a model.
#[derive(Clone, Debug)]
pub struct GlueBlendFormMapsView<'model> {
    pub model: &'model ParsedModel,
    pub idx: u32,
    pub parent: Option<u32>,
}

impl<'model> GlueBlendFormMapsView<'model> {
    /// The view's object exists and its class's columns are consistent.
    pub open spec fn valid(&self) -> bool {
        &&& self.model.glue_blend_form_maps.wf()
        &&& self.idx < self.model.glue_blend_form_maps.count
    }

    pub fn idx(&self) -> (r: IGlueBlendFormMaps)
        ensures r.0 == self.idx,
    {
        Idx::new(self.idx)
    }

    pub fn fields(&self) -> (r: &'model GlueBlendFormMapsFields)
        ensures r == &self.model.glue_blend_form_maps,
    {
        &self.model.glue_blend_form_maps
    }

    pub fn i_glue(&self) -> (r: IGlue)
        requires self.valid(),
        ensures r == self.model.glue_blend_form_maps.i_glue@[self.idx as int],
    {
        self.model.glue_blend_form_maps.i_glue[self.idx as usize]
    }

    pub fn glue_view(&self) -> (r: GlueView<'model>)
        requires
            self.valid(),
            self.model.glue_blend_form_maps.i_glue@[self.idx as int].0 < self.model.glue.count,
        ensures
            r.model == self.model && r.idx == self.model.glue_blend_form_maps.i_glue@[self.idx as int].0 && r.parent is None,
    {
        let idx = self.i_glue();
        GlueView::get(self.model, idx).unwrap()
    }

    pub fn range_maps(&self) -> (r: Range<IBlendFormMap>)
        requires
            self.valid(),
            self.model.glue_blend_form_maps.i_maps@[self.idx as int].0 + self.model.glue_blend_form_maps.cnt_maps@[self.idx as int] <= u32::MAX,
        ensures
            r.start.0 == self.model.glue_blend_form_maps.i_maps@[self.idx as int].0,
            r.end.0 == self.model.glue_blend_form_maps.i_maps@[self.idx as int].0 + self.model.glue_blend_form_maps.cnt_maps@[self.idx as int],
    {
        let i = self.model.glue_blend_form_maps.i_maps[self.idx as usize];
        let cnt = self.model.glue_blend_form_maps.cnt_maps[self.idx as usize];
        let end = i.offset(cnt);
        Range { start: i, end }
    }

    pub fn cnt_maps(&self) -> (r: u32)
        requires self.valid(),
        ensures r == self.model.glue_blend_form_maps.cnt_maps@[self.idx as int],
    {
        self.model.glue_blend_form_maps.cnt_maps[self.idx as usize]
    }

    pub fn maps_views(&self) -> (r: ItemCollection<'model, BlendFormMapView<'model>>)
        requires
            self.valid(),
            self.model.glue_blend_form_maps.i_maps@[self.idx as int].0 + self.model.glue_blend_form_maps.cnt_maps@[self.idx as int] <= u32::MAX,
        ensures
            r.model == self.model,
            r.start == self.model.glue_blend_form_maps.i_maps@[self.idx as int].0,
            r.limit == self.model.glue_blend_form_maps.i_maps@[self.idx as int].0 + self.model.glue_blend_form_maps.cnt_maps@[self.idx as int],
            r.parent == Some(self.idx),
    {
        let range = self.range_maps();
        let mut c = ItemCollection::new(self.model, range.start.0, range.end.0);
        c.parent = Some(self.idx);
        c
    }

}

impl<'model> ObjectView<'model> for GlueBlendFormMapsView<'model> {
    type Object = GlueBlendFormMaps;

    open spec fn class_count(model: &ParsedModel) -> nat { model.glue_blend_form_maps.count as nat }
    open spec fn spec_model(&self) -> &'model ParsedModel { self.model }
    open spec fn spec_idx(&self) -> u32 { self.idx }
    open spec fn spec_parent(&self) -> Option<u32> { self.parent }

    proof fn lemma_unit_stride() {}

    fn get(model: &'model ParsedModel, idx: IGlueBlendFormMaps) -> (r: Option<Self>) {
        if model.glue_blend_form_maps.count > idx.0 as usize {
            Some(GlueBlendFormMapsView { model, idx: idx.0, parent: None })
        } else {
            None
        }
    }

    fn get_ref(model: &'model ParsedModel, idx: IGlueBlendFormMaps) -> (r: Option<ViewRef<'model, Self>>) {
        match Self::get(model, idx) {
            Some(v) => Some(ViewRef::new(v)),
            None => None,
        }
    }

    fn into_ref(self) -> (r: ViewRef<'model, Self>) {
        ViewRef::new(self)
    }

    fn set_parent_idx(&mut self, idx: u32) {
        self.parent = Some(idx);
    }
}

/// One `OffscreenPart` object of a model.
#[derive(Clone, Debug)]
pub struct OffscreenPartView<'model> {
    pub model: &'model ParsedModel,
    pub idx: u32,
    pub parent: Option<u32>,
}

impl<'model> OffscreenPartView<'model> {
    /// The view's object exists and its class's columns are consistent.
    pub open spec fn valid(&self) -> bool {
        &&& self.model.offscreen_part.wf()
        &&& self.idx < self.model.offscreen_part.count
    }

    pub fn idx(&self) -> (r: IOffscreenPart)
        ensures r.0 == self.idx,
    {
        Idx::new(self.idx)
    }

    pub fn fields(&self) -> (r: &'model OffscreenPartFields)
        ensures r == &self.model.offscreen_part,
    {
        &self.model.offscreen_part
    }

    pub fn f_unk_zeros(&self) -> (r: &'model u32)
        requires self.valid(),
        ensures *r == self.model.offscreen_part.unk_zeros@[self.idx as int],
    {
        &self.model.offscreen_part.unk_zeros[self.idx as usize]
    }

    pub fn i_part(&self) -> (r: IPart)
        requires self.valid(),
        ensures r == self.model.offscreen_part.i_part@[self.idx as int],
    {
        self.model.offscreen_part.i_part[self.idx as usize]
    }

    pub fn part_view(&self) -> (r: PartView<'model>)
        requires
            self.valid(),
            self.model.offscreen_part.i_part@[self.idx as int].0 < self.model.part.count,
        ensures
            r.model == self.model && r.idx == self.model.offscreen_part.i_part@[self.idx as int].0 && r.parent is None,
    {
        let idx = self.i_part();
        PartView::get(self.model, idx).unwrap()
    }

    pub fn f_render_config(&self) -> (r: &'model u8)
        requires self.valid(),
        ensures *r == self.model.offscreen_part.render_config@[self.idx as int],
    {
        &self.model.offscreen_part.render_config[self.idx as usize]
    }

    pub fn f_blend_config(&self) -> (r: &'model BlendConfig)
        requires self.valid(),
        ensures *r == self.model.offscreen_part.blend_config@[self.idx as int],
    {
        &self.model.offscreen_part.blend_config[self.idx as usize]
    }

    pub fn range_clips(&self) -> (r: Range<IArtMeshRef>)
        requires
            self.valid(),
            self.model.offscreen_part.i_clips@[self.idx as int].0 + self.model.offscreen_part.cnt_clips@[self.idx as int] <= u32::MAX,
        ensures
            r.start.0 == self.model.offscreen_part.i_clips@[self.idx as int].0,
            r.end.0 == self.model.offscreen_part.i_clips@[self.idx as int].0 + self.model.offscreen_part.cnt_clips@[self.idx as int],
    {
        let i = self.model.offscreen_part.i_clips[self.idx as usize];
        let cnt = self.model.offscreen_part.cnt_clips[self.idx as usize];
        let end = i.offset(cnt);
        Range { start: i, end }
    }

    pub fn cnt_clips(&self) -> (r: u32)
        requires self.valid(),
        ensures r == self.model.offscreen_part.cnt_clips@[self.idx as int],
    {
        self.model.offscreen_part.cnt_clips[self.idx as usize]
    }

    pub fn clips_views(&self) -> (r: ItemCollection<'model, ArtMeshRefView<'model>>)
        requires
            self.valid(),
            self.model.offscreen_part.i_clips@[self.idx as int].0 + self.model.offscreen_part.cnt_clips@[self.idx as int] <= u32::MAX,
        ensures
            r.model == self.model,
            r.start == self.model.offscreen_part.i_clips@[self.idx as int].0,
            r.limit == self.model.offscreen_part.i_clips@[self.idx as int].0 + self.model.offscreen_part.cnt_clips@[self.idx as int],
            r.parent == Some(self.idx),
    {
        let range = self.range_clips();
        let mut c = ItemCollection::new(self.model, range.start.0, range.end.0);
        c.parent = Some(self.idx);
        c
    }

    pub fn i_blend_form_maps(&self) -> (r: OptIOffscreenPartBlendFormMaps)
        requires self.valid(),
        ensures r == self.model.offscreen_part.i_blend_form_maps@[self.idx as int],
    {
        self.model.offscreen_part.i_blend_form_maps[self.idx as usize]
    }

    pub fn blend_form_maps_view(&self) -> (r: Option<OffscreenPartBlendFormMapsView<'model>>)
        requires
            self.valid(),
            opt_idx_get(self.model.offscreen_part.i_blend_form_maps@[self.idx as int].0) matches Some(j) ==> j < self.model.offscreen_part_blend_form_maps.count,
        ensures
            r is Some <==> opt_idx_get(self.model.offscreen_part.i_blend_form_maps@[self.idx as int].0) is Some,
            r matches Some(v) ==> v.model == self.model && Some(v.idx) == opt_idx_get(self.model.offscreen_part.i_blend_form_maps@[self.idx as int].0) && v.parent is None,
    {
        let idx = self.i_blend_form_maps().to_index();
        match idx {
            Some(a) => Some(OffscreenPartBlendFormMapsView::get(self.model, a).unwrap()),
            None => None,
        }
    }

}

impl<'model> ObjectView<'model> for OffscreenPartView<'model> {
    type Object = OffscreenPart;

    open spec fn class_count(model: &ParsedModel) -> nat { model.offscreen_part.count as nat }
    open spec fn spec_model(&self) -> &'model ParsedModel { self.model }
    open spec fn spec_idx(&self) -> u32 { self.idx }
    open spec fn spec_parent(&self) -> Option<u32> { self.parent }

    proof fn lemma_unit_stride() {}

    fn get(model: &'model ParsedModel, idx: IOffscreenPart) -> (r: Option<Self>) {
        if model.offscreen_part.count > idx.0 as usize {
            Some(OffscreenPartView { model, idx: idx.0, parent: None })
        } else {
            None
        }
    }

    fn get_ref(model: &'model ParsedModel, idx: IOffscreenPart) -> (r: Option<ViewRef<'model, Self>>) {
        match Self::get(model, idx) {
            Some(v) => Some(ViewRef::new(v)),
            None => None,
        }
    }

    fn into_ref(self) -> (r: ViewRef<'model, Self>) {
        ViewRef::new(self)
    }

    fn set_parent_idx(&mut self, idx: u32) {
        self.parent = Some(idx);
    }
}

/// One `OffscreenPartForm` object of a model.
#[derive(Clone, Debug)]
pub struct OffscreenPartFormView<'model> {
    pub model: &'model ParsedModel,
    pub idx: u32,
    pub parent: Option<u32>,
}

impl<'model> OffscreenPartFormView<'model> {
    /// The view's object exists and its class's columns are consistent.
    pub open spec fn valid(&self) -> bool {
        &&& self.model.offscreen_part_form.wf()
        &&& self.idx < self.model.offscreen_part_form.count
    }

    pub fn idx(&self) -> (r: IOffscreenPartForm)
        ensures r.0 == self.idx,
    {
        Idx::new(self.idx)
    }

    pub fn fields(&self) -> (r: &'model OffscreenPartFormFields)
        ensures r == &self.model.offscreen_part_form,
    {
        &self.model.offscreen_part_form
    }

    pub fn f_opacity(&self) -> (r: &'model RawF32)
        requires self.valid(),
        ensures *r == self.model.offscreen_part_form.opacity@[self.idx as int],
    {
        &self.model.offscreen_part_form.opacity[self.idx as usize]
    }

    pub fn i_multiply_color(&self) -> (r: IMultiplyColor)
        requires self.valid(),
        ensures r == self.model.offscreen_part_form.i_multiply_color@[self.idx as int],
    {
        self.model.offscreen_part_form.i_multiply_color[self.idx as usize]
    }

    pub fn multiply_color_view(&self) -> (r: MultiplyColorView<'model>)
        requires
            self.valid(),
            self.model.offscreen_part_form.i_multiply_color@[self.idx as int].0 < self.model.multiply_color.count,
        ensures
            r.model == self.model && r.idx == self.model.offscreen_part_form.i_multiply_color@[self.idx as int].0 && r.parent is None,
    {
        let idx = self.i_multiply_color();
        MultiplyColorView::get(self.model, idx).unwrap()
    }

    pub fn i_screen_color(&self) -> (r: IScreenColor)
        requires self.valid(),
        ensures r == self.model.offscreen_part_form.i_screen_color@[self.idx as int],
    {
        self.model.offscreen_part_form.i_screen_color[self.idx as usize]
    }

    pub fn screen_color_view(&self) -> (r: ScreenColorView<'model>)
        requires
            self.valid(),
            self.model.offscreen_part_form.i_screen_color@[self.idx as int].0 < self.model.screen_color.count,
        ensures
            r.model == self.model && r.idx == self.model.offscreen_part_form.i_screen_color@[self.idx as int].0 && r.parent is None,
    {
        let idx = self.i_screen_color();
        ScreenColorView::get(self.model, idx).unwrap()
    }

}

impl<'model> ObjectView<'model> for OffscreenPartFormView<'model> {
    type Object = OffscreenPartForm;

    open spec fn class_count(model: &ParsedModel) -> nat { model.offscreen_part_form.count as nat }
    open spec fn spec_model(&self) -> &'model ParsedModel { self.model }
    open spec fn spec_idx(&self) -> u32 { self.idx }
    open spec fn spec_parent(&self) -> Option<u32> { self.parent }

    proof fn lemma_unit_stride() {}

    fn get(model: &'model ParsedModel, idx: IOffscreenPartForm) -> (r: Option<Self>) {
        if model.offscreen_part_form.count > idx.0 as usize {
            Some(OffscreenPartFormView { model, idx: idx.0, parent: None })
        } else {
            None
        }
    }

    fn get_ref(model: &'model ParsedModel, idx: IOffscreenPartForm) -> (r: Option<ViewRef<'model, Self>>) {
        match Self::get(model, idx) {
            Some(v) => Some(ViewRef::new(v)),
            None => None,
        }
    }

    fn into_ref(self) -> (r: ViewRef<'model, Self>) {
        ViewRef::new(self)
    }

    fn set_parent_idx(&mut self, idx: u32) {
        self.parent = Some(idx);
    }
}

/// One `OffscreenPartBlendFormMaps` object of a model.
#[derive(Clone, Debug)]
pub struct OffscreenPartBlendFormMapsView<'model> {
    pub model: &'model ParsedModel,
    pub idx: u32,
    pub parent: Option<u32>,
}

impl<'model> OffscreenPartBlendFormMapsView<'model> {
    /// The view's object exists and its class's columns are consistent.
    pub open spec fn valid(&self) -> bool {
        &&& self.model.offscreen_part_blend_form_maps.wf()
        &&& self.idx < self.model.offscreen_part_blend_form_maps.count
    }

    pub fn idx(&self) -> (r: IOffscreenPartBlendFormMaps)
        ensures r.0 == self.idx,
    {
        Idx::new(self.idx)
    }

    pub fn fields(&self) -> (r: &'model OffscreenPartBlendFormMapsFields)
        ensures r == &self.model.offscreen_part_blend_form_maps,
    {
        &self.model.offscreen_part_blend_form_maps
    }

    pub fn i_offscreen_part(&self) -> (r: IOffscreenPart)
        requires self.valid(),
        ensures r == self.model.offscreen_part_blend_form_maps.i_offscreen_part@[self.idx as int],
    {
        self.model.offscreen_part_blend_form_maps.i_offscreen_part[self.idx as usize]
    }

    pub fn offscreen_part_view(&self) -> (r: OffscreenPartView<'model>)
        requires
            self.valid(),
            self.model.offscreen_part_blend_form_maps.i_offscreen_part@[self.idx as int].0 < self.model.offscreen_part.count,
        ensures
            r.model == self.model && r.idx == self.model.offscreen_part_blend_form_maps.i_offscreen_part@[self.idx as int].0 && r.parent is None,
    {
        let idx = self.i_offscreen_part();
        OffscreenPartView::get(self.model, idx).unwrap()
    }

    pub fn range_maps(&self) -> (r: Range<IBlendFormMap>)
        requires
            self.valid(),
            self.model.offscreen_part_blend_form_maps.i_maps@[self.idx as int].0 + self.model.offscreen_part_blend_form_maps.cnt_maps@[self.idx as int] <= u32::MAX,
        ensures
            r.start.0 == self.model.offscreen_part_blend_form_maps.i_maps@[self.idx as int].0,
            r.end.0 == self.model.offscreen_part_blend_form_maps.i_maps@[self.idx as int].0 + self.model.offscreen_part_blend_form_maps.cnt_maps@[self.idx as int],
    {
        let i = self.model.offscreen_part_blend_form_maps.i_maps[self.idx as usize];
        let cnt = self.model.offscreen_part_blend_form_maps.cnt_maps[self.idx as usize];
        let end = i.offset(cnt);
        Range { start: i, end }
    }

    pub fn cnt_maps(&self) -> (r: u32)
        requires self.valid(),
        ensures r == self.model.offscreen_part_blend_form_maps.cnt_maps@[self.idx as int],
    {
        self.model.offscreen_part_blend_form_maps.cnt_maps[self.idx as usize]
    }

    pub fn maps_views(&self) -> (r: ItemCollection<'model, BlendFormMapView<'model>>)
        requires
            self.valid(),
            self.model.offscreen_part_blend_form_maps.i_maps@[self.idx as int].0 + self.model.offscreen_part_blend_form_maps.cnt_maps@[self.idx as int] <= u32::MAX,
        ensures
            r.model == self.model,
            r.start == self.model.offscreen_part_blend_form_maps.i_maps@[self.idx as int].0,
            r.limit == self.model.offscreen_part_blend_form_maps.i_maps@[self.idx as int].0 + self.model.offscreen_part_blend_form_maps.cnt_maps@[self.idx as int],
            r.parent == Some(self.idx),
    {
        let range = self.range_maps();
        let mut c = ItemCollection::new(self.model, range.start.0, range.end.0);
        c.parent = Some(self.idx);
        c
    }

}

impl<'model> ObjectView<'model> for OffscreenPartBlendFormMapsView<'model> {
    type Object = OffscreenPartBlendFormMaps;

    open spec fn class_count(model: &ParsedModel) -> nat { model.offscreen_part_blend_form_maps.count as nat }
    open spec fn spec_model(&self) -> &'model ParsedModel { self.model }
    open spec fn spec_idx(&self) -> u32 { self.idx }
    open spec fn spec_parent(&self) -> Option<u32> { self.parent }

    proof fn lemma_unit_stride() {}

    fn get(model: &'model ParsedModel, idx: IOffscreenPartBlendFormMaps) -> (r: Option<Self>) {
        if model.offscreen_part_blend_form_maps.count > idx.0 as usize {
            Some(OffscreenPartBlendFormMapsView { model, idx: idx.0, parent: None })
        } else {
            None
        }
    }

    fn get_ref(model: &'model ParsedModel, idx: IOffscreenPartBlendFormMaps) -> (r: Option<ViewRef<'model, Self>>) {
        match Self::get(model, idx) {
            Some(v) => Some(ViewRef::new(v)),
            None => None,
        }
    }

    fn into_ref(self) -> (r: ViewRef<'model, Self>) {
        ViewRef::new(self)
    }

    fn set_parent_idx(&mut self, idx: u32) {
        self.parent = Some(idx);
    }
}

impl<'a> ChildView<'a> for WarpDeformerView<'a> {
    type Parent = Deformer;

    fn with_parent(self, parent: &DeformerView<'a>) -> (r: Self) {
        self.with_parent_idx(parent.idx)
    }

    fn with_parent_idx(self, idx: u32) -> (r: Self) {
        let mut s = self;
        s.parent = Some(idx);
        s
    }

    fn parent(&self) -> (r: DeformerView<'a>) {
        DeformerView::get(self.model, Idx::new(self.parent.unwrap())).unwrap()
    }
}

impl<'a> ChildView<'a> for RotDeformerView<'a> {
    type Parent = Deformer;

    fn with_parent(self, parent: &DeformerView<'a>) -> (r: Self) {
        self.with_parent_idx(parent.idx)
    }

    fn with_parent_idx(self, idx: u32) -> (r: Self) {
        let mut s = self;
        s.parent = Some(idx);
        s
    }

    fn parent(&self) -> (r: DeformerView<'a>) {
        DeformerView::get(self.model, Idx::new(self.parent.unwrap())).unwrap()
    }
}

impl<'a> ChildView<'a> for PartFormView<'a> {
    type Parent = Part;

    fn with_parent(self, parent: &PartView<'a>) -> (r: Self) {
        self.with_parent_idx(parent.idx)
    }

    fn with_parent_idx(self, idx: u32) -> (r: Self) {
        let mut s = self;
        s.parent = Some(idx);
        s
    }

    fn parent(&self) -> (r: PartView<'a>) {
        PartView::get(self.model, Idx::new(self.parent.unwrap())).unwrap()
    }
}

impl<'a> ChildView<'a> for WarpFormView<'a> {
    type Parent = WarpDeformer;

    fn with_parent(self, parent: &WarpDeformerView<'a>) -> (r: Self) {
        self.with_parent_idx(parent.idx)
    }

    fn with_parent_idx(self, idx: u32) -> (r: Self) {
        let mut s = self;
        s.parent = Some(idx);
        s
    }

    fn parent(&self) -> (r: WarpDeformerView<'a>) {
        WarpDeformerView::get(self.model, Idx::new(self.parent.unwrap())).unwrap()
    }
}

impl<'a> ChildView<'a> for RotFormView<'a> {
    type Parent = RotDeformer;

    fn with_parent(self, parent: &RotDeformerView<'a>) -> (r: Self) {
        self.with_parent_idx(parent.idx)
    }

    fn with_parent_idx(self, idx: u32) -> (r: Self) {
        let mut s = self;
        s.parent = Some(idx);
        s
    }

    fn parent(&self) -> (r: RotDeformerView<'a>) {
        RotDeformerView::get(self.model, Idx::new(self.parent.unwrap())).unwrap()
    }
}

impl<'a> ChildView<'a> for ArtMeshFormView<'a> {
    type Parent = ArtMesh;

    fn with_parent(self, parent: &ArtMeshView<'a>) -> (r: Self) {
        self.with_parent_idx(parent.idx)
    }

    fn with_parent_idx(self, idx: u32) -> (r: Self) {
        let mut s = self;
        s.parent = Some(idx);
        s
    }

    fn parent(&self) -> (r: ArtMeshView<'a>) {
        ArtMeshView::get(self.model, Idx::new(self.parent.unwrap())).unwrap()
    }
}

impl<'a> ChildView<'a> for GlueFormView<'a> {
    type Parent = Glue;

    fn with_parent(self, parent: &GlueView<'a>) -> (r: Self) {
        self.with_parent_idx(parent.idx)
    }

    fn with_parent_idx(self, idx: u32) -> (r: Self) {
        let mut s = self;
        s.parent = Some(idx);
        s
    }

    fn parent(&self) -> (r: GlueView<'a>) {
        GlueView::get(self.model, Idx::new(self.parent.unwrap())).unwrap()
    }
}

impl<'a> ChildView<'a> for OffscreenPartFormView<'a> {
    type Parent = PartForm;

    fn with_parent(self, parent: &PartFormView<'a>) -> (r: Self) {
        self.with_parent_idx(parent.idx)
    }

    fn with_parent_idx(self, idx: u32) -> (r: Self) {
        let mut s = self;
        s.parent = Some(idx);
        s
    }

    fn parent(&self) -> (r: PartFormView<'a>) {
        PartFormView::get(self.model, Idx::new(self.parent.unwrap())).unwrap()
    }
}

impl VertexCoordFields {
    /// The scalars of the array from item-aligned index `range.start` up to `range.end`.
    pub fn slice(&self, range: Range<IVertexCoord>) -> (r: &[Coord])
        requires
            self.columns_ok(),
            range.start.0 % 2 == 0,
            range.end.0 % 2 == 0,
            range.start.0 <= range.end.0,
            range.end.0 / 2 <= self.values.len(),
        ensures
            r@ == self.values@.subrange((range.start.0 / 2) as int, (range.end.0 / 2) as int),
    {
        let (a, b) = Self::get_range(range);
        vstd::slice::slice_subrange(self.values.as_slice(), a, b)
    }

    /// The item that a scalar index denotes; the index must be item-aligned.
    pub fn get_index(idx: IVertexCoord) -> (r: usize)
        requires idx.0 % 2 == 0,
        ensures r == idx.0 / 2,
    {
        (idx.0 / 2) as usize
    }

    pub fn get_range(r: Range<IVertexCoord>) -> (res: (usize, usize))
        requires r.start.0 % 2 == 0, r.end.0 % 2 == 0,
        ensures res.0 == r.start.0 / 2, res.1 == r.end.0 / 2,
    {
        (Self::get_index(r.start), Self::get_index(r.end))
    }
}

impl KeypointFields {
    /// The scalars of the array from item-aligned index `range.start` up to `range.end`.
    pub fn slice(&self, range: Range<IKeypoint>) -> (r: &[RawF32])
        requires
            self.columns_ok(),
            range.start.0 % 1 == 0,
            range.end.0 % 1 == 0,
            range.start.0 <= range.end.0,
            range.end.0 / 1 <= self.values.len(),
        ensures
            r@ == self.values@.subrange((range.start.0 / 1) as int, (range.end.0 / 1) as int),
    {
        let (a, b) = Self::get_range(range);
        vstd::slice::slice_subrange(self.values.as_slice(), a, b)
    }

    /// The item that a scalar index denotes; the index must be item-aligned.
    pub fn get_index(idx: IKeypoint) -> (r: usize)
        requires idx.0 % 1 == 0,
        ensures r == idx.0 / 1,
    {
        (idx.0 / 1) as usize
    }

    pub fn get_range(r: Range<IKeypoint>) -> (res: (usize, usize))
        requires r.start.0 % 1 == 0, r.end.0 % 1 == 0,
        ensures res.0 == r.start.0 / 1, res.1 == r.end.0 / 1,
    {
        (Self::get_index(r.start), Self::get_index(r.end))
    }
}

impl TexCoordFields {
    /// The scalars of the array from item-aligned index `range.start` up to `range.end`.
    pub fn slice(&self, range: Range<ITexCoord>) -> (r: &[Coord])
        requires
            self.columns_ok(),
            range.start.0 % 2 == 0,
            range.end.0 % 2 == 0,
            range.start.0 <= range.end.0,
            range.end.0 / 2 <= self.values.len(),
        ensures
            r@ == self.values@.subrange((range.start.0 / 2) as int, (range.end.0 / 2) as int),
    {
        let (a, b) = Self::get_range(range);
        vstd::slice::slice_subrange(self.values.as_slice(), a, b)
    }

    /// The item that a scalar index denotes; the index must be item-aligned.
    pub fn get_index(idx: ITexCoord) -> (r: usize)
        requires idx.0 % 2 == 0,
        ensures r == idx.0 / 2,
    {
        (idx.0 / 2) as usize
    }

    pub fn get_range(r: Range<ITexCoord>) -> (res: (usize, usize))
        requires r.start.0 % 2 == 0, r.end.0 % 2 == 0,
        ensures res.0 == r.start.0 / 2, res.1 == r.end.0 / 2,
    {
        (Self::get_index(r.start), Self::get_index(r.end))
    }
}

impl VertexIndexFields {
    /// The scalars of the array from item-aligned index `range.start` up to `range.end`.
    pub fn slice(&self, range: Range<IVertexIndex>) -> (r: &[u16])
        requires
            self.columns_ok(),
            range.start.0 % 1 == 0,
            range.end.0 % 1 == 0,
            range.start.0 <= range.end.0,
            range.end.0 / 1 <= self.values.len(),
        ensures
            r@ == self.values@.subrange((range.start.0 / 1) as int, (range.end.0 / 1) as int),
    {
        let (a, b) = Self::get_range(range);
        vstd::slice::slice_subrange(self.values.as_slice(), a, b)
    }

    /// The item that a scalar index denotes; the index must be item-aligned.
    pub fn get_index(idx: IVertexIndex) -> (r: usize)
        requires idx.0 % 1 == 0,
        ensures r == idx.0 / 1,
    {
        (idx.0 / 1) as usize
    }

    pub fn get_range(r: Range<IVertexIndex>) -> (res: (usize, usize))
        requires r.start.0 % 1 == 0, r.end.0 % 1 == 0,
        ensures res.0 == r.start.0 / 1, res.1 == r.end.0 / 1,
    {
        (Self::get_index(r.start), Self::get_index(r.end))
    }
}

} // verus!
