use vstd::prelude::*;
use crate::checks::{part_ok, part_failure, deformer_ok, deformer_failure, art_mesh_ok, art_mesh_failure, param_ok, param_failure, draw_item_ok, draw_item_failure, glue_ok, glue_failure, screen_color_ok, screen_color_failure, offscreen_part_ok, offscreen_part_failure};
use crate::error::ParseError;
use crate::model::{ClassId, ParsedModel, PartView, DeformerView, ArtMeshView, ParamView, DrawItemView, GlueView, ScreenColorView, OffscreenPartView};
use crate::refs::{check_refs, offscreen_part_refs_ok, ref_failure, refs_ok};
use crate::types::{Idx, ObjectView};

verus! {

/// Every `Part` object passes its consistency check.
pub open spec fn parts_ok(m: &ParsedModel) -> bool {
    forall|i: int| 0 <= i < m.part.count ==> #[trigger] part_ok(m, i)
}

/// Runs the consistency check of every `Part` object, in object order; the first
/// failure is reported.
pub fn validate_parts(m: &ParsedModel) -> (r: Result<(), ParseError>)
    requires
        m.part.wf(),
    ensures
        r is Ok <==> parts_ok(m),
        r matches Err(e) ==> (e matches ParseError::ValidationError(c, i, t) && c == "Part" && i < m.part.count
            && !part_ok(m, i as int) && t@ == part_failure(m, i as int)
            && (forall|j: int| 0 <= j < i ==> #[trigger] part_ok(m, j))),
{
    let n = m.part.count;
    let mut i: usize = 0;
    while i < n
        invariant
            m.part.wf(),
            n == m.part.count,
            i <= n,
            forall|j: int| 0 <= j < i ==> #[trigger] part_ok(m, j),
        decreases n - i,
    {
        let view = PartView::get(m, Idx::new(i as u32)).unwrap();
        match view.validate() {
            Ok(()) => {},
            Err(e) => {
                return Err(e);
            },
        }
        i = i + 1;
    }
    Ok(())
}

/// Every `Deformer` object passes its consistency check.
pub open spec fn deformers_ok(m: &ParsedModel) -> bool {
    forall|i: int| 0 <= i < m.deformer.count ==> #[trigger] deformer_ok(m, i)
}

/// Runs the consistency check of every `Deformer` object, in object order; the first
/// failure is reported.
pub fn validate_deformers(m: &ParsedModel) -> (r: Result<(), ParseError>)
    requires
        m.deformer.wf(),
    ensures
        r is Ok <==> deformers_ok(m),
        r matches Err(e) ==> (e matches ParseError::ValidationError(c, i, t) && c == "Deformer" && i < m.deformer.count
            && !deformer_ok(m, i as int) && t@ == deformer_failure(m, i as int)
            && (forall|j: int| 0 <= j < i ==> #[trigger] deformer_ok(m, j))),
{
    let n = m.deformer.count;
    let mut i: usize = 0;
    while i < n
        invariant
            m.deformer.wf(),
            n == m.deformer.count,
            i <= n,
            forall|j: int| 0 <= j < i ==> #[trigger] deformer_ok(m, j),
        decreases n - i,
    {
        let view = DeformerView::get(m, Idx::new(i as u32)).unwrap();
        match view.validate() {
            Ok(()) => {},
            Err(e) => {
                return Err(e);
            },
        }
        i = i + 1;
    }
    Ok(())
}

/// Every `ArtMesh` object passes its consistency check.
pub open spec fn art_meshes_ok(m: &ParsedModel) -> bool {
    forall|i: int| 0 <= i < m.art_mesh.count ==> #[trigger] art_mesh_ok(m, i)
}

/// Runs the consistency check of every `ArtMesh` object, in object order; the first
/// failure is reported.
pub fn validate_art_meshes(m: &ParsedModel) -> (r: Result<(), ParseError>)
    requires
        m.art_mesh.wf(),
    ensures
        r is Ok <==> art_meshes_ok(m),
        r matches Err(e) ==> (e matches ParseError::ValidationError(c, i, t) && c == "ArtMesh" && i < m.art_mesh.count
            && !art_mesh_ok(m, i as int) && t@ == art_mesh_failure(m, i as int)
            && (forall|j: int| 0 <= j < i ==> #[trigger] art_mesh_ok(m, j))),
{
    let n = m.art_mesh.count;
    let mut i: usize = 0;
    while i < n
        invariant
            m.art_mesh.wf(),
            n == m.art_mesh.count,
            i <= n,
            forall|j: int| 0 <= j < i ==> #[trigger] art_mesh_ok(m, j),
        decreases n - i,
    {
        let view = ArtMeshView::get(m, Idx::new(i as u32)).unwrap();
        match view.validate() {
            Ok(()) => {},
            Err(e) => {
                return Err(e);
            },
        }
        i = i + 1;
    }
    Ok(())
}

/// Every `Param` object passes its consistency check.
pub open spec fn params_ok(m: &ParsedModel) -> bool {
    forall|i: int| 0 <= i < m.param.count ==> #[trigger] param_ok(m, i)
}

/// Runs the consistency check of every `Param` object, in object order; the first
/// failure is reported.
pub fn validate_params(m: &ParsedModel) -> (r: Result<(), ParseError>)
    requires
        m.param.wf(),
    ensures
        r is Ok <==> params_ok(m),
        r matches Err(e) ==> (e matches ParseError::ValidationError(c, i, t) && c == "Param" && i < m.param.count
            && !param_ok(m, i as int) && t@ == param_failure(m, i as int)
            && (forall|j: int| 0 <= j < i ==> #[trigger] param_ok(m, j))),
{
    let n = m.param.count;
    let mut i: usize = 0;
    while i < n
        invariant
            m.param.wf(),
            n == m.param.count,
            i <= n,
            forall|j: int| 0 <= j < i ==> #[trigger] param_ok(m, j),
        decreases n - i,
    {
        let view = ParamView::get(m, Idx::new(i as u32)).unwrap();
        match view.validate() {
            Ok(()) => {},
            Err(e) => {
                return Err(e);
            },
        }
        i = i + 1;
    }
    Ok(())
}

/// Every `DrawItem` object passes its consistency check.
pub open spec fn draw_items_ok(m: &ParsedModel) -> bool {
    forall|i: int| 0 <= i < m.draw_item.count ==> #[trigger] draw_item_ok(m, i)
}

/// Runs the consistency check of every `DrawItem` object, in object order; the first
/// failure is reported.
pub fn validate_draw_items(m: &ParsedModel) -> (r: Result<(), ParseError>)
    requires
        m.draw_item.wf(),
    ensures
        r is Ok <==> draw_items_ok(m),
        r matches Err(e) ==> (e matches ParseError::ValidationError(c, i, t) && c == "DrawItem" && i < m.draw_item.count
            && !draw_item_ok(m, i as int) && t@ == draw_item_failure(m, i as int)
            && (forall|j: int| 0 <= j < i ==> #[trigger] draw_item_ok(m, j))),
{
    let n = m.draw_item.count;
    let mut i: usize = 0;
    while i < n
        invariant
            m.draw_item.wf(),
            n == m.draw_item.count,
            i <= n,
            forall|j: int| 0 <= j < i ==> #[trigger] draw_item_ok(m, j),
        decreases n - i,
    {
        let view = DrawItemView::get(m, Idx::new(i as u32)).unwrap();
        match view.validate() {
            Ok(()) => {},
            Err(e) => {
                return Err(e);
            },
        }
        i = i + 1;
    }
    Ok(())
}

/// Every `Glue` object passes its consistency check.
pub open spec fn glues_ok(m: &ParsedModel) -> bool {
    forall|i: int| 0 <= i < m.glue.count ==> #[trigger] glue_ok(m, i)
}

/// Runs the consistency check of every `Glue` object, in object order; the first
/// failure is reported.
pub fn validate_glues(m: &ParsedModel) -> (r: Result<(), ParseError>)
    requires
        m.glue.wf(),
    ensures
        r is Ok <==> glues_ok(m),
        r matches Err(e) ==> (e matches ParseError::ValidationError(c, i, t) && c == "Glue" && i < m.glue.count
            && !glue_ok(m, i as int) && t@ == glue_failure(m, i as int)
            && (forall|j: int| 0 <= j < i ==> #[trigger] glue_ok(m, j))),
{
    let n = m.glue.count;
    let mut i: usize = 0;
    while i < n
        invariant
            m.glue.wf(),
            n == m.glue.count,
            i <= n,
            forall|j: int| 0 <= j < i ==> #[trigger] glue_ok(m, j),
        decreases n - i,
    {
        let view = GlueView::get(m, Idx::new(i as u32)).unwrap();
        match view.validate() {
            Ok(()) => {},
            Err(e) => {
                return Err(e);
            },
        }
        i = i + 1;
    }
    Ok(())
}

/// Every `ScreenColor` object passes its consistency check.
pub open spec fn screen_colors_ok(m: &ParsedModel) -> bool {
    forall|i: int| 0 <= i < m.screen_color.count ==> #[trigger] screen_color_ok(m, i)
}

/// Runs the consistency check of every `ScreenColor` object, in object order; the first
/// failure is reported.
pub fn validate_screen_colors(m: &ParsedModel) -> (r: Result<(), ParseError>)
    requires
        m.screen_color.wf(),
    ensures
        r is Ok <==> screen_colors_ok(m),
        r matches Err(e) ==> (e matches ParseError::ValidationError(c, i, t) && c == "ScreenColor" && i < m.screen_color.count
            && !screen_color_ok(m, i as int) && t@ == screen_color_failure(m, i as int)
            && (forall|j: int| 0 <= j < i ==> #[trigger] screen_color_ok(m, j))),
{
    let n = m.screen_color.count;
    let mut i: usize = 0;
    while i < n
        invariant
            m.screen_color.wf(),
            n == m.screen_color.count,
            i <= n,
            forall|j: int| 0 <= j < i ==> #[trigger] screen_color_ok(m, j),
        decreases n - i,
    {
        let view = ScreenColorView::get(m, Idx::new(i as u32)).unwrap();
        match view.validate() {
            Ok(()) => {},
            Err(e) => {
                return Err(e);
            },
        }
        i = i + 1;
    }
    Ok(())
}

/// Every `OffscreenPart` object passes its consistency check.
pub open spec fn offscreen_parts_ok(m: &ParsedModel) -> bool {
    forall|i: int| 0 <= i < m.offscreen_part.count ==> #[trigger] offscreen_part_ok(m, i)
}

/// Runs the consistency check of every `OffscreenPart` object, in object order; the first
/// failure is reported.
pub fn validate_offscreen_parts(m: &ParsedModel) -> (r: Result<(), ParseError>)
    requires
        m.offscreen_part.wf(),
        m.part.wf(),
        m.part.count == m.part.raw_count,
        offscreen_part_refs_ok(m),
    ensures
        r is Ok <==> offscreen_parts_ok(m),
        r matches Err(e) ==> (e matches ParseError::ValidationError(c, i, t) && c == "OffscreenPart" && i < m.offscreen_part.count
            && !offscreen_part_ok(m, i as int) && t@ == offscreen_part_failure(m, i as int)
            && (forall|j: int| 0 <= j < i ==> #[trigger] offscreen_part_ok(m, j))),
{
    let n = m.offscreen_part.count;
    let mut i: usize = 0;
    while i < n
        invariant
            m.offscreen_part.wf(),
            m.part.wf(),
            m.part.count == m.part.raw_count,
            offscreen_part_refs_ok(m),
            n == m.offscreen_part.count,
            i <= n,
            forall|j: int| 0 <= j < i ==> #[trigger] offscreen_part_ok(m, j),
        decreases n - i,
    {
        let view = OffscreenPartView::get(m, Idx::new(i as u32)).unwrap();
        match view.validate() {
            Ok(()) => {},
            Err(e) => {
                return Err(e);
            },
        }
        i = i + 1;
    }
    Ok(())
}

/// `e` is what the model's object checks report: the classes are checked in file order,
/// the objects of a class in order, and the first object that fails reports its class,
/// its index and the text of the first check it fails.
pub open spec fn object_failure(m: &ParsedModel, e: ParseError) -> bool {
    match e {
        ParseError::ValidationError(c, i, t) => {
            (c == "Part" && i < m.part.count && !part_ok(m, i as int) && t@ == part_failure(m, i as int)
                && (forall|j: int| 0 <= j < i ==> #[trigger] part_ok(m, j)))
            || (parts_ok(m) && c == "Deformer" && i < m.deformer.count && !deformer_ok(m, i as int) && t@ == deformer_failure(m, i as int)
                && (forall|j: int| 0 <= j < i ==> #[trigger] deformer_ok(m, j)))
            || (parts_ok(m) && deformers_ok(m) && c == "ArtMesh" && i < m.art_mesh.count && !art_mesh_ok(m, i as int) && t@ == art_mesh_failure(m, i as int)
                && (forall|j: int| 0 <= j < i ==> #[trigger] art_mesh_ok(m, j)))
            || (parts_ok(m) && deformers_ok(m) && art_meshes_ok(m) && c == "Param" && i < m.param.count && !param_ok(m, i as int) && t@ == param_failure(m, i as int)
                && (forall|j: int| 0 <= j < i ==> #[trigger] param_ok(m, j)))
            || (parts_ok(m) && deformers_ok(m) && art_meshes_ok(m) && params_ok(m) && c == "DrawItem" && i < m.draw_item.count && !draw_item_ok(m, i as int) && t@ == draw_item_failure(m, i as int)
                && (forall|j: int| 0 <= j < i ==> #[trigger] draw_item_ok(m, j)))
            || (parts_ok(m) && deformers_ok(m) && art_meshes_ok(m) && params_ok(m) && draw_items_ok(m) && c == "Glue" && i < m.glue.count && !glue_ok(m, i as int) && t@ == glue_failure(m, i as int)
                && (forall|j: int| 0 <= j < i ==> #[trigger] glue_ok(m, j)))
            || (parts_ok(m) && deformers_ok(m) && art_meshes_ok(m) && params_ok(m) && draw_items_ok(m) && glues_ok(m) && c == "ScreenColor" && i < m.screen_color.count && !screen_color_ok(m, i as int) && t@ == screen_color_failure(m, i as int)
                && (forall|j: int| 0 <= j < i ==> #[trigger] screen_color_ok(m, j)))
            || (parts_ok(m) && deformers_ok(m) && art_meshes_ok(m) && params_ok(m) && draw_items_ok(m) && glues_ok(m) && screen_colors_ok(m) && c == "OffscreenPart" && i < m.offscreen_part.count && !offscreen_part_ok(m, i as int) && t@ == offscreen_part_failure(m, i as int)
                && (forall|j: int| 0 <= j < i ==> #[trigger] offscreen_part_ok(m, j)))
        },
        _ => false,
    }
}

/// Every object of the model passes the consistency check of its class.
pub open spec fn objects_ok(m: &ParsedModel) -> bool {
    &&& parts_ok(m)
    &&& deformers_ok(m)
    &&& art_meshes_ok(m)
    &&& params_ok(m)
    &&& draw_items_ok(m)
    &&& glues_ok(m)
    &&& screen_colors_ok(m)
    &&& offscreen_parts_ok(m)
}

/// Checks every object of the model, class by class in file order.
pub fn check_objects(m: &ParsedModel) -> (r: Result<(), ParseError>)
    requires
        m.wf(),
        m.part.count == m.part.raw_count,
        offscreen_part_refs_ok(m),
    ensures
        r is Ok <==> objects_ok(m),
        r matches Err(e) ==> e is ValidationError && object_failure(m, e),
{
    match validate_parts(m) {
        Ok(()) => {},
        Err(e) => {
            return Err(e);
        },
    }
    match validate_deformers(m) {
        Ok(()) => {},
        Err(e) => {
            return Err(e);
        },
    }
    match validate_art_meshes(m) {
        Ok(()) => {},
        Err(e) => {
            return Err(e);
        },
    }
    match validate_params(m) {
        Ok(()) => {},
        Err(e) => {
            return Err(e);
        },
    }
    match validate_draw_items(m) {
        Ok(()) => {},
        Err(e) => {
            return Err(e);
        },
    }
    match validate_glues(m) {
        Ok(()) => {},
        Err(e) => {
            return Err(e);
        },
    }
    match validate_screen_colors(m) {
        Ok(()) => {},
        Err(e) => {
            return Err(e);
        },
    }
    match validate_offscreen_parts(m) {
        Ok(()) => {},
        Err(e) => {
            return Err(e);
        },
    }
    Ok(())
}

/// Views reach every object that the file declares.
pub open spec fn counts_open(m: &ParsedModel) -> bool {
    forall|c: ClassId| #[trigger] m.count_of(c) == m.raw_count_of(c)
}

/// Opening the counts keeps the columns consistent and the indices in range.
proof fn lemma_frame(a: &ParsedModel, b: &ParsedModel)
    requires
        b.same_columns(a),
        forall|c: ClassId| #[trigger] b.raw_count_of(c) == a.raw_count_of(c),
        a.columns_ok(),
    ensures
        b.columns_ok(),
        refs_ok(a) == refs_ok(b),
{
    assert(b.raw_count_of(ClassId::Part) == a.raw_count_of(ClassId::Part));
    assert(b.raw_count_of(ClassId::Deformer) == a.raw_count_of(ClassId::Deformer));
    assert(b.raw_count_of(ClassId::WarpDeformer) == a.raw_count_of(ClassId::WarpDeformer));
    assert(b.raw_count_of(ClassId::RotDeformer) == a.raw_count_of(ClassId::RotDeformer));
    assert(b.raw_count_of(ClassId::ArtMesh) == a.raw_count_of(ClassId::ArtMesh));
    assert(b.raw_count_of(ClassId::Param) == a.raw_count_of(ClassId::Param));
    assert(b.raw_count_of(ClassId::PartForm) == a.raw_count_of(ClassId::PartForm));
    assert(b.raw_count_of(ClassId::WarpForm) == a.raw_count_of(ClassId::WarpForm));
    assert(b.raw_count_of(ClassId::RotForm) == a.raw_count_of(ClassId::RotForm));
    assert(b.raw_count_of(ClassId::ArtMeshForm) == a.raw_count_of(ClassId::ArtMeshForm));
    assert(b.raw_count_of(ClassId::VertexCoord) == a.raw_count_of(ClassId::VertexCoord));
    assert(b.raw_count_of(ClassId::ParamMapRef) == a.raw_count_of(ClassId::ParamMapRef));
    assert(b.raw_count_of(ClassId::ParamMapSet) == a.raw_count_of(ClassId::ParamMapSet));
    assert(b.raw_count_of(ClassId::ParamMap) == a.raw_count_of(ClassId::ParamMap));
    assert(b.raw_count_of(ClassId::Keypoint) == a.raw_count_of(ClassId::Keypoint));
    assert(b.raw_count_of(ClassId::TexCoord) == a.raw_count_of(ClassId::TexCoord));
    assert(b.raw_count_of(ClassId::VertexIndex) == a.raw_count_of(ClassId::VertexIndex));
    assert(b.raw_count_of(ClassId::ArtMeshRef) == a.raw_count_of(ClassId::ArtMeshRef));
    assert(b.raw_count_of(ClassId::DrawGroup) == a.raw_count_of(ClassId::DrawGroup));
    assert(b.raw_count_of(ClassId::DrawItem) == a.raw_count_of(ClassId::DrawItem));
    assert(b.raw_count_of(ClassId::Glue) == a.raw_count_of(ClassId::Glue));
    assert(b.raw_count_of(ClassId::GlueCoord) == a.raw_count_of(ClassId::GlueCoord));
    assert(b.raw_count_of(ClassId::GlueForm) == a.raw_count_of(ClassId::GlueForm));
    assert(b.raw_count_of(ClassId::MultiplyColor) == a.raw_count_of(ClassId::MultiplyColor));
    assert(b.raw_count_of(ClassId::ScreenColor) == a.raw_count_of(ClassId::ScreenColor));
    assert(b.raw_count_of(ClassId::BlendParamMap) == a.raw_count_of(ClassId::BlendParamMap));
    assert(b.raw_count_of(ClassId::BlendFormMap) == a.raw_count_of(ClassId::BlendFormMap));
    assert(b.raw_count_of(ClassId::WarpBlendFormMaps) == a.raw_count_of(ClassId::WarpBlendFormMaps));
    assert(b.raw_count_of(ClassId::ArtMeshBlendFormMaps) == a.raw_count_of(ClassId::ArtMeshBlendFormMaps));
    assert(b.raw_count_of(ClassId::BlendWeightLimitRef) == a.raw_count_of(ClassId::BlendWeightLimitRef));
    assert(b.raw_count_of(ClassId::BlendWeightLimit) == a.raw_count_of(ClassId::BlendWeightLimit));
    assert(b.raw_count_of(ClassId::BlendWeightLimitPoint) == a.raw_count_of(ClassId::BlendWeightLimitPoint));
    assert(b.raw_count_of(ClassId::PartBlendFormMaps) == a.raw_count_of(ClassId::PartBlendFormMaps));
    assert(b.raw_count_of(ClassId::RotBlendFormMaps) == a.raw_count_of(ClassId::RotBlendFormMaps));
    assert(b.raw_count_of(ClassId::GlueBlendFormMaps) == a.raw_count_of(ClassId::GlueBlendFormMaps));
    assert(b.raw_count_of(ClassId::OffscreenPart) == a.raw_count_of(ClassId::OffscreenPart));
    assert(b.raw_count_of(ClassId::OffscreenPartForm) == a.raw_count_of(ClassId::OffscreenPartForm));
    assert(b.raw_count_of(ClassId::OffscreenPartBlendFormMaps) == a.raw_count_of(ClassId::OffscreenPartBlendFormMaps));
    assert(crate::refs::part_refs_ok(a) == crate::refs::part_refs_ok(b)) by {
        assert forall|i: int| #![trigger crate::refs::part_refs_ok_at(a, i)] #![trigger crate::refs::part_refs_ok_at(b, i)]
            crate::refs::part_refs_ok_at(a, i) == crate::refs::part_refs_ok_at(b, i) by {}
    }
    assert(crate::refs::deformer_refs_ok(a) == crate::refs::deformer_refs_ok(b)) by {
        assert forall|i: int| #![trigger crate::refs::deformer_refs_ok_at(a, i)] #![trigger crate::refs::deformer_refs_ok_at(b, i)]
            crate::refs::deformer_refs_ok_at(a, i) == crate::refs::deformer_refs_ok_at(b, i) by {}
    }
    assert(crate::refs::warp_deformer_refs_ok(a) == crate::refs::warp_deformer_refs_ok(b)) by {
        assert forall|i: int| #![trigger crate::refs::warp_deformer_refs_ok_at(a, i)] #![trigger crate::refs::warp_deformer_refs_ok_at(b, i)]
            crate::refs::warp_deformer_refs_ok_at(a, i) == crate::refs::warp_deformer_refs_ok_at(b, i) by {}
    }
    assert(crate::refs::rot_deformer_refs_ok(a) == crate::refs::rot_deformer_refs_ok(b)) by {
        assert forall|i: int| #![trigger crate::refs::rot_deformer_refs_ok_at(a, i)] #![trigger crate::refs::rot_deformer_refs_ok_at(b, i)]
            crate::refs::rot_deformer_refs_ok_at(a, i) == crate::refs::rot_deformer_refs_ok_at(b, i) by {}
    }
    assert(crate::refs::art_mesh_refs_ok(a) == crate::refs::art_mesh_refs_ok(b)) by {
        assert forall|i: int| #![trigger crate::refs::art_mesh_refs_ok_at(a, i)] #![trigger crate::refs::art_mesh_refs_ok_at(b, i)]
            crate::refs::art_mesh_refs_ok_at(a, i) == crate::refs::art_mesh_refs_ok_at(b, i) by {}
    }
    assert(crate::refs::param_refs_ok(a) == crate::refs::param_refs_ok(b)) by {
        assert forall|i: int| #![trigger crate::refs::param_refs_ok_at(a, i)] #![trigger crate::refs::param_refs_ok_at(b, i)]
            crate::refs::param_refs_ok_at(a, i) == crate::refs::param_refs_ok_at(b, i) by {}
    }
    assert(crate::refs::part_form_refs_ok(a) == crate::refs::part_form_refs_ok(b)) by {
        assert forall|i: int| #![trigger crate::refs::part_form_refs_ok_at(a, i)] #![trigger crate::refs::part_form_refs_ok_at(b, i)]
            crate::refs::part_form_refs_ok_at(a, i) == crate::refs::part_form_refs_ok_at(b, i) by {}
    }
    assert(crate::refs::warp_form_refs_ok(a) == crate::refs::warp_form_refs_ok(b)) by {
        assert forall|i: int| #![trigger crate::refs::warp_form_refs_ok_at(a, i)] #![trigger crate::refs::warp_form_refs_ok_at(b, i)]
            crate::refs::warp_form_refs_ok_at(a, i) == crate::refs::warp_form_refs_ok_at(b, i) by {}
    }
    assert(crate::refs::rot_form_refs_ok(a) == crate::refs::rot_form_refs_ok(b)) by {
        assert forall|i: int| #![trigger crate::refs::rot_form_refs_ok_at(a, i)] #![trigger crate::refs::rot_form_refs_ok_at(b, i)]
            crate::refs::rot_form_refs_ok_at(a, i) == crate::refs::rot_form_refs_ok_at(b, i) by {}
    }
    assert(crate::refs::art_mesh_form_refs_ok(a) == crate::refs::art_mesh_form_refs_ok(b)) by {
        assert forall|i: int| #![trigger crate::refs::art_mesh_form_refs_ok_at(a, i)] #![trigger crate::refs::art_mesh_form_refs_ok_at(b, i)]
            crate::refs::art_mesh_form_refs_ok_at(a, i) == crate::refs::art_mesh_form_refs_ok_at(b, i) by {}
    }
    assert(crate::refs::param_map_ref_refs_ok(a) == crate::refs::param_map_ref_refs_ok(b)) by {
        assert forall|i: int| #![trigger crate::refs::param_map_ref_refs_ok_at(a, i)] #![trigger crate::refs::param_map_ref_refs_ok_at(b, i)]
            crate::refs::param_map_ref_refs_ok_at(a, i) == crate::refs::param_map_ref_refs_ok_at(b, i) by {}
    }
    assert(crate::refs::param_map_set_refs_ok(a) == crate::refs::param_map_set_refs_ok(b)) by {
        assert forall|i: int| #![trigger crate::refs::param_map_set_refs_ok_at(a, i)] #![trigger crate::refs::param_map_set_refs_ok_at(b, i)]
            crate::refs::param_map_set_refs_ok_at(a, i) == crate::refs::param_map_set_refs_ok_at(b, i) by {}
    }
    assert(crate::refs::param_map_refs_ok(a) == crate::refs::param_map_refs_ok(b)) by {
        assert forall|i: int| #![trigger crate::refs::param_map_refs_ok_at(a, i)] #![trigger crate::refs::param_map_refs_ok_at(b, i)]
            crate::refs::param_map_refs_ok_at(a, i) == crate::refs::param_map_refs_ok_at(b, i) by {}
    }
    assert(crate::refs::art_mesh_ref_refs_ok(a) == crate::refs::art_mesh_ref_refs_ok(b)) by {
        assert forall|i: int| #![trigger crate::refs::art_mesh_ref_refs_ok_at(a, i)] #![trigger crate::refs::art_mesh_ref_refs_ok_at(b, i)]
            crate::refs::art_mesh_ref_refs_ok_at(a, i) == crate::refs::art_mesh_ref_refs_ok_at(b, i) by {}
    }
    assert(crate::refs::draw_group_refs_ok(a) == crate::refs::draw_group_refs_ok(b)) by {
        assert forall|i: int| #![trigger crate::refs::draw_group_refs_ok_at(a, i)] #![trigger crate::refs::draw_group_refs_ok_at(b, i)]
            crate::refs::draw_group_refs_ok_at(a, i) == crate::refs::draw_group_refs_ok_at(b, i) by {}
    }
    assert(crate::refs::draw_item_refs_ok(a) == crate::refs::draw_item_refs_ok(b)) by {
        assert forall|i: int| #![trigger crate::refs::draw_item_refs_ok_at(a, i)] #![trigger crate::refs::draw_item_refs_ok_at(b, i)]
            crate::refs::draw_item_refs_ok_at(a, i) == crate::refs::draw_item_refs_ok_at(b, i) by {}
    }
    assert(crate::refs::glue_refs_ok(a) == crate::refs::glue_refs_ok(b)) by {
        assert forall|i: int| #![trigger crate::refs::glue_refs_ok_at(a, i)] #![trigger crate::refs::glue_refs_ok_at(b, i)]
            crate::refs::glue_refs_ok_at(a, i) == crate::refs::glue_refs_ok_at(b, i) by {}
    }
    assert(crate::refs::blend_param_map_refs_ok(a) == crate::refs::blend_param_map_refs_ok(b)) by {
        assert forall|i: int| #![trigger crate::refs::blend_param_map_refs_ok_at(a, i)] #![trigger crate::refs::blend_param_map_refs_ok_at(b, i)]
            crate::refs::blend_param_map_refs_ok_at(a, i) == crate::refs::blend_param_map_refs_ok_at(b, i) by {}
    }
    assert(crate::refs::blend_form_map_refs_ok(a) == crate::refs::blend_form_map_refs_ok(b)) by {
        assert forall|i: int| #![trigger crate::refs::blend_form_map_refs_ok_at(a, i)] #![trigger crate::refs::blend_form_map_refs_ok_at(b, i)]
            crate::refs::blend_form_map_refs_ok_at(a, i) == crate::refs::blend_form_map_refs_ok_at(b, i) by {}
    }
    assert(crate::refs::warp_blend_form_maps_refs_ok(a) == crate::refs::warp_blend_form_maps_refs_ok(b)) by {
        assert forall|i: int| #![trigger crate::refs::warp_blend_form_maps_refs_ok_at(a, i)] #![trigger crate::refs::warp_blend_form_maps_refs_ok_at(b, i)]
            crate::refs::warp_blend_form_maps_refs_ok_at(a, i) == crate::refs::warp_blend_form_maps_refs_ok_at(b, i) by {}
    }
    assert(crate::refs::art_mesh_blend_form_maps_refs_ok(a) == crate::refs::art_mesh_blend_form_maps_refs_ok(b)) by {
        assert forall|i: int| #![trigger crate::refs::art_mesh_blend_form_maps_refs_ok_at(a, i)] #![trigger crate::refs::art_mesh_blend_form_maps_refs_ok_at(b, i)]
            crate::refs::art_mesh_blend_form_maps_refs_ok_at(a, i) == crate::refs::art_mesh_blend_form_maps_refs_ok_at(b, i) by {}
    }
    assert(crate::refs::blend_weight_limit_ref_refs_ok(a) == crate::refs::blend_weight_limit_ref_refs_ok(b)) by {
        assert forall|i: int| #![trigger crate::refs::blend_weight_limit_ref_refs_ok_at(a, i)] #![trigger crate::refs::blend_weight_limit_ref_refs_ok_at(b, i)]
            crate::refs::blend_weight_limit_ref_refs_ok_at(a, i) == crate::refs::blend_weight_limit_ref_refs_ok_at(b, i) by {}
    }
    assert(crate::refs::blend_weight_limit_refs_ok(a) == crate::refs::blend_weight_limit_refs_ok(b)) by {
        assert forall|i: int| #![trigger crate::refs::blend_weight_limit_refs_ok_at(a, i)] #![trigger crate::refs::blend_weight_limit_refs_ok_at(b, i)]
            crate::refs::blend_weight_limit_refs_ok_at(a, i) == crate::refs::blend_weight_limit_refs_ok_at(b, i) by {}
    }
    assert(crate::refs::part_blend_form_maps_refs_ok(a) == crate::refs::part_blend_form_maps_refs_ok(b)) by {
        assert forall|i: int| #![trigger crate::refs::part_blend_form_maps_refs_ok_at(a, i)] #![trigger crate::refs::part_blend_form_maps_refs_ok_at(b, i)]
            crate::refs::part_blend_form_maps_refs_ok_at(a, i) == crate::refs::part_blend_form_maps_refs_ok_at(b, i) by {}
    }
    assert(crate::refs::rot_blend_form_maps_refs_ok(a) == crate::refs::rot_blend_form_maps_refs_ok(b)) by {
        assert forall|i: int| #![trigger crate::refs::rot_blend_form_maps_refs_ok_at(a, i)] #![trigger crate::refs::rot_blend_form_maps_refs_ok_at(b, i)]
            crate::refs::rot_blend_form_maps_refs_ok_at(a, i) == crate::refs::rot_blend_form_maps_refs_ok_at(b, i) by {}
    }
    assert(crate::refs::glue_blend_form_maps_refs_ok(a) == crate::refs::glue_blend_form_maps_refs_ok(b)) by {
        assert forall|i: int| #![trigger crate::refs::glue_blend_form_maps_refs_ok_at(a, i)] #![trigger crate::refs::glue_blend_form_maps_refs_ok_at(b, i)]
            crate::refs::glue_blend_form_maps_refs_ok_at(a, i) == crate::refs::glue_blend_form_maps_refs_ok_at(b, i) by {}
    }
    assert(crate::refs::offscreen_part_refs_ok(a) == crate::refs::offscreen_part_refs_ok(b)) by {
        assert forall|i: int| #![trigger crate::refs::offscreen_part_refs_ok_at(a, i)] #![trigger crate::refs::offscreen_part_refs_ok_at(b, i)]
            crate::refs::offscreen_part_refs_ok_at(a, i) == crate::refs::offscreen_part_refs_ok_at(b, i) by {}
    }
    assert(crate::refs::offscreen_part_form_refs_ok(a) == crate::refs::offscreen_part_form_refs_ok(b)) by {
        assert forall|i: int| #![trigger crate::refs::offscreen_part_form_refs_ok_at(a, i)] #![trigger crate::refs::offscreen_part_form_refs_ok_at(b, i)]
            crate::refs::offscreen_part_form_refs_ok_at(a, i) == crate::refs::offscreen_part_form_refs_ok_at(b, i) by {}
    }
    assert(crate::refs::offscreen_part_blend_form_maps_refs_ok(a) == crate::refs::offscreen_part_blend_form_maps_refs_ok(b)) by {
        assert forall|i: int| #![trigger crate::refs::offscreen_part_blend_form_maps_refs_ok_at(a, i)] #![trigger crate::refs::offscreen_part_blend_form_maps_refs_ok_at(b, i)]
            crate::refs::offscreen_part_blend_form_maps_refs_ok_at(a, i) == crate::refs::offscreen_part_blend_form_maps_refs_ok_at(b, i) by {}
    }
}

/// With the counts open, every class's columns are consistent.
proof fn lemma_open_wf(m: &ParsedModel)
    requires
        m.columns_ok(),
        counts_open(m),
    ensures
        m.wf(),
{
    assert(m.count_of(ClassId::Part) == m.raw_count_of(ClassId::Part));
    assert(m.count_of(ClassId::Deformer) == m.raw_count_of(ClassId::Deformer));
    assert(m.count_of(ClassId::WarpDeformer) == m.raw_count_of(ClassId::WarpDeformer));
    assert(m.count_of(ClassId::RotDeformer) == m.raw_count_of(ClassId::RotDeformer));
    assert(m.count_of(ClassId::ArtMesh) == m.raw_count_of(ClassId::ArtMesh));
    assert(m.count_of(ClassId::Param) == m.raw_count_of(ClassId::Param));
    assert(m.count_of(ClassId::PartForm) == m.raw_count_of(ClassId::PartForm));
    assert(m.count_of(ClassId::WarpForm) == m.raw_count_of(ClassId::WarpForm));
    assert(m.count_of(ClassId::RotForm) == m.raw_count_of(ClassId::RotForm));
    assert(m.count_of(ClassId::ArtMeshForm) == m.raw_count_of(ClassId::ArtMeshForm));
    assert(m.count_of(ClassId::VertexCoord) == m.raw_count_of(ClassId::VertexCoord));
    assert(m.count_of(ClassId::ParamMapRef) == m.raw_count_of(ClassId::ParamMapRef));
    assert(m.count_of(ClassId::ParamMapSet) == m.raw_count_of(ClassId::ParamMapSet));
    assert(m.count_of(ClassId::ParamMap) == m.raw_count_of(ClassId::ParamMap));
    assert(m.count_of(ClassId::Keypoint) == m.raw_count_of(ClassId::Keypoint));
    assert(m.count_of(ClassId::TexCoord) == m.raw_count_of(ClassId::TexCoord));
    assert(m.count_of(ClassId::VertexIndex) == m.raw_count_of(ClassId::VertexIndex));
    assert(m.count_of(ClassId::ArtMeshRef) == m.raw_count_of(ClassId::ArtMeshRef));
    assert(m.count_of(ClassId::DrawGroup) == m.raw_count_of(ClassId::DrawGroup));
    assert(m.count_of(ClassId::DrawItem) == m.raw_count_of(ClassId::DrawItem));
    assert(m.count_of(ClassId::Glue) == m.raw_count_of(ClassId::Glue));
    assert(m.count_of(ClassId::GlueCoord) == m.raw_count_of(ClassId::GlueCoord));
    assert(m.count_of(ClassId::GlueForm) == m.raw_count_of(ClassId::GlueForm));
    assert(m.count_of(ClassId::MultiplyColor) == m.raw_count_of(ClassId::MultiplyColor));
    assert(m.count_of(ClassId::ScreenColor) == m.raw_count_of(ClassId::ScreenColor));
    assert(m.count_of(ClassId::BlendParamMap) == m.raw_count_of(ClassId::BlendParamMap));
    assert(m.count_of(ClassId::BlendFormMap) == m.raw_count_of(ClassId::BlendFormMap));
    assert(m.count_of(ClassId::WarpBlendFormMaps) == m.raw_count_of(ClassId::WarpBlendFormMaps));
    assert(m.count_of(ClassId::ArtMeshBlendFormMaps) == m.raw_count_of(ClassId::ArtMeshBlendFormMaps));
    assert(m.count_of(ClassId::BlendWeightLimitRef) == m.raw_count_of(ClassId::BlendWeightLimitRef));
    assert(m.count_of(ClassId::BlendWeightLimit) == m.raw_count_of(ClassId::BlendWeightLimit));
    assert(m.count_of(ClassId::BlendWeightLimitPoint) == m.raw_count_of(ClassId::BlendWeightLimitPoint));
    assert(m.count_of(ClassId::PartBlendFormMaps) == m.raw_count_of(ClassId::PartBlendFormMaps));
    assert(m.count_of(ClassId::RotBlendFormMaps) == m.raw_count_of(ClassId::RotBlendFormMaps));
    assert(m.count_of(ClassId::GlueBlendFormMaps) == m.raw_count_of(ClassId::GlueBlendFormMaps));
    assert(m.count_of(ClassId::OffscreenPart) == m.raw_count_of(ClassId::OffscreenPart));
    assert(m.count_of(ClassId::OffscreenPartForm) == m.raw_count_of(ClassId::OffscreenPartForm));
    assert(m.count_of(ClassId::OffscreenPartBlendFormMaps) == m.raw_count_of(ClassId::OffscreenPartBlendFormMaps));
}

impl ParsedModel {
    /// The model has passed validation: its columns are consistent, views reach every
    /// declared object, every index lands inside the array it refers to, and every
    /// object passes the consistency check of its class.
    pub open spec fn validated(&self) -> bool {
        &&& self.columns_ok()
        &&& counts_open(self)
        &&& refs_ok(self)
        &&& objects_ok(self)
    }

    /// Validates a freshly loaded model: first every index of every class, then, with the
    /// objects opened to views, the consistency check of every object.
    pub fn validate(&mut self) -> (r: Result<(), ParseError>)
        requires
            old(self).columns_ok(),
        ensures
            final(self).same_columns(&*old(self)),
            forall|c: ClassId| #[trigger] final(self).raw_count_of(c) == old(self).raw_count_of(c),
            refs_ok(&*old(self)) ==> counts_open(&*final(self)),
            !refs_ok(&*old(self)) ==> forall|c: ClassId| #[trigger] final(self).count_of(c) == old(self).count_of(c),
            r is Ok <==> final(self).validated(),
            r matches Err(e) ==> (e is InvalidReference <==> !refs_ok(&*old(self))),
            r matches Err(e) ==> (e is InvalidReference || e is ValidationError),
            r matches Err(e) ==> (e is InvalidReference ==> ref_failure(&*old(self), e)),
            r matches Err(e) ==> (e is ValidationError ==> object_failure(&*final(self), e)),
    {
        proof {
            lemma_frame(&*self, &*self);
        }
        match check_refs(self) {
            Ok(()) => {},
            Err(e) => {
                return Err(e);
            },
        }
        let ghost before = *self;
        self.open_counts();
        proof {
            lemma_frame(&before, &*self);
            lemma_open_wf(&*self);
            assert(self.count_of(ClassId::Part) == self.raw_count_of(ClassId::Part));
        }
        check_objects(self)
    }
}

} // verus!
