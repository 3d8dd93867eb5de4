use vstd::prelude::*;
use crate::classes::{BlendMode, DeformerType, DrawItemType};
use crate::error::ParseError;
use crate::model::{
    ArtMeshView, DeformerView, DrawItemView, GlueView, OffscreenPartView, ParamView, ParsedModel,
    PartView, ScreenColorView,
};
use crate::refs::offscreen_part_refs_ok;
use crate::types::{opt_idx_get, Idx, ObjectView, U32Pair};

verus! {

/// The low two bits of a render configuration name a simple blend mode, and no bit above
/// the low four is set.
pub open spec fn render_config_ok(rc: u8) -> bool {
    &&& (rc >> 4u8) == 0
    &&& BlendMode::spec_from_repr(rc & 3u8) is Some
}

/// The consistency check of `Part` object `i`: its header is zero.
pub open spec fn part_ok(m: &ParsedModel, i: int) -> bool {
    m.part.hdr@[i] == U32Pair(0, 0)
}

/// The consistency check of `Deformer` object `i`: its header is zero, and its typed
/// index is at most the number of deformers of its type.
pub open spec fn deformer_ok(m: &ParsedModel, i: int) -> bool {
    &&& m.deformer.hdr@[i] == U32Pair(0, 0)
    &&& match m.deformer.deformer_type@[i] {
        DeformerType::Warp => m.deformer.i_typed@[i] <= m.warp_deformer.count,
        DeformerType::Rotation => m.deformer.i_typed@[i] <= m.rot_deformer.count,
    }
}

/// The consistency check of `ArtMesh` object `i`: its header is zero and its render
/// configuration is well formed.
pub open spec fn art_mesh_ok(m: &ParsedModel, i: int) -> bool {
    &&& m.art_mesh.hdr@[i] == U32Pair(0, 0)
    &&& render_config_ok(m.art_mesh.render_config@[i])
}

/// The consistency check of `Param` object `i`: its header is zero.
pub open spec fn param_ok(m: &ParsedModel, i: int) -> bool {
    m.param.hdr@[i] == U32Pair(0, 0)
}

/// The consistency check of `DrawItem` object `i`: its child exists, and exactly the
/// items that draw a part name a draw group.
pub open spec fn draw_item_ok(m: &ParsedModel, i: int) -> bool {
    match m.draw_item.item_type@[i] {
        DrawItemType::ArtMesh => {
            &&& m.draw_item.i_child@[i] < m.art_mesh.count
            &&& opt_idx_get(m.draw_item.i_draw_group@[i].0) is None
        },
        DrawItemType::Part => {
            &&& m.draw_item.i_child@[i] < m.part.count
            &&& opt_idx_get(m.draw_item.i_draw_group@[i].0) is Some
        },
    }
}

/// The consistency check of `Glue` object `i`: its header is zero and its coordinates
/// come in pairs.
pub open spec fn glue_ok(m: &ParsedModel, i: int) -> bool {
    &&& m.glue.hdr@[i] == U32Pair(0, 0)
    &&& m.glue.cnt_coords@[i] % 2 == 0
}

/// The consistency check of `ScreenColor` object `i`: every component is finite.
pub open spec fn screen_color_ok(m: &ParsedModel, i: int) -> bool {
    &&& m.screen_color.r@[i].spec_is_finite()
    &&& m.screen_color.g@[i].spec_is_finite()
    &&& m.screen_color.b@[i].spec_is_finite()
}

/// The consistency check of `OffscreenPart` object `i`: its part points back at it, its
/// reserved word is zero, its render configuration is well formed, and the blend mode of
/// the render configuration agrees with its blend configuration (a simple mode is
/// repeated, any other is recorded as normal).
pub open spec fn offscreen_part_ok(m: &ParsedModel, i: int) -> bool {
    let rc = m.offscreen_part.render_config@[i];
    let color = m.offscreen_part.blend_config@[i].color.spec_repr();
    &&& m.part.i_offscreen_part@[m.offscreen_part.i_part@[i].0 as int].0 == i as i32
    &&& m.offscreen_part.unk_zeros@[i] == 0
    &&& render_config_ok(rc)
    &&& if color <= 2 {
        rc & 3u8 == color
    } else {
        rc & 3u8 == 0
    }
}

/// The text of the failing check of a render configuration: its high bits, else its
/// blend mode.
pub open spec fn render_config_failure(rc: u8) -> Seq<char> {
    if (rc >> 4u8) != 0 {
        "(self.f_render_config() >> 4) == 0"@
    } else {
        "BlendMode::from_repr(self.f_render_config() & 3).is_some()"@
    }
}

/// The text of the first check that `Part` object `i` fails.
pub open spec fn part_failure(m: &ParsedModel, i: int) -> Seq<char> {
    "*self.f_hdr() == U32Pair(0, 0)"@
}

/// The text of the first check that `Deformer` object `i` fails.
pub open spec fn deformer_failure(m: &ParsedModel, i: int) -> Seq<char> {
    if m.deformer.hdr@[i] != U32Pair(0, 0) {
        "*self.f_hdr() == U32Pair(0, 0)"@
    } else {
        match m.deformer.deformer_type@[i] {
            DeformerType::Warp => "*self.f_i_typed() as usize <= self.model.warp_deformer.count"@,
            DeformerType::Rotation => "*self.f_i_typed() as usize <= self.model.rot_deformer.count"@,
        }
    }
}

/// The text of the first check that `ArtMesh` object `i` fails.
pub open spec fn art_mesh_failure(m: &ParsedModel, i: int) -> Seq<char> {
    if m.art_mesh.hdr@[i] != U32Pair(0, 0) {
        "*self.f_hdr() == U32Pair(0, 0)"@
    } else {
        render_config_failure(m.art_mesh.render_config@[i])
    }
}

/// The text of the first check that `Param` object `i` fails.
pub open spec fn param_failure(m: &ParsedModel, i: int) -> Seq<char> {
    "*self.f_hdr() == U32Pair(0, 0)"@
}

/// The text of the first check that `DrawItem` object `i` fails.
pub open spec fn draw_item_failure(m: &ParsedModel, i: int) -> Seq<char> {
    match m.draw_item.item_type@[i] {
        DrawItemType::ArtMesh => if !(m.draw_item.i_child@[i] < m.art_mesh.count) {
            "(*self.f_i_child() as usize) < self.model.art_mesh.count"@
        } else {
            "self.i_draw_group().get().is_none()"@
        },
        DrawItemType::Part => if !(m.draw_item.i_child@[i] < m.part.count) {
            "(*self.f_i_child() as usize) < self.model.part.count"@
        } else {
            "self.i_draw_group().get().is_some()"@
        },
    }
}

/// The text of the first check that `Glue` object `i` fails.
pub open spec fn glue_failure(m: &ParsedModel, i: int) -> Seq<char> {
    if m.glue.hdr@[i] != U32Pair(0, 0) {
        "*self.f_hdr() == U32Pair(0, 0)"@
    } else {
        "self.cnt_coords().is_multiple_of(2)"@
    }
}

/// The text of the first check that `ScreenColor` object `i` fails.
pub open spec fn screen_color_failure(m: &ParsedModel, i: int) -> Seq<char> {
    if !m.screen_color.r@[i].spec_is_finite() {
        "self.f_r().is_finite()"@
    } else if !m.screen_color.g@[i].spec_is_finite() {
        "self.f_g().is_finite()"@
    } else {
        "self.f_b().is_finite()"@
    }
}

/// The text of the first check that `OffscreenPart` object `i` fails.
pub open spec fn offscreen_part_failure(m: &ParsedModel, i: int) -> Seq<char> {
    let rc = m.offscreen_part.render_config@[i];
    if m.part.i_offscreen_part@[m.offscreen_part.i_part@[i].0 as int].0 != i as i32 {
        "self.part_view().i_offscreen_part().0 == self.idx as i32"@
    } else if m.offscreen_part.unk_zeros@[i] != 0 {
        "*self.f_unk_zeros() == 0"@
    } else if !render_config_ok(rc) {
        render_config_failure(rc)
    } else if m.offscreen_part.blend_config@[i].color.spec_repr() <= 2 {
        "self.f_render_config() & 3 == self.f_blend_config().color as u8"@
    } else {
        "self.f_render_config() & 3 == BlendMode::Normal as u8"@
    }
}

pub(crate) fn validation_error(class: &'static str, idx: u32, check: &str) -> (r: ParseError)
    ensures
        r matches ParseError::ValidationError(c, i, text) && c == class && i == idx && text@ == check@,
{
    ParseError::ValidationError(class, idx, check.to_owned())
}

fn render_config_check(class: &'static str, idx: u32, rc: u8) -> (r: Result<(), ParseError>)
    ensures
        r is Ok <==> render_config_ok(rc),
        r matches Err(e) ==> (e matches ParseError::ValidationError(c, i, t) && c == class && i == idx
            && t@ == render_config_failure(rc)),
{
    if !((rc >> 4) == 0) {
        return Err(validation_error(class, idx, "(self.f_render_config() >> 4) == 0"));
    }
    if !(BlendMode::from_repr(rc & 3).is_some()) {
        return Err(validation_error(class, idx, "BlendMode::from_repr(self.f_render_config() & 3).is_some()"));
    }
    Ok(())
}

impl<'model> PartView<'model> {
    /// Runs the consistency check of this part.
    pub fn validate(&self) -> (r: Result<(), ParseError>)
        requires
            self.valid(),
        ensures
            r is Ok <==> part_ok(self.model, self.idx as int),
            r matches Err(e) ==> (e matches ParseError::ValidationError(c, i, t) && c == "Part" && i == self.idx
                && t@ == part_failure(self.model, self.idx as int)),
    {
        if !(*self.f_hdr() == U32Pair(0, 0)) {
            return Err(validation_error("Part", self.idx, "*self.f_hdr() == U32Pair(0, 0)"));
        }
        Ok(())
    }
}

impl<'model> DeformerView<'model> {
    /// Runs the consistency check of this deformer.
    pub fn validate(&self) -> (r: Result<(), ParseError>)
        requires
            self.valid(),
        ensures
            r is Ok <==> deformer_ok(self.model, self.idx as int),
            r matches Err(e) ==> (e matches ParseError::ValidationError(c, i, t) && c == "Deformer" && i == self.idx
                && t@ == deformer_failure(self.model, self.idx as int)),
    {
        if !(*self.f_hdr() == U32Pair(0, 0)) {
            return Err(validation_error("Deformer", self.idx, "*self.f_hdr() == U32Pair(0, 0)"));
        }
        match self.f_deformer_type() {
            DeformerType::Warp => {
                if !(*self.f_i_typed() as usize <= self.model.warp_deformer.count) {
                    return Err(validation_error(
                        "Deformer",
                        self.idx,
                        "*self.f_i_typed() as usize <= self.model.warp_deformer.count",
                    ));
                }
            },
            DeformerType::Rotation => {
                if !(*self.f_i_typed() as usize <= self.model.rot_deformer.count) {
                    return Err(validation_error(
                        "Deformer",
                        self.idx,
                        "*self.f_i_typed() as usize <= self.model.rot_deformer.count",
                    ));
                }
            },
        }
        Ok(())
    }
}

impl<'model> ArtMeshView<'model> {
    /// Runs the consistency check of this art mesh.
    pub fn validate(&self) -> (r: Result<(), ParseError>)
        requires
            self.valid(),
        ensures
            r is Ok <==> art_mesh_ok(self.model, self.idx as int),
            r matches Err(e) ==> (e matches ParseError::ValidationError(c, i, t) && c == "ArtMesh" && i == self.idx
                && t@ == art_mesh_failure(self.model, self.idx as int)),
    {
        if !(*self.f_hdr() == U32Pair(0, 0)) {
            return Err(validation_error("ArtMesh", self.idx, "*self.f_hdr() == U32Pair(0, 0)"));
        }
        render_config_check("ArtMesh", self.idx, *self.f_render_config())
    }
}

impl<'model> ParamView<'model> {
    /// Runs the consistency check of this parameter.
    pub fn validate(&self) -> (r: Result<(), ParseError>)
        requires
            self.valid(),
        ensures
            r is Ok <==> param_ok(self.model, self.idx as int),
            r matches Err(e) ==> (e matches ParseError::ValidationError(c, i, t) && c == "Param" && i == self.idx
                && t@ == param_failure(self.model, self.idx as int)),
    {
        if !(*self.f_hdr() == U32Pair(0, 0)) {
            return Err(validation_error("Param", self.idx, "*self.f_hdr() == U32Pair(0, 0)"));
        }
        Ok(())
    }
}

impl<'model> DrawItemView<'model> {
    /// Runs the consistency check of this draw item.
    pub fn validate(&self) -> (r: Result<(), ParseError>)
        requires
            self.valid(),
        ensures
            r is Ok <==> draw_item_ok(self.model, self.idx as int),
            r matches Err(e) ==> (e matches ParseError::ValidationError(c, i, t) && c == "DrawItem" && i == self.idx
                && t@ == draw_item_failure(self.model, self.idx as int)),
    {
        match self.f_item_type() {
            DrawItemType::ArtMesh => {
                if !((*self.f_i_child() as usize) < self.model.art_mesh.count) {
                    return Err(validation_error(
                        "DrawItem",
                        self.idx,
                        "(*self.f_i_child() as usize) < self.model.art_mesh.count",
                    ));
                }
                if !(self.i_draw_group().to_index().is_none()) {
                    return Err(validation_error("DrawItem", self.idx, "self.i_draw_group().get().is_none()"));
                }
            },
            DrawItemType::Part => {
                if !((*self.f_i_child() as usize) < self.model.part.count) {
                    return Err(validation_error(
                        "DrawItem",
                        self.idx,
                        "(*self.f_i_child() as usize) < self.model.part.count",
                    ));
                }
                if !(self.i_draw_group().to_index().is_some()) {
                    return Err(validation_error("DrawItem", self.idx, "self.i_draw_group().get().is_some()"));
                }
            },
        }
        Ok(())
    }
}

impl<'model> GlueView<'model> {
    /// Runs the consistency check of this glue.
    pub fn validate(&self) -> (r: Result<(), ParseError>)
        requires
            self.valid(),
        ensures
            r is Ok <==> glue_ok(self.model, self.idx as int),
            r matches Err(e) ==> (e matches ParseError::ValidationError(c, i, t) && c == "Glue" && i == self.idx
                && t@ == glue_failure(self.model, self.idx as int)),
    {
        if !(*self.f_hdr() == U32Pair(0, 0)) {
            return Err(validation_error("Glue", self.idx, "*self.f_hdr() == U32Pair(0, 0)"));
        }
        if !(self.cnt_coords() % 2 == 0) {
            return Err(validation_error("Glue", self.idx, "self.cnt_coords().is_multiple_of(2)"));
        }
        Ok(())
    }
}

impl<'model> ScreenColorView<'model> {
    /// Runs the consistency check of this screen color.
    pub fn validate(&self) -> (r: Result<(), ParseError>)
        requires
            self.valid(),
        ensures
            r is Ok <==> screen_color_ok(self.model, self.idx as int),
            r matches Err(e) ==> (e matches ParseError::ValidationError(c, i, t) && c == "ScreenColor" && i == self.idx
                && t@ == screen_color_failure(self.model, self.idx as int)),
    {
        if !self.f_r().is_finite() {
            return Err(validation_error("ScreenColor", self.idx, "self.f_r().is_finite()"));
        }
        if !self.f_g().is_finite() {
            return Err(validation_error("ScreenColor", self.idx, "self.f_g().is_finite()"));
        }
        if !self.f_b().is_finite() {
            return Err(validation_error("ScreenColor", self.idx, "self.f_b().is_finite()"));
        }
        Ok(())
    }
}

impl<'model> OffscreenPartView<'model> {
    /// Runs the consistency check of this offscreen part.
    pub fn validate(&self) -> (r: Result<(), ParseError>)
        requires
            self.valid(),
            self.model.part.wf(),
            self.model.part.count == self.model.part.raw_count,
            offscreen_part_refs_ok(self.model),
        ensures
            r is Ok <==> offscreen_part_ok(self.model, self.idx as int),
            r matches Err(e) ==> (e matches ParseError::ValidationError(c, i, t) && c == "OffscreenPart" && i == self.idx
                && t@ == offscreen_part_failure(self.model, self.idx as int)),
    {
        proof {
            assert(crate::refs::offscreen_part_refs_ok_at(self.model, self.idx as int));
        }
        let part = self.part_view();
        if !(part.i_offscreen_part().0 == #[verifier::truncate] (self.idx as i32)) {
            return Err(validation_error(
                "OffscreenPart",
                self.idx,
                "self.part_view().i_offscreen_part().0 == self.idx as i32",
            ));
        }
        if !(*self.f_unk_zeros() == 0) {
            return Err(validation_error("OffscreenPart", self.idx, "*self.f_unk_zeros() == 0"));
        }
        let rc = *self.f_render_config();
        match render_config_check("OffscreenPart", self.idx, rc) {
            Ok(()) => {},
            Err(e) => {
                return Err(e);
            },
        }
        let color = self.f_blend_config().color.repr();
        if color <= 2 {
            if !(rc & 3 == color) {
                return Err(validation_error(
                    "OffscreenPart",
                    self.idx,
                    "self.f_render_config() & 3 == self.f_blend_config().color as u8",
                ));
            }
        } else {
            if !(rc & 3 == 0) {
                return Err(validation_error(
                    "OffscreenPart",
                    self.idx,
                    "self.f_render_config() & 3 == BlendMode::Normal as u8",
                ));
            }
        }
        Ok(())
    }
}

} // verus!
