use vstd::prelude::*;
use crate::error::ParseError;
use crate::model::ParsedModel;
use crate::types::opt_idx_get;

verus! {

/// Every index of `Part` object `i` lands inside the array it refers to.
pub open spec fn part_refs_ok_at(m: &ParsedModel, i: int) -> bool {
    &&& (m.part.i_param_map_set@[i].0 as int) < (m.param_map_set.raw_count as int)
    &&& m.part.i_forms@[i].0 + m.part.cnt_forms@[i] <= m.part_form.raw_count
    &&& (opt_idx_get(m.part.i_parent@[i].0) matches Some(j) ==> (j as int) < (m.part.raw_count as int))
    &&& (opt_idx_get(m.part.i_offscreen_part@[i].0) matches Some(j) ==> (j as int) < (m.offscreen_part.raw_count as int))
    &&& (opt_idx_get(m.part.i_blend_form_maps@[i].0) matches Some(j) ==> (j as int) < (m.part_blend_form_maps.raw_count as int))
}

/// Field `param_map_set` of `Part` object `i` lands inside the array it refers to.
pub open spec fn part_param_map_set_in_range(m: &ParsedModel, i: int) -> bool {
    (m.part.i_param_map_set@[i].0 as int) < (m.param_map_set.raw_count as int)
}

/// Field `forms` of `Part` object `i` lands inside the array it refers to.
pub open spec fn part_forms_in_range(m: &ParsedModel, i: int) -> bool {
    m.part.i_forms@[i].0 + m.part.cnt_forms@[i] <= m.part_form.raw_count
}

/// Field `parent` of `Part` object `i` lands inside the array it refers to.
pub open spec fn part_parent_in_range(m: &ParsedModel, i: int) -> bool {
    (opt_idx_get(m.part.i_parent@[i].0) matches Some(j) ==> (j as int) < (m.part.raw_count as int))
}

/// Field `offscreen_part` of `Part` object `i` lands inside the array it refers to.
pub open spec fn part_offscreen_part_in_range(m: &ParsedModel, i: int) -> bool {
    (opt_idx_get(m.part.i_offscreen_part@[i].0) matches Some(j) ==> (j as int) < (m.offscreen_part.raw_count as int))
}

/// Field `blend_form_maps` of `Part` object `i` lands inside the array it refers to.
pub open spec fn part_blend_form_maps_in_range(m: &ParsedModel, i: int) -> bool {
    (opt_idx_get(m.part.i_blend_form_maps@[i].0) matches Some(j) ==> (j as int) < (m.part_blend_form_maps.raw_count as int))
}

/// The check of the `Part` indices reports field `f` of object `i`: the fields are
/// checked one after the other, each over all objects in order, so `f` is the first
/// field with an index out of range and `i` the first object whose `f` is out of range.
pub open spec fn part_ref_failure(m: &ParsedModel, f: &'static str, i: int) -> bool {
    &&& 0 <= i < m.part.raw_count
    &&& ((f == "Part.param_map_set" && !part_param_map_set_in_range(m, i)
            && (forall|j: int| 0 <= j < i ==> #[trigger] part_param_map_set_in_range(m, j))
        )
        || (f == "Part.forms" && !part_forms_in_range(m, i)
            && (forall|j: int| 0 <= j < i ==> #[trigger] part_forms_in_range(m, j))
            && (forall|j: int| 0 <= j < m.part.raw_count ==> #[trigger] part_param_map_set_in_range(m, j))
        )
        || (f == "Part.parent" && !part_parent_in_range(m, i)
            && (forall|j: int| 0 <= j < i ==> #[trigger] part_parent_in_range(m, j))
            && (forall|j: int| 0 <= j < m.part.raw_count ==> #[trigger] part_param_map_set_in_range(m, j))
            && (forall|j: int| 0 <= j < m.part.raw_count ==> #[trigger] part_forms_in_range(m, j))
        )
        || (f == "Part.offscreen_part" && !part_offscreen_part_in_range(m, i)
            && (forall|j: int| 0 <= j < i ==> #[trigger] part_offscreen_part_in_range(m, j))
            && (forall|j: int| 0 <= j < m.part.raw_count ==> #[trigger] part_param_map_set_in_range(m, j))
            && (forall|j: int| 0 <= j < m.part.raw_count ==> #[trigger] part_forms_in_range(m, j))
            && (forall|j: int| 0 <= j < m.part.raw_count ==> #[trigger] part_parent_in_range(m, j))
        )
        || (f == "Part.blend_form_maps" && !part_blend_form_maps_in_range(m, i)
            && (forall|j: int| 0 <= j < i ==> #[trigger] part_blend_form_maps_in_range(m, j))
            && (forall|j: int| 0 <= j < m.part.raw_count ==> #[trigger] part_param_map_set_in_range(m, j))
            && (forall|j: int| 0 <= j < m.part.raw_count ==> #[trigger] part_forms_in_range(m, j))
            && (forall|j: int| 0 <= j < m.part.raw_count ==> #[trigger] part_parent_in_range(m, j))
            && (forall|j: int| 0 <= j < m.part.raw_count ==> #[trigger] part_offscreen_part_in_range(m, j))
        )
    )
}

/// Every index of every `Part` object lands inside the array it refers to.
pub open spec fn part_refs_ok(m: &ParsedModel) -> bool {
    forall|i: int| 0 <= i < m.part.raw_count ==> #[trigger] part_refs_ok_at(m, i)
}

/// Checks the indices of the `Part` objects field by field, each field over all
/// objects in order; the first one out of range is reported.
pub fn check_part_refs(m: &ParsedModel) -> (r: Result<(), ParseError>)
    requires
        m.part.columns_ok(),
    ensures
        r is Ok <==> part_refs_ok(m),
        r matches Err(e) ==> (e matches ParseError::InvalidReference(f, i) && part_ref_failure(m, f, i as int)),
{
    let n = m.part.raw_count;
    let mut i: usize = 0;
    while i < n
        invariant
            m.part.columns_ok(),
            n == m.part.raw_count,
            i <= n,
            forall|j: int| 0 <= j < i ==> #[trigger] part_param_map_set_in_range(m, j),
        decreases n - i,
    {
        if !((m.part.i_param_map_set[i].0 as usize) < m.param_map_set.raw_count) {
            assert(!part_param_map_set_in_range(m, i as int));
            assert(!part_refs_ok_at(m, i as int));
            return Err(ParseError::InvalidReference("Part.param_map_set", i));
        }
        i = i + 1;
    }
    let mut i: usize = 0;
    while i < n
        invariant
            m.part.columns_ok(),
            n == m.part.raw_count,
            i <= n,
            forall|j: int| 0 <= j < n ==> #[trigger] part_param_map_set_in_range(m, j),
            forall|j: int| 0 <= j < i ==> #[trigger] part_forms_in_range(m, j),
        decreases n - i,
    {
        if !((m.part.i_forms[i].0 as u64) + (m.part.cnt_forms[i] as u64) <= (m.part_form.raw_count as u64)) {
            assert(!part_forms_in_range(m, i as int));
            assert(!part_refs_ok_at(m, i as int));
            return Err(ParseError::InvalidReference("Part.forms", i));
        }
        i = i + 1;
    }
    let mut i: usize = 0;
    while i < n
        invariant
            m.part.columns_ok(),
            n == m.part.raw_count,
            i <= n,
            forall|j: int| 0 <= j < n ==> #[trigger] part_param_map_set_in_range(m, j),
            forall|j: int| 0 <= j < n ==> #[trigger] part_forms_in_range(m, j),
            forall|j: int| 0 <= j < i ==> #[trigger] part_parent_in_range(m, j),
        decreases n - i,
    {
        let ok = match m.part.i_parent[i].to_index() {
            Some(x) => (x.0 as usize) < m.part.raw_count,
            None => true,
        };
        if !ok {
            assert(!part_parent_in_range(m, i as int));
            assert(!part_refs_ok_at(m, i as int));
            return Err(ParseError::InvalidReference("Part.parent", i));
        }
        i = i + 1;
    }
    let mut i: usize = 0;
    while i < n
        invariant
            m.part.columns_ok(),
            n == m.part.raw_count,
            i <= n,
            forall|j: int| 0 <= j < n ==> #[trigger] part_param_map_set_in_range(m, j),
            forall|j: int| 0 <= j < n ==> #[trigger] part_forms_in_range(m, j),
            forall|j: int| 0 <= j < n ==> #[trigger] part_parent_in_range(m, j),
            forall|j: int| 0 <= j < i ==> #[trigger] part_offscreen_part_in_range(m, j),
        decreases n - i,
    {
        let ok = match m.part.i_offscreen_part[i].to_index() {
            Some(x) => (x.0 as usize) < m.offscreen_part.raw_count,
            None => true,
        };
        if !ok {
            assert(!part_offscreen_part_in_range(m, i as int));
            assert(!part_refs_ok_at(m, i as int));
            return Err(ParseError::InvalidReference("Part.offscreen_part", i));
        }
        i = i + 1;
    }
    let mut i: usize = 0;
    while i < n
        invariant
            m.part.columns_ok(),
            n == m.part.raw_count,
            i <= n,
            forall|j: int| 0 <= j < n ==> #[trigger] part_param_map_set_in_range(m, j),
            forall|j: int| 0 <= j < n ==> #[trigger] part_forms_in_range(m, j),
            forall|j: int| 0 <= j < n ==> #[trigger] part_parent_in_range(m, j),
            forall|j: int| 0 <= j < n ==> #[trigger] part_offscreen_part_in_range(m, j),
            forall|j: int| 0 <= j < i ==> #[trigger] part_blend_form_maps_in_range(m, j),
        decreases n - i,
    {
        let ok = match m.part.i_blend_form_maps[i].to_index() {
            Some(x) => (x.0 as usize) < m.part_blend_form_maps.raw_count,
            None => true,
        };
        if !ok {
            assert(!part_blend_form_maps_in_range(m, i as int));
            assert(!part_refs_ok_at(m, i as int));
            return Err(ParseError::InvalidReference("Part.blend_form_maps", i));
        }
        i = i + 1;
    }
    assert forall|i: int| 0 <= i < n implies #[trigger] part_refs_ok_at(m, i) by {
        assert(part_param_map_set_in_range(m, i));
        assert(part_forms_in_range(m, i));
        assert(part_parent_in_range(m, i));
        assert(part_offscreen_part_in_range(m, i));
        assert(part_blend_form_maps_in_range(m, i));
    }
    Ok(())
}

/// Every index of `Deformer` object `i` lands inside the array it refers to.
pub open spec fn deformer_refs_ok_at(m: &ParsedModel, i: int) -> bool {
    &&& (m.deformer.i_param_map_set@[i].0 as int) < (m.param_map_set.raw_count as int)
    &&& (opt_idx_get(m.deformer.i_part@[i].0) matches Some(j) ==> (j as int) < (m.part.raw_count as int))
    &&& (opt_idx_get(m.deformer.i_parent@[i].0) matches Some(j) ==> (j as int) < (m.deformer.raw_count as int))
}

/// Field `param_map_set` of `Deformer` object `i` lands inside the array it refers to.
pub open spec fn deformer_param_map_set_in_range(m: &ParsedModel, i: int) -> bool {
    (m.deformer.i_param_map_set@[i].0 as int) < (m.param_map_set.raw_count as int)
}

/// Field `part` of `Deformer` object `i` lands inside the array it refers to.
pub open spec fn deformer_part_in_range(m: &ParsedModel, i: int) -> bool {
    (opt_idx_get(m.deformer.i_part@[i].0) matches Some(j) ==> (j as int) < (m.part.raw_count as int))
}

/// Field `parent` of `Deformer` object `i` lands inside the array it refers to.
pub open spec fn deformer_parent_in_range(m: &ParsedModel, i: int) -> bool {
    (opt_idx_get(m.deformer.i_parent@[i].0) matches Some(j) ==> (j as int) < (m.deformer.raw_count as int))
}

/// The check of the `Deformer` indices reports field `f` of object `i`: the fields are
/// checked one after the other, each over all objects in order, so `f` is the first
/// field with an index out of range and `i` the first object whose `f` is out of range.
pub open spec fn deformer_ref_failure(m: &ParsedModel, f: &'static str, i: int) -> bool {
    &&& 0 <= i < m.deformer.raw_count
    &&& ((f == "Deformer.param_map_set" && !deformer_param_map_set_in_range(m, i)
            && (forall|j: int| 0 <= j < i ==> #[trigger] deformer_param_map_set_in_range(m, j))
        )
        || (f == "Deformer.part" && !deformer_part_in_range(m, i)
            && (forall|j: int| 0 <= j < i ==> #[trigger] deformer_part_in_range(m, j))
            && (forall|j: int| 0 <= j < m.deformer.raw_count ==> #[trigger] deformer_param_map_set_in_range(m, j))
        )
        || (f == "Deformer.parent" && !deformer_parent_in_range(m, i)
            && (forall|j: int| 0 <= j < i ==> #[trigger] deformer_parent_in_range(m, j))
            && (forall|j: int| 0 <= j < m.deformer.raw_count ==> #[trigger] deformer_param_map_set_in_range(m, j))
            && (forall|j: int| 0 <= j < m.deformer.raw_count ==> #[trigger] deformer_part_in_range(m, j))
        )
    )
}

/// Every index of every `Deformer` object lands inside the array it refers to.
pub open spec fn deformer_refs_ok(m: &ParsedModel) -> bool {
    forall|i: int| 0 <= i < m.deformer.raw_count ==> #[trigger] deformer_refs_ok_at(m, i)
}

/// Checks the indices of the `Deformer` objects field by field, each field over all
/// objects in order; the first one out of range is reported.
pub fn check_deformer_refs(m: &ParsedModel) -> (r: Result<(), ParseError>)
    requires
        m.deformer.columns_ok(),
    ensures
        r is Ok <==> deformer_refs_ok(m),
        r matches Err(e) ==> (e matches ParseError::InvalidReference(f, i) && deformer_ref_failure(m, f, i as int)),
{
    let n = m.deformer.raw_count;
    let mut i: usize = 0;
    while i < n
        invariant
            m.deformer.columns_ok(),
            n == m.deformer.raw_count,
            i <= n,
            forall|j: int| 0 <= j < i ==> #[trigger] deformer_param_map_set_in_range(m, j),
        decreases n - i,
    {
        if !((m.deformer.i_param_map_set[i].0 as usize) < m.param_map_set.raw_count) {
            assert(!deformer_param_map_set_in_range(m, i as int));
            assert(!deformer_refs_ok_at(m, i as int));
            return Err(ParseError::InvalidReference("Deformer.param_map_set", i));
        }
        i = i + 1;
    }
    let mut i: usize = 0;
    while i < n
        invariant
            m.deformer.columns_ok(),
            n == m.deformer.raw_count,
            i <= n,
            forall|j: int| 0 <= j < n ==> #[trigger] deformer_param_map_set_in_range(m, j),
            forall|j: int| 0 <= j < i ==> #[trigger] deformer_part_in_range(m, j),
        decreases n - i,
    {
        let ok = match m.deformer.i_part[i].to_index() {
            Some(x) => (x.0 as usize) < m.part.raw_count,
            None => true,
        };
        if !ok {
            assert(!deformer_part_in_range(m, i as int));
            assert(!deformer_refs_ok_at(m, i as int));
            return Err(ParseError::InvalidReference("Deformer.part", i));
        }
        i = i + 1;
    }
    let mut i: usize = 0;
    while i < n
        invariant
            m.deformer.columns_ok(),
            n == m.deformer.raw_count,
            i <= n,
            forall|j: int| 0 <= j < n ==> #[trigger] deformer_param_map_set_in_range(m, j),
            forall|j: int| 0 <= j < n ==> #[trigger] deformer_part_in_range(m, j),
            forall|j: int| 0 <= j < i ==> #[trigger] deformer_parent_in_range(m, j),
        decreases n - i,
    {
        let ok = match m.deformer.i_parent[i].to_index() {
            Some(x) => (x.0 as usize) < m.deformer.raw_count,
            None => true,
        };
        if !ok {
            assert(!deformer_parent_in_range(m, i as int));
            assert(!deformer_refs_ok_at(m, i as int));
            return Err(ParseError::InvalidReference("Deformer.parent", i));
        }
        i = i + 1;
    }
    assert forall|i: int| 0 <= i < n implies #[trigger] deformer_refs_ok_at(m, i) by {
        assert(deformer_param_map_set_in_range(m, i));
        assert(deformer_part_in_range(m, i));
        assert(deformer_parent_in_range(m, i));
    }
    Ok(())
}

/// Every index of `WarpDeformer` object `i` lands inside the array it refers to.
pub open spec fn warp_deformer_refs_ok_at(m: &ParsedModel, i: int) -> bool {
    &&& (m.warp_deformer.i_param_map_set@[i].0 as int) < (m.param_map_set.raw_count as int)
    &&& m.warp_deformer.i_forms@[i].0 + m.warp_deformer.cnt_forms@[i] <= m.warp_form.raw_count
    &&& (opt_idx_get(m.warp_deformer.i_deformer@[i].0) matches Some(j) ==> (j as int) < (m.deformer.raw_count as int))
    &&& (opt_idx_get(m.warp_deformer.i_blend_form_maps@[i].0) matches Some(j) ==> (j as int) < (m.warp_blend_form_maps.raw_count as int))
}

/// Field `param_map_set` of `WarpDeformer` object `i` lands inside the array it refers to.
pub open spec fn warp_deformer_param_map_set_in_range(m: &ParsedModel, i: int) -> bool {
    (m.warp_deformer.i_param_map_set@[i].0 as int) < (m.param_map_set.raw_count as int)
}

/// Field `forms` of `WarpDeformer` object `i` lands inside the array it refers to.
pub open spec fn warp_deformer_forms_in_range(m: &ParsedModel, i: int) -> bool {
    m.warp_deformer.i_forms@[i].0 + m.warp_deformer.cnt_forms@[i] <= m.warp_form.raw_count
}

/// Field `deformer` of `WarpDeformer` object `i` lands inside the array it refers to.
pub open spec fn warp_deformer_deformer_in_range(m: &ParsedModel, i: int) -> bool {
    (opt_idx_get(m.warp_deformer.i_deformer@[i].0) matches Some(j) ==> (j as int) < (m.deformer.raw_count as int))
}

/// Field `blend_form_maps` of `WarpDeformer` object `i` lands inside the array it refers to.
pub open spec fn warp_deformer_blend_form_maps_in_range(m: &ParsedModel, i: int) -> bool {
    (opt_idx_get(m.warp_deformer.i_blend_form_maps@[i].0) matches Some(j) ==> (j as int) < (m.warp_blend_form_maps.raw_count as int))
}

/// The check of the `WarpDeformer` indices reports field `f` of object `i`: the fields are
/// checked one after the other, each over all objects in order, so `f` is the first
/// field with an index out of range and `i` the first object whose `f` is out of range.
pub open spec fn warp_deformer_ref_failure(m: &ParsedModel, f: &'static str, i: int) -> bool {
    &&& 0 <= i < m.warp_deformer.raw_count
    &&& ((f == "WarpDeformer.param_map_set" && !warp_deformer_param_map_set_in_range(m, i)
            && (forall|j: int| 0 <= j < i ==> #[trigger] warp_deformer_param_map_set_in_range(m, j))
        )
        || (f == "WarpDeformer.forms" && !warp_deformer_forms_in_range(m, i)
            && (forall|j: int| 0 <= j < i ==> #[trigger] warp_deformer_forms_in_range(m, j))
            && (forall|j: int| 0 <= j < m.warp_deformer.raw_count ==> #[trigger] warp_deformer_param_map_set_in_range(m, j))
        )
        || (f == "WarpDeformer.deformer" && !warp_deformer_deformer_in_range(m, i)
            && (forall|j: int| 0 <= j < i ==> #[trigger] warp_deformer_deformer_in_range(m, j))
            && (forall|j: int| 0 <= j < m.warp_deformer.raw_count ==> #[trigger] warp_deformer_param_map_set_in_range(m, j))
            && (forall|j: int| 0 <= j < m.warp_deformer.raw_count ==> #[trigger] warp_deformer_forms_in_range(m, j))
        )
        || (f == "WarpDeformer.blend_form_maps" && !warp_deformer_blend_form_maps_in_range(m, i)
            && (forall|j: int| 0 <= j < i ==> #[trigger] warp_deformer_blend_form_maps_in_range(m, j))
            && (forall|j: int| 0 <= j < m.warp_deformer.raw_count ==> #[trigger] warp_deformer_param_map_set_in_range(m, j))
            && (forall|j: int| 0 <= j < m.warp_deformer.raw_count ==> #[trigger] warp_deformer_forms_in_range(m, j))
            && (forall|j: int| 0 <= j < m.warp_deformer.raw_count ==> #[trigger] warp_deformer_deformer_in_range(m, j))
        )
    )
}

/// Every index of every `WarpDeformer` object lands inside the array it refers to.
pub open spec fn warp_deformer_refs_ok(m: &ParsedModel) -> bool {
    forall|i: int| 0 <= i < m.warp_deformer.raw_count ==> #[trigger] warp_deformer_refs_ok_at(m, i)
}

/// Checks the indices of the `WarpDeformer` objects field by field, each field over all
/// objects in order; the first one out of range is reported.
pub fn check_warp_deformer_refs(m: &ParsedModel) -> (r: Result<(), ParseError>)
    requires
        m.warp_deformer.columns_ok(),
    ensures
        r is Ok <==> warp_deformer_refs_ok(m),
        r matches Err(e) ==> (e matches ParseError::InvalidReference(f, i) && warp_deformer_ref_failure(m, f, i as int)),
{
    let n = m.warp_deformer.raw_count;
    let mut i: usize = 0;
    while i < n
        invariant
            m.warp_deformer.columns_ok(),
            n == m.warp_deformer.raw_count,
            i <= n,
            forall|j: int| 0 <= j < i ==> #[trigger] warp_deformer_param_map_set_in_range(m, j),
        decreases n - i,
    {
        if !((m.warp_deformer.i_param_map_set[i].0 as usize) < m.param_map_set.raw_count) {
            assert(!warp_deformer_param_map_set_in_range(m, i as int));
            assert(!warp_deformer_refs_ok_at(m, i as int));
            return Err(ParseError::InvalidReference("WarpDeformer.param_map_set", i));
        }
        i = i + 1;
    }
    let mut i: usize = 0;
    while i < n
        invariant
            m.warp_deformer.columns_ok(),
            n == m.warp_deformer.raw_count,
            i <= n,
            forall|j: int| 0 <= j < n ==> #[trigger] warp_deformer_param_map_set_in_range(m, j),
            forall|j: int| 0 <= j < i ==> #[trigger] warp_deformer_forms_in_range(m, j),
        decreases n - i,
    {
        if !((m.warp_deformer.i_forms[i].0 as u64) + (m.warp_deformer.cnt_forms[i] as u64) <= (m.warp_form.raw_count as u64)) {
            assert(!warp_deformer_forms_in_range(m, i as int));
            assert(!warp_deformer_refs_ok_at(m, i as int));
            return Err(ParseError::InvalidReference("WarpDeformer.forms", i));
        }
        i = i + 1;
    }
    let mut i: usize = 0;
    while i < n
        invariant
            m.warp_deformer.columns_ok(),
            n == m.warp_deformer.raw_count,
            i <= n,
            forall|j: int| 0 <= j < n ==> #[trigger] warp_deformer_param_map_set_in_range(m, j),
            forall|j: int| 0 <= j < n ==> #[trigger] warp_deformer_forms_in_range(m, j),
            forall|j: int| 0 <= j < i ==> #[trigger] warp_deformer_deformer_in_range(m, j),
        decreases n - i,
    {
        let ok = match m.warp_deformer.i_deformer[i].to_index() {
            Some(x) => (x.0 as usize) < m.deformer.raw_count,
            None => true,
        };
        if !ok {
            assert(!warp_deformer_deformer_in_range(m, i as int));
            assert(!warp_deformer_refs_ok_at(m, i as int));
            return Err(ParseError::InvalidReference("WarpDeformer.deformer", i));
        }
        i = i + 1;
    }
    let mut i: usize = 0;
    while i < n
        invariant
            m.warp_deformer.columns_ok(),
            n == m.warp_deformer.raw_count,
            i <= n,
            forall|j: int| 0 <= j < n ==> #[trigger] warp_deformer_param_map_set_in_range(m, j),
            forall|j: int| 0 <= j < n ==> #[trigger] warp_deformer_forms_in_range(m, j),
            forall|j: int| 0 <= j < n ==> #[trigger] warp_deformer_deformer_in_range(m, j),
            forall|j: int| 0 <= j < i ==> #[trigger] warp_deformer_blend_form_maps_in_range(m, j),
        decreases n - i,
    {
        let ok = match m.warp_deformer.i_blend_form_maps[i].to_index() {
            Some(x) => (x.0 as usize) < m.warp_blend_form_maps.raw_count,
            None => true,
        };
        if !ok {
            assert(!warp_deformer_blend_form_maps_in_range(m, i as int));
            assert(!warp_deformer_refs_ok_at(m, i as int));
            return Err(ParseError::InvalidReference("WarpDeformer.blend_form_maps", i));
        }
        i = i + 1;
    }
    assert forall|i: int| 0 <= i < n implies #[trigger] warp_deformer_refs_ok_at(m, i) by {
        assert(warp_deformer_param_map_set_in_range(m, i));
        assert(warp_deformer_forms_in_range(m, i));
        assert(warp_deformer_deformer_in_range(m, i));
        assert(warp_deformer_blend_form_maps_in_range(m, i));
    }
    Ok(())
}

/// Every index of `RotDeformer` object `i` lands inside the array it refers to.
pub open spec fn rot_deformer_refs_ok_at(m: &ParsedModel, i: int) -> bool {
    &&& (m.rot_deformer.i_param_map_set@[i].0 as int) < (m.param_map_set.raw_count as int)
    &&& m.rot_deformer.i_forms@[i].0 + m.rot_deformer.cnt_forms@[i] <= m.rot_form.raw_count
    &&& (opt_idx_get(m.rot_deformer.i_deformer@[i].0) matches Some(j) ==> (j as int) < (m.deformer.raw_count as int))
    &&& (opt_idx_get(m.rot_deformer.i_blend_form_maps@[i].0) matches Some(j) ==> (j as int) < (m.rot_blend_form_maps.raw_count as int))
}

/// Field `param_map_set` of `RotDeformer` object `i` lands inside the array it refers to.
pub open spec fn rot_deformer_param_map_set_in_range(m: &ParsedModel, i: int) -> bool {
    (m.rot_deformer.i_param_map_set@[i].0 as int) < (m.param_map_set.raw_count as int)
}

/// Field `forms` of `RotDeformer` object `i` lands inside the array it refers to.
pub open spec fn rot_deformer_forms_in_range(m: &ParsedModel, i: int) -> bool {
    m.rot_deformer.i_forms@[i].0 + m.rot_deformer.cnt_forms@[i] <= m.rot_form.raw_count
}

/// Field `deformer` of `RotDeformer` object `i` lands inside the array it refers to.
pub open spec fn rot_deformer_deformer_in_range(m: &ParsedModel, i: int) -> bool {
    (opt_idx_get(m.rot_deformer.i_deformer@[i].0) matches Some(j) ==> (j as int) < (m.deformer.raw_count as int))
}

/// Field `blend_form_maps` of `RotDeformer` object `i` lands inside the array it refers to.
pub open spec fn rot_deformer_blend_form_maps_in_range(m: &ParsedModel, i: int) -> bool {
    (opt_idx_get(m.rot_deformer.i_blend_form_maps@[i].0) matches Some(j) ==> (j as int) < (m.rot_blend_form_maps.raw_count as int))
}

/// The check of the `RotDeformer` indices reports field `f` of object `i`: the fields are
/// checked one after the other, each over all objects in order, so `f` is the first
/// field with an index out of range and `i` the first object whose `f` is out of range.
pub open spec fn rot_deformer_ref_failure(m: &ParsedModel, f: &'static str, i: int) -> bool {
    &&& 0 <= i < m.rot_deformer.raw_count
    &&& ((f == "RotDeformer.param_map_set" && !rot_deformer_param_map_set_in_range(m, i)
            && (forall|j: int| 0 <= j < i ==> #[trigger] rot_deformer_param_map_set_in_range(m, j))
        )
        || (f == "RotDeformer.forms" && !rot_deformer_forms_in_range(m, i)
            && (forall|j: int| 0 <= j < i ==> #[trigger] rot_deformer_forms_in_range(m, j))
            && (forall|j: int| 0 <= j < m.rot_deformer.raw_count ==> #[trigger] rot_deformer_param_map_set_in_range(m, j))
        )
        || (f == "RotDeformer.deformer" && !rot_deformer_deformer_in_range(m, i)
            && (forall|j: int| 0 <= j < i ==> #[trigger] rot_deformer_deformer_in_range(m, j))
            && (forall|j: int| 0 <= j < m.rot_deformer.raw_count ==> #[trigger] rot_deformer_param_map_set_in_range(m, j))
            && (forall|j: int| 0 <= j < m.rot_deformer.raw_count ==> #[trigger] rot_deformer_forms_in_range(m, j))
        )
        || (f == "RotDeformer.blend_form_maps" && !rot_deformer_blend_form_maps_in_range(m, i)
            && (forall|j: int| 0 <= j < i ==> #[trigger] rot_deformer_blend_form_maps_in_range(m, j))
            && (forall|j: int| 0 <= j < m.rot_deformer.raw_count ==> #[trigger] rot_deformer_param_map_set_in_range(m, j))
            && (forall|j: int| 0 <= j < m.rot_deformer.raw_count ==> #[trigger] rot_deformer_forms_in_range(m, j))
            && (forall|j: int| 0 <= j < m.rot_deformer.raw_count ==> #[trigger] rot_deformer_deformer_in_range(m, j))
        )
    )
}

/// Every index of every `RotDeformer` object lands inside the array it refers to.
pub open spec fn rot_deformer_refs_ok(m: &ParsedModel) -> bool {
    forall|i: int| 0 <= i < m.rot_deformer.raw_count ==> #[trigger] rot_deformer_refs_ok_at(m, i)
}

/// Checks the indices of the `RotDeformer` objects field by field, each field over all
/// objects in order; the first one out of range is reported.
pub fn check_rot_deformer_refs(m: &ParsedModel) -> (r: Result<(), ParseError>)
    requires
        m.rot_deformer.columns_ok(),
    ensures
        r is Ok <==> rot_deformer_refs_ok(m),
        r matches Err(e) ==> (e matches ParseError::InvalidReference(f, i) && rot_deformer_ref_failure(m, f, i as int)),
{
    let n = m.rot_deformer.raw_count;
    let mut i: usize = 0;
    while i < n
        invariant
            m.rot_deformer.columns_ok(),
            n == m.rot_deformer.raw_count,
            i <= n,
            forall|j: int| 0 <= j < i ==> #[trigger] rot_deformer_param_map_set_in_range(m, j),
        decreases n - i,
    {
        if !((m.rot_deformer.i_param_map_set[i].0 as usize) < m.param_map_set.raw_count) {
            assert(!rot_deformer_param_map_set_in_range(m, i as int));
            assert(!rot_deformer_refs_ok_at(m, i as int));
            return Err(ParseError::InvalidReference("RotDeformer.param_map_set", i));
        }
        i = i + 1;
    }
    let mut i: usize = 0;
    while i < n
        invariant
            m.rot_deformer.columns_ok(),
            n == m.rot_deformer.raw_count,
            i <= n,
            forall|j: int| 0 <= j < n ==> #[trigger] rot_deformer_param_map_set_in_range(m, j),
            forall|j: int| 0 <= j < i ==> #[trigger] rot_deformer_forms_in_range(m, j),
        decreases n - i,
    {
        if !((m.rot_deformer.i_forms[i].0 as u64) + (m.rot_deformer.cnt_forms[i] as u64) <= (m.rot_form.raw_count as u64)) {
            assert(!rot_deformer_forms_in_range(m, i as int));
            assert(!rot_deformer_refs_ok_at(m, i as int));
            return Err(ParseError::InvalidReference("RotDeformer.forms", i));
        }
        i = i + 1;
    }
    let mut i: usize = 0;
    while i < n
        invariant
            m.rot_deformer.columns_ok(),
            n == m.rot_deformer.raw_count,
            i <= n,
            forall|j: int| 0 <= j < n ==> #[trigger] rot_deformer_param_map_set_in_range(m, j),
            forall|j: int| 0 <= j < n ==> #[trigger] rot_deformer_forms_in_range(m, j),
            forall|j: int| 0 <= j < i ==> #[trigger] rot_deformer_deformer_in_range(m, j),
        decreases n - i,
    {
        let ok = match m.rot_deformer.i_deformer[i].to_index() {
            Some(x) => (x.0 as usize) < m.deformer.raw_count,
            None => true,
        };
        if !ok {
            assert(!rot_deformer_deformer_in_range(m, i as int));
            assert(!rot_deformer_refs_ok_at(m, i as int));
            return Err(ParseError::InvalidReference("RotDeformer.deformer", i));
        }
        i = i + 1;
    }
    let mut i: usize = 0;
    while i < n
        invariant
            m.rot_deformer.columns_ok(),
            n == m.rot_deformer.raw_count,
            i <= n,
            forall|j: int| 0 <= j < n ==> #[trigger] rot_deformer_param_map_set_in_range(m, j),
            forall|j: int| 0 <= j < n ==> #[trigger] rot_deformer_forms_in_range(m, j),
            forall|j: int| 0 <= j < n ==> #[trigger] rot_deformer_deformer_in_range(m, j),
            forall|j: int| 0 <= j < i ==> #[trigger] rot_deformer_blend_form_maps_in_range(m, j),
        decreases n - i,
    {
        let ok = match m.rot_deformer.i_blend_form_maps[i].to_index() {
            Some(x) => (x.0 as usize) < m.rot_blend_form_maps.raw_count,
            None => true,
        };
        if !ok {
            assert(!rot_deformer_blend_form_maps_in_range(m, i as int));
            assert(!rot_deformer_refs_ok_at(m, i as int));
            return Err(ParseError::InvalidReference("RotDeformer.blend_form_maps", i));
        }
        i = i + 1;
    }
    assert forall|i: int| 0 <= i < n implies #[trigger] rot_deformer_refs_ok_at(m, i) by {
        assert(rot_deformer_param_map_set_in_range(m, i));
        assert(rot_deformer_forms_in_range(m, i));
        assert(rot_deformer_deformer_in_range(m, i));
        assert(rot_deformer_blend_form_maps_in_range(m, i));
    }
    Ok(())
}

/// Every index of `ArtMesh` object `i` lands inside the array it refers to.
pub open spec fn art_mesh_refs_ok_at(m: &ParsedModel, i: int) -> bool {
    &&& (m.art_mesh.i_param_map_set@[i].0 as int) < (m.param_map_set.raw_count as int)
    &&& m.art_mesh.i_forms@[i].0 + m.art_mesh.cnt_forms@[i] <= m.art_mesh_form.raw_count
    &&& (opt_idx_get(m.art_mesh.i_part@[i].0) matches Some(j) ==> (j as int) < (m.part.raw_count as int))
    &&& (opt_idx_get(m.art_mesh.i_deformer@[i].0) matches Some(j) ==> (j as int) < (m.deformer.raw_count as int))
    &&& (m.art_mesh.i_texcoord_start@[i].0 as int) < (m.tex_coord.raw_count as int)
    &&& m.art_mesh.i_indices@[i].0 + m.art_mesh.cnt_indices@[i] <= m.vertex_index.raw_count
    &&& m.art_mesh.i_clips@[i].0 + m.art_mesh.cnt_clips@[i] <= m.art_mesh_ref.raw_count
    &&& (opt_idx_get(m.art_mesh.i_blend_form_maps@[i].0) matches Some(j) ==> (j as int) < (m.art_mesh_blend_form_maps.raw_count as int))
}

/// Field `param_map_set` of `ArtMesh` object `i` lands inside the array it refers to.
pub open spec fn art_mesh_param_map_set_in_range(m: &ParsedModel, i: int) -> bool {
    (m.art_mesh.i_param_map_set@[i].0 as int) < (m.param_map_set.raw_count as int)
}

/// Field `forms` of `ArtMesh` object `i` lands inside the array it refers to.
pub open spec fn art_mesh_forms_in_range(m: &ParsedModel, i: int) -> bool {
    m.art_mesh.i_forms@[i].0 + m.art_mesh.cnt_forms@[i] <= m.art_mesh_form.raw_count
}

/// Field `part` of `ArtMesh` object `i` lands inside the array it refers to.
pub open spec fn art_mesh_part_in_range(m: &ParsedModel, i: int) -> bool {
    (opt_idx_get(m.art_mesh.i_part@[i].0) matches Some(j) ==> (j as int) < (m.part.raw_count as int))
}

/// Field `deformer` of `ArtMesh` object `i` lands inside the array it refers to.
pub open spec fn art_mesh_deformer_in_range(m: &ParsedModel, i: int) -> bool {
    (opt_idx_get(m.art_mesh.i_deformer@[i].0) matches Some(j) ==> (j as int) < (m.deformer.raw_count as int))
}

/// Field `texcoord_start` of `ArtMesh` object `i` lands inside the array it refers to.
pub open spec fn art_mesh_texcoord_start_in_range(m: &ParsedModel, i: int) -> bool {
    (m.art_mesh.i_texcoord_start@[i].0 as int) < (m.tex_coord.raw_count as int)
}

/// Field `indices` of `ArtMesh` object `i` lands inside the array it refers to.
pub open spec fn art_mesh_indices_in_range(m: &ParsedModel, i: int) -> bool {
    m.art_mesh.i_indices@[i].0 + m.art_mesh.cnt_indices@[i] <= m.vertex_index.raw_count
}

/// Field `clips` of `ArtMesh` object `i` lands inside the array it refers to.
pub open spec fn art_mesh_clips_in_range(m: &ParsedModel, i: int) -> bool {
    m.art_mesh.i_clips@[i].0 + m.art_mesh.cnt_clips@[i] <= m.art_mesh_ref.raw_count
}

/// Field `blend_form_maps` of `ArtMesh` object `i` lands inside the array it refers to.
pub open spec fn art_mesh_blend_form_maps_in_range(m: &ParsedModel, i: int) -> bool {
    (opt_idx_get(m.art_mesh.i_blend_form_maps@[i].0) matches Some(j) ==> (j as int) < (m.art_mesh_blend_form_maps.raw_count as int))
}

/// The check of the `ArtMesh` indices reports field `f` of object `i`: the fields are
/// checked one after the other, each over all objects in order, so `f` is the first
/// field with an index out of range and `i` the first object whose `f` is out of range.
pub open spec fn art_mesh_ref_failure(m: &ParsedModel, f: &'static str, i: int) -> bool {
    &&& 0 <= i < m.art_mesh.raw_count
    &&& ((f == "ArtMesh.param_map_set" && !art_mesh_param_map_set_in_range(m, i)
            && (forall|j: int| 0 <= j < i ==> #[trigger] art_mesh_param_map_set_in_range(m, j))
        )
        || (f == "ArtMesh.forms" && !art_mesh_forms_in_range(m, i)
            && (forall|j: int| 0 <= j < i ==> #[trigger] art_mesh_forms_in_range(m, j))
            && (forall|j: int| 0 <= j < m.art_mesh.raw_count ==> #[trigger] art_mesh_param_map_set_in_range(m, j))
        )
        || (f == "ArtMesh.part" && !art_mesh_part_in_range(m, i)
            && (forall|j: int| 0 <= j < i ==> #[trigger] art_mesh_part_in_range(m, j))
            && (forall|j: int| 0 <= j < m.art_mesh.raw_count ==> #[trigger] art_mesh_param_map_set_in_range(m, j))
            && (forall|j: int| 0 <= j < m.art_mesh.raw_count ==> #[trigger] art_mesh_forms_in_range(m, j))
        )
        || (f == "ArtMesh.deformer" && !art_mesh_deformer_in_range(m, i)
            && (forall|j: int| 0 <= j < i ==> #[trigger] art_mesh_deformer_in_range(m, j))
            && (forall|j: int| 0 <= j < m.art_mesh.raw_count ==> #[trigger] art_mesh_param_map_set_in_range(m, j))
            && (forall|j: int| 0 <= j < m.art_mesh.raw_count ==> #[trigger] art_mesh_forms_in_range(m, j))
            && (forall|j: int| 0 <= j < m.art_mesh.raw_count ==> #[trigger] art_mesh_part_in_range(m, j))
        )
        || (f == "ArtMesh.texcoord_start" && !art_mesh_texcoord_start_in_range(m, i)
            && (forall|j: int| 0 <= j < i ==> #[trigger] art_mesh_texcoord_start_in_range(m, j))
            && (forall|j: int| 0 <= j < m.art_mesh.raw_count ==> #[trigger] art_mesh_param_map_set_in_range(m, j))
            && (forall|j: int| 0 <= j < m.art_mesh.raw_count ==> #[trigger] art_mesh_forms_in_range(m, j))
            && (forall|j: int| 0 <= j < m.art_mesh.raw_count ==> #[trigger] art_mesh_part_in_range(m, j))
            && (forall|j: int| 0 <= j < m.art_mesh.raw_count ==> #[trigger] art_mesh_deformer_in_range(m, j))
        )
        || (f == "ArtMesh.indices" && !art_mesh_indices_in_range(m, i)
            && (forall|j: int| 0 <= j < i ==> #[trigger] art_mesh_indices_in_range(m, j))
            && (forall|j: int| 0 <= j < m.art_mesh.raw_count ==> #[trigger] art_mesh_param_map_set_in_range(m, j))
            && (forall|j: int| 0 <= j < m.art_mesh.raw_count ==> #[trigger] art_mesh_forms_in_range(m, j))
            && (forall|j: int| 0 <= j < m.art_mesh.raw_count ==> #[trigger] art_mesh_part_in_range(m, j))
            && (forall|j: int| 0 <= j < m.art_mesh.raw_count ==> #[trigger] art_mesh_deformer_in_range(m, j))
            && (forall|j: int| 0 <= j < m.art_mesh.raw_count ==> #[trigger] art_mesh_texcoord_start_in_range(m, j))
        )
        || (f == "ArtMesh.clips" && !art_mesh_clips_in_range(m, i)
            && (forall|j: int| 0 <= j < i ==> #[trigger] art_mesh_clips_in_range(m, j))
            && (forall|j: int| 0 <= j < m.art_mesh.raw_count ==> #[trigger] art_mesh_param_map_set_in_range(m, j))
            && (forall|j: int| 0 <= j < m.art_mesh.raw_count ==> #[trigger] art_mesh_forms_in_range(m, j))
            && (forall|j: int| 0 <= j < m.art_mesh.raw_count ==> #[trigger] art_mesh_part_in_range(m, j))
            && (forall|j: int| 0 <= j < m.art_mesh.raw_count ==> #[trigger] art_mesh_deformer_in_range(m, j))
            && (forall|j: int| 0 <= j < m.art_mesh.raw_count ==> #[trigger] art_mesh_texcoord_start_in_range(m, j))
            && (forall|j: int| 0 <= j < m.art_mesh.raw_count ==> #[trigger] art_mesh_indices_in_range(m, j))
        )
        || (f == "ArtMesh.blend_form_maps" && !art_mesh_blend_form_maps_in_range(m, i)
            && (forall|j: int| 0 <= j < i ==> #[trigger] art_mesh_blend_form_maps_in_range(m, j))
            && (forall|j: int| 0 <= j < m.art_mesh.raw_count ==> #[trigger] art_mesh_param_map_set_in_range(m, j))
            && (forall|j: int| 0 <= j < m.art_mesh.raw_count ==> #[trigger] art_mesh_forms_in_range(m, j))
            && (forall|j: int| 0 <= j < m.art_mesh.raw_count ==> #[trigger] art_mesh_part_in_range(m, j))
            && (forall|j: int| 0 <= j < m.art_mesh.raw_count ==> #[trigger] art_mesh_deformer_in_range(m, j))
            && (forall|j: int| 0 <= j < m.art_mesh.raw_count ==> #[trigger] art_mesh_texcoord_start_in_range(m, j))
            && (forall|j: int| 0 <= j < m.art_mesh.raw_count ==> #[trigger] art_mesh_indices_in_range(m, j))
            && (forall|j: int| 0 <= j < m.art_mesh.raw_count ==> #[trigger] art_mesh_clips_in_range(m, j))
        )
    )
}

/// Every index of every `ArtMesh` object lands inside the array it refers to.
pub open spec fn art_mesh_refs_ok(m: &ParsedModel) -> bool {
    forall|i: int| 0 <= i < m.art_mesh.raw_count ==> #[trigger] art_mesh_refs_ok_at(m, i)
}

/// Checks the indices of the `ArtMesh` objects field by field, each field over all
/// objects in order; the first one out of range is reported.
pub fn check_art_mesh_refs(m: &ParsedModel) -> (r: Result<(), ParseError>)
    requires
        m.art_mesh.columns_ok(),
    ensures
        r is Ok <==> art_mesh_refs_ok(m),
        r matches Err(e) ==> (e matches ParseError::InvalidReference(f, i) && art_mesh_ref_failure(m, f, i as int)),
{
    let n = m.art_mesh.raw_count;
    let mut i: usize = 0;
    while i < n
        invariant
            m.art_mesh.columns_ok(),
            n == m.art_mesh.raw_count,
            i <= n,
            forall|j: int| 0 <= j < i ==> #[trigger] art_mesh_param_map_set_in_range(m, j),
        decreases n - i,
    {
        if !((m.art_mesh.i_param_map_set[i].0 as usize) < m.param_map_set.raw_count) {
            assert(!art_mesh_param_map_set_in_range(m, i as int));
            assert(!art_mesh_refs_ok_at(m, i as int));
            return Err(ParseError::InvalidReference("ArtMesh.param_map_set", i));
        }
        i = i + 1;
    }
    let mut i: usize = 0;
    while i < n
        invariant
            m.art_mesh.columns_ok(),
            n == m.art_mesh.raw_count,
            i <= n,
            forall|j: int| 0 <= j < n ==> #[trigger] art_mesh_param_map_set_in_range(m, j),
            forall|j: int| 0 <= j < i ==> #[trigger] art_mesh_forms_in_range(m, j),
        decreases n - i,
    {
        if !((m.art_mesh.i_forms[i].0 as u64) + (m.art_mesh.cnt_forms[i] as u64) <= (m.art_mesh_form.raw_count as u64)) {
            assert(!art_mesh_forms_in_range(m, i as int));
            assert(!art_mesh_refs_ok_at(m, i as int));
            return Err(ParseError::InvalidReference("ArtMesh.forms", i));
        }
        i = i + 1;
    }
    let mut i: usize = 0;
    while i < n
        invariant
            m.art_mesh.columns_ok(),
            n == m.art_mesh.raw_count,
            i <= n,
            forall|j: int| 0 <= j < n ==> #[trigger] art_mesh_param_map_set_in_range(m, j),
            forall|j: int| 0 <= j < n ==> #[trigger] art_mesh_forms_in_range(m, j),
            forall|j: int| 0 <= j < i ==> #[trigger] art_mesh_part_in_range(m, j),
        decreases n - i,
    {
        let ok = match m.art_mesh.i_part[i].to_index() {
            Some(x) => (x.0 as usize) < m.part.raw_count,
            None => true,
        };
        if !ok {
            assert(!art_mesh_part_in_range(m, i as int));
            assert(!art_mesh_refs_ok_at(m, i as int));
            return Err(ParseError::InvalidReference("ArtMesh.part", i));
        }
        i = i + 1;
    }
    let mut i: usize = 0;
    while i < n
        invariant
            m.art_mesh.columns_ok(),
            n == m.art_mesh.raw_count,
            i <= n,
            forall|j: int| 0 <= j < n ==> #[trigger] art_mesh_param_map_set_in_range(m, j),
            forall|j: int| 0 <= j < n ==> #[trigger] art_mesh_forms_in_range(m, j),
            forall|j: int| 0 <= j < n ==> #[trigger] art_mesh_part_in_range(m, j),
            forall|j: int| 0 <= j < i ==> #[trigger] art_mesh_deformer_in_range(m, j),
        decreases n - i,
    {
        let ok = match m.art_mesh.i_deformer[i].to_index() {
            Some(x) => (x.0 as usize) < m.deformer.raw_count,
            None => true,
        };
        if !ok {
            assert(!art_mesh_deformer_in_range(m, i as int));
            assert(!art_mesh_refs_ok_at(m, i as int));
            return Err(ParseError::InvalidReference("ArtMesh.deformer", i));
        }
        i = i + 1;
    }
    let mut i: usize = 0;
    while i < n
        invariant
            m.art_mesh.columns_ok(),
            n == m.art_mesh.raw_count,
            i <= n,
            forall|j: int| 0 <= j < n ==> #[trigger] art_mesh_param_map_set_in_range(m, j),
            forall|j: int| 0 <= j < n ==> #[trigger] art_mesh_forms_in_range(m, j),
            forall|j: int| 0 <= j < n ==> #[trigger] art_mesh_part_in_range(m, j),
            forall|j: int| 0 <= j < n ==> #[trigger] art_mesh_deformer_in_range(m, j),
            forall|j: int| 0 <= j < i ==> #[trigger] art_mesh_texcoord_start_in_range(m, j),
        decreases n - i,
    {
        if !((m.art_mesh.i_texcoord_start[i].0 as usize) < m.tex_coord.raw_count) {
            assert(!art_mesh_texcoord_start_in_range(m, i as int));
            assert(!art_mesh_refs_ok_at(m, i as int));
            return Err(ParseError::InvalidReference("ArtMesh.texcoord_start", i));
        }
        i = i + 1;
    }
    let mut i: usize = 0;
    while i < n
        invariant
            m.art_mesh.columns_ok(),
            n == m.art_mesh.raw_count,
            i <= n,
            forall|j: int| 0 <= j < n ==> #[trigger] art_mesh_param_map_set_in_range(m, j),
            forall|j: int| 0 <= j < n ==> #[trigger] art_mesh_forms_in_range(m, j),
            forall|j: int| 0 <= j < n ==> #[trigger] art_mesh_part_in_range(m, j),
            forall|j: int| 0 <= j < n ==> #[trigger] art_mesh_deformer_in_range(m, j),
            forall|j: int| 0 <= j < n ==> #[trigger] art_mesh_texcoord_start_in_range(m, j),
            forall|j: int| 0 <= j < i ==> #[trigger] art_mesh_indices_in_range(m, j),
        decreases n - i,
    {
        if !((m.art_mesh.i_indices[i].0 as u64) + (m.art_mesh.cnt_indices[i] as u64) <= (m.vertex_index.raw_count as u64)) {
            assert(!art_mesh_indices_in_range(m, i as int));
            assert(!art_mesh_refs_ok_at(m, i as int));
            return Err(ParseError::InvalidReference("ArtMesh.indices", i));
        }
        i = i + 1;
    }
    let mut i: usize = 0;
    while i < n
        invariant
            m.art_mesh.columns_ok(),
            n == m.art_mesh.raw_count,
            i <= n,
            forall|j: int| 0 <= j < n ==> #[trigger] art_mesh_param_map_set_in_range(m, j),
            forall|j: int| 0 <= j < n ==> #[trigger] art_mesh_forms_in_range(m, j),
            forall|j: int| 0 <= j < n ==> #[trigger] art_mesh_part_in_range(m, j),
            forall|j: int| 0 <= j < n ==> #[trigger] art_mesh_deformer_in_range(m, j),
            forall|j: int| 0 <= j < n ==> #[trigger] art_mesh_texcoord_start_in_range(m, j),
            forall|j: int| 0 <= j < n ==> #[trigger] art_mesh_indices_in_range(m, j),
            forall|j: int| 0 <= j < i ==> #[trigger] art_mesh_clips_in_range(m, j),
        decreases n - i,
    {
        if !((m.art_mesh.i_clips[i].0 as u64) + (m.art_mesh.cnt_clips[i] as u64) <= (m.art_mesh_ref.raw_count as u64)) {
            assert(!art_mesh_clips_in_range(m, i as int));
            assert(!art_mesh_refs_ok_at(m, i as int));
            return Err(ParseError::InvalidReference("ArtMesh.clips", i));
        }
        i = i + 1;
    }
    let mut i: usize = 0;
    while i < n
        invariant
            m.art_mesh.columns_ok(),
            n == m.art_mesh.raw_count,
            i <= n,
            forall|j: int| 0 <= j < n ==> #[trigger] art_mesh_param_map_set_in_range(m, j),
            forall|j: int| 0 <= j < n ==> #[trigger] art_mesh_forms_in_range(m, j),
            forall|j: int| 0 <= j < n ==> #[trigger] art_mesh_part_in_range(m, j),
            forall|j: int| 0 <= j < n ==> #[trigger] art_mesh_deformer_in_range(m, j),
            forall|j: int| 0 <= j < n ==> #[trigger] art_mesh_texcoord_start_in_range(m, j),
            forall|j: int| 0 <= j < n ==> #[trigger] art_mesh_indices_in_range(m, j),
            forall|j: int| 0 <= j < n ==> #[trigger] art_mesh_clips_in_range(m, j),
            forall|j: int| 0 <= j < i ==> #[trigger] art_mesh_blend_form_maps_in_range(m, j),
        decreases n - i,
    {
        let ok = match m.art_mesh.i_blend_form_maps[i].to_index() {
            Some(x) => (x.0 as usize) < m.art_mesh_blend_form_maps.raw_count,
            None => true,
        };
        if !ok {
            assert(!art_mesh_blend_form_maps_in_range(m, i as int));
            assert(!art_mesh_refs_ok_at(m, i as int));
            return Err(ParseError::InvalidReference("ArtMesh.blend_form_maps", i));
        }
        i = i + 1;
    }
    assert forall|i: int| 0 <= i < n implies #[trigger] art_mesh_refs_ok_at(m, i) by {
        assert(art_mesh_param_map_set_in_range(m, i));
        assert(art_mesh_forms_in_range(m, i));
        assert(art_mesh_part_in_range(m, i));
        assert(art_mesh_deformer_in_range(m, i));
        assert(art_mesh_texcoord_start_in_range(m, i));
        assert(art_mesh_indices_in_range(m, i));
        assert(art_mesh_clips_in_range(m, i));
        assert(art_mesh_blend_form_maps_in_range(m, i));
    }
    Ok(())
}

/// Every index of `Param` object `i` lands inside the array it refers to.
pub open spec fn param_refs_ok_at(m: &ParsedModel, i: int) -> bool {
    &&& m.param.i_maps@[i].0 + m.param.cnt_maps@[i] <= m.param_map.raw_count
    &&& m.param.i_keypoints@[i].0 + m.param.cnt_keypoints@[i] <= m.keypoint.raw_count
    &&& m.param.i_blend_maps@[i].0 + m.param.cnt_blend_maps@[i] <= m.blend_param_map.raw_count
}

/// Field `maps` of `Param` object `i` lands inside the array it refers to.
pub open spec fn param_maps_in_range(m: &ParsedModel, i: int) -> bool {
    m.param.i_maps@[i].0 + m.param.cnt_maps@[i] <= m.param_map.raw_count
}

/// Field `keypoints` of `Param` object `i` lands inside the array it refers to.
pub open spec fn param_keypoints_in_range(m: &ParsedModel, i: int) -> bool {
    m.param.i_keypoints@[i].0 + m.param.cnt_keypoints@[i] <= m.keypoint.raw_count
}

/// Field `blend_maps` of `Param` object `i` lands inside the array it refers to.
pub open spec fn param_blend_maps_in_range(m: &ParsedModel, i: int) -> bool {
    m.param.i_blend_maps@[i].0 + m.param.cnt_blend_maps@[i] <= m.blend_param_map.raw_count
}

/// The check of the `Param` indices reports field `f` of object `i`: the fields are
/// checked one after the other, each over all objects in order, so `f` is the first
/// field with an index out of range and `i` the first object whose `f` is out of range.
pub open spec fn param_ref_failure(m: &ParsedModel, f: &'static str, i: int) -> bool {
    &&& 0 <= i < m.param.raw_count
    &&& ((f == "Param.maps" && !param_maps_in_range(m, i)
            && (forall|j: int| 0 <= j < i ==> #[trigger] param_maps_in_range(m, j))
        )
        || (f == "Param.keypoints" && !param_keypoints_in_range(m, i)
            && (forall|j: int| 0 <= j < i ==> #[trigger] param_keypoints_in_range(m, j))
            && (forall|j: int| 0 <= j < m.param.raw_count ==> #[trigger] param_maps_in_range(m, j))
        )
        || (f == "Param.blend_maps" && !param_blend_maps_in_range(m, i)
            && (forall|j: int| 0 <= j < i ==> #[trigger] param_blend_maps_in_range(m, j))
            && (forall|j: int| 0 <= j < m.param.raw_count ==> #[trigger] param_maps_in_range(m, j))
            && (forall|j: int| 0 <= j < m.param.raw_count ==> #[trigger] param_keypoints_in_range(m, j))
        )
    )
}

/// Every index of every `Param` object lands inside the array it refers to.
pub open spec fn param_refs_ok(m: &ParsedModel) -> bool {
    forall|i: int| 0 <= i < m.param.raw_count ==> #[trigger] param_refs_ok_at(m, i)
}

/// Checks the indices of the `Param` objects field by field, each field over all
/// objects in order; the first one out of range is reported.
pub fn check_param_refs(m: &ParsedModel) -> (r: Result<(), ParseError>)
    requires
        m.param.columns_ok(),
    ensures
        r is Ok <==> param_refs_ok(m),
        r matches Err(e) ==> (e matches ParseError::InvalidReference(f, i) && param_ref_failure(m, f, i as int)),
{
    let n = m.param.raw_count;
    let mut i: usize = 0;
    while i < n
        invariant
            m.param.columns_ok(),
            n == m.param.raw_count,
            i <= n,
            forall|j: int| 0 <= j < i ==> #[trigger] param_maps_in_range(m, j),
        decreases n - i,
    {
        if !((m.param.i_maps[i].0 as u64) + (m.param.cnt_maps[i] as u64) <= (m.param_map.raw_count as u64)) {
            assert(!param_maps_in_range(m, i as int));
            assert(!param_refs_ok_at(m, i as int));
            return Err(ParseError::InvalidReference("Param.maps", i));
        }
        i = i + 1;
    }
    let mut i: usize = 0;
    while i < n
        invariant
            m.param.columns_ok(),
            n == m.param.raw_count,
            i <= n,
            forall|j: int| 0 <= j < n ==> #[trigger] param_maps_in_range(m, j),
            forall|j: int| 0 <= j < i ==> #[trigger] param_keypoints_in_range(m, j),
        decreases n - i,
    {
        if !((m.param.i_keypoints[i].0 as u64) + (m.param.cnt_keypoints[i] as u64) <= (m.keypoint.raw_count as u64)) {
            assert(!param_keypoints_in_range(m, i as int));
            assert(!param_refs_ok_at(m, i as int));
            return Err(ParseError::InvalidReference("Param.keypoints", i));
        }
        i = i + 1;
    }
    let mut i: usize = 0;
    while i < n
        invariant
            m.param.columns_ok(),
            n == m.param.raw_count,
            i <= n,
            forall|j: int| 0 <= j < n ==> #[trigger] param_maps_in_range(m, j),
            forall|j: int| 0 <= j < n ==> #[trigger] param_keypoints_in_range(m, j),
            forall|j: int| 0 <= j < i ==> #[trigger] param_blend_maps_in_range(m, j),
        decreases n - i,
    {
        if !((m.param.i_blend_maps[i].0 as u64) + (m.param.cnt_blend_maps[i] as u64) <= (m.blend_param_map.raw_count as u64)) {
            assert(!param_blend_maps_in_range(m, i as int));
            assert(!param_refs_ok_at(m, i as int));
            return Err(ParseError::InvalidReference("Param.blend_maps", i));
        }
        i = i + 1;
    }
    assert forall|i: int| 0 <= i < n implies #[trigger] param_refs_ok_at(m, i) by {
        assert(param_maps_in_range(m, i));
        assert(param_keypoints_in_range(m, i));
        assert(param_blend_maps_in_range(m, i));
    }
    Ok(())
}

/// Every index of `PartForm` object `i` lands inside the array it refers to.
pub open spec fn part_form_refs_ok_at(m: &ParsedModel, i: int) -> bool {
    &&& (opt_idx_get(m.part_form.i_offscreen@[i].0) matches Some(j) ==> (j as int) < (m.offscreen_part_form.raw_count as int))
}

/// Field `offscreen` of `PartForm` object `i` lands inside the array it refers to.
pub open spec fn part_form_offscreen_in_range(m: &ParsedModel, i: int) -> bool {
    (opt_idx_get(m.part_form.i_offscreen@[i].0) matches Some(j) ==> (j as int) < (m.offscreen_part_form.raw_count as int))
}

/// The check of the `PartForm` indices reports field `f` of object `i`: the fields are
/// checked one after the other, each over all objects in order, so `f` is the first
/// field with an index out of range and `i` the first object whose `f` is out of range.
pub open spec fn part_form_ref_failure(m: &ParsedModel, f: &'static str, i: int) -> bool {
    &&& 0 <= i < m.part_form.raw_count
    &&& ((f == "PartForm.offscreen" && !part_form_offscreen_in_range(m, i)
            && (forall|j: int| 0 <= j < i ==> #[trigger] part_form_offscreen_in_range(m, j))
        )
    )
}

/// Every index of every `PartForm` object lands inside the array it refers to.
pub open spec fn part_form_refs_ok(m: &ParsedModel) -> bool {
    forall|i: int| 0 <= i < m.part_form.raw_count ==> #[trigger] part_form_refs_ok_at(m, i)
}

/// Checks the indices of the `PartForm` objects field by field, each field over all
/// objects in order; the first one out of range is reported.
pub fn check_part_form_refs(m: &ParsedModel) -> (r: Result<(), ParseError>)
    requires
        m.part_form.columns_ok(),
    ensures
        r is Ok <==> part_form_refs_ok(m),
        r matches Err(e) ==> (e matches ParseError::InvalidReference(f, i) && part_form_ref_failure(m, f, i as int)),
{
    let n = m.part_form.raw_count;
    let mut i: usize = 0;
    while i < n
        invariant
            m.part_form.columns_ok(),
            n == m.part_form.raw_count,
            i <= n,
            forall|j: int| 0 <= j < i ==> #[trigger] part_form_offscreen_in_range(m, j),
        decreases n - i,
    {
        let ok = match m.part_form.i_offscreen[i].to_index() {
            Some(x) => (x.0 as usize) < m.offscreen_part_form.raw_count,
            None => true,
        };
        if !ok {
            assert(!part_form_offscreen_in_range(m, i as int));
            assert(!part_form_refs_ok_at(m, i as int));
            return Err(ParseError::InvalidReference("PartForm.offscreen", i));
        }
        i = i + 1;
    }
    assert forall|i: int| 0 <= i < n implies #[trigger] part_form_refs_ok_at(m, i) by {
        assert(part_form_offscreen_in_range(m, i));
    }
    Ok(())
}

/// Every index of `WarpForm` object `i` lands inside the array it refers to.
pub open spec fn warp_form_refs_ok_at(m: &ParsedModel, i: int) -> bool {
    &&& (m.warp_form.i_start_vertex@[i].0 as int) < (m.vertex_coord.raw_count as int)
    &&& (m.warp_form.i_multiply_color@[i].0 as int) < (m.multiply_color.raw_count as int)
    &&& (m.warp_form.i_screen_color@[i].0 as int) < (m.screen_color.raw_count as int)
}

/// Field `start_vertex` of `WarpForm` object `i` lands inside the array it refers to.
pub open spec fn warp_form_start_vertex_in_range(m: &ParsedModel, i: int) -> bool {
    (m.warp_form.i_start_vertex@[i].0 as int) < (m.vertex_coord.raw_count as int)
}

/// Field `multiply_color` of `WarpForm` object `i` lands inside the array it refers to.
pub open spec fn warp_form_multiply_color_in_range(m: &ParsedModel, i: int) -> bool {
    (m.warp_form.i_multiply_color@[i].0 as int) < (m.multiply_color.raw_count as int)
}

/// Field `screen_color` of `WarpForm` object `i` lands inside the array it refers to.
pub open spec fn warp_form_screen_color_in_range(m: &ParsedModel, i: int) -> bool {
    (m.warp_form.i_screen_color@[i].0 as int) < (m.screen_color.raw_count as int)
}

/// The check of the `WarpForm` indices reports field `f` of object `i`: the fields are
/// checked one after the other, each over all objects in order, so `f` is the first
/// field with an index out of range and `i` the first object whose `f` is out of range.
pub open spec fn warp_form_ref_failure(m: &ParsedModel, f: &'static str, i: int) -> bool {
    &&& 0 <= i < m.warp_form.raw_count
    &&& ((f == "WarpForm.start_vertex" && !warp_form_start_vertex_in_range(m, i)
            && (forall|j: int| 0 <= j < i ==> #[trigger] warp_form_start_vertex_in_range(m, j))
        )
        || (f == "WarpForm.multiply_color" && !warp_form_multiply_color_in_range(m, i)
            && (forall|j: int| 0 <= j < i ==> #[trigger] warp_form_multiply_color_in_range(m, j))
            && (forall|j: int| 0 <= j < m.warp_form.raw_count ==> #[trigger] warp_form_start_vertex_in_range(m, j))
        )
        || (f == "WarpForm.screen_color" && !warp_form_screen_color_in_range(m, i)
            && (forall|j: int| 0 <= j < i ==> #[trigger] warp_form_screen_color_in_range(m, j))
            && (forall|j: int| 0 <= j < m.warp_form.raw_count ==> #[trigger] warp_form_start_vertex_in_range(m, j))
            && (forall|j: int| 0 <= j < m.warp_form.raw_count ==> #[trigger] warp_form_multiply_color_in_range(m, j))
        )
    )
}

/// Every index of every `WarpForm` object lands inside the array it refers to.
pub open spec fn warp_form_refs_ok(m: &ParsedModel) -> bool {
    forall|i: int| 0 <= i < m.warp_form.raw_count ==> #[trigger] warp_form_refs_ok_at(m, i)
}

/// Checks the indices of the `WarpForm` objects field by field, each field over all
/// objects in order; the first one out of range is reported.
pub fn check_warp_form_refs(m: &ParsedModel) -> (r: Result<(), ParseError>)
    requires
        m.warp_form.columns_ok(),
    ensures
        r is Ok <==> warp_form_refs_ok(m),
        r matches Err(e) ==> (e matches ParseError::InvalidReference(f, i) && warp_form_ref_failure(m, f, i as int)),
{
    let n = m.warp_form.raw_count;
    let mut i: usize = 0;
    while i < n
        invariant
            m.warp_form.columns_ok(),
            n == m.warp_form.raw_count,
            i <= n,
            forall|j: int| 0 <= j < i ==> #[trigger] warp_form_start_vertex_in_range(m, j),
        decreases n - i,
    {
        if !((m.warp_form.i_start_vertex[i].0 as usize) < m.vertex_coord.raw_count) {
            assert(!warp_form_start_vertex_in_range(m, i as int));
            assert(!warp_form_refs_ok_at(m, i as int));
            return Err(ParseError::InvalidReference("WarpForm.start_vertex", i));
        }
        i = i + 1;
    }
    let mut i: usize = 0;
    while i < n
        invariant
            m.warp_form.columns_ok(),
            n == m.warp_form.raw_count,
            i <= n,
            forall|j: int| 0 <= j < n ==> #[trigger] warp_form_start_vertex_in_range(m, j),
            forall|j: int| 0 <= j < i ==> #[trigger] warp_form_multiply_color_in_range(m, j),
        decreases n - i,
    {
        if !((m.warp_form.i_multiply_color[i].0 as usize) < m.multiply_color.raw_count) {
            assert(!warp_form_multiply_color_in_range(m, i as int));
            assert(!warp_form_refs_ok_at(m, i as int));
            return Err(ParseError::InvalidReference("WarpForm.multiply_color", i));
        }
        i = i + 1;
    }
    let mut i: usize = 0;
    while i < n
        invariant
            m.warp_form.columns_ok(),
            n == m.warp_form.raw_count,
            i <= n,
            forall|j: int| 0 <= j < n ==> #[trigger] warp_form_start_vertex_in_range(m, j),
            forall|j: int| 0 <= j < n ==> #[trigger] warp_form_multiply_color_in_range(m, j),
            forall|j: int| 0 <= j < i ==> #[trigger] warp_form_screen_color_in_range(m, j),
        decreases n - i,
    {
        if !((m.warp_form.i_screen_color[i].0 as usize) < m.screen_color.raw_count) {
            assert(!warp_form_screen_color_in_range(m, i as int));
            assert(!warp_form_refs_ok_at(m, i as int));
            return Err(ParseError::InvalidReference("WarpForm.screen_color", i));
        }
        i = i + 1;
    }
    assert forall|i: int| 0 <= i < n implies #[trigger] warp_form_refs_ok_at(m, i) by {
        assert(warp_form_start_vertex_in_range(m, i));
        assert(warp_form_multiply_color_in_range(m, i));
        assert(warp_form_screen_color_in_range(m, i));
    }
    Ok(())
}

/// Every index of `RotForm` object `i` lands inside the array it refers to.
pub open spec fn rot_form_refs_ok_at(m: &ParsedModel, i: int) -> bool {
    &&& (m.rot_form.i_multiply_color@[i].0 as int) < (m.multiply_color.raw_count as int)
    &&& (m.rot_form.i_screen_color@[i].0 as int) < (m.screen_color.raw_count as int)
}

/// Field `multiply_color` of `RotForm` object `i` lands inside the array it refers to.
pub open spec fn rot_form_multiply_color_in_range(m: &ParsedModel, i: int) -> bool {
    (m.rot_form.i_multiply_color@[i].0 as int) < (m.multiply_color.raw_count as int)
}

/// Field `screen_color` of `RotForm` object `i` lands inside the array it refers to.
pub open spec fn rot_form_screen_color_in_range(m: &ParsedModel, i: int) -> bool {
    (m.rot_form.i_screen_color@[i].0 as int) < (m.screen_color.raw_count as int)
}

/// The check of the `RotForm` indices reports field `f` of object `i`: the fields are
/// checked one after the other, each over all objects in order, so `f` is the first
/// field with an index out of range and `i` the first object whose `f` is out of range.
pub open spec fn rot_form_ref_failure(m: &ParsedModel, f: &'static str, i: int) -> bool {
    &&& 0 <= i < m.rot_form.raw_count
    &&& ((f == "RotForm.multiply_color" && !rot_form_multiply_color_in_range(m, i)
            && (forall|j: int| 0 <= j < i ==> #[trigger] rot_form_multiply_color_in_range(m, j))
        )
        || (f == "RotForm.screen_color" && !rot_form_screen_color_in_range(m, i)
            && (forall|j: int| 0 <= j < i ==> #[trigger] rot_form_screen_color_in_range(m, j))
            && (forall|j: int| 0 <= j < m.rot_form.raw_count ==> #[trigger] rot_form_multiply_color_in_range(m, j))
        )
    )
}

/// Every index of every `RotForm` object lands inside the array it refers to.
pub open spec fn rot_form_refs_ok(m: &ParsedModel) -> bool {
    forall|i: int| 0 <= i < m.rot_form.raw_count ==> #[trigger] rot_form_refs_ok_at(m, i)
}

/// Checks the indices of the `RotForm` objects field by field, each field over all
/// objects in order; the first one out of range is reported.
pub fn check_rot_form_refs(m: &ParsedModel) -> (r: Result<(), ParseError>)
    requires
        m.rot_form.columns_ok(),
    ensures
        r is Ok <==> rot_form_refs_ok(m),
        r matches Err(e) ==> (e matches ParseError::InvalidReference(f, i) && rot_form_ref_failure(m, f, i as int)),
{
    let n = m.rot_form.raw_count;
    let mut i: usize = 0;
    while i < n
        invariant
            m.rot_form.columns_ok(),
            n == m.rot_form.raw_count,
            i <= n,
            forall|j: int| 0 <= j < i ==> #[trigger] rot_form_multiply_color_in_range(m, j),
        decreases n - i,
    {
        if !((m.rot_form.i_multiply_color[i].0 as usize) < m.multiply_color.raw_count) {
            assert(!rot_form_multiply_color_in_range(m, i as int));
            assert(!rot_form_refs_ok_at(m, i as int));
            return Err(ParseError::InvalidReference("RotForm.multiply_color", i));
        }
        i = i + 1;
    }
    let mut i: usize = 0;
    while i < n
        invariant
            m.rot_form.columns_ok(),
            n == m.rot_form.raw_count,
            i <= n,
            forall|j: int| 0 <= j < n ==> #[trigger] rot_form_multiply_color_in_range(m, j),
            forall|j: int| 0 <= j < i ==> #[trigger] rot_form_screen_color_in_range(m, j),
        decreases n - i,
    {
        if !((m.rot_form.i_screen_color[i].0 as usize) < m.screen_color.raw_count) {
            assert(!rot_form_screen_color_in_range(m, i as int));
            assert(!rot_form_refs_ok_at(m, i as int));
            return Err(ParseError::InvalidReference("RotForm.screen_color", i));
        }
        i = i + 1;
    }
    assert forall|i: int| 0 <= i < n implies #[trigger] rot_form_refs_ok_at(m, i) by {
        assert(rot_form_multiply_color_in_range(m, i));
        assert(rot_form_screen_color_in_range(m, i));
    }
    Ok(())
}

/// Every index of `ArtMeshForm` object `i` lands inside the array it refers to.
pub open spec fn art_mesh_form_refs_ok_at(m: &ParsedModel, i: int) -> bool {
    &&& (m.art_mesh_form.i_start_vertex@[i].0 as int) < (m.vertex_coord.raw_count as int)
    &&& (m.art_mesh_form.i_multiply_color@[i].0 as int) < (m.multiply_color.raw_count as int)
    &&& (m.art_mesh_form.i_screen_color@[i].0 as int) < (m.screen_color.raw_count as int)
}

/// Field `start_vertex` of `ArtMeshForm` object `i` lands inside the array it refers to.
pub open spec fn art_mesh_form_start_vertex_in_range(m: &ParsedModel, i: int) -> bool {
    (m.art_mesh_form.i_start_vertex@[i].0 as int) < (m.vertex_coord.raw_count as int)
}

/// Field `multiply_color` of `ArtMeshForm` object `i` lands inside the array it refers to.
pub open spec fn art_mesh_form_multiply_color_in_range(m: &ParsedModel, i: int) -> bool {
    (m.art_mesh_form.i_multiply_color@[i].0 as int) < (m.multiply_color.raw_count as int)
}

/// Field `screen_color` of `ArtMeshForm` object `i` lands inside the array it refers to.
pub open spec fn art_mesh_form_screen_color_in_range(m: &ParsedModel, i: int) -> bool {
    (m.art_mesh_form.i_screen_color@[i].0 as int) < (m.screen_color.raw_count as int)
}

/// The check of the `ArtMeshForm` indices reports field `f` of object `i`: the fields are
/// checked one after the other, each over all objects in order, so `f` is the first
/// field with an index out of range and `i` the first object whose `f` is out of range.
pub open spec fn art_mesh_form_ref_failure(m: &ParsedModel, f: &'static str, i: int) -> bool {
    &&& 0 <= i < m.art_mesh_form.raw_count
    &&& ((f == "ArtMeshForm.start_vertex" && !art_mesh_form_start_vertex_in_range(m, i)
            && (forall|j: int| 0 <= j < i ==> #[trigger] art_mesh_form_start_vertex_in_range(m, j))
        )
        || (f == "ArtMeshForm.multiply_color" && !art_mesh_form_multiply_color_in_range(m, i)
            && (forall|j: int| 0 <= j < i ==> #[trigger] art_mesh_form_multiply_color_in_range(m, j))
            && (forall|j: int| 0 <= j < m.art_mesh_form.raw_count ==> #[trigger] art_mesh_form_start_vertex_in_range(m, j))
        )
        || (f == "ArtMeshForm.screen_color" && !art_mesh_form_screen_color_in_range(m, i)
            && (forall|j: int| 0 <= j < i ==> #[trigger] art_mesh_form_screen_color_in_range(m, j))
            && (forall|j: int| 0 <= j < m.art_mesh_form.raw_count ==> #[trigger] art_mesh_form_start_vertex_in_range(m, j))
            && (forall|j: int| 0 <= j < m.art_mesh_form.raw_count ==> #[trigger] art_mesh_form_multiply_color_in_range(m, j))
        )
    )
}

/// Every index of every `ArtMeshForm` object lands inside the array it refers to.
pub open spec fn art_mesh_form_refs_ok(m: &ParsedModel) -> bool {
    forall|i: int| 0 <= i < m.art_mesh_form.raw_count ==> #[trigger] art_mesh_form_refs_ok_at(m, i)
}

/// Checks the indices of the `ArtMeshForm` objects field by field, each field over all
/// objects in order; the first one out of range is reported.
pub fn check_art_mesh_form_refs(m: &ParsedModel) -> (r: Result<(), ParseError>)
    requires
        m.art_mesh_form.columns_ok(),
    ensures
        r is Ok <==> art_mesh_form_refs_ok(m),
        r matches Err(e) ==> (e matches ParseError::InvalidReference(f, i) && art_mesh_form_ref_failure(m, f, i as int)),
{
    let n = m.art_mesh_form.raw_count;
    let mut i: usize = 0;
    while i < n
        invariant
            m.art_mesh_form.columns_ok(),
            n == m.art_mesh_form.raw_count,
            i <= n,
            forall|j: int| 0 <= j < i ==> #[trigger] art_mesh_form_start_vertex_in_range(m, j),
        decreases n - i,
    {
        if !((m.art_mesh_form.i_start_vertex[i].0 as usize) < m.vertex_coord.raw_count) {
            assert(!art_mesh_form_start_vertex_in_range(m, i as int));
            assert(!art_mesh_form_refs_ok_at(m, i as int));
            return Err(ParseError::InvalidReference("ArtMeshForm.start_vertex", i));
        }
        i = i + 1;
    }
    let mut i: usize = 0;
    while i < n
        invariant
            m.art_mesh_form.columns_ok(),
            n == m.art_mesh_form.raw_count,
            i <= n,
            forall|j: int| 0 <= j < n ==> #[trigger] art_mesh_form_start_vertex_in_range(m, j),
            forall|j: int| 0 <= j < i ==> #[trigger] art_mesh_form_multiply_color_in_range(m, j),
        decreases n - i,
    {
        if !((m.art_mesh_form.i_multiply_color[i].0 as usize) < m.multiply_color.raw_count) {
            assert(!art_mesh_form_multiply_color_in_range(m, i as int));
            assert(!art_mesh_form_refs_ok_at(m, i as int));
            return Err(ParseError::InvalidReference("ArtMeshForm.multiply_color", i));
        }
        i = i + 1;
    }
    let mut i: usize = 0;
    while i < n
        invariant
            m.art_mesh_form.columns_ok(),
            n == m.art_mesh_form.raw_count,
            i <= n,
            forall|j: int| 0 <= j < n ==> #[trigger] art_mesh_form_start_vertex_in_range(m, j),
            forall|j: int| 0 <= j < n ==> #[trigger] art_mesh_form_multiply_color_in_range(m, j),
            forall|j: int| 0 <= j < i ==> #[trigger] art_mesh_form_screen_color_in_range(m, j),
        decreases n - i,
    {
        if !((m.art_mesh_form.i_screen_color[i].0 as usize) < m.screen_color.raw_count) {
            assert(!art_mesh_form_screen_color_in_range(m, i as int));
            assert(!art_mesh_form_refs_ok_at(m, i as int));
            return Err(ParseError::InvalidReference("ArtMeshForm.screen_color", i));
        }
        i = i + 1;
    }
    assert forall|i: int| 0 <= i < n implies #[trigger] art_mesh_form_refs_ok_at(m, i) by {
        assert(art_mesh_form_start_vertex_in_range(m, i));
        assert(art_mesh_form_multiply_color_in_range(m, i));
        assert(art_mesh_form_screen_color_in_range(m, i));
    }
    Ok(())
}

/// Every index of `ParamMapRef` object `i` lands inside the array it refers to.
pub open spec fn param_map_ref_refs_ok_at(m: &ParsedModel, i: int) -> bool {
    &&& (m.param_map_ref.i_map@[i].0 as int) < (m.param_map.raw_count as int)
}

/// Field `map` of `ParamMapRef` object `i` lands inside the array it refers to.
pub open spec fn param_map_ref_map_in_range(m: &ParsedModel, i: int) -> bool {
    (m.param_map_ref.i_map@[i].0 as int) < (m.param_map.raw_count as int)
}

/// The check of the `ParamMapRef` indices reports field `f` of object `i`: the fields are
/// checked one after the other, each over all objects in order, so `f` is the first
/// field with an index out of range and `i` the first object whose `f` is out of range.
pub open spec fn param_map_ref_ref_failure(m: &ParsedModel, f: &'static str, i: int) -> bool {
    &&& 0 <= i < m.param_map_ref.raw_count
    &&& ((f == "ParamMapRef.map" && !param_map_ref_map_in_range(m, i)
            && (forall|j: int| 0 <= j < i ==> #[trigger] param_map_ref_map_in_range(m, j))
        )
    )
}

/// Every index of every `ParamMapRef` object lands inside the array it refers to.
pub open spec fn param_map_ref_refs_ok(m: &ParsedModel) -> bool {
    forall|i: int| 0 <= i < m.param_map_ref.raw_count ==> #[trigger] param_map_ref_refs_ok_at(m, i)
}

/// Checks the indices of the `ParamMapRef` objects field by field, each field over all
/// objects in order; the first one out of range is reported.
pub fn check_param_map_ref_refs(m: &ParsedModel) -> (r: Result<(), ParseError>)
    requires
        m.param_map_ref.columns_ok(),
    ensures
        r is Ok <==> param_map_ref_refs_ok(m),
        r matches Err(e) ==> (e matches ParseError::InvalidReference(f, i) && param_map_ref_ref_failure(m, f, i as int)),
{
    let n = m.param_map_ref.raw_count;
    let mut i: usize = 0;
    while i < n
        invariant
            m.param_map_ref.columns_ok(),
            n == m.param_map_ref.raw_count,
            i <= n,
            forall|j: int| 0 <= j < i ==> #[trigger] param_map_ref_map_in_range(m, j),
        decreases n - i,
    {
        if !((m.param_map_ref.i_map[i].0 as usize) < m.param_map.raw_count) {
            assert(!param_map_ref_map_in_range(m, i as int));
            assert(!param_map_ref_refs_ok_at(m, i as int));
            return Err(ParseError::InvalidReference("ParamMapRef.map", i));
        }
        i = i + 1;
    }
    assert forall|i: int| 0 <= i < n implies #[trigger] param_map_ref_refs_ok_at(m, i) by {
        assert(param_map_ref_map_in_range(m, i));
    }
    Ok(())
}

/// Every index of `ParamMapSet` object `i` lands inside the array it refers to.
pub open spec fn param_map_set_refs_ok_at(m: &ParsedModel, i: int) -> bool {
    &&& m.param_map_set.i_refs@[i].0 + m.param_map_set.cnt_refs@[i] <= m.param_map_ref.raw_count
}

/// Field `refs` of `ParamMapSet` object `i` lands inside the array it refers to.
pub open spec fn param_map_set_refs_in_range(m: &ParsedModel, i: int) -> bool {
    m.param_map_set.i_refs@[i].0 + m.param_map_set.cnt_refs@[i] <= m.param_map_ref.raw_count
}

/// The check of the `ParamMapSet` indices reports field `f` of object `i`: the fields are
/// checked one after the other, each over all objects in order, so `f` is the first
/// field with an index out of range and `i` the first object whose `f` is out of range.
pub open spec fn param_map_set_ref_failure(m: &ParsedModel, f: &'static str, i: int) -> bool {
    &&& 0 <= i < m.param_map_set.raw_count
    &&& ((f == "ParamMapSet.refs" && !param_map_set_refs_in_range(m, i)
            && (forall|j: int| 0 <= j < i ==> #[trigger] param_map_set_refs_in_range(m, j))
        )
    )
}

/// Every index of every `ParamMapSet` object lands inside the array it refers to.
pub open spec fn param_map_set_refs_ok(m: &ParsedModel) -> bool {
    forall|i: int| 0 <= i < m.param_map_set.raw_count ==> #[trigger] param_map_set_refs_ok_at(m, i)
}

/// Checks the indices of the `ParamMapSet` objects field by field, each field over all
/// objects in order; the first one out of range is reported.
pub fn check_param_map_set_refs(m: &ParsedModel) -> (r: Result<(), ParseError>)
    requires
        m.param_map_set.columns_ok(),
    ensures
        r is Ok <==> param_map_set_refs_ok(m),
        r matches Err(e) ==> (e matches ParseError::InvalidReference(f, i) && param_map_set_ref_failure(m, f, i as int)),
{
    let n = m.param_map_set.raw_count;
    let mut i: usize = 0;
    while i < n
        invariant
            m.param_map_set.columns_ok(),
            n == m.param_map_set.raw_count,
            i <= n,
            forall|j: int| 0 <= j < i ==> #[trigger] param_map_set_refs_in_range(m, j),
        decreases n - i,
    {
        if !((m.param_map_set.i_refs[i].0 as u64) + (m.param_map_set.cnt_refs[i] as u64) <= (m.param_map_ref.raw_count as u64)) {
            assert(!param_map_set_refs_in_range(m, i as int));
            assert(!param_map_set_refs_ok_at(m, i as int));
            return Err(ParseError::InvalidReference("ParamMapSet.refs", i));
        }
        i = i + 1;
    }
    assert forall|i: int| 0 <= i < n implies #[trigger] param_map_set_refs_ok_at(m, i) by {
        assert(param_map_set_refs_in_range(m, i));
    }
    Ok(())
}

/// Every index of `ParamMap` object `i` lands inside the array it refers to.
pub open spec fn param_map_refs_ok_at(m: &ParsedModel, i: int) -> bool {
    &&& m.param_map.i_keypoints@[i].0 + m.param_map.cnt_keypoints@[i] <= m.keypoint.raw_count
}

/// Field `keypoints` of `ParamMap` object `i` lands inside the array it refers to.
pub open spec fn param_map_keypoints_in_range(m: &ParsedModel, i: int) -> bool {
    m.param_map.i_keypoints@[i].0 + m.param_map.cnt_keypoints@[i] <= m.keypoint.raw_count
}

/// The check of the `ParamMap` indices reports field `f` of object `i`: the fields are
/// checked one after the other, each over all objects in order, so `f` is the first
/// field with an index out of range and `i` the first object whose `f` is out of range.
pub open spec fn param_map_ref_failure(m: &ParsedModel, f: &'static str, i: int) -> bool {
    &&& 0 <= i < m.param_map.raw_count
    &&& ((f == "ParamMap.keypoints" && !param_map_keypoints_in_range(m, i)
            && (forall|j: int| 0 <= j < i ==> #[trigger] param_map_keypoints_in_range(m, j))
        )
    )
}

/// Every index of every `ParamMap` object lands inside the array it refers to.
pub open spec fn param_map_refs_ok(m: &ParsedModel) -> bool {
    forall|i: int| 0 <= i < m.param_map.raw_count ==> #[trigger] param_map_refs_ok_at(m, i)
}

/// Checks the indices of the `ParamMap` objects field by field, each field over all
/// objects in order; the first one out of range is reported.
pub fn check_param_map_refs(m: &ParsedModel) -> (r: Result<(), ParseError>)
    requires
        m.param_map.columns_ok(),
    ensures
        r is Ok <==> param_map_refs_ok(m),
        r matches Err(e) ==> (e matches ParseError::InvalidReference(f, i) && param_map_ref_failure(m, f, i as int)),
{
    let n = m.param_map.raw_count;
    let mut i: usize = 0;
    while i < n
        invariant
            m.param_map.columns_ok(),
            n == m.param_map.raw_count,
            i <= n,
            forall|j: int| 0 <= j < i ==> #[trigger] param_map_keypoints_in_range(m, j),
        decreases n - i,
    {
        if !((m.param_map.i_keypoints[i].0 as u64) + (m.param_map.cnt_keypoints[i] as u64) <= (m.keypoint.raw_count as u64)) {
            assert(!param_map_keypoints_in_range(m, i as int));
            assert(!param_map_refs_ok_at(m, i as int));
            return Err(ParseError::InvalidReference("ParamMap.keypoints", i));
        }
        i = i + 1;
    }
    assert forall|i: int| 0 <= i < n implies #[trigger] param_map_refs_ok_at(m, i) by {
        assert(param_map_keypoints_in_range(m, i));
    }
    Ok(())
}

/// Every index of `ArtMeshRef` object `i` lands inside the array it refers to.
pub open spec fn art_mesh_ref_refs_ok_at(m: &ParsedModel, i: int) -> bool {
    &&& (opt_idx_get(m.art_mesh_ref.i_artmesh@[i].0) matches Some(j) ==> (j as int) < (m.art_mesh.raw_count as int))
}

/// Field `artmesh` of `ArtMeshRef` object `i` lands inside the array it refers to.
pub open spec fn art_mesh_ref_artmesh_in_range(m: &ParsedModel, i: int) -> bool {
    (opt_idx_get(m.art_mesh_ref.i_artmesh@[i].0) matches Some(j) ==> (j as int) < (m.art_mesh.raw_count as int))
}

/// The check of the `ArtMeshRef` indices reports field `f` of object `i`: the fields are
/// checked one after the other, each over all objects in order, so `f` is the first
/// field with an index out of range and `i` the first object whose `f` is out of range.
pub open spec fn art_mesh_ref_ref_failure(m: &ParsedModel, f: &'static str, i: int) -> bool {
    &&& 0 <= i < m.art_mesh_ref.raw_count
    &&& ((f == "ArtMeshRef.artmesh" && !art_mesh_ref_artmesh_in_range(m, i)
            && (forall|j: int| 0 <= j < i ==> #[trigger] art_mesh_ref_artmesh_in_range(m, j))
        )
    )
}

/// Every index of every `ArtMeshRef` object lands inside the array it refers to.
pub open spec fn art_mesh_ref_refs_ok(m: &ParsedModel) -> bool {
    forall|i: int| 0 <= i < m.art_mesh_ref.raw_count ==> #[trigger] art_mesh_ref_refs_ok_at(m, i)
}

/// Checks the indices of the `ArtMeshRef` objects field by field, each field over all
/// objects in order; the first one out of range is reported.
pub fn check_art_mesh_ref_refs(m: &ParsedModel) -> (r: Result<(), ParseError>)
    requires
        m.art_mesh_ref.columns_ok(),
    ensures
        r is Ok <==> art_mesh_ref_refs_ok(m),
        r matches Err(e) ==> (e matches ParseError::InvalidReference(f, i) && art_mesh_ref_ref_failure(m, f, i as int)),
{
    let n = m.art_mesh_ref.raw_count;
    let mut i: usize = 0;
    while i < n
        invariant
            m.art_mesh_ref.columns_ok(),
            n == m.art_mesh_ref.raw_count,
            i <= n,
            forall|j: int| 0 <= j < i ==> #[trigger] art_mesh_ref_artmesh_in_range(m, j),
        decreases n - i,
    {
        let ok = match m.art_mesh_ref.i_artmesh[i].to_index() {
            Some(x) => (x.0 as usize) < m.art_mesh.raw_count,
            None => true,
        };
        if !ok {
            assert(!art_mesh_ref_artmesh_in_range(m, i as int));
            assert(!art_mesh_ref_refs_ok_at(m, i as int));
            return Err(ParseError::InvalidReference("ArtMeshRef.artmesh", i));
        }
        i = i + 1;
    }
    assert forall|i: int| 0 <= i < n implies #[trigger] art_mesh_ref_refs_ok_at(m, i) by {
        assert(art_mesh_ref_artmesh_in_range(m, i));
    }
    Ok(())
}

/// Every index of `DrawGroup` object `i` lands inside the array it refers to.
pub open spec fn draw_group_refs_ok_at(m: &ParsedModel, i: int) -> bool {
    &&& m.draw_group.i_items@[i].0 + m.draw_group.cnt_items@[i] <= m.draw_item.raw_count
}

/// Field `items` of `DrawGroup` object `i` lands inside the array it refers to.
pub open spec fn draw_group_items_in_range(m: &ParsedModel, i: int) -> bool {
    m.draw_group.i_items@[i].0 + m.draw_group.cnt_items@[i] <= m.draw_item.raw_count
}

/// The check of the `DrawGroup` indices reports field `f` of object `i`: the fields are
/// checked one after the other, each over all objects in order, so `f` is the first
/// field with an index out of range and `i` the first object whose `f` is out of range.
pub open spec fn draw_group_ref_failure(m: &ParsedModel, f: &'static str, i: int) -> bool {
    &&& 0 <= i < m.draw_group.raw_count
    &&& ((f == "DrawGroup.items" && !draw_group_items_in_range(m, i)
            && (forall|j: int| 0 <= j < i ==> #[trigger] draw_group_items_in_range(m, j))
        )
    )
}

/// Every index of every `DrawGroup` object lands inside the array it refers to.
pub open spec fn draw_group_refs_ok(m: &ParsedModel) -> bool {
    forall|i: int| 0 <= i < m.draw_group.raw_count ==> #[trigger] draw_group_refs_ok_at(m, i)
}

/// Checks the indices of the `DrawGroup` objects field by field, each field over all
/// objects in order; the first one out of range is reported.
pub fn check_draw_group_refs(m: &ParsedModel) -> (r: Result<(), ParseError>)
    requires
        m.draw_group.columns_ok(),
    ensures
        r is Ok <==> draw_group_refs_ok(m),
        r matches Err(e) ==> (e matches ParseError::InvalidReference(f, i) && draw_group_ref_failure(m, f, i as int)),
{
    let n = m.draw_group.raw_count;
    let mut i: usize = 0;
    while i < n
        invariant
            m.draw_group.columns_ok(),
            n == m.draw_group.raw_count,
            i <= n,
            forall|j: int| 0 <= j < i ==> #[trigger] draw_group_items_in_range(m, j),
        decreases n - i,
    {
        if !((m.draw_group.i_items[i].0 as u64) + (m.draw_group.cnt_items[i] as u64) <= (m.draw_item.raw_count as u64)) {
            assert(!draw_group_items_in_range(m, i as int));
            assert(!draw_group_refs_ok_at(m, i as int));
            return Err(ParseError::InvalidReference("DrawGroup.items", i));
        }
        i = i + 1;
    }
    assert forall|i: int| 0 <= i < n implies #[trigger] draw_group_refs_ok_at(m, i) by {
        assert(draw_group_items_in_range(m, i));
    }
    Ok(())
}

/// Every index of `DrawItem` object `i` lands inside the array it refers to.
pub open spec fn draw_item_refs_ok_at(m: &ParsedModel, i: int) -> bool {
    &&& (opt_idx_get(m.draw_item.i_draw_group@[i].0) matches Some(j) ==> (j as int) < (m.draw_group.raw_count as int))
}

/// Field `draw_group` of `DrawItem` object `i` lands inside the array it refers to.
pub open spec fn draw_item_draw_group_in_range(m: &ParsedModel, i: int) -> bool {
    (opt_idx_get(m.draw_item.i_draw_group@[i].0) matches Some(j) ==> (j as int) < (m.draw_group.raw_count as int))
}

/// The check of the `DrawItem` indices reports field `f` of object `i`: the fields are
/// checked one after the other, each over all objects in order, so `f` is the first
/// field with an index out of range and `i` the first object whose `f` is out of range.
pub open spec fn draw_item_ref_failure(m: &ParsedModel, f: &'static str, i: int) -> bool {
    &&& 0 <= i < m.draw_item.raw_count
    &&& ((f == "DrawItem.draw_group" && !draw_item_draw_group_in_range(m, i)
            && (forall|j: int| 0 <= j < i ==> #[trigger] draw_item_draw_group_in_range(m, j))
        )
    )
}

/// Every index of every `DrawItem` object lands inside the array it refers to.
pub open spec fn draw_item_refs_ok(m: &ParsedModel) -> bool {
    forall|i: int| 0 <= i < m.draw_item.raw_count ==> #[trigger] draw_item_refs_ok_at(m, i)
}

/// Checks the indices of the `DrawItem` objects field by field, each field over all
/// objects in order; the first one out of range is reported.
pub fn check_draw_item_refs(m: &ParsedModel) -> (r: Result<(), ParseError>)
    requires
        m.draw_item.columns_ok(),
    ensures
        r is Ok <==> draw_item_refs_ok(m),
        r matches Err(e) ==> (e matches ParseError::InvalidReference(f, i) && draw_item_ref_failure(m, f, i as int)),
{
    let n = m.draw_item.raw_count;
    let mut i: usize = 0;
    while i < n
        invariant
            m.draw_item.columns_ok(),
            n == m.draw_item.raw_count,
            i <= n,
            forall|j: int| 0 <= j < i ==> #[trigger] draw_item_draw_group_in_range(m, j),
        decreases n - i,
    {
        let ok = match m.draw_item.i_draw_group[i].to_index() {
            Some(x) => (x.0 as usize) < m.draw_group.raw_count,
            None => true,
        };
        if !ok {
            assert(!draw_item_draw_group_in_range(m, i as int));
            assert(!draw_item_refs_ok_at(m, i as int));
            return Err(ParseError::InvalidReference("DrawItem.draw_group", i));
        }
        i = i + 1;
    }
    assert forall|i: int| 0 <= i < n implies #[trigger] draw_item_refs_ok_at(m, i) by {
        assert(draw_item_draw_group_in_range(m, i));
    }
    Ok(())
}

/// Every index of `Glue` object `i` lands inside the array it refers to.
pub open spec fn glue_refs_ok_at(m: &ParsedModel, i: int) -> bool {
    &&& (m.glue.i_param_map_set@[i].0 as int) < (m.param_map_set.raw_count as int)
    &&& m.glue.i_forms@[i].0 + m.glue.cnt_forms@[i] <= m.glue_form.raw_count
    &&& (m.glue.i_artmesh_1@[i].0 as int) < (m.art_mesh.raw_count as int)
    &&& (m.glue.i_artmesh_2@[i].0 as int) < (m.art_mesh.raw_count as int)
    &&& m.glue.i_coords@[i].0 + m.glue.cnt_coords@[i] <= m.glue_coord.raw_count
    &&& (opt_idx_get(m.glue.i_blend_form_maps@[i].0) matches Some(j) ==> (j as int) < (m.glue_blend_form_maps.raw_count as int))
}

/// Field `param_map_set` of `Glue` object `i` lands inside the array it refers to.
pub open spec fn glue_param_map_set_in_range(m: &ParsedModel, i: int) -> bool {
    (m.glue.i_param_map_set@[i].0 as int) < (m.param_map_set.raw_count as int)
}

/// Field `forms` of `Glue` object `i` lands inside the array it refers to.
pub open spec fn glue_forms_in_range(m: &ParsedModel, i: int) -> bool {
    m.glue.i_forms@[i].0 + m.glue.cnt_forms@[i] <= m.glue_form.raw_count
}

/// Field `artmesh_1` of `Glue` object `i` lands inside the array it refers to.
pub open spec fn glue_artmesh_1_in_range(m: &ParsedModel, i: int) -> bool {
    (m.glue.i_artmesh_1@[i].0 as int) < (m.art_mesh.raw_count as int)
}

/// Field `artmesh_2` of `Glue` object `i` lands inside the array it refers to.
pub open spec fn glue_artmesh_2_in_range(m: &ParsedModel, i: int) -> bool {
    (m.glue.i_artmesh_2@[i].0 as int) < (m.art_mesh.raw_count as int)
}

/// Field `coords` of `Glue` object `i` lands inside the array it refers to.
pub open spec fn glue_coords_in_range(m: &ParsedModel, i: int) -> bool {
    m.glue.i_coords@[i].0 + m.glue.cnt_coords@[i] <= m.glue_coord.raw_count
}

/// Field `blend_form_maps` of `Glue` object `i` lands inside the array it refers to.
pub open spec fn glue_blend_form_maps_in_range(m: &ParsedModel, i: int) -> bool {
    (opt_idx_get(m.glue.i_blend_form_maps@[i].0) matches Some(j) ==> (j as int) < (m.glue_blend_form_maps.raw_count as int))
}

/// The check of the `Glue` indices reports field `f` of object `i`: the fields are
/// checked one after the other, each over all objects in order, so `f` is the first
/// field with an index out of range and `i` the first object whose `f` is out of range.
pub open spec fn glue_ref_failure(m: &ParsedModel, f: &'static str, i: int) -> bool {
    &&& 0 <= i < m.glue.raw_count
    &&& ((f == "Glue.param_map_set" && !glue_param_map_set_in_range(m, i)
            && (forall|j: int| 0 <= j < i ==> #[trigger] glue_param_map_set_in_range(m, j))
        )
        || (f == "Glue.forms" && !glue_forms_in_range(m, i)
            && (forall|j: int| 0 <= j < i ==> #[trigger] glue_forms_in_range(m, j))
            && (forall|j: int| 0 <= j < m.glue.raw_count ==> #[trigger] glue_param_map_set_in_range(m, j))
        )
        || (f == "Glue.artmesh_1" && !glue_artmesh_1_in_range(m, i)
            && (forall|j: int| 0 <= j < i ==> #[trigger] glue_artmesh_1_in_range(m, j))
            && (forall|j: int| 0 <= j < m.glue.raw_count ==> #[trigger] glue_param_map_set_in_range(m, j))
            && (forall|j: int| 0 <= j < m.glue.raw_count ==> #[trigger] glue_forms_in_range(m, j))
        )
        || (f == "Glue.artmesh_2" && !glue_artmesh_2_in_range(m, i)
            && (forall|j: int| 0 <= j < i ==> #[trigger] glue_artmesh_2_in_range(m, j))
            && (forall|j: int| 0 <= j < m.glue.raw_count ==> #[trigger] glue_param_map_set_in_range(m, j))
            && (forall|j: int| 0 <= j < m.glue.raw_count ==> #[trigger] glue_forms_in_range(m, j))
            && (forall|j: int| 0 <= j < m.glue.raw_count ==> #[trigger] glue_artmesh_1_in_range(m, j))
        )
        || (f == "Glue.coords" && !glue_coords_in_range(m, i)
            && (forall|j: int| 0 <= j < i ==> #[trigger] glue_coords_in_range(m, j))
            && (forall|j: int| 0 <= j < m.glue.raw_count ==> #[trigger] glue_param_map_set_in_range(m, j))
            && (forall|j: int| 0 <= j < m.glue.raw_count ==> #[trigger] glue_forms_in_range(m, j))
            && (forall|j: int| 0 <= j < m.glue.raw_count ==> #[trigger] glue_artmesh_1_in_range(m, j))
            && (forall|j: int| 0 <= j < m.glue.raw_count ==> #[trigger] glue_artmesh_2_in_range(m, j))
        )
        || (f == "Glue.blend_form_maps" && !glue_blend_form_maps_in_range(m, i)
            && (forall|j: int| 0 <= j < i ==> #[trigger] glue_blend_form_maps_in_range(m, j))
            && (forall|j: int| 0 <= j < m.glue.raw_count ==> #[trigger] glue_param_map_set_in_range(m, j))
            && (forall|j: int| 0 <= j < m.glue.raw_count ==> #[trigger] glue_forms_in_range(m, j))
            && (forall|j: int| 0 <= j < m.glue.raw_count ==> #[trigger] glue_artmesh_1_in_range(m, j))
            && (forall|j: int| 0 <= j < m.glue.raw_count ==> #[trigger] glue_artmesh_2_in_range(m, j))
            && (forall|j: int| 0 <= j < m.glue.raw_count ==> #[trigger] glue_coords_in_range(m, j))
        )
    )
}

/// Every index of every `Glue` object lands inside the array it refers to.
pub open spec fn glue_refs_ok(m: &ParsedModel) -> bool {
    forall|i: int| 0 <= i < m.glue.raw_count ==> #[trigger] glue_refs_ok_at(m, i)
}

/// Checks the indices of the `Glue` objects field by field, each field over all
/// objects in order; the first one out of range is reported.
pub fn check_glue_refs(m: &ParsedModel) -> (r: Result<(), ParseError>)
    requires
        m.glue.columns_ok(),
    ensures
        r is Ok <==> glue_refs_ok(m),
        r matches Err(e) ==> (e matches ParseError::InvalidReference(f, i) && glue_ref_failure(m, f, i as int)),
{
    let n = m.glue.raw_count;
    let mut i: usize = 0;
    while i < n
        invariant
            m.glue.columns_ok(),
            n == m.glue.raw_count,
            i <= n,
            forall|j: int| 0 <= j < i ==> #[trigger] glue_param_map_set_in_range(m, j),
        decreases n - i,
    {
        if !((m.glue.i_param_map_set[i].0 as usize) < m.param_map_set.raw_count) {
            assert(!glue_param_map_set_in_range(m, i as int));
            assert(!glue_refs_ok_at(m, i as int));
            return Err(ParseError::InvalidReference("Glue.param_map_set", i));
        }
        i = i + 1;
    }
    let mut i: usize = 0;
    while i < n
        invariant
            m.glue.columns_ok(),
            n == m.glue.raw_count,
            i <= n,
            forall|j: int| 0 <= j < n ==> #[trigger] glue_param_map_set_in_range(m, j),
            forall|j: int| 0 <= j < i ==> #[trigger] glue_forms_in_range(m, j),
        decreases n - i,
    {
        if !((m.glue.i_forms[i].0 as u64) + (m.glue.cnt_forms[i] as u64) <= (m.glue_form.raw_count as u64)) {
            assert(!glue_forms_in_range(m, i as int));
            assert(!glue_refs_ok_at(m, i as int));
            return Err(ParseError::InvalidReference("Glue.forms", i));
        }
        i = i + 1;
    }
    let mut i: usize = 0;
    while i < n
        invariant
            m.glue.columns_ok(),
            n == m.glue.raw_count,
            i <= n,
            forall|j: int| 0 <= j < n ==> #[trigger] glue_param_map_set_in_range(m, j),
            forall|j: int| 0 <= j < n ==> #[trigger] glue_forms_in_range(m, j),
            forall|j: int| 0 <= j < i ==> #[trigger] glue_artmesh_1_in_range(m, j),
        decreases n - i,
    {
        if !((m.glue.i_artmesh_1[i].0 as usize) < m.art_mesh.raw_count) {
            assert(!glue_artmesh_1_in_range(m, i as int));
            assert(!glue_refs_ok_at(m, i as int));
            return Err(ParseError::InvalidReference("Glue.artmesh_1", i));
        }
        i = i + 1;
    }
    let mut i: usize = 0;
    while i < n
        invariant
            m.glue.columns_ok(),
            n == m.glue.raw_count,
            i <= n,
            forall|j: int| 0 <= j < n ==> #[trigger] glue_param_map_set_in_range(m, j),
            forall|j: int| 0 <= j < n ==> #[trigger] glue_forms_in_range(m, j),
            forall|j: int| 0 <= j < n ==> #[trigger] glue_artmesh_1_in_range(m, j),
            forall|j: int| 0 <= j < i ==> #[trigger] glue_artmesh_2_in_range(m, j),
        decreases n - i,
    {
        if !((m.glue.i_artmesh_2[i].0 as usize) < m.art_mesh.raw_count) {
            assert(!glue_artmesh_2_in_range(m, i as int));
            assert(!glue_refs_ok_at(m, i as int));
            return Err(ParseError::InvalidReference("Glue.artmesh_2", i));
        }
        i = i + 1;
    }
    let mut i: usize = 0;
    while i < n
        invariant
            m.glue.columns_ok(),
            n == m.glue.raw_count,
            i <= n,
            forall|j: int| 0 <= j < n ==> #[trigger] glue_param_map_set_in_range(m, j),
            forall|j: int| 0 <= j < n ==> #[trigger] glue_forms_in_range(m, j),
            forall|j: int| 0 <= j < n ==> #[trigger] glue_artmesh_1_in_range(m, j),
            forall|j: int| 0 <= j < n ==> #[trigger] glue_artmesh_2_in_range(m, j),
            forall|j: int| 0 <= j < i ==> #[trigger] glue_coords_in_range(m, j),
        decreases n - i,
    {
        if !((m.glue.i_coords[i].0 as u64) + (m.glue.cnt_coords[i] as u64) <= (m.glue_coord.raw_count as u64)) {
            assert(!glue_coords_in_range(m, i as int));
            assert(!glue_refs_ok_at(m, i as int));
            return Err(ParseError::InvalidReference("Glue.coords", i));
        }
        i = i + 1;
    }
    let mut i: usize = 0;
    while i < n
        invariant
            m.glue.columns_ok(),
            n == m.glue.raw_count,
            i <= n,
            forall|j: int| 0 <= j < n ==> #[trigger] glue_param_map_set_in_range(m, j),
            forall|j: int| 0 <= j < n ==> #[trigger] glue_forms_in_range(m, j),
            forall|j: int| 0 <= j < n ==> #[trigger] glue_artmesh_1_in_range(m, j),
            forall|j: int| 0 <= j < n ==> #[trigger] glue_artmesh_2_in_range(m, j),
            forall|j: int| 0 <= j < n ==> #[trigger] glue_coords_in_range(m, j),
            forall|j: int| 0 <= j < i ==> #[trigger] glue_blend_form_maps_in_range(m, j),
        decreases n - i,
    {
        let ok = match m.glue.i_blend_form_maps[i].to_index() {
            Some(x) => (x.0 as usize) < m.glue_blend_form_maps.raw_count,
            None => true,
        };
        if !ok {
            assert(!glue_blend_form_maps_in_range(m, i as int));
            assert(!glue_refs_ok_at(m, i as int));
            return Err(ParseError::InvalidReference("Glue.blend_form_maps", i));
        }
        i = i + 1;
    }
    assert forall|i: int| 0 <= i < n implies #[trigger] glue_refs_ok_at(m, i) by {
        assert(glue_param_map_set_in_range(m, i));
        assert(glue_forms_in_range(m, i));
        assert(glue_artmesh_1_in_range(m, i));
        assert(glue_artmesh_2_in_range(m, i));
        assert(glue_coords_in_range(m, i));
        assert(glue_blend_form_maps_in_range(m, i));
    }
    Ok(())
}

/// Every index of `BlendParamMap` object `i` lands inside the array it refers to.
pub open spec fn blend_param_map_refs_ok_at(m: &ParsedModel, i: int) -> bool {
    &&& m.blend_param_map.i_keypoints@[i].0 + m.blend_param_map.cnt_keypoints@[i] <= m.keypoint.raw_count
}

/// Field `keypoints` of `BlendParamMap` object `i` lands inside the array it refers to.
pub open spec fn blend_param_map_keypoints_in_range(m: &ParsedModel, i: int) -> bool {
    m.blend_param_map.i_keypoints@[i].0 + m.blend_param_map.cnt_keypoints@[i] <= m.keypoint.raw_count
}

/// The check of the `BlendParamMap` indices reports field `f` of object `i`: the fields are
/// checked one after the other, each over all objects in order, so `f` is the first
/// field with an index out of range and `i` the first object whose `f` is out of range.
pub open spec fn blend_param_map_ref_failure(m: &ParsedModel, f: &'static str, i: int) -> bool {
    &&& 0 <= i < m.blend_param_map.raw_count
    &&& ((f == "BlendParamMap.keypoints" && !blend_param_map_keypoints_in_range(m, i)
            && (forall|j: int| 0 <= j < i ==> #[trigger] blend_param_map_keypoints_in_range(m, j))
        )
    )
}

/// Every index of every `BlendParamMap` object lands inside the array it refers to.
pub open spec fn blend_param_map_refs_ok(m: &ParsedModel) -> bool {
    forall|i: int| 0 <= i < m.blend_param_map.raw_count ==> #[trigger] blend_param_map_refs_ok_at(m, i)
}

/// Checks the indices of the `BlendParamMap` objects field by field, each field over all
/// objects in order; the first one out of range is reported.
pub fn check_blend_param_map_refs(m: &ParsedModel) -> (r: Result<(), ParseError>)
    requires
        m.blend_param_map.columns_ok(),
    ensures
        r is Ok <==> blend_param_map_refs_ok(m),
        r matches Err(e) ==> (e matches ParseError::InvalidReference(f, i) && blend_param_map_ref_failure(m, f, i as int)),
{
    let n = m.blend_param_map.raw_count;
    let mut i: usize = 0;
    while i < n
        invariant
            m.blend_param_map.columns_ok(),
            n == m.blend_param_map.raw_count,
            i <= n,
            forall|j: int| 0 <= j < i ==> #[trigger] blend_param_map_keypoints_in_range(m, j),
        decreases n - i,
    {
        if !((m.blend_param_map.i_keypoints[i].0 as u64) + (m.blend_param_map.cnt_keypoints[i] as u64) <= (m.keypoint.raw_count as u64)) {
            assert(!blend_param_map_keypoints_in_range(m, i as int));
            assert(!blend_param_map_refs_ok_at(m, i as int));
            return Err(ParseError::InvalidReference("BlendParamMap.keypoints", i));
        }
        i = i + 1;
    }
    assert forall|i: int| 0 <= i < n implies #[trigger] blend_param_map_refs_ok_at(m, i) by {
        assert(blend_param_map_keypoints_in_range(m, i));
    }
    Ok(())
}

/// Every index of `BlendFormMap` object `i` lands inside the array it refers to.
pub open spec fn blend_form_map_refs_ok_at(m: &ParsedModel, i: int) -> bool {
    &&& (m.blend_form_map.i_param_map@[i].0 as int) < (m.blend_param_map.raw_count as int)
    &&& m.blend_form_map.i_blendweight_limits@[i].0 + m.blend_form_map.cnt_blendweight_limits@[i] <= m.blend_weight_limit_ref.raw_count
}

/// Field `param_map` of `BlendFormMap` object `i` lands inside the array it refers to.
pub open spec fn blend_form_map_param_map_in_range(m: &ParsedModel, i: int) -> bool {
    (m.blend_form_map.i_param_map@[i].0 as int) < (m.blend_param_map.raw_count as int)
}

/// Field `blendweight_limits` of `BlendFormMap` object `i` lands inside the array it refers to.
pub open spec fn blend_form_map_blendweight_limits_in_range(m: &ParsedModel, i: int) -> bool {
    m.blend_form_map.i_blendweight_limits@[i].0 + m.blend_form_map.cnt_blendweight_limits@[i] <= m.blend_weight_limit_ref.raw_count
}

/// The check of the `BlendFormMap` indices reports field `f` of object `i`: the fields are
/// checked one after the other, each over all objects in order, so `f` is the first
/// field with an index out of range and `i` the first object whose `f` is out of range.
pub open spec fn blend_form_map_ref_failure(m: &ParsedModel, f: &'static str, i: int) -> bool {
    &&& 0 <= i < m.blend_form_map.raw_count
    &&& ((f == "BlendFormMap.param_map" && !blend_form_map_param_map_in_range(m, i)
            && (forall|j: int| 0 <= j < i ==> #[trigger] blend_form_map_param_map_in_range(m, j))
        )
        || (f == "BlendFormMap.blendweight_limits" && !blend_form_map_blendweight_limits_in_range(m, i)
            && (forall|j: int| 0 <= j < i ==> #[trigger] blend_form_map_blendweight_limits_in_range(m, j))
            && (forall|j: int| 0 <= j < m.blend_form_map.raw_count ==> #[trigger] blend_form_map_param_map_in_range(m, j))
        )
    )
}

/// Every index of every `BlendFormMap` object lands inside the array it refers to.
pub open spec fn blend_form_map_refs_ok(m: &ParsedModel) -> bool {
    forall|i: int| 0 <= i < m.blend_form_map.raw_count ==> #[trigger] blend_form_map_refs_ok_at(m, i)
}

/// Checks the indices of the `BlendFormMap` objects field by field, each field over all
/// objects in order; the first one out of range is reported.
pub fn check_blend_form_map_refs(m: &ParsedModel) -> (r: Result<(), ParseError>)
    requires
        m.blend_form_map.columns_ok(),
    ensures
        r is Ok <==> blend_form_map_refs_ok(m),
        r matches Err(e) ==> (e matches ParseError::InvalidReference(f, i) && blend_form_map_ref_failure(m, f, i as int)),
{
    let n = m.blend_form_map.raw_count;
    let mut i: usize = 0;
    while i < n
        invariant
            m.blend_form_map.columns_ok(),
            n == m.blend_form_map.raw_count,
            i <= n,
            forall|j: int| 0 <= j < i ==> #[trigger] blend_form_map_param_map_in_range(m, j),
        decreases n - i,
    {
        if !((m.blend_form_map.i_param_map[i].0 as usize) < m.blend_param_map.raw_count) {
            assert(!blend_form_map_param_map_in_range(m, i as int));
            assert(!blend_form_map_refs_ok_at(m, i as int));
            return Err(ParseError::InvalidReference("BlendFormMap.param_map", i));
        }
        i = i + 1;
    }
    let mut i: usize = 0;
    while i < n
        invariant
            m.blend_form_map.columns_ok(),
            n == m.blend_form_map.raw_count,
            i <= n,
            forall|j: int| 0 <= j < n ==> #[trigger] blend_form_map_param_map_in_range(m, j),
            forall|j: int| 0 <= j < i ==> #[trigger] blend_form_map_blendweight_limits_in_range(m, j),
        decreases n - i,
    {
        if !((m.blend_form_map.i_blendweight_limits[i].0 as u64) + (m.blend_form_map.cnt_blendweight_limits[i] as u64) <= (m.blend_weight_limit_ref.raw_count as u64)) {
            assert(!blend_form_map_blendweight_limits_in_range(m, i as int));
            assert(!blend_form_map_refs_ok_at(m, i as int));
            return Err(ParseError::InvalidReference("BlendFormMap.blendweight_limits", i));
        }
        i = i + 1;
    }
    assert forall|i: int| 0 <= i < n implies #[trigger] blend_form_map_refs_ok_at(m, i) by {
        assert(blend_form_map_param_map_in_range(m, i));
        assert(blend_form_map_blendweight_limits_in_range(m, i));
    }
    Ok(())
}

/// Every index of `WarpBlendFormMaps` object `i` lands inside the array it refers to.
pub open spec fn warp_blend_form_maps_refs_ok_at(m: &ParsedModel, i: int) -> bool {
    &&& (m.warp_blend_form_maps.i_warp@[i].0 as int) < (m.warp_deformer.raw_count as int)
    &&& m.warp_blend_form_maps.i_maps@[i].0 + m.warp_blend_form_maps.cnt_maps@[i] <= m.blend_form_map.raw_count
}

/// Field `warp` of `WarpBlendFormMaps` object `i` lands inside the array it refers to.
pub open spec fn warp_blend_form_maps_warp_in_range(m: &ParsedModel, i: int) -> bool {
    (m.warp_blend_form_maps.i_warp@[i].0 as int) < (m.warp_deformer.raw_count as int)
}

/// Field `maps` of `WarpBlendFormMaps` object `i` lands inside the array it refers to.
pub open spec fn warp_blend_form_maps_maps_in_range(m: &ParsedModel, i: int) -> bool {
    m.warp_blend_form_maps.i_maps@[i].0 + m.warp_blend_form_maps.cnt_maps@[i] <= m.blend_form_map.raw_count
}

/// The check of the `WarpBlendFormMaps` indices reports field `f` of object `i`: the fields are
/// checked one after the other, each over all objects in order, so `f` is the first
/// field with an index out of range and `i` the first object whose `f` is out of range.
pub open spec fn warp_blend_form_maps_ref_failure(m: &ParsedModel, f: &'static str, i: int) -> bool {
    &&& 0 <= i < m.warp_blend_form_maps.raw_count
    &&& ((f == "WarpBlendFormMaps.warp" && !warp_blend_form_maps_warp_in_range(m, i)
            && (forall|j: int| 0 <= j < i ==> #[trigger] warp_blend_form_maps_warp_in_range(m, j))
        )
        || (f == "WarpBlendFormMaps.maps" && !warp_blend_form_maps_maps_in_range(m, i)
            && (forall|j: int| 0 <= j < i ==> #[trigger] warp_blend_form_maps_maps_in_range(m, j))
            && (forall|j: int| 0 <= j < m.warp_blend_form_maps.raw_count ==> #[trigger] warp_blend_form_maps_warp_in_range(m, j))
        )
    )
}

/// Every index of every `WarpBlendFormMaps` object lands inside the array it refers to.
pub open spec fn warp_blend_form_maps_refs_ok(m: &ParsedModel) -> bool {
    forall|i: int| 0 <= i < m.warp_blend_form_maps.raw_count ==> #[trigger] warp_blend_form_maps_refs_ok_at(m, i)
}

/// Checks the indices of the `WarpBlendFormMaps` objects field by field, each field over all
/// objects in order; the first one out of range is reported.
pub fn check_warp_blend_form_maps_refs(m: &ParsedModel) -> (r: Result<(), ParseError>)
    requires
        m.warp_blend_form_maps.columns_ok(),
    ensures
        r is Ok <==> warp_blend_form_maps_refs_ok(m),
        r matches Err(e) ==> (e matches ParseError::InvalidReference(f, i) && warp_blend_form_maps_ref_failure(m, f, i as int)),
{
    let n = m.warp_blend_form_maps.raw_count;
    let mut i: usize = 0;
    while i < n
        invariant
            m.warp_blend_form_maps.columns_ok(),
            n == m.warp_blend_form_maps.raw_count,
            i <= n,
            forall|j: int| 0 <= j < i ==> #[trigger] warp_blend_form_maps_warp_in_range(m, j),
        decreases n - i,
    {
        if !((m.warp_blend_form_maps.i_warp[i].0 as usize) < m.warp_deformer.raw_count) {
            assert(!warp_blend_form_maps_warp_in_range(m, i as int));
            assert(!warp_blend_form_maps_refs_ok_at(m, i as int));
            return Err(ParseError::InvalidReference("WarpBlendFormMaps.warp", i));
        }
        i = i + 1;
    }
    let mut i: usize = 0;
    while i < n
        invariant
            m.warp_blend_form_maps.columns_ok(),
            n == m.warp_blend_form_maps.raw_count,
            i <= n,
            forall|j: int| 0 <= j < n ==> #[trigger] warp_blend_form_maps_warp_in_range(m, j),
            forall|j: int| 0 <= j < i ==> #[trigger] warp_blend_form_maps_maps_in_range(m, j),
        decreases n - i,
    {
        if !((m.warp_blend_form_maps.i_maps[i].0 as u64) + (m.warp_blend_form_maps.cnt_maps[i] as u64) <= (m.blend_form_map.raw_count as u64)) {
            assert(!warp_blend_form_maps_maps_in_range(m, i as int));
            assert(!warp_blend_form_maps_refs_ok_at(m, i as int));
            return Err(ParseError::InvalidReference("WarpBlendFormMaps.maps", i));
        }
        i = i + 1;
    }
    assert forall|i: int| 0 <= i < n implies #[trigger] warp_blend_form_maps_refs_ok_at(m, i) by {
        assert(warp_blend_form_maps_warp_in_range(m, i));
        assert(warp_blend_form_maps_maps_in_range(m, i));
    }
    Ok(())
}

/// Every index of `ArtMeshBlendFormMaps` object `i` lands inside the array it refers to.
pub open spec fn art_mesh_blend_form_maps_refs_ok_at(m: &ParsedModel, i: int) -> bool {
    &&& (m.art_mesh_blend_form_maps.i_artmesh@[i].0 as int) < (m.art_mesh.raw_count as int)
    &&& m.art_mesh_blend_form_maps.i_maps@[i].0 + m.art_mesh_blend_form_maps.cnt_maps@[i] <= m.blend_form_map.raw_count
}

/// Field `artmesh` of `ArtMeshBlendFormMaps` object `i` lands inside the array it refers to.
pub open spec fn art_mesh_blend_form_maps_artmesh_in_range(m: &ParsedModel, i: int) -> bool {
    (m.art_mesh_blend_form_maps.i_artmesh@[i].0 as int) < (m.art_mesh.raw_count as int)
}

/// Field `maps` of `ArtMeshBlendFormMaps` object `i` lands inside the array it refers to.
pub open spec fn art_mesh_blend_form_maps_maps_in_range(m: &ParsedModel, i: int) -> bool {
    m.art_mesh_blend_form_maps.i_maps@[i].0 + m.art_mesh_blend_form_maps.cnt_maps@[i] <= m.blend_form_map.raw_count
}

/// The check of the `ArtMeshBlendFormMaps` indices reports field `f` of object `i`: the fields are
/// checked one after the other, each over all objects in order, so `f` is the first
/// field with an index out of range and `i` the first object whose `f` is out of range.
pub open spec fn art_mesh_blend_form_maps_ref_failure(m: &ParsedModel, f: &'static str, i: int) -> bool {
    &&& 0 <= i < m.art_mesh_blend_form_maps.raw_count
    &&& ((f == "ArtMeshBlendFormMaps.artmesh" && !art_mesh_blend_form_maps_artmesh_in_range(m, i)
            && (forall|j: int| 0 <= j < i ==> #[trigger] art_mesh_blend_form_maps_artmesh_in_range(m, j))
        )
        || (f == "ArtMeshBlendFormMaps.maps" && !art_mesh_blend_form_maps_maps_in_range(m, i)
            && (forall|j: int| 0 <= j < i ==> #[trigger] art_mesh_blend_form_maps_maps_in_range(m, j))
            && (forall|j: int| 0 <= j < m.art_mesh_blend_form_maps.raw_count ==> #[trigger] art_mesh_blend_form_maps_artmesh_in_range(m, j))
        )
    )
}

/// Every index of every `ArtMeshBlendFormMaps` object lands inside the array it refers to.
pub open spec fn art_mesh_blend_form_maps_refs_ok(m: &ParsedModel) -> bool {
    forall|i: int| 0 <= i < m.art_mesh_blend_form_maps.raw_count ==> #[trigger] art_mesh_blend_form_maps_refs_ok_at(m, i)
}

/// Checks the indices of the `ArtMeshBlendFormMaps` objects field by field, each field over all
/// objects in order; the first one out of range is reported.
pub fn check_art_mesh_blend_form_maps_refs(m: &ParsedModel) -> (r: Result<(), ParseError>)
    requires
        m.art_mesh_blend_form_maps.columns_ok(),
    ensures
        r is Ok <==> art_mesh_blend_form_maps_refs_ok(m),
        r matches Err(e) ==> (e matches ParseError::InvalidReference(f, i) && art_mesh_blend_form_maps_ref_failure(m, f, i as int)),
{
    let n = m.art_mesh_blend_form_maps.raw_count;
    let mut i: usize = 0;
    while i < n
        invariant
            m.art_mesh_blend_form_maps.columns_ok(),
            n == m.art_mesh_blend_form_maps.raw_count,
            i <= n,
            forall|j: int| 0 <= j < i ==> #[trigger] art_mesh_blend_form_maps_artmesh_in_range(m, j),
        decreases n - i,
    {
        if !((m.art_mesh_blend_form_maps.i_artmesh[i].0 as usize) < m.art_mesh.raw_count) {
            assert(!art_mesh_blend_form_maps_artmesh_in_range(m, i as int));
            assert(!art_mesh_blend_form_maps_refs_ok_at(m, i as int));
            return Err(ParseError::InvalidReference("ArtMeshBlendFormMaps.artmesh", i));
        }
        i = i + 1;
    }
    let mut i: usize = 0;
    while i < n
        invariant
            m.art_mesh_blend_form_maps.columns_ok(),
            n == m.art_mesh_blend_form_maps.raw_count,
            i <= n,
            forall|j: int| 0 <= j < n ==> #[trigger] art_mesh_blend_form_maps_artmesh_in_range(m, j),
            forall|j: int| 0 <= j < i ==> #[trigger] art_mesh_blend_form_maps_maps_in_range(m, j),
        decreases n - i,
    {
        if !((m.art_mesh_blend_form_maps.i_maps[i].0 as u64) + (m.art_mesh_blend_form_maps.cnt_maps[i] as u64) <= (m.blend_form_map.raw_count as u64)) {
            assert(!art_mesh_blend_form_maps_maps_in_range(m, i as int));
            assert(!art_mesh_blend_form_maps_refs_ok_at(m, i as int));
            return Err(ParseError::InvalidReference("ArtMeshBlendFormMaps.maps", i));
        }
        i = i + 1;
    }
    assert forall|i: int| 0 <= i < n implies #[trigger] art_mesh_blend_form_maps_refs_ok_at(m, i) by {
        assert(art_mesh_blend_form_maps_artmesh_in_range(m, i));
        assert(art_mesh_blend_form_maps_maps_in_range(m, i));
    }
    Ok(())
}

/// Every index of `BlendWeightLimitRef` object `i` lands inside the array it refers to.
pub open spec fn blend_weight_limit_ref_refs_ok_at(m: &ParsedModel, i: int) -> bool {
    &&& (m.blend_weight_limit_ref.i_limit@[i].0 as int) < (m.blend_weight_limit.raw_count as int)
}

/// Field `limit` of `BlendWeightLimitRef` object `i` lands inside the array it refers to.
pub open spec fn blend_weight_limit_ref_limit_in_range(m: &ParsedModel, i: int) -> bool {
    (m.blend_weight_limit_ref.i_limit@[i].0 as int) < (m.blend_weight_limit.raw_count as int)
}

/// The check of the `BlendWeightLimitRef` indices reports field `f` of object `i`: the fields are
/// checked one after the other, each over all objects in order, so `f` is the first
/// field with an index out of range and `i` the first object whose `f` is out of range.
pub open spec fn blend_weight_limit_ref_ref_failure(m: &ParsedModel, f: &'static str, i: int) -> bool {
    &&& 0 <= i < m.blend_weight_limit_ref.raw_count
    &&& ((f == "BlendWeightLimitRef.limit" && !blend_weight_limit_ref_limit_in_range(m, i)
            && (forall|j: int| 0 <= j < i ==> #[trigger] blend_weight_limit_ref_limit_in_range(m, j))
        )
    )
}

/// Every index of every `BlendWeightLimitRef` object lands inside the array it refers to.
pub open spec fn blend_weight_limit_ref_refs_ok(m: &ParsedModel) -> bool {
    forall|i: int| 0 <= i < m.blend_weight_limit_ref.raw_count ==> #[trigger] blend_weight_limit_ref_refs_ok_at(m, i)
}

/// Checks the indices of the `BlendWeightLimitRef` objects field by field, each field over all
/// objects in order; the first one out of range is reported.
pub fn check_blend_weight_limit_ref_refs(m: &ParsedModel) -> (r: Result<(), ParseError>)
    requires
        m.blend_weight_limit_ref.columns_ok(),
    ensures
        r is Ok <==> blend_weight_limit_ref_refs_ok(m),
        r matches Err(e) ==> (e matches ParseError::InvalidReference(f, i) && blend_weight_limit_ref_ref_failure(m, f, i as int)),
{
    let n = m.blend_weight_limit_ref.raw_count;
    let mut i: usize = 0;
    while i < n
        invariant
            m.blend_weight_limit_ref.columns_ok(),
            n == m.blend_weight_limit_ref.raw_count,
            i <= n,
            forall|j: int| 0 <= j < i ==> #[trigger] blend_weight_limit_ref_limit_in_range(m, j),
        decreases n - i,
    {
        if !((m.blend_weight_limit_ref.i_limit[i].0 as usize) < m.blend_weight_limit.raw_count) {
            assert(!blend_weight_limit_ref_limit_in_range(m, i as int));
            assert(!blend_weight_limit_ref_refs_ok_at(m, i as int));
            return Err(ParseError::InvalidReference("BlendWeightLimitRef.limit", i));
        }
        i = i + 1;
    }
    assert forall|i: int| 0 <= i < n implies #[trigger] blend_weight_limit_ref_refs_ok_at(m, i) by {
        assert(blend_weight_limit_ref_limit_in_range(m, i));
    }
    Ok(())
}

/// Every index of `BlendWeightLimit` object `i` lands inside the array it refers to.
pub open spec fn blend_weight_limit_refs_ok_at(m: &ParsedModel, i: int) -> bool {
    &&& (m.blend_weight_limit.i_param@[i].0 as int) < (m.param.raw_count as int)
    &&& m.blend_weight_limit.i_points@[i].0 + m.blend_weight_limit.cnt_points@[i] <= m.blend_weight_limit_point.raw_count
}

/// Field `param` of `BlendWeightLimit` object `i` lands inside the array it refers to.
pub open spec fn blend_weight_limit_param_in_range(m: &ParsedModel, i: int) -> bool {
    (m.blend_weight_limit.i_param@[i].0 as int) < (m.param.raw_count as int)
}

/// Field `points` of `BlendWeightLimit` object `i` lands inside the array it refers to.
pub open spec fn blend_weight_limit_points_in_range(m: &ParsedModel, i: int) -> bool {
    m.blend_weight_limit.i_points@[i].0 + m.blend_weight_limit.cnt_points@[i] <= m.blend_weight_limit_point.raw_count
}

/// The check of the `BlendWeightLimit` indices reports field `f` of object `i`: the fields are
/// checked one after the other, each over all objects in order, so `f` is the first
/// field with an index out of range and `i` the first object whose `f` is out of range.
pub open spec fn blend_weight_limit_ref_failure(m: &ParsedModel, f: &'static str, i: int) -> bool {
    &&& 0 <= i < m.blend_weight_limit.raw_count
    &&& ((f == "BlendWeightLimit.param" && !blend_weight_limit_param_in_range(m, i)
            && (forall|j: int| 0 <= j < i ==> #[trigger] blend_weight_limit_param_in_range(m, j))
        )
        || (f == "BlendWeightLimit.points" && !blend_weight_limit_points_in_range(m, i)
            && (forall|j: int| 0 <= j < i ==> #[trigger] blend_weight_limit_points_in_range(m, j))
            && (forall|j: int| 0 <= j < m.blend_weight_limit.raw_count ==> #[trigger] blend_weight_limit_param_in_range(m, j))
        )
    )
}

/// Every index of every `BlendWeightLimit` object lands inside the array it refers to.
pub open spec fn blend_weight_limit_refs_ok(m: &ParsedModel) -> bool {
    forall|i: int| 0 <= i < m.blend_weight_limit.raw_count ==> #[trigger] blend_weight_limit_refs_ok_at(m, i)
}

/// Checks the indices of the `BlendWeightLimit` objects field by field, each field over all
/// objects in order; the first one out of range is reported.
pub fn check_blend_weight_limit_refs(m: &ParsedModel) -> (r: Result<(), ParseError>)
    requires
        m.blend_weight_limit.columns_ok(),
    ensures
        r is Ok <==> blend_weight_limit_refs_ok(m),
        r matches Err(e) ==> (e matches ParseError::InvalidReference(f, i) && blend_weight_limit_ref_failure(m, f, i as int)),
{
    let n = m.blend_weight_limit.raw_count;
    let mut i: usize = 0;
    while i < n
        invariant
            m.blend_weight_limit.columns_ok(),
            n == m.blend_weight_limit.raw_count,
            i <= n,
            forall|j: int| 0 <= j < i ==> #[trigger] blend_weight_limit_param_in_range(m, j),
        decreases n - i,
    {
        if !((m.blend_weight_limit.i_param[i].0 as usize) < m.param.raw_count) {
            assert(!blend_weight_limit_param_in_range(m, i as int));
            assert(!blend_weight_limit_refs_ok_at(m, i as int));
            return Err(ParseError::InvalidReference("BlendWeightLimit.param", i));
        }
        i = i + 1;
    }
    let mut i: usize = 0;
    while i < n
        invariant
            m.blend_weight_limit.columns_ok(),
            n == m.blend_weight_limit.raw_count,
            i <= n,
            forall|j: int| 0 <= j < n ==> #[trigger] blend_weight_limit_param_in_range(m, j),
            forall|j: int| 0 <= j < i ==> #[trigger] blend_weight_limit_points_in_range(m, j),
        decreases n - i,
    {
        if !((m.blend_weight_limit.i_points[i].0 as u64) + (m.blend_weight_limit.cnt_points[i] as u64) <= (m.blend_weight_limit_point.raw_count as u64)) {
            assert(!blend_weight_limit_points_in_range(m, i as int));
            assert(!blend_weight_limit_refs_ok_at(m, i as int));
            return Err(ParseError::InvalidReference("BlendWeightLimit.points", i));
        }
        i = i + 1;
    }
    assert forall|i: int| 0 <= i < n implies #[trigger] blend_weight_limit_refs_ok_at(m, i) by {
        assert(blend_weight_limit_param_in_range(m, i));
        assert(blend_weight_limit_points_in_range(m, i));
    }
    Ok(())
}

/// Every index of `PartBlendFormMaps` object `i` lands inside the array it refers to.
pub open spec fn part_blend_form_maps_refs_ok_at(m: &ParsedModel, i: int) -> bool {
    &&& (m.part_blend_form_maps.i_part@[i].0 as int) < (m.part.raw_count as int)
    &&& m.part_blend_form_maps.i_maps@[i].0 + m.part_blend_form_maps.cnt_maps@[i] <= m.blend_form_map.raw_count
}

/// Field `part` of `PartBlendFormMaps` object `i` lands inside the array it refers to.
pub open spec fn part_blend_form_maps_part_in_range(m: &ParsedModel, i: int) -> bool {
    (m.part_blend_form_maps.i_part@[i].0 as int) < (m.part.raw_count as int)
}

/// Field `maps` of `PartBlendFormMaps` object `i` lands inside the array it refers to.
pub open spec fn part_blend_form_maps_maps_in_range(m: &ParsedModel, i: int) -> bool {
    m.part_blend_form_maps.i_maps@[i].0 + m.part_blend_form_maps.cnt_maps@[i] <= m.blend_form_map.raw_count
}

/// The check of the `PartBlendFormMaps` indices reports field `f` of object `i`: the fields are
/// checked one after the other, each over all objects in order, so `f` is the first
/// field with an index out of range and `i` the first object whose `f` is out of range.
pub open spec fn part_blend_form_maps_ref_failure(m: &ParsedModel, f: &'static str, i: int) -> bool {
    &&& 0 <= i < m.part_blend_form_maps.raw_count
    &&& ((f == "PartBlendFormMaps.part" && !part_blend_form_maps_part_in_range(m, i)
            && (forall|j: int| 0 <= j < i ==> #[trigger] part_blend_form_maps_part_in_range(m, j))
        )
        || (f == "PartBlendFormMaps.maps" && !part_blend_form_maps_maps_in_range(m, i)
            && (forall|j: int| 0 <= j < i ==> #[trigger] part_blend_form_maps_maps_in_range(m, j))
            && (forall|j: int| 0 <= j < m.part_blend_form_maps.raw_count ==> #[trigger] part_blend_form_maps_part_in_range(m, j))
        )
    )
}

/// Every index of every `PartBlendFormMaps` object lands inside the array it refers to.
pub open spec fn part_blend_form_maps_refs_ok(m: &ParsedModel) -> bool {
    forall|i: int| 0 <= i < m.part_blend_form_maps.raw_count ==> #[trigger] part_blend_form_maps_refs_ok_at(m, i)
}

/// Checks the indices of the `PartBlendFormMaps` objects field by field, each field over all
/// objects in order; the first one out of range is reported.
pub fn check_part_blend_form_maps_refs(m: &ParsedModel) -> (r: Result<(), ParseError>)
    requires
        m.part_blend_form_maps.columns_ok(),
    ensures
        r is Ok <==> part_blend_form_maps_refs_ok(m),
        r matches Err(e) ==> (e matches ParseError::InvalidReference(f, i) && part_blend_form_maps_ref_failure(m, f, i as int)),
{
    let n = m.part_blend_form_maps.raw_count;
    let mut i: usize = 0;
    while i < n
        invariant
            m.part_blend_form_maps.columns_ok(),
            n == m.part_blend_form_maps.raw_count,
            i <= n,
            forall|j: int| 0 <= j < i ==> #[trigger] part_blend_form_maps_part_in_range(m, j),
        decreases n - i,
    {
        if !((m.part_blend_form_maps.i_part[i].0 as usize) < m.part.raw_count) {
            assert(!part_blend_form_maps_part_in_range(m, i as int));
            assert(!part_blend_form_maps_refs_ok_at(m, i as int));
            return Err(ParseError::InvalidReference("PartBlendFormMaps.part", i));
        }
        i = i + 1;
    }
    let mut i: usize = 0;
    while i < n
        invariant
            m.part_blend_form_maps.columns_ok(),
            n == m.part_blend_form_maps.raw_count,
            i <= n,
            forall|j: int| 0 <= j < n ==> #[trigger] part_blend_form_maps_part_in_range(m, j),
            forall|j: int| 0 <= j < i ==> #[trigger] part_blend_form_maps_maps_in_range(m, j),
        decreases n - i,
    {
        if !((m.part_blend_form_maps.i_maps[i].0 as u64) + (m.part_blend_form_maps.cnt_maps[i] as u64) <= (m.blend_form_map.raw_count as u64)) {
            assert(!part_blend_form_maps_maps_in_range(m, i as int));
            assert(!part_blend_form_maps_refs_ok_at(m, i as int));
            return Err(ParseError::InvalidReference("PartBlendFormMaps.maps", i));
        }
        i = i + 1;
    }
    assert forall|i: int| 0 <= i < n implies #[trigger] part_blend_form_maps_refs_ok_at(m, i) by {
        assert(part_blend_form_maps_part_in_range(m, i));
        assert(part_blend_form_maps_maps_in_range(m, i));
    }
    Ok(())
}

/// Every index of `RotBlendFormMaps` object `i` lands inside the array it refers to.
pub open spec fn rot_blend_form_maps_refs_ok_at(m: &ParsedModel, i: int) -> bool {
    &&& (m.rot_blend_form_maps.i_rot@[i].0 as int) < (m.rot_deformer.raw_count as int)
    &&& m.rot_blend_form_maps.i_maps@[i].0 + m.rot_blend_form_maps.cnt_maps@[i] <= m.blend_form_map.raw_count
}

/// Field `rot` of `RotBlendFormMaps` object `i` lands inside the array it refers to.
pub open spec fn rot_blend_form_maps_rot_in_range(m: &ParsedModel, i: int) -> bool {
    (m.rot_blend_form_maps.i_rot@[i].0 as int) < (m.rot_deformer.raw_count as int)
}

/// Field `maps` of `RotBlendFormMaps` object `i` lands inside the array it refers to.
pub open spec fn rot_blend_form_maps_maps_in_range(m: &ParsedModel, i: int) -> bool {
    m.rot_blend_form_maps.i_maps@[i].0 + m.rot_blend_form_maps.cnt_maps@[i] <= m.blend_form_map.raw_count
}

/// The check of the `RotBlendFormMaps` indices reports field `f` of object `i`: the fields are
/// checked one after the other, each over all objects in order, so `f` is the first
/// field with an index out of range and `i` the first object whose `f` is out of range.
pub open spec fn rot_blend_form_maps_ref_failure(m: &ParsedModel, f: &'static str, i: int) -> bool {
    &&& 0 <= i < m.rot_blend_form_maps.raw_count
    &&& ((f == "RotBlendFormMaps.rot" && !rot_blend_form_maps_rot_in_range(m, i)
            && (forall|j: int| 0 <= j < i ==> #[trigger] rot_blend_form_maps_rot_in_range(m, j))
        )
        || (f == "RotBlendFormMaps.maps" && !rot_blend_form_maps_maps_in_range(m, i)
            && (forall|j: int| 0 <= j < i ==> #[trigger] rot_blend_form_maps_maps_in_range(m, j))
            && (forall|j: int| 0 <= j < m.rot_blend_form_maps.raw_count ==> #[trigger] rot_blend_form_maps_rot_in_range(m, j))
        )
    )
}

/// Every index of every `RotBlendFormMaps` object lands inside the array it refers to.
pub open spec fn rot_blend_form_maps_refs_ok(m: &ParsedModel) -> bool {
    forall|i: int| 0 <= i < m.rot_blend_form_maps.raw_count ==> #[trigger] rot_blend_form_maps_refs_ok_at(m, i)
}

/// Checks the indices of the `RotBlendFormMaps` objects field by field, each field over all
/// objects in order; the first one out of range is reported.
pub fn check_rot_blend_form_maps_refs(m: &ParsedModel) -> (r: Result<(), ParseError>)
    requires
        m.rot_blend_form_maps.columns_ok(),
    ensures
        r is Ok <==> rot_blend_form_maps_refs_ok(m),
        r matches Err(e) ==> (e matches ParseError::InvalidReference(f, i) && rot_blend_form_maps_ref_failure(m, f, i as int)),
{
    let n = m.rot_blend_form_maps.raw_count;
    let mut i: usize = 0;
    while i < n
        invariant
            m.rot_blend_form_maps.columns_ok(),
            n == m.rot_blend_form_maps.raw_count,
            i <= n,
            forall|j: int| 0 <= j < i ==> #[trigger] rot_blend_form_maps_rot_in_range(m, j),
        decreases n - i,
    {
        if !((m.rot_blend_form_maps.i_rot[i].0 as usize) < m.rot_deformer.raw_count) {
            assert(!rot_blend_form_maps_rot_in_range(m, i as int));
            assert(!rot_blend_form_maps_refs_ok_at(m, i as int));
            return Err(ParseError::InvalidReference("RotBlendFormMaps.rot", i));
        }
        i = i + 1;
    }
    let mut i: usize = 0;
    while i < n
        invariant
            m.rot_blend_form_maps.columns_ok(),
            n == m.rot_blend_form_maps.raw_count,
            i <= n,
            forall|j: int| 0 <= j < n ==> #[trigger] rot_blend_form_maps_rot_in_range(m, j),
            forall|j: int| 0 <= j < i ==> #[trigger] rot_blend_form_maps_maps_in_range(m, j),
        decreases n - i,
    {
        if !((m.rot_blend_form_maps.i_maps[i].0 as u64) + (m.rot_blend_form_maps.cnt_maps[i] as u64) <= (m.blend_form_map.raw_count as u64)) {
            assert(!rot_blend_form_maps_maps_in_range(m, i as int));
            assert(!rot_blend_form_maps_refs_ok_at(m, i as int));
            return Err(ParseError::InvalidReference("RotBlendFormMaps.maps", i));
        }
        i = i + 1;
    }
    assert forall|i: int| 0 <= i < n implies #[trigger] rot_blend_form_maps_refs_ok_at(m, i) by {
        assert(rot_blend_form_maps_rot_in_range(m, i));
        assert(rot_blend_form_maps_maps_in_range(m, i));
    }
    Ok(())
}

/// Every index of `GlueBlendFormMaps` object `i` lands inside the array it refers to.
pub open spec fn glue_blend_form_maps_refs_ok_at(m: &ParsedModel, i: int) -> bool {
    &&& (m.glue_blend_form_maps.i_glue@[i].0 as int) < (m.glue.raw_count as int)
    &&& m.glue_blend_form_maps.i_maps@[i].0 + m.glue_blend_form_maps.cnt_maps@[i] <= m.blend_form_map.raw_count
}

/// Field `glue` of `GlueBlendFormMaps` object `i` lands inside the array it refers to.
pub open spec fn glue_blend_form_maps_glue_in_range(m: &ParsedModel, i: int) -> bool {
    (m.glue_blend_form_maps.i_glue@[i].0 as int) < (m.glue.raw_count as int)
}

/// Field `maps` of `GlueBlendFormMaps` object `i` lands inside the array it refers to.
pub open spec fn glue_blend_form_maps_maps_in_range(m: &ParsedModel, i: int) -> bool {
    m.glue_blend_form_maps.i_maps@[i].0 + m.glue_blend_form_maps.cnt_maps@[i] <= m.blend_form_map.raw_count
}

/// The check of the `GlueBlendFormMaps` indices reports field `f` of object `i`: the fields are
/// checked one after the other, each over all objects in order, so `f` is the first
/// field with an index out of range and `i` the first object whose `f` is out of range.
pub open spec fn glue_blend_form_maps_ref_failure(m: &ParsedModel, f: &'static str, i: int) -> bool {
    &&& 0 <= i < m.glue_blend_form_maps.raw_count
    &&& ((f == "GlueBlendFormMaps.glue" && !glue_blend_form_maps_glue_in_range(m, i)
            && (forall|j: int| 0 <= j < i ==> #[trigger] glue_blend_form_maps_glue_in_range(m, j))
        )
        || (f == "GlueBlendFormMaps.maps" && !glue_blend_form_maps_maps_in_range(m, i)
            && (forall|j: int| 0 <= j < i ==> #[trigger] glue_blend_form_maps_maps_in_range(m, j))
            && (forall|j: int| 0 <= j < m.glue_blend_form_maps.raw_count ==> #[trigger] glue_blend_form_maps_glue_in_range(m, j))
        )
    )
}

/// Every index of every `GlueBlendFormMaps` object lands inside the array it refers to.
pub open spec fn glue_blend_form_maps_refs_ok(m: &ParsedModel) -> bool {
    forall|i: int| 0 <= i < m.glue_blend_form_maps.raw_count ==> #[trigger] glue_blend_form_maps_refs_ok_at(m, i)
}

/// Checks the indices of the `GlueBlendFormMaps` objects field by field, each field over all
/// objects in order; the first one out of range is reported.
pub fn check_glue_blend_form_maps_refs(m: &ParsedModel) -> (r: Result<(), ParseError>)
    requires
        m.glue_blend_form_maps.columns_ok(),
    ensures
        r is Ok <==> glue_blend_form_maps_refs_ok(m),
        r matches Err(e) ==> (e matches ParseError::InvalidReference(f, i) && glue_blend_form_maps_ref_failure(m, f, i as int)),
{
    let n = m.glue_blend_form_maps.raw_count;
    let mut i: usize = 0;
    while i < n
        invariant
            m.glue_blend_form_maps.columns_ok(),
            n == m.glue_blend_form_maps.raw_count,
            i <= n,
            forall|j: int| 0 <= j < i ==> #[trigger] glue_blend_form_maps_glue_in_range(m, j),
        decreases n - i,
    {
        if !((m.glue_blend_form_maps.i_glue[i].0 as usize) < m.glue.raw_count) {
            assert(!glue_blend_form_maps_glue_in_range(m, i as int));
            assert(!glue_blend_form_maps_refs_ok_at(m, i as int));
            return Err(ParseError::InvalidReference("GlueBlendFormMaps.glue", i));
        }
        i = i + 1;
    }
    let mut i: usize = 0;
    while i < n
        invariant
            m.glue_blend_form_maps.columns_ok(),
            n == m.glue_blend_form_maps.raw_count,
            i <= n,
            forall|j: int| 0 <= j < n ==> #[trigger] glue_blend_form_maps_glue_in_range(m, j),
            forall|j: int| 0 <= j < i ==> #[trigger] glue_blend_form_maps_maps_in_range(m, j),
        decreases n - i,
    {
        if !((m.glue_blend_form_maps.i_maps[i].0 as u64) + (m.glue_blend_form_maps.cnt_maps[i] as u64) <= (m.blend_form_map.raw_count as u64)) {
            assert(!glue_blend_form_maps_maps_in_range(m, i as int));
            assert(!glue_blend_form_maps_refs_ok_at(m, i as int));
            return Err(ParseError::InvalidReference("GlueBlendFormMaps.maps", i));
        }
        i = i + 1;
    }
    assert forall|i: int| 0 <= i < n implies #[trigger] glue_blend_form_maps_refs_ok_at(m, i) by {
        assert(glue_blend_form_maps_glue_in_range(m, i));
        assert(glue_blend_form_maps_maps_in_range(m, i));
    }
    Ok(())
}

/// Every index of `OffscreenPart` object `i` lands inside the array it refers to.
pub open spec fn offscreen_part_refs_ok_at(m: &ParsedModel, i: int) -> bool {
    &&& (m.offscreen_part.i_part@[i].0 as int) < (m.part.raw_count as int)
    &&& m.offscreen_part.i_clips@[i].0 + m.offscreen_part.cnt_clips@[i] <= m.art_mesh_ref.raw_count
    &&& (opt_idx_get(m.offscreen_part.i_blend_form_maps@[i].0) matches Some(j) ==> (j as int) < (m.offscreen_part_blend_form_maps.raw_count as int))
}

/// Field `part` of `OffscreenPart` object `i` lands inside the array it refers to.
pub open spec fn offscreen_part_part_in_range(m: &ParsedModel, i: int) -> bool {
    (m.offscreen_part.i_part@[i].0 as int) < (m.part.raw_count as int)
}

/// Field `clips` of `OffscreenPart` object `i` lands inside the array it refers to.
pub open spec fn offscreen_part_clips_in_range(m: &ParsedModel, i: int) -> bool {
    m.offscreen_part.i_clips@[i].0 + m.offscreen_part.cnt_clips@[i] <= m.art_mesh_ref.raw_count
}

/// Field `blend_form_maps` of `OffscreenPart` object `i` lands inside the array it refers to.
pub open spec fn offscreen_part_blend_form_maps_in_range(m: &ParsedModel, i: int) -> bool {
    (opt_idx_get(m.offscreen_part.i_blend_form_maps@[i].0) matches Some(j) ==> (j as int) < (m.offscreen_part_blend_form_maps.raw_count as int))
}

/// The check of the `OffscreenPart` indices reports field `f` of object `i`: the fields are
/// checked one after the other, each over all objects in order, so `f` is the first
/// field with an index out of range and `i` the first object whose `f` is out of range.
pub open spec fn offscreen_part_ref_failure(m: &ParsedModel, f: &'static str, i: int) -> bool {
    &&& 0 <= i < m.offscreen_part.raw_count
    &&& ((f == "OffscreenPart.part" && !offscreen_part_part_in_range(m, i)
            && (forall|j: int| 0 <= j < i ==> #[trigger] offscreen_part_part_in_range(m, j))
        )
        || (f == "OffscreenPart.clips" && !offscreen_part_clips_in_range(m, i)
            && (forall|j: int| 0 <= j < i ==> #[trigger] offscreen_part_clips_in_range(m, j))
            && (forall|j: int| 0 <= j < m.offscreen_part.raw_count ==> #[trigger] offscreen_part_part_in_range(m, j))
        )
        || (f == "OffscreenPart.blend_form_maps" && !offscreen_part_blend_form_maps_in_range(m, i)
            && (forall|j: int| 0 <= j < i ==> #[trigger] offscreen_part_blend_form_maps_in_range(m, j))
            && (forall|j: int| 0 <= j < m.offscreen_part.raw_count ==> #[trigger] offscreen_part_part_in_range(m, j))
            && (forall|j: int| 0 <= j < m.offscreen_part.raw_count ==> #[trigger] offscreen_part_clips_in_range(m, j))
        )
    )
}

/// Every index of every `OffscreenPart` object lands inside the array it refers to.
pub open spec fn offscreen_part_refs_ok(m: &ParsedModel) -> bool {
    forall|i: int| 0 <= i < m.offscreen_part.raw_count ==> #[trigger] offscreen_part_refs_ok_at(m, i)
}

/// Checks the indices of the `OffscreenPart` objects field by field, each field over all
/// objects in order; the first one out of range is reported.
pub fn check_offscreen_part_refs(m: &ParsedModel) -> (r: Result<(), ParseError>)
    requires
        m.offscreen_part.columns_ok(),
    ensures
        r is Ok <==> offscreen_part_refs_ok(m),
        r matches Err(e) ==> (e matches ParseError::InvalidReference(f, i) && offscreen_part_ref_failure(m, f, i as int)),
{
    let n = m.offscreen_part.raw_count;
    let mut i: usize = 0;
    while i < n
        invariant
            m.offscreen_part.columns_ok(),
            n == m.offscreen_part.raw_count,
            i <= n,
            forall|j: int| 0 <= j < i ==> #[trigger] offscreen_part_part_in_range(m, j),
        decreases n - i,
    {
        if !((m.offscreen_part.i_part[i].0 as usize) < m.part.raw_count) {
            assert(!offscreen_part_part_in_range(m, i as int));
            assert(!offscreen_part_refs_ok_at(m, i as int));
            return Err(ParseError::InvalidReference("OffscreenPart.part", i));
        }
        i = i + 1;
    }
    let mut i: usize = 0;
    while i < n
        invariant
            m.offscreen_part.columns_ok(),
            n == m.offscreen_part.raw_count,
            i <= n,
            forall|j: int| 0 <= j < n ==> #[trigger] offscreen_part_part_in_range(m, j),
            forall|j: int| 0 <= j < i ==> #[trigger] offscreen_part_clips_in_range(m, j),
        decreases n - i,
    {
        if !((m.offscreen_part.i_clips[i].0 as u64) + (m.offscreen_part.cnt_clips[i] as u64) <= (m.art_mesh_ref.raw_count as u64)) {
            assert(!offscreen_part_clips_in_range(m, i as int));
            assert(!offscreen_part_refs_ok_at(m, i as int));
            return Err(ParseError::InvalidReference("OffscreenPart.clips", i));
        }
        i = i + 1;
    }
    let mut i: usize = 0;
    while i < n
        invariant
            m.offscreen_part.columns_ok(),
            n == m.offscreen_part.raw_count,
            i <= n,
            forall|j: int| 0 <= j < n ==> #[trigger] offscreen_part_part_in_range(m, j),
            forall|j: int| 0 <= j < n ==> #[trigger] offscreen_part_clips_in_range(m, j),
            forall|j: int| 0 <= j < i ==> #[trigger] offscreen_part_blend_form_maps_in_range(m, j),
        decreases n - i,
    {
        let ok = match m.offscreen_part.i_blend_form_maps[i].to_index() {
            Some(x) => (x.0 as usize) < m.offscreen_part_blend_form_maps.raw_count,
            None => true,
        };
        if !ok {
            assert(!offscreen_part_blend_form_maps_in_range(m, i as int));
            assert(!offscreen_part_refs_ok_at(m, i as int));
            return Err(ParseError::InvalidReference("OffscreenPart.blend_form_maps", i));
        }
        i = i + 1;
    }
    assert forall|i: int| 0 <= i < n implies #[trigger] offscreen_part_refs_ok_at(m, i) by {
        assert(offscreen_part_part_in_range(m, i));
        assert(offscreen_part_clips_in_range(m, i));
        assert(offscreen_part_blend_form_maps_in_range(m, i));
    }
    Ok(())
}

/// Every index of `OffscreenPartForm` object `i` lands inside the array it refers to.
pub open spec fn offscreen_part_form_refs_ok_at(m: &ParsedModel, i: int) -> bool {
    &&& (m.offscreen_part_form.i_multiply_color@[i].0 as int) < (m.multiply_color.raw_count as int)
    &&& (m.offscreen_part_form.i_screen_color@[i].0 as int) < (m.screen_color.raw_count as int)
}

/// Field `multiply_color` of `OffscreenPartForm` object `i` lands inside the array it refers to.
pub open spec fn offscreen_part_form_multiply_color_in_range(m: &ParsedModel, i: int) -> bool {
    (m.offscreen_part_form.i_multiply_color@[i].0 as int) < (m.multiply_color.raw_count as int)
}

/// Field `screen_color` of `OffscreenPartForm` object `i` lands inside the array it refers to.
pub open spec fn offscreen_part_form_screen_color_in_range(m: &ParsedModel, i: int) -> bool {
    (m.offscreen_part_form.i_screen_color@[i].0 as int) < (m.screen_color.raw_count as int)
}

/// The check of the `OffscreenPartForm` indices reports field `f` of object `i`: the fields are
/// checked one after the other, each over all objects in order, so `f` is the first
/// field with an index out of range and `i` the first object whose `f` is out of range.
pub open spec fn offscreen_part_form_ref_failure(m: &ParsedModel, f: &'static str, i: int) -> bool {
    &&& 0 <= i < m.offscreen_part_form.raw_count
    &&& ((f == "OffscreenPartForm.multiply_color" && !offscreen_part_form_multiply_color_in_range(m, i)
            && (forall|j: int| 0 <= j < i ==> #[trigger] offscreen_part_form_multiply_color_in_range(m, j))
        )
        || (f == "OffscreenPartForm.screen_color" && !offscreen_part_form_screen_color_in_range(m, i)
            && (forall|j: int| 0 <= j < i ==> #[trigger] offscreen_part_form_screen_color_in_range(m, j))
            && (forall|j: int| 0 <= j < m.offscreen_part_form.raw_count ==> #[trigger] offscreen_part_form_multiply_color_in_range(m, j))
        )
    )
}

/// Every index of every `OffscreenPartForm` object lands inside the array it refers to.
pub open spec fn offscreen_part_form_refs_ok(m: &ParsedModel) -> bool {
    forall|i: int| 0 <= i < m.offscreen_part_form.raw_count ==> #[trigger] offscreen_part_form_refs_ok_at(m, i)
}

/// Checks the indices of the `OffscreenPartForm` objects field by field, each field over all
/// objects in order; the first one out of range is reported.
pub fn check_offscreen_part_form_refs(m: &ParsedModel) -> (r: Result<(), ParseError>)
    requires
        m.offscreen_part_form.columns_ok(),
    ensures
        r is Ok <==> offscreen_part_form_refs_ok(m),
        r matches Err(e) ==> (e matches ParseError::InvalidReference(f, i) && offscreen_part_form_ref_failure(m, f, i as int)),
{
    let n = m.offscreen_part_form.raw_count;
    let mut i: usize = 0;
    while i < n
        invariant
            m.offscreen_part_form.columns_ok(),
            n == m.offscreen_part_form.raw_count,
            i <= n,
            forall|j: int| 0 <= j < i ==> #[trigger] offscreen_part_form_multiply_color_in_range(m, j),
        decreases n - i,
    {
        if !((m.offscreen_part_form.i_multiply_color[i].0 as usize) < m.multiply_color.raw_count) {
            assert(!offscreen_part_form_multiply_color_in_range(m, i as int));
            assert(!offscreen_part_form_refs_ok_at(m, i as int));
            return Err(ParseError::InvalidReference("OffscreenPartForm.multiply_color", i));
        }
        i = i + 1;
    }
    let mut i: usize = 0;
    while i < n
        invariant
            m.offscreen_part_form.columns_ok(),
            n == m.offscreen_part_form.raw_count,
            i <= n,
            forall|j: int| 0 <= j < n ==> #[trigger] offscreen_part_form_multiply_color_in_range(m, j),
            forall|j: int| 0 <= j < i ==> #[trigger] offscreen_part_form_screen_color_in_range(m, j),
        decreases n - i,
    {
        if !((m.offscreen_part_form.i_screen_color[i].0 as usize) < m.screen_color.raw_count) {
            assert(!offscreen_part_form_screen_color_in_range(m, i as int));
            assert(!offscreen_part_form_refs_ok_at(m, i as int));
            return Err(ParseError::InvalidReference("OffscreenPartForm.screen_color", i));
        }
        i = i + 1;
    }
    assert forall|i: int| 0 <= i < n implies #[trigger] offscreen_part_form_refs_ok_at(m, i) by {
        assert(offscreen_part_form_multiply_color_in_range(m, i));
        assert(offscreen_part_form_screen_color_in_range(m, i));
    }
    Ok(())
}

/// Every index of `OffscreenPartBlendFormMaps` object `i` lands inside the array it refers to.
pub open spec fn offscreen_part_blend_form_maps_refs_ok_at(m: &ParsedModel, i: int) -> bool {
    &&& (m.offscreen_part_blend_form_maps.i_offscreen_part@[i].0 as int) < (m.offscreen_part.raw_count as int)
    &&& m.offscreen_part_blend_form_maps.i_maps@[i].0 + m.offscreen_part_blend_form_maps.cnt_maps@[i] <= m.blend_form_map.raw_count
}

/// Field `offscreen_part` of `OffscreenPartBlendFormMaps` object `i` lands inside the array it refers to.
pub open spec fn offscreen_part_blend_form_maps_offscreen_part_in_range(m: &ParsedModel, i: int) -> bool {
    (m.offscreen_part_blend_form_maps.i_offscreen_part@[i].0 as int) < (m.offscreen_part.raw_count as int)
}

/// Field `maps` of `OffscreenPartBlendFormMaps` object `i` lands inside the array it refers to.
pub open spec fn offscreen_part_blend_form_maps_maps_in_range(m: &ParsedModel, i: int) -> bool {
    m.offscreen_part_blend_form_maps.i_maps@[i].0 + m.offscreen_part_blend_form_maps.cnt_maps@[i] <= m.blend_form_map.raw_count
}

/// The check of the `OffscreenPartBlendFormMaps` indices reports field `f` of object `i`: the fields are
/// checked one after the other, each over all objects in order, so `f` is the first
/// field with an index out of range and `i` the first object whose `f` is out of range.
pub open spec fn offscreen_part_blend_form_maps_ref_failure(m: &ParsedModel, f: &'static str, i: int) -> bool {
    &&& 0 <= i < m.offscreen_part_blend_form_maps.raw_count
    &&& ((f == "OffscreenPartBlendFormMaps.offscreen_part" && !offscreen_part_blend_form_maps_offscreen_part_in_range(m, i)
            && (forall|j: int| 0 <= j < i ==> #[trigger] offscreen_part_blend_form_maps_offscreen_part_in_range(m, j))
        )
        || (f == "OffscreenPartBlendFormMaps.maps" && !offscreen_part_blend_form_maps_maps_in_range(m, i)
            && (forall|j: int| 0 <= j < i ==> #[trigger] offscreen_part_blend_form_maps_maps_in_range(m, j))
            && (forall|j: int| 0 <= j < m.offscreen_part_blend_form_maps.raw_count ==> #[trigger] offscreen_part_blend_form_maps_offscreen_part_in_range(m, j))
        )
    )
}

/// Every index of every `OffscreenPartBlendFormMaps` object lands inside the array it refers to.
pub open spec fn offscreen_part_blend_form_maps_refs_ok(m: &ParsedModel) -> bool {
    forall|i: int| 0 <= i < m.offscreen_part_blend_form_maps.raw_count ==> #[trigger] offscreen_part_blend_form_maps_refs_ok_at(m, i)
}

/// Checks the indices of the `OffscreenPartBlendFormMaps` objects field by field, each field over all
/// objects in order; the first one out of range is reported.
pub fn check_offscreen_part_blend_form_maps_refs(m: &ParsedModel) -> (r: Result<(), ParseError>)
    requires
        m.offscreen_part_blend_form_maps.columns_ok(),
    ensures
        r is Ok <==> offscreen_part_blend_form_maps_refs_ok(m),
        r matches Err(e) ==> (e matches ParseError::InvalidReference(f, i) && offscreen_part_blend_form_maps_ref_failure(m, f, i as int)),
{
    let n = m.offscreen_part_blend_form_maps.raw_count;
    let mut i: usize = 0;
    while i < n
        invariant
            m.offscreen_part_blend_form_maps.columns_ok(),
            n == m.offscreen_part_blend_form_maps.raw_count,
            i <= n,
            forall|j: int| 0 <= j < i ==> #[trigger] offscreen_part_blend_form_maps_offscreen_part_in_range(m, j),
        decreases n - i,
    {
        if !((m.offscreen_part_blend_form_maps.i_offscreen_part[i].0 as usize) < m.offscreen_part.raw_count) {
            assert(!offscreen_part_blend_form_maps_offscreen_part_in_range(m, i as int));
            assert(!offscreen_part_blend_form_maps_refs_ok_at(m, i as int));
            return Err(ParseError::InvalidReference("OffscreenPartBlendFormMaps.offscreen_part", i));
        }
        i = i + 1;
    }
    let mut i: usize = 0;
    while i < n
        invariant
            m.offscreen_part_blend_form_maps.columns_ok(),
            n == m.offscreen_part_blend_form_maps.raw_count,
            i <= n,
            forall|j: int| 0 <= j < n ==> #[trigger] offscreen_part_blend_form_maps_offscreen_part_in_range(m, j),
            forall|j: int| 0 <= j < i ==> #[trigger] offscreen_part_blend_form_maps_maps_in_range(m, j),
        decreases n - i,
    {
        if !((m.offscreen_part_blend_form_maps.i_maps[i].0 as u64) + (m.offscreen_part_blend_form_maps.cnt_maps[i] as u64) <= (m.blend_form_map.raw_count as u64)) {
            assert(!offscreen_part_blend_form_maps_maps_in_range(m, i as int));
            assert(!offscreen_part_blend_form_maps_refs_ok_at(m, i as int));
            return Err(ParseError::InvalidReference("OffscreenPartBlendFormMaps.maps", i));
        }
        i = i + 1;
    }
    assert forall|i: int| 0 <= i < n implies #[trigger] offscreen_part_blend_form_maps_refs_ok_at(m, i) by {
        assert(offscreen_part_blend_form_maps_offscreen_part_in_range(m, i));
        assert(offscreen_part_blend_form_maps_maps_in_range(m, i));
    }
    Ok(())
}

/// `e` is what the model's index check reports: the classes are checked in file
/// order, and the first class with an index out of range reports its first failure.
pub open spec fn ref_failure(m: &ParsedModel, e: ParseError) -> bool {
    match e {
        ParseError::InvalidReference(f, i) => {
            (part_ref_failure(m, f, i as int))
            || (part_refs_ok(m) && deformer_ref_failure(m, f, i as int))
            || (part_refs_ok(m) && deformer_refs_ok(m) && warp_deformer_ref_failure(m, f, i as int))
            || (part_refs_ok(m) && deformer_refs_ok(m) && warp_deformer_refs_ok(m) && rot_deformer_ref_failure(m, f, i as int))
            || (part_refs_ok(m) && deformer_refs_ok(m) && warp_deformer_refs_ok(m) && rot_deformer_refs_ok(m) && art_mesh_ref_failure(m, f, i as int))
            || (part_refs_ok(m) && deformer_refs_ok(m) && warp_deformer_refs_ok(m) && rot_deformer_refs_ok(m) && art_mesh_refs_ok(m) && param_ref_failure(m, f, i as int))
            || (part_refs_ok(m) && deformer_refs_ok(m) && warp_deformer_refs_ok(m) && rot_deformer_refs_ok(m) && art_mesh_refs_ok(m) && param_refs_ok(m) && part_form_ref_failure(m, f, i as int))
            || (part_refs_ok(m) && deformer_refs_ok(m) && warp_deformer_refs_ok(m) && rot_deformer_refs_ok(m) && art_mesh_refs_ok(m) && param_refs_ok(m) && part_form_refs_ok(m) && warp_form_ref_failure(m, f, i as int))
            || (part_refs_ok(m) && deformer_refs_ok(m) && warp_deformer_refs_ok(m) && rot_deformer_refs_ok(m) && art_mesh_refs_ok(m) && param_refs_ok(m) && part_form_refs_ok(m) && warp_form_refs_ok(m) && rot_form_ref_failure(m, f, i as int))
            || (part_refs_ok(m) && deformer_refs_ok(m) && warp_deformer_refs_ok(m) && rot_deformer_refs_ok(m) && art_mesh_refs_ok(m) && param_refs_ok(m) && part_form_refs_ok(m) && warp_form_refs_ok(m) && rot_form_refs_ok(m) && art_mesh_form_ref_failure(m, f, i as int))
            || (part_refs_ok(m) && deformer_refs_ok(m) && warp_deformer_refs_ok(m) && rot_deformer_refs_ok(m) && art_mesh_refs_ok(m) && param_refs_ok(m) && part_form_refs_ok(m) && warp_form_refs_ok(m) && rot_form_refs_ok(m) && art_mesh_form_refs_ok(m) && param_map_ref_ref_failure(m, f, i as int))
            || (part_refs_ok(m) && deformer_refs_ok(m) && warp_deformer_refs_ok(m) && rot_deformer_refs_ok(m) && art_mesh_refs_ok(m) && param_refs_ok(m) && part_form_refs_ok(m) && warp_form_refs_ok(m) && rot_form_refs_ok(m) && art_mesh_form_refs_ok(m) && param_map_ref_refs_ok(m) && param_map_set_ref_failure(m, f, i as int))
            || (part_refs_ok(m) && deformer_refs_ok(m) && warp_deformer_refs_ok(m) && rot_deformer_refs_ok(m) && art_mesh_refs_ok(m) && param_refs_ok(m) && part_form_refs_ok(m) && warp_form_refs_ok(m) && rot_form_refs_ok(m) && art_mesh_form_refs_ok(m) && param_map_ref_refs_ok(m) && param_map_set_refs_ok(m) && param_map_ref_failure(m, f, i as int))
            || (part_refs_ok(m) && deformer_refs_ok(m) && warp_deformer_refs_ok(m) && rot_deformer_refs_ok(m) && art_mesh_refs_ok(m) && param_refs_ok(m) && part_form_refs_ok(m) && warp_form_refs_ok(m) && rot_form_refs_ok(m) && art_mesh_form_refs_ok(m) && param_map_ref_refs_ok(m) && param_map_set_refs_ok(m) && param_map_refs_ok(m) && art_mesh_ref_ref_failure(m, f, i as int))
            || (part_refs_ok(m) && deformer_refs_ok(m) && warp_deformer_refs_ok(m) && rot_deformer_refs_ok(m) && art_mesh_refs_ok(m) && param_refs_ok(m) && part_form_refs_ok(m) && warp_form_refs_ok(m) && rot_form_refs_ok(m) && art_mesh_form_refs_ok(m) && param_map_ref_refs_ok(m) && param_map_set_refs_ok(m) && param_map_refs_ok(m) && art_mesh_ref_refs_ok(m) && draw_group_ref_failure(m, f, i as int))
            || (part_refs_ok(m) && deformer_refs_ok(m) && warp_deformer_refs_ok(m) && rot_deformer_refs_ok(m) && art_mesh_refs_ok(m) && param_refs_ok(m) && part_form_refs_ok(m) && warp_form_refs_ok(m) && rot_form_refs_ok(m) && art_mesh_form_refs_ok(m) && param_map_ref_refs_ok(m) && param_map_set_refs_ok(m) && param_map_refs_ok(m) && art_mesh_ref_refs_ok(m) && draw_group_refs_ok(m) && draw_item_ref_failure(m, f, i as int))
            || (part_refs_ok(m) && deformer_refs_ok(m) && warp_deformer_refs_ok(m) && rot_deformer_refs_ok(m) && art_mesh_refs_ok(m) && param_refs_ok(m) && part_form_refs_ok(m) && warp_form_refs_ok(m) && rot_form_refs_ok(m) && art_mesh_form_refs_ok(m) && param_map_ref_refs_ok(m) && param_map_set_refs_ok(m) && param_map_refs_ok(m) && art_mesh_ref_refs_ok(m) && draw_group_refs_ok(m) && draw_item_refs_ok(m) && glue_ref_failure(m, f, i as int))
            || (part_refs_ok(m) && deformer_refs_ok(m) && warp_deformer_refs_ok(m) && rot_deformer_refs_ok(m) && art_mesh_refs_ok(m) && param_refs_ok(m) && part_form_refs_ok(m) && warp_form_refs_ok(m) && rot_form_refs_ok(m) && art_mesh_form_refs_ok(m) && param_map_ref_refs_ok(m) && param_map_set_refs_ok(m) && param_map_refs_ok(m) && art_mesh_ref_refs_ok(m) && draw_group_refs_ok(m) && draw_item_refs_ok(m) && glue_refs_ok(m) && blend_param_map_ref_failure(m, f, i as int))
            || (part_refs_ok(m) && deformer_refs_ok(m) && warp_deformer_refs_ok(m) && rot_deformer_refs_ok(m) && art_mesh_refs_ok(m) && param_refs_ok(m) && part_form_refs_ok(m) && warp_form_refs_ok(m) && rot_form_refs_ok(m) && art_mesh_form_refs_ok(m) && param_map_ref_refs_ok(m) && param_map_set_refs_ok(m) && param_map_refs_ok(m) && art_mesh_ref_refs_ok(m) && draw_group_refs_ok(m) && draw_item_refs_ok(m) && glue_refs_ok(m) && blend_param_map_refs_ok(m) && blend_form_map_ref_failure(m, f, i as int))
            || (part_refs_ok(m) && deformer_refs_ok(m) && warp_deformer_refs_ok(m) && rot_deformer_refs_ok(m) && art_mesh_refs_ok(m) && param_refs_ok(m) && part_form_refs_ok(m) && warp_form_refs_ok(m) && rot_form_refs_ok(m) && art_mesh_form_refs_ok(m) && param_map_ref_refs_ok(m) && param_map_set_refs_ok(m) && param_map_refs_ok(m) && art_mesh_ref_refs_ok(m) && draw_group_refs_ok(m) && draw_item_refs_ok(m) && glue_refs_ok(m) && blend_param_map_refs_ok(m) && blend_form_map_refs_ok(m) && warp_blend_form_maps_ref_failure(m, f, i as int))
            || (part_refs_ok(m) && deformer_refs_ok(m) && warp_deformer_refs_ok(m) && rot_deformer_refs_ok(m) && art_mesh_refs_ok(m) && param_refs_ok(m) && part_form_refs_ok(m) && warp_form_refs_ok(m) && rot_form_refs_ok(m) && art_mesh_form_refs_ok(m) && param_map_ref_refs_ok(m) && param_map_set_refs_ok(m) && param_map_refs_ok(m) && art_mesh_ref_refs_ok(m) && draw_group_refs_ok(m) && draw_item_refs_ok(m) && glue_refs_ok(m) && blend_param_map_refs_ok(m) && blend_form_map_refs_ok(m) && warp_blend_form_maps_refs_ok(m) && art_mesh_blend_form_maps_ref_failure(m, f, i as int))
            || (part_refs_ok(m) && deformer_refs_ok(m) && warp_deformer_refs_ok(m) && rot_deformer_refs_ok(m) && art_mesh_refs_ok(m) && param_refs_ok(m) && part_form_refs_ok(m) && warp_form_refs_ok(m) && rot_form_refs_ok(m) && art_mesh_form_refs_ok(m) && param_map_ref_refs_ok(m) && param_map_set_refs_ok(m) && param_map_refs_ok(m) && art_mesh_ref_refs_ok(m) && draw_group_refs_ok(m) && draw_item_refs_ok(m) && glue_refs_ok(m) && blend_param_map_refs_ok(m) && blend_form_map_refs_ok(m) && warp_blend_form_maps_refs_ok(m) && art_mesh_blend_form_maps_refs_ok(m) && blend_weight_limit_ref_ref_failure(m, f, i as int))
            || (part_refs_ok(m) && deformer_refs_ok(m) && warp_deformer_refs_ok(m) && rot_deformer_refs_ok(m) && art_mesh_refs_ok(m) && param_refs_ok(m) && part_form_refs_ok(m) && warp_form_refs_ok(m) && rot_form_refs_ok(m) && art_mesh_form_refs_ok(m) && param_map_ref_refs_ok(m) && param_map_set_refs_ok(m) && param_map_refs_ok(m) && art_mesh_ref_refs_ok(m) && draw_group_refs_ok(m) && draw_item_refs_ok(m) && glue_refs_ok(m) && blend_param_map_refs_ok(m) && blend_form_map_refs_ok(m) && warp_blend_form_maps_refs_ok(m) && art_mesh_blend_form_maps_refs_ok(m) && blend_weight_limit_ref_refs_ok(m) && blend_weight_limit_ref_failure(m, f, i as int))
            || (part_refs_ok(m) && deformer_refs_ok(m) && warp_deformer_refs_ok(m) && rot_deformer_refs_ok(m) && art_mesh_refs_ok(m) && param_refs_ok(m) && part_form_refs_ok(m) && warp_form_refs_ok(m) && rot_form_refs_ok(m) && art_mesh_form_refs_ok(m) && param_map_ref_refs_ok(m) && param_map_set_refs_ok(m) && param_map_refs_ok(m) && art_mesh_ref_refs_ok(m) && draw_group_refs_ok(m) && draw_item_refs_ok(m) && glue_refs_ok(m) && blend_param_map_refs_ok(m) && blend_form_map_refs_ok(m) && warp_blend_form_maps_refs_ok(m) && art_mesh_blend_form_maps_refs_ok(m) && blend_weight_limit_ref_refs_ok(m) && blend_weight_limit_refs_ok(m) && part_blend_form_maps_ref_failure(m, f, i as int))
            || (part_refs_ok(m) && deformer_refs_ok(m) && warp_deformer_refs_ok(m) && rot_deformer_refs_ok(m) && art_mesh_refs_ok(m) && param_refs_ok(m) && part_form_refs_ok(m) && warp_form_refs_ok(m) && rot_form_refs_ok(m) && art_mesh_form_refs_ok(m) && param_map_ref_refs_ok(m) && param_map_set_refs_ok(m) && param_map_refs_ok(m) && art_mesh_ref_refs_ok(m) && draw_group_refs_ok(m) && draw_item_refs_ok(m) && glue_refs_ok(m) && blend_param_map_refs_ok(m) && blend_form_map_refs_ok(m) && warp_blend_form_maps_refs_ok(m) && art_mesh_blend_form_maps_refs_ok(m) && blend_weight_limit_ref_refs_ok(m) && blend_weight_limit_refs_ok(m) && part_blend_form_maps_refs_ok(m) && rot_blend_form_maps_ref_failure(m, f, i as int))
            || (part_refs_ok(m) && deformer_refs_ok(m) && warp_deformer_refs_ok(m) && rot_deformer_refs_ok(m) && art_mesh_refs_ok(m) && param_refs_ok(m) && part_form_refs_ok(m) && warp_form_refs_ok(m) && rot_form_refs_ok(m) && art_mesh_form_refs_ok(m) && param_map_ref_refs_ok(m) && param_map_set_refs_ok(m) && param_map_refs_ok(m) && art_mesh_ref_refs_ok(m) && draw_group_refs_ok(m) && draw_item_refs_ok(m) && glue_refs_ok(m) && blend_param_map_refs_ok(m) && blend_form_map_refs_ok(m) && warp_blend_form_maps_refs_ok(m) && art_mesh_blend_form_maps_refs_ok(m) && blend_weight_limit_ref_refs_ok(m) && blend_weight_limit_refs_ok(m) && part_blend_form_maps_refs_ok(m) && rot_blend_form_maps_refs_ok(m) && glue_blend_form_maps_ref_failure(m, f, i as int))
            || (part_refs_ok(m) && deformer_refs_ok(m) && warp_deformer_refs_ok(m) && rot_deformer_refs_ok(m) && art_mesh_refs_ok(m) && param_refs_ok(m) && part_form_refs_ok(m) && warp_form_refs_ok(m) && rot_form_refs_ok(m) && art_mesh_form_refs_ok(m) && param_map_ref_refs_ok(m) && param_map_set_refs_ok(m) && param_map_refs_ok(m) && art_mesh_ref_refs_ok(m) && draw_group_refs_ok(m) && draw_item_refs_ok(m) && glue_refs_ok(m) && blend_param_map_refs_ok(m) && blend_form_map_refs_ok(m) && warp_blend_form_maps_refs_ok(m) && art_mesh_blend_form_maps_refs_ok(m) && blend_weight_limit_ref_refs_ok(m) && blend_weight_limit_refs_ok(m) && part_blend_form_maps_refs_ok(m) && rot_blend_form_maps_refs_ok(m) && glue_blend_form_maps_refs_ok(m) && offscreen_part_ref_failure(m, f, i as int))
            || (part_refs_ok(m) && deformer_refs_ok(m) && warp_deformer_refs_ok(m) && rot_deformer_refs_ok(m) && art_mesh_refs_ok(m) && param_refs_ok(m) && part_form_refs_ok(m) && warp_form_refs_ok(m) && rot_form_refs_ok(m) && art_mesh_form_refs_ok(m) && param_map_ref_refs_ok(m) && param_map_set_refs_ok(m) && param_map_refs_ok(m) && art_mesh_ref_refs_ok(m) && draw_group_refs_ok(m) && draw_item_refs_ok(m) && glue_refs_ok(m) && blend_param_map_refs_ok(m) && blend_form_map_refs_ok(m) && warp_blend_form_maps_refs_ok(m) && art_mesh_blend_form_maps_refs_ok(m) && blend_weight_limit_ref_refs_ok(m) && blend_weight_limit_refs_ok(m) && part_blend_form_maps_refs_ok(m) && rot_blend_form_maps_refs_ok(m) && glue_blend_form_maps_refs_ok(m) && offscreen_part_refs_ok(m) && offscreen_part_form_ref_failure(m, f, i as int))
            || (part_refs_ok(m) && deformer_refs_ok(m) && warp_deformer_refs_ok(m) && rot_deformer_refs_ok(m) && art_mesh_refs_ok(m) && param_refs_ok(m) && part_form_refs_ok(m) && warp_form_refs_ok(m) && rot_form_refs_ok(m) && art_mesh_form_refs_ok(m) && param_map_ref_refs_ok(m) && param_map_set_refs_ok(m) && param_map_refs_ok(m) && art_mesh_ref_refs_ok(m) && draw_group_refs_ok(m) && draw_item_refs_ok(m) && glue_refs_ok(m) && blend_param_map_refs_ok(m) && blend_form_map_refs_ok(m) && warp_blend_form_maps_refs_ok(m) && art_mesh_blend_form_maps_refs_ok(m) && blend_weight_limit_ref_refs_ok(m) && blend_weight_limit_refs_ok(m) && part_blend_form_maps_refs_ok(m) && rot_blend_form_maps_refs_ok(m) && glue_blend_form_maps_refs_ok(m) && offscreen_part_refs_ok(m) && offscreen_part_form_refs_ok(m) && offscreen_part_blend_form_maps_ref_failure(m, f, i as int))
        },
        _ => false,
    }
}

/// Every index of every object of the model lands inside the array it refers to.
pub open spec fn refs_ok(m: &ParsedModel) -> bool {
    &&& part_refs_ok(m)
    &&& deformer_refs_ok(m)
    &&& warp_deformer_refs_ok(m)
    &&& rot_deformer_refs_ok(m)
    &&& art_mesh_refs_ok(m)
    &&& param_refs_ok(m)
    &&& part_form_refs_ok(m)
    &&& warp_form_refs_ok(m)
    &&& rot_form_refs_ok(m)
    &&& art_mesh_form_refs_ok(m)
    &&& param_map_ref_refs_ok(m)
    &&& param_map_set_refs_ok(m)
    &&& param_map_refs_ok(m)
    &&& art_mesh_ref_refs_ok(m)
    &&& draw_group_refs_ok(m)
    &&& draw_item_refs_ok(m)
    &&& glue_refs_ok(m)
    &&& blend_param_map_refs_ok(m)
    &&& blend_form_map_refs_ok(m)
    &&& warp_blend_form_maps_refs_ok(m)
    &&& art_mesh_blend_form_maps_refs_ok(m)
    &&& blend_weight_limit_ref_refs_ok(m)
    &&& blend_weight_limit_refs_ok(m)
    &&& part_blend_form_maps_refs_ok(m)
    &&& rot_blend_form_maps_refs_ok(m)
    &&& glue_blend_form_maps_refs_ok(m)
    &&& offscreen_part_refs_ok(m)
    &&& offscreen_part_form_refs_ok(m)
    &&& offscreen_part_blend_form_maps_refs_ok(m)
}

/// Checks every index of the model, class by class in file order.
pub fn check_refs(m: &ParsedModel) -> (r: Result<(), ParseError>)
    requires
        m.columns_ok(),
    ensures
        r is Ok <==> refs_ok(m),
        r matches Err(e) ==> e is InvalidReference && ref_failure(m, e),
{
    match check_part_refs(m) {
        Ok(()) => {},
        Err(e) => { return Err(e); },
    }
    match check_deformer_refs(m) {
        Ok(()) => {},
        Err(e) => { return Err(e); },
    }
    match check_warp_deformer_refs(m) {
        Ok(()) => {},
        Err(e) => { return Err(e); },
    }
    match check_rot_deformer_refs(m) {
        Ok(()) => {},
        Err(e) => { return Err(e); },
    }
    match check_art_mesh_refs(m) {
        Ok(()) => {},
        Err(e) => { return Err(e); },
    }
    match check_param_refs(m) {
        Ok(()) => {},
        Err(e) => { return Err(e); },
    }
    match check_part_form_refs(m) {
        Ok(()) => {},
        Err(e) => { return Err(e); },
    }
    match check_warp_form_refs(m) {
        Ok(()) => {},
        Err(e) => { return Err(e); },
    }
    match check_rot_form_refs(m) {
        Ok(()) => {},
        Err(e) => { return Err(e); },
    }
    match check_art_mesh_form_refs(m) {
        Ok(()) => {},
        Err(e) => { return Err(e); },
    }
    match check_param_map_ref_refs(m) {
        Ok(()) => {},
        Err(e) => { return Err(e); },
    }
    match check_param_map_set_refs(m) {
        Ok(()) => {},
        Err(e) => { return Err(e); },
    }
    match check_param_map_refs(m) {
        Ok(()) => {},
        Err(e) => { return Err(e); },
    }
    match check_art_mesh_ref_refs(m) {
        Ok(()) => {},
        Err(e) => { return Err(e); },
    }
    match check_draw_group_refs(m) {
        Ok(()) => {},
        Err(e) => { return Err(e); },
    }
    match check_draw_item_refs(m) {
        Ok(()) => {},
        Err(e) => { return Err(e); },
    }
    match check_glue_refs(m) {
        Ok(()) => {},
        Err(e) => { return Err(e); },
    }
    match check_blend_param_map_refs(m) {
        Ok(()) => {},
        Err(e) => { return Err(e); },
    }
    match check_blend_form_map_refs(m) {
        Ok(()) => {},
        Err(e) => { return Err(e); },
    }
    match check_warp_blend_form_maps_refs(m) {
        Ok(()) => {},
        Err(e) => { return Err(e); },
    }
    match check_art_mesh_blend_form_maps_refs(m) {
        Ok(()) => {},
        Err(e) => { return Err(e); },
    }
    match check_blend_weight_limit_ref_refs(m) {
        Ok(()) => {},
        Err(e) => { return Err(e); },
    }
    match check_blend_weight_limit_refs(m) {
        Ok(()) => {},
        Err(e) => { return Err(e); },
    }
    match check_part_blend_form_maps_refs(m) {
        Ok(()) => {},
        Err(e) => { return Err(e); },
    }
    match check_rot_blend_form_maps_refs(m) {
        Ok(()) => {},
        Err(e) => { return Err(e); },
    }
    match check_glue_blend_form_maps_refs(m) {
        Ok(()) => {},
        Err(e) => { return Err(e); },
    }
    match check_offscreen_part_refs(m) {
        Ok(()) => {},
        Err(e) => { return Err(e); },
    }
    match check_offscreen_part_form_refs(m) {
        Ok(()) => {},
        Err(e) => { return Err(e); },
    }
    match check_offscreen_part_blend_form_maps_refs(m) {
        Ok(()) => {},
        Err(e) => { return Err(e); },
    }
    Ok(())
}

} // verus!
