use vstd::prelude::*;
use crate::checks::validation_error;
use crate::error::ParseError;
use crate::model::{BlendFormMapView, OffscreenPartBlendFormMapsView, OffscreenPartForm, ParsedModel, PartForm};
use crate::refs::{
    blend_form_map_refs_ok_at,
    offscreen_part_blend_form_maps_refs_ok_at, offscreen_part_refs_ok_at, part_blend_form_maps_refs_ok_at,
    part_refs_ok_at,
};
use crate::types::{opt_idx_get, Idx, ObjectView, OptReference};
use crate::validate::counts_open;
use crate::model::ClassId;

verus! {

/// How many views an iterator over the objects `start..limit` of a class that reaches
/// `count` objects hands out: it stops at the end of the run, or at the first object that
/// the class does not reach.
pub open spec fn run_len(start: int, limit: int, count: int) -> int {
    if start >= limit || start >= count {
        0
    } else if limit <= count {
        limit - start
    } else {
        count - start
    }
}

/// The `t`-th part form of a part blend map, starting at `part_start`, names the `t`-th
/// offscreen form, starting at `offscreen_start`.
pub open spec fn form_pair_ok(m: &ParsedModel, offscreen_start: int, part_start: int, t: int) -> bool {
    opt_idx_get(m.part_form.i_offscreen@[part_start + t].0) == Some((offscreen_start + t) as u32)
}

/// The forms of blend map `bm` (of an offscreen part) and of blend map `pm` (of its part),
/// taken in step as far as both runs go, pair up.
pub open spec fn forms_pair_ok(m: &ParsedModel, bm: int, pm: int) -> bool {
    let os = m.blend_form_map.i_forms@[bm] as int;
    let ps = m.blend_form_map.i_forms@[pm] as int;
    let n1 = run_len(os, os + m.blend_form_map.cnt_forms@[bm], m.offscreen_part_form.count as int);
    let n2 = run_len(ps, ps + m.blend_form_map.cnt_forms@[pm], m.part_form.count as int);
    forall|t: int| 0 <= t < n1 && t < n2 ==> #[trigger] form_pair_ok(m, os, ps, t)
}

/// Blend map `bm` of an offscreen part mirrors blend map `pm` of its part: the same
/// parameter map, the same number of forms, the same weight limits, and paired forms.
pub open spec fn map_pair_ok(m: &ParsedModel, bm: int, pm: int) -> bool {
    &&& m.blend_form_map.i_param_map@[bm].0 == m.blend_form_map.i_param_map@[pm].0
    &&& m.blend_form_map.cnt_forms@[bm] == m.blend_form_map.cnt_forms@[pm]
    &&& m.blend_form_map.i_blendweight_limits@[bm].0 == m.blend_form_map.i_blendweight_limits@[pm].0
    &&& m.blend_form_map.cnt_blendweight_limits@[bm] == m.blend_form_map.cnt_blendweight_limits@[pm]
    &&& forms_pair_ok(m, bm, pm)
}

/// The part blend maps of the part that offscreen blend maps `i` belongs to, if it has any.
pub open spec fn part_maps_of(m: &ParsedModel, i: int) -> Option<u32> {
    let op = m.offscreen_part_blend_form_maps.i_offscreen_part@[i].0 as int;
    let p = m.offscreen_part.i_part@[op].0 as int;
    opt_idx_get(m.part.i_blend_form_maps@[p].0)
}

/// The `k`-th blend map of offscreen blend maps `i` mirrors the `k`-th blend map of its
/// part's blend maps `pb`.
pub open spec fn map_pair_ok_at(m: &ParsedModel, i: int, pb: int, k: int) -> bool {
    map_pair_ok(
        m,
        m.offscreen_part_blend_form_maps.i_maps@[i].0 + k,
        m.part_blend_form_maps.i_maps@[pb].0 + k,
    )
}

/// The check that offscreen blend maps `i` passes once the whole model is validated: its
/// part has blend maps, as many as it has, and they mirror each other one by one.
pub open spec fn offscreen_maps_post_ok(m: &ParsedModel, i: int) -> bool {
    let pb = part_maps_of(m, i);
    &&& pb is Some
    &&& m.offscreen_part_blend_form_maps.cnt_maps@[i] == m.part_blend_form_maps.cnt_maps@[pb.unwrap() as int]
    &&& forall|k: int|
        0 <= k < m.offscreen_part_blend_form_maps.cnt_maps@[i] ==> #[trigger] map_pair_ok_at(m, i, pb.unwrap() as int, k)
}

/// Every blend map's run of forms stays within the range of a 32-bit index.
pub open spec fn blend_forms_fit(m: &ParsedModel) -> bool {
    forall|j: int|
        0 <= j < m.blend_form_map.raw_count ==> #[trigger] m.blend_form_map.i_forms@[j] + m.blend_form_map.cnt_forms@[j]
            <= u32::MAX
}

/// Walks the forms of an offscreen blend map and of its part's blend map in step, as far
/// as both runs go, and tells whether each part form names its offscreen form.
fn forms_pair_up<'model>(map: &BlendFormMapView<'model>, part_map: &BlendFormMapView<'model>) -> (r: bool)
    requires
        map.valid(),
        part_map.valid(),
        map.model == part_map.model,
        map.model.part_form.wf(),
        map.model.blend_form_map.i_forms@[map.idx as int] + map.model.blend_form_map.cnt_forms@[map.idx as int]
            <= u32::MAX,
        map.model.blend_form_map.i_forms@[part_map.idx as int] + map.model.blend_form_map.cnt_forms@[
            part_map.idx as int] <= u32::MAX,
        map.model.blend_form_map.cnt_forms@[map.idx as int] == map.model.blend_form_map.cnt_forms@[
            part_map.idx as int],
    ensures
        r == forms_pair_ok(map.model, map.idx as int, part_map.idx as int),
{
    let ghost m = map.model;
    let ghost os = m.blend_form_map.i_forms@[map.idx as int] as int;
    let ghost ps = m.blend_form_map.i_forms@[part_map.idx as int] as int;
    let ghost fc = m.blend_form_map.cnt_forms@[map.idx as int] as int;
    let ghost n1 = run_len(os, os + fc, m.offscreen_part_form.count as int);
    let ghost n2 = run_len(ps, ps + fc, m.part_form.count as int);
    let mut forms = map.forms_views::<OffscreenPartForm>().into_iter();
    let mut part_forms = part_map.forms_views::<PartForm>().into_iter();
    let ghost mut t: int = 0;
    loop
        invariant_except_break
            forms.idx == os + t,
            part_forms.idx == ps + t,
        invariant
            forms.model == m,
            forms.limit == os + fc,
            part_forms.model == m,
            part_forms.limit == ps + fc,
            0 <= t,
            t <= n1,
            t <= n2,
            n1 == run_len(os, os + fc, m.offscreen_part_form.count as int),
            n2 == run_len(ps, ps + fc, m.part_form.count as int),
            m == map.model,
            os == m.blend_form_map.i_forms@[map.idx as int] as int,
            ps == m.blend_form_map.i_forms@[part_map.idx as int] as int,
            fc == m.blend_form_map.cnt_forms@[part_map.idx as int] as int,
            fc == m.blend_form_map.cnt_forms@[map.idx as int] as int,
            m.part_form.wf(),
            forall|u: int| 0 <= u < t ==> #[trigger] form_pair_ok(m, os, ps, u),
        ensures
            forall|u: int| 0 <= u < n1 && u < n2 ==> #[trigger] form_pair_ok(m, os, ps, u),
        decreases fc - t,
    {
        let form = match forms.next() {
            Some(v) => v.0,
            None => {
                break;
            },
        };
        let part_form = match part_forms.next() {
            Some(v) => v.0,
            None => {
                break;
            },
        };
        let named = match part_form.i_offscreen().get() {
            Some(x) => x == form.idx,
            None => false,
        };
        if !named {
            proof {
                assert(t < n1);
                assert(t < n2);
                assert(!form_pair_ok(m, os, ps, t));
            }
            return false;
        }
        proof {
            t = t + 1;
        }
    }
    true
}

proof fn lemma_post_fails(m: &ParsedModel, i: int, pb: int, k: int)
    requires
        part_maps_of(m, i) == Some(pb as u32),
        0 <= pb <= u32::MAX,
        0 <= k < m.offscreen_part_blend_form_maps.cnt_maps@[i],
        !map_pair_ok_at(m, i, pb, k),
    ensures
        !offscreen_maps_post_ok(m, i),
{
    assert(part_maps_of(m, i).unwrap() as int == pb);
}

/// The text of the first check that blend map `bm` of an offscreen part fails against
/// blend map `pm` of its part: parameter map, form count, weight limits, then form pairing.
pub open spec fn map_pair_failure(m: &ParsedModel, bm: int, pm: int) -> Seq<char> {
    if m.blend_form_map.i_param_map@[bm].0 != m.blend_form_map.i_param_map@[pm].0 {
        "map.i_param_map() == partmap.i_param_map()"@
    } else if m.blend_form_map.cnt_forms@[bm] != m.blend_form_map.cnt_forms@[pm] {
        "map.f_cnt_forms() == partmap.f_cnt_forms()"@
    } else if m.blend_form_map.i_blendweight_limits@[bm].0 != m.blend_form_map.i_blendweight_limits@[pm].0
        || m.blend_form_map.cnt_blendweight_limits@[bm] != m.blend_form_map.cnt_blendweight_limits@[pm] {
        "map.range_blendweight_limits() == partmap.range_blendweight_limits()"@
    } else {
        "partform.i_offscreen().get() == Some(form.idx)"@
    }
}

/// `t` is the text of the first check that offscreen blend maps `i` fails: its part has no
/// blend maps, or a different number of them, or the first pair of maps that differ
/// differs as `map_pair_failure` says.
pub open spec fn offscreen_maps_post_failure(m: &ParsedModel, i: int, t: Seq<char>) -> bool {
    let pb = part_maps_of(m, i);
    let cnt = m.offscreen_part_blend_form_maps.cnt_maps@[i];
    ||| pb is None && t == "part.blend_form_maps_view().is_some()"@
    ||| pb is Some && cnt != m.part_blend_form_maps.cnt_maps@[pb.unwrap() as int]
        && t == "self.cnt_maps() == part_blend_form_maps.cnt_maps()"@
    ||| pb is Some && cnt == m.part_blend_form_maps.cnt_maps@[pb.unwrap() as int] && exists|k: int|
        0 <= k < cnt && !map_pair_ok_at(m, i, pb.unwrap() as int, k)
            && (forall|j: int| 0 <= j < k ==> #[trigger] map_pair_ok_at(m, i, pb.unwrap() as int, j))
            && t == map_pair_failure(
            m,
            m.offscreen_part_blend_form_maps.i_maps@[i].0 + k,
            m.part_blend_form_maps.i_maps@[pb.unwrap() as int].0 + k,
        )
}

impl<'model> OffscreenPartBlendFormMapsView<'model> {
    /// Checks these offscreen blend maps against the blend maps of their part.
    pub fn post_validate(&self) -> (r: Result<(), ParseError>)
        requires
            self.valid(),
            self.model.validated(),
            blend_forms_fit(self.model),
        ensures
            r is Ok <==> offscreen_maps_post_ok(self.model, self.idx as int),
            r matches Err(e) ==> (e matches ParseError::ValidationError(c, i, t) && c == "OffscreenPartBlendFormMaps"
                && i == self.idx && offscreen_maps_post_failure(self.model, self.idx as int, t@)),
    {
        let ghost m = self.model;
        proof {
            assert(offscreen_part_blend_form_maps_refs_ok_at(m, self.idx as int));
            assert(m.count_of(ClassId::OffscreenPart) == m.raw_count_of(ClassId::OffscreenPart));
            assert(m.count_of(ClassId::Part) == m.raw_count_of(ClassId::Part));
            assert(m.count_of(ClassId::PartBlendFormMaps) == m.raw_count_of(ClassId::PartBlendFormMaps));
            assert(m.count_of(ClassId::BlendFormMap) == m.raw_count_of(ClassId::BlendFormMap));
            assert(m.count_of(ClassId::OffscreenPartBlendFormMaps) == m.raw_count_of(ClassId::OffscreenPartBlendFormMaps));
            assert(m.count_of(ClassId::PartForm) == m.raw_count_of(ClassId::PartForm));
            assert(m.count_of(ClassId::OffscreenPartForm) == m.raw_count_of(ClassId::OffscreenPartForm));
        }
        let offscreen_part = self.offscreen_part_view();
        proof {
            assert(offscreen_part_refs_ok_at(m, offscreen_part.idx as int));
        }
        let part = offscreen_part.part_view();
        proof {
            assert(part_refs_ok_at(m, part.idx as int));
        }
        if !part.blend_form_maps_view().is_some() {
            return Err(
                validation_error(
                    "OffscreenPartBlendFormMaps",
                    self.idx,
                    "part.blend_form_maps_view().is_some()",
                ),
            );
        }
        let part_maps = part.blend_form_maps_view().unwrap();
        let ghost pb = part_maps.idx as int;
        proof {
            assert(part_blend_form_maps_refs_ok_at(m, pb));
        }
        if !(self.cnt_maps() == part_maps.cnt_maps()) {
            return Err(
                validation_error(
                    "OffscreenPartBlendFormMaps",
                    self.idx,
                    "self.cnt_maps() == part_blend_form_maps.cnt_maps()",
                ),
            );
        }
        let ghost cnt = m.offscreen_part_blend_form_maps.cnt_maps@[self.idx as int] as int;
        let ghost s1 = m.offscreen_part_blend_form_maps.i_maps@[self.idx as int].0 as int;
        let ghost s2 = m.part_blend_form_maps.i_maps@[pb].0 as int;
        let mut maps = self.maps_views().into_iter();
        let mut part_maps_it = part_maps.maps_views().into_iter();
        let ghost mut k: int = 0;
        loop
            invariant
                m == self.model,
                self.valid(),
                m.validated(),
                blend_forms_fit(m),
                part_maps_of(m, self.idx as int) == Some(pb as u32),
                0 <= pb < m.part_blend_form_maps.count,
                pb <= u32::MAX,
                cnt == m.offscreen_part_blend_form_maps.cnt_maps@[self.idx as int],
                cnt == m.part_blend_form_maps.cnt_maps@[pb],
                s1 == m.offscreen_part_blend_form_maps.i_maps@[self.idx as int].0,
                s2 == m.part_blend_form_maps.i_maps@[pb].0,
                s1 + cnt <= m.blend_form_map.count,
                s2 + cnt <= m.blend_form_map.count,
                m.blend_form_map.count == m.blend_form_map.raw_count,
                m.part_form.count == m.part_form.raw_count,
                m.offscreen_part_form.count == m.offscreen_part_form.raw_count,
                0 <= k <= cnt,
                maps.model == m,
                maps.idx == s1 + k,
                maps.limit == s1 + cnt,
                part_maps_it.model == m,
                part_maps_it.idx == s2 + k,
                part_maps_it.limit == s2 + cnt,
                forall|j: int| 0 <= j < k ==> #[trigger] map_pair_ok_at(m, self.idx as int, pb, j),
            ensures
                forall|j: int| 0 <= j < cnt ==> #[trigger] map_pair_ok_at(m, self.idx as int, pb, j),
            decreases cnt - k,
        {
            let map = match maps.next() {
                Some(v) => v.0,
                None => {
                    break;
                },
            };
            let part_map = match part_maps_it.next() {
                Some(v) => v.0,
                None => {
                    break;
                },
            };
            proof {
                assert(blend_form_map_refs_ok_at(m, map.idx as int));
                assert(blend_form_map_refs_ok_at(m, part_map.idx as int));
                assert(m.blend_form_map.i_forms@[map.idx as int] + m.blend_form_map.cnt_forms@[map.idx as int]
                    <= u32::MAX);
                assert(m.blend_form_map.i_forms@[part_map.idx as int] + m.blend_form_map.cnt_forms@[
                    part_map.idx as int] <= u32::MAX);
                if !map_pair_ok(m, map.idx as int, part_map.idx as int) {
                    lemma_post_fails(m, self.idx as int, pb, k);
                }
            }
            if !(map.i_param_map() == part_map.i_param_map()) {
                proof {
                    assert(!map_pair_ok(m, map.idx as int, part_map.idx as int));
                    assert(!map_pair_ok_at(m, self.idx as int, pb, k));
                    assert(map_pair_failure(m, map.idx as int, part_map.idx as int) == "map.i_param_map() == partmap.i_param_map()"@);
                    assert(offscreen_maps_post_failure(m, self.idx as int, "map.i_param_map() == partmap.i_param_map()"@));
                }
                return Err(
                    validation_error(
                        "OffscreenPartBlendFormMaps",
                        self.idx,
                        "map.i_param_map() == partmap.i_param_map()",
                    ),
                );
            }
            if !(*map.f_cnt_forms() == *part_map.f_cnt_forms()) {
                proof {
                    assert(!map_pair_ok(m, map.idx as int, part_map.idx as int));
                    assert(!map_pair_ok_at(m, self.idx as int, pb, k));
                    assert(map_pair_failure(m, map.idx as int, part_map.idx as int) == "map.f_cnt_forms() == partmap.f_cnt_forms()"@);
                    assert(offscreen_maps_post_failure(m, self.idx as int, "map.f_cnt_forms() == partmap.f_cnt_forms()"@));
                }
                return Err(
                    validation_error(
                        "OffscreenPartBlendFormMaps",
                        self.idx,
                        "map.f_cnt_forms() == partmap.f_cnt_forms()",
                    ),
                );
            }
            let range = map.range_blendweight_limits();
            let part_range = part_map.range_blendweight_limits();
            if !(range.start == part_range.start && range.end == part_range.end) {
                proof {
                    assert(!map_pair_ok(m, map.idx as int, part_map.idx as int));
                    assert(!map_pair_ok_at(m, self.idx as int, pb, k));
                    assert(map_pair_failure(m, map.idx as int, part_map.idx as int) == "map.range_blendweight_limits() == partmap.range_blendweight_limits()"@);
                    assert(offscreen_maps_post_failure(m, self.idx as int, "map.range_blendweight_limits() == partmap.range_blendweight_limits()"@));
                }
                return Err(
                    validation_error(
                        "OffscreenPartBlendFormMaps",
                        self.idx,
                        "map.range_blendweight_limits() == partmap.range_blendweight_limits()",
                    ),
                );
            }
            if !forms_pair_up(&map, &part_map) {
                proof {
                    assert(!map_pair_ok(m, map.idx as int, part_map.idx as int));
                    assert(!map_pair_ok_at(m, self.idx as int, pb, k));
                    assert(map_pair_failure(m, map.idx as int, part_map.idx as int) == "partform.i_offscreen().get() == Some(form.idx)"@);
                    assert(offscreen_maps_post_failure(m, self.idx as int, "partform.i_offscreen().get() == Some(form.idx)"@));
                }
                return Err(
                    validation_error(
                        "OffscreenPartBlendFormMaps",
                        self.idx,
                        "partform.i_offscreen().get() == Some(form.idx)",
                    ),
                );
            }
            proof {
                assert(map_pair_ok_at(m, self.idx as int, pb, k));
                k = k + 1;
            }
        }
        Ok(())
    }
}

/// Every set of offscreen blend maps mirrors the blend maps of its part.
pub open spec fn post_ok(m: &ParsedModel) -> bool {
    forall|i: int| 0 <= i < m.offscreen_part_blend_form_maps.count ==> #[trigger] offscreen_maps_post_ok(m, i)
}

impl ParsedModel {
    /// The checks that need the whole model validated first: every set of offscreen blend
    /// maps, in object order, against the blend maps of its part.
    pub fn post_validate(&self) -> (r: Result<(), ParseError>)
        requires
            self.validated(),
            blend_forms_fit(self),
        ensures
            r is Ok <==> post_ok(self),
            r matches Err(e) ==> (e matches ParseError::ValidationError(c, i, t) && c == "OffscreenPartBlendFormMaps"
                && i < self.offscreen_part_blend_form_maps.count && !offscreen_maps_post_ok(self, i as int)
                && offscreen_maps_post_failure(self, i as int, t@)
                && (forall|j: int| 0 <= j < i ==> #[trigger] offscreen_maps_post_ok(self, j))),
    {
        proof {
            assert(self.count_of(ClassId::OffscreenPartBlendFormMaps) == self.raw_count_of(ClassId::OffscreenPartBlendFormMaps));
        }
        let n = self.offscreen_part_blend_form_maps.count;
        let mut i: usize = 0;
        while i < n
            invariant
                self.validated(),
                blend_forms_fit(self),
                n == self.offscreen_part_blend_form_maps.count,
                self.offscreen_part_blend_form_maps.wf(),
                i <= n,
                forall|j: int| 0 <= j < i ==> #[trigger] offscreen_maps_post_ok(self, j),
            decreases n - i,
        {
            let view = OffscreenPartBlendFormMapsView::get(self, Idx::new(i as u32)).unwrap();
            match view.post_validate() {
                Ok(()) => {},
                Err(e) => {
                    return Err(e);
                },
            }
            i = i + 1;
        }
        Ok(())
    }
}

} // verus!
