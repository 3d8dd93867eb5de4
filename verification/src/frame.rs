use vstd::prelude::*;
use crate::driver::{branch_entries, branches_view, DrawNode};
use crate::pose::{entries_map, entry_positions_distinct, lemma_entries_map_at};

verus! {

/// What the renderer knows of a loaded model that does not change from frame to frame:
/// the top-level drawing order and the branches of the offscreen parts, the clip set each
/// art mesh and each part uses, the art meshes of each clip set, whether the model needs an
/// offscreen target, and whether it has offscreen parts.
pub struct FrameLayout {
    pub root: Vec<DrawNode<u32>>,
    pub branches: Vec<(usize, Vec<DrawNode<u32>>)>,
    pub am_clip_set: Vec<Option<usize>>,
    pub part_clip_set: Vec<Option<usize>>,
    pub clip_targets: Vec<Vec<u32>>,
    pub needs_offscreen: bool,
    pub has_offscreen_parts: bool,
}

/// What changed since the last frame, per art mesh and per part, with the floating-point
/// comparisons already made: an art mesh is opaque when its opacity is not zero, and an
/// offscreen part is drawn when it is visible and its opacity is not zero.
pub struct FrameEvent {
    pub mask_resized: bool,
    pub transform_changed: bool,
    pub am_updated: Vec<bool>,
    pub am_visible: Vec<bool>,
    pub am_opaque: Vec<bool>,
    pub part_drawn: Vec<bool>,
}

/// What the renderer carries from frame to frame: art meshes whose vertices await upload,
/// clip masks to redraw, clip masks and offscreen renders queued for display.
pub struct FrameState {
    pub am_dirty: Vec<bool>,
    pub clip_dirty: Vec<bool>,
    pub clip_queued: Vec<bool>,
    pub model_queued: bool,
}

/// How the frame is composed after the clip masks.
#[derive(Debug, Copy, Clone, PartialEq, Eq, Structural)]
pub enum FramePath {
    /// Nothing changed: the frame is skipped.
    Skip,
    /// The whole model is rendered into an offscreen target.
    Whole,
    /// Only the offscreen parts are rendered into offscreen targets.
    Children,
    /// Nothing is rendered offscreen.
    Direct,
}

/// The work of one frame.
pub struct FramePlan {
    pub proceed: bool,
    pub clip_use: Vec<usize>,
    pub am_clip_use: Vec<usize>,
    pub upload_uniform: Vec<bool>,
    pub upload_vertices: Vec<bool>,
    pub redraw_clip: Vec<bool>,
    pub path: FramePath,
    pub changed: bool,
}

/// The branch of part `p`.
pub open spec fn branch_of(lay: &FrameLayout, p: u32) -> Seq<DrawNode<u32>> {
    branches_view(lay.branches@)[p as usize]
}

/// Node `n` is drawn: a visible, opaque art mesh, or an offscreen part that is drawn.
pub open spec fn node_drawn(ev: &FrameEvent, n: DrawNode<u32>) -> bool {
    match n {
        DrawNode::ArtMesh(a) => ev.am_visible@[a as int] && ev.am_opaque@[a as int],
        DrawNode::OffscreenPart(p) => ev.part_drawn@[p as int],
    }
}

/// The clip set that node `n` uses.
pub open spec fn node_clip_set(lay: &FrameLayout, n: DrawNode<u32>) -> Option<usize> {
    match n {
        DrawNode::ArtMesh(a) => lay.am_clip_set@[a as int],
        DrawNode::OffscreenPart(p) => lay.part_clip_set@[p as int],
    }
}

/// How many drawn nodes among `nodes` use clip set `c`, going into the branches of drawn
/// offscreen parts, at most `fuel` levels deep.
pub open spec fn node_uses(lay: &FrameLayout, ev: &FrameEvent, nodes: Seq<DrawNode<u32>>, fuel: nat, c: usize) -> nat
    decreases fuel, nodes.len(),
{
    if nodes.len() == 0 {
        0
    } else {
        let n = nodes.last();
        let here: nat = if node_drawn(ev, n) && node_clip_set(lay, n) == Some(c) { 1 } else { 0 };
        let below: nat = match n {
            DrawNode::OffscreenPart(p) => if node_drawn(ev, n) && fuel > 0 {
                node_uses(lay, ev, branch_of(lay, p), (fuel - 1) as nat, c)
            } else {
                0
            },
            DrawNode::ArtMesh(_) => 0,
        };
        node_uses(lay, ev, nodes.drop_last(), fuel, c) + here + below
    }
}

/// Every node of `nodes` names an art mesh and part of the layout, and every drawn offscreen
/// part has a branch whose walk ends within `fuel - 1` more levels.
pub open spec fn walk_ends(lay: &FrameLayout, ev: &FrameEvent, nodes: Seq<DrawNode<u32>>, fuel: nat) -> bool
    decreases fuel, nodes.len(),
{
    if nodes.len() == 0 {
        true
    } else {
        &&& walk_ends(lay, ev, nodes.drop_last(), fuel)
        &&& match nodes.last() {
            DrawNode::ArtMesh(a) => a < lay.am_clip_set@.len() && a < ev.am_visible@.len() && a
                < ev.am_opaque@.len(),
            DrawNode::OffscreenPart(p) => p < lay.part_clip_set@.len() && p < ev.part_drawn@.len() && (
            ev.part_drawn@[p as int] ==> fuel > 0 && branches_view(lay.branches@).dom().contains(p as usize)
                && walk_ends(lay, ev, branch_of(lay, p), (fuel - 1) as nat)),
        }
    }
}

proof fn lemma_take_last<T>(s: Seq<T>, i: int)
    requires
        0 <= i < s.len(),
    ensures
        s.take(i + 1).drop_last() == s.take(i),
        s.take(i + 1).last() == s[i],
{
    assert(s.take(i + 1).drop_last() =~= s.take(i));
}

proof fn lemma_walk_prefix(lay: &FrameLayout, ev: &FrameEvent, nodes: Seq<DrawNode<u32>>, fuel: nat, k: int)
    requires
        walk_ends(lay, ev, nodes, fuel),
        0 <= k <= nodes.len(),
    ensures
        walk_ends(lay, ev, nodes.take(k), fuel),
        node_uses(lay, ev, nodes.take(k), fuel, 0) >= 0,
    decreases nodes.len() - k,
{
    if k < nodes.len() {
        lemma_walk_prefix(lay, ev, nodes, fuel, k + 1);
        lemma_take_last(nodes, k);
    } else {
        assert(nodes.take(k) =~= nodes);
    }
}

proof fn lemma_uses_prefix(lay: &FrameLayout, ev: &FrameEvent, nodes: Seq<DrawNode<u32>>, fuel: nat, c: usize, k: int)
    requires
        0 <= k <= nodes.len(),
    ensures
        node_uses(lay, ev, nodes.take(k), fuel, c) <= node_uses(lay, ev, nodes, fuel, c),
    decreases nodes.len() - k,
{
    if k < nodes.len() {
        lemma_uses_prefix(lay, ev, nodes, fuel, c, k + 1);
        lemma_take_last(nodes, k);
    } else {
        assert(nodes.take(k) =~= nodes);
    }
}

/// The branch recorded for part `p`.
fn find_branch<'a>(branches: &'a Vec<(usize, Vec<DrawNode<u32>>)>, p: usize) -> (r: &'a Vec<DrawNode<u32>>)
    requires
        entry_positions_distinct(branch_entries(branches@)),
        branches_view(branches@).dom().contains(p),
    ensures
        r@ == branches_view(branches@)[p],
{
    let ghost e = branch_entries(branches@);
    let mut j: usize = 0;
    while j < branches.len()
        invariant
            j <= branches@.len(),
            e == branch_entries(branches@),
            entry_positions_distinct(e),
            forall|i: int| 0 <= i < j ==> branches@[i].0 != p,
        decreases branches@.len() - j,
    {
        if branches[j].0 == p {
            proof {
                lemma_entries_map_at(e, j as int);
                assert(e[j as int].0 == p);
            }
            return &branches[j].1;
        }
        j = j + 1;
    }
    proof {
        let k = choose|i: int| 0 <= i < e.len() && e[i].0 == p;
        assert(branches@[k].0 == p);
    }
    &branches[0].1
}

/// Adds to `uses` the clip-set uses of the drawn nodes under `nodes`.
fn count_uses(lay: &FrameLayout, ev: &FrameEvent, nodes: &Vec<DrawNode<u32>>, uses: &mut Vec<usize>, Ghost(fuel): Ghost<nat>)
    requires
        entry_positions_distinct(branch_entries(lay.branches@)),
        walk_ends(lay, ev, nodes@, fuel),
        forall|i: int| 0 <= i < lay.am_clip_set@.len() ==> (#[trigger] lay.am_clip_set@[i] matches Some(c) ==> c < old(uses)@.len()),
        forall|i: int| 0 <= i < lay.part_clip_set@.len() ==> (#[trigger] lay.part_clip_set@[i] matches Some(c) ==> c < old(uses)@.len()),
        forall|c: int| 0 <= c < old(uses)@.len() ==> old(uses)@[c] + node_uses(lay, ev, nodes@, fuel, c as usize) <= usize::MAX,
    ensures
        final(uses)@.len() == old(uses)@.len(),
        forall|c: int| 0 <= c < old(uses)@.len() ==> #[trigger] final(uses)@[c] == old(uses)@[c] + node_uses(lay, ev, nodes@, fuel, c as usize),
    decreases fuel, nodes@.len(),
{
    let ghost start = uses@;
    let n_uses = uses.len();
    let mut i: usize = 0;
    while i < nodes.len()
        invariant
            start.len() == n_uses,
            entry_positions_distinct(branch_entries(lay.branches@)),
            walk_ends(lay, ev, nodes@, fuel),
            i <= nodes@.len(),
            uses@.len() == start.len(),
            forall|k: int| 0 <= k < lay.am_clip_set@.len() ==> (#[trigger] lay.am_clip_set@[k] matches Some(c) ==> c < start.len()),
            forall|k: int| 0 <= k < lay.part_clip_set@.len() ==> (#[trigger] lay.part_clip_set@[k] matches Some(c) ==> c < start.len()),
            forall|c: int| 0 <= c < start.len() ==> start[c] + node_uses(lay, ev, nodes@, fuel, c as usize) <= usize::MAX,
            forall|c: int| 0 <= c < start.len() ==> #[trigger] uses@[c] == start[c] + node_uses(lay, ev, nodes@.take(i as int), fuel, c as usize),
        decreases nodes@.len() - i,
    {
        let ghost before = uses@;
        proof {
            lemma_take_last(nodes@, i as int);
            lemma_walk_prefix(lay, ev, nodes@, fuel, i as int + 1);
            assert forall|c: int| 0 <= c < start.len() implies before[c] + node_uses(lay, ev, nodes@.take(i as int + 1), fuel, c as usize) - node_uses(lay, ev, nodes@.take(i as int), fuel, c as usize) <= usize::MAX by {
                lemma_uses_prefix(lay, ev, nodes@, fuel, c as usize, i as int + 1);
            }
        }
        let n = nodes[i];
        match n {
            DrawNode::ArtMesh(a) => {
                if ev.am_visible[a as usize] && ev.am_opaque[a as usize] {
                    match lay.am_clip_set[a as usize] {
                        Some(c) => {
                            let v = uses[c];
                            uses.set(c, v + 1);
                            proof {
                                assert(uses@[c as int] == before[c as int] + 1);
                                assert(node_clip_set(lay, n) == Some(c));
                                assert(node_drawn(ev, n));
                            }
                        },
                        None => {},
                    }
                }
                proof {
                    assert forall|c: int| 0 <= c < start.len() implies #[trigger] uses@[c] == start[c] + node_uses(lay, ev, nodes@.take(i as int + 1), fuel, c as usize) by {
                        let t1 = nodes@.take(i as int + 1);
                        assert(t1.len() > 0);
                        assert(t1.last() == n);
                        assert(t1.drop_last() == nodes@.take(i as int));
                        assert(before[c] == start[c] + node_uses(lay, ev, nodes@.take(i as int), fuel, c as usize));
                        assert(node_uses(lay, ev, t1, fuel, c as usize) == node_uses(lay, ev, t1.drop_last(), fuel, c as usize)
                            + (if node_drawn(ev, n) && node_clip_set(lay, n) == Some(c as usize) { 1nat } else { 0nat }));
                        if node_drawn(ev, n) && node_clip_set(lay, n) == Some(c as usize) {
                            assert(uses@[c] == before[c] + 1);
                        } else {
                            assert(uses@[c] == before[c]);
                        }
                    }
                }
            },
            DrawNode::OffscreenPart(p) => {
                if ev.part_drawn[p as usize] {
                    match lay.part_clip_set[p as usize] {
                        Some(c) => {
                            let v = uses[c];
                            uses.set(c, v + 1);
                        },
                        None => {},
                    }
                    let ghost mid = uses@;
                    let branch = find_branch(&lay.branches, p as usize);
                    proof {
                        assert forall|c: int| 0 <= c < start.len() implies mid[c] + node_uses(lay, ev, branch@, (fuel - 1) as nat, c as usize) <= usize::MAX by {
                            lemma_uses_prefix(lay, ev, nodes@, fuel, c as usize, i as int + 1);
                        }
                    }
                    count_uses(lay, ev, branch, uses, Ghost((fuel - 1) as nat));
                    proof {
                        assert forall|c: int| 0 <= c < start.len() implies #[trigger] uses@[c] == start[c] + node_uses(lay, ev, nodes@.take(i as int + 1), fuel, c as usize) by {}
                    }
                } else {
                    proof {
                        assert forall|c: int| 0 <= c < start.len() implies #[trigger] uses@[c] == start[c] + node_uses(lay, ev, nodes@.take(i as int + 1), fuel, c as usize) by {}
                    }
                }
            },
        }
        i = i + 1;
    }
    proof {
        assert(nodes@.take(i as int) =~= nodes@);
    }
}

/// How often `t` occurs in `s`.
pub open spec fn count_of(s: Seq<u32>, t: u32) -> nat
    decreases s.len(),
{
    if s.len() == 0 {
        0
    } else {
        count_of(s.drop_last(), t) + if s.last() == t { 1nat } else { 0nat }
    }
}

/// The clip sets' target lists.
pub open spec fn targets_of(lay: &FrameLayout) -> Seq<Seq<u32>> {
    lay.clip_targets@.map_values(|v: Vec<u32>| v@)
}

/// How many of the first `n` clip sets that are in use list art mesh `t` (counting each
/// listing).
pub open spec fn target_uses(targets: Seq<Seq<u32>>, used: Seq<usize>, n: nat, t: u32) -> nat
    decreases n,
{
    if n == 0 {
        0
    } else {
        target_uses(targets, used, (n - 1) as nat, t) + if used[n - 1] != 0 {
            count_of(targets[n - 1], t)
        } else {
            0
        }
    }
}

/// The total length of the first `n` target lists.
pub open spec fn sum_lens(targets: Seq<Seq<u32>>, n: nat) -> nat
    decreases n,
{
    if n == 0 {
        0
    } else {
        sum_lens(targets, (n - 1) as nat) + targets[n - 1].len()
    }
}

proof fn lemma_count_of_bound(s: Seq<u32>, t: u32)
    ensures
        count_of(s, t) <= s.len(),
    decreases s.len(),
{
    if s.len() > 0 {
        lemma_count_of_bound(s.drop_last(), t);
    }
}

proof fn lemma_target_uses_bound(targets: Seq<Seq<u32>>, used: Seq<usize>, n: nat, t: u32)
    ensures
        target_uses(targets, used, n, t) <= sum_lens(targets, n),
    decreases n,
{
    if n > 0 {
        lemma_target_uses_bound(targets, used, (n - 1) as nat, t);
        lemma_count_of_bound(targets[n - 1], t);
    }
}

proof fn lemma_sum_lens_grows(targets: Seq<Seq<u32>>, a: nat, b: nat)
    requires
        a <= b,
    ensures
        sum_lens(targets, a) <= sum_lens(targets, b),
    decreases b,
{
    if a < b {
        lemma_sum_lens_grows(targets, a, (b - 1) as nat);
    }
}

/// The walk depth over which the clip-set uses are counted.
pub open spec fn frame_fuel(lay: &FrameLayout, ev: &FrameEvent) -> nat {
    choose|f: nat| walk_ends(lay, ev, lay.root@, f)
}

/// How many drawn nodes, reachable from the top level through drawn offscreen parts, use
/// clip set `c`.
pub open spec fn clip_use_of(lay: &FrameLayout, ev: &FrameEvent, c: usize) -> nat {
    node_uses(lay, ev, lay.root@, frame_fuel(lay, ev), c)
}

/// The layout, the state and the event describe the same art meshes, parts and clip sets,
/// and every index among them is in range.
pub open spec fn frame_ok(lay: &FrameLayout, st: &FrameState, ev: &FrameEvent) -> bool {
    let na = ev.am_updated@.len();
    let nc = lay.clip_targets@.len();
    &&& ev.am_visible@.len() == na
    &&& ev.am_opaque@.len() == na
    &&& lay.am_clip_set@.len() == na
    &&& st.am_dirty@.len() == na
    &&& ev.part_drawn@.len() == lay.part_clip_set@.len()
    &&& st.clip_dirty@.len() == nc
    &&& st.clip_queued@.len() == nc
    &&& forall|i: int| 0 <= i < na ==> (#[trigger] lay.am_clip_set@[i] matches Some(c) ==> c < nc)
    &&& forall|i: int| 0 <= i < lay.part_clip_set@.len() ==> (#[trigger] lay.part_clip_set@[i] matches Some(c) ==> c < nc)
    &&& forall|c: int, j: int| 0 <= c < nc && 0 <= j < lay.clip_targets@[c]@.len() ==> #[trigger] lay.clip_targets@[c]@[j] < na
    &&& entry_positions_distinct(branch_entries(lay.branches@))
    &&& exists|f: nat| walk_ends(lay, ev, lay.root@, f)
    &&& forall|c: int| 0 <= c < nc ==> #[trigger] clip_use_of(lay, ev, c as usize) <= usize::MAX
    &&& sum_lens(targets_of(lay), nc as nat) <= usize::MAX
    &&& na <= u32::MAX
}

/// Whether anything changed that the frame must show: the mask size, the transform, a
/// visible art mesh, or a clip mask or offscreen render queued by the last frame.
pub open spec fn frame_proceeds(st: &FrameState, ev: &FrameEvent) -> bool {
    ||| ev.mask_resized
    ||| ev.transform_changed
    ||| exists|a: int| 0 <= a < ev.am_updated@.len() && #[trigger] ev.am_updated@[a] && ev.am_visible@[a]
    ||| exists|c: int| 0 <= c < st.clip_queued@.len() && #[trigger] st.clip_queued@[c]
    ||| st.model_queued
}

/// The art meshes whose vertices await upload once this frame's updates are marked.
pub open spec fn marked_dirty(st: &FrameState, ev: &FrameEvent) -> Seq<bool> {
    Seq::new(st.am_dirty@.len(), |a: int| st.am_dirty@[a] || ev.am_updated@[a])
}

/// The clip masks to redraw once a resize is marked.
pub open spec fn marked_clip_dirty(st: &FrameState, ev: &FrameEvent) -> Seq<bool> {
    Seq::new(st.clip_dirty@.len(), |c: int| st.clip_dirty@[c] || ev.mask_resized)
}

/// The clip masks to redraw in a frame that proceeds: those marked before, all of them when
/// the mask size or the transform changed, and those with a target awaiting upload.
pub open spec fn frame_clip_dirty(lay: &FrameLayout, st: &FrameState, ev: &FrameEvent) -> Seq<bool> {
    Seq::new(
        st.clip_dirty@.len(),
        |c: int|
            st.clip_dirty@[c] || ev.mask_resized || ev.transform_changed || exists|j: int|
                0 <= j < lay.clip_targets@[c]@.len() && #[trigger] marked_dirty(st, ev)[lay.clip_targets@[c]@[j] as int],
    )
}

/// The work that `plan_frame` plans for a frame that proceeds, from state `st` to state
/// `after`: the clip sets in use and the masks to redraw, the uses of each art mesh in the
/// clip sets in use, the uploads and which art meshes still await theirs, and how the
/// frame is composed.
pub open spec fn frame_plan_ok(lay: &FrameLayout, st: &FrameState, after: &FrameState, ev: &FrameEvent, r: &FramePlan) -> bool {
        let na = ev.am_updated@.len();
        let nc = lay.clip_targets@.len();
        let dirty = marked_dirty(st, ev);
        let cdirty = frame_clip_dirty(lay, st, ev);
        &&& r.clip_use@.len() == nc
        &&& forall|c: int| 0 <= c < nc ==> #[trigger] r.clip_use@[c] == clip_use_of(lay, ev, c as usize)
        &&& after.clip_dirty@ == cdirty
        &&& r.redraw_clip@.len() == nc
        &&& forall|c: int| 0 <= c < nc ==> #[trigger] r.redraw_clip@[c] == (r.clip_use@[c] != 0 && cdirty[c])
        &&& after.clip_queued@ == r.redraw_clip@
        &&& r.am_clip_use@.len() == na
        &&& forall|a: int| 0 <= a < na ==> #[trigger] r.am_clip_use@[a] == target_uses(targets_of(lay), r.clip_use@, nc as nat, a as u32)
        &&& r.upload_uniform@.len() == na
        &&& forall|a: int| 0 <= a < na ==> #[trigger] r.upload_uniform@[a] == (ev.am_visible@[a] && ev.am_opaque@[a])
        &&& r.upload_vertices@.len() == na
        &&& forall|a: int| 0 <= a < na ==> #[trigger] r.upload_vertices@[a] == (ev.am_visible@[a] && (ev.am_opaque@[a]
            || r.am_clip_use@[a] != 0) && dirty[a])
        &&& after.am_dirty@.len() == na
        &&& forall|a: int| 0 <= a < na ==> #[trigger] after.am_dirty@[a] == (dirty[a] && !r.upload_vertices@[a])
        &&& r.path == if lay.needs_offscreen {
            FramePath::Whole
        } else if lay.has_offscreen_parts {
            FramePath::Children
        } else {
            FramePath::Direct
        }
        &&& after.model_queued == (st.model_queued || lay.needs_offscreen || lay.has_offscreen_parts)
        &&& r.changed == (lay.needs_offscreen || lay.has_offscreen_parts || exists|c: int|
            0 <= c < nc && #[trigger] r.redraw_clip@[c])
}

/// A vector of `n` copies of `v`.
fn filled<T: Copy>(v: T, n: usize) -> (r: Vec<T>)
    ensures
        r@ == Seq::new(n as nat, |i: int| v),
{
    let mut r: Vec<T> = Vec::new();
    let mut i: usize = 0;
    while i < n
        invariant
            i <= n,
            r@ == Seq::new(i as nat, |k: int| v),
        decreases n - i,
    {
        r.push(v);
        i = i + 1;
        assert(r@ =~= Seq::new(i as nat, |k: int| v));
    }
    r
}

/// Plans one frame of rendering: marks what changed, decides whether the frame can be
/// skipped, counts which clip sets are in use, decides which art meshes to upload and which
/// clip masks to redraw, and how to compose the frame.
#[verifier::spinoff_prover]
#[verifier::rlimit(60)]
pub fn plan_frame(lay: &FrameLayout, st: &mut FrameState, ev: &FrameEvent) -> (r: FramePlan)
    requires
        frame_ok(lay, old(st), ev),
    ensures
        r.proceed == frame_proceeds(old(st), ev),
        !r.proceed ==> {
            &&& final(st).am_dirty@ == marked_dirty(old(st), ev)
            &&& final(st).clip_dirty@ == marked_clip_dirty(old(st), ev)
            &&& final(st).clip_queued@ == old(st).clip_queued@
            &&& final(st).model_queued == old(st).model_queued
            &&& r.path == FramePath::Skip
            &&& !r.changed
        },
        r.proceed ==> frame_plan_ok(lay, old(st), final(st), ev, &r),
        r.proceed && lay.needs_offscreen ==> r.path == FramePath::Whole,
{
    let na = ev.am_updated.len();
    let nc = lay.clip_targets.len();
    let ghost st0 = *st;
    let mut any = false;
    let mut redraw = false;
    if ev.mask_resized {
        let mut c: usize = 0;
        while c < nc
            invariant
                c <= nc,
                nc == st0.clip_dirty@.len(),
                st.clip_dirty@.len() == nc,
                st.am_dirty@ == st0.am_dirty@,
                st.clip_queued@ == st0.clip_queued@,
                st.model_queued == st0.model_queued,
                forall|k: int| 0 <= k < c ==> st.clip_dirty@[k],
                forall|k: int| c <= k < nc ==> st.clip_dirty@[k] == st0.clip_dirty@[k],
            decreases nc - c,
        {
            st.clip_dirty.set(c, true);
            c = c + 1;
        }
        redraw = true;
        any = true;
    }
    assert(st.clip_dirty@ =~= marked_clip_dirty(&st0, ev));
    let mut a: usize = 0;
    while a < na
        invariant
            frame_ok(lay, &st0, ev),
            na == ev.am_updated@.len(),
            a <= na,
            st.am_dirty@.len() == na,
            st.clip_dirty@ == marked_clip_dirty(&st0, ev),
            st.clip_queued@ == st0.clip_queued@,
            st.model_queued == st0.model_queued,
            forall|k: int| 0 <= k < a ==> st.am_dirty@[k] == marked_dirty(&st0, ev)[k],
            forall|k: int| a <= k < na ==> st.am_dirty@[k] == st0.am_dirty@[k],
            any == (ev.mask_resized || exists|k: int| 0 <= k < a && #[trigger] ev.am_updated@[k] && ev.am_visible@[k]),
            redraw == ev.mask_resized,
        decreases na - a,
    {
        if ev.am_updated[a] {
            st.am_dirty.set(a, true);
            any = any || ev.am_visible[a];
        }
        a = a + 1;
    }
    assert(st.am_dirty@ =~= marked_dirty(&st0, ev));
    if ev.transform_changed {
        redraw = true;
        any = true;
    }
    let mut c: usize = 0;
    while c < nc
        invariant
            c <= nc,
            nc == st.clip_queued@.len(),
            st.clip_queued@ == st0.clip_queued@,
            any ==> frame_proceeds(&st0, ev),
            !any ==> !ev.mask_resized && !ev.transform_changed && !(exists|k: int| 0 <= k < na && #[trigger] ev.am_updated@[k] && ev.am_visible@[k]),
            !any ==> forall|k: int| 0 <= k < c ==> !#[trigger] st.clip_queued@[k],
            na == ev.am_updated@.len(),
        decreases nc - c,
    {
        if st.clip_queued[c] {
            any = true;
        }
        c = c + 1;
    }
    if st.model_queued {
        any = true;
    }
    if !any {
        return FramePlan {
            proceed: false,
            clip_use: Vec::new(),
            am_clip_use: Vec::new(),
            upload_uniform: Vec::new(),
            upload_vertices: Vec::new(),
            redraw_clip: Vec::new(),
            path: FramePath::Skip,
            changed: false,
        };
    }
    assert(frame_proceeds(&st0, ev));
    let ghost dirty = marked_dirty(&st0, ev);
    let ghost cdirty = frame_clip_dirty(lay, &st0, ev);
    // Marks the clip masks to redraw.
    let mut c: usize = 0;
    while c < nc
        invariant
            frame_ok(lay, &st0, ev),
            c <= nc,
            nc == lay.clip_targets@.len(),
            na == ev.am_updated@.len(),
            redraw == (ev.mask_resized || ev.transform_changed),
            st.am_dirty@ == dirty,
            dirty == marked_dirty(&st0, ev),
            cdirty == frame_clip_dirty(lay, &st0, ev),
            st.clip_dirty@.len() == nc,
            st.clip_queued@.len() == nc,
            st.model_queued == st0.model_queued,
            forall|k: int| 0 <= k < c ==> st.clip_dirty@[k] == cdirty[k],
            forall|k: int| c <= k < nc ==> st.clip_dirty@[k] == marked_clip_dirty(&st0, ev)[k],
            forall|k: int| 0 <= k < c ==> !st.clip_queued@[k],
        decreases nc - c,
    {
        let ghost iter_start = st.clip_dirty@;
        st.clip_queued.set(c, false);
        if redraw {
            st.clip_dirty.set(c, true);
        }
        let ghost before_c = st.clip_dirty@;
        assert forall|k: int| 0 <= k < nc && k != c implies before_c[k] == iter_start[k] by {}
        let ghost queued_now = st.clip_queued@;
        let targets = &lay.clip_targets[c];
        let mut j: usize = 0;
        while j < targets.len()
            invariant
                frame_ok(lay, &st0, ev),
                c < nc,
                nc == lay.clip_targets@.len(),
                na == ev.am_updated@.len(),
                targets@ == lay.clip_targets@[c as int]@,
                j <= targets@.len(),
                st.am_dirty@ == dirty,
                dirty.len() == na,
                dirty == marked_dirty(&st0, ev),
                cdirty == frame_clip_dirty(lay, &st0, ev),
                st.clip_queued@ == queued_now,
                st.model_queued == st0.model_queued,
                st.clip_dirty@.len() == nc,
                forall|k: int| 0 <= k < nc && k != c ==> st.clip_dirty@[k] == before_c[k],
                st.clip_dirty@[c as int] == (before_c[c as int] || exists|k: int|
                    0 <= k < j && #[trigger] dirty[targets@[k] as int]),
            decreases targets@.len() - j,
        {
            let t = targets[j];
            proof {
                assert(lay.clip_targets@[c as int]@[j as int] < na);
            }
            if st.am_dirty[t as usize] {
                st.clip_dirty.set(c, true);
            }
            proof {
                assert(targets@[j as int] == t);
                if dirty[t as int] {
                    assert(dirty[targets@[j as int] as int]);
                }
            }
            j = j + 1;
        }
        proof {
            assert(j == targets@.len());
            assert(before_c[c as int] == (marked_clip_dirty(&st0, ev)[c as int] || redraw));
            assert(marked_clip_dirty(&st0, ev)[c as int] == (st0.clip_dirty@[c as int] || ev.mask_resized));
            assert(cdirty[c as int] == (st0.clip_dirty@[c as int] || ev.mask_resized || ev.transform_changed || exists|k: int|
                0 <= k < lay.clip_targets@[c as int]@.len() && #[trigger] marked_dirty(&st0, ev)[lay.clip_targets@[c as int]@[k] as int]));
            assert((exists|k: int| 0 <= k < targets@.len() && #[trigger] dirty[targets@[k] as int]) == (exists|k: int|
                0 <= k < lay.clip_targets@[c as int]@.len() && #[trigger] marked_dirty(&st0, ev)[lay.clip_targets@[c as int]@[k] as int]));
            assert(st.clip_dirty@[c as int] == cdirty[c as int]);
            assert forall|k: int| 0 <= k < c + 1 implies st.clip_dirty@[k] == cdirty[k] by {
                if k < c {
                    assert(st.clip_dirty@[k] == before_c[k]);
                }
            }
            assert forall|k: int| c + 1 <= k < nc implies st.clip_dirty@[k] == marked_clip_dirty(&st0, ev)[k] by {
                assert(st.clip_dirty@[k] == before_c[k]);
            }
        }
        c = c + 1;
    }
    assert(st.clip_dirty@ =~= cdirty);
    // Counts the clip sets in use.
    let mut uses = filled(0usize, nc);
    let ghost fuel = frame_fuel(lay, ev);
    proof {
        assert(walk_ends(lay, ev, lay.root@, fuel));
        assert forall|k: int| 0 <= k < nc implies uses@[k] + node_uses(lay, ev, lay.root@, fuel, k as usize) <= usize::MAX by {
            assert(clip_use_of(lay, ev, k as usize) <= usize::MAX);
        }
    }
    count_uses(lay, ev, &lay.root, &mut uses, Ghost(fuel));
    assert forall|k: int| 0 <= k < nc implies #[trigger] uses@[k] == clip_use_of(lay, ev, k as usize) by {}
    // Counts, for each art mesh, the clip sets in use that list it.
    let ghost targets_all = targets_of(lay);
    let mut amu = filled(0usize, na);
    let mut c: usize = 0;
    while c < nc
        invariant
            frame_ok(lay, &st0, ev),
            c <= nc,
            nc == lay.clip_targets@.len(),
            na == ev.am_updated@.len(),
            targets_all == targets_of(lay),
            uses@.len() == nc,
            amu@.len() == na,
            forall|k: int| 0 <= k < na ==> #[trigger] amu@[k] == target_uses(targets_all, uses@, c as nat, k as u32),
        decreases nc - c,
    {
        let ghost before_amu = amu@;
        if uses[c] != 0 {
            let targets = &lay.clip_targets[c];
            let mut j: usize = 0;
            while j < targets.len()
                invariant
                    frame_ok(lay, &st0, ev),
                    c < nc,
                    nc == lay.clip_targets@.len(),
                    na == ev.am_updated@.len(),
                    targets_all == targets_of(lay),
                    targets@ == lay.clip_targets@[c as int]@,
                    targets@ == targets_all[c as int],
                    j <= targets@.len(),
                    amu@.len() == na,
                    forall|k: int| 0 <= k < na ==> #[trigger] amu@[k] == before_amu[k] + count_of(targets@.take(j as int), k as u32),
                    forall|k: int| 0 <= k < na ==> before_amu[k] == target_uses(targets_all, uses@, c as nat, k as u32),
                decreases targets@.len() - j,
            {
                let t = targets[j];
                proof {
                    assert(lay.clip_targets@[c as int]@[j as int] < na);
                    lemma_take_last(targets@, j as int);
                    lemma_count_of_bound(targets@.take(j as int + 1), t);
                    lemma_target_uses_bound(targets_all, uses@, c as nat, t);
                    lemma_sum_lens_grows(targets_all, (c + 1) as nat, nc as nat);
                    assert((t as int) as u32 == t);
                }
                let v = amu[t as usize];
                amu.set(t as usize, v + 1);
                proof {
                    assert forall|k: int| 0 <= k < na implies #[trigger] amu@[k] == before_amu[k] + count_of(targets@.take(j as int + 1), k as u32) by {
                        assert(targets@.take(j as int + 1).drop_last() == targets@.take(j as int));
                    }
                }
                j = j + 1;
            }
            proof {
                assert(targets@.take(j as int) =~= targets@);
            }
        }
        c = c + 1;
    }
    let ghost clip_use_view = uses@;
    // Decides the uploads.
    let mut upload_uniform: Vec<bool> = Vec::new();
    let mut upload_vertices: Vec<bool> = Vec::new();
    let mut a: usize = 0;
    while a < na
        invariant
            frame_ok(lay, &st0, ev),
            a <= na,
            na == ev.am_updated@.len(),
            amu@.len() == na,
            st.am_dirty@.len() == na,
            upload_uniform@.len() == a,
            upload_vertices@.len() == a,
            forall|k: int| 0 <= k < a ==> #[trigger] upload_uniform@[k] == (ev.am_visible@[k] && ev.am_opaque@[k]),
            forall|k: int| 0 <= k < a ==> #[trigger] upload_vertices@[k] == (ev.am_visible@[k] && (ev.am_opaque@[k]
                || amu@[k] != 0) && dirty[k]),
            forall|k: int| 0 <= k < a ==> #[trigger] st.am_dirty@[k] == (dirty[k] && !upload_vertices@[k]),
            forall|k: int| a <= k < na ==> #[trigger] st.am_dirty@[k] == dirty[k],
            st.clip_dirty@ == cdirty,
            st.clip_queued@.len() == nc,
            forall|k: int| 0 <= k < nc ==> !st.clip_queued@[k],
            st.model_queued == st0.model_queued,
        decreases na - a,
    {
        let vis = ev.am_visible[a];
        let opq = ev.am_opaque[a];
        let u1 = vis && opq;
        let u2 = vis && (opq || amu[a] != 0) && st.am_dirty[a];
        upload_uniform.push(u1);
        upload_vertices.push(u2);
        if u2 {
            st.am_dirty.set(a, false);
        }
        a = a + 1;
    }
    let ghost am_dirty_after = st.am_dirty@;
    // Decides which clip masks to redraw.
    let mut redraw_clip: Vec<bool> = Vec::new();
    let mut clips_updated = false;
    let mut c: usize = 0;
    while c < nc
        invariant
            c <= nc,
            uses@.len() == nc,
            uses@ == clip_use_view,
            st.clip_dirty@ == cdirty,
            cdirty.len() == nc,
            st.clip_queued@.len() == nc,
            redraw_clip@.len() == c,
            forall|k: int| 0 <= k < c ==> #[trigger] redraw_clip@[k] == (uses@[k] != 0 && cdirty[k]),
            forall|k: int| 0 <= k < c ==> st.clip_queued@[k] == redraw_clip@[k],
            forall|k: int| c <= k < nc ==> !st.clip_queued@[k],
            clips_updated == exists|k: int| 0 <= k < c && #[trigger] redraw_clip@[k],
            st.model_queued == st0.model_queued,
            st.am_dirty@ == am_dirty_after,
        decreases nc - c,
    {
        let x = uses[c] != 0 && st.clip_dirty[c];
        let ghost old_rc = redraw_clip@;
        redraw_clip.push(x);
        proof {
            assert forall|k: int| 0 <= k < c implies redraw_clip@[k] == old_rc[k] by {}
            if clips_updated {
                let w = choose|k: int| 0 <= k < c && #[trigger] old_rc[k];
                assert(redraw_clip@[w]);
            }
        }
        if x {
            st.clip_queued.set(c, true);
            clips_updated = true;
        }
        proof {
            if x {
                assert(redraw_clip@[c as int]);
            } else {
                assert(!redraw_clip@[c as int]);
                assert((exists|k: int| 0 <= k < c + 1 && #[trigger] redraw_clip@[k]) ==> (exists|k: int| 0 <= k < c && #[trigger] redraw_clip@[k]));
            }
        }
        c = c + 1;
    }
    assert(st.clip_queued@ =~= redraw_clip@);
    let path;
    let changed;
    if lay.needs_offscreen {
        st.model_queued = true;
        path = FramePath::Whole;
        changed = true;
    } else if lay.has_offscreen_parts {
        st.model_queued = true;
        path = FramePath::Children;
        changed = true;
    } else {
        path = FramePath::Direct;
        changed = clips_updated;
    }
    proof {
        assert(uses@.len() == nc);
        assert(forall|k: int| 0 <= k < nc ==> #[trigger] uses@[k] == clip_use_of(lay, ev, k as usize));
        assert(st.clip_dirty@ == cdirty);
        assert(redraw_clip@.len() == nc);
        assert(st.clip_queued@ == redraw_clip@);
        assert(amu@.len() == na);
        assert(forall|k: int| 0 <= k < na ==> #[trigger] amu@[k] == target_uses(targets_of(lay), uses@, nc as nat, k as u32));
        assert(upload_uniform@.len() == na);
        assert(upload_vertices@.len() == na);
        assert(st.am_dirty@.len() == na);
        assert(forall|k: int| 0 <= k < na ==> #[trigger] st.am_dirty@[k] == (dirty[k] && !upload_vertices@[k]));
        assert(forall|k: int| 0 <= k < na ==> #[trigger] upload_uniform@[k] == (ev.am_visible@[k] && ev.am_opaque@[k]));
        assert(forall|k: int| 0 <= k < na ==> #[trigger] upload_vertices@[k] == (ev.am_visible@[k] && (ev.am_opaque@[k]
                || amu@[k] != 0) && dirty[k]));
        assert(forall|k: int| 0 <= k < nc ==> #[trigger] redraw_clip@[k] == (uses@[k] != 0 && cdirty[k]));
        assert(st.model_queued == (st0.model_queued || lay.needs_offscreen || lay.has_offscreen_parts));
        assert(path == if lay.needs_offscreen { FramePath::Whole } else if lay.has_offscreen_parts { FramePath::Children } else { FramePath::Direct });
        assert(st0 == *old(st));
        assert(dirty == marked_dirty(old(st), ev));
        assert(cdirty == frame_clip_dirty(lay, old(st), ev));
        assert(changed == (lay.needs_offscreen || lay.has_offscreen_parts || exists|k: int| 0 <= k < nc && #[trigger] redraw_clip@[k]));
    }
    let ghost uses_view = uses@;
    let plan = FramePlan {
        proceed: true,
        clip_use: uses,
        am_clip_use: amu,
        upload_uniform,
        upload_vertices,
        redraw_clip,
        path,
        changed,
    };
    proof {
        let r = &plan;
        let after = &*st;
        assert(r.clip_use@ == uses_view);
        assert(forall|c: int| 0 <= c < nc ==> #[trigger] r.clip_use@[c] == clip_use_of(lay, ev, c as usize));
        assert(after.clip_dirty@ == cdirty);
        assert(forall|c: int| 0 <= c < nc ==> #[trigger] r.redraw_clip@[c] == (r.clip_use@[c] != 0 && cdirty[c]));
        assert(after.clip_queued@ == r.redraw_clip@);
        assert(forall|a: int| 0 <= a < na ==> #[trigger] r.am_clip_use@[a] == target_uses(targets_of(lay), r.clip_use@, nc as nat, a as u32));
        assert(forall|a: int| 0 <= a < na ==> #[trigger] r.upload_uniform@[a] == (ev.am_visible@[a] && ev.am_opaque@[a]));
        assert(forall|a: int| 0 <= a < na ==> #[trigger] r.upload_vertices@[a] == (ev.am_visible@[a] && (ev.am_opaque@[a]
            || r.am_clip_use@[a] != 0) && dirty[a]));
        assert(forall|a: int| 0 <= a < na ==> #[trigger] after.am_dirty@[a] == (dirty[a] && !r.upload_vertices@[a]));
        assert(r.changed == (lay.needs_offscreen || lay.has_offscreen_parts || exists|c: int|
            0 <= c < nc && #[trigger] r.redraw_clip@[c]));
    }
    assert(frame_plan_ok(lay, &st0, st, ev, &plan));
    plan
}

/// How a frame that proceeds is composed: a model that needs an offscreen target is rendered
/// whole into one, whatever else it holds, and queues it for display; otherwise a model with
/// offscreen parts renders just those and queues them; otherwise nothing is rendered
/// offscreen, nothing new is queued, and the frame shows a change exactly when a clip mask
/// is redrawn. A mask is redrawn only while in use, and an uploaded art mesh is visible and
/// no longer awaits upload.
pub proof fn lemma_frame_composition(lay: &FrameLayout, st: &FrameState, after: &FrameState, ev: &FrameEvent, r: &FramePlan)
    requires
        frame_plan_ok(lay, st, after, ev, r),
    ensures
        lay.needs_offscreen ==> r.path == FramePath::Whole && r.changed && after.model_queued,
        !lay.needs_offscreen && lay.has_offscreen_parts ==> r.path == FramePath::Children && r.changed
            && after.model_queued,
        !lay.needs_offscreen && !lay.has_offscreen_parts ==> r.path == FramePath::Direct && after.model_queued
            == st.model_queued && (r.changed <==> exists|c: int| 0 <= c < r.redraw_clip@.len() && r.redraw_clip@[c]),
        forall|c: int| 0 <= c < r.redraw_clip@.len() && #[trigger] r.redraw_clip@[c] ==> r.clip_use@[c] > 0,
        forall|a: int| 0 <= a < r.upload_vertices@.len() && #[trigger] r.upload_vertices@[a] ==> ev.am_visible@[a]
            && !after.am_dirty@[a],
{
}

} // verus!
