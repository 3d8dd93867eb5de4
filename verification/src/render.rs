use vstd::prelude::*;
use crate::classes::{AlphaBlendMode, BlendConfig, ColorBlendMode};
use crate::driver::DrawNode;
use crate::model::{ArtMeshView, ClassId, ParsedModel, PartView};
use crate::types::{opt_idx_get, Idx, ObjectView};

verus! {

/// A factor of a blend equation, as the GPU pipeline names it.
#[derive(Debug, Copy, Clone, PartialEq, Eq, Structural)]
pub enum BlendFactor {
    Zero,
    One,
    Dst,
    OneMinusSrcAlpha,
}

/// How source and destination terms combine.
#[derive(Debug, Copy, Clone, PartialEq, Eq, Structural)]
pub enum BlendOperation {
    Add,
}

/// One channel group of a blend equation: `src * src_factor op dst * dst_factor`.
#[derive(Debug, Copy, Clone, PartialEq, Eq, Structural)]
pub struct BlendComponent {
    pub src_factor: BlendFactor,
    pub dst_factor: BlendFactor,
    pub operation: BlendOperation,
}

/// The blend equations of the color channels and of the alpha channel.
#[derive(Debug, Copy, Clone, PartialEq, Eq, Structural)]
pub struct BlendState {
    pub color: BlendComponent,
    pub alpha: BlendComponent,
}

/// The fragment shader entry point that a pipeline runs.
#[derive(Debug, Copy, Clone, PartialEq, Eq, Structural)]
pub enum ShaderEntry {
    Normal,
    NormalMask,
    Advanced,
    AdvancedMask,
}

/// An additive blend component with the given factors.
pub open spec fn component(src: BlendFactor, dst: BlendFactor) -> BlendComponent {
    BlendComponent { src_factor: src, dst_factor: dst, operation: BlendOperation::Add }
}

/// The fixed-function blending of a blend configuration. Normal color over normal alpha is
/// premultiplied "over"; the premultiplied add and multiply modes keep the destination's
/// alpha; every other mode (blended in the shader) replaces the target.
pub open spec fn spec_blend_state(cfg: BlendConfig) -> BlendState {
    match (cfg.color, cfg.alpha) {
        (ColorBlendMode::Normal, AlphaBlendMode::Over) => BlendState {
            color: component(BlendFactor::One, BlendFactor::OneMinusSrcAlpha),
            alpha: component(BlendFactor::One, BlendFactor::OneMinusSrcAlpha),
        },
        (ColorBlendMode::PremultAdd, _) => BlendState {
            color: component(BlendFactor::One, BlendFactor::One),
            alpha: component(BlendFactor::Zero, BlendFactor::One),
        },
        (ColorBlendMode::PremultMultiply, _) => BlendState {
            color: component(BlendFactor::Dst, BlendFactor::OneMinusSrcAlpha),
            alpha: component(BlendFactor::Zero, BlendFactor::One),
        },
        _ => BlendState {
            color: component(BlendFactor::One, BlendFactor::Zero),
            alpha: component(BlendFactor::One, BlendFactor::Zero),
        },
    }
}

/// The blend state of the pipeline that draws with `cfg`.
pub fn blend_state_for(cfg: BlendConfig) -> (r: BlendState)
    ensures
        r == spec_blend_state(cfg),
        cfg.spec_is_advanced() ==> r.color.src_factor == BlendFactor::One && r.color.dst_factor == BlendFactor::Zero
            && r.alpha.src_factor == BlendFactor::One && r.alpha.dst_factor == BlendFactor::Zero,
{
    let over = BlendComponent {
        src_factor: BlendFactor::One,
        dst_factor: BlendFactor::OneMinusSrcAlpha,
        operation: BlendOperation::Add,
    };
    let keep_alpha = BlendComponent {
        src_factor: BlendFactor::Zero,
        dst_factor: BlendFactor::One,
        operation: BlendOperation::Add,
    };
    let replace = BlendComponent {
        src_factor: BlendFactor::One,
        dst_factor: BlendFactor::Zero,
        operation: BlendOperation::Add,
    };
    match cfg.color {
        ColorBlendMode::Normal => {
            if cfg.alpha == AlphaBlendMode::Over {
                BlendState { color: over, alpha: over }
            } else {
                BlendState { color: replace, alpha: replace }
            }
        },
        ColorBlendMode::PremultAdd => BlendState {
            color: BlendComponent {
                src_factor: BlendFactor::One,
                dst_factor: BlendFactor::One,
                operation: BlendOperation::Add,
            },
            alpha: keep_alpha,
        },
        ColorBlendMode::PremultMultiply => BlendState {
            color: BlendComponent {
                src_factor: BlendFactor::Dst,
                dst_factor: BlendFactor::OneMinusSrcAlpha,
                operation: BlendOperation::Add,
            },
            alpha: keep_alpha,
        },
        _ => BlendState { color: replace, alpha: replace },
    }
}

/// The pipeline drawing with `cfg` writes the alpha channel: all modes but the
/// premultiplied add and multiply, which write color only.
pub fn writes_alpha(cfg: BlendConfig) -> (r: bool)
    ensures
        r == !(cfg.color == ColorBlendMode::PremultAdd || cfg.color == ColorBlendMode::PremultMultiply),
{
    match cfg.color {
        ColorBlendMode::PremultAdd => false,
        ColorBlendMode::PremultMultiply => false,
        _ => true,
    }
}

/// The shader entry that draws with `cfg`: advanced modes blend in the shader, and masked
/// drawing reads the mask.
pub fn shader_entry(cfg: BlendConfig, mask: bool) -> (r: ShaderEntry)
    ensures
        r == if cfg.spec_is_advanced() {
            if mask {
                ShaderEntry::AdvancedMask
            } else {
                ShaderEntry::Advanced
            }
        } else if mask {
            ShaderEntry::NormalMask
        } else {
            ShaderEntry::Normal
        },
{
    match (cfg.is_advanced(), mask) {
        (false, false) => ShaderEntry::Normal,
        (false, true) => ShaderEntry::NormalMask,
        (true, false) => ShaderEntry::Advanced,
        (true, true) => ShaderEntry::AdvancedMask,
    }
}

impl ShaderEntry {
    pub open spec fn spec_name(self) -> Seq<char> {
        match self {
            ShaderEntry::Normal => "fs_normal"@,
            ShaderEntry::NormalMask => "fs_normal_mask"@,
            ShaderEntry::Advanced => "fs_advanced"@,
            ShaderEntry::AdvancedMask => "fs_advanced_mask"@,
        }
    }

    /// The entry point's name in the shader module.
    pub fn name(&self) -> (r: &'static str)
        ensures
            r@ == self.spec_name(),
    {
        match self {
            ShaderEntry::Normal => "fs_normal",
            ShaderEntry::NormalMask => "fs_normal_mask",
            ShaderEntry::Advanced => "fs_advanced",
            ShaderEntry::AdvancedMask => "fs_advanced_mask",
        }
    }
}

/// Drawing node `n` of model `m` blends in an advanced mode: an art mesh by its own blend
/// configuration, an offscreen part by that of its offscreen part.
pub open spec fn node_is_advanced(m: &ParsedModel, n: DrawNode<u32>) -> bool {
    match n {
        DrawNode::ArtMesh(u) => m.art_mesh.blend_config@[u as int].spec_is_advanced(),
        DrawNode::OffscreenPart(u) => m.offscreen_part.blend_config@[opt_idx_get(
            m.part.i_offscreen_part@[u as int].0,
        ).unwrap() as int].spec_is_advanced(),
    }
}

/// Node `n` names an art mesh, or a part that is drawn offscreen, of model `m`.
pub open spec fn node_in_model(m: &ParsedModel, n: DrawNode<u32>) -> bool {
    match n {
        DrawNode::ArtMesh(u) => u < m.art_mesh.count,
        DrawNode::OffscreenPart(u) => u < m.part.count && opt_idx_get(m.part.i_offscreen_part@[u as int].0) is Some,
    }
}

/// Whether the model needs an offscreen target to render: some node of its top-level
/// drawing order blends in an advanced mode.
pub fn needs_offscreen(m: &ParsedModel, nodes: &Vec<DrawNode<u32>>) -> (r: bool)
    requires
        m.validated(),
        forall|k: int| 0 <= k < nodes@.len() ==> node_in_model(m, #[trigger] nodes@[k]),
    ensures
        r == exists|k: int| 0 <= k < nodes@.len() && node_is_advanced(m, #[trigger] nodes@[k]),
        forall|k: int|
            0 <= k < nodes@.len() ==> ((#[trigger] nodes@[k] matches DrawNode::OffscreenPart(u)
                && m.offscreen_part.blend_config@[opt_idx_get(m.part.i_offscreen_part@[u as int].0).unwrap() as int].spec_is_advanced())
                ==> r),
{
    let mut k: usize = 0;
    while k < nodes.len()
        invariant
            m.validated(),
            forall|j: int| 0 <= j < nodes@.len() ==> node_in_model(m, #[trigger] nodes@[j]),
            k <= nodes@.len(),
            forall|j: int| 0 <= j < k ==> !node_is_advanced(m, #[trigger] nodes@[j]),
        decreases nodes@.len() - k,
    {
        let node = nodes[k];
        proof {
            assert(node_in_model(m, nodes@[k as int]));
            assert(m.count_of(ClassId::ArtMesh) == m.raw_count_of(ClassId::ArtMesh));
            assert(m.count_of(ClassId::Part) == m.raw_count_of(ClassId::Part));
        }
        let advanced = match node {
            DrawNode::ArtMesh(u) => ArtMeshView::get(m, Idx::new(u)).unwrap().blend_config().is_advanced(),
            DrawNode::OffscreenPart(u) => PartView::get(m, Idx::new(u)).unwrap().blend_config().unwrap().is_advanced(),
        };
        if advanced {
            assert(node_is_advanced(m, nodes@[k as int]));
            return true;
        }
        k = k + 1;
    }
    false
}

/// Whether a list of top-level nodes needs an offscreen target is decided by the blend
/// configurations that the nodes draw with: an art mesh that blends in an advanced mode
/// needs one, and so does an offscreen part whose offscreen part blends in an advanced
/// mode; when neither occurs, none is needed.
pub proof fn lemma_needs_offscreen_by_blend(m: &ParsedModel, nodes: Seq<DrawNode<u32>>, r: bool)
    requires
        r == exists|k: int| 0 <= k < nodes.len() && node_is_advanced(m, #[trigger] nodes[k]),
    ensures
        forall|k: int|
            0 <= k < nodes.len() ==> ((#[trigger] nodes[k] matches DrawNode::ArtMesh(u)
                && m.art_mesh.blend_config@[u as int].spec_is_advanced()) ==> r),
        forall|k: int|
            0 <= k < nodes.len() ==> ((#[trigger] nodes[k] matches DrawNode::OffscreenPart(u)
                && m.offscreen_part.blend_config@[opt_idx_get(m.part.i_offscreen_part@[u as int].0).unwrap() as int].spec_is_advanced())
                ==> r),
        r ==> exists|k: int|
            0 <= k < nodes.len() && {
                ||| (#[trigger] nodes[k] matches DrawNode::ArtMesh(u) && m.art_mesh.blend_config@[u as int].spec_is_advanced())
                ||| (nodes[k] matches DrawNode::OffscreenPart(u)
                    && m.offscreen_part.blend_config@[opt_idx_get(m.part.i_offscreen_part@[u as int].0).unwrap() as int].spec_is_advanced())
            },
{
    assert forall|k: int|
        0 <= k < nodes.len() && (#[trigger] nodes[k] matches DrawNode::ArtMesh(u)
            && m.art_mesh.blend_config@[u as int].spec_is_advanced()) implies r by {
        assert(node_is_advanced(m, nodes[k]));
    }
    assert forall|k: int|
        0 <= k < nodes.len() && (#[trigger] nodes[k] matches DrawNode::OffscreenPart(u)
            && m.offscreen_part.blend_config@[opt_idx_get(m.part.i_offscreen_part@[u as int].0).unwrap() as int].spec_is_advanced())
        implies r by {
        assert(node_is_advanced(m, nodes[k]));
    }
    if r {
        let k = choose|k: int| 0 <= k < nodes.len() && node_is_advanced(m, #[trigger] nodes[k]);
        assert(node_is_advanced(m, nodes[k]));
    }
}

/// The blending of each configuration: every advanced mode (blended in the shader) replaces
/// the target on color and alpha alike; normal color over normal alpha is premultiplied
/// "over"; the premultiplied add and multiply modes blend color with the destination and
/// keep its alpha. Those three are exactly the configurations that are not advanced.
pub proof fn lemma_blend_state_modes(cfg: BlendConfig, r: BlendState)
    requires
        r == spec_blend_state(cfg),
    ensures
        !cfg.spec_is_advanced() <==> (cfg.color == ColorBlendMode::Normal && cfg.alpha == AlphaBlendMode::Over
            || cfg.color == ColorBlendMode::PremultAdd || cfg.color == ColorBlendMode::PremultMultiply),
        cfg.spec_is_advanced() ==> r == (BlendState {
            color: BlendComponent {
                src_factor: BlendFactor::One,
                dst_factor: BlendFactor::Zero,
                operation: BlendOperation::Add,
            },
            alpha: BlendComponent {
                src_factor: BlendFactor::One,
                dst_factor: BlendFactor::Zero,
                operation: BlendOperation::Add,
            },
        }),
        cfg.color == ColorBlendMode::Normal && cfg.alpha == AlphaBlendMode::Over ==> r == (BlendState {
            color: BlendComponent {
                src_factor: BlendFactor::One,
                dst_factor: BlendFactor::OneMinusSrcAlpha,
                operation: BlendOperation::Add,
            },
            alpha: BlendComponent {
                src_factor: BlendFactor::One,
                dst_factor: BlendFactor::OneMinusSrcAlpha,
                operation: BlendOperation::Add,
            },
        }),
        cfg.color == ColorBlendMode::PremultAdd ==> r == (BlendState {
            color: BlendComponent {
                src_factor: BlendFactor::One,
                dst_factor: BlendFactor::One,
                operation: BlendOperation::Add,
            },
            alpha: BlendComponent {
                src_factor: BlendFactor::Zero,
                dst_factor: BlendFactor::One,
                operation: BlendOperation::Add,
            },
        }),
        cfg.color == ColorBlendMode::PremultMultiply ==> r == (BlendState {
            color: BlendComponent {
                src_factor: BlendFactor::Dst,
                dst_factor: BlendFactor::OneMinusSrcAlpha,
                operation: BlendOperation::Add,
            },
            alpha: BlendComponent {
                src_factor: BlendFactor::Zero,
                dst_factor: BlendFactor::One,
                operation: BlendOperation::Add,
            },
        }),
{
}

/// A distinct clip list, and how many drawables use it.
#[derive(Debug, Clone, PartialEq, Eq)]
pub struct ClipSetEntry {
    pub targets: Vec<u32>,
    pub use_count: usize,
}

/// The position of the clip set whose targets are `l`, if there is one.
pub open spec fn find_set(sets: Seq<(Seq<u32>, nat)>, l: Seq<u32>) -> Option<int>
    decreases sets.len(),
{
    if sets.len() == 0 {
        None
    } else if sets.last().0 == l {
        Some(sets.len() - 1)
    } else {
        find_set(sets.drop_last(), l)
    }
}

/// The clip sets after the first `n` clip lists, and the set each list uses: an empty
/// list uses none; a list equal to one seen before uses that list's set and counts one
/// more use; a new list opens a set with one use, after the existing ones.
pub open spec fn clip_groups(lists: Seq<Seq<u32>>, n: nat) -> (Seq<Option<int>>, Seq<(Seq<u32>, nat)>)
    decreases n,
{
    if n == 0 {
        (Seq::empty(), Seq::empty())
    } else {
        let prev = clip_groups(lists, (n - 1) as nat);
        let l = lists[n - 1];
        if l.len() == 0 {
            (prev.0.push(None), prev.1)
        } else {
            match find_set(prev.1, l) {
                Some(i) => (prev.0.push(Some(i)), prev.1.update(i, (l, prev.1[i].1 + 1))),
                None => (prev.0.push(Some(prev.1.len() as int)), prev.1.push((l, 1nat))),
            }
        }
    }
}

/// The sets as plain values.
pub open spec fn sets_view(sets: Seq<ClipSetEntry>) -> Seq<(Seq<u32>, nat)> {
    sets.map_values(|e: ClipSetEntry| (e.targets@, e.use_count as nat))
}

proof fn lemma_find_set_in_range(sets: Seq<(Seq<u32>, nat)>, l: Seq<u32>)
    ensures
        find_set(sets, l) matches Some(i) ==> 0 <= i < sets.len() && sets[i].0 == l,
        find_set(sets, l) is None ==> forall|k: int| 0 <= k < sets.len() ==> sets[k].0 != l,
    decreases sets.len(),
{
    if sets.len() > 0 {
        lemma_find_set_in_range(sets.drop_last(), l);
        if sets.last().0 != l {
            assert forall|k: int| 0 <= k < sets.len() - 1 implies sets[k] == sets.drop_last()[k] by {}
        }
    }
}

proof fn lemma_clip_groups_len(lists: Seq<Seq<u32>>, n: nat)
    requires
        n <= lists.len(),
    ensures
        clip_groups(lists, n).0.len() == n,
        clip_groups(lists, n).1.len() <= n,
        forall|k: int| 0 <= k < clip_groups(lists, n).1.len() ==> #[trigger] clip_groups(lists, n).1[k].1 <= n,
    decreases n,
{
    if n > 0 {
        lemma_clip_groups_len(lists, (n - 1) as nat);
        let prev = clip_groups(lists, (n - 1) as nat);
        lemma_find_set_in_range(prev.1, lists[n - 1]);
    }
}

proof fn lemma_clip_groups_distinct(lists: Seq<Seq<u32>>, n: nat)
    ensures
        forall|a: int, b: int|
            0 <= a < b < clip_groups(lists, n).1.len() ==> #[trigger] clip_groups(lists, n).1[a].0
                != #[trigger] clip_groups(lists, n).1[b].0,
    decreases n,
{
    if n > 0 {
        lemma_clip_groups_distinct(lists, (n - 1) as nat);
        let prev = clip_groups(lists, (n - 1) as nat);
        lemma_find_set_in_range(prev.1, lists[n - 1]);
        let now = clip_groups(lists, n);
        assert forall|a: int, b: int| 0 <= a < b < now.1.len() implies #[trigger] now.1[a].0 != #[trigger] now.1[b].0 by {
            if lists[n - 1].len() != 0 {
                match find_set(prev.1, lists[n - 1]) {
                    Some(i) => {
                        assert(now.1[a].0 == prev.1[a].0);
                        assert(now.1[b].0 == prev.1[b].0);
                    },
                    None => {
                        if b < prev.1.len() {
                            assert(now.1[a].0 == prev.1[a].0);
                            assert(now.1[b].0 == prev.1[b].0);
                        }
                    },
                }
            }
        }
    }
}

fn same_list(a: &Vec<u32>, b: &Vec<u32>) -> (r: bool)
    ensures
        r == (a@ == b@),
{
    if a.len() != b.len() {
        return false;
    }
    let mut i: usize = 0;
    while i < a.len()
        invariant
            a@.len() == b@.len(),
            i <= a@.len(),
            forall|j: int| 0 <= j < i ==> a@[j] == b@[j],
        decreases a@.len() - i,
    {
        if a[i] != b[i] {
            return false;
        }
        i = i + 1;
    }
    assert(a@ =~= b@);
    true
}

fn copy_list(a: &Vec<u32>) -> (r: Vec<u32>)
    ensures
        r@ == a@,
{
    let mut r: Vec<u32> = Vec::new();
    let mut i: usize = 0;
    while i < a.len()
        invariant
            i <= a@.len(),
            r@ == a@.take(i as int),
        decreases a@.len() - i,
    {
        r.push(a[i]);
        i = i + 1;
        assert(r@ =~= a@.take(i as int));
    }
    assert(r@ =~= a@);
    r
}

/// Groups the clip lists of the drawables (art meshes, then offscreen parts, in order)
/// into distinct clip sets: the set each drawable uses, and the sets with their use counts,
/// in the order they first appear.
pub fn group_clip_sets(lists: &Vec<Vec<u32>>) -> (r: (Vec<Option<usize>>, Vec<ClipSetEntry>))
    ensures
        r.0@.len() == lists@.len(),
        forall|k: int| 0 <= k < lists@.len() ==> (match #[trigger] r.0@[k] {
            Some(i) => clip_groups(lists@.map_values(|l: Vec<u32>| l@), lists@.len()).0[k] == Some(i as int),
            None => clip_groups(lists@.map_values(|l: Vec<u32>| l@), lists@.len()).0[k] is None,
        }),
        sets_view(r.1@) == clip_groups(lists@.map_values(|l: Vec<u32>| l@), lists@.len()).1,
{
    let ghost ls = lists@.map_values(|l: Vec<u32>| l@);
    let mut uses: Vec<Option<usize>> = Vec::new();
    let mut sets: Vec<ClipSetEntry> = Vec::new();
    let mut n: usize = 0;
    while n < lists.len()
        invariant
            ls == lists@.map_values(|l: Vec<u32>| l@),
            n <= lists@.len(),
            uses@.len() == n,
            forall|k: int| 0 <= k < n ==> (match #[trigger] uses@[k] {
                Some(i) => clip_groups(ls, n as nat).0[k] == Some(i as int),
                None => clip_groups(ls, n as nat).0[k] is None,
            }),
            sets_view(sets@) == clip_groups(ls, n as nat).1,
        decreases lists@.len() - n,
    {
        proof {
            lemma_clip_groups_len(ls, n as nat);
            lemma_clip_groups_len(ls, (n + 1) as nat);
        }
        let ghost prev = clip_groups(ls, n as nat);
        let ghost uses_before = uses@;
        let l = &lists[n];
        assert(ls[n as int] == l@);
        if l.len() == 0 {
            uses.push(None);
        } else {
            let mut i: usize = 0;
            let mut found: Option<usize> = None;
            while i < sets.len()
                invariant_except_break
                    found is None,
                    forall|k: int| 0 <= k < i ==> sets@[k].targets@ != l@,
                invariant
                    sets_view(sets@) == prev.1,
                    i <= sets@.len(),
                ensures
                    found matches Some(j) ==> j < sets@.len() && sets@[j as int].targets@ == l@,
                    found is None ==> forall|k: int| 0 <= k < sets@.len() ==> sets@[k].targets@ != l@,
                decreases sets@.len() - i,
            {
                if same_list(&sets[i].targets, l) {
                    found = Some(i);
                    break;
                }
                i = i + 1;
            }
            proof {
                lemma_find_set_in_range(prev.1, l@);
                assert forall|k: int| 0 <= k < sets@.len() implies #[trigger] prev.1[k].0 == sets@[k].targets@ by {}
            }
            match found {
                Some(i) => {
                    proof {
                        assert(prev.1[i as int].0 == l@);
                        lemma_clip_groups_distinct(ls, n as nat);
                        if find_set(prev.1, l@) != Some(i as int) {
                            let j = find_set(prev.1, l@).unwrap();
                            assert(j != i);
                            assert(prev.1[j].0 == l@);
                            if j < i {
                                assert(prev.1[j].0 != prev.1[i as int].0);
                            } else {
                                assert(prev.1[i as int].0 != prev.1[j].0);
                            }
                        }
                    }
                    let c = sets[i].use_count;
                    let t = copy_list(&sets[i].targets);
                    sets.set(i, ClipSetEntry { targets: t, use_count: c + 1 });
                    uses.push(Some(i));
                },
                None => {
                    proof {
                        if find_set(prev.1, l@) is Some {
                            let j = find_set(prev.1, l@).unwrap();
                            assert(sets@[j].targets@ == l@);
                        }
                    }
                    sets.push(ClipSetEntry { targets: copy_list(l), use_count: 1 });
                    uses.push(Some(sets.len() - 1));
                },
            }
        }
        n = n + 1;
        proof {
            let now = clip_groups(ls, n as nat);
            assert forall|k: int| 0 <= k < n implies (match #[trigger] uses@[k] {
                Some(i) => now.0[k] == Some(i as int),
                None => now.0[k] is None,
            }) by {
                if k < n - 1 {
                    assert(uses@[k] == uses_before[k]);
                }
            }
            assert(sets_view(sets@) =~= now.1);
        }
    }
    (uses, sets)
}

} // verus!
