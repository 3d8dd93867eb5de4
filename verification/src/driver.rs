use vstd::prelude::*;
use vstd::string::StringExecFns;
use crate::classes::DrawItemType;
use crate::model::{ClassId, DrawGroupView, ParsedModel, PartView};
use crate::pose::{entries_map, entry_positions_distinct, lemma_entries_map_at, lemma_entries_map_push, lemma_entries_map_set};
use crate::refs::draw_group_refs_ok_at;
use crate::checks::draw_item_ok;
use crate::types::{opt_idx_get, Idx, ObjectView, OptReference};
use crate::views::DrawEntry;

verus! {

/// Why the driver refused to set a value.
#[derive(Debug, Clone, PartialEq, Eq)]
pub enum DriverError {
    /// No parameter has the given identifier.
    ParameterNotFound(String),
    /// No part has the given identifier.
    PartNotFound(String),
}

impl DriverError {
    /// The message that describes the error.
    pub open spec fn spec_message(&self) -> Seq<char> {
        match self {
            DriverError::ParameterNotFound(id) => "Parameter "@ + id@ + " does not exist"@,
            DriverError::PartNotFound(id) => "Part "@ + id@ + " does not exist"@,
        }
    }

    /// The message that describes the error: which kind of object was missing, and the
    /// identifier that was asked for.
    pub fn message(&self) -> (r: String)
        ensures
            r@ == self.spec_message(),
    {
        match self {
            DriverError::ParameterNotFound(id) => "Parameter ".to_owned().concat(id.as_str()).concat(" does not exist"),
            DriverError::PartNotFound(id) => "Part ".to_owned().concat(id.as_str()).concat(" does not exist"),
        }
    }
}

/// One step of a drawing order: draw an art mesh, or draw a part that is rendered
/// offscreen (its own children come in the branch recorded for it).
#[derive(Debug, Clone, Copy, Eq, PartialEq, Structural)]
pub enum DrawNode<T> {
    ArtMesh(T),
    OffscreenPart(T),
}

/// Where an item with key `k` goes among the first `pos` entries of `order`: after the last
/// entry whose key is at most `k`.
pub open spec fn insert_pos(order: Seq<int>, keys: Seq<u32>, k: u32, pos: int) -> int
    decreases pos,
{
    if pos > 0 && keys[order[pos - 1]] > k {
        insert_pos(order, keys, k, pos - 1)
    } else {
        pos
    }
}

/// The positions `0..n` of `keys`, in increasing order of key; positions with equal keys keep
/// their order. Each position is inserted after every earlier one whose key is at most its own.
pub open spec fn stable_order(keys: Seq<u32>, n: nat) -> Seq<int>
    decreases n,
{
    if n == 0 {
        Seq::empty()
    } else {
        let o = stable_order(keys, (n - 1) as nat);
        o.insert(insert_pos(o, keys, keys[n - 1], o.len() as int), n - 1)
    }
}

/// Position `a` comes before position `b` in a stable sort by key.
pub open spec fn sorts_before(keys: Seq<u32>, a: int, b: int) -> bool {
    keys[a] < keys[b] || (keys[a] == keys[b] && a < b)
}

/// `order` lists distinct positions of `0..n`, each position before every later one in a
/// stable sort by key.
pub open spec fn stably_sorted(keys: Seq<u32>, order: Seq<int>, n: nat) -> bool {
    &&& order.len() == n
    &&& forall|p: int| 0 <= p < n ==> 0 <= #[trigger] order[p] < n
    &&& forall|p: int, q: int| 0 <= p < q < n ==> sorts_before(keys, #[trigger] order[p], #[trigger] order[q])
}

proof fn lemma_insert_pos(order: Seq<int>, keys: Seq<u32>, k: u32, pos: int)
    requires
        0 <= pos <= order.len(),
        forall|p: int, q: int| 0 <= p < q < order.len() ==> keys[#[trigger] order[p]] <= keys[#[trigger] order[q]],
    ensures
        0 <= insert_pos(order, keys, k, pos) <= pos,
        forall|p: int| 0 <= p < insert_pos(order, keys, k, pos) ==> keys[#[trigger] order[p]] <= k,
        forall|p: int| insert_pos(order, keys, k, pos) <= p < pos ==> keys[#[trigger] order[p]] > k,
    decreases pos,
{
    if pos > 0 && keys[order[pos - 1]] > k {
        lemma_insert_pos(order, keys, k, pos - 1);
    } else if pos > 0 {
        assert forall|p: int| 0 <= p < pos implies keys[#[trigger] order[p]] <= k by {
            if p < pos - 1 {
                assert(keys[order[p]] <= keys[order[pos - 1]]);
            }
        }
    }
}

/// The order that `stable_order` gives is a stable sort by key of the positions `0..n`.
pub proof fn lemma_stable_order_sorted(keys: Seq<u32>, n: nat)
    requires
        n <= keys.len(),
    ensures
        stably_sorted(keys, stable_order(keys, n), n),
    decreases n,
{
    if n > 0 {
        let m = (n - 1) as nat;
        lemma_stable_order_sorted(keys, m);
        let o = stable_order(keys, m);
        let k = keys[m as int];
        assert forall|p: int, q: int| 0 <= p < q < o.len() implies keys[#[trigger] o[p]] <= keys[#[trigger] o[q]] by {
            assert(sorts_before(keys, o[p], o[q]));
        }
        lemma_insert_pos(o, keys, k, o.len() as int);
        let c = insert_pos(o, keys, k, o.len() as int);
        let r = o.insert(c, m as int);
        assert(r == stable_order(keys, n));
        assert forall|p: int| 0 <= p < n implies 0 <= #[trigger] r[p] < n by {
            if p < c {
                assert(r[p] == o[p]);
            } else if p > c {
                assert(r[p] == o[p - 1]);
            }
        }
        assert forall|p: int, q: int| 0 <= p < q < n implies sorts_before(keys, #[trigger] r[p], #[trigger] r[q]) by {
            if q < c {
                assert(r[p] == o[p] && r[q] == o[q]);
            } else if q == c {
                assert(r[p] == o[p]);
                assert(keys[o[p]] <= k);
                assert(o[p] < m);
            } else if p < c {
                assert(r[p] == o[p] && r[q] == o[q - 1]);
            } else if p == c {
                assert(r[q] == o[q - 1]);
                assert(keys[o[q - 1]] > k);
            } else {
                assert(r[p] == o[p - 1] && r[q] == o[q - 1]);
            }
        }
    }
}

/// The positions `0..keys.len()`, stably sorted by key.
pub fn sort_by_key(keys: &[u32]) -> (r: Vec<usize>)
    ensures
        r@.map_values(|i: usize| i as int) == stable_order(keys@, keys@.len()),
{
    let mut order: Vec<usize> = Vec::new();
    let mut i: usize = 0;
    while i < keys.len()
        invariant
            0 <= i <= keys@.len(),
            order@.map_values(|x: usize| x as int) == stable_order(keys@, i as nat),
            forall|p: int| 0 <= p < order@.len() ==> #[trigger] order@[p] < i,
            order@.len() == i,
        decreases keys@.len() - i,
    {
        let ghost o = stable_order(keys@, i as nat);
        let k = keys[i];
        let mut pos: usize = order.len();
        while pos > 0 && keys[order[pos - 1]] > k
            invariant
                0 <= pos <= order@.len(),
                order@.len() == i,
                i < keys@.len(),
                k == keys@[i as int],
                forall|p: int| 0 <= p < order@.len() ==> #[trigger] order@[p] < i,
                order@.map_values(|x: usize| x as int) == o,
                insert_pos(o, keys@, k, pos as int) == insert_pos(o, keys@, k, order@.len() as int),
            decreases pos,
        {
            pos = pos - 1;
        }
        proof {
            assert(insert_pos(o, keys@, k, pos as int) == pos);
        }
        order.insert(pos, i);
        proof {
            assert(order@.map_values(|x: usize| x as int) =~= o.insert(pos as int, i as int));
        }
        i = i + 1;
    }
    order
}

/// The sort key of draw item `d`: the depth of its art mesh or part, taken as an unsigned
/// word.
pub open spec fn item_key(m: &ParsedModel, d: int, am_depth: Seq<i32>, part_depth: Seq<i32>) -> u32 {
    match m.draw_item.item_type@[d] {
        DrawItemType::ArtMesh => am_depth[m.draw_item.i_child@[d] as int] as u32,
        DrawItemType::Part => part_depth[m.draw_item.i_child@[d] as int] as u32,
    }
}

/// The sort keys of the items of draw group `g`.
pub open spec fn group_keys(m: &ParsedModel, g: int, am_depth: Seq<i32>, part_depth: Seq<i32>) -> Seq<u32> {
    Seq::new(
        m.draw_group.cnt_items@[g] as nat,
        |k: int| item_key(m, m.draw_group.i_items@[g].0 + k, am_depth, part_depth),
    )
}

/// The draw group under which the children of part item `d` are ordered.
pub open spec fn child_group(m: &ParsedModel, d: int) -> int {
    opt_idx_get(m.draw_item.i_draw_group@[d].0).unwrap() as int
}

/// The parts nested under draw group `g` go at most `fuel` groups deep.
pub open spec fn nests_within(m: &ParsedModel, g: int, fuel: nat) -> bool
    decreases fuel,
{
    forall|k: int|
        0 <= k < m.draw_group.cnt_items@[g] ==> (#[trigger] m.draw_item.item_type@[m.draw_group.i_items@[g].0 + k]
            == DrawItemType::Part ==> fuel > 0 && nests_within(
            m,
            child_group(m, m.draw_group.i_items@[g].0 + k),
            (fuel - 1) as nat,
        ))
}

/// The nodes that draw group `g` contributes to the drawing order, and the offscreen branches
/// recorded on the way, starting from the branches `br`.
pub open spec fn group_nodes(
    m: &ParsedModel,
    g: int,
    am_depth: Seq<i32>,
    part_depth: Seq<i32>,
    fuel: nat,
    br: Map<usize, Seq<DrawNode<u32>>>,
) -> (Seq<DrawNode<u32>>, Map<usize, Seq<DrawNode<u32>>>)
    decreases fuel, 1nat, 0nat,
{
    let keys = group_keys(m, g, am_depth, part_depth);
    let order = stable_order(keys, keys.len());
    items_nodes(m, m.draw_group.i_items@[g].0 as int, order, order.len(), am_depth, part_depth, fuel, br)
}

/// The nodes of the first `k` items of a draw group whose items start at `start`, taken in
/// the order `order`: an art mesh adds itself; a part drawn offscreen adds itself and records
/// the nodes of its children as its branch; any other part adds the nodes of its children.
pub open spec fn items_nodes(
    m: &ParsedModel,
    start: int,
    order: Seq<int>,
    k: nat,
    am_depth: Seq<i32>,
    part_depth: Seq<i32>,
    fuel: nat,
    br: Map<usize, Seq<DrawNode<u32>>>,
) -> (Seq<DrawNode<u32>>, Map<usize, Seq<DrawNode<u32>>>)
    decreases fuel, 0nat, k,
{
    if k == 0 {
        (Seq::empty(), br)
    } else {
        let prev = items_nodes(m, start, order, (k - 1) as nat, am_depth, part_depth, fuel, br);
        let d = start + order[k - 1];
        let uid = m.draw_item.i_child@[d];
        match m.draw_item.item_type@[d] {
            DrawItemType::ArtMesh => (prev.0.push(DrawNode::ArtMesh(uid)), prev.1),
            DrawItemType::Part => if fuel == 0 {
                prev
            } else {
                let sub = group_nodes(m, child_group(m, d), am_depth, part_depth, (fuel - 1) as nat, prev.1);
                if opt_idx_get(m.part.i_offscreen_part@[uid as int].0) is Some {
                    (prev.0.push(DrawNode::OffscreenPart(uid)), sub.1.insert(uid as usize, sub.0))
                } else {
                    (prev.0 + sub.0, sub.1)
                }
            },
        }
    }
}

/// The branches recorded so far, each as a position and its nodes.
pub open spec fn branch_entries(b: Seq<(usize, Vec<DrawNode<u32>>)>) -> Seq<(usize, Seq<DrawNode<u32>>)> {
    b.map_values(|e: (usize, Vec<DrawNode<u32>>)| (e.0, e.1@))
}

/// The branches recorded so far, by part.
pub open spec fn branches_view(b: Seq<(usize, Vec<DrawNode<u32>>)>) -> Map<usize, Seq<DrawNode<u32>>> {
    entries_map(branch_entries(b))
}

/// Records `nodes` as the branch of part `uid`, replacing any branch it had.
fn store_branch(branches: &mut Vec<(usize, Vec<DrawNode<u32>>)>, uid: usize, nodes: Vec<DrawNode<u32>>)
    requires
        entry_positions_distinct(branch_entries(old(branches)@)),
    ensures
        entry_positions_distinct(branch_entries(final(branches)@)),
        branches_view(final(branches)@) == branches_view(old(branches)@).insert(uid, nodes@),
{
    let ghost e = branch_entries(branches@);
    let ghost v = nodes@;
    let mut j: usize = 0;
    while j < branches.len()
        invariant
            0 <= j <= branches@.len(),
            e == branch_entries(branches@),
            branches@ == old(branches)@,
            entry_positions_distinct(e),
            v == nodes@,
            forall|i: int| 0 <= i < j ==> branches@[i].0 != uid,
        decreases branches@.len() - j,
    {
        if branches[j].0 == uid {
            proof {
                lemma_entries_map_set(e, j as int, v);
                assert(e[j as int].0 == uid);
            }
            let ghost before = branches@;
            branches.set(j, (uid, nodes));
            proof {
                assert(branches@ == before.update(j as int, (uid, nodes)));
                assert forall|i: int| 0 <= i < e.len() implies #[trigger] branch_entries(branches@)[i] == e.update(j as int, (uid, v))[i] by {
                    if i != j {
                        assert(branches@[i] == before[i]);
                    }
                }
                assert(branch_entries(branches@) =~= e.update(j as int, (uid, v)));
            }
            return;
        }
        j = j + 1;
    }
    proof {
        assert forall|i: int| 0 <= i < e.len() implies e[i].0 != uid by {}
        assert(!entries_map(e).dom().contains(uid));
        lemma_entries_map_push(e, uid, v);
    }
    branches.push((uid, nodes));
    proof {
        assert(branch_entries(branches@) =~= e.push((uid, v)));
    }
}

/// Adds to `nodes` the drawing order of draw group `group`, and records in `branches` the
/// order under each part drawn offscreen; `fuel` bounds how deep parts nest.
fn collect_group(
    model: &ParsedModel,
    group: &DrawGroupView,
    am_depth: &[i32],
    part_depth: &[i32],
    branches: &mut Vec<(usize, Vec<DrawNode<u32>>)>,
    nodes: &mut Vec<DrawNode<u32>>,
    Ghost(fuel): Ghost<nat>,
)
    requires
        model.validated(),
        group.valid(),
        group.model == model,
        am_depth@.len() >= model.art_mesh.count,
        part_depth@.len() >= model.part.count,
        nests_within(model, group.idx as int, fuel),
        entry_positions_distinct(branch_entries(old(branches)@)),
    ensures
        entry_positions_distinct(branch_entries(final(branches)@)),
        ({
            let r = group_nodes(model, group.idx as int, am_depth@, part_depth@, fuel, branches_view(old(branches)@));
            &&& final(nodes)@ == old(nodes)@ + r.0
            &&& branches_view(final(branches)@) == r.1
        }),
    decreases fuel,
{
    let ghost m = model;
    let ghost g = group.idx as int;
    let ghost start = m.draw_group.i_items@[g].0 as int;
    proof {
        assert(m.count_of(ClassId::Part) == m.raw_count_of(ClassId::Part));
        assert(m.count_of(ClassId::ArtMesh) == m.raw_count_of(ClassId::ArtMesh));
        assert(m.count_of(ClassId::DrawGroup) == m.raw_count_of(ClassId::DrawGroup));
        assert(m.count_of(ClassId::DrawItem) == m.raw_count_of(ClassId::DrawItem));
        assert(draw_group_refs_ok_at(m, g));
    }
    let items = group.items();
    let n = items.len();
    let mut keys: Vec<u32> = Vec::new();
    let mut k: usize = 0;
    while k < n
        invariant
            m == model,
            m.validated(),
            n == items@.len(),
            n == m.draw_group.cnt_items@[g],
            start == m.draw_group.i_items@[g].0,
            start + n <= m.draw_item.count,
            m.draw_item.count == m.draw_item.raw_count,
            am_depth@.len() >= m.art_mesh.count,
            part_depth@.len() >= m.part.count,
            forall|j: int| 0 <= j < n ==> #[trigger] crate::views::draw_entry_matches(m, start + j, items@[j]),
            0 <= k <= n,
            keys@.len() == k,
            forall|j: int| 0 <= j < k ==> keys@[j] == item_key(m, start + j, am_depth@, part_depth@),
        decreases n - k,
    {
        proof {
            assert(crate::views::draw_entry_matches(m, start + k, items@[k as int]));
            assert(draw_item_ok(m, start + k));
        }
        let key: u32 = match &items[k] {
            DrawEntry::ArtMesh(a) => #[verifier::truncate] (am_depth[a.0.idx as usize] as u32),
            DrawEntry::Part(pe) => #[verifier::truncate] (part_depth[pe.part.0.idx as usize] as u32),
        };
        keys.push(key);
        k = k + 1;
    }
    proof {
        assert(keys@ =~= group_keys(m, g, am_depth@, part_depth@));
    }
    let order = sort_by_key(keys.as_slice());
    let ghost sorted = stable_order(keys@, keys@.len());
    proof {
        lemma_stable_order_sorted(keys@, keys@.len());
    }
    let ghost br0 = branches_view(branches@);
    let ghost nodes0 = nodes@;
    let mut p: usize = 0;
    while p < order.len()
        invariant
            m == model,
            m.validated(),
            group.valid(),
            group.model == m,
            g == group.idx,
            n == items@.len(),
            n == m.draw_group.cnt_items@[g],
            start == m.draw_group.i_items@[g].0,
            start + n <= m.draw_item.count,
            m.draw_item.count == m.draw_item.raw_count,
            m.draw_group.count == m.draw_group.raw_count,
            m.part.count == m.part.raw_count,
            am_depth@.len() >= m.art_mesh.count,
            part_depth@.len() >= m.part.count,
            nests_within(m, g, fuel),
            forall|j: int| 0 <= j < n ==> #[trigger] crate::views::draw_entry_matches(m, start + j, items@[j]),
            keys@ == group_keys(m, g, am_depth@, part_depth@),
            order@.map_values(|i: usize| i as int) == sorted,
            sorted == stable_order(keys@, keys@.len()),
            stably_sorted(keys@, sorted, n as nat),
            0 <= p <= order@.len(),
            order@.len() == n,
            entry_positions_distinct(branch_entries(branches@)),
            ({
                let r = items_nodes(m, start, sorted, p as nat, am_depth@, part_depth@, fuel, br0);
                &&& nodes@ == nodes0 + r.0
                &&& branches_view(branches@) == r.1
            }),
        decreases order@.len() - p,
    {
        let idx = order[p];
        proof {
            assert(sorted[p as int] == idx as int);
            assert(0 <= sorted[p as int] < n);
            assert(crate::views::draw_entry_matches(m, start + idx, items@[idx as int]));
            assert(draw_item_ok(m, start + idx));
            assert(crate::refs::draw_item_refs_ok_at(m, start + idx));
        }
        let ghost before_nodes = nodes@;
        let ghost before_br = branches_view(branches@);
        match &items[idx] {
            DrawEntry::ArtMesh(a) => {
                nodes.push(DrawNode::ArtMesh(a.0.idx));
            },
            DrawEntry::Part(pe) => {
                let uid = pe.part.0.idx;
                proof {
                    assert(m.draw_item.item_type@[start + idx] == DrawItemType::Part);
                    assert(fuel > 0 && nests_within(m, child_group(m, start + idx), (fuel - 1) as nat));
                    assert(child_group(m, start + idx) == pe.draw_group.0.idx);
                }
                let part = model.parts().get(uid).unwrap();
                if part.0.offscreen() {
                    let mut branch: Vec<DrawNode<u32>> = Vec::new();
                    collect_group(model, &pe.draw_group.0, am_depth, part_depth, branches, &mut branch, Ghost((fuel - 1) as nat));
                    store_branch(branches, uid as usize, branch);
                    nodes.push(DrawNode::OffscreenPart(uid));
                } else {
                    collect_group(model, &pe.draw_group.0, am_depth, part_depth, branches, nodes, Ghost((fuel - 1) as nat));
                    proof {
                        let sub = group_nodes(m, child_group(m, start + idx), am_depth@, part_depth@, (fuel - 1) as nat, before_br);
                        let prev = items_nodes(m, start, sorted, p as nat, am_depth@, part_depth@, fuel, br0);
                        assert(nodes@ =~= nodes0 + (prev.0 + sub.0));
                    }
                }
            },
        }
        p = p + 1;
    }
    proof {
        assert(sorted.len() == n);
    }
}

/// The drawing order of draw group `group`: its art meshes and the parts drawn offscreen, by
/// increasing depth (art mesh depths in `am_depth`, part depths in `part_depth`, each taken as
/// an unsigned word), with the children of every other part in its place. The order under each
/// part drawn offscreen is recorded in `branches`, replacing any it had there. Parts must nest
/// to a bounded depth.
pub fn collect_drawgroup(
    model: &ParsedModel,
    group: &DrawGroupView,
    am_depth: &[i32],
    part_depth: &[i32],
    branches: &mut Vec<(usize, Vec<DrawNode<u32>>)>,
    nodes: &mut Vec<DrawNode<u32>>,
)
    requires
        model.validated(),
        group.valid(),
        group.model == model,
        am_depth@.len() >= model.art_mesh.count,
        part_depth@.len() >= model.part.count,
        exists|f: nat| nests_within(model, group.idx as int, f),
        entry_positions_distinct(branch_entries(old(branches)@)),
    ensures
        entry_positions_distinct(branch_entries(final(branches)@)),
        ({
            let f = choose|f: nat| nests_within(model, group.idx as int, f);
            let r = group_nodes(model, group.idx as int, am_depth@, part_depth@, f, branches_view(old(branches)@));
            &&& final(nodes)@ == old(nodes)@ + r.0
            &&& branches_view(final(branches)@) == r.1
        }),
{
    let ghost f = choose|f: nat| nests_within(model, group.idx as int, f);
    collect_group(model, group, am_depth, part_depth, branches, nodes, Ghost(f));
}

/// How many entries of `s` are set.
pub open spec fn count_set(s: Seq<bool>) -> nat
    decreases s.len(),
{
    if s.len() == 0 {
        0
    } else {
        count_set(s.drop_last()) + if s.last() { 1nat } else { 0nat }
    }
}

/// `big` has the length of `small` and every entry set in `small`.
pub open spec fn covers(big: Seq<bool>, small: Seq<bool>) -> bool {
    &&& big.len() == small.len()
    &&& forall|i: int| 0 <= i < small.len() && #[trigger] small[i] ==> big[i]
}

/// Every glue of `glues` joins two entries of `s` that are both set or both clear.
pub open spec fn glue_closed(s: Seq<bool>, glues: Seq<(usize, usize)>) -> bool {
    forall|k: int| 0 <= k < glues.len() ==> s[#[trigger] glues[k].0 as int] == s[glues[k].1 as int]
}

/// `s` covers `start` and no glue joins a set entry of it to a clear one.
pub open spec fn glue_closed_cover(s: Seq<bool>, start: Seq<bool>, glues: Seq<(usize, usize)>) -> bool {
    covers(s, start) && glue_closed(s, glues)
}

/// Every entry set in `s` is set in each glue-closed cover of `start`.
pub open spec fn within_closed_covers(s: Seq<bool>, start: Seq<bool>, glues: Seq<(usize, usize)>) -> bool {
    forall|c: Seq<bool>| #[trigger] glue_closed_cover(c, start, glues) ==> covers(c, s)
}

/// Both ends of every glue are entries of a sequence of length `n`.
pub open spec fn glues_in(glues: Seq<(usize, usize)>, n: nat) -> bool {
    forall|k: int| 0 <= k < glues.len() ==> (#[trigger] glues[k]).0 < n && glues[k].1 < n
}

proof fn lemma_count_set_grows(small: Seq<bool>, big: Seq<bool>)
    requires
        covers(big, small),
    ensures
        count_set(small) <= count_set(big),
        count_set(big) <= big.len(),
        (exists|i: int| 0 <= i < big.len() && big[i] && !small[i]) ==> count_set(small) < count_set(big),
    decreases small.len(),
{
    if small.len() > 0 {
        let n = small.len() - 1;
        assert(covers(big.drop_last(), small.drop_last())) by {
            assert forall|i: int| 0 <= i < small.drop_last().len() && #[trigger] small.drop_last()[i] implies big.drop_last()[i] by {
                assert(small[i]);
            }
        }
        lemma_count_set_grows(small.drop_last(), big.drop_last());
        if exists|i: int| 0 <= i < big.len() && big[i] && !small[i] {
            let i = choose|i: int| 0 <= i < big.len() && big[i] && !small[i];
            if i < n {
                assert(big.drop_last()[i] && !small.drop_last()[i]);
            }
        }
        if small[n] {
            assert(big[n]);
        }
    }
}

/// The least glue-closed cover is unique: two glue-closed covers of `start` that each lie
/// within every glue-closed cover of `start` are equal.
pub proof fn lemma_least_closed_cover_unique(a: Seq<bool>, b: Seq<bool>, start: Seq<bool>, glues: Seq<(usize, usize)>)
    requires
        glue_closed_cover(a, start, glues),
        within_closed_covers(a, start, glues),
        glue_closed_cover(b, start, glues),
        within_closed_covers(b, start, glues),
    ensures
        a == b,
{
    assert(covers(b, a));
    assert(covers(a, b));
    assert forall|i: int| 0 <= i < a.len() implies a[i] == b[i] by {
        if a[i] {
            assert(b[i]);
        }
        if b[i] {
            assert(a[i]);
        }
    }
    assert(a =~= b);
}

/// One glue step: when one end of glue `k` is set and the other is not, sets the other.
fn glue_step(updated: &mut Vec<bool>, glues: &Vec<(usize, usize)>, k: usize, progress: &mut bool, Ghost(start): Ghost<Seq<bool>>)
    requires
        k < glues@.len(),
        glues_in(glues@, old(updated)@.len()),
        covers(old(updated)@, start),
        within_closed_covers(old(updated)@, start, glues@),
    ensures
        covers(final(updated)@, old(updated)@),
        covers(final(updated)@, start),
        within_closed_covers(final(updated)@, start, glues@),
        final(updated)@[glues@[k as int].0 as int] == final(updated)@[glues@[k as int].1 as int],
        final(updated)@ != old(updated)@ ==> *final(progress),
        final(updated)@ == old(updated)@ ==> *final(progress) == *old(progress),
        final(updated)@ != old(updated)@ ==> exists|i: int|
            0 <= i < old(updated)@.len() && final(updated)@[i] && !old(updated)@[i],
{
    let (a, b) = glues[k];
    proof {
        assert(glues@[k as int].0 < updated@.len() && glues@[k as int].1 < updated@.len());
    }
    let ghost before = updated@;
    if updated[a] && !updated[b] {
        updated.set(b, true);
        *progress = true;
        proof {
            assert(!before[b as int] && updated@[b as int]);
        }
    } else if updated[b] && !updated[a] {
        updated.set(a, true);
        *progress = true;
        proof {
            assert(!before[a as int] && updated@[a as int]);
        }
    } else {
        assert(updated@ =~= before);
    }
    proof {
        let now = updated@;
        assert(covers(now, before));
        assert(covers(now, start));
        assert forall|c: Seq<bool>| #[trigger] glue_closed_cover(c, start, glues@) implies covers(c, now) by {
            assert(covers(c, before));
            assert(c[glues@[k as int].0 as int] == c[glues@[k as int].1 as int]);
            assert forall|i: int| 0 <= i < now.len() && #[trigger] now[i] implies c[i] by {
                if before[i] {
                } else if i == b as int {
                    assert(before[a as int]);
                } else {
                    assert(i == a as int);
                    assert(before[b as int]);
                }
            }
        }
    }
}

/// Spreads the update flags of art meshes along glues: whenever one of the two art meshes
/// that a glue joins is updated, so is the other. Glues are swept forwards and backwards
/// until a sweep changes nothing. The result is the least set of flags that contains the
/// given ones and that no glue divides.
pub fn propagate_glue_updates(updated: &mut Vec<bool>, glues: &Vec<(usize, usize)>)
    requires
        glues_in(glues@, old(updated)@.len()),
    ensures
        glue_closed_cover(final(updated)@, old(updated)@, glues@),
        within_closed_covers(final(updated)@, old(updated)@, glues@),
{
    let ghost start = updated@;
    let n = glues.len();
    proof {
        assert(covers(updated@, start));
        assert forall|c: Seq<bool>| #[trigger] glue_closed_cover(c, start, glues@) implies covers(c, updated@) by {}
        lemma_count_set_grows(start, updated@);
    }
    loop
        invariant
            n == glues@.len(),
            updated@.len() == start.len(),
            glues_in(glues@, start.len()),
            covers(updated@, start),
            within_closed_covers(updated@, start, glues@),
        ensures
            glue_closed(updated@, glues@),
        decreases start.len() - count_set(updated@),
    {
        let ghost round = updated@;
        proof {
            lemma_count_set_grows(start, updated@);
        }
        let mut progress = false;
        let mut k: usize = 0;
        while k < n
            invariant
                n == glues@.len(),
                k <= n,
                updated@.len() == start.len(),
                glues_in(glues@, start.len()),
                covers(updated@, start),
                covers(updated@, round),
                within_closed_covers(updated@, start, glues@),
                !progress ==> updated@ == round,
                !progress ==> forall|j: int| 0 <= j < k ==> updated@[#[trigger] glues@[j].0 as int] == updated@[glues@[j].1 as int],
                progress ==> exists|i: int| 0 <= i < round.len() && updated@[i] && !round[i],
            decreases n - k,
        {
            let ghost prev = updated@;
            glue_step(updated, glues, k, &mut progress, Ghost(start));
            proof {
                if updated@ != prev {
                    let i = choose|i: int| 0 <= i < prev.len() && updated@[i] && !prev[i];
                    if !round[i] {
                        assert(0 <= i < round.len() && updated@[i] && !round[i]);
                    } else {
                        assert(prev[i]);
                    }
                }
                if progress && prev != updated@ {
                } else if progress {
                    let i = choose|i: int| 0 <= i < round.len() && prev[i] && !round[i];
                    assert(updated@[i]);
                }
            }
            k = k + 1;
        }
        let mut j: usize = n;
        while j > 0
            invariant
                n == glues@.len(),
                j <= n,
                updated@.len() == start.len(),
                glues_in(glues@, start.len()),
                covers(updated@, start),
                covers(updated@, round),
                within_closed_covers(updated@, start, glues@),
                !progress ==> updated@ == round,
                !progress ==> glue_closed(updated@, glues@),
                progress ==> exists|i: int| 0 <= i < round.len() && updated@[i] && !round[i],
            decreases j,
        {
            j = j - 1;
            let ghost prev = updated@;
            glue_step(updated, glues, j, &mut progress, Ghost(start));
            proof {
                if updated@ != prev {
                    let i = choose|i: int| 0 <= i < prev.len() && updated@[i] && !prev[i];
                    if !round[i] {
                        assert(0 <= i < round.len() && updated@[i] && !round[i]);
                    } else {
                        assert(prev[i]);
                    }
                }
                if progress && prev != updated@ {
                } else if progress {
                    let i = choose|i: int| 0 <= i < round.len() && prev[i] && !round[i];
                    assert(updated@[i]);
                }
            }
        }
        if !progress {
            break;
        }
        proof {
            lemma_count_set_grows(round, updated@);
        }
    }
}

/// The number of corners of a cell over `n` parameter maps: two to the `n`.
pub open spec fn corner_count(n: nat) -> nat
    decreases n,
{
    if n == 0 {
        1
    } else {
        2 * corner_count((n - 1) as nat)
    }
}

/// `c` halved `j` times, rounding down.
pub open spec fn halved(c: nat, j: nat) -> nat
    decreases j,
{
    if j == 0 {
        c
    } else {
        halved(c, (j - 1) as nat) / 2
    }
}

/// Bit `j` of corner number `c`: whether the corner takes the upper keypoint of map `j`.
pub open spec fn corner_bit(c: nat, j: nat) -> nat {
    halved(c, j) % 2
}

/// The place value of map `j` among the forms: the product of the keypoint counts of the
/// maps before it.
pub open spec fn place_value(cells: Seq<(usize, usize)>, j: nat) -> int
    decreases j,
{
    if j == 0 {
        1
    } else {
        place_value(cells, (j - 1) as nat) * cells[j - 1].0
    }
}

/// The form position of corner `c` over the first `n` maps: each map contributes its
/// place value times the keypoint index the corner takes, the cell's lower keypoint or the
/// one after it.
pub open spec fn corner_position(cells: Seq<(usize, usize)>, c: nat, n: nat) -> int
    decreases n,
{
    if n == 0 {
        0
    } else {
        corner_position(cells, c, (n - 1) as nat) + place_value(cells, (n - 1) as nat) * (cells[n - 1].1
            + corner_bit(c, (n - 1) as nat))
    }
}

/// Every place value, and every partial position of every corner, fits in a `usize`.
pub open spec fn corners_fit(cells: Seq<(usize, usize)>) -> bool {
    &&& forall|j: nat| j <= cells.len() ==> #[trigger] place_value(cells, j) <= usize::MAX
    &&& forall|c: nat, j: nat|
        c < corner_count(cells.len()) && j <= cells.len() ==> #[trigger] corner_position(cells, c, j) <= usize::MAX
}

proof fn lemma_corner_count_grows(a: nat, b: nat)
    requires
        a <= b,
    ensures
        1 <= corner_count(a) <= corner_count(b),
    decreases b,
{
    if b > 0 {
        if a < b {
            lemma_corner_count_grows(a, (b - 1) as nat);
        } else {
            lemma_corner_count_grows((b - 1) as nat, (b - 1) as nat);
        }
    }
}

proof fn lemma_corner_parts_nonneg(cells: Seq<(usize, usize)>, c: nat, j: nat)
    ensures
        place_value(cells, j) >= 0,
        corner_position(cells, c, j) >= 0,
    decreases j,
{
    if j > 0 {
        let k = (j - 1) as nat;
        lemma_corner_parts_nonneg(cells, c, k);
        let p = place_value(cells, k);
        let n = cells[k as int].0;
        let m = cells[k as int].1 + corner_bit(c, k);
        assert(p * n >= 0) by (nonlinear_arith)
            requires
                p >= 0,
                n >= 0,
        ;
        assert(p * m >= 0) by (nonlinear_arith)
            requires
                p >= 0,
                m >= 0,
        ;
    }
}

/// The form positions of the corners of a keypoint cell. Each entry of `cells` describes
/// one parameter map that interpolates: its keypoint count and the index of the cell's lower
/// keypoint. Corner `c` takes the upper keypoint of map `j` when bit `j` of `c` is set; the
/// first map varies fastest among the forms. The corners come in increasing number.
pub fn corner_form_indices(cells: &Vec<(usize, usize)>) -> (r: Vec<usize>)
    requires
        cells@.len() < 32,
        forall|j: int| 0 <= j < cells@.len() ==> (#[trigger] cells@[j]).1 < cells@[j].0,
        corners_fit(cells@),
    ensures
        r@.len() == corner_count(cells@.len()),
        forall|c: int| 0 <= c < r@.len() ==> r@[c] == corner_position(cells@, c as nat, cells@.len()),
{
    let n = cells.len();
    let ghost cs = cells@;
    let mut count: u32 = 1;
    let mut k: usize = 0;
    proof {
        lemma_corner_count_grows(n as nat, 31);
        assert(corner_count(31) == 0x8000_0000) by {
            reveal_with_fuel(corner_count, 32);
        }
    }
    while k < n
        invariant
            n == cs.len(),
            n < 32,
            k <= n,
            count == corner_count(k as nat),
            corner_count(n as nat) <= 0x8000_0000,
        decreases n - k,
    {
        proof {
            lemma_corner_count_grows((k + 1) as nat, n as nat);
        }
        count = count * 2;
        k = k + 1;
    }
    let mut r: Vec<usize> = Vec::new();
    let mut c: u32 = 0;
    while c < count
        invariant
            cells@ == cs,
            n == cs.len(),
            count == corner_count(n as nat),
            c <= count,
            corners_fit(cs),
            forall|j: int| 0 <= j < cs.len() ==> (#[trigger] cs[j]).1 < cs[j].0,
            r@.len() == c,
            forall|i: int| 0 <= i < c ==> r@[i] == corner_position(cs, i as nat, n as nat),
        decreases count - c,
    {
        let mut stride: usize = 1;
        let mut index: usize = 0;
        let mut rest: u32 = c;
        let mut j: usize = 0;
        while j < n
            invariant
                cells@ == cs,
                n == cs.len(),
                c < count,
                count == corner_count(n as nat),
                corners_fit(cs),
                forall|j: int| 0 <= j < cs.len() ==> (#[trigger] cs[j]).1 < cs[j].0,
                j <= n,
                rest == halved(c as nat, j as nat),
                stride == place_value(cs, j as nat),
                index == corner_position(cs, c as nat, j as nat),
            decreases n - j,
        {
            let (places, low) = cells[j];
            proof {
                lemma_corner_parts_nonneg(cs, c as nat, j as nat);
                assert(place_value(cs, (j + 1) as nat) <= usize::MAX);
                assert(corner_position(cs, c as nat, (j + 1) as nat) <= usize::MAX);
                assert(corner_position(cs, c as nat, (j + 1) as nat) == index + stride * (low
                    + corner_bit(c as nat, j as nat)));
            }
            if rest % 2 == 1 {
                proof {
                    assert(stride * (low + 1) <= usize::MAX) by (nonlinear_arith)
                        requires
                            index >= 0,
                            index + stride * (low + 1) <= usize::MAX,
                    ;
                    assert(cs[j as int].1 < cs[j as int].0);
                }
                index = index + stride * (low + 1);
            } else {
                proof {
                    assert(stride * low <= usize::MAX) by (nonlinear_arith)
                        requires
                            index >= 0,
                            index + stride * low <= usize::MAX,
                    ;
                }
                index = index + stride * low;
            }
            stride = stride * places;
            rest = rest / 2;
            j = j + 1;
        }
        r.push(index);
        c = c + 1;
    }
    r
}

/// The position of the last of the first `n` identifiers that reads `id`, if any.
pub open spec fn last_with_id(ids: Seq<String>, n: int, id: Seq<char>) -> Option<int>
    decreases n,
{
    if n <= 0 {
        None
    } else if ids[n - 1]@ == id {
        Some(n - 1)
    } else {
        last_with_id(ids, n - 1, id)
    }
}

/// The position of the last of the first `n` identifiers that reads `id`.
fn find_last_id(ids: &Vec<String>, n: usize, id: &str) -> (r: Option<usize>)
    requires
        n <= ids@.len(),
    ensures
        r matches Some(i) ==> i < n && last_with_id(ids@, n as int, id@) == Some(i as int),
        r is None ==> last_with_id(ids@, n as int, id@) is None,
{
    let target = id.to_owned();
    let mut k: usize = n;
    while k > 0
        invariant
            k <= n,
            n <= ids@.len(),
            target@ == id@,
            last_with_id(ids@, n as int, id@) == last_with_id(ids@, k as int, id@),
        decreases k,
    {
        if ids[k - 1] == target {
            return Some(k - 1);
        }
        k = k - 1;
    }
    None
}

/// The id of the parameter that `id` names, as the driver resolves it when a parameter is
/// set by name: parameters are registered by name in id order, so the last one with that
/// name wins; a name no parameter has is refused.
pub fn param_uid_by_id(m: &ParsedModel, id: &str) -> (r: Result<u32, DriverError>)
    requires
        m.param.wf(),
    ensures
        r matches Ok(u) ==> last_with_id(m.param.id@, m.param.count as int, id@) == Some(u as int),
        r matches Err(e) ==> last_with_id(m.param.id@, m.param.count as int, id@) is None
            && e == DriverError::ParameterNotFound(e->ParameterNotFound_0) && e->ParameterNotFound_0@ == id@,
        r is Err <==> last_with_id(m.param.id@, m.param.count as int, id@) is None,
{
    match find_last_id(&m.param.id, m.param.count, id) {
        Some(i) => Ok(i as u32),
        None => Err(DriverError::ParameterNotFound(id.to_owned())),
    }
}

/// The id of the part that `id` names, as the driver resolves it when a part's opacity is
/// set by name: the last part with that name wins; a name no part has is refused.
pub fn part_uid_by_id(m: &ParsedModel, id: &str) -> (r: Result<u32, DriverError>)
    requires
        m.part.wf(),
    ensures
        r matches Ok(u) ==> last_with_id(m.part.id@, m.part.count as int, id@) == Some(u as int),
        r matches Err(e) ==> last_with_id(m.part.id@, m.part.count as int, id@) is None
            && e == DriverError::PartNotFound(e->PartNotFound_0) && e->PartNotFound_0@ == id@,
        r is Err <==> last_with_id(m.part.id@, m.part.count as int, id@) is None,
{
    match find_last_id(&m.part.id, m.part.count, id) {
        Some(i) => Ok(i as u32),
        None => Err(DriverError::PartNotFound(id.to_owned())),
    }
}

} // verus!
