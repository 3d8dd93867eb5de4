use vstd::prelude::*;
use vstd::multiset::Multiset;
use crate::classes::DrawItemType;
use crate::driver::{
    child_group, group_keys, group_nodes, insert_pos, items_nodes, lemma_stable_order_sorted, stable_order, DrawNode,
};
use crate::model::ParsedModel;
use crate::types::opt_idx_get;

verus! {

broadcast use vstd::multiset::group_multiset_axioms;

/// The nodes of a sequence of drawing nodes, counted with repeats and in no order.
pub open spec fn node_bag(s: Seq<DrawNode<u32>>) -> Multiset<DrawNode<u32>>
    decreases s.len(),
{
    if s.len() == 0 {
        Multiset::empty()
    } else {
        node_bag(s.drop_last()).insert(s.last())
    }
}

/// What draw group `g` reaches, in any order: its own art meshes and the parts among its
/// items that are drawn offscreen (whose children are drawn in their own branch), and what
/// the child groups of its other parts reach; at most `fuel` groups deep.
pub open spec fn reached(m: &ParsedModel, g: int, fuel: nat) -> Multiset<DrawNode<u32>>
    decreases fuel, 2nat, 0nat,
{
    reached_items(m, m.draw_group.i_items@[g].0 as int, m.draw_group.cnt_items@[g] as nat, fuel)
}

/// What the first `k` items from `start` reach, in item order.
pub open spec fn reached_items(m: &ParsedModel, start: int, k: nat, fuel: nat) -> Multiset<DrawNode<u32>>
    decreases fuel, 1nat, k,
{
    if k == 0 {
        Multiset::empty()
    } else {
        reached_items(m, start, (k - 1) as nat, fuel).add(item_nodes(m, start + k - 1, fuel))
    }
}

/// What draw item `d` reaches: an art mesh, itself; a part drawn offscreen, itself; any
/// other part, what its child group reaches.
pub open spec fn item_nodes(m: &ParsedModel, d: int, fuel: nat) -> Multiset<DrawNode<u32>>
    decreases fuel, 0nat, 0nat,
{
    let uid = m.draw_item.i_child@[d];
    match m.draw_item.item_type@[d] {
        DrawItemType::ArtMesh => Multiset::singleton(DrawNode::ArtMesh(uid)),
        DrawItemType::Part => if fuel == 0 {
            Multiset::empty()
        } else if opt_idx_get(m.part.i_offscreen_part@[uid as int].0) is Some {
            Multiset::singleton(DrawNode::OffscreenPart(uid))
        } else {
            reached(m, child_group(m, d), (fuel - 1) as nat)
        },
    }
}

/// What the first `k` items reach when taken in the order `order`.
pub open spec fn ordered_items(m: &ParsedModel, start: int, order: Seq<int>, k: nat, fuel: nat) -> Multiset<DrawNode<u32>>
    decreases k,
{
    if k == 0 {
        Multiset::empty()
    } else {
        ordered_items(m, start, order, (k - 1) as nat, fuel).add(item_nodes(m, start + order[k - 1], fuel))
    }
}

proof fn lemma_bag_concat(a: Seq<DrawNode<u32>>, b: Seq<DrawNode<u32>>)
    ensures
        node_bag(a + b) =~= node_bag(a).add(node_bag(b)),
    decreases b.len(),
{
    if b.len() == 0 {
        assert(a + b =~= a);
    } else {
        lemma_bag_concat(a, b.drop_last());
        assert((a + b).drop_last() =~= a + b.drop_last());
        assert((a + b).last() == b.last());
    }
}

proof fn lemma_ordered_prefix(m: &ParsedModel, start: int, o1: Seq<int>, o2: Seq<int>, k: nat, fuel: nat)
    requires
        k <= o1.len(),
        k <= o2.len(),
        forall|j: int| 0 <= j < k ==> o1[j] == o2[j],
    ensures
        ordered_items(m, start, o1, k, fuel) == ordered_items(m, start, o2, k, fuel),
    decreases k,
{
    if k > 0 {
        lemma_ordered_prefix(m, start, o1, o2, (k - 1) as nat, fuel);
    }
}

proof fn lemma_ordered_insert(m: &ParsedModel, start: int, o: Seq<int>, c: int, x: int, fuel: nat)
    requires
        0 <= c <= o.len(),
    ensures
        ordered_items(m, start, o.insert(c, x), (o.len() + 1) as nat, fuel) =~= ordered_items(
            m,
            start,
            o,
            o.len() as nat,
            fuel,
        ).add(item_nodes(m, start + x, fuel)),
    decreases o.len(),
{
    let n = o.len();
    let s = o.insert(c, x);
    if c == n {
        assert(s =~= o.push(x));
        lemma_ordered_prefix(m, start, s, o, n as nat, fuel);
    } else {
        let o2 = o.drop_last();
        lemma_ordered_insert(m, start, o2, c, x, fuel);
        let s2 = o2.insert(c, x);
        assert(s =~= s2.push(o.last()));
        lemma_ordered_prefix(m, start, s, s2, n as nat, fuel);
        lemma_ordered_prefix(m, start, o, o2, (n - 1) as nat, fuel);
        let a = ordered_items(m, start, o2, (n - 1) as nat, fuel);
        let fx = item_nodes(m, start + x, fuel);
        let fl = item_nodes(m, start + o.last(), fuel);
        assert(a.add(fx).add(fl) =~= a.add(fl).add(fx));
    }
}

proof fn lemma_insert_pos_range(order: Seq<int>, keys: Seq<u32>, k: u32, pos: int)
    requires
        0 <= pos,
    ensures
        0 <= insert_pos(order, keys, k, pos) <= pos,
    decreases pos,
{
    if pos > 0 && keys[order[pos - 1]] > k {
        lemma_insert_pos_range(order, keys, k, pos - 1);
    }
}

proof fn lemma_stable_perm(m: &ParsedModel, start: int, keys: Seq<u32>, n: nat, fuel: nat)
    requires
        n <= keys.len(),
    ensures
        ordered_items(m, start, stable_order(keys, n), n, fuel) =~= reached_items(m, start, n, fuel),
    decreases n,
{
    if n > 0 {
        let p = (n - 1) as nat;
        lemma_stable_perm(m, start, keys, p, fuel);
        lemma_stable_order_sorted(keys, p);
        let o = stable_order(keys, p);
        let c = insert_pos(o, keys, keys[p as int], o.len() as int);
        lemma_insert_pos_range(o, keys, keys[p as int], o.len() as int);
        assert(stable_order(keys, n) == o.insert(c, p as int));
        lemma_ordered_insert(m, start, o, c, p as int, fuel);
    }
}

/// The drawing order of a draw group holds every art mesh that the group reaches through
/// parts drawn in place, and every part drawn offscreen that it so reaches, as often as it
/// is reached, and nothing else: the children of a part drawn in place are drawn in the
/// group's own order, those of a part drawn offscreen only in that part's branch; this
/// holds whatever the depths and the branches recorded before.
pub proof fn lemma_group_nodes_reached(
    m: &ParsedModel,
    g: int,
    am_depth: Seq<i32>,
    part_depth: Seq<i32>,
    fuel: nat,
    br: Map<usize, Seq<DrawNode<u32>>>,
)
    ensures
        node_bag(group_nodes(m, g, am_depth, part_depth, fuel, br).0) =~= reached(m, g, fuel),
    decreases fuel, 1nat, 0nat,
{
    let keys = group_keys(m, g, am_depth, part_depth);
    let order = stable_order(keys, keys.len());
    let start = m.draw_group.i_items@[g].0 as int;
    lemma_stable_order_sorted(keys, keys.len());
    lemma_items_nodes(m, start, order, order.len(), am_depth, part_depth, fuel, br);
    lemma_stable_perm(m, start, keys, keys.len(), fuel);
}

proof fn lemma_items_nodes(
    m: &ParsedModel,
    start: int,
    order: Seq<int>,
    k: nat,
    am_depth: Seq<i32>,
    part_depth: Seq<i32>,
    fuel: nat,
    br: Map<usize, Seq<DrawNode<u32>>>,
)
    ensures
        node_bag(items_nodes(m, start, order, k, am_depth, part_depth, fuel, br).0) =~= ordered_items(
            m,
            start,
            order,
            k,
            fuel,
        ),
    decreases fuel, 0nat, k,
{
    if k > 0 {
        lemma_items_nodes(m, start, order, (k - 1) as nat, am_depth, part_depth, fuel, br);
        let prev = items_nodes(m, start, order, (k - 1) as nat, am_depth, part_depth, fuel, br);
        let d = start + order[k - 1];
        let uid = m.draw_item.i_child@[d];
        match m.draw_item.item_type@[d] {
            DrawItemType::ArtMesh => {
                assert(prev.0.push(DrawNode::ArtMesh(uid)).drop_last() =~= prev.0);
            },
            DrawItemType::Part => {
                if fuel > 0 {
                    let sub = group_nodes(m, child_group(m, d), am_depth, part_depth, (fuel - 1) as nat, prev.1);
                    if opt_idx_get(m.part.i_offscreen_part@[uid as int].0) is Some {
                        assert(prev.0.push(DrawNode::OffscreenPart(uid)).drop_last() =~= prev.0);
                    } else {
                        lemma_group_nodes_reached(m, child_group(m, d), am_depth, part_depth, (fuel - 1) as nat, prev.1);
                        lemma_bag_concat(prev.0, sub.0);
                    }
                }
            },
        }
    }
}

} // verus!
