use vstd::prelude::*;
use std::sync::Arc;
use crate::model::ParsedModel;
use crate::types::RawF32;

verus! {

/// What a pose value is attached to: a parameter or a part, named by its identifier.
#[derive(Debug, Eq, Ord, Hash)]
pub enum Key {
    Param(String),
    Part(String),
}

impl View for Key {
    /// Whether the key names a parameter, and the name.
    type V = (bool, Seq<char>);

    open spec fn view(&self) -> (bool, Seq<char>) {
        match self {
            Key::Param(s) => (true, s@),
            Key::Part(s) => (false, s@),
        }
    }
}

impl PartialEq for Key {
    fn eq(&self, other: &Self) -> (r: bool)
        ensures
            r == (self@ == other@),
    {
        match (self, other) {
            (Key::Param(a), Key::Param(b)) => *a == *b,
            (Key::Part(a), Key::Part(b)) => *a == *b,
            _ => false,
        }
    }
}

impl vstd::std_specs::cmp::PartialEqSpecImpl for Key {
    open spec fn obeys_eq_spec() -> bool {
        true
    }

    open spec fn eq_spec(&self, other: &Self) -> bool {
        self@ == other@
    }
}

impl Clone for Key {
    fn clone(&self) -> (r: Self)
        ensures
            r@ == self@,
    {
        match self {
            Key::Param(s) => Key::Param(s.clone()),
            Key::Part(s) => Key::Part(s.clone()),
        }
    }
}

impl Key {
    /// The key of the parameter named `k`.
    pub fn param(k: &str) -> (r: Key)
        ensures
            r@ == (true, k@),
    {
        Key::Param(k.to_owned())
    }

    /// The key of the part named `k`.
    pub fn part(k: &str) -> (r: Key)
        ensures
            r@ == (false, k@),
    {
        Key::Part(k.to_owned())
    }

    pub fn from_param(k: String) -> (r: Key)
        ensures
            r@ == (true, k@),
    {
        Key::Param(k)
    }

    pub fn from_part(k: String) -> (r: Key)
        ensures
            r@ == (false, k@),
    {
        Key::Part(k)
    }

    /// A key that owns its name, naming what `value` names.
    pub fn as_owned(value: Key) -> (r: Key)
        ensures
            r@ == value@,
    {
        match value {
            Key::Param(k) => Key::from_param(k.clone()),
            Key::Part(k) => Key::from_part(k.clone()),
        }
    }
}

/// What is known of one pose entry: its key, the id of the object it drives, an optional
/// display name, and its range and default (IEEE-754 single-precision bit patterns).
#[derive(Debug)]
pub struct Descriptor {
    pub key: Key,
    pub uid: u64,
    pub name: Option<String>,
    pub min: RawF32,
    pub max: RawF32,
    pub default: RawF32,
}

/// A descriptor as a value: key, id, name, minimum, maximum and default.
pub type DescriptorView = ((bool, Seq<char>), u64, Option<Seq<char>>, RawF32, RawF32, RawF32);

impl View for Descriptor {
    type V = DescriptorView;

    open spec fn view(&self) -> DescriptorView {
        (
            self.key@,
            self.uid,
            match self.name {
                Some(n) => Some(n@),
                None => None,
            },
            self.min,
            self.max,
            self.default,
        )
    }
}

impl Clone for Descriptor {
    fn clone(&self) -> (r: Self)
        ensures
            r@ == self@,
    {
        Descriptor {
            key: self.key.clone(),
            uid: self.uid,
            name: match &self.name {
                Some(n) => Some(n.clone()),
                None => None,
            },
            min: self.min,
            max: self.max,
            default: self.default,
        }
    }
}

/// The bits of negative infinity.
pub const NEG_INFINITY_BITS: u32 = 0xff80_0000;

/// The bits of positive infinity.
pub const INFINITY_BITS: u32 = 0x7f80_0000;

/// True when no key occurs twice among the descriptors.
pub open spec fn keys_distinct(descs: Seq<DescriptorView>) -> bool {
    forall|i: int, j: int| 0 <= i < descs.len() && 0 <= j < descs.len() && i != j ==> descs[i].0 != descs[j].0
}

/// The position of the descriptor whose key is `key`, if any.
pub open spec fn position_of(descs: Seq<DescriptorView>, key: (bool, Seq<char>)) -> Option<int> {
    if exists|i: int| 0 <= i < descs.len() && descs[i].0 == key {
        Some(choose|i: int| 0 <= i < descs.len() && descs[i].0 == key)
    } else {
        None
    }
}

/// The descriptor that `add_key` makes for `key`: no object, no name, an unbounded range
/// and a default of zero.
pub open spec fn bare_descriptor(key: (bool, Seq<char>)) -> DescriptorView {
    (key, 0, None, RawF32(NEG_INFINITY_BITS), RawF32(INFINITY_BITS), RawF32(0))
}

/// The keys a pose can hold, each with its descriptor, numbered in the order they were added.
#[derive(Debug)]
pub struct PoseMap {
    descriptors: Vec<Descriptor>,
}

impl View for PoseMap {
    type V = Seq<DescriptorView>;

    closed spec fn view(&self) -> Seq<DescriptorView> {
        self.descriptors@.map_values(|d: Descriptor| d@)
    }
}

impl Default for PoseMap {
    fn default() -> (r: Self)
        ensures
            r@.len() == 0,
            r.wf(),
    {
        PoseMap { descriptors: Vec::new() }
    }
}

impl Clone for PoseMap {
    fn clone(&self) -> (r: Self)
        ensures
            r@ == self@,
    {
        let mut descriptors: Vec<Descriptor> = Vec::new();
        let mut i: usize = 0;
        while i < self.descriptors.len()
            invariant
                0 <= i <= self.descriptors@.len(),
                descriptors@.len() == i,
                forall|j: int| 0 <= j < i ==> descriptors@[j]@ == self.descriptors@[j]@,
            decreases self.descriptors@.len() - i,
        {
            descriptors.push(self.descriptors[i].clone());
            i = i + 1;
        }
        let r = PoseMap { descriptors };
        assert(r@ =~= self@);
        r
    }
}

impl PoseMap {
    /// No key occurs twice.
    pub open spec fn wf(&self) -> bool {
        keys_distinct(self@)
    }

    pub fn new() -> (r: Self)
        ensures
            r@.len() == 0,
            r.wf(),
    {
        PoseMap { descriptors: Vec::new() }
    }

    /// Appends a descriptor; its key must be new.
    pub fn add(&mut self, desc: Descriptor)
        requires
            old(self).wf(),
            position_of(old(self)@, desc.key@) is None,
        ensures
            final(self)@ == old(self)@.push(desc@),
            final(self).wf(),
    {
        let ghost d = desc@;
        self.descriptors.push(desc);
        assert(self@ =~= old(self)@.push(d));
    }

    /// Appends a descriptor for `key` with no object, no name, an unbounded range and a
    /// default of zero; the key must be new.
    pub fn add_key(&mut self, key: Key)
        requires
            old(self).wf(),
            position_of(old(self)@, key@) is None,
        ensures
            final(self)@ == old(self)@.push(bare_descriptor(key@)),
            final(self).wf(),
    {
        self.add(
            Descriptor {
                key,
                uid: 0,
                name: None,
                min: RawF32(NEG_INFINITY_BITS),
                max: RawF32(INFINITY_BITS),
                default: RawF32(0),
            },
        );
    }

    pub fn len(&self) -> (r: usize)
        ensures
            r == self@.len(),
    {
        self.descriptors.len()
    }

    /// The descriptor at position `idx`.
    pub fn index(&self, idx: usize) -> (r: Option<&Descriptor>)
        ensures
            r is Some <==> idx < self@.len(),
            r matches Some(d) ==> d@ == self@[idx as int],
    {
        if idx < self.descriptors.len() {
            Some(&self.descriptors[idx])
        } else {
            None
        }
    }

    /// The position of `key`, and its descriptor.
    pub fn get(&self, key: &Key) -> (r: Option<(usize, &Descriptor)>)
        requires
            self.wf(),
        ensures
            r is None <==> position_of(self@, key@) is None,
            r matches Some((i, d)) ==> Some(i as int) == position_of(self@, key@) && d@ == self@[i as int]
                && d.key@ == key@,
    {
        let mut i: usize = 0;
        while i < self.descriptors.len()
            invariant
                self.wf(),
                0 <= i <= self.descriptors@.len(),
                forall|j: int| 0 <= j < i ==> self@[j].0 != key@,
            decreases self.descriptors@.len() - i,
        {
            if self.descriptors[i].key == *key {
                proof {
                    assert(self@[i as int].0 == key@);
                    let c = choose|j: int| 0 <= j < self@.len() && self@[j].0 == key@;
                    assert(c == i as int);
                }
                return Some((i, &self.descriptors[i]));
            }
            i = i + 1;
        }
        None
    }

    pub fn has_key(&self, key: &Key) -> (r: bool)
        requires
            self.wf(),
        ensures
            r == position_of(self@, key@) is Some,
    {
        self.get(key).is_some()
    }

    /// The keys, in the order they were added.
    pub fn keys(&self) -> (r: Vec<&Key>)
        ensures
            r@.len() == self@.len(),
            forall|i: int| 0 <= i < self@.len() ==> (#[trigger] r@[i])@ == self@[i].0,
    {
        let mut out: Vec<&Key> = Vec::new();
        let mut i: usize = 0;
        while i < self.descriptors.len()
            invariant
                0 <= i <= self.descriptors@.len(),
                out@.len() == i,
                forall|j: int| 0 <= j < i ==> (#[trigger] out@[j])@ == self@[j].0,
            decreases self.descriptors@.len() - i,
        {
            out.push(&self.descriptors[i].key);
            i = i + 1;
        }
        out
    }

    /// The keys, each with its descriptor, in the order they were added.
    pub fn iter(&self) -> (r: Vec<(&Key, &Descriptor)>)
        ensures
            r@.len() == self@.len(),
            forall|i: int| 0 <= i < self@.len() ==> (#[trigger] r@[i]).0@ == self@[i].0 && r@[i].1@ == self@[i],
    {
        let mut out: Vec<(&Key, &Descriptor)> = Vec::new();
        let mut i: usize = 0;
        while i < self.descriptors.len()
            invariant
                0 <= i <= self.descriptors@.len(),
                out@.len() == i,
                forall|j: int| 0 <= j < i ==> (#[trigger] out@[j]).0@ == self@[j].0 && out@[j].1@ == self@[j],
            decreases self.descriptors@.len() - i,
        {
            let d = &self.descriptors[i];
            out.push((&d.key, d));
            i = i + 1;
        }
        out
    }

    /// Every descriptor, in the order they were added.
    pub fn descriptors(&self) -> (r: &[Descriptor])
        ensures
            r@.map_values(|d: Descriptor| d@) == self@,
    {
        self.descriptors.as_slice()
    }
}

/// Adding a key makes it findable at the end of the map, and keeps every key already
/// present at its position.
pub proof fn lemma_pose_map_add(before: Seq<DescriptorView>, desc: DescriptorView, other: (bool, Seq<char>))
    requires
        keys_distinct(before),
        position_of(before, desc.0) is None,
    ensures
        keys_distinct(before.push(desc)),
        position_of(before.push(desc), desc.0) == Some(before.len() as int),
        other != desc.0 ==> position_of(before.push(desc), other) == position_of(before, other),
{
    let after = before.push(desc);
    assert(after[before.len() as int] == desc);
    if other != desc.0 {
        if exists|i: int| 0 <= i < before.len() && before[i].0 == other {
            let i = choose|i: int| 0 <= i < before.len() && before[i].0 == other;
            assert(after[i].0 == other);
            let a = choose|i: int| 0 <= i < after.len() && after[i].0 == other;
            let b = choose|i: int| 0 <= i < before.len() && before[i].0 == other;
            assert(a == b);
        } else {
            assert forall|i: int| 0 <= i < after.len() implies after[i].0 != other by {
                if i < before.len() {
                    assert(after[i] == before[i]);
                }
            }
        }
    }
}

/// The bits of 1.0.
pub const ONE_BITS: u32 = 0x3f80_0000;

/// No two of the first `n` identifiers are the same.
pub open spec fn ids_distinct(ids: Seq<String>, n: int) -> bool {
    forall|i: int, j: int| 0 <= i < j < n ==> ids[i]@ != ids[j]@
}

/// `d` is the descriptor that a pose map built from `m` holds for parameter `i`: keyed by
/// the parameter's identifier, with its id, range and default.
pub open spec fn param_descriptor(m: &ParsedModel, d: DescriptorView, i: int) -> bool {
    d == ((true, m.param.id@[i]@), i as u64, None::<Seq<char>>, m.param.min@[i], m.param.max@[i], m.param.default@[i])
}

/// `d` is the descriptor that a pose map built from `m` holds for part `i`: keyed by the
/// part's identifier, with its id, the range 0 to 1 and the default 1.
pub open spec fn part_descriptor(m: &ParsedModel, d: DescriptorView, i: int) -> bool {
    d == ((false, m.part.id@[i]@), i as u64, None::<Seq<char>>, RawF32(0), RawF32(ONE_BITS), RawF32(ONE_BITS))
}

/// Whether no two of the first `n` identifiers are the same.
fn first_ids_distinct(ids: &Vec<String>, n: usize) -> (r: bool)
    requires
        n <= ids@.len(),
    ensures
        r == ids_distinct(ids@, n as int),
{
    let mut j: usize = 1;
    while j < n
        invariant
            n <= ids@.len(),
            ids_distinct(ids@, if j <= n { j as int } else { n as int }),
            1 <= j,
        decreases n - j,
    {
        let mut i: usize = 0;
        while i < j
            invariant
                j < n,
                n <= ids@.len(),
                i <= j,
                ids_distinct(ids@, j as int),
                forall|k: int| 0 <= k < i ==> ids@[k]@ != ids@[j as int]@,
            decreases j - i,
        {
            if ids[i] == ids[j] {
                assert(!ids_distinct(ids@, n as int)) by {
                    assert(ids@[i as int]@ == ids@[j as int]@);
                }
                return false;
            }
            i = i + 1;
        }
        j = j + 1;
    }
    true
}

impl PoseMap {
    /// The keys of a model, when its parameter ids are distinct and so are its part ids:
    /// the map that `from_model` builds; `None` when two parameters, or two parts, share
    /// an id.
    pub fn try_from_model(model: &ParsedModel) -> (r: Option<PoseMap>)
        requires
            model.param.wf(),
            model.part.wf(),
        ensures
            r is Some <==> ids_distinct(model.param.id@, model.param.count as int) && ids_distinct(
                model.part.id@,
                model.part.count as int,
            ),
            r matches Some(p) ==> {
                &&& p.wf()
                &&& p@.len() == model.param.count + model.part.count
                &&& forall|i: int| 0 <= i < model.param.count ==> #[trigger] param_descriptor(model, p@[i], i)
                &&& forall|i: int|
                    0 <= i < model.part.count ==> #[trigger] part_descriptor(model, p@[model.param.count + i], i)
            },
    {
        if first_ids_distinct(&model.param.id, model.param.count) && first_ids_distinct(
            &model.part.id,
            model.part.count,
        ) {
            Some(PoseMap::from_model(model))
        } else {
            None
        }
    }

    /// The keys of a model: every parameter, then every part, in id order.
    pub fn from_model(model: &ParsedModel) -> (r: PoseMap)
        requires
            model.param.wf(),
            model.part.wf(),
            ids_distinct(model.param.id@, model.param.count as int),
            ids_distinct(model.part.id@, model.part.count as int),
        ensures
            r.wf(),
            r@.len() == model.param.count + model.part.count,
            forall|i: int| 0 <= i < model.param.count ==> #[trigger] param_descriptor(model, r@[i], i),
            forall|i: int|
                0 <= i < model.part.count ==> #[trigger] part_descriptor(model, r@[model.param.count + i], i),
            forall|i: int| 0 <= i < model.param.count ==> #[trigger] param_entry(model, r@, i),
            forall|j: int| 0 <= j < model.part.count ==> #[trigger] part_entry(model, r@, j),
    {
        let mut map = PoseMap::new();
        let mut params = model.params().into_iter();
        let np = model.param.count;
        loop
            invariant
                model.param.wf(),
                ids_distinct(model.param.id@, np as int),
                np == model.param.count,
                params.model == model,
                params.limit == np,
                params.parent is None,
                params.idx <= np,
                map.wf(),
                map@.len() == params.idx,
                forall|i: int| 0 <= i < map@.len() ==> #[trigger] param_descriptor(model, map@[i], i),
            ensures
                params.idx == np,
            decreases np - params.idx,
        {
            let param = match params.next() {
                Some(v) => v.0,
                None => {
                    break;
                },
            };
            let key = Key::from_param(param.f_id().clone());
            proof {
                assert forall|j: int| 0 <= j < map@.len() implies map@[j].0 != key@ by {
                    assert(param_descriptor(model, map@[j], j));
                }
            }
            map.add(
                Descriptor {
                    key,
                    uid: param.idx as u64,
                    name: None,
                    default: *param.f_default(),
                    min: *param.f_min(),
                    max: *param.f_max(),
                },
            );
        }
        let mut parts = model.parts().into_iter();
        let nq = model.part.count;
        loop
            invariant
                model.part.wf(),
                ids_distinct(model.part.id@, nq as int),
                nq == model.part.count,
                np == model.param.count,
                parts.model == model,
                parts.limit == nq,
                parts.parent is None,
                parts.idx <= nq,
                map.wf(),
                map@.len() == np + parts.idx,
                forall|i: int| 0 <= i < np ==> #[trigger] param_descriptor(model, map@[i], i),
                forall|i: int| 0 <= i < parts.idx ==> #[trigger] part_descriptor(model, map@[np + i], i),
            ensures
                parts.idx == nq,
            decreases nq - parts.idx,
        {
            let part = match parts.next() {
                Some(v) => v.0,
                None => {
                    break;
                },
            };
            let key = Key::from_part(part.f_id().clone());
            proof {
                assert forall|j: int| 0 <= j < map@.len() implies map@[j].0 != key@ by {
                    if j < np {
                        assert(param_descriptor(model, map@[j], j));
                    } else {
                        assert(part_descriptor(model, map@[np + (j - np)], j - np));
                    }
                }
            }
            map.add(
                Descriptor {
                    key,
                    uid: part.idx as u64,
                    name: None,
                    default: RawF32(ONE_BITS),
                    min: RawF32(0),
                    max: RawF32(ONE_BITS),
                },
            );
        }
        proof {
            lemma_pose_table_of_model(model, map);
        }
        map
    }
}

/// A second handle on the same pose map, made with `Arc::clone`; the handle shares the
/// allocation, so it holds the same map.
#[verifier::external_body]
fn share_map(map: &Arc<PoseMap>) -> (r: Arc<PoseMap>)
    ensures
        r == *map,
{
    Arc::clone(map)
}

/// Borrows the map behind `map` for writing, with `Arc::make_mut`: when other handles share
/// the allocation, the map is first cloned (by `PoseMap::clone`) into a fresh one that `map`
/// then holds. Either way the borrow starts from a map with the keys the handle held, and
/// what is written through it is what the handle holds afterwards.
#[verifier::external_body]
fn map_for_write(map: &mut Arc<PoseMap>) -> (r: &mut PoseMap)
    ensures
        (*r)@ == (**old(map))@,
        **final(map) == *final(r),
{
    Arc::make_mut(map)
}

/// Whether two handles share one allocation, by `Arc::ptr_eq`; when they do, they hold the
/// same map. Handles on equal maps in distinct allocations give `false`.
#[verifier::external_body]
fn same_map(a: &Arc<PoseMap>, b: &Arc<PoseMap>) -> (r: bool)
    ensures
        r ==> *a == *b,
{
    Arc::ptr_eq(a, b)
}

/// No position occurs twice among the entries.
pub open spec fn entry_positions_distinct<V>(s: Seq<(usize, V)>) -> bool {
    forall|i: int, j: int| 0 <= i < j < s.len() ==> s[i].0 != s[j].0
}

/// The entries as a map from position to value.
pub open spec fn entries_map<V>(s: Seq<(usize, V)>) -> Map<usize, V> {
    Map::new(
        |k: usize| exists|j: int| 0 <= j < s.len() && s[j].0 == k,
        |k: usize| s[choose|j: int| 0 <= j < s.len() && s[j].0 == k].1,
    )
}

pub(crate) proof fn lemma_entries_map_at<V>(s: Seq<(usize, V)>, j: int)
    requires
        entry_positions_distinct(s),
        0 <= j < s.len(),
    ensures
        entries_map(s).dom().contains(s[j].0),
        entries_map(s)[s[j].0] == s[j].1,
{
    let k = s[j].0;
    assert(exists|i: int| 0 <= i < s.len() && s[i].0 == k);
    let c = choose|i: int| 0 <= i < s.len() && s[i].0 == k;
    assert(c == j);
}

pub(crate) proof fn lemma_entries_map_set<V>(s: Seq<(usize, V)>, j: int, v: V)
    requires
        entry_positions_distinct(s),
        0 <= j < s.len(),
    ensures
        entry_positions_distinct(s.update(j, (s[j].0, v))),
        entries_map(s.update(j, (s[j].0, v))) == entries_map(s).insert(s[j].0, v),
{
    let t = s.update(j, (s[j].0, v));
    let k = s[j].0;
    assert forall|i: int| 0 <= i < t.len() implies t[i].0 == s[i].0 by {}
    assert forall|x: usize| #[trigger] entries_map(t).dom().contains(x) == entries_map(s).insert(k, v).dom().contains(x) by {
        if exists|i: int| 0 <= i < s.len() && s[i].0 == x {
            let i = choose|i: int| 0 <= i < s.len() && s[i].0 == x;
            assert(t[i].0 == x);
        }
        if exists|i: int| 0 <= i < t.len() && t[i].0 == x {
            let i = choose|i: int| 0 <= i < t.len() && t[i].0 == x;
            assert(s[i].0 == x);
        }
    }
    assert forall|x: usize| #[trigger] entries_map(t).dom().contains(x) implies entries_map(t)[x] == entries_map(s).insert(k, v)[x] by {
        let i = choose|i: int| 0 <= i < t.len() && t[i].0 == x;
        lemma_entries_map_at(t, i);
        if x != k {
            assert(i != j);
            lemma_entries_map_at(s, i);
        }
    }
    assert(entries_map(t) =~= entries_map(s).insert(k, v));
}

pub(crate) proof fn lemma_entries_map_push<V>(s: Seq<(usize, V)>, k: usize, v: V)
    requires
        entry_positions_distinct(s),
        !entries_map(s).dom().contains(k),
    ensures
        entry_positions_distinct(s.push((k, v))),
        entries_map(s.push((k, v))) == entries_map(s).insert(k, v),
{
    let t = s.push((k, v));
    assert forall|i: int| 0 <= i < s.len() implies s[i].0 != k by {
        if s[i].0 == k {
            assert(entries_map(s).dom().contains(k));
        }
    }
    assert forall|x: usize| #[trigger] entries_map(t).dom().contains(x) == entries_map(s).insert(k, v).dom().contains(x) by {
        if exists|i: int| 0 <= i < s.len() && s[i].0 == x {
            let i = choose|i: int| 0 <= i < s.len() && s[i].0 == x;
            assert(t[i].0 == x);
        }
        if x == k {
            assert(t[s.len() as int].0 == x);
        }
        if exists|i: int| 0 <= i < t.len() && t[i].0 == x {
            let i = choose|i: int| 0 <= i < t.len() && t[i].0 == x;
            if i < s.len() {
                assert(s[i].0 == x);
            }
        }
    }
    assert forall|x: usize| #[trigger] entries_map(t).dom().contains(x) implies entries_map(t)[x] == entries_map(s).insert(k, v)[x] by {
        let i = choose|i: int| 0 <= i < t.len() && t[i].0 == x;
        lemma_entries_map_at(t, i);
        if i < s.len() {
            lemma_entries_map_at(s, i);
        }
    }
    assert(entries_map(t) =~= entries_map(s).insert(k, v));
}

pub(crate) proof fn lemma_entries_map_remove<V>(s: Seq<(usize, V)>, j: int)
    requires
        entry_positions_distinct(s),
        0 <= j < s.len(),
    ensures
        entry_positions_distinct(s.remove(j)),
        entries_map(s.remove(j)) == entries_map(s).remove(s[j].0),
{
    let t = s.remove(j);
    let k = s[j].0;
    assert forall|a: int, b: int| 0 <= a < b < t.len() implies t[a].0 != t[b].0 by {
        let a2 = if a < j { a } else { a + 1 };
        let b2 = if b < j { b } else { b + 1 };
        assert(t[a] == s[a2]);
        assert(t[b] == s[b2]);
    }
    assert forall|x: usize| #[trigger] entries_map(t).dom().contains(x) == entries_map(s).remove(k).dom().contains(x) by {
        if exists|i: int| 0 <= i < t.len() && t[i].0 == x {
            let i = choose|i: int| 0 <= i < t.len() && t[i].0 == x;
            let i2 = if i < j { i } else { i + 1 };
            assert(s[i2].0 == x);
            assert(i2 != j);
        }
        if x != k && exists|i: int| 0 <= i < s.len() && s[i].0 == x {
            let i = choose|i: int| 0 <= i < s.len() && s[i].0 == x;
            assert(i != j);
            let i1 = if i < j { i } else { i - 1 };
            assert(t[i1].0 == x);
        }
    }
    assert forall|x: usize| #[trigger] entries_map(t).dom().contains(x) implies entries_map(t)[x] == entries_map(s).remove(k)[x] by {
        let i = choose|i: int| 0 <= i < t.len() && t[i].0 == x;
        lemma_entries_map_at(t, i);
        let i2 = if i < j { i } else { i + 1 };
        assert(t[i] == s[i2]);
        lemma_entries_map_at(s, i2);
    }
    assert(entries_map(t) =~= entries_map(s).remove(k));
}

/// Values for some of the keys of a pose map, each stored at its key's position.
#[derive(Debug)]
pub struct Pose<V> {
    map: Arc<PoseMap>,
    values: Vec<(usize, V)>,
}

impl<V: Copy> Pose<V> {
    /// The keys that the pose can hold.
    pub closed spec fn keys_view(&self) -> Seq<DescriptorView> {
        self.map@
    }

    /// The pose's map, as a value.
    pub closed spec fn map_value(&self) -> PoseMap {
        *self.map
    }

    /// The stored values with their positions, in the order the pose walks them.
    pub closed spec fn entries(&self) -> Seq<(usize, V)> {
        self.values@
    }

    /// The stored values by position.
    pub open spec fn values_view(&self) -> Map<usize, V> {
        entries_map(self.entries())
    }

    /// What a read of `key` gives: the value stored at the key's position in the map, if the
    /// map holds the key and a value is stored there.
    pub open spec fn value_of(&self, key: (bool, Seq<char>)) -> Option<V> {
        match position_of(self.keys_view(), key) {
            Some(i) => if self.values_view().dom().contains(i as usize) {
                Some(self.values_view()[i as usize])
            } else {
                None
            },
            None => None,
        }
    }

    /// The map's keys are distinct and no position is stored twice.
    pub closed spec fn wf(&self) -> bool {
        &&& self.map.wf()
        &&& entry_positions_distinct(self.values@)
    }

    /// Every stored position names a key of the map.
    pub open spec fn positions_in_range(&self) -> bool {
        forall|j: int| 0 <= j < self.entries().len() ==> (#[trigger] self.entries()[j]).0 < self.keys_view().len()
    }

    /// A pose with no values over `map`.
    pub fn with_map(map: Arc<PoseMap>) -> (r: Self)
        requires
            map.wf(),
        ensures
            r.wf(),
            r.keys_view() == map@,
            r.map_value() == *map,
            r.entries().len() == 0,
            r.values_view() == Map::<usize, V>::empty(),
    {
        let r = Pose { map, values: Vec::new() };
        assert(r.values_view() =~= Map::<usize, V>::empty());
        r
    }

    /// A pose with no keys and no values.
    pub fn empty() -> (r: Self)
        ensures
            r.wf(),
            r.keys_view().len() == 0,
            r.entries().len() == 0,
    {
        Self::with_map(Arc::new(PoseMap::new()))
    }

    /// A pose with no values over the keys of `model`.
    pub fn new(model: &ParsedModel) -> (r: Self)
        requires
            model.pose_map matches Some(m) && m.wf(),
        ensures
            r.wf(),
            r.map_value() == *model.pose_map.unwrap(),
            r.entries().len() == 0,
    {
        Self::with_map(share_map(model.pose_map()))
    }

    /// The position of the entry stored for position `idx`, if any.
    fn find(&self, idx: usize) -> (r: Option<usize>)
        requires
            self.wf(),
        ensures
            r matches Some(j) ==> j < self.entries().len() && self.entries()[j as int].0 == idx,
            r is None <==> !self.values_view().dom().contains(idx),
    {
        let mut j: usize = 0;
        while j < self.values.len()
            invariant
                0 <= j <= self.values@.len(),
                forall|i: int| 0 <= i < j ==> self.values@[i].0 != idx,
            decreases self.values@.len() - j,
        {
            if self.values[j].0 == idx {
                return Some(j);
            }
            j = j + 1;
        }
        None
    }

    /// Stores `value` at position `idx`, replacing what was there.
    fn store(&mut self, idx: usize, value: V)
        requires
            old(self).wf(),
        ensures
            final(self).wf(),
            final(self).map_value() == old(self).map_value(),
            final(self).values_view() == old(self).values_view().insert(idx, value),
            old(self).positions_in_range() && idx < old(self).keys_view().len() ==> final(self).positions_in_range(),
    {
        match self.find(idx) {
            Some(j) => {
                proof {
                    lemma_entries_map_set(self.values@, j as int, value);
                }
                self.values.set(j, (idx, value));
            },
            None => {
                proof {
                    lemma_entries_map_push(self.values@, idx, value);
                }
                self.values.push((idx, value));
            },
        }
    }

    /// Stores `value` for `key`; a key that the map does not hold is ignored.
    pub fn put(&mut self, key: &Key, value: V)
        requires
            old(self).wf(),
        ensures
            final(self).wf(),
            final(self).map_value() == old(self).map_value(),
            final(self).values_view() == match position_of(old(self).keys_view(), key@) {
                Some(i) => old(self).values_view().insert(i as usize, value),
                None => old(self).values_view(),
            },
            old(self).positions_in_range() ==> final(self).positions_in_range(),
    {
        match self.map.get(key) {
            Some((idx, _)) => self.store(idx, value),
            None => {},
        }
    }

    /// Drops the value of `key`, if any.
    pub fn unset(&mut self, key: &Key)
        requires
            old(self).wf(),
        ensures
            final(self).wf(),
            final(self).map_value() == old(self).map_value(),
            final(self).values_view() == match position_of(old(self).keys_view(), key@) {
                Some(i) => old(self).values_view().remove(i as usize),
                None => old(self).values_view(),
            },
            old(self).positions_in_range() ==> final(self).positions_in_range(),
    {
        match self.map.get(key) {
            Some((idx, _)) => {
                match self.find(idx) {
                    Some(j) => {
                        proof {
                            lemma_entries_map_remove(self.values@, j as int);
                        }
                        let ghost before = self.values@;
                        self.values.remove(j);
                        proof {
                            assert forall|i: int| 0 <= i < self.values@.len() implies #[trigger] self.values@[i]
                                == before[if i < j { i } else { i + 1 }] by {}
                        }
                    },
                    None => {
                        assert(old(self).values_view().remove(idx) =~= old(self).values_view());
                    },
                }
            },
            None => {},
        }
    }

    /// Whether the map holds `key`.
    pub fn has_key(&self, key: &Key) -> (r: bool)
        requires
            self.wf(),
        ensures
            r == position_of(self.keys_view(), key@) is Some,
    {
        self.map.has_key(key)
    }

    /// Whether the pose holds a value for `key`.
    pub fn has_value(&self, key: &Key) -> (r: bool)
        requires
            self.wf(),
        ensures
            r == (position_of(self.keys_view(), key@) matches Some(i) && self.values_view().dom().contains(
                i as usize,
            )),
            r == self.value_of(key@) is Some,
    {
        match self.map.get(key) {
            Some((idx, _)) => self.find(idx).is_some(),
            None => false,
        }
    }

    /// The value of `key`, if the pose holds one.
    pub fn get(&self, key: &Key) -> (r: Option<&V>)
        requires
            self.wf(),
        ensures
            r is Some <==> (position_of(self.keys_view(), key@) matches Some(i) && self.values_view().dom().contains(
                i as usize,
            )),
            r matches Some(v) ==> *v == self.values_view()[position_of(self.keys_view(), key@).unwrap() as usize],
            r is Some <==> self.value_of(key@) is Some,
            r matches Some(v) ==> self.value_of(key@) == Some(*v),
    {
        match self.map.get(key) {
            Some((idx, _)) => match self.find(idx) {
                Some(j) => {
                    proof {
                        lemma_entries_map_at(self.values@, j as int);
                    }
                    Some(&self.values[j].1)
                },
                None => None,
            },
            None => None,
        }
    }

    /// The map of keys.
    pub fn map(&self) -> (r: &Arc<PoseMap>)
        ensures
            **r == self.map_value(),
    {
        &self.map
    }

    /// The map of keys, to change in place; a map shared with other poses is copied first,
    /// so they keep theirs. The pose stays well formed as long as the map does.
    pub fn map_mut(&mut self) -> (r: &mut PoseMap)
        requires
            old(self).wf(),
        ensures
            (*r)@ == old(self).map_value()@,
            final(self).map_value() == *final(r),
            final(self).entries() == old(self).entries(),
            final(r).wf() ==> final(self).wf(),
    {
        map_for_write(&mut self.map)
    }

    /// Adds `key` to the map, with no value, unless the map holds it already; tells whether
    /// it was added.
    pub fn add_key(&mut self, key: Key) -> (r: bool)
        requires
            old(self).wf(),
        ensures
            final(self).wf(),
            r == (position_of(old(self).keys_view(), key@) is None),
            r ==> final(self).keys_view() == old(self).keys_view().push(bare_descriptor(key@)),
            !r ==> final(self).keys_view() == old(self).keys_view(),
            final(self).values_view() == old(self).values_view(),
            old(self).positions_in_range() ==> final(self).positions_in_range(),
    {
        if self.map.has_key(&key) {
            false
        } else {
            let m = map_for_write(&mut self.map);
            m.add_key(key);
            true
        }
    }

    /// The value of `key`, to change in place, if the pose holds one.
    pub fn get_mut(&mut self, key: &Key) -> (r: Option<&mut V>)
        requires
            old(self).wf(),
        ensures
            r is Some <==> (position_of(old(self).keys_view(), key@) matches Some(i)
                && old(self).values_view().dom().contains(i as usize)),
            r matches Some(v) ==> *v == old(self).values_view()[position_of(old(self).keys_view(), key@).unwrap() as usize]
                && final(self).values_view() == old(self).values_view().insert(
                position_of(old(self).keys_view(), key@).unwrap() as usize,
                *final(v),
            ),
            r is None ==> final(self).values_view() == old(self).values_view(),
            final(self).map_value() == old(self).map_value(),
            final(self).wf(),
            old(self).positions_in_range() ==> final(self).positions_in_range(),
    {
        match self.map.get(key) {
            Some((idx, _)) => match self.find(idx) {
                Some(j) => {
                    proof {
                        lemma_entries_map_at(self.values@, j as int);
                        assert forall|v: V| #[trigger] entries_map(self.values@.update(j as int, (idx, v)))
                            == entries_map(self.values@).insert(idx, v)
                            && entry_positions_distinct(self.values@.update(j as int, (idx, v))) by {
                            lemma_entries_map_set(self.values@, j as int, v);
                        }
                    }
                    Some(&mut self.values[j].1)
                },
                None => None,
            },
            None => None,
        }
    }

    /// Stores `value` for `key`, adding the key to the map first when it lacks it.
    pub fn put_or_add(&mut self, key: Key, value: V)
        requires
            old(self).wf(),
        ensures
            final(self).wf(),
            position_of(old(self).keys_view(), key@) is Some ==> final(self).keys_view() == old(self).keys_view(),
            position_of(old(self).keys_view(), key@) is None ==> final(self).keys_view() == old(self).keys_view().push(
                bare_descriptor(key@),
            ),
            final(self).values_view() == old(self).values_view().insert(
                match position_of(old(self).keys_view(), key@) {
                    Some(i) => i as usize,
                    None => old(self).keys_view().len() as usize,
                },
                value,
            ),
            old(self).positions_in_range() ==> final(self).positions_in_range(),
    {
        let idx = match self.map.get(&key) {
            Some((idx, _)) => idx,
            None => {
                let idx = self.map.len();
                self.add_key(key);
                idx
            },
        };
        self.store(idx, value);
    }

    /// The keys of the stored values, in the order the pose walks them; every stored
    /// position must name a key of the map.
    pub fn keys(&self) -> (r: Vec<&Key>)
        requires
            self.wf(),
            self.positions_in_range(),
        ensures
            r@.len() == self.entries().len(),
            forall|j: int| 0 <= j < r@.len() ==> (#[trigger] r@[j])@ == self.keys_view()[self.entries()[j].0 as int].0,
    {
        let mut out: Vec<&Key> = Vec::new();
        let mut j: usize = 0;
        while j < self.values.len()
            invariant
                self.wf(),
                self.positions_in_range(),
                0 <= j <= self.values@.len(),
                out@.len() == j,
                forall|i: int| 0 <= i < j ==> (#[trigger] out@[i])@ == self.keys_view()[self.entries()[i].0 as int].0,
            decreases self.values@.len() - j,
        {
            assert(self.entries()[j as int].0 < self.keys_view().len());
            let d = self.map.index(self.values[j].0).unwrap();
            out.push(&d.key);
            j = j + 1;
        }
        out
    }

    /// The descriptors of the stored values, in the order the pose walks them; every stored
    /// position must name a key of the map.
    pub fn descriptors(&self) -> (r: Vec<&Descriptor>)
        requires
            self.wf(),
            self.positions_in_range(),
        ensures
            r@.len() == self.entries().len(),
            forall|j: int| 0 <= j < r@.len() ==> (#[trigger] r@[j])@ == self.keys_view()[self.entries()[j].0 as int],
    {
        let mut out: Vec<&Descriptor> = Vec::new();
        let mut j: usize = 0;
        while j < self.values.len()
            invariant
                self.wf(),
                self.positions_in_range(),
                0 <= j <= self.values@.len(),
                out@.len() == j,
                forall|i: int| 0 <= i < j ==> (#[trigger] out@[i])@ == self.keys_view()[self.entries()[i].0 as int],
            decreases self.values@.len() - j,
        {
            assert(self.entries()[j as int].0 < self.keys_view().len());
            out.push(self.map.index(self.values[j].0).unwrap());
            j = j + 1;
        }
        out
    }

    /// The stored values with their keys, in the order the pose walks them; every stored
    /// position must name a key of the map.
    pub fn iter(&self) -> (r: Vec<(&Key, &V)>)
        requires
            self.wf(),
            self.positions_in_range(),
        ensures
            r@.len() == self.entries().len(),
            forall|j: int|
                0 <= j < r@.len() ==> (#[trigger] r@[j]).0@ == self.keys_view()[self.entries()[j].0 as int].0
                    && *r@[j].1 == self.entries()[j].1,
    {
        let mut out: Vec<(&Key, &V)> = Vec::new();
        let mut j: usize = 0;
        while j < self.values.len()
            invariant
                self.wf(),
                self.positions_in_range(),
                0 <= j <= self.values@.len(),
                out@.len() == j,
                forall|i: int|
                    0 <= i < j ==> (#[trigger] out@[i]).0@ == self.keys_view()[self.entries()[i].0 as int].0
                        && *out@[i].1 == self.entries()[i].1,
            decreases self.values@.len() - j,
        {
            assert(self.entries()[j as int].0 < self.keys_view().len());
            let e = &self.values[j];
            let d = self.map.index(e.0).unwrap();
            out.push((&d.key, &e.1));
            j = j + 1;
        }
        out
    }

    /// The stored values with their descriptors, in the order the pose walks them; every
    /// stored position must name a key of the map.
    pub fn iter_desc(&self) -> (r: Vec<(&Descriptor, &V)>)
        requires
            self.wf(),
            self.positions_in_range(),
        ensures
            r@.len() == self.entries().len(),
            forall|j: int|
                0 <= j < r@.len() ==> (#[trigger] r@[j]).0@ == self.keys_view()[self.entries()[j].0 as int]
                    && *r@[j].1 == self.entries()[j].1,
    {
        let mut out: Vec<(&Descriptor, &V)> = Vec::new();
        let mut j: usize = 0;
        while j < self.values.len()
            invariant
                self.wf(),
                self.positions_in_range(),
                0 <= j <= self.values@.len(),
                out@.len() == j,
                forall|i: int|
                    0 <= i < j ==> (#[trigger] out@[i]).0@ == self.keys_view()[self.entries()[i].0 as int]
                        && *out@[i].1 == self.entries()[i].1,
            decreases self.values@.len() - j,
        {
            assert(self.entries()[j as int].0 < self.keys_view().len());
            let e = &self.values[j];
            out.push((self.map.index(e.0).unwrap(), &e.1));
            j = j + 1;
        }
        out
    }

    /// Every key of the map, in map order, with its value if the pose holds one.
    pub fn iter_all(&self) -> (r: Vec<(&Key, Option<&V>)>)
        requires
            self.wf(),
        ensures
            r@.len() == self.keys_view().len(),
            forall|i: int|
                0 <= i < r@.len() ==> (#[trigger] r@[i]).0@ == self.keys_view()[i].0 && (r@[i].1 is Some
                    <==> self.values_view().dom().contains(i as usize)) && (r@[i].1 matches Some(v) ==> *v
                    == self.values_view()[i as usize]),
            forall|i: int|
                0 <= i < r@.len() ==> ((#[trigger] r@[i]).1 is Some <==> self.value_of(self.keys_view()[i].0) is Some),
            forall|i: int|
                0 <= i < r@.len() ==> ((#[trigger] r@[i]).1 matches Some(v) ==> self.value_of(self.keys_view()[i].0)
                    == Some(*v)),
    {
        proof {
            assert forall|i: int| 0 <= i < self.keys_view().len() implies position_of(
                self.keys_view(),
                #[trigger] self.keys_view()[i].0,
            ) == Some(i) by {
                lemma_position_of_own_key(self.keys_view(), i);
            }
        }
        let mut out: Vec<(&Key, Option<&V>)> = Vec::new();
        let mut i: usize = 0;
        let n = self.map.len();
        while i < n
            invariant
                self.wf(),
                n == self.keys_view().len(),
                0 <= i <= n,
                out@.len() == i,
                forall|k: int|
                    0 <= k < i ==> (#[trigger] out@[k]).0@ == self.keys_view()[k].0 && (out@[k].1 is Some
                        <==> self.values_view().dom().contains(k as usize)) && (out@[k].1 matches Some(v) ==> *v
                        == self.values_view()[k as usize]),
            decreases n - i,
        {
            let d = self.map.index(i).unwrap();
            let v = match self.find(i) {
                Some(j) => {
                    proof {
                        lemma_entries_map_at(self.values@, j as int);
                    }
                    Some(&self.values[j].1)
                },
                None => None,
            };
            out.push((&d.key, v));
            i = i + 1;
        }
        out
    }

    /// Every descriptor of the map, in map order, with its value if the pose holds one.
    pub fn iter_desc_all(&self) -> (r: Vec<(&Descriptor, Option<&V>)>)
        requires
            self.wf(),
        ensures
            r@.len() == self.keys_view().len(),
            forall|i: int|
                0 <= i < r@.len() ==> (#[trigger] r@[i]).0@ == self.keys_view()[i] && (r@[i].1 is Some
                    <==> self.values_view().dom().contains(i as usize)) && (r@[i].1 matches Some(v) ==> *v
                    == self.values_view()[i as usize]),
            forall|i: int|
                0 <= i < r@.len() ==> ((#[trigger] r@[i]).1 is Some <==> self.value_of(self.keys_view()[i].0) is Some),
            forall|i: int|
                0 <= i < r@.len() ==> ((#[trigger] r@[i]).1 matches Some(v) ==> self.value_of(self.keys_view()[i].0)
                    == Some(*v)),
    {
        proof {
            assert forall|i: int| 0 <= i < self.keys_view().len() implies position_of(
                self.keys_view(),
                #[trigger] self.keys_view()[i].0,
            ) == Some(i) by {
                lemma_position_of_own_key(self.keys_view(), i);
            }
        }
        let mut out: Vec<(&Descriptor, Option<&V>)> = Vec::new();
        let mut i: usize = 0;
        let n = self.map.len();
        while i < n
            invariant
                self.wf(),
                n == self.keys_view().len(),
                0 <= i <= n,
                out@.len() == i,
                forall|k: int|
                    0 <= k < i ==> (#[trigger] out@[k]).0@ == self.keys_view()[k] && (out@[k].1 is Some
                        <==> self.values_view().dom().contains(k as usize)) && (out@[k].1 matches Some(v) ==> *v
                        == self.values_view()[k as usize]),
            decreases n - i,
        {
            let d = self.map.index(i).unwrap();
            let v = match self.find(i) {
                Some(j) => {
                    proof {
                        lemma_entries_map_at(self.values@, j as int);
                    }
                    Some(&self.values[j].1)
                },
                None => None,
            };
            out.push((d, v));
            i = i + 1;
        }
        out
    }
}

/// One step of combining a pose with another: the value `v2` that the other pose stores
/// at its position `i2`, whose key the first pose's map finds at position `vi`. A value
/// already stored at `vi` is replaced by what `blend` makes of it and `v2`; otherwise
/// whatever `new` makes of `v2`, if anything, is stored at `i2`.
pub open spec fn apply_step<V, B: Fn(&V, &V) -> V, N: Fn(&V) -> Option<V>>(
    before: Map<usize, V>,
    after: Map<usize, V>,
    keys: Seq<DescriptorView>,
    other_keys: Seq<DescriptorView>,
    i2: usize,
    v2: V,
    blend: B,
    new: N,
) -> bool {
    match position_of(keys, other_keys[i2 as int].0) {
        None => after == before,
        Some(vi) => if before.dom().contains(vi as usize) {
            exists|r: V| #[trigger] blend.ensures((&before[vi as usize], &v2), r) && after == before.insert(vi as usize, r)
        } else {
            exists|n: Option<V>|
                #[trigger] new.ensures((&v2,), n) && after == match n {
                    Some(v) => before.insert(i2, v),
                    None => before,
                }
        },
    }
}

/// `trace` walks a pose's values through the entries `entries` of another pose, one step
/// per entry: its first state is `start`, and each next state follows from the previous
/// one and its entry.
pub open spec fn apply_trace<V, B: Fn(&V, &V) -> V, N: Fn(&V) -> Option<V>>(
    trace: Seq<Map<usize, V>>,
    start: Map<usize, V>,
    entries: Seq<(usize, V)>,
    keys: Seq<DescriptorView>,
    other_keys: Seq<DescriptorView>,
    blend: B,
    new: N,
) -> bool {
    &&& trace.len() == entries.len() + 1
    &&& trace[0] == start
    &&& forall|i: int|
        0 <= i < entries.len() ==> #[trigger] apply_step(
            trace[i],
            trace[i + 1],
            keys,
            other_keys,
            entries[i].0,
            entries[i].1,
            blend,
            new,
        )
}

proof fn lemma_position_of_own_key(descs: Seq<DescriptorView>, i: int)
    requires
        keys_distinct(descs),
        0 <= i < descs.len(),
    ensures
        position_of(descs, descs[i].0) == Some(i),
{
    assert(descs[i].0 == descs[i].0);
    let c = choose|j: int| 0 <= j < descs.len() && descs[j].0 == descs[i].0;
    assert(c == i);
}

impl<V: Copy> Pose<V> {
    /// Combines the values of `other` into this pose, entry by entry in the order `other`
    /// walks them: each value meets the value stored under the same key here through
    /// `blend`, or, when there is none, is stored as `new` makes it. Every stored position of
    /// `other` must name a key of its map.
    pub fn apply<B, N>(&mut self, other: &Self, blend: B, new: N)
        where
            B: Fn(&V, &V) -> V,
            N: Fn(&V) -> Option<V>,
        requires
            old(self).wf(),
            other.wf(),
            other.positions_in_range(),
            forall|a: &V, b: &V| #[trigger] blend.requires((a, b)),
            forall|b: &V| #[trigger] new.requires((b,)),
        ensures
            final(self).wf(),
            final(self).map_value() == old(self).map_value(),
            exists|trace: Seq<Map<usize, V>>|
                #[trigger] apply_trace(
                    trace,
                    old(self).values_view(),
                    other.entries(),
                    old(self).keys_view(),
                    other.keys_view(),
                    blend,
                    new,
                ) && trace.last() == final(self).values_view(),
    {
        let same = same_map(&self.map, &other.map);
        let ghost start = self.values_view();
        let ghost keys = self.keys_view();
        let ghost map0 = self.map_value();
        let mut k: usize = 0;
        let ghost mut trace: Seq<Map<usize, V>> = seq![start];
        while k < other.values.len()
            invariant
                self.wf(),
                other.wf(),
                other.positions_in_range(),
                self.map_value() == map0,
                self.keys_view() == keys,
                same ==> *self.map == *other.map,
                forall|a: &V, b: &V| #[trigger] blend.requires((a, b)),
                forall|b: &V| #[trigger] new.requires((b,)),
                0 <= k <= other.values@.len(),
                apply_trace(trace, start, other.entries().take(k as int), keys, other.keys_view(), blend, new),
                trace.last() == self.values_view(),
            decreases other.values@.len() - k,
        {
            let ghost mid = self.values_view();
            let (i2, v2) = other.values[k];
            proof {
                assert(other.entries()[k as int].0 < other.keys_view().len());
            }
            let vi: Option<usize> = if same {
                proof {
                    lemma_position_of_own_key(other.keys_view(), i2 as int);
                }
                Some(i2)
            } else {
                match self.map.get(&other.map.index(i2).unwrap().key) {
                    Some((vi, _)) => Some(vi),
                    None => None,
                }
            };
            match vi {
                None => {},
                Some(vi) => {
                    match self.find(vi) {
                        Some(j) => {
                            proof {
                                lemma_entries_map_at(self.values@, j as int);
                            }
                            let r = blend(&self.values[j].1, &v2);
                            self.store(vi, r);
                        },
                        None => {
                            let n = new(&v2);
                            match n {
                                Some(v) => self.store(i2, v),
                                None => {},
                            }
                        },
                    }
                },
            }
            proof {
                let old_trace = trace;
                let e = other.entries().take(k + 1);
                assert(apply_step(mid, self.values_view(), keys, other.keys_view(), i2, v2, blend, new));
                trace = trace.push(self.values_view());
                assert forall|i: int| 0 <= i < e.len() implies #[trigger] apply_step(
                    trace[i],
                    trace[i + 1],
                    keys,
                    other.keys_view(),
                    e[i].0,
                    e[i].1,
                    blend,
                    new,
                ) by {
                    if i < k {
                        assert(e[i] == other.entries().take(k as int)[i]);
                        assert(trace[i] == old_trace[i]);
                        assert(trace[i + 1] == old_trace[i + 1]);
                    } else {
                        assert(e[i] == (i2, v2));
                    }
                }
            }
            k = k + 1;
        }
        proof {
            assert(other.entries().take(other.values@.len() as int) =~= other.entries());
            assert(apply_trace(trace, start, other.entries(), keys, other.keys_view(), blend, new));
        }
    }
}

impl<V: Copy> Clone for Pose<V> {
    fn clone(&self) -> (r: Self)
        ensures
            r.map_value() == self.map_value(),
            r.entries() == self.entries(),
            self.wf() ==> r.wf(),
    {
        let mut values: Vec<(usize, V)> = Vec::new();
        let mut j: usize = 0;
        while j < self.values.len()
            invariant
                0 <= j <= self.values@.len(),
                values@ == self.values@.take(j as int),
            decreases self.values@.len() - j,
        {
            values.push(self.values[j]);
            j = j + 1;
            assert(values@ =~= self.values@.take(j as int));
        }
        assert(values@ =~= self.values@);
        Pose { map: share_map(&self.map), values }
    }
}

/// Reading the key of parameter `i` of `m` in `descs` finds position `i`, whose descriptor
/// carries that parameter's object id, no name, and its minimum, maximum and default.
pub open spec fn param_entry(m: &ParsedModel, descs: Seq<DescriptorView>, i: int) -> bool {
    &&& position_of(descs, (true, m.param.id@[i]@)) == Some(i)
    &&& descs[i].1 == i
    &&& descs[i].2 is None
    &&& descs[i].3 == m.param.min@[i]
    &&& descs[i].4 == m.param.max@[i]
    &&& descs[i].5 == m.param.default@[i]
}

/// Reading the key of part `j` of `m` in `descs` finds the position after the parameters,
/// whose descriptor carries the part's id, no name, the range 0 to 1 and the default 1.
pub open spec fn part_entry(m: &ParsedModel, descs: Seq<DescriptorView>, j: int) -> bool {
    let k = m.param.count + j;
    &&& position_of(descs, (false, m.part.id@[j]@)) == Some(k)
    &&& descs[k].1 == j
    &&& descs[k].2 is None
    &&& descs[k].3 == RawF32(0)
    &&& descs[k].4 == RawF32(0x3f80_0000)
    &&& descs[k].5 == RawF32(0x3f80_0000)
}

/// The pose table of a model describes each parameter by its own values and each part as
/// an opacity: reading the key of parameter `i` finds position `i`, whose descriptor carries
/// that parameter's object id, minimum, maximum and default; reading the key of part `j`
/// finds the position after the parameters, whose descriptor carries the part's id, the
/// range 0 to 1 and the default 1.
pub proof fn lemma_pose_table_of_model(m: &ParsedModel, r: PoseMap)
    requires
        r.wf(),
        r@.len() == m.param.count + m.part.count,
        forall|i: int| 0 <= i < m.param.count ==> #[trigger] param_descriptor(m, r@[i], i),
        forall|i: int| 0 <= i < m.part.count ==> #[trigger] part_descriptor(m, r@[m.param.count + i], i),
    ensures
        forall|i: int| 0 <= i < m.param.count ==> #[trigger] param_entry(m, r@, i),
        forall|j: int| 0 <= j < m.part.count ==> #[trigger] part_entry(m, r@, j),
{
    assert forall|i: int| 0 <= i < m.param.count implies #[trigger] param_entry(m, r@, i) by {
        assert(param_descriptor(m, r@[i], i));
        lemma_position_of_own_key(r@, i);
        assert(r@[i].0 == (true, m.param.id@[i]@));
    }
    assert forall|j: int| 0 <= j < m.part.count implies #[trigger] part_entry(m, r@, j) by {
        assert(part_descriptor(m, r@[m.param.count + j], j));
        lemma_position_of_own_key(r@, m.param.count + j);
        assert(r@[m.param.count + j].0 == (false, m.part.id@[j]@));
    }
}

/// A well-formed pose's keys are those of its map, and no key occurs twice.
pub proof fn lemma_pose_keys<V: Copy>(p: Pose<V>)
    requires
        p.wf(),
    ensures
        p.keys_view() == p.map_value()@,
        keys_distinct(p.keys_view()),
{
}

/// A read gives back what the last write stored: after `put` of a value for a key of the
/// map, a read of that key gives the value and a read of any other key gives what it gave
/// before; after `unset` of a key, a read of it gives nothing and other keys are untouched.
/// `put` and `unset` keep the map, so the key's position is the same before and after.
pub proof fn lemma_pose_put_get<V: Copy>(
    before: Pose<V>,
    after_put: Pose<V>,
    after_unset: Pose<V>,
    key: (bool, Seq<char>),
    value: V,
    other: (bool, Seq<char>),
)
    requires
        position_of(before.keys_view(), key) is Some,
        after_put.map_value() == before.map_value(),
        after_put.values_view() == before.values_view().insert(
            position_of(before.keys_view(), key).unwrap() as usize,
            value,
        ),
        after_unset.map_value() == before.map_value(),
        after_unset.values_view() == before.values_view().remove(
            position_of(before.keys_view(), key).unwrap() as usize,
        ),
    ensures
        after_put.value_of(key) == Some(value),
        other != key ==> after_put.value_of(other) == before.value_of(other),
        after_unset.value_of(key) is None,
        other != key ==> after_unset.value_of(other) == before.value_of(other),
{
    let i = position_of(before.keys_view(), key).unwrap();
    assert(before.keys_view().len() == before.map.descriptors.len());
    assert(after_put.keys_view() == before.keys_view());
    assert(after_unset.keys_view() == before.keys_view());
    if other != key {
        match position_of(before.keys_view(), other) {
            Some(o) => {
                assert(before.keys_view()[o].0 == other && before.keys_view()[i].0 == key);
                assert(o != i);
            },
            None => {},
        }
    }
}

} // verus!
