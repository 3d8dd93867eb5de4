use vstd::prelude::*;
use vstd::utf8::{valid_utf8, decode_utf8};
use std::marker::PhantomData;
use crate::error::{ParseError, bool32_text, fmt_bool32};
use crate::model::ParsedModel;

verus! {

/// A boolean stored as a 32-bit word; only 0 and 1 are valid.
#[derive(Debug, Default, Copy, Clone, PartialEq, Eq, Structural)]
pub struct Bool32(pub u32);

/// Two 32-bit words.
#[derive(Debug, Default, Copy, Clone, PartialEq, Eq, Structural)]
pub struct U32Pair(pub u32, pub u32);

/// An IEEE-754 single-precision number, held as its bit pattern.
#[derive(Debug, Default, Copy, Clone, PartialEq, Eq, Structural)]
pub struct RawF32(pub u32);

impl RawF32 {
    /// True when the exponent field is not all ones, that is, the number is neither
    /// infinite nor NaN.
    pub open spec fn spec_is_finite(self) -> bool {
        (self.0 & 0x7f80_0000u32) != 0x7f80_0000u32
    }

    pub fn is_finite(&self) -> (r: bool)
        ensures
            r == self.spec_is_finite(),
    {
        (self.0 & 0x7f80_0000) != 0x7f80_0000
    }
}

/// A 2D coordinate, each component an IEEE-754 single-precision bit pattern.
#[derive(Debug, Default, Copy, Clone, PartialEq, Eq, Structural)]
pub struct Coord {
    pub x: RawF32,
    pub y: RawF32,
}

/// An RGB color, each component an IEEE-754 single-precision bit pattern.
pub type Color = [RawF32; 3];

/// A fixed-size, NUL-padded UTF-8 identifier.
#[derive(Debug)]
pub struct Identifier(pub [u8; 64]);

impl Default for Identifier {
    fn default() -> (r: Self)
        ensures
            forall|i: int| 0 <= i < 64 ==> r.0@[i] == 0u8,
    {
        Identifier([0u8; 64])
    }
}

/// The index of the first zero byte of `bytes`, or its length when it has none.
pub open spec fn first_nul(bytes: Seq<u8>) -> int
    decreases bytes.len(),
{
    if bytes.len() == 0 {
        0
    } else if bytes[0] == 0 {
        0
    } else {
        1 + first_nul(bytes.drop_first())
    }
}

proof fn lemma_first_nul(bytes: Seq<u8>)
    ensures
        0 <= first_nul(bytes) <= bytes.len(),
        first_nul(bytes) < bytes.len() ==> bytes[first_nul(bytes)] == 0,
        forall|j: int| 0 <= j < first_nul(bytes) ==> bytes[j] != 0,
    decreases bytes.len(),
{
    if bytes.len() > 0 && bytes[0] != 0 {
        let rest = bytes.drop_first();
        lemma_first_nul(rest);
        assert forall|j: int| 0 <= j < first_nul(bytes) implies bytes[j] != 0 by {
            if j > 0 {
                assert(bytes[j] == rest[j - 1]);
            }
        }
    }
}

/// Decodes `bytes` as UTF-8 with `std::str::from_utf8`. It succeeds exactly when the
/// bytes are valid UTF-8, and then gives the characters they encode; on failure it gives
/// the error's text, which is left unconstrained.
#[verifier::external_body]
fn utf8_decode(bytes: &[u8]) -> (r: Result<String, String>)
    ensures
        r is Ok <==> valid_utf8(bytes@),
        r matches Ok(s) ==> s@ == decode_utf8(bytes@),
{
    match std::str::from_utf8(bytes) {
        Ok(s) => Ok(s.to_string()),
        Err(e) => Err(e.to_string()),
    }
}

impl TryFrom<Identifier> for String {
    type Error = ParseError;

    /// Decodes the identifier and cuts it at its first NUL character.
    fn try_from(ident: Identifier) -> (r: Result<String, ParseError>)
        ensures
            r is Ok <==> valid_utf8(ident.0@),
            r matches Ok(s) ==> s@ == decode_utf8(ident.0@.take(first_nul(ident.0@))),
            r matches Err(e) ==> e is InvalidValue,
    {
        let bytes = ident.0.as_slice();
        match utf8_decode(bytes) {
            Ok(_) => {},
            Err(msg) => return Err(ParseError::InvalidValue(msg)),
        }
        let ghost valid = valid_utf8(bytes@);
        let mut pos: usize = 0;
        while pos < bytes.len() && bytes[pos] != 0
            invariant
                valid == valid_utf8(bytes@),
                bytes@ == ident.0@,
                0 <= pos <= bytes@.len(),
                forall|j: int| 0 <= j < pos ==> bytes@[j] != 0,
            decreases bytes.len() - pos,
        {
            pos = pos + 1;
        }
        proof {
            lemma_first_nul(bytes@);
            assert(pos == first_nul(bytes@));
            vstd::utf8::is_char_boundary_start_end_of_seq(bytes@);
            if pos < bytes@.len() {
                vstd::utf8::is_char_boundary_iff_not_is_continuation_byte(bytes@, pos as int);
                assert(!vstd::utf8::is_continuation_byte(bytes@[pos as int]));
            }
            vstd::utf8::valid_utf8_split(bytes@, pos as int);
            assert(bytes@.subrange(0, pos as int) == bytes@.take(pos as int));
        }
        let prefix = vstd::slice::slice_subrange(bytes, 0, pos);
        match utf8_decode(prefix) {
            Ok(s) => Ok(s),
            Err(msg) => Err(ParseError::InvalidValue(msg)),
        }
    }
}

impl vstd::std_specs::convert::TryFromSpecImpl<Identifier> for String {
    open spec fn obeys_try_from_spec() -> bool {
        false
    }

    open spec fn try_from_spec(ident: Identifier) -> Result<String, ParseError> {
        if valid_utf8(ident.0@) {
            Ok(choose|s: String| (#[trigger] s@) == decode_utf8(ident.0@.take(first_nul(ident.0@))))
        } else {
            Err(ParseError::InvalidValue(vstd::pervasive::arbitrary()))
        }
    }
}

impl TryFrom<Bool32> for bool {
    type Error = ParseError;

    fn try_from(value: Bool32) -> (r: Result<bool, ParseError>)
        ensures
            value.0 == 0 ==> r == Ok::<bool, ParseError>(false),
            value.0 == 1 ==> r == Ok::<bool, ParseError>(true),
            value.0 > 1 ==> (r matches Err(e) && e matches ParseError::InvalidValue(s)
                && s@ == bool32_text(value.0)),
    {
        match value.0 {
            0 => Ok(false),
            1 => Ok(true),
            a => Err(ParseError::InvalidValue(fmt_bool32(a))),
        }
    }
}

impl vstd::std_specs::convert::TryFromSpecImpl<Bool32> for bool {
    open spec fn obeys_try_from_spec() -> bool {
        false
    }

    open spec fn try_from_spec(value: Bool32) -> Result<bool, ParseError> {
        if value.0 == 0 {
            Ok(false)
        } else if value.0 == 1 {
            Ok(true)
        } else {
            Err(ParseError::InvalidValue(choose|s: String| s@ == bool32_text(value.0)))
        }
    }
}

/// A plain index.
pub trait Reference: Sized {
    spec fn spec_get(&self) -> u32;

    fn get(&self) -> (r: u32)
        ensures
            r == self.spec_get(),
    ;
}

/// An index that may be absent.
pub trait OptReference: Sized {
    spec fn spec_get(&self) -> Option<u32>;

    fn get(&self) -> (r: Option<u32>)
        ensures
            r == self.spec_get(),
    ;
}

/// What an index type knows of the array it indexes: how many scalars make one item,
/// and how many scalars the array holds.
pub trait ClassInfo: Sized {
    spec fn spec_stride() -> u32;

    spec fn spec_bound(model: &ParsedModel) -> usize;

    fn stride() -> (r: u32)
        ensures
            r == Self::spec_stride(),
            r >= 1,
    ;

    fn bound(model: &ParsedModel) -> (r: usize)
        ensures
            r == Self::spec_bound(model),
    ;
}

pub trait PrivRef: Reference {
    spec fn spec_stride() -> u32;

    spec fn spec_bound(model: &ParsedModel) -> usize;

    fn stride() -> (r: u32)
        ensures
            r == Self::spec_stride(),
            r >= 1,
    ;

    fn new(i: u32) -> (r: Self)
        ensures
            r.spec_get() == i,
    ;

    /// The index `offset` items further on.
    fn offset(&self, offset: u32) -> (r: Self)
        requires
            self.spec_get() + offset * Self::spec_stride() <= u32::MAX,
        ensures
            r.spec_get() == self.spec_get() + offset * Self::spec_stride(),
    {
        let s = Self::stride();
        assert(offset * s <= u32::MAX) by (nonlinear_arith)
            requires
                self.spec_get() + offset * s <= u32::MAX,
                s >= 1,
        ;
        Self::new(self.get() + offset * s)
    }

    fn bound(model: &ParsedModel) -> (r: usize)
        ensures
            r == Self::spec_bound(model),
    ;
}

pub trait PrivOptRef: OptReference {
    spec fn spec_stride() -> u32;

    spec fn spec_bound(model: &ParsedModel) -> usize;

    fn stride() -> (r: u32)
        ensures
            r == Self::spec_stride(),
            r >= 1,
    ;

    /// `None` is stored as -1; an index is stored as the signed word with the same bits.
    fn new(i: Option<u32>) -> (r: Self)
        ensures
            i is None ==> r.spec_get() is None,
            i matches Some(v) ==> (v != u32::MAX ==> r.spec_get() == Some(v)),
            i matches Some(v) ==> (v == u32::MAX ==> r.spec_get() is None),
    ;

    /// The index `offset` items further on; the index must be present.
    fn offset(&self, offset: u32) -> (r: Self)
        requires
            self.spec_get() is Some,
            self.spec_get().unwrap() + offset * Self::spec_stride() < u32::MAX,
        ensures
            r.spec_get() == Some((self.spec_get().unwrap() + offset * Self::spec_stride()) as u32),
    {
        let s = Self::stride();
        let base = self.get().unwrap();
        assert(offset * s <= u32::MAX) by (nonlinear_arith)
            requires
                base + offset * s < u32::MAX,
                s >= 1,
        ;
        Self::new(Some(base + offset * s))
    }

    fn bound(model: &ParsedModel) -> (r: usize)
        ensures
            r == Self::spec_bound(model),
    ;
}

/// An index into the array of class `C`.
#[derive(Debug, Default)]
pub struct Idx<C>(pub u32, pub PhantomData<C>);

impl<C> Clone for Idx<C> {
    fn clone(&self) -> (r: Self)
        ensures
            r.0 == self.0,
    {
        Idx(self.0, PhantomData)
    }
}

impl<C> Copy for Idx<C> {}

impl<C> PartialEq for Idx<C> {
    fn eq(&self, other: &Self) -> (r: bool) {
        self.0 == other.0
    }
}

impl<C> vstd::std_specs::cmp::PartialEqSpecImpl for Idx<C> {
    open spec fn obeys_eq_spec() -> bool {
        true
    }

    open spec fn eq_spec(&self, other: &Self) -> bool {
        self.0 == other.0
    }
}

impl<C> Eq for Idx<C> {}

impl<C> Idx<C> {
    pub fn new(i: u32) -> (r: Self)
        ensures
            r.0 == i,
    {
        Idx(i, PhantomData)
    }
}

impl<C: ClassInfo> Reference for Idx<C> {
    open spec fn spec_get(&self) -> u32 {
        self.0
    }

    fn get(&self) -> (r: u32) {
        self.0
    }
}

impl<C: ClassInfo> PrivRef for Idx<C> {
    open spec fn spec_stride() -> u32 {
        C::spec_stride()
    }

    open spec fn spec_bound(model: &ParsedModel) -> usize {
        C::spec_bound(model)
    }

    fn stride() -> (r: u32) {
        C::stride()
    }

    fn new(i: u32) -> (r: Self) {
        Idx(i, PhantomData)
    }

    fn bound(model: &ParsedModel) -> (r: usize) {
        C::bound(model)
    }
}

/// An index into the array of class `C` that may be absent, stored as a signed word
/// with -1 for absence.
#[derive(Debug, Default)]
pub struct OptIdx<C>(pub i32, pub PhantomData<C>);

impl<C> Clone for OptIdx<C> {
    fn clone(&self) -> (r: Self)
        ensures
            r.0 == self.0,
    {
        OptIdx(self.0, PhantomData)
    }
}

impl<C> Copy for OptIdx<C> {}

impl<C> PartialEq for OptIdx<C> {
    fn eq(&self, other: &Self) -> (r: bool) {
        self.0 == other.0
    }
}

impl<C> vstd::std_specs::cmp::PartialEqSpecImpl for OptIdx<C> {
    open spec fn obeys_eq_spec() -> bool {
        true
    }

    open spec fn eq_spec(&self, other: &Self) -> bool {
        self.0 == other.0
    }
}

impl<C> Eq for OptIdx<C> {}

/// The index that a stored signed word denotes.
pub open spec fn opt_idx_get(v: i32) -> Option<u32> {
    if v == -1 {
        None
    } else {
        Some(v as u32)
    }
}

/// The signed word that stores an optional index.
pub open spec fn opt_idx_store(i: Option<u32>) -> i32 {
    match i {
        Some(v) => v as i32,
        None => -1i32,
    }
}

impl<C> OptIdx<C> {
    pub fn from_index(i: Option<Idx<C>>) -> (r: Self)
        ensures
            r.0 == opt_idx_store(
                match i {
                    Some(x) => Some(x.0),
                    None => None,
                },
            ),
    {
        let v: i32 = match i {
            Some(x) => #[verifier::truncate] (x.0 as i32),
            None => -1,
        };
        OptIdx(v, PhantomData)
    }

    pub fn to_index(&self) -> (r: Option<Idx<C>>)
        ensures
            r is None <==> self.0 == -1,
            r matches Some(x) ==> Some(x.0) == opt_idx_get(self.0),
    {
        if self.0 == -1 {
            None
        } else {
            Some(Idx(#[verifier::truncate] (self.0 as u32), PhantomData))
        }
    }
}

impl<C: ClassInfo> OptReference for OptIdx<C> {
    open spec fn spec_get(&self) -> Option<u32> {
        opt_idx_get(self.0)
    }

    fn get(&self) -> (r: Option<u32>) {
        if self.0 == -1 {
            None
        } else {
            Some(#[verifier::truncate] (self.0 as u32))
        }
    }
}

impl<C: ClassInfo> PrivOptRef for OptIdx<C> {
    open spec fn spec_stride() -> u32 {
        C::spec_stride()
    }

    open spec fn spec_bound(model: &ParsedModel) -> usize {
        C::spec_bound(model)
    }

    fn stride() -> (r: u32) {
        C::stride()
    }

    fn new(i: Option<u32>) -> (r: Self) {
        let v: i32 = match i {
            Some(x) => #[verifier::truncate] (x as i32),
            None => -1,
        };
        proof {
            lemma_opt_idx_store_get(i);
        }
        OptIdx(v, PhantomData)
    }

    fn bound(model: &ParsedModel) -> (r: usize) {
        C::bound(model)
    }
}

proof fn lemma_opt_idx_store_get(i: Option<u32>)
    ensures
        i matches Some(v) ==> (v != u32::MAX ==> opt_idx_get(opt_idx_store(i)) == Some(v)),
        i matches Some(v) ==> (v == u32::MAX ==> opt_idx_get(opt_idx_store(i)) is None),
        i is None ==> opt_idx_get(opt_idx_store(i)) is None,
{
    if let Some(v) = i {
        assert(v != u32::MAX ==> (v as i32) != -1i32 && ((v as i32) as u32) == v) by (bit_vector);
        assert(v == u32::MAX ==> (v as i32) == -1i32) by (bit_vector);
    }
}

/// Storing what a word denotes gives the word back, for every stored word; reading a
/// stored index gives the index back, except for the one index whose bits are those of -1.
pub proof fn lemma_opt_idx_roundtrip(w: i32, i: Option<u32>)
    ensures
        opt_idx_store(opt_idx_get(w)) == w,
        (i matches Some(v) && v == u32::MAX) || opt_idx_get(opt_idx_store(i)) == i,
{
    assert((w as u32) as i32 == w) by (bit_vector);
    lemma_opt_idx_store_get(i);
}

/// A view handed out by a collection.
pub struct ViewRef<'a, T>(pub T, pub PhantomData<&'a T>);

impl<'a, T> ViewRef<'a, T> {
    pub fn new(v: T) -> (r: Self)
        ensures
            r.0 == v,
    {
        ViewRef(v, PhantomData)
    }

    pub fn inner(&self) -> (r: &T)
        ensures
            *r == self.0,
    {
        &self.0
    }
}


/// A class of the file: its index types.
pub trait RawObject {
    type Idx: PrivRef + Copy;
    type OptIdx: PrivOptRef + Copy;
}

/// A class of the file whose objects can be viewed.
pub trait Object: RawObject {
    type View<'a>: ObjectView<'a>;
}

/// A view of one object of a model.
pub trait ObjectView<'model>: Sized {
    type Object: RawObject;

    /// How many objects of the class views may reach.
    spec fn class_count(model: &ParsedModel) -> nat;

    spec fn spec_model(&self) -> &'model ParsedModel;

    spec fn spec_idx(&self) -> u32;

    spec fn spec_parent(&self) -> Option<u32>;

    /// Objects of viewable classes take one index step each.
    proof fn lemma_unit_stride()
        ensures
            <<Self as ObjectView<'model>>::Object as RawObject>::Idx::spec_stride() == 1,
    ;

    /// The view of object `idx`, if the class reaches that far.
    fn get(model: &'model ParsedModel, idx: <Self::Object as RawObject>::Idx) -> (r: Option<Self>)
        ensures
            r is Some <==> (idx.spec_get() as nat) < Self::class_count(model),
            r matches Some(v) ==> v.spec_model() == model && v.spec_idx() == idx.spec_get()
                && v.spec_parent() is None,
    ;

    fn get_ref(model: &'model ParsedModel, idx: <Self::Object as RawObject>::Idx) -> (r: Option<
        ViewRef<'model, Self>,
    >)
        ensures
            r is Some <==> (idx.spec_get() as nat) < Self::class_count(model),
            r matches Some(v) ==> v.0.spec_model() == model && v.0.spec_idx() == idx.spec_get()
                && v.0.spec_parent() is None,
    ;

    fn into_ref(self) -> (r: ViewRef<'model, Self>)
        ensures
            r.0 == self,
    ;

    fn set_parent_idx(&mut self, idx: u32)
        ensures
            final(self).spec_parent() == Some(idx),
            final(self).spec_idx() == old(self).spec_idx(),
            final(self).spec_model() == old(self).spec_model(),
    ;
}

/// A view of an object that belongs to an object of another class.
pub trait ChildView<'a>: ObjectView<'a> {
    type Parent: Object;

    fn with_parent(self, parent: &<Self::Parent as Object>::View<'a>) -> (r: Self)
        ensures
            r.spec_parent() == Some(parent.spec_idx()),
            r.spec_idx() == self.spec_idx(),
            r.spec_model() == self.spec_model(),
    ;

    fn with_parent_idx(self, idx: u32) -> (r: Self)
        ensures
            r.spec_parent() == Some(idx),
            r.spec_idx() == self.spec_idx(),
            r.spec_model() == self.spec_model(),
    ;

    /// The view of the object this one belongs to; it must be known and reachable.
    fn parent(&self) -> (r: <Self::Parent as Object>::View<'a>)
        requires
            self.spec_parent() is Some,
            (self.spec_parent().unwrap() as nat) < <<Self::Parent as Object>::View<'a> as ObjectView<'a>>::class_count(self.spec_model()),
        ensures
            r.spec_model() == self.spec_model(),
            r.spec_idx() == self.spec_parent().unwrap(),
            r.spec_parent() is None,
    ;
}

/// A run of consecutive objects of one class, from `start` up to `limit`; views taken
/// from it carry `parent` as their parent index.
#[derive(Debug)]
pub struct ItemCollection<'a, T> {
    pub model: &'a ParsedModel,
    pub start: u32,
    pub limit: u32,
    pub parent: Option<u32>,
    pub p: PhantomData<T>,
}

impl<'a, T: ObjectView<'a>> ItemCollection<'a, T> {
    pub fn new(model: &'a ParsedModel, start: u32, limit: u32) -> (r: Self)
        ensures
            r.model == model,
            r.start == start,
            r.limit == limit,
            r.parent is None,
    {
        ItemCollection { model, start, limit, parent: None, p: PhantomData }
    }

    /// The view of the `index`-th object of the run, if the run and the class reach it.
    pub fn index(&self, index: usize) -> (r: Option<ViewRef<'a, T>>)
        requires
            index <= u32::MAX,
            self.start + index <= u32::MAX,
        ensures
            r is Some <==> self.start + index < self.limit && self.start + index < T::class_count(self.model),
            r matches Some(v) ==> v.0.spec_model() == self.model && v.0.spec_idx() == self.start + index
                && (self.parent is Some ==> v.0.spec_parent() == self.parent)
                && (self.parent is None ==> v.0.spec_parent() is None),
    {
        let index = index as u32;
        if (self.start + index) >= self.limit {
            None
        } else {
            proof {
                T::lemma_unit_stride();
            }
            let i = <T::Object as RawObject>::Idx::new(self.start).offset(index);
            match T::get(self.model, i) {
                Some(v) => {
                    let mut v = v;
                    match self.parent {
                        Some(idx) => v.set_parent_idx(idx),
                        None => {},
                    }
                    Some(v.into_ref())
                },
                None => None,
            }
        }
    }

    pub fn count(&self) -> (r: usize)
        requires
            self.start <= self.limit,
        ensures
            r == self.limit - self.start,
    {
        (self.limit - self.start) as usize
    }

    /// An iterator over the run.
    pub fn into_iter(self) -> (r: ItemIterator<'a, T>)
        ensures
            r.model == self.model,
            r.idx == self.start,
            r.limit == self.limit,
            r.parent == self.parent,
    {
        ItemIterator { model: self.model, idx: self.start, limit: self.limit, parent: self.parent, _p: PhantomData }
    }

    /// The object with id `uid`; the run must start at the first object of the class.
    pub fn get(&self, uid: u32) -> (r: Option<ViewRef<'a, T>>)
        requires
            self.start == 0,
        ensures
            r is Some <==> uid < self.limit && uid < T::class_count(self.model),
            r matches Some(v) ==> v.0.spec_model() == self.model && v.0.spec_idx() == uid,
    {
        self.index(uid as usize)
    }
}

/// Walks a run of objects; it stops at the end of the run or at the first object that the
/// class does not reach.
#[derive(Debug)]
pub struct ItemIterator<'a, T> {
    pub model: &'a ParsedModel,
    pub idx: u32,
    pub limit: u32,
    pub parent: Option<u32>,
    pub _p: PhantomData<T>,
}

/// One call of `next`: from `before` to `after`, handing out `r`. While the run and the
/// class reach the current object, its view comes out, with the iterator's parent, and
/// the iterator moves on; otherwise nothing comes out and the iterator stays.
pub open spec fn next_step<'a, T: ObjectView<'a>>(
    before: ItemIterator<'a, T>,
    after: ItemIterator<'a, T>,
    r: Option<ViewRef<'a, T>>,
) -> bool {
    &&& after.model == before.model
    &&& after.limit == before.limit
    &&& after.parent == before.parent
    &&& (r is Some <==> before.idx < before.limit && before.idx < T::class_count(before.model))
    &&& (r is Some ==> after.idx == before.idx + 1)
    &&& (r is None ==> after.idx == before.idx)
    &&& (r matches Some(v) ==> v.0.spec_model() == before.model && v.0.spec_idx() == before.idx
        && (before.parent is Some ==> v.0.spec_parent() == before.parent)
        && (before.parent is None ==> v.0.spec_parent() is None))
}

/// After `k` calls of `next` on an iterator over run `c`, the iterator stands at object
/// `start + k`, or at the end of the run once that is reached.
proof fn lemma_iterator_position<'a, T: ObjectView<'a>>(
    c: ItemCollection<'a, T>,
    states: Seq<ItemIterator<'a, T>>,
    results: Seq<Option<ViewRef<'a, T>>>,
    k: int,
)
    requires
        c.start <= c.limit,
        c.limit <= T::class_count(c.model),
        states.len() == results.len() + 1,
        states[0].model == c.model,
        states[0].idx == c.start,
        states[0].limit == c.limit,
        states[0].parent == c.parent,
        forall|j: int| 0 <= j < results.len() ==> #[trigger] next_step(states[j], states[j + 1], results[j]),
        0 <= k <= results.len(),
    ensures
        states[k].model == c.model,
        states[k].limit == c.limit,
        states[k].parent == c.parent,
        states[k].idx == if k <= c.limit - c.start { c.start + k } else { c.limit as int },
    decreases k,
{
    if k > 0 {
        lemma_iterator_position(c, states, results, k - 1);
        assert(next_step(states[k - 1], states[k - 1 + 1], results[k - 1]));
    }
}

/// Successive calls of `next` on the iterator of a run that the class reaches hand out the
/// views of the run's objects in order, each with the run's parent, and then nothing on
/// every later call: the same views as `index(0)`, `index(1)`, ..., `index(count() - 1)`.
pub proof fn lemma_iterator_walks_run<'a, T: ObjectView<'a>>(
    c: ItemCollection<'a, T>,
    states: Seq<ItemIterator<'a, T>>,
    results: Seq<Option<ViewRef<'a, T>>>,
)
    requires
        c.start <= c.limit,
        c.limit <= T::class_count(c.model),
        states.len() == results.len() + 1,
        states[0].model == c.model,
        states[0].idx == c.start,
        states[0].limit == c.limit,
        states[0].parent == c.parent,
        forall|j: int| 0 <= j < results.len() ==> #[trigger] next_step(states[j], states[j + 1], results[j]),
    ensures
        forall|k: int| 0 <= k < results.len() ==> (#[trigger] results[k] is Some <==> k < c.limit - c.start),
        forall|k: int|
            0 <= k < results.len() && k < c.limit - c.start ==> (#[trigger] results[k] matches Some(v)
                && v.0.spec_model() == c.model && v.0.spec_idx() == c.start + k
                && (c.parent is Some ==> v.0.spec_parent() == c.parent)
                && (c.parent is None ==> v.0.spec_parent() is None)),
{
    assert forall|k: int| 0 <= k < results.len() implies (#[trigger] results[k] is Some <==> k < c.limit - c.start)
        && (k < c.limit - c.start ==> (results[k] matches Some(v) && v.0.spec_model() == c.model
            && v.0.spec_idx() == c.start + k && (c.parent is Some ==> v.0.spec_parent() == c.parent)
            && (c.parent is None ==> v.0.spec_parent() is None))) by {
        lemma_iterator_position(c, states, results, k);
        assert(next_step(states[k], states[k + 1], results[k]));
    }
}

impl<'a, T: ObjectView<'a>> ItemIterator<'a, T> {
    pub fn next(&mut self) -> (r: Option<ViewRef<'a, T>>)
        ensures
            next_step(*old(self), *final(self), r),
            final(self).model == old(self).model,
            final(self).limit == old(self).limit,
            final(self).parent == old(self).parent,
            r is Some <==> old(self).idx < old(self).limit && old(self).idx < T::class_count(old(self).model),
            r is Some ==> final(self).idx == old(self).idx + 1,
            r is None ==> final(self).idx == old(self).idx,
            r matches Some(v) ==> v.0.spec_model() == old(self).model && v.0.spec_idx() == old(self).idx
                && (old(self).parent is Some ==> v.0.spec_parent() == old(self).parent)
                && (old(self).parent is None ==> v.0.spec_parent() is None),
    {
        if self.idx >= self.limit {
            return None;
        }
        let ret = T::get(self.model, <T::Object as RawObject>::Idx::new(self.idx));
        match ret {
            Some(view) => {
                let mut view = view;
                match self.parent {
                    Some(idx) => view.set_parent_idx(idx),
                    None => {},
                }
                self.idx = self.idx + 1;
                Some(view.into_ref())
            },
            None => None,
        }
    }
}

} // verus!
