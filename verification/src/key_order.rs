use vstd::prelude::*;
use std::cmp::Ordering;
use vstd::std_specs::cmp::{PartialOrdSpec, PartialOrdSpecImpl};
use crate::pose::Key;

verus! {

/// The order of two byte strings: byte by byte from the start, a proper prefix first.
pub open spec fn bytes_order(a: Seq<u8>, b: Seq<u8>) -> Ordering
    decreases a.len(),
{
    if a.len() == 0 {
        if b.len() == 0 {
            Ordering::Equal
        } else {
            Ordering::Less
        }
    } else if b.len() == 0 {
        Ordering::Greater
    } else if a[0] < b[0] {
        Ordering::Less
    } else if a[0] > b[0] {
        Ordering::Greater
    } else {
        bytes_order(a.drop_first(), b.drop_first())
    }
}

/// The first position where `a` and `b` differ, or the length of the shorter one when one
/// is a prefix of the other.
fn first_difference(a: &[u8], b: &[u8]) -> (r: usize)
    ensures
        r <= a@.len(),
        r <= b@.len(),
        forall|j: int| 0 <= j < r ==> a@[j] == b@[j],
        r == a@.len() || r == b@.len() || a@[r as int] != b@[r as int],
{
    let mut i: usize = 0;
    while i < a.len() && i < b.len()
        invariant
            i <= a@.len(),
            i <= b@.len(),
            forall|j: int| 0 <= j < i ==> a@[j] == b@[j],
        decreases a@.len() - i,
    {
        if a[i] != b[i] {
            return i;
        }
        i = i + 1;
    }
    i
}

/// The position `d` as a mathematical integer.
proof fn position_of_index(d: usize) -> (r: int)
    ensures
        r == d,
{
    d as int
}

/// Byte strings that agree before position `d`, and differ at `d` or end there, are ordered
/// by what stands at `d`.
proof fn lemma_bytes_order_at(a: Seq<u8>, b: Seq<u8>, d: int)
    requires
        0 <= d <= a.len(),
        d <= b.len(),
        forall|j: int| 0 <= j < d ==> a[j] == b[j],
        d == a.len() || d == b.len() || a[d] != b[d],
    ensures
        bytes_order(a, b) == if d < a.len() && d < b.len() {
            if a[d] < b[d] {
                Ordering::Less
            } else {
                Ordering::Greater
            }
        } else if a.len() == b.len() {
            Ordering::Equal
        } else if a.len() < b.len() {
            Ordering::Less
        } else {
            Ordering::Greater
        },
    decreases d,
{
    if d > 0 {
        assert(a[0] == b[0]);
        assert forall|j: int| 0 <= j < d - 1 implies a.drop_first()[j] == b.drop_first()[j] by {
            assert(a[j + 1] == b[j + 1]);
        }
        lemma_bytes_order_at(a.drop_first(), b.drop_first(), d - 1);
    }
}

fn bytes_order_exec(a: &[u8], b: &[u8]) -> (r: Ordering)
    ensures
        r == bytes_order(a@, b@),
{
    let d = first_difference(a, b);
    proof {
        let di = position_of_index(d);
        lemma_bytes_order_at(a@, b@, di);
    }
    if d < a.len() && d < b.len() {
        if a[d] < b[d] {
            Ordering::Less
        } else {
            Ordering::Greater
        }
    } else if a.len() == b.len() {
        Ordering::Equal
    } else if a.len() < b.len() {
        Ordering::Less
    } else {
        Ordering::Greater
    }
}

/// Keys order parameters before parts; two keys of one kind order by their names, byte by
/// byte in UTF-8.
impl PartialOrd for Key {
    fn partial_cmp(&self, other: &Self) -> (r: Option<Ordering>) {
        match (self, other) {
            (Key::Param(_), Key::Part(_)) => Some(Ordering::Less),
            (Key::Part(_), Key::Param(_)) => Some(Ordering::Greater),
            (Key::Param(a), Key::Param(b)) => Some(bytes_order_exec(a.as_str().as_bytes(), b.as_str().as_bytes())),
            (Key::Part(a), Key::Part(b)) => Some(bytes_order_exec(a.as_str().as_bytes(), b.as_str().as_bytes())),
        }
    }
}

impl PartialOrdSpecImpl for Key {
    open spec fn obeys_partial_cmp_spec() -> bool {
        true
    }

    open spec fn partial_cmp_spec(&self, other: &Self) -> Option<Ordering> {
        match (self, other) {
            (Key::Param(_), Key::Part(_)) => Some(Ordering::Less),
            (Key::Part(_), Key::Param(_)) => Some(Ordering::Greater),
            (Key::Param(a), Key::Param(b)) => Some(bytes_order(vstd::utf8::encode_utf8(a@), vstd::utf8::encode_utf8(b@))),
            (Key::Part(a), Key::Part(b)) => Some(bytes_order(vstd::utf8::encode_utf8(a@), vstd::utf8::encode_utf8(b@))),
        }
    }
}

/// Every parameter key orders before every part key, whatever their names.
pub proof fn lemma_param_keys_first(a: Key, b: Key)
    requires
        a is Param,
        b is Part,
    ensures
        PartialOrdSpec::partial_cmp_spec(&a, &b) == Some(Ordering::Less),
        PartialOrdSpec::partial_cmp_spec(&b, &a) == Some(Ordering::Greater),
{
}

} // verus!
