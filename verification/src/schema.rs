use vstd::prelude::*;
use crate::model::{ClassId, NUM_CLASSES, ParsedModel};
use crate::version::{Pass, Version, NUM_PASSES};

verus! {

/// How many of the first `n` classes a file holds from pass `p` on.
pub open spec fn classes_upto(p: Pass, n: nat) -> nat
    decreases n,
{
    if n == 0 {
        0
    } else {
        classes_upto(p, (n - 1) as nat) + if ClassId::spec_at((n - 1) as nat).spec_pass().spec_le(p) {
            1nat
        } else {
            0nat
        }
    }
}

/// How many sections the first `n` classes take in pass `p`, counting only the classes
/// that a file holds in that pass.
pub open spec fn pass_fields(p: Pass, n: nat) -> nat
    decreases n,
{
    if n == 0 {
        0
    } else {
        pass_fields(p, (n - 1) as nat) + if ClassId::spec_at((n - 1) as nat).spec_pass().spec_le(p) {
            ClassId::spec_at((n - 1) as nat).spec_num_fields(p)
        } else {
            0nat
        }
    }
}

/// How many sections the first `k` passes take, counting only passes up to `last`.
pub open spec fn fields_upto(last: Pass, k: nat) -> nat
    decreases k,
{
    if k == 0 {
        0
    } else {
        fields_upto(last, (k - 1) as nat) + if (k - 1) <= last.spec_index() {
            pass_fields(Pass::spec_at((k - 1) as nat), NUM_CLASSES as nat)
        } else {
            0nat
        }
    }
}

/// Number of classes in a file of version `ver`.
pub open spec fn spec_num_classes(ver: Version) -> nat {
    classes_upto(ver.spec_pass(), NUM_CLASSES as nat)
}

/// Number of field sections in a file of version `ver`.
pub open spec fn spec_num_fields(ver: Version) -> nat {
    fields_upto(ver.spec_pass(), NUM_PASSES as nat)
}

/// Number of sections in a file of version `ver`: the globals, the counts, and the fields.
pub open spec fn spec_num_sections(ver: Version) -> nat {
    2 + spec_num_fields(ver)
}

proof fn lemma_classes_upto_bound(p: Pass, n: nat)
    ensures
        classes_upto(p, n) <= n,
    decreases n,
{
    if n > 0 {
        lemma_classes_upto_bound(p, (n - 1) as nat);
    }
}

proof fn lemma_num_fields_bound(c: ClassId, p: Pass)
    ensures
        c.spec_num_fields(p) <= 20,
{
}

proof fn lemma_pass_fields_bound(p: Pass, n: nat)
    ensures
        pass_fields(p, n) <= 20 * n,
    decreases n,
{
    if n > 0 {
        lemma_pass_fields_bound(p, (n - 1) as nat);
        lemma_num_fields_bound(ClassId::spec_at((n - 1) as nat), p);
    }
}

proof fn lemma_fields_upto_bound(last: Pass, k: nat)
    ensures
        fields_upto(last, k) <= 20 * NUM_CLASSES * k,
    decreases k,
{
    if k > 0 {
        lemma_fields_upto_bound(last, (k - 1) as nat);
        lemma_pass_fields_bound(Pass::spec_at((k - 1) as nat), NUM_CLASSES as nat);
    }
}

fn pass_field_count(p: Pass) -> (r: usize)
    ensures
        r == pass_fields(p, NUM_CLASSES as nat),
{
    let mut count: usize = 0;
    let mut i: usize = 0;
    while i < NUM_CLASSES
        invariant
            0 <= i <= NUM_CLASSES,
            count == pass_fields(p, i as nat),
        decreases NUM_CLASSES - i,
    {
        proof {
            lemma_pass_fields_bound(p, (i + 1) as nat);
        }
        let c = ClassId::at(i);
        if c.pass().le(&p) {
            count = count + c.num_fields(p);
        }
        i = i + 1;
    }
    count
}

impl ParsedModel {
    /// Number of classes in a file of version `ver`.
    pub fn num_classes(ver: Version) -> (r: usize)
        ensures
            r == spec_num_classes(ver),
    {
        let pass = ver.pass();
        let mut count: usize = 0;
        let mut i: usize = 0;
        while i < NUM_CLASSES
            invariant
                0 <= i <= NUM_CLASSES,
                pass == ver.spec_pass(),
                count == classes_upto(pass, i as nat),
            decreases NUM_CLASSES - i,
        {
            proof {
                lemma_classes_upto_bound(pass, i as nat);
            }
            if ClassId::at(i).pass().le(&pass) {
                count = count + 1;
            }
            i = i + 1;
        }
        count
    }

    /// Number of field sections in a file of version `ver`.
    pub fn num_fields(ver: Version) -> (r: usize)
        ensures
            r == spec_num_fields(ver),
    {
        let last = ver.pass();
        let mut count: usize = 0;
        let mut i: usize = 0;
        while i < NUM_PASSES
            invariant
                0 <= i <= NUM_PASSES,
                last == ver.spec_pass(),
                count == fields_upto(last, i as nat),
            decreases NUM_PASSES - i,
        {
            let pass = Pass::at(i);
            proof {
                lemma_fields_upto_bound(last, (i + 1) as nat);
            }
            if pass.index() <= last.index() {
                count = count + pass_field_count(pass);
            }
            i = i + 1;
        }
        count
    }

    /// Number of sections in a file of version `ver`.
    pub fn num_sections(ver: Version) -> (r: usize)
        ensures
            r == spec_num_sections(ver),
    {
        proof {
            lemma_fields_upto_bound(ver.spec_pass(), NUM_PASSES as nat);
        }
        2 + Self::num_fields(ver)
    }

    /// Takes the declared object count of each class that a file holds in pass `pass`,
    /// in file order, from `counts`.
    pub fn load_counts(&mut self, pass: Pass, counts: &[u32])
        requires
            counts@.len() >= classes_upto(pass, NUM_CLASSES as nat),
        ensures
            final(self).same_columns(&*old(self)),
            forall|d: ClassId| #[trigger] final(self).count_of(d) == old(self).count_of(d),
            forall|i: nat|
                i < NUM_CLASSES ==> (if ClassId::spec_at(i).spec_pass().spec_le(pass) {
                    final(self).raw_count_of(#[trigger] ClassId::spec_at(i)) == counts@[classes_upto(pass, i) as int]
                } else {
                    final(self).raw_count_of(ClassId::spec_at(i)) == old(self).raw_count_of(ClassId::spec_at(i))
                }),
    {
        let ghost start = *self;
        let mut idx: usize = 0;
        let mut i: usize = 0;
        proof {
            lemma_class_at_injective();
        }
        while i < NUM_CLASSES
            invariant
                0 <= i <= NUM_CLASSES,
                idx == classes_upto(pass, i as nat),
                counts@.len() >= classes_upto(pass, NUM_CLASSES as nat),
                self.same_columns(&start),
                forall|d: ClassId| #[trigger] self.count_of(d) == start.count_of(d),
                forall|a: nat, b: nat| a < NUM_CLASSES && b < NUM_CLASSES && a != b ==>
                    ClassId::spec_at(a) != ClassId::spec_at(b),
                forall|j: nat|
                    j < NUM_CLASSES ==> (if j < i && ClassId::spec_at(j).spec_pass().spec_le(pass) {
                        self.raw_count_of(#[trigger] ClassId::spec_at(j)) == counts@[classes_upto(pass, j) as int]
                    } else {
                        self.raw_count_of(ClassId::spec_at(j)) == start.raw_count_of(ClassId::spec_at(j))
                    }),
            decreases NUM_CLASSES - i,
        {
            proof {
                lemma_classes_upto_mono(pass, (i + 1) as nat, NUM_CLASSES as nat);
            }
            let c = ClassId::at(i);
            if c.pass().le(&pass) {
                self.set_raw_count(c, counts[idx] as usize);
                idx = idx + 1;
            }
            i = i + 1;
        }
    }
}

proof fn lemma_classes_upto_mono(p: Pass, a: nat, b: nat)
    requires
        a <= b,
    ensures
        classes_upto(p, a) <= classes_upto(p, b),
    decreases b,
{
    if a < b {
        lemma_classes_upto_mono(p, a, (b - 1) as nat);
    }
}

proof fn lemma_class_at_injective()
    ensures
        forall|a: nat, b: nat| a < NUM_CLASSES && b < NUM_CLASSES && a != b ==> ClassId::spec_at(a) != ClassId::spec_at(b),
{
    assert forall|a: nat, b: nat| a < NUM_CLASSES && b < NUM_CLASSES && a != b implies ClassId::spec_at(a)
        != ClassId::spec_at(b) by {
        assert(class_position(ClassId::spec_at(a)) == a);
        assert(class_position(ClassId::spec_at(b)) == b);
    }
}

/// The position of a class in file order.
pub open spec fn class_position(c: ClassId) -> nat {
    choose|i: nat| i < NUM_CLASSES && ClassId::spec_at(i) == c
}

proof fn lemma_pass_fields_base()
    ensures
        pass_fields(Pass::Base, NUM_CLASSES as nat) == 87,
{
    reveal_with_fuel(pass_fields, 21);
    assert(pass_fields(Pass::Base, 10) == 69);
    assert(pass_fields(Pass::Base, 20) == 87);
    assert(pass_fields(Pass::Base, NUM_CLASSES as nat) == 87);
}

proof fn lemma_pass_fields_v3_0()
    ensures
        pass_fields(Pass::V3_0, NUM_CLASSES as nat) == 12,
{
    reveal_with_fuel(pass_fields, 39);
}

proof fn lemma_pass_fields_v3_3()
    ensures
        pass_fields(Pass::V3_3, NUM_CLASSES as nat) == 1,
{
    reveal_with_fuel(pass_fields, 39);
}

proof fn lemma_pass_fields_v4_0()
    ensures
        pass_fields(Pass::V4_0, NUM_CLASSES as nat) == 0,
{
    reveal_with_fuel(pass_fields, 39);
}

proof fn lemma_pass_fields_v4_2a()
    ensures
        pass_fields(Pass::V4_2A, NUM_CLASSES as nat) == 3,
{
    reveal_with_fuel(pass_fields, 39);
}

proof fn lemma_pass_fields_v4_2b()
    ensures
        pass_fields(Pass::V4_2B, NUM_CLASSES as nat) == 9,
{
    reveal_with_fuel(pass_fields, 39);
}

proof fn lemma_pass_fields_v4_2()
    ensures
        pass_fields(Pass::V4_2, NUM_CLASSES as nat) == 23,
{
    reveal_with_fuel(pass_fields, 39);
}

proof fn lemma_pass_fields_v5_0()
    ensures
        pass_fields(Pass::V5_0, NUM_CLASSES as nat) == 15,
{
    reveal_with_fuel(pass_fields, 39);
}

proof fn lemma_pass_fields_v5_3a()
    ensures
        pass_fields(Pass::V5_3A, NUM_CLASSES as nat) == 8,
{
    reveal_with_fuel(pass_fields, 39);
}

proof fn lemma_pass_fields_v5_3()
    ensures
        pass_fields(Pass::V5_3, NUM_CLASSES as nat) == 7,
{
    reveal_with_fuel(pass_fields, 39);
}

proof fn lemma_classes_v3_0()
    ensures
        classes_upto(Pass::V3_0, NUM_CLASSES as nat) == 23,
{
    reveal_with_fuel(classes_upto, 39);
}

proof fn lemma_classes_v3_3()
    ensures
        classes_upto(Pass::V3_3, NUM_CLASSES as nat) == 23,
{
    reveal_with_fuel(classes_upto, 39);
}

proof fn lemma_classes_v4_0()
    ensures
        classes_upto(Pass::V4_0, NUM_CLASSES as nat) == 23,
{
    reveal_with_fuel(classes_upto, 39);
}

proof fn lemma_classes_v4_2()
    ensures
        classes_upto(Pass::V4_2, NUM_CLASSES as nat) == 32,
{
    reveal_with_fuel(classes_upto, 39);
}

proof fn lemma_classes_v5_0()
    ensures
        classes_upto(Pass::V5_0, NUM_CLASSES as nat) == 35,
{
    reveal_with_fuel(classes_upto, 39);
}

proof fn lemma_classes_v5_3()
    ensures
        classes_upto(Pass::V5_3, NUM_CLASSES as nat) == 38,
{
    reveal_with_fuel(classes_upto, 39);
}

/// The class and section counts of every version of the file format.
pub proof fn lemma_section_counts()
    ensures
        spec_num_classes(Version::V3_0) == 23,
        spec_num_classes(Version::V3_3) == 23,
        spec_num_classes(Version::V4_0) == 23,
        spec_num_classes(Version::V4_2) == 32,
        spec_num_classes(Version::V5_0) == 35,
        spec_num_classes(Version::V5_3) == 38,
        spec_num_sections(Version::V3_0) == 101,
        spec_num_sections(Version::V3_3) == 102,
        spec_num_sections(Version::V4_0) == 102,
        spec_num_sections(Version::V4_2) == 137,
        spec_num_sections(Version::V5_0) == 152,
        spec_num_sections(Version::V5_3) == 167,
{
    lemma_pass_fields_base();
    lemma_pass_fields_v3_0();
    lemma_pass_fields_v3_3();
    lemma_pass_fields_v4_0();
    lemma_pass_fields_v4_2a();
    lemma_pass_fields_v4_2b();
    lemma_pass_fields_v4_2();
    lemma_pass_fields_v5_0();
    lemma_pass_fields_v5_3a();
    lemma_pass_fields_v5_3();
    lemma_classes_v3_0();
    lemma_classes_v3_3();
    lemma_classes_v4_0();
    lemma_classes_v4_2();
    lemma_classes_v5_0();
    lemma_classes_v5_3();
    reveal_with_fuel(fields_upto, 12);
}

/// A later version holds at least as many classes and sections as an earlier one.
pub proof fn lemma_counts_grow(a: Version, b: Version)
    requires
        a.spec_le(b),
    ensures
        spec_num_classes(a) <= spec_num_classes(b),
        spec_num_sections(a) <= spec_num_sections(b),
{
    lemma_section_counts();
}

} // verus!
