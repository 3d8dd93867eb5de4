use vstd::prelude::*;

verus! {

/// File format version of a model file.
#[derive(Debug, Copy, Clone, PartialEq, Eq, Structural)]
pub enum Version {
    V3_0,
    V3_3,
    V4_0,
    V4_2,
    V5_0,
    V5_3,
}

impl Version {
    /// The numeric tag that identifies this version in a model file.
    pub open spec fn spec_repr(self) -> u8 {
        match self {
            Version::V3_0 => 1,
            Version::V3_3 => 2,
            Version::V4_0 => 3,
            Version::V4_2 => 4,
            Version::V5_0 => 5,
            Version::V5_3 => 6,
        }
    }

    /// Looks a version up by its numeric tag.
    pub fn from_repr(raw: u8) -> (r: Option<Version>)
        ensures
            r matches Some(v) ==> v.spec_repr() == raw,
            r is None <==> !(1 <= raw <= 6),
    {
        match raw {
            1 => Some(Version::V3_0),
            2 => Some(Version::V3_3),
            3 => Some(Version::V4_0),
            4 => Some(Version::V4_2),
            5 => Some(Version::V5_0),
            6 => Some(Version::V5_3),
            _ => None,
        }
    }
}

} // verus!

verus! {

/// A group of fields and classes that the decoder reads together; the groups of a file of
/// a given version are those up to the version's own group.
#[derive(Debug, Copy, Clone, PartialEq, Eq, Structural)]
pub enum Pass {
    Base,
    V3_0,
    V3_3,
    V4_0,
    V4_2A,
    V4_2B,
    V4_2,
    V5_0,
    V5_3A,
    V5_3,
    Internal,
}

/// Number of passes.
pub const NUM_PASSES: usize = 11;

impl Pass {
    /// The position of this pass in decoding order.
    pub open spec fn spec_index(self) -> nat {
        match self {
            Pass::Base => 0,
            Pass::V3_0 => 1,
            Pass::V3_3 => 2,
            Pass::V4_0 => 3,
            Pass::V4_2A => 4,
            Pass::V4_2B => 5,
            Pass::V4_2 => 6,
            Pass::V5_0 => 7,
            Pass::V5_3A => 8,
            Pass::V5_3 => 9,
            Pass::Internal => 10,
        }
    }

    pub fn index(&self) -> (r: usize)
        ensures
            r == self.spec_index(),
            r < NUM_PASSES,
    {
        match self {
            Pass::Base => 0,
            Pass::V3_0 => 1,
            Pass::V3_3 => 2,
            Pass::V4_0 => 3,
            Pass::V4_2A => 4,
            Pass::V4_2B => 5,
            Pass::V4_2 => 6,
            Pass::V5_0 => 7,
            Pass::V5_3A => 8,
            Pass::V5_3 => 9,
            Pass::Internal => 10,
        }
    }

    /// The pass at a position in decoding order.
    pub open spec fn spec_at(i: nat) -> Pass {
        if i == 0 { Pass::Base }
        else if i == 1 { Pass::V3_0 }
        else if i == 2 { Pass::V3_3 }
        else if i == 3 { Pass::V4_0 }
        else if i == 4 { Pass::V4_2A }
        else if i == 5 { Pass::V4_2B }
        else if i == 6 { Pass::V4_2 }
        else if i == 7 { Pass::V5_0 }
        else if i == 8 { Pass::V5_3A }
        else if i == 9 { Pass::V5_3 }
        else { Pass::Internal }
    }

    pub fn at(i: usize) -> (r: Pass)
        requires
            i < NUM_PASSES,
        ensures
            r == Pass::spec_at(i as nat),
            r.spec_index() == i,
    {
        if i == 0 { Pass::Base }
        else if i == 1 { Pass::V3_0 }
        else if i == 2 { Pass::V3_3 }
        else if i == 3 { Pass::V4_0 }
        else if i == 4 { Pass::V4_2A }
        else if i == 5 { Pass::V4_2B }
        else if i == 6 { Pass::V4_2 }
        else if i == 7 { Pass::V5_0 }
        else if i == 8 { Pass::V5_3A }
        else if i == 9 { Pass::V5_3 }
        else { Pass::Internal }
    }

    /// True when this pass comes no later than `other`.
    pub open spec fn spec_le(self, other: Pass) -> bool {
        self.spec_index() <= other.spec_index()
    }

    pub fn le(&self, other: &Pass) -> (r: bool)
        ensures
            r == self.spec_le(*other),
    {
        self.index() <= other.index()
    }
}

impl Version {
    /// The last pass that a file of this version holds.
    pub open spec fn spec_pass(self) -> Pass {
        match self {
            Version::V3_0 => Pass::V3_0,
            Version::V3_3 => Pass::V3_3,
            Version::V4_0 => Pass::V4_0,
            Version::V4_2 => Pass::V4_2,
            Version::V5_0 => Pass::V5_0,
            Version::V5_3 => Pass::V5_3,
        }
    }

    pub fn pass(&self) -> (r: Pass)
        ensures
            r == self.spec_pass(),
    {
        match self {
            Version::V3_0 => Pass::V3_0,
            Version::V3_3 => Pass::V3_3,
            Version::V4_0 => Pass::V4_0,
            Version::V4_2 => Pass::V4_2,
            Version::V5_0 => Pass::V5_0,
            Version::V5_3 => Pass::V5_3,
        }
    }

    /// The version as it is written for people: major and minor number.
    pub fn as_str(&self) -> (r: &'static str)
        ensures
            self.spec_text() == r@,
    {
        match self {
            Version::V3_0 => "3.0",
            Version::V3_3 => "3.3",
            Version::V4_0 => "4.0",
            Version::V4_2 => "4.2",
            Version::V5_0 => "5.0",
            Version::V5_3 => "5.3",
        }
    }

    pub open spec fn spec_text(self) -> Seq<char> {
        match self {
            Version::V3_0 => "3.0"@,
            Version::V3_3 => "3.3"@,
            Version::V4_0 => "4.0"@,
            Version::V4_2 => "4.2"@,
            Version::V5_0 => "5.0"@,
            Version::V5_3 => "5.3"@,
        }
    }

    /// True when this version comes no later than `other`.
    pub open spec fn spec_le(self, other: Version) -> bool {
        self.spec_repr() <= other.spec_repr()
    }

    pub fn repr(&self) -> (r: u8)
        ensures
            r == self.spec_repr(),
    {
        match self {
            Version::V3_0 => 1,
            Version::V3_3 => 2,
            Version::V4_0 => 3,
            Version::V4_2 => 4,
            Version::V5_0 => 5,
            Version::V5_3 => 6,
        }
    }
}

/// Later versions hold later passes: the pass of a version grows with the version.
pub proof fn lemma_version_pass_monotone(a: Version, b: Version)
    ensures
        a.spec_le(b) <==> a.spec_pass().spec_le(b.spec_pass()),
        a.spec_pass() != Pass::Base && a.spec_pass() != Pass::Internal,
{
}

} // verus!
