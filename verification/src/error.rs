use vstd::prelude::*;

verus! {

/// Why a model file was rejected.
#[derive(Debug, Clone, PartialEq, Eq)]
pub enum ParseError {
    /// A stored value is not one of the values its field admits.
    InvalidValue(String),
    /// An object failed one of the consistency checks of its class:
    /// the class name, the object's index and the check that failed.
    ValidationError(&'static str, u32, String),
    /// A primitive array holds a number of scalars that is not a multiple of its stride:
    /// the array's name, the scalar count and the stride.
    UnalignedItemCount(&'static str, usize, usize),
    /// An index field points past the end of the array it refers to:
    /// the field's name and the index of the offending object.
    InvalidReference(&'static str, usize),
}

/// The character of digit `d` in bases up to sixteen: `0`-`9`, then lowercase `a`-`f`.
pub open spec fn digit_char(d: nat) -> char {
    if d < 10 {
        (48 + d) as char
    } else {
        (87 + d) as char
    }
}

/// The digits of `v` in base `b`, most significant first, without leading zeros
/// (a single `0` for zero).
pub open spec fn digits(v: nat, b: nat) -> Seq<char>
    recommends
        2 <= b <= 16,
    decreases v,
{
    if b < 2 || v < b {
        seq![digit_char(v)]
    } else {
        proof {
            assert(v / b < v) by (nonlinear_arith)
                requires
                    b >= 2,
                    v >= b,
            ;
        }
        digits(v / b, b).push(digit_char(v % b))
    }
}

/// The text that `{:?}` gives for an unsigned integer: its decimal digits.
pub open spec fn debug_text(v: u32) -> Seq<char> {
    digits(v as nat, 10)
}

/// The text of `BlendConfig = {:#x}` for a raw blend configuration word: the word in
/// lowercase hexadecimal behind `0x`.
pub open spec fn blend_config_text(v: u32) -> Seq<char> {
    "BlendConfig = 0x"@ + digits(v as nat, 16)
}

/// The text of `Unexpected Bool32 value {0}` for a raw boolean word, in decimal.
pub open spec fn bool32_text(v: u32) -> Seq<char> {
    "Unexpected Bool32 value "@ + digits(v as nat, 10)
}

/// Renders `v` with `format!("{:?}", v)`: std prints an unsigned integer in decimal.
#[verifier::external_body]
pub(crate) fn fmt_debug(v: u32) -> (r: String)
    ensures
        r@ == debug_text(v),
{
    format!("{:?}", v)
}

/// Renders `v` with `format!("BlendConfig = {:#x}", v)`: std's `{:#x}` prints lowercase
/// hexadecimal digits behind `0x`.
#[verifier::external_body]
pub(crate) fn fmt_blend_config(v: u32) -> (r: String)
    ensures
        r@ == blend_config_text(v),
{
    format!("BlendConfig = {:#x}", v)
}

/// Renders `v` with `format!("Unexpected Bool32 value {0}", v)`: std prints an unsigned
/// integer in decimal.
#[verifier::external_body]
pub(crate) fn fmt_bool32(v: u32) -> (r: String)
    ensures
        r@ == bool32_text(v),
{
    format!("Unexpected Bool32 value {0}", v)
}

} // verus!
