use vstd::prelude::*;
use crate::error::{ParseError, debug_text, blend_config_text, fmt_debug, fmt_blend_config};

verus! {

/// The two kinds of deformer.
#[derive(Debug, Copy, Clone, PartialEq, Eq, Structural)]
pub enum DeformerType {
    Warp,
    Rotation,
}

impl DeformerType {
    /// The value that encodes this deformer type in a model file.
    pub open spec fn spec_repr(self) -> u32 {
        match self {
            DeformerType::Warp => 0,
            DeformerType::Rotation => 1,
        }
    }

    /// The deformer type encoded by `raw`, if any.
    pub open spec fn spec_from_repr(raw: u32) -> Option<DeformerType> {
        if raw == 0 {
            Some(DeformerType::Warp)
        } else if raw == 1 {
            Some(DeformerType::Rotation)
        } else {
            None
        }
    }

    pub fn from_repr(raw: u32) -> (r: Option<DeformerType>)
        ensures
            r == Self::spec_from_repr(raw),
    {
        match raw {
            0 => Some(DeformerType::Warp),
            1 => Some(DeformerType::Rotation),
            _ => None,
        }
    }
}

impl TryFrom<u32> for DeformerType {
    type Error = ParseError;

    fn try_from(raw: u32) -> (r: Result<Self, ParseError>)
        ensures
            r matches Ok(d) ==> Self::spec_from_repr(raw) == Some(d),
            r is Err <==> Self::spec_from_repr(raw) is None,
            r matches Err(e) ==> e matches ParseError::InvalidValue(s) && s@ == debug_text(raw),
    {
        match DeformerType::from_repr(raw) {
            Some(d) => Ok(d),
            None => Err(ParseError::InvalidValue(fmt_debug(raw))),
        }
    }
}

impl vstd::std_specs::convert::TryFromSpecImpl<u32> for DeformerType {
    open spec fn obeys_try_from_spec() -> bool {
        false
    }

    open spec fn try_from_spec(raw: u32) -> Result<Self, ParseError> {
        match Self::spec_from_repr(raw) {
            Some(d) => Ok(d),
            None => Err(ParseError::InvalidValue(choose|s: String| s@ == debug_text(raw))),
        }
    }
}

/// The three basic blend modes.
#[derive(Copy, Clone, Debug, Ord, PartialOrd, PartialEq, Eq, Hash, Structural)]
pub enum BlendMode {
    Normal,
    Add,
    Multiply,
}

impl BlendMode {
    pub open spec fn spec_repr(self) -> u8 {
        match self {
            BlendMode::Normal => 0,
            BlendMode::Add => 1,
            BlendMode::Multiply => 2,
        }
    }

    pub open spec fn spec_from_repr(raw: u8) -> Option<BlendMode> {
        if raw == 0 {
            Some(BlendMode::Normal)
        } else if raw == 1 {
            Some(BlendMode::Add)
        } else if raw == 2 {
            Some(BlendMode::Multiply)
        } else {
            None
        }
    }

    pub fn from_repr(raw: u8) -> (r: Option<BlendMode>)
        ensures
            r == Self::spec_from_repr(raw),
    {
        match raw {
            0 => Some(BlendMode::Normal),
            1 => Some(BlendMode::Add),
            2 => Some(BlendMode::Multiply),
            _ => None,
        }
    }
}

/// Render configuration bit: invert the clipping mask.
pub const RENDER_INVERT_MASK: u8 = 0x8;

/// Render configuration bit: draw both faces.
pub const RENDER_DOUBLE_SIDED: u8 = 0x4;

/// How the colors of a layer combine with what lies below it.
#[derive(Copy, Clone, Debug, Ord, PartialOrd, PartialEq, Eq, Hash, Structural)]
pub enum ColorBlendMode {
    Normal,
    PremultAdd,
    PremultMultiply,
    Add,
    AddGlow,
    Darken,
    Multiply,
    ColorBurn,
    LinearBurn,
    Lighten,
    Screen,
    ColorDodge,
    Overlay,
    SoftLight,
    HardLight,
    LinearLight,
    Hue,
    Color,
}

impl ColorBlendMode {
    pub open spec fn spec_repr(self) -> u8 {
        match self {
            ColorBlendMode::Normal => 0,
            ColorBlendMode::PremultAdd => 1,
            ColorBlendMode::PremultMultiply => 2,
            ColorBlendMode::Add => 3,
            ColorBlendMode::AddGlow => 4,
            ColorBlendMode::Darken => 5,
            ColorBlendMode::Multiply => 6,
            ColorBlendMode::ColorBurn => 7,
            ColorBlendMode::LinearBurn => 8,
            ColorBlendMode::Lighten => 9,
            ColorBlendMode::Screen => 10,
            ColorBlendMode::ColorDodge => 11,
            ColorBlendMode::Overlay => 12,
            ColorBlendMode::SoftLight => 13,
            ColorBlendMode::HardLight => 14,
            ColorBlendMode::LinearLight => 15,
            ColorBlendMode::Hue => 16,
            ColorBlendMode::Color => 17,
        }
    }

    pub open spec fn spec_from_repr(raw: u8) -> Option<ColorBlendMode> {
        if raw <= 17 {
            Some(choose|m: ColorBlendMode| m.spec_repr() == raw)
        } else {
            None
        }
    }

    pub fn repr(&self) -> (r: u8)
        ensures
            r == self.spec_repr(),
    {
        match self {
            ColorBlendMode::Normal => 0,
            ColorBlendMode::PremultAdd => 1,
            ColorBlendMode::PremultMultiply => 2,
            ColorBlendMode::Add => 3,
            ColorBlendMode::AddGlow => 4,
            ColorBlendMode::Darken => 5,
            ColorBlendMode::Multiply => 6,
            ColorBlendMode::ColorBurn => 7,
            ColorBlendMode::LinearBurn => 8,
            ColorBlendMode::Lighten => 9,
            ColorBlendMode::Screen => 10,
            ColorBlendMode::ColorDodge => 11,
            ColorBlendMode::Overlay => 12,
            ColorBlendMode::SoftLight => 13,
            ColorBlendMode::HardLight => 14,
            ColorBlendMode::LinearLight => 15,
            ColorBlendMode::Hue => 16,
            ColorBlendMode::Color => 17,
        }
    }

    pub fn from_repr(raw: u8) -> (r: Option<ColorBlendMode>)
        ensures
            r is Some <==> raw <= 17,
            r matches Some(m) ==> m.spec_repr() == raw,
    {
        match raw {
            0 => Some(ColorBlendMode::Normal),
            1 => Some(ColorBlendMode::PremultAdd),
            2 => Some(ColorBlendMode::PremultMultiply),
            3 => Some(ColorBlendMode::Add),
            4 => Some(ColorBlendMode::AddGlow),
            5 => Some(ColorBlendMode::Darken),
            6 => Some(ColorBlendMode::Multiply),
            7 => Some(ColorBlendMode::ColorBurn),
            8 => Some(ColorBlendMode::LinearBurn),
            9 => Some(ColorBlendMode::Lighten),
            10 => Some(ColorBlendMode::Screen),
            11 => Some(ColorBlendMode::ColorDodge),
            12 => Some(ColorBlendMode::Overlay),
            13 => Some(ColorBlendMode::SoftLight),
            14 => Some(ColorBlendMode::HardLight),
            15 => Some(ColorBlendMode::LinearLight),
            16 => Some(ColorBlendMode::Hue),
            17 => Some(ColorBlendMode::Color),
            _ => None,
        }
    }
}

impl Default for ColorBlendMode {
    fn default() -> (r: Self)
        ensures
            r == ColorBlendMode::Normal,
    {
        ColorBlendMode::Normal
    }
}

impl TryFrom<u8> for ColorBlendMode {
    type Error = ParseError;

    fn try_from(raw: u8) -> (r: Result<Self, ParseError>)
        ensures
            r is Ok <==> raw <= 17,
            r matches Ok(m) ==> m.spec_repr() == raw,
            r matches Err(e) ==> e matches ParseError::InvalidValue(s) && s@ == debug_text(raw as u32),
    {
        match ColorBlendMode::from_repr(raw) {
            Some(m) => Ok(m),
            None => Err(ParseError::InvalidValue(fmt_debug(raw as u32))),
        }
    }
}

impl vstd::std_specs::convert::TryFromSpecImpl<u8> for ColorBlendMode {
    open spec fn obeys_try_from_spec() -> bool {
        false
    }

    open spec fn try_from_spec(raw: u8) -> Result<Self, ParseError> {
        match Self::spec_from_repr(raw) {
            Some(m) => Ok(m),
            None => Err(ParseError::InvalidValue(choose|s: String| s@ == debug_text(raw as u32))),
        }
    }
}

/// How the coverage of a layer combines with what lies below it.
#[derive(Copy, Clone, Debug, Ord, PartialOrd, PartialEq, Eq, Hash, Structural)]
pub enum AlphaBlendMode {
    Over,
    Atop,
    Out,
    Conjoint,
    Disjoint,
}

impl AlphaBlendMode {
    pub open spec fn spec_repr(self) -> u8 {
        match self {
            AlphaBlendMode::Over => 0,
            AlphaBlendMode::Atop => 1,
            AlphaBlendMode::Out => 2,
            AlphaBlendMode::Conjoint => 3,
            AlphaBlendMode::Disjoint => 4,
        }
    }

    pub open spec fn spec_from_repr(raw: u8) -> Option<AlphaBlendMode> {
        if raw <= 4 {
            Some(choose|m: AlphaBlendMode| m.spec_repr() == raw)
        } else {
            None
        }
    }

    pub fn repr(&self) -> (r: u8)
        ensures
            r == self.spec_repr(),
    {
        match self {
            AlphaBlendMode::Over => 0,
            AlphaBlendMode::Atop => 1,
            AlphaBlendMode::Out => 2,
            AlphaBlendMode::Conjoint => 3,
            AlphaBlendMode::Disjoint => 4,
        }
    }

    pub fn from_repr(raw: u8) -> (r: Option<AlphaBlendMode>)
        ensures
            r is Some <==> raw <= 4,
            r matches Some(m) ==> m.spec_repr() == raw,
    {
        match raw {
            0 => Some(AlphaBlendMode::Over),
            1 => Some(AlphaBlendMode::Atop),
            2 => Some(AlphaBlendMode::Out),
            3 => Some(AlphaBlendMode::Conjoint),
            4 => Some(AlphaBlendMode::Disjoint),
            _ => None,
        }
    }
}

impl Default for AlphaBlendMode {
    fn default() -> (r: Self)
        ensures
            r == AlphaBlendMode::Over,
    {
        AlphaBlendMode::Over
    }
}

impl TryFrom<u8> for AlphaBlendMode {
    type Error = ParseError;

    fn try_from(raw: u8) -> (r: Result<Self, ParseError>)
        ensures
            r is Ok <==> raw <= 4,
            r matches Ok(m) ==> m.spec_repr() == raw,
            r matches Err(e) ==> e matches ParseError::InvalidValue(s) && s@ == debug_text(raw as u32),
    {
        match AlphaBlendMode::from_repr(raw) {
            Some(m) => Ok(m),
            None => Err(ParseError::InvalidValue(fmt_debug(raw as u32))),
        }
    }
}

impl vstd::std_specs::convert::TryFromSpecImpl<u8> for AlphaBlendMode {
    open spec fn obeys_try_from_spec() -> bool {
        false
    }

    open spec fn try_from_spec(raw: u8) -> Result<Self, ParseError> {
        match Self::spec_from_repr(raw) {
            Some(m) => Ok(m),
            None => Err(ParseError::InvalidValue(choose|s: String| s@ == debug_text(raw as u32))),
        }
    }
}

/// A color blend mode together with an alpha blend mode.
#[derive(Copy, Clone, Debug, Ord, PartialOrd, PartialEq, Eq, Hash, Structural)]
pub struct BlendConfig {
    pub color: ColorBlendMode,
    pub alpha: AlphaBlendMode,
    pub pad: u16,
}

impl Default for BlendConfig {
    fn default() -> (r: Self)
        ensures
            r.color == ColorBlendMode::Normal,
            r.alpha == AlphaBlendMode::Over,
            r.pad == 0,
    {
        BlendConfig { color: ColorBlendMode::Normal, alpha: AlphaBlendMode::Over, pad: 0 }
    }
}

impl BlendConfig {
    /// True when the configuration needs more than the three basic blend modes.
    pub open spec fn spec_is_advanced(self) -> bool {
        match self.color {
            ColorBlendMode::Normal => self.alpha != AlphaBlendMode::Over,
            ColorBlendMode::PremultAdd => false,
            ColorBlendMode::PremultMultiply => false,
            _ => true,
        }
    }

    /// The basic blend mode that this configuration amounts to, if it is not advanced.
    pub open spec fn spec_simple(self) -> Option<BlendMode> {
        if self.spec_is_advanced() {
            None
        } else {
            match self.color {
                ColorBlendMode::PremultAdd => Some(BlendMode::Add),
                ColorBlendMode::PremultMultiply => Some(BlendMode::Multiply),
                _ => Some(BlendMode::Normal),
            }
        }
    }

    /// A configuration as the file decoder leaves it: no padding, and an alpha mode of `Over`
    /// wherever the alpha mode is ignored.
    pub open spec fn normalized(self) -> bool {
        &&& self.pad == 0
        &&& !self.spec_is_advanced() ==> self.alpha == AlphaBlendMode::Over
    }

    /// The word that encodes this configuration in a model file.
    pub open spec fn spec_encode(self) -> u32 {
        (self.color.spec_repr() as u32) | ((self.alpha.spec_repr() as u32) << 8u32)
    }

    /// The configuration that the decoder makes of `value`, if it accepts it.
    pub open spec fn spec_decode(value: u32) -> Option<BlendConfig> {
        let c = (value & 0xffu32) as u8;
        let a = ((value >> 8u32) & 0xffu32) as u8;
        if (value >> 16u32) != 0 || c > 17 || a > 4 {
            None
        } else {
            let color = ColorBlendMode::spec_from_repr(c).unwrap();
            let raw = BlendConfig { color, alpha: AlphaBlendMode::spec_from_repr(a).unwrap(), pad: 0 };
            if raw.spec_is_advanced() {
                Some(raw)
            } else {
                Some(BlendConfig { color, alpha: AlphaBlendMode::Over, pad: 0 })
            }
        }
    }

    pub fn is_advanced(&self) -> (r: bool)
        ensures
            r == self.spec_is_advanced(),
    {
        match self.color {
            ColorBlendMode::Normal => self.alpha != AlphaBlendMode::Over,
            ColorBlendMode::PremultAdd => false,
            ColorBlendMode::PremultMultiply => false,
            _ => true,
        }
    }

    pub fn simple(&self) -> (r: Option<BlendMode>)
        ensures
            r == self.spec_simple(),
            r matches Some(m) ==> m.spec_repr() == self.color.spec_repr(),
    {
        if self.is_advanced() {
            None
        } else {
            let m = BlendMode::from_repr(self.color.repr());
            Some(m.unwrap())
        }
    }
}

impl TryFrom<u32> for BlendConfig {
    type Error = ParseError;

    fn try_from(value: u32) -> (r: Result<Self, ParseError>)
        ensures
            r is Ok <==> Self::spec_decode(value) is Some,
            r matches Ok(c) ==> Self::spec_decode(value) == Some(c),
            (value >> 16u32) != 0 ==> (r matches Err(e) && e matches ParseError::InvalidValue(s)
                && s@ == blend_config_text(value)),
            (value >> 16u32) == 0 && (value & 0xffu32) > 17 ==> (r matches Err(e)
                && e matches ParseError::InvalidValue(s) && s@ == debug_text(value & 0xffu32)),
            (value >> 16u32) == 0 && (value & 0xffu32) <= 17 && ((value >> 8u32) & 0xffu32) > 4
                ==> (r matches Err(e) && e matches ParseError::InvalidValue(s)
                && s@ == debug_text((value >> 8u32) & 0xffu32)),
    {
        if (value >> 16) != 0 {
            return Err(ParseError::InvalidValue(fmt_blend_config(value)));
        }
        let cb = #[verifier::truncate] ((value & 0xff) as u8);
        let ab = #[verifier::truncate] (((value >> 8) & 0xff) as u8);
        assert(cb as u32 == value & 0xffu32) by (bit_vector)
            requires cb == (value & 0xffu32) as u8;
        assert(ab as u32 == (value >> 8u32) & 0xffu32) by (bit_vector)
            requires ab == ((value >> 8u32) & 0xffu32) as u8;
        let color = match ColorBlendMode::try_from(cb) {
            Ok(c) => c,
            Err(e) => return Err(e),
        };
        let alpha = match AlphaBlendMode::try_from(ab) {
            Ok(a) => a,
            Err(e) => return Err(e),
        };
        let mut ret = BlendConfig { color, alpha, pad: 0 };
        if !ret.is_advanced() {
            ret.alpha = AlphaBlendMode::Over;
        }
        Ok(ret)
    }
}

impl vstd::std_specs::convert::TryFromSpecImpl<u32> for BlendConfig {
    open spec fn obeys_try_from_spec() -> bool {
        false
    }

    open spec fn try_from_spec(value: u32) -> Result<Self, ParseError> {
        match Self::spec_decode(value) {
            Some(c) => Ok(c),
            None => Err(ParseError::InvalidValue(choose|s: String| s@ == blend_config_text(value))),
        }
    }
}

/// Decoding a word yields a normalized configuration, and a normalized configuration
/// survives encoding followed by decoding unchanged.
pub proof fn lemma_blend_config_roundtrip(cfg: BlendConfig, value: u32)
    ensures
        BlendConfig::spec_decode(value) matches Some(c) ==> c.normalized(),
        cfg.normalized() ==> BlendConfig::spec_decode(cfg.spec_encode()) == Some(cfg),
{
    let c = cfg.color.spec_repr() as u32;
    let a = cfg.alpha.spec_repr() as u32;
    let w = c | (a << 8u32);
    assert(c <= 17 && a <= 4 ==> (w >> 16u32) == 0 && (w & 0xffu32) == c && ((w >> 8u32) & 0xffu32) == a)
        by (bit_vector)
        requires w == c | (a << 8u32);
    assert(cfg.color.spec_repr() <= 17);
    assert(cfg.alpha.spec_repr() <= 4);
    let cb = (w & 0xffu32) as u8;
    let ab = ((w >> 8u32) & 0xffu32) as u8;
    assert(ColorBlendMode::spec_from_repr(cb).unwrap() == cfg.color);
    assert(AlphaBlendMode::spec_from_repr(ab).unwrap() == cfg.alpha);
}

/// How a parameter value snaps to keypoints.
#[derive(Debug, Copy, Clone, PartialEq, Eq, Structural)]
pub enum ParamSnapType {
    IntegerFloor,
    IntegerSnap,
    Normal,
}

impl ParamSnapType {
    pub open spec fn spec_repr(self) -> u32 {
        match self {
            ParamSnapType::IntegerFloor => 0,
            ParamSnapType::IntegerSnap => 1,
            ParamSnapType::Normal => 3,
        }
    }

    pub open spec fn spec_from_repr(raw: u32) -> Option<ParamSnapType> {
        if raw == 0 {
            Some(ParamSnapType::IntegerFloor)
        } else if raw == 1 {
            Some(ParamSnapType::IntegerSnap)
        } else if raw == 3 {
            Some(ParamSnapType::Normal)
        } else {
            None
        }
    }

    pub fn from_repr(raw: u32) -> (r: Option<ParamSnapType>)
        ensures
            r == Self::spec_from_repr(raw),
    {
        match raw {
            0 => Some(ParamSnapType::IntegerFloor),
            1 => Some(ParamSnapType::IntegerSnap),
            3 => Some(ParamSnapType::Normal),
            _ => None,
        }
    }
}

impl TryFrom<u32> for ParamSnapType {
    type Error = ParseError;

    fn try_from(raw: u32) -> (r: Result<Self, ParseError>)
        ensures
            r matches Ok(d) ==> Self::spec_from_repr(raw) == Some(d),
            r is Err <==> Self::spec_from_repr(raw) is None,
            r matches Err(e) ==> e matches ParseError::InvalidValue(s) && s@ == debug_text(raw),
    {
        match ParamSnapType::from_repr(raw) {
            Some(d) => Ok(d),
            None => Err(ParseError::InvalidValue(fmt_debug(raw))),
        }
    }
}

impl vstd::std_specs::convert::TryFromSpecImpl<u32> for ParamSnapType {
    open spec fn obeys_try_from_spec() -> bool {
        false
    }

    open spec fn try_from_spec(raw: u32) -> Result<Self, ParseError> {
        match Self::spec_from_repr(raw) {
            Some(d) => Ok(d),
            None => Err(ParseError::InvalidValue(choose|s: String| s@ == debug_text(raw))),
        }
    }
}

/// What a draw item refers to.
#[derive(Debug, Copy, Clone, PartialEq, Eq, Structural)]
pub enum DrawItemType {
    ArtMesh,
    Part,
}

impl DrawItemType {
    pub open spec fn spec_repr(self) -> u32 {
        match self {
            DrawItemType::ArtMesh => 0,
            DrawItemType::Part => 1,
        }
    }

    pub open spec fn spec_from_repr(raw: u32) -> Option<DrawItemType> {
        if raw == 0 {
            Some(DrawItemType::ArtMesh)
        } else if raw == 1 {
            Some(DrawItemType::Part)
        } else {
            None
        }
    }

    pub fn from_repr(raw: u32) -> (r: Option<DrawItemType>)
        ensures
            r == Self::spec_from_repr(raw),
    {
        match raw {
            0 => Some(DrawItemType::ArtMesh),
            1 => Some(DrawItemType::Part),
            _ => None,
        }
    }
}

impl TryFrom<u32> for DrawItemType {
    type Error = ParseError;

    fn try_from(raw: u32) -> (r: Result<Self, ParseError>)
        ensures
            r matches Ok(d) ==> Self::spec_from_repr(raw) == Some(d),
            r is Err <==> Self::spec_from_repr(raw) is None,
            r matches Err(e) ==> e matches ParseError::InvalidValue(s) && s@ == debug_text(raw),
    {
        match DrawItemType::from_repr(raw) {
            Some(d) => Ok(d),
            None => Err(ParseError::InvalidValue(fmt_debug(raw))),
        }
    }
}

impl vstd::std_specs::convert::TryFromSpecImpl<u32> for DrawItemType {
    open spec fn obeys_try_from_spec() -> bool {
        false
    }

    open spec fn try_from_spec(raw: u32) -> Result<Self, ParseError> {
        match Self::spec_from_repr(raw) {
            Some(d) => Ok(d),
            None => Err(ParseError::InvalidValue(choose|s: String| s@ == debug_text(raw))),
        }
    }
}

} // verus!
