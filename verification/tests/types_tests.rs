use ayagami::error::ParseError;
use ayagami::types::{Bool32, Identifier, RawF32};

fn ident(text: &[u8]) -> Identifier {
    let mut bytes = [0u8; 64];
    bytes[..text.len()].copy_from_slice(text);
    Identifier(bytes)
}

#[test]
fn bool32_accepts_zero_and_one_only() {
    assert_eq!(bool::try_from(Bool32(0)), Ok(false));
    assert_eq!(bool::try_from(Bool32(1)), Ok(true));
    assert_eq!(
        bool::try_from(Bool32(2)),
        Err(ParseError::InvalidValue("Unexpected Bool32 value 2".to_string()))
    );
}

#[test]
fn identifier_stops_at_first_nul() {
    assert_eq!(String::try_from(ident(b"ParamAngleX")).unwrap(), "ParamAngleX");
    assert_eq!(String::try_from(ident(b"ab\0cd")).unwrap(), "ab");
    assert_eq!(String::try_from(Identifier::default()).unwrap(), "");
}

#[test]
fn identifier_of_full_width_has_no_nul() {
    let s = String::try_from(Identifier([b'x'; 64])).unwrap();
    assert_eq!(s.len(), 64);
}

#[test]
fn identifier_rejects_invalid_utf8() {
    let r = String::try_from(ident(&[0xff, 0xfe]));
    assert!(matches!(r, Err(ParseError::InvalidValue(_))));
}

#[test]
fn raw_f32_finiteness() {
    assert!(RawF32(1.5f32.to_bits()).is_finite());
    assert!(RawF32(0).is_finite());
    assert!(!RawF32(f32::INFINITY.to_bits()).is_finite());
    assert!(!RawF32(f32::NEG_INFINITY.to_bits()).is_finite());
    assert!(!RawF32(f32::NAN.to_bits()).is_finite());
}
