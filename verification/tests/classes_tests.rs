use ayagami::classes::{
    AlphaBlendMode, BlendConfig, BlendMode, ColorBlendMode, DeformerType, DrawItemType, ParamSnapType,
};
use ayagami::error::ParseError;

#[test]
fn deformer_type_from_word() {
    assert_eq!(DeformerType::try_from(0u32).unwrap(), DeformerType::Warp);
    assert_eq!(DeformerType::try_from(1u32).unwrap(), DeformerType::Rotation);
    assert_eq!(DeformerType::try_from(2u32), Err(ParseError::InvalidValue("2".to_string())));
}

#[test]
fn param_snap_type_skips_two() {
    assert_eq!(ParamSnapType::try_from(0u32).unwrap(), ParamSnapType::IntegerFloor);
    assert_eq!(ParamSnapType::try_from(1u32).unwrap(), ParamSnapType::IntegerSnap);
    assert_eq!(ParamSnapType::try_from(2u32), Err(ParseError::InvalidValue("2".to_string())));
    assert_eq!(ParamSnapType::try_from(3u32).unwrap(), ParamSnapType::Normal);
}

#[test]
fn draw_item_type_from_word() {
    assert_eq!(DrawItemType::try_from(0u32).unwrap(), DrawItemType::ArtMesh);
    assert_eq!(DrawItemType::try_from(1u32).unwrap(), DrawItemType::Part);
    assert!(DrawItemType::try_from(7u32).is_err());
}

#[test]
fn color_and_alpha_modes_from_bytes() {
    assert_eq!(ColorBlendMode::try_from(0u8).unwrap(), ColorBlendMode::Normal);
    assert_eq!(ColorBlendMode::try_from(17u8).unwrap(), ColorBlendMode::Color);
    assert_eq!(ColorBlendMode::try_from(18u8), Err(ParseError::InvalidValue("18".to_string())));
    assert_eq!(AlphaBlendMode::try_from(4u8).unwrap(), AlphaBlendMode::Disjoint);
    assert_eq!(AlphaBlendMode::try_from(5u8), Err(ParseError::InvalidValue("5".to_string())));
    assert_eq!(BlendMode::from_repr(2), Some(BlendMode::Multiply));
    assert_eq!(BlendMode::from_repr(3), None);
}

#[test]
fn blend_config_decodes_color_then_alpha() {
    let c = BlendConfig::try_from(0x0203u32).unwrap();
    assert_eq!(c.color, ColorBlendMode::Add);
    assert_eq!(c.alpha, AlphaBlendMode::Out);
    assert!(c.is_advanced());
    assert_eq!(c.simple(), None);
}

#[test]
fn blend_config_normalizes_ignored_alpha() {
    let c = BlendConfig::try_from(0x0301u32).unwrap();
    assert_eq!(c.color, ColorBlendMode::PremultAdd);
    assert_eq!(c.alpha, AlphaBlendMode::Over);
    assert!(!c.is_advanced());
    assert_eq!(c.simple(), Some(BlendMode::Add));
    let m = BlendConfig::try_from(0x0002u32).unwrap();
    assert_eq!(m.simple(), Some(BlendMode::Multiply));
}

#[test]
fn blend_config_normal_with_other_alpha_is_advanced() {
    let c = BlendConfig::try_from(0x0100u32).unwrap();
    assert_eq!(c.color, ColorBlendMode::Normal);
    assert_eq!(c.alpha, AlphaBlendMode::Atop);
    assert!(c.is_advanced());
    assert_eq!(c.simple(), None);
    let d = BlendConfig::default();
    assert!(!d.is_advanced());
    assert_eq!(d.simple(), Some(BlendMode::Normal));
}

#[test]
fn blend_config_rejects_high_bits_and_unknown_modes() {
    assert_eq!(
        BlendConfig::try_from(0x1_0000u32),
        Err(ParseError::InvalidValue("BlendConfig = 0x10000".to_string()))
    );
    assert_eq!(BlendConfig::try_from(0x0012u32), Err(ParseError::InvalidValue("18".to_string())));
    assert_eq!(BlendConfig::try_from(0x0500u32), Err(ParseError::InvalidValue("5".to_string())));
}
