use svdpi::dpi::Logic;

#[test]
fn from_bool_is_lossless() {
    assert_eq!(Logic::from(true).into_bool(), Some(true));
    assert_eq!(Logic::from(false).into_bool(), Some(false));
}

#[test]
fn from_bool_picks_definite_values() {
    assert_eq!(Logic::from(true), Logic::Value1);
    assert_eq!(Logic::from(false), Logic::Value0);
}

#[test]
fn byte_codes_round_trip() {
    for code in 0u8..=3u8 {
        assert_eq!(Logic::from_byte(code).to_byte(), code);
    }
}

#[test]
fn definite_codes_decode_to_matching_bool() {
    assert_eq!(Logic::from_byte(0).into_bool(), Some(false));
    assert_eq!(Logic::from_byte(1).into_bool(), Some(true));
    assert_eq!(Logic::from_byte(2).into_bool(), None);
    assert_eq!(Logic::from_byte(3).into_bool(), None);
}

#[test]
fn byte_encoding_is_fixed() {
    assert_eq!(Logic::Value0.to_byte(), svdpi::dpi::SV_0);
    assert_eq!(Logic::Value1.to_byte(), svdpi::dpi::SV_1);
    assert_eq!(Logic::Z.to_byte(), svdpi::dpi::SV_Z);
    assert_eq!(Logic::X.to_byte(), svdpi::dpi::SV_X);
    assert_eq!(u8::from(Logic::Z), 2);
    assert_eq!(u8::from(Logic::X), 3);
}

#[test]
fn absence_maps_to_the_selected_state() {
    assert_eq!(Logic::from_bool_x(None), Logic::X);
    assert_eq!(Logic::from_bool_z(None), Logic::Z);
    assert_eq!(Logic::from_bool_x(Some(true)), Logic::Value1);
    assert_eq!(Logic::from_bool_x(Some(false)), Logic::Value0);
    assert_eq!(Logic::from_bool_z(Some(true)), Logic::Value1);
    assert_eq!(Logic::from_bool_z(Some(false)), Logic::Value0);
}

#[test]
fn default_is_logic_zero() {
    assert_eq!(Logic::default(), Logic::Value0);
}
