use skybox::formats::{
    CompressedFormat, FormatSet, FEATURE_TEXTURE_COMPRESSION_ASTC_LDR,
    FEATURE_TEXTURE_COMPRESSION_BC, FEATURE_TEXTURE_COMPRESSION_ETC2,
};

#[test]
fn no_features_support_no_format() {
    let set = FormatSet::from_features(0);
    assert!(!set.contains(CompressedFormat::AstcLdr));
    assert!(!set.contains(CompressedFormat::Bc));
    assert!(!set.contains(CompressedFormat::Etc2));
}

#[test]
fn etc2_feature_supports_etc2_only() {
    let set = FormatSet::from_features(FEATURE_TEXTURE_COMPRESSION_ETC2);
    assert!(set.contains(CompressedFormat::Etc2));
    assert!(!set.contains(CompressedFormat::Bc));
    assert!(!set.contains(CompressedFormat::AstcLdr));
}

#[test]
fn bc_feature_supports_bc_only() {
    let set = FormatSet::from_features(FEATURE_TEXTURE_COMPRESSION_BC);
    assert!(set.contains(CompressedFormat::Bc));
    assert!(!set.contains(CompressedFormat::Etc2));
    assert!(!set.contains(CompressedFormat::AstcLdr));
}

#[test]
fn astc_feature_supports_astc_only() {
    let set = FormatSet::from_features(FEATURE_TEXTURE_COMPRESSION_ASTC_LDR);
    assert!(set.contains(CompressedFormat::AstcLdr));
    assert!(!set.contains(CompressedFormat::Etc2));
    assert!(!set.contains(CompressedFormat::Bc));
}

#[test]
fn all_three_features_support_all_three_formats() {
    let set = FormatSet::from_features(0x38);
    assert!(set.contains(CompressedFormat::AstcLdr));
    assert!(set.contains(CompressedFormat::Bc));
    assert!(set.contains(CompressedFormat::Etc2));
}

#[test]
fn unrelated_feature_bits_support_nothing() {
    // Bits 0 to 2 are the bits of the format set itself: a set that echoed
    // the feature bits would claim all three formats here.
    let set = FormatSet::from_features(0x7);
    assert!(!set.contains(CompressedFormat::AstcLdr));
    assert!(!set.contains(CompressedFormat::Bc));
    assert!(!set.contains(CompressedFormat::Etc2));
    let set = FormatSet::from_features(!0x38u64);
    assert!(!set.contains(CompressedFormat::AstcLdr));
    assert!(!set.contains(CompressedFormat::Bc));
    assert!(!set.contains(CompressedFormat::Etc2));
}

#[test]
fn every_feature_bit_set_supports_all_formats() {
    let set = FormatSet::from_features(u64::MAX);
    assert!(set.contains(CompressedFormat::AstcLdr));
    assert!(set.contains(CompressedFormat::Bc));
    assert!(set.contains(CompressedFormat::Etc2));
}

#[test]
fn feature_bits_have_their_documented_values() {
    assert_eq!(FEATURE_TEXTURE_COMPRESSION_BC, 1 << 3);
    assert_eq!(FEATURE_TEXTURE_COMPRESSION_ETC2, 1 << 4);
    assert_eq!(FEATURE_TEXTURE_COMPRESSION_ASTC_LDR, 1 << 5);
}

#[test]
fn format_names() {
    assert_eq!(CompressedFormat::AstcLdr.name(), "ASTC_LDR");
    assert_eq!(CompressedFormat::Bc.name(), "BC");
    assert_eq!(CompressedFormat::Etc2.name(), "ETC2");
}
