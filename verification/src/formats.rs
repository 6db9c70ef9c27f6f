//! Compressed texture encodings and the device capability query.

use bevy::render::render_resource::WgpuFeatures;
use bevy::render::texture::CompressedImageFormats;
use vstd::prelude::*;

verus! {

/// Device feature bit: the device decodes BC block compression.
pub const FEATURE_TEXTURE_COMPRESSION_BC: u64 = 0x8;

/// Device feature bit: the device decodes ETC2 block compression.
pub const FEATURE_TEXTURE_COMPRESSION_ETC2: u64 = 0x10;

/// Device feature bit: the device decodes ASTC low-dynamic-range compression.
pub const FEATURE_TEXTURE_COMPRESSION_ASTC_LDR: u64 = 0x20;

/// A compressed texture encoding.
#[derive(Clone, Copy, Debug, PartialEq, Eq, Structural)]
pub enum CompressedFormat {
    AstcLdr,
    Bc,
    Etc2,
}

/// Whether every bit of `flag` is set in `features`.
pub open spec fn has_feature(features: u64, flag: u64) -> bool {
    features & flag == flag
}

/// The device feature bit that announces support for `format`.
pub open spec fn feature_of(format: CompressedFormat) -> u64 {
    match format {
        CompressedFormat::AstcLdr => FEATURE_TEXTURE_COMPRESSION_ASTC_LDR,
        CompressedFormat::Bc => FEATURE_TEXTURE_COMPRESSION_BC,
        CompressedFormat::Etc2 => FEATURE_TEXTURE_COMPRESSION_ETC2,
    }
}

/// The encodings that a device with the feature bits `features` decodes.
pub open spec fn supported_by(features: u64) -> Set<CompressedFormat> {
    Set::new(|format: CompressedFormat| has_feature(features, feature_of(format)))
}

impl CompressedFormat {
    /// The name under which diagnostics mention the encoding.
    pub fn name(&self) -> (name: &'static str)
        ensures
            name@ == (match *self {
                CompressedFormat::AstcLdr => "ASTC_LDR"@,
                CompressedFormat::Bc => "BC"@,
                CompressedFormat::Etc2 => "ETC2"@,
            }),
    {
        match self {
            CompressedFormat::AstcLdr => "ASTC_LDR",
            CompressedFormat::Bc => "BC",
            CompressedFormat::Etc2 => "ETC2",
        }
    }
}

/// The set of compressed encodings that a device can decode.
#[derive(Clone, Copy, Debug, PartialEq, Eq, Structural)]
pub struct FormatSet {
    astc_ldr: bool,
    bc: bool,
    etc2: bool,
}

impl View for FormatSet {
    type V = Set<CompressedFormat>;

    closed spec fn view(&self) -> Set<CompressedFormat> {
        Set::new(
            |format: CompressedFormat|
                match format {
                    CompressedFormat::AstcLdr => self.astc_ldr,
                    CompressedFormat::Bc => self.bc,
                    CompressedFormat::Etc2 => self.etc2,
                },
        )
    }
}

/// Calls `CompressedImageFormats::from_features` of bevy's renderer on the
/// device feature bits and hands back the bits of the set it returns. The
/// contract restates that function: of the three defined bits, bit 0 is set
/// exactly where the ASTC LDR feature is, bit 1 where the BC feature is and
/// bit 2 where the ETC2 feature is, and no other bit is set. Unverified.
#[verifier::external_body]
fn compressed_format_bits(features: u64) -> (bits: u32)
    ensures
        bits <= 7,
        (bits & 1 == 1) == has_feature(features, FEATURE_TEXTURE_COMPRESSION_ASTC_LDR),
        (bits & 2 == 2) == has_feature(features, FEATURE_TEXTURE_COMPRESSION_BC),
        (bits & 4 == 4) == has_feature(features, FEATURE_TEXTURE_COMPRESSION_ETC2),
{
    CompressedImageFormats::from_features(WgpuFeatures::from_bits_truncate(features)).bits()
}

impl FormatSet {
    /// The encodings that a device with the feature bits `features` decodes.
    pub fn from_features(features: u64) -> (set: FormatSet)
        ensures
            set@ == supported_by(features),
    {
        let bits: u32 = compressed_format_bits(features);
        let set = FormatSet { astc_ldr: bits & 1 == 1, bc: bits & 2 == 2, etc2: bits & 4 == 4 };
        assert(set@ =~= supported_by(features));
        set
    }

    /// Whether the device decodes `format`.
    pub fn contains(&self, format: CompressedFormat) -> (found: bool)
        ensures
            found == self@.contains(format),
    {
        match format {
            CompressedFormat::AstcLdr => self.astc_ldr,
            CompressedFormat::Bc => self.bc,
            CompressedFormat::Etc2 => self.etc2,
        }
    }
}

} // verus!
