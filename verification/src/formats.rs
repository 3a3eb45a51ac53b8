//! Per-format codec policies, the routing of a file to its engine, and the
//! engines that run in the library.
use vstd::prelude::*;
use crate::codecs::opt_bytes;
use crate::models::{CompressionPreset, CompressionSettings, ImageFormat, OutputMode};

pub mod composite;
pub mod convert;
pub mod heic;
pub mod jpeg;
pub mod png;
pub mod webp;

verus! {

/// The encoded file an engine produced, with the dimensions an independent
/// decoder read back from it.
pub struct ProcessedOutput {
    pub data: Vec<u8>,
    pub width: u32,
    pub height: u32,
    pub format: ImageFormat,
    pub color_profile_preserved: bool,
}

/// The part of an optional buffer that is kept when `keep` holds.
pub open spec fn kept(keep: bool, part: Option<Seq<u8>>) -> Option<Seq<u8>> {
    if keep {
        part
    } else {
        None
    }
}

/// The part of an optional buffer that is kept when `keep` holds.
pub fn keep_part(keep: bool, part: Option<Vec<u8>>) -> (r: Option<Vec<u8>>)
    ensures
        opt_bytes(r) == kept(keep, opt_bytes(part)),
{
    if keep {
        part
    } else {
        None
    }
}

/// A container read by img-parts (its ICC profile and EXIF block) holds an
/// ICC profile.
pub open spec fn carries_icc(parts: Option<(Option<Seq<u8>>, Option<Seq<u8>>)>) -> bool {
    parts matches Some((Some(_), _))
}

/// The engine that handles one file.
#[derive(Clone, Copy, Debug, PartialEq, Eq, Structural)]
pub enum Engine {
    /// Any format re-encoded as JPEG.
    ConvertToJpg,
    /// JPEG re-encoded with libjpeg-turbo.
    Jpeg,
    /// PNG optimized losslessly with oxipng.
    Png,
    /// WebP re-encoded with libwebp.
    Webp,
    /// HEIC re-encoded with libheif.
    Heic,
}

/// Conversion wins over the input format; otherwise each format has its own
/// engine.
pub open spec fn spec_engine_for(mode: OutputMode, format: ImageFormat) -> Engine {
    match mode {
        OutputMode::ConvertToJpg => Engine::ConvertToJpg,
        OutputMode::SameFormat => match format {
            ImageFormat::Jpg => Engine::Jpeg,
            ImageFormat::Png => Engine::Png,
            ImageFormat::Webp => Engine::Webp,
            ImageFormat::Heic => Engine::Heic,
        },
    }
}

/// The format of the file an engine writes.
pub open spec fn spec_engine_output_format(engine: Engine) -> ImageFormat {
    match engine {
        Engine::ConvertToJpg => ImageFormat::Jpg,
        Engine::Jpeg => ImageFormat::Jpg,
        Engine::Png => ImageFormat::Png,
        Engine::Webp => ImageFormat::Webp,
        Engine::Heic => ImageFormat::Heic,
    }
}

/// The format of the file `engine` writes.
pub fn engine_output_format(engine: Engine) -> (r: ImageFormat)
    ensures
        r == spec_engine_output_format(engine),
{
    match engine {
        Engine::ConvertToJpg => ImageFormat::Jpg,
        Engine::Jpeg => ImageFormat::Jpg,
        Engine::Png => ImageFormat::Png,
        Engine::Webp => ImageFormat::Webp,
        Engine::Heic => ImageFormat::Heic,
    }
}

/// The production strategy: fixed, tuned quality levels per preset.
pub struct FixedQualityStrategy;

impl FixedQualityStrategy {
    /// The engine for a file of `format` under `settings`.
    pub fn engine_for(&self, settings: &CompressionSettings, format: ImageFormat) -> (r: Engine)
        ensures
            r == spec_engine_for(settings.output_mode, format),
    {
        match settings.output_mode {
            OutputMode::ConvertToJpg => Engine::ConvertToJpg,
            OutputMode::SameFormat => match format {
                ImageFormat::Jpg => Engine::Jpeg,
                ImageFormat::Png => Engine::Png,
                ImageFormat::Webp => Engine::Webp,
                ImageFormat::Heic => Engine::Heic,
            },
        }
    }
}

/// libjpeg-turbo quality per preset (4:2:0 chroma subsampling in every case).
pub open spec fn spec_jpeg_quality(preset: CompressionPreset) -> u8 {
    match preset {
        CompressionPreset::BestQuality => 92,
        CompressionPreset::Balanced => 84,
        CompressionPreset::Smallest => 74,
    }
}

/// libwebp quality per preset.
pub open spec fn spec_webp_quality(preset: CompressionPreset) -> u8 {
    match preset {
        CompressionPreset::BestQuality => 92,
        CompressionPreset::Balanced => 82,
        CompressionPreset::Smallest => 70,
    }
}

/// libheif (HEVC) quality per preset.
pub open spec fn spec_heic_quality(preset: CompressionPreset) -> u8 {
    match preset {
        CompressionPreset::BestQuality => 88,
        CompressionPreset::Balanced => 78,
        CompressionPreset::Smallest => 65,
    }
}

/// oxipng optimization level per preset.
pub open spec fn spec_png_level(preset: CompressionPreset) -> u8 {
    match preset {
        CompressionPreset::BestQuality => 2,
        CompressionPreset::Balanced => 4,
        CompressionPreset::Smallest => 6,
    }
}

pub fn jpeg_quality(preset: CompressionPreset) -> (q: u8)
    ensures
        q == spec_jpeg_quality(preset),
{
    match preset {
        CompressionPreset::BestQuality => 92,
        CompressionPreset::Balanced => 84,
        CompressionPreset::Smallest => 74,
    }
}

pub fn webp_quality(preset: CompressionPreset) -> (q: u8)
    ensures
        q == spec_webp_quality(preset),
{
    match preset {
        CompressionPreset::BestQuality => 92,
        CompressionPreset::Balanced => 82,
        CompressionPreset::Smallest => 70,
    }
}

pub fn heic_quality(preset: CompressionPreset) -> (q: u8)
    ensures
        q == spec_heic_quality(preset),
{
    match preset {
        CompressionPreset::BestQuality => 88,
        CompressionPreset::Balanced => 78,
        CompressionPreset::Smallest => 65,
    }
}

pub fn png_level(preset: CompressionPreset) -> (level: u8)
    ensures
        level == spec_png_level(preset),
{
    match preset {
        CompressionPreset::BestQuality => 2,
        CompressionPreset::Balanced => 4,
        CompressionPreset::Smallest => 6,
    }
}

/// A stronger preset never asks for a higher quality or a lower effort: the
/// presets are ordered the same way in every engine.
pub proof fn lemma_presets_ordered()
    ensures
        spec_jpeg_quality(CompressionPreset::Smallest) < spec_jpeg_quality(CompressionPreset::Balanced)
            < spec_jpeg_quality(CompressionPreset::BestQuality),
        spec_webp_quality(CompressionPreset::Smallest) < spec_webp_quality(CompressionPreset::Balanced)
            < spec_webp_quality(CompressionPreset::BestQuality),
        spec_heic_quality(CompressionPreset::Smallest) < spec_heic_quality(CompressionPreset::Balanced)
            < spec_heic_quality(CompressionPreset::BestQuality),
        spec_png_level(CompressionPreset::BestQuality) < spec_png_level(CompressionPreset::Balanced)
            < spec_png_level(CompressionPreset::Smallest),
{
}

} // verus!
