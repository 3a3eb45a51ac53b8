//! The data model shared by the inspection, compression and batch layers.
use vstd::prelude::*;

verus! {

/// The raster formats the pipeline reads and writes.
#[derive(Clone, Copy, Debug, PartialEq, Eq, Structural)]
pub enum ImageFormat {
    Jpg,
    Png,
    Webp,
    Heic,
}

impl ImageFormat {
    /// The file extension written for this format.
    pub open spec fn spec_extension(self) -> Seq<char> {
        match self {
            ImageFormat::Jpg => "jpg"@,
            ImageFormat::Png => "png"@,
            ImageFormat::Webp => "webp"@,
            ImageFormat::Heic => "heic"@,
        }
    }

    /// The name shown to people for this format.
    pub open spec fn spec_display_name(self) -> Seq<char> {
        match self {
            ImageFormat::Jpg => "JPG"@,
            ImageFormat::Png => "PNG"@,
            ImageFormat::Webp => "WebP"@,
            ImageFormat::Heic => "HEIC"@,
        }
    }

    pub fn extension(&self) -> (r: &'static str)
        ensures
            r@ == self.spec_extension(),
    {
        match self {
            ImageFormat::Jpg => "jpg",
            ImageFormat::Png => "png",
            ImageFormat::Webp => "webp",
            ImageFormat::Heic => "heic",
        }
    }

    pub fn display_name(&self) -> (r: &'static str)
        ensures
            r@ == self.spec_display_name(),
    {
        match self {
            ImageFormat::Jpg => "JPG",
            ImageFormat::Png => "PNG",
            ImageFormat::Webp => "WebP",
            ImageFormat::Heic => "HEIC",
        }
    }
}

/// What an inspection learned about one input file.
#[derive(Debug)]
pub struct ImageInfo {
    pub id: String,
    pub path: String,
    pub filename: String,
    pub format: ImageFormat,
    pub width: u32,
    pub height: u32,
    pub bytes: u64,
    pub orientation: Option<u32>,
    pub has_alpha: bool,
    pub color_profile: Option<String>,
    pub metadata_available: bool,
}

/// How hard the encoders work, traded against output quality.
#[derive(Clone, Copy, Debug, PartialEq, Eq, Structural)]
pub enum CompressionPreset {
    BestQuality,
    Balanced,
    Smallest,
}

impl Default for CompressionPreset {
    fn default() -> (r: Self)
        ensures
            r == CompressionPreset::Balanced,
    {
        CompressionPreset::Balanced
    }
}

/// Whether an output keeps its input's format or becomes a JPEG.
#[derive(Clone, Copy, Debug, PartialEq, Eq, Structural)]
pub enum OutputMode {
    SameFormat,
    ConvertToJpg,
}

impl Default for OutputMode {
    fn default() -> (r: Self)
        ensures
            r == OutputMode::SameFormat,
    {
        OutputMode::SameFormat
    }
}

/// The options of one batch.
#[derive(Debug)]
pub struct CompressionSettings {
    pub preset: CompressionPreset,
    pub output_mode: OutputMode,
    pub preserve_metadata: bool,
    pub preserve_color_profile: bool,
    pub custom_output_dir: Option<String>,
    pub filename_suffix: Option<String>,
}

/// The suffix put between an input's stem and the extension when no other
/// suffix was chosen.
pub open spec fn default_suffix() -> Seq<char> {
    "-compressed"@
}

impl Default for CompressionSettings {
    fn default() -> (r: Self)
        ensures
            r.preset == CompressionPreset::Balanced,
            r.output_mode == OutputMode::SameFormat,
            r.preserve_metadata,
            r.preserve_color_profile,
            r.custom_output_dir.is_none(),
            r.filename_suffix matches Some(s) && s@ == default_suffix(),
    {
        CompressionSettings {
            preset: CompressionPreset::Balanced,
            output_mode: OutputMode::SameFormat,
            preserve_metadata: true,
            preserve_color_profile: true,
            custom_output_dir: None,
            filename_suffix: Some(String::from_str("-compressed")),
        }
    }
}

/// The outcome class of one file.
#[derive(Clone, Copy, Debug, PartialEq, Eq, Structural)]
pub enum CompressionStatus {
    Queued,
    Processing,
    Completed,
    Skipped,
    NoSavings,
    Failed,
}

/// The report of one file's processing.
///
/// The share of bytes saved is carried as an integer, in millionths of a
/// percent rounded down (`saved_percent_micros`).
#[derive(Debug)]
pub struct CompressionResult {
    pub id: String,
    pub input_bytes: u64,
    pub output_bytes: u64,
    pub saved_bytes: u64,
    pub saved_percent_micros: u64,
    pub input_width: u32,
    pub input_height: u32,
    pub output_width: u32,
    pub output_height: u32,
    pub input_format: ImageFormat,
    pub output_format: ImageFormat,
    pub output_path: Option<String>,
    pub duration_ms: u64,
    pub status: CompressionStatus,
    pub error: Option<String>,
    pub color_profile_preserved: bool,
}

/// Progress of a batch, reported when a worker starts on a file.
#[derive(Debug)]
pub struct ProgressUpdate {
    pub current_index: usize,
    pub total_count: usize,
    pub current_filename: String,
    pub stage: String,
}

} // verus!
