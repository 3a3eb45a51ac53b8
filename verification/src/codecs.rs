//! The calls into the codec and container crates, each behind a wrapper whose
//! contract Verus trusts. Every wrapper takes and returns plain values; what a
//! codec computes is named by an uninterpreted spec function of its arguments.
use vstd::prelude::*;
use img_parts::{ImageEXIF, ImageICC};

verus! {

/// The bytes held by an optional buffer.
pub open spec fn opt_bytes(o: Option<Vec<u8>>) -> Option<Seq<u8>> {
    match o {
        Some(v) => Some(v@),
        None => None,
    }
}

/// The bytes held by a buffer that may be absent at two levels.
pub open spec fn opt_opt_bytes(o: Option<Option<Vec<u8>>>) -> Option<Option<Seq<u8>>> {
    match o {
        Some(inner) => Some(opt_bytes(inner)),
        None => None,
    }
}

/// Pixels decoded from a compressed image.
pub struct DecodedImage {
    pub width: u32,
    pub height: u32,
    /// `true` for RGBA samples, `false` for RGB samples.
    pub has_alpha: bool,
    pub pixels: Vec<u8>,
}

/// Bytes per pixel of an RGB (3) or RGBA (4) buffer.
pub open spec fn bytes_per_pixel(has_alpha: bool) -> nat {
    if has_alpha {
        4
    } else {
        3
    }
}

/// What libwebp decodes from `data`: width, height, whether the samples are
/// RGBA, and the samples; `None` when `data` is no still WebP image.
pub uninterp spec fn spec_webp_decode(data: Seq<u8>) -> Option<(u32, u32, bool, Seq<u8>)>;

/// The largest width or height of a decoded WebP frame: VP8 frame headers
/// hold 14-bit sizes and VP8L headers 14-bit sizes plus one.
pub const WEBP_MAX_DECODED_DIMENSION: u32 = 16384;

/// `webp::Decoder::new(data).decode()`. The result is named by
/// `spec_webp_decode`; as the crate builds its buffer from the bitstream's
/// width and height, the sample count is `width * height` times 3 (RGB) or 4
/// (RGBA). libwebp only decodes a still image whose VP8 or VP8L frame header
/// gives its size (a VP8X canvas must match it), so each side of a decoded
/// image lies in `1..=16384`.
#[verifier::external_body]
pub(crate) fn webp_decode(data: &[u8]) -> (r: Option<DecodedImage>)
    ensures
        match r {
            None => spec_webp_decode(data@) is None,
            Some(d) => {
                &&& spec_webp_decode(data@) == Some((d.width, d.height, d.has_alpha, d.pixels@))
                &&& d.pixels@.len() == bytes_per_pixel(d.has_alpha) * d.width * d.height
                &&& 1 <= d.width <= WEBP_MAX_DECODED_DIMENSION
                &&& 1 <= d.height <= WEBP_MAX_DECODED_DIMENSION
            },
        },
{
    let image = webp::Decoder::new(data).decode()?;
    Some(
        DecodedImage {
            width: image.width(),
            height: image.height(),
            has_alpha: image.is_alpha(),
            pixels: image.to_vec(),
        },
    )
}

/// What libwebp's lossy encoder produces for the given samples and quality:
/// the encoded file, or the name of libwebp's encoding error (for instance a
/// side outside `1..=16383`, or a first partition larger than libwebp
/// allows).
pub uninterp spec fn spec_webp_encode(
    pixels: Seq<u8>,
    width: u32,
    height: u32,
    has_alpha: bool,
    quality: u8,
) -> Result<Seq<u8>, Seq<char>>;

/// `webp::Encoder::new(pixels, layout, width, height).encode_simple(false,
/// quality)`, the lossy encoding. The crate panics when the buffer is shorter
/// than `width * height` samples, and computes the row stride `width * 3` (or
/// `* 4`) as an `i32`; `requires` leaves those inputs out. Every other failure
/// of libwebp is returned as its error code, which is rendered with `Debug`.
/// The result is named by `spec_webp_encode`.
#[verifier::external_body]
pub(crate) fn webp_encode(pixels: &[u8], width: u32, height: u32, has_alpha: bool, quality: u8) -> (r:
    Result<Vec<u8>, String>)
    requires
        pixels@.len() >= bytes_per_pixel(has_alpha) * width * height,
        bytes_per_pixel(has_alpha) * width <= 0x7fff_ffff,
    ensures
        match r {
            Ok(out) => spec_webp_encode(pixels@, width, height, has_alpha, quality) == Ok::<
                Seq<u8>,
                Seq<char>,
            >(out@),
            Err(msg) => spec_webp_encode(pixels@, width, height, has_alpha, quality) == Err::<
                Seq<u8>,
                Seq<char>,
            >(msg@),
        },
{
    let layout = if has_alpha {
        webp::PixelLayout::Rgba
    } else {
        webp::PixelLayout::Rgb
    };
    match webp::Encoder::new(pixels, layout, width, height).encode_simple(false, quality.into()) {
        Ok(memory) => Ok(memory.to_vec()),
        Err(e) => Err(format!("{:?}", e)),
    }
}

/// The ICC profile and the EXIF block that img-parts reads from the JPEG
/// container `data` (each `None` when the container holds none); `None` when
/// `data` is no JPEG container.
pub uninterp spec fn spec_jpeg_metadata(data: Seq<u8>) -> Option<(Option<Seq<u8>>, Option<Seq<u8>>)>;

/// `img_parts::jpeg::Jpeg::from_bytes(data)` followed by `icc_profile()` and
/// `exif()` on the parsed container.
#[verifier::external_body]
pub(crate) fn jpeg_metadata(data: &[u8]) -> (r: Option<(Option<Vec<u8>>, Option<Vec<u8>>)>)
    ensures
        match r {
            Some((icc, exif)) => spec_jpeg_metadata(data@) == Some((opt_bytes(icc), opt_bytes(exif))),
            None => spec_jpeg_metadata(data@) is None,
        },
{
    let jpeg = img_parts::jpeg::Jpeg::from_bytes(bytes::Bytes::copy_from_slice(data)).ok()?;
    let icc = match jpeg.icc_profile() {
        Some(profile) => Some(profile.to_vec()),
        None => None,
    };
    let exif = match jpeg.exif() {
        Some(block) => Some(block.to_vec()),
        None => None,
    };
    Some((icc, exif))
}

/// The JPEG container `data` rewritten by img-parts with its ICC profile set
/// to `icc` and its EXIF block set to `exif` (`None` removes the part):
/// `None` when `data` is no JPEG container, `Some(None)` when writing the
/// container failed.
pub uninterp spec fn spec_jpeg_rewrite(
    data: Seq<u8>,
    icc: Option<Seq<u8>>,
    exif: Option<Seq<u8>>,
) -> Option<Option<Seq<u8>>>;

/// `img_parts::jpeg::Jpeg::from_bytes(data)`, then `set_icc_profile` and
/// `set_exif` with the parts as given, then `encoder().write_to(..)`.
#[verifier::external_body]
pub(crate) fn jpeg_rewrite(data: &[u8], icc: Option<Vec<u8>>, exif: Option<Vec<u8>>) -> (r: Option<
    Option<Vec<u8>>,
>)
    ensures
        opt_opt_bytes(r) == spec_jpeg_rewrite(data@, opt_bytes(icc), opt_bytes(exif)),
{
    let mut jpeg = img_parts::jpeg::Jpeg::from_bytes(bytes::Bytes::copy_from_slice(data)).ok()?;
    jpeg.set_icc_profile(icc.map(bytes::Bytes::from));
    jpeg.set_exif(exif.map(bytes::Bytes::from));
    let mut out = Vec::new();
    match jpeg.encoder().write_to(&mut out) {
        Ok(_) => Some(Some(out)),
        Err(_) => Some(None),
    }
}

/// The ICC profile and the EXIF block that img-parts reads from the WebP
/// container `data` (each `None` when the container holds none); `None` when
/// `data` is no WebP container.
pub uninterp spec fn spec_webp_metadata(data: Seq<u8>) -> Option<(Option<Seq<u8>>, Option<Seq<u8>>)>;

/// `img_parts::webp::WebP::from_bytes(data)` followed by `icc_profile()` and
/// `exif()` on the parsed container.
#[verifier::external_body]
pub(crate) fn webp_metadata(data: &[u8]) -> (r: Option<(Option<Vec<u8>>, Option<Vec<u8>>)>)
    ensures
        match r {
            Some((icc, exif)) => spec_webp_metadata(data@) == Some((opt_bytes(icc), opt_bytes(exif))),
            None => spec_webp_metadata(data@) is None,
        },
{
    let webp = img_parts::webp::WebP::from_bytes(bytes::Bytes::copy_from_slice(data)).ok()?;
    let icc = match webp.icc_profile() {
        Some(profile) => Some(profile.to_vec()),
        None => None,
    };
    let exif = match webp.exif() {
        Some(block) => Some(block.to_vec()),
        None => None,
    };
    Some((icc, exif))
}

/// The WebP container `data` rewritten by img-parts with its ICC profile set
/// to `icc` and its EXIF block set to `exif` (`None` removes the part):
/// `None` when `data` is no WebP container, `Some(None)` when writing the
/// container failed.
pub uninterp spec fn spec_webp_rewrite(
    data: Seq<u8>,
    icc: Option<Seq<u8>>,
    exif: Option<Seq<u8>>,
) -> Option<Option<Seq<u8>>>;

/// `img_parts::webp::WebP::from_bytes(data)`, then `set_icc_profile` and
/// `set_exif` with the parts as given, then `encoder().write_to(..)`.
#[verifier::external_body]
pub(crate) fn webp_rewrite(data: &[u8], icc: Option<Vec<u8>>, exif: Option<Vec<u8>>) -> (r: Option<
    Option<Vec<u8>>,
>)
    ensures
        opt_opt_bytes(r) == spec_webp_rewrite(data@, opt_bytes(icc), opt_bytes(exif)),
{
    let mut webp = img_parts::webp::WebP::from_bytes(bytes::Bytes::copy_from_slice(data)).ok()?;
    webp.set_icc_profile(icc.map(bytes::Bytes::from));
    webp.set_exif(exif.map(bytes::Bytes::from));
    let mut out = Vec::new();
    match webp.encoder().write_to(&mut out) {
        Ok(_) => Some(Some(out)),
        Err(_) => Some(None),
    }
}

/// Which ancillary PNG chunks oxipng keeps (oxipng's `StripChunks` without
/// the variants that carry a chunk list).
#[derive(Clone, Copy, Debug, PartialEq, Eq, Structural)]
pub enum ChunkStrip {
    /// Keep every chunk (`StripChunks::None`).
    KeepAll,
    /// Keep oxipng's display chunks (`cICP`, `iCCP`, `sRGB`, `pHYs`, `acTL`,
    /// `fcTL`, `fdAT`) and drop the other ancillary chunks
    /// (`StripChunks::Safe`).
    Safe,
    /// Drop every ancillary chunk (`StripChunks::All`).
    StripAll,
}

/// What oxipng makes of the PNG `data` at the given preset level, with the
/// given chunk policy and interlacing choice (`None` keeps the input's
/// interlacing): the optimized file, or the text of oxipng's error.
pub uninterp spec fn spec_oxipng_optimize(
    data: Seq<u8>,
    level: u8,
    strip: ChunkStrip,
    interlace: Option<bool>,
) -> Result<Seq<u8>, Seq<char>>;

/// `oxipng::optimize_from_memory(data, &options)` with
/// `Options::from_preset(level)`, `options.interlace = interlace` and
/// `options.strip` the policy `strip`. The result is named by
/// `spec_oxipng_optimize`; as oxipng hands back the input itself unless its
/// own result is smaller, an `Ok` output is the input or shorter than it.
#[verifier::external_body]
pub(crate) fn oxipng_optimize(data: &[u8], level: u8, strip: ChunkStrip, interlace: Option<bool>) -> (r:
    Result<Vec<u8>, String>)
    ensures
        match r {
            Ok(out) => {
                &&& spec_oxipng_optimize(data@, level, strip, interlace) == Ok::<Seq<u8>, Seq<char>>(out@)
                &&& (out@ == data@ || out@.len() < data@.len())
            },
            Err(msg) => spec_oxipng_optimize(data@, level, strip, interlace) == Err::<Seq<u8>, Seq<char>>(msg@),
        },
{
    let mut options = oxipng::Options::from_preset(level);
    options.interlace = interlace;
    options.strip = match strip {
        ChunkStrip::KeepAll => oxipng::StripChunks::None,
        ChunkStrip::Safe => oxipng::StripChunks::Safe,
        ChunkStrip::StripAll => oxipng::StripChunks::All,
    };
    oxipng::optimize_from_memory(data, &options).map_err(|e| e.to_string())
}

/// The PNG color types.
#[derive(Clone, Copy, Debug, PartialEq, Eq, Structural)]
pub enum PngColor {
    Grayscale,
    Rgb,
    Indexed,
    GrayscaleAlpha,
    Rgba,
}

/// What the png crate reads from the header chunks of a PNG file.
pub struct PngHeader {
    pub width: u32,
    pub height: u32,
    pub color: PngColor,
    pub icc_profile: Option<Vec<u8>>,
    pub has_srgb: bool,
}

/// The header of the PNG file `data` as the png crate reads it (width,
/// height, color type, ICC profile, presence of an sRGB chunk), or the text
/// of its error.
pub uninterp spec fn spec_png_header(data: Seq<u8>) -> Result<
    (u32, u32, PngColor, Option<Seq<u8>>, bool),
    Seq<char>,
>;

/// `png::Decoder::new(Cursor::new(data)).read_info()` and the fields of its
/// `info()`.
#[verifier::external_body]
pub(crate) fn png_header(data: &[u8]) -> (r: Result<PngHeader, String>)
    ensures
        match r {
            Ok(h) => spec_png_header(data@) == Ok::<_, Seq<char>>(
                (h.width, h.height, h.color, opt_bytes(h.icc_profile), h.has_srgb),
            ),
            Err(msg) => spec_png_header(data@) == Err::<(u32, u32, PngColor, Option<Seq<u8>>, bool), Seq<char>>(msg@),
        },
{
    let reader = png::Decoder::new(std::io::Cursor::new(data)).read_info().map_err(|e| e.to_string())?;
    let info = reader.info();
    let color = match info.color_type {
        png::ColorType::Grayscale => PngColor::Grayscale,
        png::ColorType::Rgb => PngColor::Rgb,
        png::ColorType::Indexed => PngColor::Indexed,
        png::ColorType::GrayscaleAlpha => PngColor::GrayscaleAlpha,
        png::ColorType::Rgba => PngColor::Rgba,
    };
    let icc_profile = info.icc_profile.as_ref().map(|profile| profile.to_vec());
    let has_srgb = info.srgb.is_some();
    Ok(PngHeader { width: info.width, height: info.height, color, icc_profile, has_srgb })
}

/// The width and height that the image crate reads from the header of the
/// file `data`, decoding it as the format that the file extension `ext`
/// names (compared case-insensitively); `None` when the extension names no
/// format or the header cannot be read.
pub uninterp spec fn spec_image_dimensions(data: Seq<u8>, ext: Seq<char>) -> Option<(u32, u32)>;

/// `image::ImageFormat::from_extension(ext)`, then
/// `ImageReader::with_format(Cursor::new(data), format).into_dimensions()`:
/// what `image::image_dimensions` does for a file with that extension.
#[verifier::external_body]
pub(crate) fn image_dimensions(data: &[u8], ext: &str) -> (r: Option<(u32, u32)>)
    ensures
        r == spec_image_dimensions(data@, ext@),
{
    let format = image::ImageFormat::from_extension(ext)?;
    image::ImageReader::with_format(std::io::Cursor::new(data), format).into_dimensions().ok()
}

/// The width, height and RGBA samples that the image crate decodes from the
/// file `data`, decoding it as the format that the file extension `ext` names
/// (compared case-insensitively), or the text of its error (an extension
/// that names no format gives the crate's "format could not be determined"
/// error).
pub uninterp spec fn spec_image_rgba(data: Seq<u8>, ext: Seq<char>) -> Result<(u32, u32, Seq<u8>), Seq<char>>;

/// `image::ImageFormat::from_extension(ext)`, then `ImageReader::with_format`
/// (or `ImageReader::new` when the extension names no format) on
/// `Cursor::new(data)`, `decode()` and `to_rgba8()`: what `image::open` does
/// for a file with that extension.
#[verifier::external_body]
pub(crate) fn image_rgba(data: &[u8], ext: &str) -> (r: Result<(u32, u32, Vec<u8>), String>)
    ensures
        match r {
            Ok((w, h, px)) => spec_image_rgba(data@, ext@) == Ok::<(u32, u32, Seq<u8>), Seq<char>>(
                (w, h, px@),
            ),
            Err(msg) => spec_image_rgba(data@, ext@) == Err::<(u32, u32, Seq<u8>), Seq<char>>(msg@),
        },
{
    let cursor = std::io::Cursor::new(data);
    let reader = match image::ImageFormat::from_extension(ext) {
        Some(format) => image::ImageReader::with_format(cursor, format),
        None => image::ImageReader::new(cursor),
    };
    let img = reader.decode().map_err(|e| e.to_string())?;
    let rgba = img.to_rgba8();
    Ok((img.width(), img.height(), rgba.into_raw()))
}

/// The orientation that kamadak-exif reads from the EXIF data of the image
/// container `data` (`Some(None)` when the EXIF data holds no unsigned
/// orientation value); `None` when no EXIF data can be read from it.
pub uninterp spec fn spec_exif_orientation(data: Seq<u8>) -> Option<Option<u32>>;

/// `exif::Reader::new().read_from_container(..)` on `data`, then the first
/// unsigned value of the primary image's `Orientation` field.
#[verifier::external_body]
pub(crate) fn exif_orientation(data: &[u8]) -> (r: Option<Option<u32>>)
    ensures
        r == spec_exif_orientation(data@),
{
    let exif = exif::Reader::new().read_from_container(&mut std::io::Cursor::new(data)).ok()?;
    match exif.get_field(exif::Tag::Orientation, exif::In::PRIMARY) {
        Some(field) => Some(field.value.get_uint(0)),
        None => Some(None),
    }
}

/// `uuid::Uuid::new_v4().to_string()`: a fresh random identifier in the
/// hyphenated form, 36 characters long. Nothing else is stated of it.
#[verifier::external_body]
pub(crate) fn new_uuid() -> (r: String)
    ensures
        r@.len() == 36,
{
    uuid::Uuid::new_v4().to_string()
}

/// `uuid::Uuid::new_v4().simple().to_string()`: a fresh random identifier in
/// the simple form, 32 characters long. Nothing else is stated of it.
#[verifier::external_body]
pub(crate) fn new_simple_uuid() -> (r: String)
    ensures
        r@.len() == 32,
{
    uuid::Uuid::new_v4().simple().to_string()
}

} // verus!
