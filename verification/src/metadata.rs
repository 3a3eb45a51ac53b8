//! Format detection from a file's leading bytes and name, and the assembly of
//! what an inspection learned about a file.
use vstd::prelude::*;
use crate::codecs::{
    exif_orientation, image_dimensions, jpeg_metadata, new_uuid, png_header, spec_exif_orientation,
    spec_image_dimensions, spec_jpeg_metadata, spec_png_header, spec_webp_decode, spec_webp_metadata,
    webp_decode, webp_metadata, PngColor,
};
use crate::errors::{is_decode_error, AppError};
use crate::models::{ImageFormat, ImageInfo};
use crate::paths::{
    opt_chars, path_extension, path_file_name, spec_path_extension, spec_path_file_name, spec_to_lowercase,
    to_lowercase,
};

verus! {

/// The JPEG start-of-image marker followed by a marker byte: `FF D8 FF`.
pub open spec fn has_jpeg_signature(h: Seq<u8>) -> bool {
    h.len() >= 3 && h[0] == 0xFF && h[1] == 0xD8 && h[2] == 0xFF
}

/// The eight-byte PNG signature `89 50 4E 47 0D 0A 1A 0A`.
pub open spec fn has_png_signature(h: Seq<u8>) -> bool {
    &&& h.len() >= 8
    &&& h[0] == 0x89 && h[1] == 0x50 && h[2] == 0x4E && h[3] == 0x47
    &&& h[4] == 0x0D && h[5] == 0x0A && h[6] == 0x1A && h[7] == 0x0A
}

/// A RIFF container (`"RIFF"`) whose form type is `"WEBP"`.
pub open spec fn has_webp_signature(h: Seq<u8>) -> bool {
    &&& h.len() >= 12
    &&& h[0] == 0x52 && h[1] == 0x49 && h[2] == 0x46 && h[3] == 0x46
    &&& h[8] == 0x57 && h[9] == 0x45 && h[10] == 0x42 && h[11] == 0x50
}

/// The HEIF major brands accepted as HEIC: `heic`, `heix`, `hevc`, `heim`,
/// `heis`, `mif1` and `msf1`.
pub open spec fn is_heif_brand(a: u8, b: u8, c: u8, d: u8) -> bool {
    ||| (a == 0x68 && b == 0x65 && c == 0x69 && d == 0x63)
    ||| (a == 0x68 && b == 0x65 && c == 0x69 && d == 0x78)
    ||| (a == 0x68 && b == 0x65 && c == 0x76 && d == 0x63)
    ||| (a == 0x68 && b == 0x65 && c == 0x69 && d == 0x6d)
    ||| (a == 0x68 && b == 0x65 && c == 0x69 && d == 0x73)
    ||| (a == 0x6d && b == 0x69 && c == 0x66 && d == 0x31)
    ||| (a == 0x6d && b == 0x73 && c == 0x66 && d == 0x31)
}

/// An ISO-BMFF `ftyp` box at the start whose major brand is a HEIF brand.
pub open spec fn has_heic_signature(h: Seq<u8>) -> bool {
    &&& h.len() >= 12
    &&& h[4] == 0x66 && h[5] == 0x74 && h[6] == 0x79 && h[7] == 0x70
    &&& is_heif_brand(h[8], h[9], h[10], h[11])
}

/// The format that the leading bytes `h` announce, checked in the order JPEG,
/// PNG, WebP, HEIC.
pub open spec fn spec_sniff_format(h: Seq<u8>) -> Option<ImageFormat> {
    if has_jpeg_signature(h) {
        Some(ImageFormat::Jpg)
    } else if has_png_signature(h) {
        Some(ImageFormat::Png)
    } else if has_webp_signature(h) {
        Some(ImageFormat::Webp)
    } else if has_heic_signature(h) {
        Some(ImageFormat::Heic)
    } else {
        None
    }
}

/// The format a lowercased extension names.
pub open spec fn spec_format_for_extension(ext: Seq<char>) -> Option<ImageFormat> {
    if ext == "jpg"@ || ext == "jpeg"@ {
        Some(ImageFormat::Jpg)
    } else if ext == "png"@ {
        Some(ImageFormat::Png)
    } else if ext == "webp"@ {
        Some(ImageFormat::Webp)
    } else if ext == "heic"@ || ext == "heif"@ {
        Some(ImageFormat::Heic)
    } else {
        None
    }
}

/// The name reported for a file whose format is not supported: its file
/// name, or `"unknown"`.
pub open spec fn unsupported_name(path: Seq<char>) -> Seq<char> {
    match spec_path_file_name(path) {
        Some(name) => name,
        None => "unknown"@,
    }
}

/// The format of the file at `path` whose leading bytes are `header`: the
/// signature decides; only without one does the extension (compared in
/// lowercase) decide.
pub open spec fn spec_detect_format(header: Seq<u8>, path: Seq<char>) -> Option<ImageFormat> {
    match spec_sniff_format(header) {
        Some(f) => Some(f),
        None => match spec_path_extension(path) {
            Some(ext) => spec_format_for_extension(spec_to_lowercase(ext)),
            None => None,
        },
    }
}

fn sniff_format(h: &[u8]) -> (r: Option<ImageFormat>)
    ensures
        r == spec_sniff_format(h@),
{
    let n = h.len();
    if n >= 3 && h[0] == 0xFF && h[1] == 0xD8 && h[2] == 0xFF {
        return Some(ImageFormat::Jpg);
    }
    if n >= 8 && h[0] == 0x89 && h[1] == 0x50 && h[2] == 0x4E && h[3] == 0x47 && h[4] == 0x0D
        && h[5] == 0x0A && h[6] == 0x1A && h[7] == 0x0A {
        return Some(ImageFormat::Png);
    }
    if n >= 12 && h[0] == 0x52 && h[1] == 0x49 && h[2] == 0x46 && h[3] == 0x46 && h[8] == 0x57
        && h[9] == 0x45 && h[10] == 0x42 && h[11] == 0x50 {
        return Some(ImageFormat::Webp);
    }
    if n >= 12 && h[4] == 0x66 && h[5] == 0x74 && h[6] == 0x79 && h[7] == 0x70 {
        let (a, b, c, d) = (h[8], h[9], h[10], h[11]);
        if (a == 0x68 && b == 0x65 && c == 0x69 && d == 0x63) || (a == 0x68 && b == 0x65 && c
            == 0x69 && d == 0x78) || (a == 0x68 && b == 0x65 && c == 0x76 && d == 0x63) || (a
            == 0x68 && b == 0x65 && c == 0x69 && d == 0x6d) || (a == 0x68 && b == 0x65 && c == 0x69
            && d == 0x73) || (a == 0x6d && b == 0x69 && c == 0x66 && d == 0x31) || (a == 0x6d && b
            == 0x73 && c == 0x66 && d == 0x31) {
            return Some(ImageFormat::Heic);
        }
    }
    None
}

/// `s == lit` on the characters.
fn same_text(s: &String, lit: &str) -> (r: bool)
    ensures
        r == (s@ == lit@),
{
    let other = String::from_str(lit);
    *s == other
}

fn format_for_extension(ext: &String) -> (r: Option<ImageFormat>)
    ensures
        r == spec_format_for_extension(ext@),
{
    if same_text(ext, "jpg") || same_text(ext, "jpeg") {
        Some(ImageFormat::Jpg)
    } else if same_text(ext, "png") {
        Some(ImageFormat::Png)
    } else if same_text(ext, "webp") {
        Some(ImageFormat::Webp)
    } else if same_text(ext, "heic") || same_text(ext, "heif") {
        Some(ImageFormat::Heic)
    } else {
        None
    }
}

/// Detects the format of the file at `path` from `header`, the bytes that
/// one read of up to 32 bytes at the start of the file returned, falling back
/// to the file's extension.
pub fn detect_format(header: &[u8], path: &str) -> (r: Result<ImageFormat, AppError>)
    ensures
        match spec_detect_format(header@, path@) {
            Some(f) => r == Ok::<ImageFormat, AppError>(f),
            None => r matches Err(AppError::UnsupportedFormat(name)) && name@ == unsupported_name(
                path@,
            ),
        },
{
    if let Some(f) = sniff_format(header) {
        return Ok(f);
    }
    if let Some(ext) = path_extension(path) {
        let lower = to_lowercase(ext.as_str());
        if let Some(f) = format_for_extension(&lower) {
            return Ok(f);
        }
    }
    let name = match path_file_name(path) {
        Some(name) => name,
        None => String::from_str("unknown"),
    };
    Err(AppError::UnsupportedFormat(name))
}

/// What libheif read from a HEIC file's primary image.
pub struct HeicProbe {
    pub width: u32,
    pub height: u32,
    pub has_alpha: bool,
    /// The number of metadata blocks of the primary image.
    pub metadata_blocks: i32,
    pub has_color_profile: bool,
}

/// What the codecs that run outside the library read from a file.
pub enum CodecProbe {
    /// JPEG: the width and height libjpeg-turbo read from the header, if it
    /// could read one.
    Jpeg { header: Option<(usize, usize)> },
    /// PNG: nothing beyond the contents.
    Png,
    /// WebP: nothing beyond the contents.
    Webp,
    /// HEIC: libheif's reading of the file (`Ok(None)` when the file opened
    /// but has no readable primary image), or the text of its error.
    Heic(Result<Option<HeicProbe>, String>),
}

/// The probe matches the detected format.
pub open spec fn probe_fits(format: ImageFormat, probe: CodecProbe) -> bool {
    match format {
        ImageFormat::Jpg => probe is Jpeg,
        ImageFormat::Png => probe is Png,
        ImageFormat::Webp => probe is Webp,
        ImageFormat::Heic => probe is Heic,
    }
}

/// The bytes of a file read in full, or the text of the read error.
pub open spec fn contents_view(c: Result<Vec<u8>, String>) -> Result<Seq<u8>, Seq<char>> {
    match c {
        Ok(d) => Ok(d@),
        Err(e) => Err(e@),
    }
}

/// Whether EXIF data was found in the file, and its orientation.
pub open spec fn exif_summary(contents: Result<Seq<u8>, Seq<char>>) -> (bool, Option<u32>) {
    match contents {
        Ok(d) => match spec_exif_orientation(d) {
            Some(o) => (true, o),
            None => (false, None),
        },
        Err(_) => (false, None),
    }
}

/// The label of an embedded ICC profile.
pub open spec fn embedded_icc() -> Seq<char> {
    "Embedded ICC"@
}

/// What the format's own probes found: width, height, alpha, the color
/// profile's label and whether they found metadata. Dimensions that a probe
/// could not read fall back to `fallback` (the image crate's reading of the
/// file), else stay 0.
pub open spec fn format_summary(
    format: ImageFormat,
    contents: Seq<u8>,
    fallback: Option<(u32, u32)>,
    probe: CodecProbe,
) -> (u32, u32, bool, Option<Seq<char>>, bool) {
    let (fw, fh) = match fallback {
        Some(d) => d,
        None => (0u32, 0u32),
    };
    match format {
        ImageFormat::Jpg => {
            let (hw, hh) = match probe {
                CodecProbe::Jpeg { header: Some((w, h)) } => (w as u32, h as u32),
                _ => (0u32, 0u32),
            };
            let (w, h) = if hw == 0 || hh == 0 {
                if fallback is Some {
                    (fw, fh)
                } else {
                    (hw, hh)
                }
            } else {
                (hw, hh)
            };
            let icc = match spec_jpeg_metadata(contents) {
                Some((Some(_), _)) => true,
                _ => false,
            };
            (w, h, false, if icc {
                Some(embedded_icc())
            } else {
                None
            }, icc)
        },
        ImageFormat::Png => match spec_png_header(contents) {
            Ok((_, _, color, icc, srgb)) => (
                fw,
                fh,
                color == PngColor::Rgba || color == PngColor::GrayscaleAlpha,
                if icc is Some {
                    Some(embedded_icc())
                } else if srgb {
                    Some("sRGB"@)
                } else {
                    None
                },
                icc is Some,
            ),
            Err(_) => (fw, fh, false, None, false),
        },
        ImageFormat::Webp => {
            let (w, h, alpha) = match spec_webp_decode(contents) {
                Some((w, h, alpha, _)) => (w, h, alpha),
                None => (fw, fh, false),
            };
            let (profile, meta) = match spec_webp_metadata(contents) {
                Some((icc, exif)) => (
                    if icc is Some {
                        Some(embedded_icc())
                    } else {
                        None
                    },
                    icc is Some || exif is Some,
                ),
                None => (None, false),
            };
            (w, h, alpha, profile, meta)
        },
        ImageFormat::Heic => match probe {
            CodecProbe::Heic(Ok(Some(hp))) => (
                hp.width,
                hp.height,
                hp.has_alpha,
                if hp.has_color_profile {
                    Some("Embedded Color Profile"@)
                } else {
                    None
                },
                hp.metadata_blocks > 0,
            ),
            _ => (0, 0, false, None, false),
        },
    }
}

/// The dimensions the image crate reads from the file at `path`, decoding it
/// as the format its extension names: none when the file could not be read
/// or has no extension.
pub open spec fn fallback_dims(contents: Result<Seq<u8>, Seq<char>>, path: Seq<char>) -> Option<(u32, u32)> {
    match contents {
        Ok(d) => match spec_path_extension(path) {
            Some(ext) => spec_image_dimensions(d, ext),
            None => None,
        },
        Err(_) => None,
    }
}

fn fallback_dimensions(read_ok: bool, data: &[u8], path: &str) -> (r: Option<(u32, u32)>)
    ensures
        r == fallback_dims(
            if read_ok {
                Ok::<Seq<u8>, Seq<char>>(data@)
            } else {
                Err::<Seq<u8>, Seq<char>>(Seq::empty())
            },
            path@,
        ),
{
    if !read_ok {
        return None;
    }
    match path_extension(path) {
        Some(ext) => image_dimensions(data, ext.as_str()),
        None => None,
    }
}

/// The file name reported for an inspected file: its file name, or `"image"`.
pub open spec fn inspected_name(path: Seq<char>) -> Seq<char> {
    match spec_path_file_name(path) {
        Some(name) => name,
        None => "image"@,
    }
}

/// What `inspect_contents` reports for the file at `path`.
pub open spec fn inspect_spec(
    path: Seq<char>,
    format: ImageFormat,
    file_size: u64,
    contents: Result<Seq<u8>, Seq<char>>,
    probe: CodecProbe,
    r: Result<ImageInfo, AppError>,
) -> bool {
    let name = inspected_name(path);
    if (format == ImageFormat::Jpg || format == ImageFormat::Webp) && contents is Err {
        r matches Err(AppError::IoError(msg)) && msg@ == contents->Err_0
    } else {
        match probe {
            CodecProbe::Heic(Err(msg)) => r matches Err(e) && is_decode_error(
                e,
                "Could not read this HEIC file. The file may be damaged or use an unsupported codec."@,
                "libheif context error: "@ + msg@,
            ),
            _ => {
                let (exif_found, orientation) = exif_summary(contents);
                let bytes = match contents {
                    Ok(d) => d,
                    Err(_) => Seq::empty(),
                };
                let (w, h, alpha, profile, meta) = format_summary(
                    format,
                    bytes,
                    fallback_dims(contents, path),
                    probe,
                );
                if w == 0 || h == 0 {
                    r matches Err(e) && is_decode_error(
                        e,
                        "Could not determine dimensions for "@ + name + "."@,
                        "Image dimensions are 0x0 or corrupted"@,
                    )
                } else {
                    r matches Ok(info) && info.id@.len() == 36 && info.path@ == path
                        && info.filename@ == name && info.format == format && info.width == w
                        && info.height == h && info.bytes == file_size && info.orientation
                        == orientation && info.has_alpha == alpha && match info.color_profile {
                        Some(p) => profile == Some(p@),
                        None => profile is None,
                    } && info.metadata_available == (exif_found || meta)
                }
            },
        }
    }
}

/// Assembles what an inspection learned about the file at `path`, detected as
/// `format`, of `file_size` bytes: `contents` is the file read in full (or
/// the read error) and `probe` what libjpeg-turbo or libheif read. EXIF
/// orientation, ICC profiles, the WebP and PNG headers and the image crate's
/// reading of the dimensions are taken here.
pub fn inspect_contents(
    path: &str,
    format: ImageFormat,
    file_size: u64,
    contents: Result<Vec<u8>, String>,
    probe: CodecProbe,
) -> (r: Result<ImageInfo, AppError>)
    requires
        probe_fits(format, probe),
    ensures
        inspect_spec(path@, format, file_size, contents_view(contents), probe, r),
{
    let filename = match path_file_name(path) {
        Some(name) => name,
        None => String::from_str("image"),
    };
    let read_ok = contents.is_ok();
    let data: Vec<u8> = match contents {
        Ok(d) => d,
        Err(msg) => {
            if format == ImageFormat::Jpg || format == ImageFormat::Webp {
                return Err(AppError::IoError(msg));
            }
            Vec::new()
        },
    };
    let mut metadata_available = false;
    let mut orientation: Option<u32> = None;
    if read_ok {
        if let Some(o) = exif_orientation(data.as_slice()) {
            metadata_available = true;
            orientation = o;
        }
    }
    let mut width: u32 = 0;
    let mut height: u32 = 0;
    let mut has_alpha = false;
    let mut color_profile: Option<String> = None;
    match format {
        ImageFormat::Jpg => {
            if let CodecProbe::Jpeg { header: Some((w, h)) } = &probe {
                width = *w as u32;
                height = *h as u32;
            }
            if width == 0 || height == 0 {
                if let Some((fw, fh)) = fallback_dimensions(read_ok, data.as_slice(), path) {
                    width = fw;
                    height = fh;
                }
            }
            if let Some((Some(_), _)) = jpeg_metadata(data.as_slice()) {
                color_profile = Some(String::from_str("Embedded ICC"));
                metadata_available = true;
            }
        },
        ImageFormat::Png => {
            if let Some((fw, fh)) = fallback_dimensions(read_ok, data.as_slice(), path) {
                width = fw;
                height = fh;
            }
            if let Ok(header) = png_header(data.as_slice()) {
                has_alpha = header.color == PngColor::Rgba || header.color == PngColor::GrayscaleAlpha;
                if header.icc_profile.is_some() {
                    color_profile = Some(String::from_str("Embedded ICC"));
                    metadata_available = true;
                } else if header.has_srgb {
                    color_profile = Some(String::from_str("sRGB"));
                }
            }
        },
        ImageFormat::Webp => {
            if let Some(image) = webp_decode(data.as_slice()) {
                width = image.width;
                height = image.height;
                has_alpha = image.has_alpha;
            } else if let Some((fw, fh)) = fallback_dimensions(read_ok, data.as_slice(), path) {
                width = fw;
                height = fh;
            }
            if let Some((icc, exif)) = webp_metadata(data.as_slice()) {
                if icc.is_some() {
                    color_profile = Some(String::from_str("Embedded ICC"));
                    metadata_available = true;
                }
                if exif.is_some() {
                    metadata_available = true;
                }
            }
        },
        ImageFormat::Heic => {
            match probe {
                CodecProbe::Heic(Ok(Some(hp))) => {
                    width = hp.width;
                    height = hp.height;
                    has_alpha = hp.has_alpha;
                    if hp.metadata_blocks > 0 {
                        metadata_available = true;
                    }
                    if hp.has_color_profile {
                        color_profile = Some(String::from_str("Embedded Color Profile"));
                    }
                },
                CodecProbe::Heic(Err(msg)) => {
                    let mut detail = String::from_str("libheif context error: ");
                    detail.append(msg.as_str());
                    return Err(
                        AppError::decode(
                            String::from_str(
                                "Could not read this HEIC file. The file may be damaged or use an unsupported codec.",
                            ),
                            detail,
                        ),
                    );
                },
                _ => {},
            }
        },
    }
    if width == 0 || height == 0 {
        let mut user = String::from_str("Could not determine dimensions for ");
        user.append(filename.as_str());
        user.append(".");
        return Err(
            AppError::decode(user, String::from_str("Image dimensions are 0x0 or corrupted")),
        );
    }
    Ok(
        ImageInfo {
            id: new_uuid(),
            path: String::from_str(path),
            filename,
            format,
            width,
            height,
            bytes: file_size,
            orientation,
            has_alpha,
            color_profile,
            metadata_available,
        },
    )
}

/// The file's signature outranks its name: whenever the leading bytes carry a
/// known signature, the detected format is the same for every path.
pub proof fn lemma_signature_outranks_extension(header: Seq<u8>, p1: Seq<char>, p2: Seq<char>)
    requires
        spec_sniff_format(header) is Some,
    ensures
        spec_detect_format(header, p1) == spec_detect_format(header, p2),
        spec_detect_format(header, p1) == spec_sniff_format(header),
{
}

/// Inspection is a function of the file and the codecs' readings: two
/// successful inspections of the same contents with the same readings agree
/// on every field but the fresh identifier.
pub proof fn lemma_inspection_is_deterministic(
    path: Seq<char>,
    format: ImageFormat,
    file_size: u64,
    contents: Result<Seq<u8>, Seq<char>>,
    probe: CodecProbe,
    a: ImageInfo,
    b: ImageInfo,
)
    requires
        inspect_spec(path, format, file_size, contents, probe, Ok(a)),
        inspect_spec(path, format, file_size, contents, probe, Ok(b)),
    ensures
        a.path@ == b.path@,
        a.filename@ == b.filename@,
        a.format == b.format,
        a.width == b.width,
        a.height == b.height,
        a.bytes == b.bytes,
        a.orientation == b.orientation,
        a.has_alpha == b.has_alpha,
        opt_chars(a.color_profile) == opt_chars(b.color_profile),
        a.metadata_available == b.metadata_available,
{
}

/// What an inspection reports about transparency: a JPEG never has alpha; a
/// readable PNG has alpha exactly when its header's color type is RGBA or
/// grayscale with alpha; a decodable WebP has alpha exactly when libwebp
/// decodes RGBA samples; a HEIC has alpha exactly when libheif reports an
/// alpha channel.
pub proof fn lemma_inspection_reports_alpha(
    path: Seq<char>,
    format: ImageFormat,
    file_size: u64,
    contents: Result<Seq<u8>, Seq<char>>,
    probe: CodecProbe,
    info: ImageInfo,
)
    requires
        inspect_spec(path, format, file_size, contents, probe, Ok(info)),
    ensures
        format == ImageFormat::Jpg ==> !info.has_alpha,
        format == ImageFormat::Png ==> (contents matches Ok(d) && spec_png_header(d) matches Ok(
            (_, _, color, _, _),
        ) ==> info.has_alpha == (color == PngColor::Rgba || color == PngColor::GrayscaleAlpha)),
        format == ImageFormat::Webp ==> (contents matches Ok(d) && spec_webp_decode(d) matches Some(
            (_, _, alpha, _),
        ) ==> info.has_alpha == alpha),
        format == ImageFormat::Heic ==> (probe matches CodecProbe::Heic(Ok(Some(hp)))
            ==> info.has_alpha == hp.has_alpha),
{
}

} // verus!
