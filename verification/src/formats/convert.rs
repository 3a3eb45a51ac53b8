//! The library's part of converting any supported format to JPEG: bringing
//! each source to opaque RGB pixels with its ICC profile and EXIF block, the
//! dimension check, and the injection of the metadata into the encoded JPEG.
//! libjpeg-turbo and libheif run outside the library.
use vstd::prelude::*;
use crate::codecs::{
    image_rgba, jpeg_metadata, jpeg_rewrite, opt_bytes, png_header, spec_image_rgba,
    spec_jpeg_metadata, spec_jpeg_rewrite, spec_png_header, spec_webp_decode, spec_webp_metadata,
    webp_decode, webp_metadata,
};
use crate::errors::{is_decode_error, AppError};
use crate::formats::composite::{composite_rgba_onto_white, composited};
use crate::formats::jpeg::jpeg_has_icc;
use crate::formats::{carries_icc, keep_part, kept};
use crate::models::{CompressionSettings, ImageInfo};
use crate::paths::{path_extension, spec_path_extension};
use crate::validation::verify_dimensions;

verus! {

/// Opaque RGB pixels of a source image, with the metadata that may travel to
/// the JPEG.
pub struct ConvertSource {
    pub width: u32,
    pub height: u32,
    pub rgb: Vec<u8>,
    pub icc: Option<Vec<u8>>,
    pub exif: Option<Vec<u8>>,
}

/// The ICC profile and EXIF block of the JPEG container `data`, or none of
/// them when it does not parse.
pub open spec fn jpeg_source_metadata(data: Seq<u8>) -> (Option<Seq<u8>>, Option<Seq<u8>>) {
    match spec_jpeg_metadata(data) {
        Some(parts) => parts,
        None => (None, None),
    }
}

/// A JPEG source: the RGB pixels libjpeg-turbo decoded from `data` at
/// `width`x`height` (taken as `u32`), with the container's ICC profile and
/// EXIF block.
pub fn jpeg_source(data: &[u8], width: usize, height: usize, rgb: Vec<u8>) -> (r: ConvertSource)
    ensures
        r.width == width as u32,
        r.height == height as u32,
        r.rgb@ == rgb@,
        (opt_bytes(r.icc), opt_bytes(r.exif)) == jpeg_source_metadata(data@),
{
    let (icc, exif) = match jpeg_metadata(data) {
        Some(parts) => parts,
        None => (None, None),
    };
    ConvertSource { width: width as u32, height: height as u32, rgb, icc, exif }
}

/// The ICC profile that the png crate reads from the PNG file `data`, if any.
pub open spec fn png_icc(data: Seq<u8>) -> Option<Seq<u8>> {
    match spec_png_header(data) {
        Ok((_, _, _, icc, _)) => icc,
        Err(_) => None,
    }
}

/// The extension of `path`, or nothing.
pub open spec fn extension_or_empty(path: Seq<char>) -> Seq<char> {
    match spec_path_extension(path) {
        Some(ext) => ext,
        None => Seq::empty(),
    }
}

/// What `png_source` makes of the PNG file `input` stored at `path`.
pub open spec fn png_source_spec(input: Seq<u8>, path: Seq<char>, r: Result<ConvertSource, AppError>) -> bool {
    match spec_image_rgba(input, extension_or_empty(path)) {
        Err(msg) => r matches Err(e) && is_decode_error(e, "Failed to read PNG image file"@, msg),
        Ok((w, h, rgba)) => r matches Ok(s) && s.width == w && s.height == h && s.rgb@ == composited(
            rgba,
        ) && opt_bytes(s.icc) == png_icc(input) && s.exif is None,
    }
}

/// A PNG source: the file `input` stored at `path`, decoded to RGBA with the
/// image crate as the format its extension names and composited over white,
/// with the file's ICC profile; PNG sources carry no EXIF block.
pub fn png_source(input: &[u8], path: &str) -> (r: Result<ConvertSource, AppError>)
    ensures
        png_source_spec(input@, path@, r),
{
    let ext = match path_extension(path) {
        Some(e) => e,
        None => String::new(),
    };
    let (width, height, rgba) = match image_rgba(input, ext.as_str()) {
        Ok(decoded) => decoded,
        Err(msg) => {
            return Err(AppError::decode(String::from_str("Failed to read PNG image file"), msg));
        },
    };
    let rgb = composite_rgba_onto_white(rgba.as_slice(), width as usize, height as usize);
    let icc = match png_header(input) {
        Ok(header) => header.icc_profile,
        Err(_) => None,
    };
    Ok(ConvertSource { width, height, rgb, icc, exif: None })
}

/// What `webp_source` makes of the WebP file `input`.
pub open spec fn webp_source_spec(input: Seq<u8>, r: Result<ConvertSource, AppError>) -> bool {
    match spec_webp_decode(input) {
        None => r matches Err(e) && is_decode_error(
            e,
            "Could not decode WebP image"@,
            "libwebp decode failed"@,
        ),
        Some((w, h, alpha, pixels)) => r matches Ok(s) && s.width == w && s.height == h && s.rgb@
            == (if alpha {
            composited(pixels)
        } else {
            pixels
        }) && (opt_bytes(s.icc), opt_bytes(s.exif)) == match spec_webp_metadata(input) {
            Some(parts) => parts,
            None => (None, None),
        },
    }
}

/// A WebP source: decoded with libwebp, composited over white when it has
/// alpha, with the container's ICC profile and EXIF block.
pub fn webp_source(input: &[u8]) -> (r: Result<ConvertSource, AppError>)
    ensures
        webp_source_spec(input@, r),
{
    let image = match webp_decode(input) {
        Some(image) => image,
        None => {
            return Err(
                AppError::decode(
                    String::from_str("Could not decode WebP image"),
                    String::from_str("libwebp decode failed"),
                ),
            );
        },
    };
    let rgb = if image.has_alpha {
        composite_rgba_onto_white(image.pixels.as_slice(), image.width as usize, image.height as usize)
    } else {
        image.pixels
    };
    let (icc, exif) = match webp_metadata(input) {
        Some(parts) => parts,
        None => (None, None),
    };
    Ok(ConvertSource { width: image.width, height: image.height, rgb, icc, exif })
}

/// The rows of a plane whose rows start `stride` bytes apart, each cut to its
/// first `row_len` bytes and laid end to end.
pub open spec fn unpadded(plane: Seq<u8>, stride: nat, row_len: nat, rows: nat) -> Seq<u8> {
    Seq::new(rows * row_len, |k: int| plane[(k / row_len as int) * stride as int + k % row_len as int])
}

proof fn lemma_row_index(y: int, x: int, stride: int, row_len: int, rows: int, len: int)
    requires
        0 <= y < rows,
        0 <= x < row_len,
        0 <= stride,
        (rows - 1) * stride + row_len <= len,
    ensures
        0 <= y * stride + x < len,
        y * stride + x <= (rows - 1) * stride + x,
{
    assert(y * stride <= (rows - 1) * stride) by (nonlinear_arith)
        requires
            y <= rows - 1,
            0 <= stride,
    ;
    assert(0 <= y * stride) by (nonlinear_arith)
        requires
            0 <= y,
            0 <= stride,
    ;
}

proof fn lemma_flat_index(y: int, x: int, row_len: int)
    requires
        0 <= y,
        0 <= x < row_len,
    ensures
        (y * row_len + x) / row_len == y,
        (y * row_len + x) % row_len == x,
{
    vstd::arithmetic::div_mod::lemma_fundamental_div_mod_converse(y * row_len + x, row_len, y, x);
}

/// Lays the first `row_len` bytes of each of `rows` rows, `stride` bytes
/// apart in `plane`, end to end.
pub fn unpad_rows(plane: &[u8], stride: usize, row_len: usize, rows: usize) -> (r: Vec<u8>)
    requires
        rows == 0 || (rows - 1) * stride + row_len <= plane@.len(),
    ensures
        r@ == unpadded(plane@, stride as nat, row_len as nat, rows as nat),
{
    let mut out: Vec<u8> = Vec::new();
    if row_len == 0 {
        assert(out@ =~= unpadded(plane@, stride as nat, row_len as nat, rows as nat));
        return out;
    }
    let mut y: usize = 0;
    while y < rows
        invariant
            rows == 0 || (rows - 1) * stride + row_len <= plane@.len(),
            row_len > 0,
            y <= rows,
            out@ =~= Seq::new(
                (y * row_len) as nat,
                |k: int| plane@[(k / row_len as int) * stride as int + k % row_len as int],
            ),
        decreases rows - y,
    {
        let mut x: usize = 0;
        while x < row_len
            invariant
                rows == 0 || (rows - 1) * stride + row_len <= plane@.len(),
                row_len > 0,
                y < rows,
                x <= row_len,
                out@ =~= Seq::new(
                    (y * row_len + x) as nat,
                    |k: int| plane@[(k / row_len as int) * stride as int + k % row_len as int],
                ),
            decreases row_len - x,
        {
            proof {
                lemma_row_index(
                    y as int,
                    x as int,
                    stride as int,
                    row_len as int,
                    rows as int,
                    plane@.len() as int,
                );
                lemma_flat_index(y as int, x as int, row_len as int);
                assert(plane@.len() == plane.len());
            }
            let at = y * stride + x;
            out.push(plane[at]);
            x = x + 1;
        }
        assert((y + 1) * row_len == y * row_len + row_len) by (nonlinear_arith);
        y = y + 1;
    }
    out
}

/// A HEIC source from the interleaved plane libheif decoded (RGBA when
/// `has_alpha`, else RGB, rows `stride` bytes apart): the rows are laid end to
/// end and composited over white when there is alpha. The EXIF block is the
/// one libheif read; HEIC sources carry no ICC profile.
pub fn heic_source(
    plane: &[u8],
    stride: usize,
    width: u32,
    height: u32,
    has_alpha: bool,
    exif: Option<Vec<u8>>,
) -> (r: ConvertSource)
    requires
        (if has_alpha {
            4int
        } else {
            3int
        }) * width <= usize::MAX,
        height == 0 || (height - 1) * stride + (if has_alpha {
            4int
        } else {
            3int
        }) * width <= plane@.len(),
    ensures
        r.width == width,
        r.height == height,
        r.rgb@ == (if has_alpha {
            composited(unpadded(plane@, stride as nat, 4 * width as nat, height as nat))
        } else {
            unpadded(plane@, stride as nat, 3 * width as nat, height as nat)
        }),
        r.icc is None,
        opt_bytes(r.exif) == opt_bytes(exif),
{
    let channels: usize = if has_alpha {
        4
    } else {
        3
    };
    let row_len = channels * (width as usize);
    let rows = unpad_rows(plane, stride, row_len, height as usize);
    let rgb = if has_alpha {
        composite_rgba_onto_white(rows.as_slice(), width as usize, height as usize)
    } else {
        rows
    };
    ConvertSource { width, height, rgb, icc: None, exif }
}

/// Checks the decoded source's dimensions against the inspected ones.
pub fn check_source(info: &ImageInfo, source: &ConvertSource) -> (r: Result<(), AppError>)
    ensures
        r is Ok <==> (info.width == source.width && info.height == source.height),
        r is Err ==> r == Err::<(), AppError>(
            AppError::DimensionMismatch {
                expected_w: info.width,
                expected_h: info.height,
                actual_w: source.width,
                actual_h: source.height,
            },
        ),
{
    verify_dimensions(info.width, info.height, source.width, source.height)
}

/// The encoded JPEG `encoded` after the source's metadata was injected, and
/// whether its color profile was: only when a wanted part is present are the
/// wanted parts set on the container, and the rewritten bytes replace the
/// encoded ones when writing succeeded. The profile counts as preserved when
/// it was wanted, the source had one, and the rewritten container holds one.
pub open spec fn injected(
    encoded: Seq<u8>,
    icc: Option<Seq<u8>>,
    exif: Option<Seq<u8>>,
    preserve_metadata: bool,
    preserve_color_profile: bool,
) -> (Seq<u8>, bool) {
    if (preserve_color_profile && icc is Some) || (preserve_metadata && exif is Some) {
        match spec_jpeg_rewrite(
            encoded,
            kept(preserve_color_profile, icc),
            kept(preserve_metadata, exif),
        ) {
            Some(Some(out)) => (
                out,
                preserve_color_profile && icc is Some && carries_icc(spec_jpeg_metadata(out)),
            ),
            _ => (encoded, false),
        }
    } else {
        (encoded, false)
    }
}

/// Injecting a source's metadata into the encoded JPEG either leaves it as
/// it is, or gives the container rewrite of it in which the ICC profile is
/// the source's exactly when the color profile is preserved and the EXIF
/// block is the source's exactly when metadata is preserved (each part is
/// left out otherwise). Nothing is rewritten when neither is preserved, and
/// the profile only counts as preserved when it was wanted, the source had
/// one, and the output holds one.
pub proof fn lemma_injection_follows_settings(
    encoded: Seq<u8>,
    icc: Option<Seq<u8>>,
    exif: Option<Seq<u8>>,
    preserve_metadata: bool,
    preserve_color_profile: bool,
)
    ensures
        ({
            let (out, preserved) = injected(
                encoded,
                icc,
                exif,
                preserve_metadata,
                preserve_color_profile,
            );
            &&& out == encoded || spec_jpeg_rewrite(
                encoded,
                if preserve_color_profile {
                    icc
                } else {
                    None
                },
                if preserve_metadata {
                    exif
                } else {
                    None
                },
            ) == Some(Some(out))
            &&& (!preserve_metadata && !preserve_color_profile) ==> (out == encoded && !preserved)
            &&& preserved ==> (preserve_color_profile && icc is Some && (spec_jpeg_metadata(out) matches Some(
                (Some(_), _),
            )))
        }),
{
}

/// Injects the source's ICC profile and EXIF block into the encoded JPEG as
/// the settings ask.
pub fn inject_metadata(
    encoded: Vec<u8>,
    icc: Option<Vec<u8>>,
    exif: Option<Vec<u8>>,
    settings: &CompressionSettings,
) -> (r: (Vec<u8>, bool))
    ensures
        (r.0@, r.1) == injected(
            encoded@,
            opt_bytes(icc),
            opt_bytes(exif),
            settings.preserve_metadata,
            settings.preserve_color_profile,
        ),
{
    let mut final_data = encoded;
    let mut preserved = false;
    let has_icc = icc.is_some();
    if (settings.preserve_color_profile && has_icc) || (settings.preserve_metadata
        && exif.is_some()) {
        let icc = keep_part(settings.preserve_color_profile, icc);
        let exif = keep_part(settings.preserve_metadata, exif);
        if let Some(Some(out)) = jpeg_rewrite(final_data.as_slice(), icc, exif) {
            if settings.preserve_color_profile && has_icc {
                preserved = jpeg_has_icc(out.as_slice());
            }
            final_data = out;
        }
    }
    (final_data, preserved)
}

} // verus!
