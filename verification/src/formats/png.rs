//! Lossless PNG optimization with oxipng, checked by an independent reader.
use vstd::prelude::*;
use crate::codecs::{oxipng_optimize, png_header, spec_oxipng_optimize, spec_png_header, ChunkStrip};
use crate::errors::{decode_error, encode_error, is_decode_error, is_encode_error, AppError};
use crate::formats::{png_level, spec_png_level, ProcessedOutput};
use crate::models::{CompressionSettings, ImageFormat, ImageInfo};
use crate::validation::verify_dimensions;

verus! {

/// What `compress_png` does to `input` for a file inspected as `w`x`h`:
/// oxipng runs at the preset's level with the safe chunk policy (its display
/// chunks `cICP`, `iCCP`, `sRGB`, `pHYs`, `acTL`, `fcTL` and `fdAT` stay; the
/// other ancillary chunks, vendor chunks among them, go) and keeps the
/// input's interlacing, whatever the metadata settings. The color profile
/// counts as preserved exactly when the settings ask for it.
pub open spec fn compress_png_spec(
    input: Seq<u8>,
    w: u32,
    h: u32,
    settings: CompressionSettings,
    r: Result<ProcessedOutput, AppError>,
) -> bool {
    match spec_oxipng_optimize(input, spec_png_level(settings.preset), ChunkStrip::Safe, None) {
        Err(msg) => r matches Err(e) && is_encode_error(
            e,
            "Failed to optimize PNG file."@,
            "oxipng error: "@ + msg,
        ),
        Ok(out) => match spec_png_header(out) {
            Err(msg) => r matches Err(e) && is_decode_error(
                e,
                "Optimized PNG cannot be decoded by independent reader."@,
                "png reader error: "@ + msg,
            ),
            Ok((ow, oh, _, _, _)) => if ow != w || oh != h {
                r == Err::<ProcessedOutput, AppError>(
                    AppError::DimensionMismatch {
                        expected_w: w,
                        expected_h: h,
                        actual_w: ow,
                        actual_h: oh,
                    },
                )
            } else {
                r matches Ok(o) && o.data@ == out && o.width == w && o.height == h && o.format
                    == ImageFormat::Png && o.color_profile_preserved
                    == settings.preserve_color_profile
            },
        },
    }
}

/// Optimizes the PNG file `input` losslessly and checks with an independent
/// reader that the dimensions are those of `info`.
pub fn compress_png(input: &[u8], info: &ImageInfo, settings: &CompressionSettings) -> (r: Result<
    ProcessedOutput,
    AppError,
>)
    ensures
        compress_png_spec(input@, info.width, info.height, *settings, r),
{
    let level = png_level(settings.preset);
    let optimized = match oxipng_optimize(input, level, ChunkStrip::Safe, None) {
        Ok(data) => data,
        Err(msg) => {
            return Err(encode_error("Failed to optimize PNG file.", "oxipng error: ", msg.as_str()));
        },
    };
    let header = match png_header(optimized.as_slice()) {
        Ok(h) => h,
        Err(msg) => {
            return Err(
                decode_error(
                    "Optimized PNG cannot be decoded by independent reader.",
                    "png reader error: ",
                    msg.as_str(),
                ),
            );
        },
    };
    verify_dimensions(info.width, info.height, header.width, header.height)?;
    Ok(
        ProcessedOutput {
            data: optimized,
            width: header.width,
            height: header.height,
            format: ImageFormat::Png,
            color_profile_preserved: settings.preserve_color_profile,
        },
    )
}

} // verus!
