//! WebP re-encoding with libwebp; the ICC profile and EXIF block of the input
//! are carried into the new container with img-parts.
use vstd::prelude::*;
use crate::codecs::{
    spec_webp_decode, spec_webp_encode, spec_webp_metadata, spec_webp_rewrite, webp_decode,
    webp_encode, webp_metadata, webp_rewrite,
};
use crate::errors::{encode_error, is_decode_error, is_encode_error, AppError};
use crate::formats::{carries_icc, keep_part, kept, spec_webp_quality, webp_quality, ProcessedOutput};
use crate::models::{CompressionSettings, ImageFormat, ImageInfo};
use crate::validation::verify_dimensions;

verus! {

/// The encoded WebP `encoded` after the metadata of `input` was carried over,
/// and whether its color profile was: when metadata or the color profile is
/// preserved and both containers parse, the wanted parts of the input are set
/// on the new container, and the rewritten bytes replace the encoded ones
/// when writing succeeded. The profile counts as preserved when it was
/// wanted, the input had one, and the rewritten container holds one.
pub open spec fn webp_with_metadata(
    input: Seq<u8>,
    encoded: Seq<u8>,
    preserve_metadata: bool,
    preserve_color_profile: bool,
) -> (Seq<u8>, bool) {
    if preserve_metadata || preserve_color_profile {
        match spec_webp_metadata(input) {
            Some((icc, exif)) => match spec_webp_rewrite(
                encoded,
                kept(preserve_color_profile, icc),
                kept(preserve_metadata, exif),
            ) {
                Some(Some(out)) => (
                    out,
                    preserve_color_profile && icc is Some && carries_icc(spec_webp_metadata(out)),
                ),
                _ => (encoded, false),
            },
            None => (encoded, false),
        }
    } else {
        (encoded, false)
    }
}

/// Whether img-parts reads an ICC profile from the WebP container `data`.
fn webp_has_icc(data: &[u8]) -> (r: bool)
    ensures
        r == carries_icc(spec_webp_metadata(data@)),
{
    match webp_metadata(data) {
        Some((Some(_), _)) => true,
        _ => false,
    }
}

fn carry_webp_metadata(input: &[u8], encoded: Vec<u8>, settings: &CompressionSettings) -> (r: (
    Vec<u8>,
    bool,
))
    ensures
        (r.0@, r.1) == webp_with_metadata(
            input@,
            encoded@,
            settings.preserve_metadata,
            settings.preserve_color_profile,
        ),
{
    let mut final_data = encoded;
    let mut preserved = false;
    if settings.preserve_metadata || settings.preserve_color_profile {
        if let Some((icc, exif)) = webp_metadata(input) {
            let had_icc = icc.is_some();
            let icc = keep_part(settings.preserve_color_profile, icc);
            let exif = keep_part(settings.preserve_metadata, exif);
            if let Some(Some(out)) = webp_rewrite(final_data.as_slice(), icc, exif) {
                if settings.preserve_color_profile && had_icc {
                    preserved = webp_has_icc(out.as_slice());
                }
                final_data = out;
            }
        }
    }
    (final_data, preserved)
}

/// Carrying WebP metadata either leaves the re-encoded file as it is, or
/// gives the container rewrite of it in which the ICC profile is the input's
/// exactly when the color profile is preserved and the EXIF block is the
/// input's exactly when metadata is preserved (each part is left out
/// otherwise). Nothing is rewritten when neither is preserved, and the
/// profile only counts as preserved when it was wanted, the input had one,
/// and the output holds one.
pub proof fn lemma_webp_metadata_follows_settings(
    input: Seq<u8>,
    encoded: Seq<u8>,
    preserve_metadata: bool,
    preserve_color_profile: bool,
)
    ensures
        ({
            let (out, preserved) = webp_with_metadata(
                input,
                encoded,
                preserve_metadata,
                preserve_color_profile,
            );
            &&& out == encoded || (spec_webp_metadata(input) matches Some((icc, exif))
                && spec_webp_rewrite(
                encoded,
                if preserve_color_profile {
                    icc
                } else {
                    None
                },
                if preserve_metadata {
                    exif
                } else {
                    None
                },
            ) == Some(Some(out)))
            &&& (!preserve_metadata && !preserve_color_profile) ==> (out == encoded && !preserved)
            &&& preserved ==> (preserve_color_profile && (spec_webp_metadata(input) matches Some(
                (Some(_), _),
            )) && (spec_webp_metadata(out) matches Some((Some(_), _))))
        }),
{
}

/// What `compress_webp` does to `input` for a file inspected as `w`x`h`.
pub open spec fn compress_webp_spec(
    input: Seq<u8>,
    w: u32,
    h: u32,
    settings: CompressionSettings,
    r: Result<ProcessedOutput, AppError>,
) -> bool {
    match spec_webp_decode(input) {
        None => r matches Err(e) && is_decode_error(
            e,
            "Could not decode WebP image. File may be corrupted or invalid."@,
            "libwebp Decoder::decode returned None"@,
        ),
        Some((dw, dh, alpha, pixels)) => if dw != w || dh != h {
            r == Err::<ProcessedOutput, AppError>(
                AppError::DimensionMismatch { expected_w: w, expected_h: h, actual_w: dw, actual_h: dh },
            )
        } else {
            match spec_webp_encode(pixels, dw, dh, alpha, spec_webp_quality(settings.preset)) {
                Err(msg) => r matches Err(e) && is_encode_error(
                    e,
                    "Could not encode WebP image."@,
                    "libwebp encode error: "@ + msg,
                ),
                Ok(encoded) => {
                    let (data, preserved) = webp_with_metadata(
                        input,
                        encoded,
                        settings.preserve_metadata,
                        settings.preserve_color_profile,
                    );
                    match spec_webp_decode(data) {
                        None => r matches Err(e) && is_decode_error(
                            e,
                            "Compressed WebP cannot be decoded by independent reader."@,
                            "Decoder::decode returned None on verified output"@,
                        ),
                        Some((vw, vh, _, _)) => if vw != w || vh != h {
                            r == Err::<ProcessedOutput, AppError>(
                                AppError::DimensionMismatch {
                                    expected_w: w,
                                    expected_h: h,
                                    actual_w: vw,
                                    actual_h: vh,
                                },
                            )
                        } else {
                            r matches Ok(o) && o.data@ == data && o.width == w && o.height == h
                                && o.format == ImageFormat::Webp && o.color_profile_preserved
                                == preserved
                        },
                    }
                },
            }
        },
    }
}

/// Re-encodes the WebP file `input` at the preset's quality, carries its ICC
/// profile and EXIF block over as the settings ask, and checks with an
/// independent decode that the dimensions are those of `info`. A picture
/// that libwebp cannot encode is reported as an encoding failure.
pub fn compress_webp(input: &[u8], info: &ImageInfo, settings: &CompressionSettings) -> (r: Result<
    ProcessedOutput,
    AppError,
>)
    ensures
        compress_webp_spec(input@, info.width, info.height, *settings, r),
{
    let image = match webp_decode(input) {
        Some(image) => image,
        None => {
            return Err(
                AppError::decode(
                    String::from_str("Could not decode WebP image. File may be corrupted or invalid."),
                    String::from_str("libwebp Decoder::decode returned None"),
                ),
            );
        },
    };
    verify_dimensions(info.width, info.height, image.width, image.height)?;
    let encoded = match webp_encode(
        image.pixels.as_slice(),
        image.width,
        image.height,
        image.has_alpha,
        webp_quality(settings.preset),
    ) {
        Ok(data) => data,
        Err(msg) => {
            return Err(
                encode_error("Could not encode WebP image.", "libwebp encode error: ", msg.as_str()),
            );
        },
    };
    let (final_data, preserved) = carry_webp_metadata(input, encoded, settings);
    let verified = match webp_decode(final_data.as_slice()) {
        Some(v) => v,
        None => {
            return Err(
                AppError::decode(
                    String::from_str("Compressed WebP cannot be decoded by independent reader."),
                    String::from_str("Decoder::decode returned None on verified output"),
                ),
            );
        },
    };
    verify_dimensions(info.width, info.height, verified.width, verified.height)?;
    Ok(
        ProcessedOutput {
            data: final_data,
            width: verified.width,
            height: verified.height,
            format: ImageFormat::Webp,
            color_profile_preserved: preserved,
        },
    )
}

} // verus!
