//! The library's part of JPEG re-encoding: libjpeg-turbo decodes and encodes
//! (its calls run outside the library), while the dimension checks and the
//! transfer of the ICC profile and EXIF block with img-parts run here.
use vstd::prelude::*;
use crate::codecs::{jpeg_metadata, jpeg_rewrite, spec_jpeg_metadata, spec_jpeg_rewrite};
use crate::errors::AppError;
use crate::formats::{carries_icc, keep_part, kept, ProcessedOutput};
use crate::models::{CompressionSettings, ImageFormat, ImageInfo};
use crate::validation::verify_dimensions;

verus! {

/// Checks the dimensions libjpeg-turbo read from the input's header against
/// the inspected ones (the header's sizes are taken as `u32`).
pub fn check_jpeg_header(info: &ImageInfo, width: usize, height: usize) -> (r: Result<(), AppError>)
    ensures
        r is Ok <==> (info.width == width as u32 && info.height == height as u32),
        r is Err ==> r == Err::<(), AppError>(
            AppError::DimensionMismatch {
                expected_w: info.width,
                expected_h: info.height,
                actual_w: width as u32,
                actual_h: height as u32,
            },
        ),
{
    verify_dimensions(info.width, info.height, width as u32, height as u32)
}

/// The re-encoded JPEG `encoded` after the metadata of the input JPEG `input`
/// was carried over, and whether its color profile was: when metadata or the
/// color profile is preserved and both containers parse, the wanted parts of
/// the input are set on the new container, and the rewritten bytes replace
/// the encoded ones when writing succeeded. The profile counts as preserved
/// when it was wanted, the input had one, and the rewritten container holds
/// one (img-parts drops a profile too large for 255 segments).
pub open spec fn jpeg_with_metadata(
    input: Seq<u8>,
    encoded: Seq<u8>,
    preserve_metadata: bool,
    preserve_color_profile: bool,
) -> (Seq<u8>, bool) {
    if preserve_metadata || preserve_color_profile {
        match spec_jpeg_metadata(input) {
            Some((icc, exif)) => match spec_jpeg_rewrite(
                encoded,
                kept(preserve_color_profile, icc),
                kept(preserve_metadata, exif),
            ) {
                Some(Some(out)) => (
                    out,
                    preserve_color_profile && icc is Some && carries_icc(spec_jpeg_metadata(out)),
                ),
                _ => (encoded, false),
            },
            None => (encoded, false),
        }
    } else {
        (encoded, false)
    }
}

/// Whether img-parts reads an ICC profile from the JPEG container `data`.
pub fn jpeg_has_icc(data: &[u8]) -> (r: bool)
    ensures
        r == carries_icc(spec_jpeg_metadata(data@)),
{
    match jpeg_metadata(data) {
        Some((Some(_), _)) => true,
        _ => false,
    }
}

/// Carries the ICC profile and EXIF block of the input JPEG `input` into the
/// re-encoded JPEG `encoded`, as the settings ask.
pub fn carry_jpeg_metadata(input: &[u8], encoded: Vec<u8>, settings: &CompressionSettings) -> (r: (
    Vec<u8>,
    bool,
))
    ensures
        (r.0@, r.1) == jpeg_with_metadata(
            input@,
            encoded@,
            settings.preserve_metadata,
            settings.preserve_color_profile,
        ),
{
    let mut final_data = encoded;
    let mut preserved = false;
    if settings.preserve_metadata || settings.preserve_color_profile {
        if let Some((icc, exif)) = jpeg_metadata(input) {
            let had_icc = icc.is_some();
            let icc = keep_part(settings.preserve_color_profile, icc);
            let exif = keep_part(settings.preserve_metadata, exif);
            if let Some(Some(out)) = jpeg_rewrite(final_data.as_slice(), icc, exif) {
                if settings.preserve_color_profile && had_icc {
                    preserved = jpeg_has_icc(out.as_slice());
                }
                final_data = out;
            }
        }
    }
    (final_data, preserved)
}

/// Carrying JPEG metadata either leaves the re-encoded file as it is, or
/// gives the container rewrite of it in which the ICC profile is the input's
/// exactly when the color profile is preserved and the EXIF block is the
/// input's exactly when metadata is preserved (each part is left out
/// otherwise). Nothing is rewritten when neither is preserved, and the
/// profile only counts as preserved when it was wanted, the input had one,
/// and the output holds one.
pub proof fn lemma_jpeg_metadata_follows_settings(
    input: Seq<u8>,
    encoded: Seq<u8>,
    preserve_metadata: bool,
    preserve_color_profile: bool,
)
    ensures
        ({
            let (out, preserved) = jpeg_with_metadata(
                input,
                encoded,
                preserve_metadata,
                preserve_color_profile,
            );
            &&& out == encoded || (spec_jpeg_metadata(input) matches Some((icc, exif))
                && spec_jpeg_rewrite(
                encoded,
                if preserve_color_profile {
                    icc
                } else {
                    None
                },
                if preserve_metadata {
                    exif
                } else {
                    None
                },
            ) == Some(Some(out)))
            &&& (!preserve_metadata && !preserve_color_profile) ==> (out == encoded && !preserved)
            &&& preserved ==> (preserve_color_profile && (spec_jpeg_metadata(input) matches Some(
                (Some(_), _),
            )) && (spec_jpeg_metadata(out) matches Some((Some(_), _))))
        }),
{
}

/// Accepts a finished JPEG whose header an independent decoder read as
/// `width`x`height` (taken as `u32`) when those are the inspected dimensions.
pub fn accept_jpeg(
    info: &ImageInfo,
    data: Vec<u8>,
    width: usize,
    height: usize,
    color_profile_preserved: bool,
) -> (r: Result<ProcessedOutput, AppError>)
    ensures
        (info.width == width as u32 && info.height == height as u32) ==> (r matches Ok(o) && o.data@
            == data@ && o.width == info.width && o.height == info.height && o.format
            == ImageFormat::Jpg && o.color_profile_preserved == color_profile_preserved),
        !(info.width == width as u32 && info.height == height as u32) ==> r == Err::<
            ProcessedOutput,
            AppError,
        >(
            AppError::DimensionMismatch {
                expected_w: info.width,
                expected_h: info.height,
                actual_w: width as u32,
                actual_h: height as u32,
            },
        ),
{
    verify_dimensions(info.width, info.height, width as u32, height as u32)?;
    Ok(
        ProcessedOutput {
            data,
            width: width as u32,
            height: height as u32,
            format: ImageFormat::Jpg,
            color_profile_preserved,
        },
    )
}

} // verus!
