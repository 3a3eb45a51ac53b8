//! The library's part of HEIC re-encoding: libheif decodes, encodes and reads
//! the result back (its calls run outside the library), while the dimension
//! checks and the shape of the result are decided here.
use vstd::prelude::*;
use crate::errors::AppError;
use crate::formats::ProcessedOutput;
use crate::models::{ImageFormat, ImageInfo};
use crate::validation::verify_dimensions;

verus! {

/// Accepts an encoded HEIC file that an independent reader read back as
/// `width`x`height` when those are the inspected dimensions. No ICC profile is
/// written into HEIC outputs, so the color profile never counts as preserved.
pub fn accept_heic(
    info: &ImageInfo,
    data: Vec<u8>,
    width: u32,
    height: u32,
) -> (r: Result<ProcessedOutput, AppError>)
    ensures
        (info.width == width && info.height == height) ==> (r matches Ok(o) && o.data@ == data@
            && o.width == width && o.height == height && o.format == ImageFormat::Heic
            && !o.color_profile_preserved),
        !(info.width == width && info.height == height) ==> r == Err::<ProcessedOutput, AppError>(
            AppError::DimensionMismatch {
                expected_w: info.width,
                expected_h: info.height,
                actual_w: width,
                actual_h: height,
            },
        ),
{
    verify_dimensions(info.width, info.height, width, height)?;
    Ok(
        ProcessedOutput {
            data,
            width,
            height,
            format: ImageFormat::Heic,
            color_profile_preserved: false,
        },
    )
}

} // verus!
