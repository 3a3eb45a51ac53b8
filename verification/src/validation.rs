//! The dimension invariant and the savings rule.
use vstd::prelude::*;
use crate::errors::AppError;
use crate::models::OutputMode;

verus! {

/// Millionths of a percent in a whole: `100 * 1_000_000`.
pub const PERCENT_MICROS_SCALE: u64 = 100_000_000;

/// Checks that processing kept the raster dimensions.
pub fn verify_dimensions(input_w: u32, input_h: u32, output_w: u32, output_h: u32) -> (r: Result<
    (),
    AppError,
>)
    ensures
        r is Ok <==> (input_w == output_w && input_h == output_h),
        r is Err ==> r == Err::<(), AppError>(
            AppError::DimensionMismatch {
                expected_w: input_w,
                expected_h: input_h,
                actual_w: output_w,
                actual_h: output_h,
            },
        ),
{
    if input_w != output_w || input_h != output_h {
        return Err(
            AppError::DimensionMismatch {
                expected_w: input_w,
                expected_h: input_h,
                actual_w: output_w,
                actual_h: output_h,
            },
        );
    }
    Ok(())
}

/// Bytes saved, the saved share in millionths of a percent (rounded down), and
/// whether the candidate output is kept.
///
/// A smaller output is always kept. An output that is not smaller saves
/// nothing; it is kept only when the format changes (conversion to JPEG).
pub open spec fn spec_savings(input_bytes: u64, output_bytes: u64, mode: OutputMode) -> (
    nat,
    nat,
    bool,
) {
    if output_bytes < input_bytes {
        let saved = (input_bytes - output_bytes) as nat;
        (saved, saved * (PERCENT_MICROS_SCALE as nat) / (input_bytes as nat), true)
    } else {
        (0, 0, mode == OutputMode::ConvertToJpg)
    }
}

/// The savings rule: a smaller output is kept, and the bytes saved plus the
/// output's size give the input's size, while the saved share `m` (in
/// millionths of a percent) is the largest whole number with
/// `m * input <= saved * 100_000_000`, so at most a whole 100%. An output
/// that is not smaller saves nothing and is kept only when converting.
pub proof fn lemma_savings_rule(input_bytes: u64, output_bytes: u64, mode: OutputMode)
    ensures
        ({
            let (saved, micros, keep) = spec_savings(input_bytes, output_bytes, mode);
            &&& output_bytes < input_bytes ==> {
                &&& keep
                &&& saved + output_bytes == input_bytes
                &&& micros * input_bytes <= saved * 100_000_000
                &&& saved * 100_000_000 < (micros + 1) * input_bytes
                &&& micros <= 100_000_000
            }
            &&& output_bytes >= input_bytes ==> {
                &&& saved == 0
                &&& micros == 0
                &&& keep == (mode == OutputMode::ConvertToJpg)
            }
        }),
{
    if output_bytes < input_bytes {
        let saved = (input_bytes - output_bytes) as nat;
        let n = saved * 100_000_000;
        let d = input_bytes as nat;
        vstd::arithmetic::div_mod::lemma_fundamental_div_mod(n as int, d as int);
        assert(0 <= n % d < d) by {
            vstd::arithmetic::div_mod::lemma_mod_bound(n as int, d as int);
        }
        assert((n / d) * d <= n < (n / d + 1) * d) by (nonlinear_arith)
            requires
                n == d * (n / d) + n % d,
                0 <= n % d < d,
        ;
        assert(n / d <= 100_000_000) by (nonlinear_arith)
            requires
                saved <= d,
                d > 0,
                n == saved * 100_000_000,
        {
            assert(n <= d * 100_000_000);
        }
    }
}

pub fn calculate_savings(input_bytes: u64, output_bytes: u64, output_mode: OutputMode) -> (r: (
    u64,
    u64,
    bool,
))
    ensures
        (r.0 as nat, r.1 as nat, r.2) == spec_savings(input_bytes, output_bytes, output_mode),
        r.1 <= PERCENT_MICROS_SCALE,
        r.0 <= input_bytes,
{
    if output_bytes < input_bytes {
        let saved_bytes = input_bytes - output_bytes;
        let scaled: u128 = (saved_bytes as u128) * (PERCENT_MICROS_SCALE as u128);
        let micros: u128 = scaled / (input_bytes as u128);
        assert(micros <= PERCENT_MICROS_SCALE) by (nonlinear_arith)
            requires
                scaled == saved_bytes * PERCENT_MICROS_SCALE,
                micros == scaled / (input_bytes as u128),
                saved_bytes <= input_bytes,
                input_bytes > 0,
        {
            assert(saved_bytes * PERCENT_MICROS_SCALE <= input_bytes * PERCENT_MICROS_SCALE);
        }
        (saved_bytes, micros as u64, true)
    } else {
        match output_mode {
            OutputMode::SameFormat => (0, 0, false),
            OutputMode::ConvertToJpg => (0, 0, true),
        }
    }
}

} // verus!
