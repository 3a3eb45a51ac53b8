//! The error type of the pipeline and the texts shown for it.
use vstd::prelude::*;
use crate::text::{decimal, push_decimal};

verus! {

/// Every way in which inspecting or processing a file can fail.
#[derive(Debug, Clone)]
pub enum AppError {
    UnsupportedFormat(String),
    DimensionMismatch { expected_w: u32, expected_h: u32, actual_w: u32, actual_h: u32 },
    DecodeFailed { user_message: String, technical_detail: String },
    EncodeFailed { user_message: String, technical_detail: String },
    IoError(String),
    NoSavings,
    Cancelled,
    Validation(String),
}

/// `"{w}x{h}"`.
pub open spec fn dims_text(w: u32, h: u32) -> Seq<char> {
    decimal(w as nat) + "x"@ + decimal(h as nat)
}

/// The message a person sees for `e`.
pub open spec fn spec_user_friendly_message(e: AppError) -> Seq<char> {
    match e {
        AppError::UnsupportedFormat(fmt) => "Unsupported file type: "@ + fmt@,
        AppError::DimensionMismatch { expected_w, expected_h, actual_w, actual_h } =>
            "Output dimensions changed unexpectedly ("@ + dims_text(actual_w, actual_h)
                + " instead of "@ + dims_text(expected_w, expected_h) + ")."@,
        AppError::DecodeFailed { user_message, .. } => user_message@,
        AppError::EncodeFailed { user_message, .. } => user_message@,
        AppError::IoError(msg) => "File access error: "@ + msg@,
        AppError::NoSavings => "No meaningful savings found. Original file retained."@,
        AppError::Cancelled => "Operation cancelled."@,
        AppError::Validation(msg) => msg@,
    }
}

/// The one-line description of `e` used in logs and at the IPC boundary.
pub open spec fn spec_description(e: AppError) -> Seq<char> {
    match e {
        AppError::UnsupportedFormat(fmt) => "Unsupported file format: "@ + fmt@,
        AppError::DimensionMismatch { expected_w, expected_h, actual_w, actual_h } =>
            "Output dimensions changed unexpectedly: expected "@ + dims_text(expected_w, expected_h)
                + ", got "@ + dims_text(actual_w, actual_h),
        AppError::DecodeFailed { user_message, .. } => "Could not read image file: "@ + user_message@,
        AppError::EncodeFailed { user_message, .. } => "Could not compress image: "@ + user_message@,
        AppError::IoError(msg) => "File operation failed: "@ + msg@,
        AppError::NoSavings => "No meaningful savings found. Original file retained."@,
        AppError::Cancelled => "Operation was cancelled"@,
        AppError::Validation(msg) => "Validation failed: "@ + msg@,
    }
}

/// Appends `"{w}x{h}"` to `s`.
fn push_dims(s: &mut String, w: u32, h: u32)
    ensures
        final(s)@ == old(s)@ + dims_text(w, h),
{
    push_decimal(s, w as u64);
    s.append("x");
    push_decimal(s, h as u64);
}

/// A string made of `prefix` followed by `rest`.
fn joined(prefix: &str, rest: &str) -> (r: String)
    ensures
        r@ == prefix@ + rest@,
{
    let mut s = String::from_str(prefix);
    s.append(rest);
    s
}

impl AppError {
    /// A decoding failure with its user-facing message and its technical detail.
    pub fn decode(user_message: String, technical_detail: String) -> (r: Self)
        ensures
            r == (AppError::DecodeFailed { user_message, technical_detail }),
    {
        AppError::DecodeFailed { user_message, technical_detail }
    }

    /// An encoding failure with its user-facing message and its technical detail.
    pub fn encode(user_message: String, technical_detail: String) -> (r: Self)
        ensures
            r == (AppError::EncodeFailed { user_message, technical_detail }),
    {
        AppError::EncodeFailed { user_message, technical_detail }
    }

    pub fn user_friendly_message(&self) -> (r: String)
        ensures
            r@ == spec_user_friendly_message(*self),
    {
        match self {
            AppError::UnsupportedFormat(fmt) => joined("Unsupported file type: ", fmt.as_str()),
            AppError::DimensionMismatch { expected_w, expected_h, actual_w, actual_h } => {
                let mut s = String::from_str("Output dimensions changed unexpectedly (");
                push_dims(&mut s, *actual_w, *actual_h);
                s.append(" instead of ");
                push_dims(&mut s, *expected_w, *expected_h);
                s.append(").");
                s
            },
            AppError::DecodeFailed { user_message, .. } => user_message.clone(),
            AppError::EncodeFailed { user_message, .. } => user_message.clone(),
            AppError::IoError(msg) => joined("File access error: ", msg.as_str()),
            AppError::NoSavings => String::from_str(
                "No meaningful savings found. Original file retained.",
            ),
            AppError::Cancelled => String::from_str("Operation cancelled."),
            AppError::Validation(msg) => msg.clone(),
        }
    }

    /// The one-line description of the error.
    pub fn description(&self) -> (r: String)
        ensures
            r@ == spec_description(*self),
    {
        match self {
            AppError::UnsupportedFormat(fmt) => joined("Unsupported file format: ", fmt.as_str()),
            AppError::DimensionMismatch { expected_w, expected_h, actual_w, actual_h } => {
                let mut s = String::from_str("Output dimensions changed unexpectedly: expected ");
                push_dims(&mut s, *expected_w, *expected_h);
                s.append(", got ");
                push_dims(&mut s, *actual_w, *actual_h);
                s
            },
            AppError::DecodeFailed { user_message, .. } => joined(
                "Could not read image file: ",
                user_message.as_str(),
            ),
            AppError::EncodeFailed { user_message, .. } => joined(
                "Could not compress image: ",
                user_message.as_str(),
            ),
            AppError::IoError(msg) => joined("File operation failed: ", msg.as_str()),
            AppError::NoSavings => String::from_str(
                "No meaningful savings found. Original file retained.",
            ),
            AppError::Cancelled => String::from_str("Operation was cancelled"),
            AppError::Validation(msg) => joined("Validation failed: ", msg.as_str()),
        }
    }
}

} // verus!

verus! {

/// `e` is a decoding failure with exactly these texts.
pub open spec fn is_decode_error(e: AppError, user: Seq<char>, detail: Seq<char>) -> bool {
    e matches AppError::DecodeFailed { user_message, technical_detail } && user_message@ == user
        && technical_detail@ == detail
}

/// `e` is an encoding failure with exactly these texts.
pub open spec fn is_encode_error(e: AppError, user: Seq<char>, detail: Seq<char>) -> bool {
    e matches AppError::EncodeFailed { user_message, technical_detail } && user_message@ == user
        && technical_detail@ == detail
}

/// A decoding failure with the fixed message `user` and the detail `prefix`
/// followed by `detail`.
pub fn decode_error(user: &str, prefix: &str, detail: &str) -> (e: AppError)
    ensures
        is_decode_error(e, user@, prefix@ + detail@),
{
    AppError::decode(String::from_str(user), joined(prefix, detail))
}

/// An encoding failure with the fixed message `user` and the detail `prefix`
/// followed by `detail`.
pub fn encode_error(user: &str, prefix: &str, detail: &str) -> (e: AppError)
    ensures
        is_encode_error(e, user@, prefix@ + detail@),
{
    AppError::encode(String::from_str(user), joined(prefix, detail))
}

} // verus!
