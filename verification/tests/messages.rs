use imageforge_lib::errors::AppError;
use imageforge_lib::models::{CompressionPreset, CompressionSettings, ImageFormat, OutputMode};
use imageforge_lib::text::decimal_string;

#[test]
fn decimal_rendering_matches_format() {
    for n in [0u64, 7, 10, 99, 100, 1920, 4_294_967_295, u64::MAX] {
        assert_eq!(decimal_string(n), format!("{n}"));
    }
}

#[test]
fn user_friendly_messages() {
    assert_eq!(
        AppError::UnsupportedFormat("notes.txt".to_string()).user_friendly_message(),
        "Unsupported file type: notes.txt"
    );
    assert_eq!(
        AppError::DimensionMismatch { expected_w: 1920, expected_h: 1080, actual_w: 1280, actual_h: 720 }
            .user_friendly_message(),
        "Output dimensions changed unexpectedly (1280x720 instead of 1920x1080)."
    );
    assert_eq!(
        AppError::decode("bad file".to_string(), "detail".to_string()).user_friendly_message(),
        "bad file"
    );
    assert_eq!(
        AppError::encode("cannot encode".to_string(), "detail".to_string()).user_friendly_message(),
        "cannot encode"
    );
    assert_eq!(
        AppError::IoError("denied".to_string()).user_friendly_message(),
        "File access error: denied"
    );
    assert_eq!(
        AppError::NoSavings.user_friendly_message(),
        "No meaningful savings found. Original file retained."
    );
    assert_eq!(AppError::Cancelled.user_friendly_message(), "Operation cancelled.");
    assert_eq!(AppError::Validation("bad".to_string()).user_friendly_message(), "bad");
}

#[test]
fn descriptions() {
    assert_eq!(
        AppError::UnsupportedFormat("a.gif".to_string()).description(),
        "Unsupported file format: a.gif"
    );
    assert_eq!(
        AppError::DimensionMismatch { expected_w: 4, expected_h: 3, actual_w: 2, actual_h: 1 }.description(),
        "Output dimensions changed unexpectedly: expected 4x3, got 2x1"
    );
    assert_eq!(
        AppError::decode("x".to_string(), "y".to_string()).description(),
        "Could not read image file: x"
    );
    assert_eq!(
        AppError::encode("x".to_string(), "y".to_string()).description(),
        "Could not compress image: x"
    );
    assert_eq!(AppError::IoError("z".to_string()).description(), "File operation failed: z");
    assert_eq!(AppError::Cancelled.description(), "Operation was cancelled");
    assert_eq!(AppError::Validation("v".to_string()).description(), "Validation failed: v");
}

#[test]
fn decode_and_encode_keep_both_texts() {
    match AppError::decode("user".to_string(), "tech".to_string()) {
        AppError::DecodeFailed { user_message, technical_detail } => {
            assert_eq!(user_message, "user");
            assert_eq!(technical_detail, "tech");
        }
        _ => panic!("expected a decode failure"),
    }
    match AppError::encode("user".to_string(), "tech".to_string()) {
        AppError::EncodeFailed { user_message, technical_detail } => {
            assert_eq!(user_message, "user");
            assert_eq!(technical_detail, "tech");
        }
        _ => panic!("expected an encode failure"),
    }
}

#[test]
fn format_names() {
    assert_eq!(ImageFormat::Jpg.extension(), "jpg");
    assert_eq!(ImageFormat::Png.extension(), "png");
    assert_eq!(ImageFormat::Webp.extension(), "webp");
    assert_eq!(ImageFormat::Heic.extension(), "heic");
    assert_eq!(ImageFormat::Jpg.display_name(), "JPG");
    assert_eq!(ImageFormat::Png.display_name(), "PNG");
    assert_eq!(ImageFormat::Webp.display_name(), "WebP");
    assert_eq!(ImageFormat::Heic.display_name(), "HEIC");
}

#[test]
fn default_settings() {
    let s = CompressionSettings::default();
    assert_eq!(s.preset, CompressionPreset::Balanced);
    assert_eq!(s.output_mode, OutputMode::SameFormat);
    assert!(s.preserve_metadata);
    assert!(s.preserve_color_profile);
    assert_eq!(s.custom_output_dir, None);
    assert_eq!(s.filename_suffix.as_deref(), Some("-compressed"));
    assert_eq!(CompressionPreset::default(), CompressionPreset::Balanced);
    assert_eq!(OutputMode::default(), OutputMode::SameFormat);
}
