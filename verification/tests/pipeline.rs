//! The library's engines and per-file state machine driven in memory: a map
//! stands for the output directory.
use image::{ImageBuffer, Rgb, Rgba};
use imageforge_lib::errors::AppError;
use imageforge_lib::formats::convert::{png_source, webp_source};
use imageforge_lib::formats::png::compress_png;
use imageforge_lib::formats::webp::compress_webp;
use imageforge_lib::formats::{Engine, ProcessedOutput};
use imageforge_lib::metadata::{detect_format, inspect_contents, CodecProbe};
use imageforge_lib::models::{
    CompressionPreset, CompressionResult, CompressionSettings, CompressionStatus, ImageFormat, ImageInfo,
    OutputMode,
};
use imageforge_lib::output::OutputResolver;
use imageforge_lib::processor::{ImageProcessor, ProcessAction, ProcessEvent};
use std::collections::HashMap;
use std::io::Cursor;

fn png_bytes_rgb(w: u32, h: u32) -> Vec<u8> {
    let img: ImageBuffer<Rgb<u8>, Vec<u8>> = ImageBuffer::from_fn(w, h, |x, y| {
        Rgb([(x % 256) as u8, (y % 256) as u8, ((x + y) % 256) as u8])
    });
    let mut out = Cursor::new(Vec::new());
    img.write_to(&mut out, image::ImageFormat::Png).expect("encode png");
    out.into_inner()
}

fn webp_bytes_rgba(w: u32, h: u32) -> Vec<u8> {
    let img: ImageBuffer<Rgba<u8>, Vec<u8>> = ImageBuffer::from_fn(w, h, |x, y| {
        let a = if x < w / 2 { 0 } else { 255 };
        Rgba([((x * 255) / w) as u8, ((y * 255) / h) as u8, ((x + y) % 256) as u8, a])
    });
    let raw = img.into_raw();
    webp::Encoder::from_rgba(&raw, w, h).encode(98.0).to_vec()
}

fn settings(preset: CompressionPreset, mode: OutputMode, suffix: Option<&str>) -> CompressionSettings {
    CompressionSettings {
        preset,
        output_mode: mode,
        preserve_metadata: true,
        preserve_color_profile: true,
        custom_output_dir: Some("/out".to_string()),
        filename_suffix: suffix.map(|s| s.to_string()),
    }
}

fn inspect(path: &str, data: &[u8]) -> ImageInfo {
    let format = detect_format(&data[..data.len().min(32)], path).expect("detect");
    let probe = match format {
        ImageFormat::Png => CodecProbe::Png,
        ImageFormat::Webp => CodecProbe::Webp,
        _ => panic!("unexpected format"),
    };
    inspect_contents(path, format, data.len() as u64, Ok(data.to_vec()), probe).expect("inspect")
}

/// Runs one file through the state machine; `disk` holds the written files.
fn run(
    info: &ImageInfo,
    s: &CompressionSettings,
    input: &[u8],
    disk: &mut HashMap<String, Vec<u8>>,
) -> CompressionResult {
    let processor = ImageProcessor::new();
    let mut file = processor.begin(info, s);
    let mut action = file.step(ProcessEvent::InputChecked(true), 0);
    loop {
        let event = match action {
            ProcessAction::Compress(engine) => {
                let out: Result<ProcessedOutput, AppError> = match engine {
                    Engine::Png => compress_png(input, info, s),
                    Engine::Webp => compress_webp(input, info, s),
                    _ => panic!("engine not available in memory"),
                };
                ProcessEvent::Compressed(out)
            }
            ProcessAction::ReadOriginal => ProcessEvent::OriginalRead(Ok(input.to_vec())),
            ProcessAction::ResolveOutput(format) => {
                let mut r = OutputResolver::new(&info.path, format, s);
                let path = loop {
                    let c = r.current();
                    if let Some(p) = r.answer(disk.contains_key(&c)) {
                        break p;
                    }
                };
                ProcessEvent::OutputResolved(Ok(path))
            }
            ProcessAction::Write { path, data } => {
                disk.insert(path, data);
                ProcessEvent::Written(Ok(()))
            }
            ProcessAction::Finish(result) => return result,
        };
        action = file.step(event, 5);
    }
}

#[test]
fn test_png_lossless_compression_pipeline() {
    let data = png_bytes_rgb(400, 300);
    let info = inspect("/in/test_rgb.png", &data);
    assert_eq!(info.format, ImageFormat::Png);
    assert_eq!(info.width, 400);
    assert_eq!(info.height, 300);

    let s = settings(CompressionPreset::Balanced, OutputMode::SameFormat, Some("-compressed"));
    let mut disk = HashMap::new();
    let result = run(&info, &s, &data, &mut disk);
    assert_eq!(result.status, CompressionStatus::Completed);

    let out_path = result.output_path.expect("output path missing");
    let out_img = image::load_from_memory(&disk[&out_path]).expect("failed to decode output png");
    assert_eq!(out_img.width(), 400, "PNG output width must match original invariant");
    assert_eq!(out_img.height(), 300, "PNG output height must match original invariant");
}

#[test]
fn test_webp_compression_pipeline() {
    let data = webp_bytes_rgba(500, 500);
    let info = inspect("/in/test_sample.webp", &data);
    assert_eq!(info.format, ImageFormat::Webp);
    assert_eq!(info.width, 500);
    assert_eq!(info.height, 500);
    assert!(info.has_alpha);

    let s = settings(CompressionPreset::Balanced, OutputMode::SameFormat, Some("-compressed"));
    let mut disk = HashMap::new();
    let result = run(&info, &s, &data, &mut disk);
    assert_eq!(result.status, CompressionStatus::Completed);

    let out_path = result.output_path.expect("output path missing");
    assert_eq!(out_path, "/out/test_sample-compressed.webp");
    let decoded = webp::Decoder::new(&disk[&out_path]).decode().expect("failed to decode output webp");
    assert_eq!(decoded.width(), 500, "WebP output width must match original invariant");
    assert_eq!(decoded.height(), 500, "WebP output height must match original invariant");
    assert!(result.output_bytes < result.input_bytes);
    assert_eq!(result.saved_bytes, result.input_bytes - result.output_bytes);
}

#[test]
fn test_no_savings_retains_original() {
    let img: ImageBuffer<Rgb<u8>, Vec<u8>> = ImageBuffer::from_pixel(2, 2, Rgb([0u8, 0, 0]));
    let mut raw = Cursor::new(Vec::new());
    img.write_to(&mut raw, image::ImageFormat::Png).expect("failed to save tiny png");
    let raw = raw.into_inner();
    let options = oxipng::Options::from_preset(6);
    let data = oxipng::optimize_from_memory(&raw, &options).unwrap_or(raw.clone());

    let info = inspect("/in/tiny_solid.png", &data);
    let mut s = settings(CompressionPreset::Smallest, OutputMode::SameFormat, Some("-nosavings-test"));
    s.preserve_metadata = false;
    s.preserve_color_profile = false;
    let mut disk = HashMap::new();
    let result = run(&info, &s, &data, &mut disk);

    assert!(
        result.output_path.is_some(),
        "output_path must always be Some (got status {:?})",
        result.status
    );
    let out_path = result.output_path.clone().unwrap();
    let out_bytes = disk[&out_path].clone();
    let out_img = image::load_from_memory(&out_bytes).expect("output must be a valid PNG");
    assert_eq!(out_img.width(), 2, "dimension invariant: width");
    assert_eq!(out_img.height(), 2, "dimension invariant: height");

    if result.status == CompressionStatus::NoSavings {
        assert_eq!(out_bytes, data, "NoSavings must write original bytes to output");
        assert_eq!(result.saved_bytes, 0);
        assert_eq!(result.saved_percent_micros, 0);
        assert_eq!(result.output_bytes, result.input_bytes);
    } else {
        assert_eq!(result.status, CompressionStatus::Completed);
        assert!(result.saved_bytes > 0 || result.output_bytes <= result.input_bytes);
    }
}

#[test]
fn missing_input_fails_without_output() {
    let data = png_bytes_rgb(4, 4);
    let info = inspect("/in/gone.png", &data);
    let s = settings(CompressionPreset::Balanced, OutputMode::ConvertToJpg, None);
    let processor = ImageProcessor::new();
    let mut file = processor.begin(&info, &s);
    match file.step(ProcessEvent::InputChecked(false), 99) {
        ProcessAction::Finish(r) => {
            assert_eq!(r.status, CompressionStatus::Failed);
            assert_eq!(r.error.as_deref(), Some("Input file does not exist or has been moved."));
            assert_eq!(r.output_format, ImageFormat::Jpg);
            assert_eq!(r.duration_ms, 0);
            assert!(r.output_path.is_none());
        }
        _ => panic!("expected a result"),
    }
}

#[test]
fn engine_errors_become_failed_results() {
    let data = png_bytes_rgb(4, 4);
    let info = inspect("/in/a.png", &data);
    let s = settings(CompressionPreset::Balanced, OutputMode::SameFormat, None);
    let processor = ImageProcessor::new();
    let mut file = processor.begin(&info, &s);
    assert!(matches!(file.step(ProcessEvent::InputChecked(true), 0), ProcessAction::Compress(Engine::Png)));
    let err = AppError::DimensionMismatch { expected_w: 4, expected_h: 4, actual_w: 2, actual_h: 2 };
    match file.step(ProcessEvent::Compressed(Err(err)), 12) {
        ProcessAction::Finish(r) => {
            assert_eq!(r.status, CompressionStatus::Failed);
            assert_eq!(r.duration_ms, 12);
            assert_eq!(
                r.error.as_deref(),
                Some("Output dimensions changed unexpectedly (2x2 instead of 4x4).")
            );
        }
        _ => panic!("expected a result"),
    }
}

#[test]
fn failed_original_read_is_reported() {
    let data = png_bytes_rgb(4, 4);
    let info = inspect("/in/a.png", &data);
    let s = settings(CompressionPreset::Balanced, OutputMode::SameFormat, None);
    let processor = ImageProcessor::new();
    let mut file = processor.begin(&info, &s);
    file.step(ProcessEvent::InputChecked(true), 0);
    let bigger = ProcessedOutput {
        data: vec![0; data.len() + 10],
        width: 4,
        height: 4,
        format: ImageFormat::Png,
        color_profile_preserved: true,
    };
    assert!(matches!(file.step(ProcessEvent::Compressed(Ok(bigger)), 1), ProcessAction::ReadOriginal));
    match file.step(ProcessEvent::OriginalRead(Err("gone".to_string())), 2) {
        ProcessAction::Finish(r) => {
            assert_eq!(r.status, CompressionStatus::Failed);
            assert_eq!(r.error.as_deref(), Some("Could not read original file: gone"));
            assert_eq!(r.output_bytes, 0);
            assert!(!r.color_profile_preserved);
        }
        _ => panic!("expected a result"),
    }
}

#[test]
fn conversions_keep_larger_outputs() {
    let data = png_bytes_rgb(4, 4);
    let info = inspect("/in/a.png", &data);
    let s = settings(CompressionPreset::Balanced, OutputMode::ConvertToJpg, None);
    let processor = ImageProcessor::new();
    let mut file = processor.begin(&info, &s);
    assert!(matches!(
        file.step(ProcessEvent::InputChecked(true), 0),
        ProcessAction::Compress(Engine::ConvertToJpg)
    ));
    let bigger = ProcessedOutput {
        data: vec![7; data.len() + 10],
        width: 4,
        height: 4,
        format: ImageFormat::Jpg,
        color_profile_preserved: false,
    };
    assert!(matches!(
        file.step(ProcessEvent::Compressed(Ok(bigger)), 1),
        ProcessAction::ResolveOutput(ImageFormat::Jpg)
    ));
    match file.step(ProcessEvent::OutputResolved(Ok("/out/a.jpg".to_string())), 2) {
        ProcessAction::Write { path, data: written } => {
            assert_eq!(path, "/out/a.jpg");
            assert_eq!(written, vec![7; data.len() + 10]);
        }
        _ => panic!("expected a write"),
    }
    match file.step(ProcessEvent::Written(Ok(())), 3) {
        ProcessAction::Finish(r) => {
            assert_eq!(r.status, CompressionStatus::Completed);
            assert_eq!(r.saved_bytes, 0);
            assert_eq!(r.output_bytes, data.len() as u64 + 10);
            assert_eq!(r.output_path.as_deref(), Some("/out/a.jpg"));
        }
        _ => panic!("expected a result"),
    }
}

#[test]
fn png_dimension_check_rejects_a_wrong_inspection() {
    let data = png_bytes_rgb(8, 6);
    let mut info = inspect("/in/a.png", &data);
    info.width = 9;
    let s = settings(CompressionPreset::BestQuality, OutputMode::SameFormat, None);
    match compress_png(&data, &info, &s) {
        Err(AppError::DimensionMismatch { expected_w, expected_h, actual_w, actual_h }) => {
            assert_eq!((expected_w, expected_h, actual_w, actual_h), (9, 6, 8, 6));
        }
        _ => panic!("expected a mismatch"),
    }
}

#[test]
fn png_engine_rejects_non_png_data() {
    let info = inspect("/in/a.png", &png_bytes_rgb(2, 2));
    let s = settings(CompressionPreset::Balanced, OutputMode::SameFormat, None);
    match compress_png(b"not a png at all", &info, &s) {
        Err(AppError::EncodeFailed { user_message, technical_detail }) => {
            assert_eq!(user_message, "Failed to optimize PNG file.");
            assert!(technical_detail.starts_with("oxipng error: "));
        }
        _ => panic!("expected an encode failure"),
    }
}

#[test]
fn webp_engine_rejects_non_webp_data() {
    let info = inspect("/in/a.png", &png_bytes_rgb(2, 2));
    let s = settings(CompressionPreset::Balanced, OutputMode::SameFormat, None);
    match compress_webp(b"RIFF0000WEBPjunk", &info, &s) {
        Err(AppError::DecodeFailed { user_message, .. }) => {
            assert_eq!(user_message, "Could not decode WebP image. File may be corrupted or invalid.");
        }
        _ => panic!("expected a decode failure"),
    }
}

#[test]
fn webp_sources_are_composited_over_white() {
    let data = webp_bytes_rgba(100, 100);
    let source = webp_source(&data).expect("decode");
    assert_eq!((source.width, source.height), (100, 100));
    assert_eq!(source.rgb.len(), 100 * 100 * 3);
    // the left half was fully transparent
    let at = (50 * 100 + 10) * 3;
    assert_eq!(&source.rgb[at..at + 3], &[255, 255, 255]);
}

const ICC: &[u8] = b"fake icc profile bytes";

/// A PNG of `w`x`h` with the given color type and samples, an ICC profile
/// and a private vendor chunk.
fn png_with_chunks(w: u32, h: u32, color: png::ColorType, samples: &[u8]) -> Vec<u8> {
    let mut info = png::Info::with_size(w, h);
    info.color_type = color;
    info.bit_depth = png::BitDepth::Eight;
    info.icc_profile = Some(std::borrow::Cow::Borrowed(ICC));
    let mut out = Vec::new();
    {
        let encoder = png::Encoder::with_info(&mut out, info).expect("encoder");
        let mut writer = encoder.write_header().expect("header");
        writer.write_chunk(png::chunk::ChunkType(*b"vpAg"), b"vendor data").expect("chunk");
        writer.write_image_data(samples).expect("data");
    }
    out
}

fn contains(haystack: &[u8], needle: &[u8]) -> bool {
    haystack.windows(needle.len()).any(|w| w == needle)
}

#[test]
fn png_sources_are_composited_over_white() {
    let rgba = [255u8, 0, 0, 0, 0, 0, 255, 255];
    let data = png_with_chunks(2, 1, png::ColorType::Rgba, &rgba);
    let source = png_source(&data, "/in/a.PNG").expect("decode");
    assert_eq!((source.width, source.height), (2, 1));
    assert_eq!(source.rgb, vec![255, 255, 255, 0, 0, 255]);
    assert_eq!(source.icc.as_deref(), Some(ICC));
    assert!(source.exif.is_none());
}

#[test]
fn png_sources_report_undecodable_files() {
    match png_source(b"not a png", "/in/a.png") {
        Err(AppError::DecodeFailed { user_message, .. }) => {
            assert_eq!(user_message, "Failed to read PNG image file");
        }
        _ => panic!("expected a decode failure"),
    }
}

#[test]
fn png_sources_are_decoded_as_their_extension_says() {
    let data = png_bytes_rgb(3, 2);
    assert!(png_source(&data, "/in/a.png").is_ok());
    // a PNG named like a JPEG is decoded as a JPEG, and fails
    assert!(matches!(png_source(&data, "/in/a.jpg"), Err(AppError::DecodeFailed { .. })));
    // without an extension the format cannot be determined
    assert!(matches!(png_source(&data, "/in/a"), Err(AppError::DecodeFailed { .. })));
}

#[test]
fn engine_outputs_must_have_the_engine_format() {
    let data = png_bytes_rgb(4, 4);
    let info = inspect("/in/a.png", &data);
    let s = settings(CompressionPreset::Balanced, OutputMode::ConvertToJpg, None);
    let processor = ImageProcessor::new();
    let mut file = processor.begin(&info, &s);
    file.step(ProcessEvent::InputChecked(true), 0);
    let output = |format| ProcessedOutput {
        data: vec![1, 2, 3],
        width: 4,
        height: 4,
        format,
        color_profile_preserved: false,
    };
    assert!(!file.expects(&ProcessEvent::Compressed(Ok(output(ImageFormat::Png)))));
    assert!(file.expects(&ProcessEvent::Compressed(Ok(output(ImageFormat::Jpg)))));
    let err = AppError::Cancelled;
    assert!(file.expects(&ProcessEvent::Compressed(Err(err))));
    assert!(!file.expects(&ProcessEvent::InputChecked(true)));
}

#[test]
fn png_engine_keeps_display_chunks_and_drops_vendor_chunks() {
    let samples: Vec<u8> = (0..16 * 16 * 3).map(|i| (i * 7 % 256) as u8).collect();
    let data = png_with_chunks(16, 16, png::ColorType::Rgb, &samples);
    assert!(contains(&data, b"vpAg"));
    let info = inspect("/in/chunks.png", &data);
    for (meta, color) in [(false, false), (true, true), (false, true)] {
        let mut s = settings(CompressionPreset::Balanced, OutputMode::SameFormat, None);
        s.preserve_metadata = meta;
        s.preserve_color_profile = color;
        let out = compress_png(&data, &info, &s).expect("optimize");
        assert!(!contains(&out.data, b"vpAg"), "vendor chunks are dropped");
        let reader = png::Decoder::new(Cursor::new(out.data.as_slice())).read_info().expect("read");
        assert_eq!(reader.info().icc_profile.as_deref(), Some(ICC), "the ICC profile stays");
        assert_eq!(out.color_profile_preserved, color);
    }
}
