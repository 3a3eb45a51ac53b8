use imageforge_lib::models::{CompressionPreset, CompressionSettings, ImageFormat, OutputMode};
use imageforge_lib::output::{temp_path_for, OutputResolver};
use std::collections::HashSet;

fn settings(mode: OutputMode, dir: Option<&str>, suffix: Option<&str>) -> CompressionSettings {
    CompressionSettings {
        preset: CompressionPreset::default(),
        output_mode: mode,
        preserve_metadata: true,
        preserve_color_profile: true,
        custom_output_dir: dir.map(|d| d.to_string()),
        filename_suffix: suffix.map(|s| s.to_string()),
    }
}

/// Resolves like the driver does, with `existing` standing for the files on
/// disk.
fn resolve(input: &str, target: ImageFormat, s: &CompressionSettings, existing: &HashSet<String>) -> String {
    let mut r = OutputResolver::new(input, target, s);
    loop {
        let candidate = r.current();
        if let Some(path) = r.answer(existing.contains(&candidate)) {
            return path;
        }
    }
}

#[test]
fn test_collision_resolution() {
    let dir = "/tmp/imageforge-out";
    let file1 = format!("{dir}/photo.png");
    let s = settings(OutputMode::SameFormat, Some(dir), Some("-compressed"));
    let mut existing: HashSet<String> = HashSet::new();
    existing.insert(file1.clone());

    // First resolve: photo-compressed.png
    let out1 = resolve(&file1, ImageFormat::Png, &s, &existing);
    assert!(out1.ends_with("/photo-compressed.png"));
    existing.insert(out1.clone());

    // Second resolve: should avoid collision -> photo-compressed-1.png
    let out2 = resolve(&file1, ImageFormat::Png, &s, &existing);
    assert!(out2.ends_with("/photo-compressed-1.png"));
}

#[test]
fn numbered_candidates_count_up() {
    let s = settings(OutputMode::SameFormat, None, Some("-compressed"));
    let mut existing = HashSet::new();
    let mut got = Vec::new();
    for _ in 0..3 {
        let p = resolve("/pics/test_sample.jpg", ImageFormat::Jpg, &s, &existing);
        existing.insert(p.clone());
        got.push(p);
    }
    assert_eq!(
        got,
        vec![
            "/pics/test_sample-compressed.jpg",
            "/pics/test_sample-compressed-1.jpg",
            "/pics/test_sample-compressed-2.jpg"
        ]
    );
}

#[test]
fn default_suffix_and_directory() {
    let s = settings(OutputMode::SameFormat, None, None);
    let r = OutputResolver::new("/a/b/scan.webp", ImageFormat::Webp, &s);
    assert_eq!(r.dir, "/a/b");
    assert_eq!(r.base_name, "scan-compressed.webp");
    assert_eq!(r.current(), "/a/b/scan-compressed.webp");
}

#[test]
fn conversion_drops_the_suffix_unless_the_input_is_a_jpeg() {
    let s = settings(OutputMode::ConvertToJpg, Some("/out"), Some("-small"));
    assert_eq!(OutputResolver::new("/in/photo.png", ImageFormat::Jpg, &s).current(), "/out/photo.jpg");
    assert_eq!(OutputResolver::new("/in/photo.JPG", ImageFormat::Jpg, &s).current(), "/out/photo-small.jpg");
    assert_eq!(OutputResolver::new("/in/photo.jpeg", ImageFormat::Jpg, &s).current(), "/out/photo-small.jpg");
    assert_eq!(OutputResolver::new("/in/photo.heic", ImageFormat::Jpg, &s).current(), "/out/photo.jpg");
}

#[test]
fn a_relative_input_resolves_next_to_itself() {
    let s = settings(OutputMode::SameFormat, None, Some("-c"));
    let r = OutputResolver::new("photo.png", ImageFormat::Png, &s);
    assert_eq!(r.dir, "");
    assert_eq!(r.current(), "photo-c.png");
    let mut r = r;
    assert_eq!(r.answer(true), None);
    assert_eq!(r.current(), "photo-c-1.png");
    assert_eq!(r.answer(false).as_deref(), Some("photo-c-1.png"));
}

#[test]
fn temp_files_sit_next_to_the_target() {
    let p = temp_path_for("/out/photo.jpg", 4242).unwrap();
    assert!(p.starts_with("/out/.tmp_4242_"));
    assert_eq!(p.len(), "/out/.tmp_4242_".len() + 32);
    let q = temp_path_for("/out/photo.jpg", 4242).unwrap();
    assert_ne!(p, q);
    assert!(temp_path_for("/", 1).is_err());
}
