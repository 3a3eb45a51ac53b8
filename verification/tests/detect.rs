use imageforge_lib::errors::AppError;
use imageforge_lib::metadata::detect_format;
use imageforge_lib::models::ImageFormat;

const PNG_SIG: [u8; 8] = [0x89, 0x50, 0x4E, 0x47, 0x0D, 0x0A, 0x1A, 0x0A];

fn heif_header(brand: &[u8; 4]) -> Vec<u8> {
    let mut h = vec![0, 0, 0, 0x18];
    h.extend_from_slice(b"ftyp");
    h.extend_from_slice(brand);
    h.extend_from_slice(&[0, 0, 0, 0]);
    h
}

#[test]
fn signatures_decide() {
    assert_eq!(detect_format(&[0xFF, 0xD8, 0xFF, 0xE0], "a.bin").unwrap(), ImageFormat::Jpg);
    assert_eq!(detect_format(&PNG_SIG, "a.bin").unwrap(), ImageFormat::Png);
    let mut webp = b"RIFF".to_vec();
    webp.extend_from_slice(&[0, 0, 0, 0]);
    webp.extend_from_slice(b"WEBP");
    assert_eq!(detect_format(&webp, "a.bin").unwrap(), ImageFormat::Webp);
    for brand in [b"heic", b"heix", b"hevc", b"heim", b"heis", b"mif1", b"msf1"] {
        assert_eq!(detect_format(&heif_header(brand), "a.bin").unwrap(), ImageFormat::Heic);
    }
}

#[test]
fn signature_outranks_extension() {
    assert_eq!(detect_format(&PNG_SIG, "photo.jpg").unwrap(), ImageFormat::Png);
    assert_eq!(detect_format(&[0xFF, 0xD8, 0xFF], "photo.webp").unwrap(), ImageFormat::Jpg);
}

#[test]
fn short_headers_fall_back_to_the_extension() {
    assert_eq!(detect_format(&[0xFF, 0xD8], "x/photo.JPEG").unwrap(), ImageFormat::Jpg);
    assert_eq!(detect_format(&PNG_SIG[..7], "x/photo.Png").unwrap(), ImageFormat::Png);
    assert_eq!(detect_format(&[], "photo.webp").unwrap(), ImageFormat::Webp);
    assert_eq!(detect_format(&[], "photo.HEIF").unwrap(), ImageFormat::Heic);
    assert_eq!(detect_format(&heif_header(b"avif"), "clip.heic").unwrap(), ImageFormat::Heic);
}

#[test]
fn unknown_files_are_unsupported() {
    match detect_format(b"GIF89a", "dir/anim.gif") {
        Err(AppError::UnsupportedFormat(name)) => assert_eq!(name, "anim.gif"),
        _ => panic!("expected UnsupportedFormat"),
    }
    match detect_format(&[], "dir/..") {
        Err(AppError::UnsupportedFormat(name)) => assert_eq!(name, "unknown"),
        _ => panic!("expected UnsupportedFormat"),
    }
}
