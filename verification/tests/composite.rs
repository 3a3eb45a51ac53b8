use imageforge_lib::formats::composite::composite_rgba_onto_white;

fn blend(c: u32, a: u32) -> u8 {
    ((c * a + 255 * (255 - a) + 127) / 255) as u8
}

#[test]
fn opaque_pixels_keep_their_color() {
    let out = composite_rgba_onto_white(&[0, 0, 255, 255, 12, 34, 56, 255], 2, 1);
    assert_eq!(out, vec![0, 0, 255, 12, 34, 56]);
}

#[test]
fn transparent_pixels_become_white() {
    let out = composite_rgba_onto_white(&[255, 0, 0, 0], 1, 1);
    assert_eq!(out, vec![255, 255, 255]);
}

#[test]
fn half_transparent_green_blends_over_white() {
    let out = composite_rgba_onto_white(&[0, 255, 0, 128], 1, 1);
    // (0 * 128 + 255 * 127 + 127) / 255 = 127, (255 * 128 + 255 * 127 + 127) / 255 = 255
    assert_eq!(out, vec![127, 255, 127]);
}

#[test]
fn formula_holds_for_every_channel_and_alpha() {
    for a in 0u32..=255 {
        for c in (0u32..=255).step_by(5) {
            let out = composite_rgba_onto_white(&[c as u8, c as u8, c as u8, a as u8], 1, 1);
            assert_eq!(out, vec![blend(c, a); 3]);
            assert!(out[0] as u32 >= c);
        }
    }
}

#[test]
fn trailing_partial_pixel_is_ignored() {
    let out = composite_rgba_onto_white(&[1, 2, 3, 255, 9, 9], 1, 1);
    assert_eq!(out, vec![1, 2, 3]);
    assert!(composite_rgba_onto_white(&[], 0, 0).is_empty());
}
