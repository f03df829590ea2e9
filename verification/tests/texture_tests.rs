use render_core::palette::Palette;
use render_core::texture::decode;

fn graded_palette() -> Palette {
    // Entry i holds channels (i, i + 1, i + 2), wrapping.
    let mut src = Vec::with_capacity(768);
    for i in 0..256usize {
        src.push(i as u8);
        src.push((i as u8).wrapping_add(1));
        src.push((i as u8).wrapping_add(2));
    }
    Palette::load(src).unwrap()
}

#[test]
fn decode_output_length_is_four_per_pixel() {
    let pal = graded_palette();
    let pixels = vec![0u8; 6];
    let buf = decode(&pal, &pixels, 3, 2).unwrap();
    assert_eq!(buf.len(), 4 * 3 * 2);
}

#[test]
fn sentinel_pixel_decodes_to_transparent_black() {
    let pal = graded_palette();
    let pixels = vec![255u8];
    let buf = decode(&pal, &pixels, 1, 1).unwrap();
    assert_eq!(buf, vec![0, 0, 0, 0]);
}

#[test]
fn non_sentinel_pixel_decodes_to_palette_channels_and_opaque_alpha() {
    let pal = graded_palette();
    let pixels = vec![7u8, 200];
    let buf = decode(&pal, &pixels, 2, 1).unwrap();
    assert_eq!(&buf[0..4], &[7, 8, 9, 255]);
    assert_eq!(&buf[4..8], &[200, 201, 202, 255]);
}

#[test]
fn shape_mismatch_fails_with_actual_length() {
    let pal = graded_palette();
    let pixels = vec![0u8; 5];
    match decode(&pal, &pixels, 2, 3) {
        Ok(_) => panic!("5 pixels for a 2x3 image must be rejected"),
        Err(e) => assert_eq!(e.actual_len, 5),
    }
}

#[test]
fn shape_mismatch_with_huge_dimensions_fails() {
    let pal = graded_palette();
    let pixels = vec![0u8; 10];
    match decode(&pal, &pixels, u32::MAX, u32::MAX) {
        Ok(_) => panic!("10 pixels for a huge image must be rejected"),
        Err(e) => assert_eq!(e.actual_len, 10),
    }
}

#[test]
fn empty_image_decodes_to_empty_buffer() {
    let pal = graded_palette();
    let pixels: Vec<u8> = Vec::new();
    let buf = decode(&pal, &pixels, 0, 0).unwrap();
    assert!(buf.is_empty());
}

#[test]
fn zero_width_rejects_any_pixels() {
    let pal = graded_palette();
    let pixels = vec![1u8];
    match decode(&pal, &pixels, 0, 4) {
        Ok(_) => panic!("1 pixel for a 0x4 image must be rejected"),
        Err(e) => assert_eq!(e.actual_len, 1),
    }
}

#[test]
fn red_green_and_sentinel_scenario() {
    // Palette: entry 0 = (255, 0, 0), entry 1 = (0, 255, 0), the rest zeroed.
    let mut src = vec![0u8; 768];
    src[0] = 255;
    src[4] = 255;
    let pal = Palette::load(src).unwrap();
    let pixels = vec![0u8, 255];
    let buf = decode(&pal, &pixels, 2, 1).unwrap();
    assert_eq!(buf, vec![255, 0, 0, 255, 0, 0, 0, 0]);
}

#[test]
fn decode_reads_palette_loaded_from_source() {
    // Loading then decoding uses exactly the bytes of the palette source.
    let mut src = vec![0u8; 768];
    src[3 * 42] = 10;
    src[3 * 42 + 1] = 20;
    src[3 * 42 + 2] = 30;
    let pal = Palette::load(src).unwrap();
    let pixels = vec![42u8];
    let buf = decode(&pal, &pixels, 1, 1).unwrap();
    assert_eq!(buf, vec![10, 20, 30, 255]);
}
