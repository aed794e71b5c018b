use svg_img::convert::convert_premultiplied_rgba_to_bgra;
use svg_img::raster::{rasterize, FontIndex, MAX_EXTENT};
use svg_img::RasterError;

fn minimal_doc() -> Vec<u8> {
    br#"<svg xmlns="http://www.w3.org/2000/svg" width="3" height="5"></svg>"#.to_vec()
}

fn red_square_doc() -> Vec<u8> {
    br#"<svg xmlns="http://www.w3.org/2000/svg" width="10" height="10"><rect width="10" height="10" fill="red"/></svg>"#
        .to_vec()
}

fn half_alpha_red_doc() -> Vec<u8> {
    br#"<svg xmlns="http://www.w3.org/2000/svg" width="10" height="10"><rect width="10" height="10" fill="red" fill-opacity="0.5"/></svg>"#
        .to_vec()
}

#[test]
fn rasterize_oversamples_the_requested_size() {
    let fonts = FontIndex::new();
    let bitmap = rasterize(&minimal_doc(), 3, 5, &fonts).unwrap();
    assert_eq!(bitmap.width(), 6);
    assert_eq!(bitmap.height(), 10);
    assert_eq!(bitmap.data().len(), 6 * 10 * 4);
}

#[test]
fn rasterize_oversamples_other_sizes() {
    let fonts = FontIndex::new();
    let bitmap = rasterize(&red_square_doc(), 7, 1, &fonts).unwrap();
    assert_eq!(bitmap.width(), 14);
    assert_eq!(bitmap.height(), 2);
    assert_eq!(bitmap.data().len(), 14 * 2 * 4);
}

#[test]
fn opaque_red_square_is_pure_red_bgra() {
    let fonts = FontIndex::new();
    let bitmap = rasterize(&red_square_doc(), 10, 10, &fonts).unwrap();
    assert_eq!(bitmap.width(), 20);
    assert_eq!(bitmap.height(), 20);
    let data = bitmap.data();
    assert_eq!(data.len(), 20 * 20 * 4);
    for pixel in data.chunks(4) {
        assert_eq!(pixel, &[0u8, 0, 255, 255]);
    }
}

#[test]
fn half_alpha_red_square_unpremultiplies_to_full_red() {
    let fonts = FontIndex::new();
    let bitmap = rasterize(&half_alpha_red_doc(), 10, 10, &fonts).unwrap();
    let data = bitmap.data();
    for pixel in data.chunks(4) {
        // Premultiplied red at half alpha recovers the full red channel;
        // the stored alpha is whichever byte half of 255 rounded to.
        assert_eq!(pixel[0], 0);
        assert_eq!(pixel[1], 0);
        assert_eq!(pixel[2], 255);
        assert!(pixel[3] == 127 || pixel[3] == 128);
    }
}

#[test]
fn conversion_swaps_and_unpremultiplies_half_alpha() {
    let mut data = vec![128u8, 0, 0, 128];
    convert_premultiplied_rgba_to_bgra(&mut data);
    assert_eq!(data, vec![0u8, 0, 255, 128]);
}

#[test]
fn conversion_of_opaque_pixel_only_swaps() {
    let mut data = vec![10u8, 20, 30, 255];
    convert_premultiplied_rgba_to_bgra(&mut data);
    assert_eq!(data, vec![30u8, 20, 10, 255]);
}

#[test]
fn conversion_leaves_transparent_pixel_channels_swapped_only() {
    let mut data = vec![10u8, 20, 30, 0];
    convert_premultiplied_rgba_to_bgra(&mut data);
    assert_eq!(data, vec![30u8, 20, 10, 0]);
}

#[test]
fn conversion_handles_many_pixels() {
    let mut data = vec![128u8, 0, 0, 128, 10, 20, 30, 255, 0, 64, 0, 64];
    convert_premultiplied_rgba_to_bgra(&mut data);
    assert_eq!(
        data,
        vec![0u8, 0, 255, 128, 30, 20, 10, 255, 0, 255, 0, 64]
    );
}

#[test]
fn zero_width_is_invalid_size() {
    let fonts = FontIndex::new();
    assert!(matches!(rasterize(&minimal_doc(), 0, 5, &fonts), Err(RasterError::InvalidSize)));
}

#[test]
fn zero_height_is_invalid_size() {
    let fonts = FontIndex::new();
    assert!(matches!(rasterize(&minimal_doc(), 5, 0, &fonts), Err(RasterError::InvalidSize)));
}

#[test]
fn zero_both_is_invalid_size() {
    let fonts = FontIndex::new();
    assert!(matches!(rasterize(&minimal_doc(), 0, 0, &fonts), Err(RasterError::InvalidSize)));
}

#[test]
fn unparseable_bytes_are_invalid_document() {
    let fonts = FontIndex::new();
    let garbage = b"this is not an svg document".to_vec();
    assert!(matches!(rasterize(&garbage, 10, 10, &fonts), Err(RasterError::InvalidDocument)));
}

#[test]
fn oversized_target_is_allocation_failure() {
    let fonts = FontIndex::new();
    assert!(matches!(
        rasterize(&minimal_doc(), MAX_EXTENT, MAX_EXTENT, &fonts),
        Err(RasterError::AllocationFailure)
    ));
}
