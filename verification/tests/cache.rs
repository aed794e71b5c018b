use svg_img::cache::{AssetCache, Image};
use svg_img::raster::FontIndex;
use svg_img::source::{ImageSource, SvgSource};
use svg_img::RasterError;
use svg_img::bitmap::Bitmap;

fn err_of(r: Result<Bitmap, RasterError>) -> RasterError {
    match r {
        Err(e) => e,
        Ok(_) => panic!("expected an error"),
    }
}

fn red_square_doc() -> Vec<u8> {
    br#"<svg xmlns="http://www.w3.org/2000/svg" width="10" height="10"><rect width="10" height="10" fill="red"/></svg>"#
        .to_vec()
}

fn data_key(width: u32, height: u32) -> ImageSource {
    ImageSource::new(SvgSource::from_data(red_square_doc()), width, height)
}

#[test]
fn same_key_twice_rasterizes_once() {
    let fonts = FontIndex::new();
    let mut cache = AssetCache::new();
    let mut rasterizations: u32 = 0;

    let (first, did_work) = Image::load(&mut cache, data_key(10, 10), None, &fonts);
    if did_work {
        rasterizations += 1;
    }
    let (second, did_work) = Image::load(&mut cache, data_key(10, 10), None, &fonts);
    if did_work {
        rasterizations += 1;
    }

    assert_eq!(rasterizations, 1);
    let first = first.unwrap();
    let second = second.unwrap();
    assert_eq!(first.width(), second.width());
    assert_eq!(first.height(), second.height());
    assert_eq!(first.data(), second.data());
}

#[test]
fn different_sizes_are_different_keys() {
    let fonts = FontIndex::new();
    let mut cache = AssetCache::new();

    let (first, first_work) = Image::load(&mut cache, data_key(10, 10), None, &fonts);
    let (second, second_work) = Image::load(&mut cache, data_key(5, 5), None, &fonts);

    assert!(first_work && second_work);
    assert_eq!(first.unwrap().width(), 20);
    assert_eq!(second.unwrap().width(), 10);
}

#[test]
fn lookup_finds_a_loaded_key_and_misses_a_fresh_one() {
    let fonts = FontIndex::new();
    let mut cache = AssetCache::new();

    assert!(cache.lookup(&data_key(10, 10)).is_none());
    let _ = Image::load(&mut cache, data_key(10, 10), None, &fonts);
    let hit = cache.lookup(&data_key(10, 10)).unwrap().unwrap();
    assert_eq!(hit.width(), 20);
    assert!(cache.lookup(&data_key(9, 10)).is_none());
}

#[test]
fn unresolved_path_is_source_unavailable_not_invalid_document() {
    let fonts = FontIndex::new();
    let mut cache = AssetCache::new();

    let path_key = ImageSource::new(SvgSource::from_path("missing/icon.svg".to_string()), 10, 10);
    let (unresolved, _) = Image::load(&mut cache, path_key, None, &fonts);
    assert!(matches!(unresolved, Err(RasterError::SourceUnavailable)));

    let garbage_key = ImageSource::new(SvgSource::from_data(b"not an svg".to_vec()), 10, 10);
    let (unparseable, _) = Image::load(&mut cache, garbage_key, None, &fonts);
    assert!(matches!(unparseable, Err(RasterError::InvalidDocument)));

    assert_ne!(err_of(unresolved), err_of(unparseable));
}

#[test]
fn resolved_path_rasterizes_the_resolved_bytes() {
    let fonts = FontIndex::new();
    let mut cache = AssetCache::new();

    let path_key = ImageSource::new(SvgSource::from_path("icons/red.svg".to_string()), 10, 10);
    let (result, did_work) = Image::load(&mut cache, path_key, Some(red_square_doc()), &fonts);
    assert!(did_work);
    let bitmap = result.unwrap();
    assert_eq!(bitmap.width(), 20);
    assert_eq!(bitmap.height(), 20);
}

#[test]
fn zero_size_is_invalid_size_before_resolution() {
    let fonts = FontIndex::new();
    let mut cache = AssetCache::new();

    let path_key = ImageSource::new(SvgSource::from_path("missing/icon.svg".to_string()), 0, 10);
    let (result, _) = Image::load(&mut cache, path_key, None, &fonts);
    assert!(matches!(result, Err(RasterError::InvalidSize)));

    let data_zero = data_key(10, 0);
    let (result, _) = Image::load(&mut cache, data_zero, None, &fonts);
    assert!(matches!(result, Err(RasterError::InvalidSize)));
}

#[test]
fn errors_are_retained_without_repeating_the_work() {
    let fonts = FontIndex::new();
    let mut cache = AssetCache::new();

    let key = ImageSource::new(SvgSource::from_data(b"not an svg".to_vec()), 10, 10);
    let (first, first_work) = Image::load(&mut cache, key, None, &fonts);
    let again = ImageSource::new(SvgSource::from_data(b"not an svg".to_vec()), 10, 10);
    let (second, second_work) = Image::load(&mut cache, again, None, &fonts);

    assert!(first_work);
    assert!(!second_work);
    assert_eq!(err_of(first), err_of(second));
}

#[test]
fn error_variants_are_distinct() {
    // The error taxonomy is a plain enum: each variant is distinguishable.
    assert_ne!(RasterError::InvalidSize, RasterError::InvalidDocument);
    assert_ne!(RasterError::SourceUnavailable, RasterError::AllocationFailure);
    assert_ne!(RasterError::PaintSurfaceError, RasterError::InvalidSize);
}
