use svg_img::bitmap::Bitmap;
use svg_img::element::SvgImg;
use svg_img::fit::fit_and_center;
use svg_img::source::SvgSource;

fn tiny_bitmap() -> Bitmap {
    Bitmap::new(1, 1, vec![0u8, 0, 255, 255])
}

#[test]
fn fit_caps_the_ratio_at_one_and_centers() {
    // bounds (0,0,100,50), logical (40,40): both ratios exceed or reach 1,
    // so the image keeps its size and sits centered at (30,5).
    let p = fit_and_center(0, 0, 100, 50, 40, 40);
    assert_eq!((p.x, p.y, p.width, p.height), (30, 5, 40, 40));
}

#[test]
fn fit_scales_down_by_the_binding_dimension_and_floors_the_origin() {
    // bounds (0,0,100,100), logical (200,50): ratio one half, scaled
    // (100,25), centered origin (0,37.5) floored to (0,37).
    let p = fit_and_center(0, 0, 100, 100, 200, 50);
    assert_eq!((p.x, p.y, p.width, p.height), (0, 37, 100, 25));
}

#[test]
fn fit_ceils_the_scaled_size() {
    // bounds (0,0,50,100), logical (100,30): ratio one half, scaled
    // (50,15), centered at (0, floor(42.5)) = (0,42).
    let p = fit_and_center(0, 0, 50, 100, 100, 30);
    assert_eq!((p.x, p.y, p.width, p.height), (0, 42, 50, 15));

    // logical (3,3) into bounds (0,0,2,2): scaled extent ceil(1.5) = 2.
    let p = fit_and_center(0, 0, 2, 2, 3, 3);
    assert_eq!((p.x, p.y, p.width, p.height), (0, 0, 2, 2));
}

#[test]
fn fit_keeps_a_nonzero_bounds_origin() {
    let p = fit_and_center(7, -3, 100, 50, 40, 40);
    assert_eq!((p.x, p.y, p.width, p.height), (37, 2, 40, 40));
}

#[test]
fn builder_sets_source_and_size() {
    let img = SvgImg::new();
    assert!(img.get_source().is_none());

    let img = img.source(SvgSource::from_data(b"<svg/>".to_vec()), 40, 40);
    let key = img.get_source().unwrap();
    assert_eq!(key.width, 40);
    assert_eq!(key.height, 40);
}

#[test]
fn paint_command_fits_and_centers_the_bitmap() {
    let img = SvgImg::new().source(SvgSource::from_data(b"<svg/>".to_vec()), 40, 40);
    let cmd = img.paint_command(0, 0, 100, 50, Some(tiny_bitmap())).unwrap();
    assert_eq!(
        (cmd.placement.x, cmd.placement.y, cmd.placement.width, cmd.placement.height),
        (30, 5, 40, 40)
    );
    assert_eq!(cmd.corner_radius, 0);
    assert_eq!(cmd.frame_index, 0);
    assert!(!cmd.flip);
}

#[test]
fn paint_without_a_bitmap_paints_nothing() {
    let img = SvgImg::new().source(SvgSource::from_data(b"<svg/>".to_vec()), 40, 40);
    assert!(img.paint_command(0, 0, 100, 50, None).is_none());
}

#[test]
fn paint_with_a_zero_logical_size_paints_nothing() {
    let img = SvgImg::new().source(SvgSource::from_data(b"<svg/>".to_vec()), 0, 40);
    assert!(img.paint_command(0, 0, 100, 50, Some(tiny_bitmap())).is_none());
}

#[test]
fn request_layout_carries_only_a_successful_load() {
    let img = SvgImg::new().source(SvgSource::from_data(b"<svg/>".to_vec()), 40, 40);
    assert!(img.request_layout(None).is_none());
    assert!(img.request_layout(Some(Err(svg_img::RasterError::InvalidDocument))).is_none());
    let carried = img.request_layout(Some(Ok(tiny_bitmap()))).unwrap();
    assert_eq!(carried.width(), 1);

    let empty = SvgImg::new();
    assert!(empty.request_layout(Some(Ok(tiny_bitmap()))).is_none());
}

#[test]
fn prepaint_threads_the_state_through() {
    let img = SvgImg::new().source(SvgSource::from_data(b"<svg/>".to_vec()), 40, 40);
    assert!(img.prepaint(None).is_none());
    let threaded = img.prepaint(Some(tiny_bitmap())).unwrap();
    assert_eq!(threaded.width(), 1);
    assert_eq!(threaded.height(), 1);
}

#[test]
fn clone_keeps_the_key_and_size() {
    let img = SvgImg::new().source(SvgSource::from_path("icons/a.svg".to_string()), 12, 34);
    let copy = img.clone();
    let key = copy.get_source().unwrap();
    assert_eq!(key.width, 12);
    assert_eq!(key.height, 34);
    assert!(matches!(&key.source, SvgSource::Path(p) if p == "icons/a.svg"));
}
