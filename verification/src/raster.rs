//! Rasterization of SVG document bytes into a [`Bitmap`].
//!
//! Parsing and rendering are done by the `usvg` and `resvg` crates behind
//! trusted wrappers; everything around them — size validation, the
//! oversampled dimensions, the color conversion and the error mapping —
//! is verified.

use vstd::prelude::*;
use crate::RasterError;
use crate::bitmap::Bitmap;
use crate::convert::{convert_premultiplied_rgba_to_bgra, straight_bgra_of_premul_rgba};

verus! {

/// The fixed oversampling factor: documents are rendered at twice the
/// requested size so that they stay crisp when the paint step scales the
/// bitmap back down.
pub const OVERSAMPLE: u32 = 2;

/// The largest requested extent: the oversampled width and height must
/// still fit in 32 bits.
pub const MAX_EXTENT: u32 = 0x7FFF_FFFF;

#[verifier::external_type_specification]
#[verifier::external_body]
pub struct ExOptions<'a>(usvg::Options<'a>);

#[verifier::external_type_specification]
#[verifier::external_body]
pub struct ExTree(usvg::Tree);

#[verifier::external_type_specification]
#[verifier::external_body]
pub struct ExUsvgError(usvg::Error);

#[verifier::external_type_specification]
#[verifier::external_body]
pub struct ExPixmap(resvg::tiny_skia::Pixmap);

/// The bytes a pixmap holds: four bytes per pixel, row by row.
pub uninterp spec fn pixmap_bytes(p: resvg::tiny_skia::Pixmap) -> Seq<u8>;

/// Relies on usvg::Options::default and fontdb::Database::load_system_fonts:
/// builds parsing options whose font database holds the fonts installed on
/// this machine.
#[verifier::external_body]
fn system_font_options() -> usvg::Options<'static> {
    let mut options = usvg::Options::default();
    options.fontdb_mut().load_system_fonts();
    options
}

/// Relies on usvg::Tree::from_data: parses SVG document bytes (plain or
/// gzip-compressed) into a document tree, or reports why the bytes are not
/// a valid document.
#[verifier::external_body]
fn parse_document<'a>(bytes: &Vec<u8>, options: &usvg::Options<'a>) -> Result<
    usvg::Tree,
    usvg::Error,
> {
    usvg::Tree::from_data(bytes, options)
}

/// Relies on tiny_skia::Pixmap::new (resvg's re-export): allocates a
/// transparent pixel buffer of four bytes per pixel, or returns None when
/// the size is zero or too large for the buffer length to be computed.
#[verifier::external_body]
fn new_pixmap(width: u32, height: u32) -> (r: Option<resvg::tiny_skia::Pixmap>)
    ensures
        r matches Some(p) ==> pixmap_bytes(p).len() == width as int * height as int * 4,
{
    resvg::tiny_skia::Pixmap::new(width, height)
}

/// Relies on resvg::render, with tiny_skia::Transform::from_scale as the
/// root transform: rasterizes the document tree into the pixmap, scaled
/// uniformly by `scale` with no rotation or skew, leaving the buffer
/// length unchanged.
#[verifier::external_body]
fn render_scaled(tree: &usvg::Tree, scale: u16, pixmap: &mut resvg::tiny_skia::Pixmap)
    ensures
        pixmap_bytes(*final(pixmap)).len() == pixmap_bytes(*old(pixmap)).len(),
{
    let transform = resvg::tiny_skia::Transform::from_scale(scale.into(), scale.into());
    resvg::render(tree, transform, &mut pixmap.as_mut());
}

/// Relies on tiny_skia::Pixmap::take: hands out the pixmap's own byte
/// buffer (premultiplied RGBA, row by row).
#[verifier::external_body]
fn take_pixels(pixmap: resvg::tiny_skia::Pixmap) -> (r: Vec<u8>)
    ensures
        r@ == pixmap_bytes(pixmap),
{
    pixmap.take()
}

/// The process-wide font index: every font installed on the system,
/// loaded once and read-only afterwards, so that documents can resolve
/// the font families they reference. Pass it by shared reference into
/// every rasterization.
pub struct FontIndex {
    options: usvg::Options<'static>,
}

impl FontIndex {
    pub fn new() -> FontIndex {
        FontIndex { options: system_font_options() }
    }
}

/// Rasterizes SVG document bytes at `OVERSAMPLE` times the requested size
/// and converts the pixels from premultiplied RGBA to straight-alpha BGRA.
///
/// A zero target size is `InvalidSize`, bytes that do not parse are
/// `InvalidDocument`, and a pixel buffer that cannot be created is
/// `AllocationFailure`; no other error comes out of this function, and no
/// partial bitmap is ever returned.
pub fn rasterize(bytes: &Vec<u8>, width: u32, height: u32, fonts: &FontIndex) -> (r: Result<
    Bitmap,
    RasterError,
>)
    requires
        width <= MAX_EXTENT,
        height <= MAX_EXTENT,
    ensures
        r == Err::<Bitmap, RasterError>(RasterError::InvalidSize) <==> (width == 0 || height == 0),
        r matches Ok(b) ==> {
            &&& b.spec_width() == OVERSAMPLE * width
            &&& b.spec_height() == OVERSAMPLE * height
            &&& b.well_formed()
        },
        r matches Err(e) ==> (e == RasterError::InvalidSize || e == RasterError::InvalidDocument
            || e == RasterError::AllocationFailure),
{
    if width == 0 || height == 0 {
        return Err(RasterError::InvalidSize);
    }
    let tree = match parse_document(bytes, &fonts.options) {
        Ok(tree) => tree,
        Err(_) => {
            return Err(RasterError::InvalidDocument);
        },
    };
    let scaled_width: u32 = OVERSAMPLE * width;
    let scaled_height: u32 = OVERSAMPLE * height;
    let mut pixmap = match new_pixmap(scaled_width, scaled_height) {
        Some(pixmap) => pixmap,
        None => {
            return Err(RasterError::AllocationFailure);
        },
    };
    render_scaled(&tree, OVERSAMPLE as u16, &mut pixmap);
    let mut pixels = take_pixels(pixmap);
    proof {
        assert(pixels@.len() % 4 == 0);
    }
    convert_premultiplied_rgba_to_bgra(&mut pixels);
    proof {
        assert(pixels@.len() == scaled_width as int * scaled_height as int * 4);
    }
    Ok(Bitmap::new(scaled_width, scaled_height, pixels))
}

} // verus!
