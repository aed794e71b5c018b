//! The SVG image element: a paintable node that, across the three ordered
//! lifecycle phases of a render pass, asks the asset cache for a bitmap
//! and paints it fitted and centered inside its assigned bounds.
//!
//! The host drives the phases and owns layout, hit-testing and the paint
//! surface. Each phase here is the decision the element makes in that
//! phase, from plain values to plain values: what phase N returns, the
//! host hands verbatim to phase N+1.

use vstd::prelude::*;
use crate::RasterError;
use crate::bitmap::Bitmap;
use crate::fit::{centered_origin, fit_and_center, fit_ratio, scaled_extent, Placement};
use crate::source::{same_key, ImageSource, SvgSource};

verus! {

/// One opaque image paint command, ready for the host paint surface.
pub struct PaintCommand {
    /// Where the bitmap goes, already fitted and centered.
    pub placement: Placement,
    /// The shared bitmap to paint.
    pub bitmap: Bitmap,
    /// Always zero: the element paints square corners.
    pub corner_radius: u32,
    /// Always zero: a rasterized document has a single frame.
    pub frame_index: usize,
    /// Always false: the bitmap is painted as it is.
    pub flip: bool,
}

/// The element: an optional sized source plus the logical display size in
/// device-independent pixels. Constructed empty, populated by the
/// [`SvgImg::source`] builder, consumed each render pass.
pub struct SvgImg {
    source: Option<ImageSource>,
    width: u32,
    height: u32,
}

impl SvgImg {
    /// The configured cache key, if any: absent means nothing to draw.
    pub closed spec fn spec_source(self) -> Option<ImageSource> {
        self.source
    }

    /// The logical display size (width, height).
    pub closed spec fn spec_size(self) -> (int, int) {
        (self.width as int, self.height as int)
    }

    /// Create a new svg image element, with no source and nothing to draw.
    pub fn new() -> (r: Self)
        ensures
            r.spec_source() is None,
            r.spec_size() == (0int, 0int),
    {
        SvgImg { source: None, width: 0, height: 0 }
    }

    /// Set the source of the svg image and the size of the original svg
    /// image, which together form the cache key.
    #[must_use]
    pub fn source(self, source: SvgSource, width: u32, height: u32) -> (r: Self)
        ensures
            r.spec_size() == (width as int, height as int),
            r.spec_source() == Some((ImageSource { source, width, height })),
    {
        SvgImg { source: Some(ImageSource::new(source, width, height)), width, height }
    }

    /// The currently configured source and size.
    pub fn get_source(&self) -> (r: Option<&ImageSource>)
        ensures
            r matches Some(k) ==> self.spec_source() == Some(*k),
            r is None ==> self.spec_source() is None,
    {
        self.source.as_ref()
    }

    /// Phase one, layout-request: if a source is configured, the host asks
    /// the cache for it and hands the outcome in as `fetched`; the element
    /// carries the bitmap of a successful load forward and treats
    /// everything else — no source, still loading, or a failed load — as
    /// nothing to draw. No error is fatal here.
    pub fn request_layout(&self, fetched: Option<Result<Bitmap, RasterError>>) -> (r: Option<
        Bitmap,
    >)
        ensures
            r == (if self.spec_source() is None {
                None
            } else {
                match fetched {
                    Some(Ok(b)) => Some(b),
                    _ => None::<Bitmap>,
                }
            }),
    {
        if self.source.is_none() {
            return None;
        }
        match fetched {
            Some(Ok(b)) => Some(b),
            _ => None,
        }
    }

    /// Phase two, prepaint: the host computes the hit-testable region from
    /// the assigned bounds; the bitmap reference is threaded through
    /// unchanged.
    pub fn prepaint(&self, state: Option<Bitmap>) -> (r: Option<Bitmap>)
        ensures
            r == state,
    {
        state
    }

    /// Phase three, paint: the single paint command for the bitmap inside
    /// the assigned bounds — fitted by the binding dimension, never scaled
    /// past 1:1, centered, the origin floored and the size ceiled to whole
    /// device pixels, square corners, first frame, no flip. No bitmap (or a
    /// zero logical size, which nothing sensible fits) paints nothing,
    /// which is not an error.
    pub fn paint_command(&self, ox: i64, oy: i64, bw: u32, bh: u32, data: Option<Bitmap>) -> (r:
        Option<PaintCommand>)
        requires
            -0x1_0000_0000 <= ox <= 0x1_0000_0000,
            -0x1_0000_0000 <= oy <= 0x1_0000_0000,
        ensures
            r is Some <==> (data is Some && self.spec_size().0 > 0 && self.spec_size().1 > 0),
            r matches Some(cmd) ==> {
                let (lw, lh) = self.spec_size();
                let (n, d) = fit_ratio(bw as int, bh as int, lw, lh);
                &&& data matches Some(b) && cmd.bitmap == b
                &&& cmd.placement.width == scaled_extent(lw, n, d)
                &&& cmd.placement.height == scaled_extent(lh, n, d)
                &&& cmd.placement.x == centered_origin(ox as int, bw as int, lw, n, d)
                &&& cmd.placement.y == centered_origin(oy as int, bh as int, lh, n, d)
                &&& cmd.placement.width <= lw && cmd.placement.height <= lh
                &&& ox <= cmd.placement.x && cmd.placement.x + cmd.placement.width <= ox + bw
                &&& oy <= cmd.placement.y && cmd.placement.y + cmd.placement.height <= oy + bh
                &&& cmd.corner_radius == 0 && cmd.frame_index == 0 && !cmd.flip
            },
    {
        let data = match data {
            Some(b) => b,
            None => {
                return None;
            },
        };
        if self.width == 0 || self.height == 0 {
            return None;
        }
        let placement = fit_and_center(ox, oy, bw, bh, self.width, self.height);
        Some(
            PaintCommand {
                placement,
                bitmap: data,
                corner_radius: 0,
                frame_index: 0,
                flip: false,
            },
        )
    }
}

impl Clone for SvgImg {
    fn clone(&self) -> (r: Self)
        ensures
            r.spec_size() == self.spec_size(),
            r.spec_source() is Some <==> self.spec_source() is Some,
            r.spec_source() matches Some(k) ==> (self.spec_source() matches Some(k2) && same_key(
                k,
                k2,
            )),
    {
        let source = match &self.source {
            Some(k) => Some(k.clone()),
            None => None,
        };
        SvgImg { source, width: self.width, height: self.height }
    }
}

} // verus!
