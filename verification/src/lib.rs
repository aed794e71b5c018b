//! An SVG image element: on-demand vector rasterization with
//! premultiplied-alpha conversion, a deduplicating asset cache, and
//! aspect-preserving fit-and-center placement.
//!
//! The library is split along the data flow: [`raster`] turns document
//! bytes into a [`bitmap::Bitmap`], [`cache`] retains one result per
//! (source, size) key, and [`element`] computes where a bitmap is painted
//! inside the bounds a host layout assigns.

use vstd::prelude::*;

pub mod bitmap;
pub mod cache;
pub mod convert;
pub mod element;
pub mod fit;
pub mod raster;
pub mod sidebar;
pub mod source;

verus! {

/// The errors this library can signal. No error here is fatal: callers
/// that paint treat every variant as "paint nothing".
#[derive(Clone, Copy, Debug, PartialEq, Eq, Structural)]
pub enum RasterError {
    /// The requested target size has zero width or zero height.
    InvalidSize,
    /// The document bytes do not parse as a vector document.
    InvalidDocument,
    /// A symbolic path could not be resolved to document bytes.
    SourceUnavailable,
    /// The pixel buffer for the target size could not be created.
    AllocationFailure,
    /// The host paint surface rejected the paint command.
    PaintSurfaceError,
}

} // verus!
