//! The rasterization result: an immutable, shared pixel buffer.

use vstd::prelude::*;
use std::sync::Arc;

verus! {

/// An immutable BGRA (straight-alpha) pixel buffer plus its pixel
/// dimensions. The buffer is reference counted: cloning a `Bitmap` is
/// cheap and shares the same pixels, which are never written after
/// creation.
pub struct Bitmap {
    width: u32,
    height: u32,
    data: Arc<Vec<u8>>,
}

impl Bitmap {
    /// Four bytes for each pixel, row by row.
    pub open spec fn well_formed(self) -> bool {
        self.spec_data().len() == self.spec_width() * self.spec_height() * 4
    }

    pub closed spec fn spec_width(self) -> int {
        self.width as int
    }

    pub closed spec fn spec_height(self) -> int {
        self.height as int
    }

    pub closed spec fn spec_data(self) -> Seq<u8> {
        self.data@
    }

    pub fn new(width: u32, height: u32, data: Vec<u8>) -> (r: Bitmap)
        requires
            data@.len() == width as int * height as int * 4,
        ensures
            r.spec_width() == width,
            r.spec_height() == height,
            r.spec_data() == data@,
            r.well_formed(),
    {
        Bitmap { width, height, data: Arc::new(data) }
    }

    pub fn width(&self) -> (r: u32)
        ensures
            r == self.spec_width(),
    {
        self.width
    }

    pub fn height(&self) -> (r: u32)
        ensures
            r == self.spec_height(),
    {
        self.height
    }

    /// The pixel bytes: blue, green, red, alpha for each pixel in turn.
    pub fn data(&self) -> (r: &Vec<u8>)
        ensures
            r@ == self.spec_data(),
    {
        &self.data
    }
}

impl Clone for Bitmap {
    fn clone(&self) -> (r: Self)
        ensures
            r == *self,
    {
        Bitmap { width: self.width, height: self.height, data: self.data.clone() }
    }
}

} // verus!
