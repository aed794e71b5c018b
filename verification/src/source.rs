//! Sources of SVG documents and the cache key built from one.

use vstd::prelude::*;
use vstd::std_specs::cmp::PartialEqSpec;
use std::sync::Arc;

verus! {

/// Where the document bytes of an image come from: either the bytes
/// themselves (shared by reference) or a symbolic asset path that an
/// external collaborator resolves to bytes.
#[derive(Debug, Hash)]
pub enum SvgSource {
    /// The svg bytes.
    Data(Arc<Vec<u8>>),
    /// An asset path.
    Path(String),
}

/// Two sources identify the same document: the same kind with the same
/// bytes, or the same path.
pub open spec fn same_source(a: SvgSource, b: SvgSource) -> bool {
    match (a, b) {
        (SvgSource::Data(x), SvgSource::Data(y)) => x@ == y@,
        (SvgSource::Path(p), SvgSource::Path(q)) => p@ == q@,
        _ => false,
    }
}

impl SvgSource {
    pub fn from_data(data: Vec<u8>) -> (r: SvgSource)
        ensures
            r matches SvgSource::Data(d) && d@ == data@,
    {
        SvgSource::Data(Arc::new(data))
    }

    pub fn from_path(path: String) -> (r: SvgSource)
        ensures
            r matches SvgSource::Path(p) && p@ == path@,
    {
        SvgSource::Path(path)
    }
}

impl Clone for SvgSource {
    fn clone(&self) -> (r: Self)
        ensures
            same_source(r, *self),
    {
        match self {
            SvgSource::Data(d) => SvgSource::Data(d.clone()),
            SvgSource::Path(p) => SvgSource::Path(p.clone()),
        }
    }
}

impl PartialEq for SvgSource {
    fn eq(&self, other: &Self) -> (r: bool) {
        match (self, other) {
            (SvgSource::Data(x), SvgSource::Data(y)) => {
                let xv: &Vec<u8> = &*x;
                let yv: &Vec<u8> = &*y;
                let r = xv == yv;
                proof {
                    assert(r == xv.eq_spec(yv));
                    if r {
                        assert(xv@.len() == yv@.len());
                        assert(forall|i: int|
                            #![auto]
                            0 <= i < xv@.len() ==> xv@[i] == yv@[i]);
                        assert(x@ =~= y@);
                    } else {
                        if x@ == y@ {
                            assert(xv@.len() == yv@.len());
                            assert(forall|i: int|
                                #![auto]
                                0 <= i < xv@.len() ==> xv@[i].eq_spec(&yv@[i]));
                            assert(xv.eq_spec(yv));
                        }
                    }
                }
                proof {
                    assert(r == same_source(*self, *other));
                }
                r
            },
            (SvgSource::Path(p), SvgSource::Path(q)) => {
                let r = p.eq(q);
                proof {
                    assert(r == same_source(*self, *other));
                }
                r
            },
            _ => false,
        }
    }
}

impl vstd::std_specs::cmp::PartialEqSpecImpl for SvgSource {
    open spec fn obeys_eq_spec() -> bool {
        true
    }

    open spec fn eq_spec(&self, other: &Self) -> bool {
        same_source(*self, *other)
    }
}

/// The cache key: a source paired with the requested logical size in
/// device-independent pixels. The same document rasterized at two sizes
/// gives two different bitmaps, so the size is part of the key.
#[derive(Debug, Hash)]
pub struct ImageSource {
    pub source: SvgSource,
    pub width: u32,
    pub height: u32,
}

/// Two keys are the same entry of the cache: same document and same
/// requested size.
pub open spec fn same_key(a: ImageSource, b: ImageSource) -> bool {
    same_source(a.source, b.source) && a.width == b.width && a.height == b.height
}

impl ImageSource {
    pub fn new(source: SvgSource, width: u32, height: u32) -> (r: ImageSource)
        ensures
            r.source == source,
            r.width == width,
            r.height == height,
    {
        ImageSource { source, width, height }
    }
}

impl Clone for ImageSource {
    fn clone(&self) -> (r: Self)
        ensures
            same_key(r, *self),
            r.width == self.width,
            r.height == self.height,
    {
        ImageSource { source: self.source.clone(), width: self.width, height: self.height }
    }
}

impl PartialEq for ImageSource {
    fn eq(&self, other: &Self) -> (r: bool) {
        self.source == other.source && self.width == other.width && self.height == other.height
    }
}

impl vstd::std_specs::cmp::PartialEqSpecImpl for ImageSource {
    open spec fn obeys_eq_spec() -> bool {
        true
    }

    open spec fn eq_spec(&self, other: &Self) -> bool {
        same_key(*self, *other)
    }
}

} // verus!
