//! The asset cache: at most one retained rasterization result per
//! (source, size) key.
//!
//! The host rendering surface owns eviction; this component owns the key
//! discipline. Its guarantee is the deduplication one: a key is rasterized
//! at most once, and every request for the same key receives the same
//! retained outcome — the same shared bitmap or the same error.

use vstd::prelude::*;
use crate::RasterError;
use crate::bitmap::Bitmap;
use crate::raster::{rasterize, FontIndex, MAX_EXTENT, OVERSAMPLE};
use crate::source::{same_key, ImageSource, SvgSource};

verus! {

/// A key matching two keys that both match a third matches it too, and
/// every key matches itself.
pub proof fn lemma_same_key_equivalence(a: ImageSource, b: ImageSource, c: ImageSource)
    ensures
        same_key(a, a),
        same_key(a, c) && same_key(b, c) ==> same_key(a, b),
{
}

pub struct AssetCache {
    entries: Vec<(ImageSource, Result<Bitmap, RasterError>)>,
}

impl AssetCache {
    /// The retained entries, oldest first.
    pub closed spec fn entries_view(self) -> Seq<(ImageSource, Result<Bitmap, RasterError>)> {
        self.entries@
    }

    /// No two entries share a key.
    pub open spec fn wf(self) -> bool {
        forall|i: int, j: int|
            0 <= i < j < self.entries_view().len() ==> !same_key(
                #[trigger] self.entries_view()[i].0,
                #[trigger] self.entries_view()[j].0,
            )
    }

    pub open spec fn contains_key(self, key: ImageSource) -> bool {
        exists|i: int|
            0 <= i < self.entries_view().len() && same_key(
                #[trigger] self.entries_view()[i].0,
                key,
            )
    }

    pub open spec fn index_of(self, key: ImageSource) -> int {
        choose|i: int|
            0 <= i < self.entries_view().len() && same_key(
                #[trigger] self.entries_view()[i].0,
                key,
            )
    }

    /// The retained outcome for a key the cache holds.
    pub open spec fn cached(self, key: ImageSource) -> Result<Bitmap, RasterError> {
        self.entries_view()[self.index_of(key)].1
    }

    /// In a well-formed cache an entry whose key matches is the only one,
    /// so it is the one `cached` speaks of.
    proof fn lemma_entry_is_cached(self, key: ImageSource, i: int)
        requires
            self.wf(),
            0 <= i < self.entries_view().len(),
            same_key(self.entries_view()[i].0, key),
        ensures
            self.contains_key(key),
            self.index_of(key) == i,
            self.cached(key) == self.entries_view()[i].1,
    {
        assert(self.contains_key(key));
        let j = self.index_of(key);
        assert(0 <= j < self.entries_view().len() && same_key(self.entries_view()[j].0, key));
        if i != j {
            lemma_same_key_equivalence(self.entries_view()[i].0, self.entries_view()[j].0, key);
        }
    }

    pub fn new() -> (c: AssetCache)
        ensures
            c.wf(),
            c.entries_view().len() == 0,
    {
        AssetCache { entries: Vec::new() }
    }

    /// Looks the key up without loading anything: the retained outcome if
    /// the cache holds the key, `None` otherwise.
    pub fn lookup(&self, key: &ImageSource) -> (r: Option<Result<Bitmap, RasterError>>)
        requires
            self.wf(),
        ensures
            r matches Some(v) ==> self.contains_key(*key) && v == self.cached(*key),
            r is None ==> !self.contains_key(*key),
    {
        let n: usize = self.entries.len();
        let mut i: usize = 0;
        while i < n
            invariant
                n == self.entries_view().len(),
                i <= n,
                self.wf(),
                forall|j: int|
                    0 <= j < i ==> !same_key(#[trigger] self.entries_view()[j].0, *key),
            decreases n - i,
        {
            if self.entries[i].0.eq(key) {
                proof {
                    self.lemma_entry_is_cached(*key, i as int);
                }
                return Some(clone_result(&self.entries[i].1));
            }
            i += 1;
        }
        None
    }
}

/// An outcome is cloned when it is handed out: the bitmap handle is shared,
/// the error copied.
fn clone_result(r: &Result<Bitmap, RasterError>) -> (c: Result<Bitmap, RasterError>)
    ensures
        c == *r,
{
    match r {
        Ok(b) => Ok(b.clone()),
        Err(e) => Err(*e),
    }
}

/// The asset kind: SVG documents loaded through the cache. A marker type
/// that only namespaces [`Image::load`].
pub struct Image;

impl Image {
    /// Loads the key through the cache: the retained outcome if the key was
    /// requested before, otherwise one rasterization whose outcome —
    /// success or error alike — is retained under the key.
    ///
    /// The second component of the result says whether this call did that
    /// work: repeated and concurrent requests for one key are serialized by
    /// the cache's single writer, and every one after the first finds the
    /// key and returns `false` here, so a key is rasterized at most once.
    ///
    /// A key whose source is a symbolic path rasterizes the `resolved`
    /// bytes the asset-resolution collaborator produced for that path;
    /// `None` means the path did not resolve, which is retained as
    /// `SourceUnavailable` — distinct from `InvalidDocument`, which bytes
    /// that fail to parse produce. A zero requested size is retained as
    /// `InvalidSize` without looking at the source at all.
    pub fn load(
        cache: &mut AssetCache,
        key: ImageSource,
        resolved: Option<Vec<u8>>,
        fonts: &FontIndex,
    ) -> (r: (Result<Bitmap, RasterError>, bool))
        requires
            old(cache).wf(),
            key.width <= MAX_EXTENT,
            key.height <= MAX_EXTENT,
        ensures
            final(cache).wf(),
            r.1 == !old(cache).contains_key(key),
            final(cache).contains_key(key),
            final(cache).cached(key) == r.0,
            old(cache).contains_key(key) ==> *final(cache) == *old(cache) && r.0 == old(
                cache,
            ).cached(key),
            !old(cache).contains_key(key) ==> final(cache).entries_view() == old(
                cache,
            ).entries_view().push((key, r.0)),
            forall|other: ImageSource|
                old(cache).contains_key(other) ==> #[trigger] final(cache).contains_key(other)
                    && final(cache).cached(other) == old(cache).cached(other),
            !old(cache).contains_key(key) ==> {
                &&& (r.0 == Err::<Bitmap, RasterError>(RasterError::InvalidSize) <==> (key.width
                    == 0 || key.height == 0))
                &&& (r.0 == Err::<Bitmap, RasterError>(RasterError::SourceUnavailable) <==> (
                key.width > 0 && key.height > 0 && key.source is Path && resolved is None))
                &&& (r.0 matches Ok(b) ==> b.spec_width() == OVERSAMPLE * key.width
                    && b.spec_height() == OVERSAMPLE * key.height && b.well_formed())
            },
    {
        match cache.lookup(&key) {
            Some(result) => (result, false),
            None => {
                let result: Result<Bitmap, RasterError> = if key.width == 0 || key.height == 0 {
                    Err(RasterError::InvalidSize)
                } else {
                    match &key.source {
                        SvgSource::Data(data) => rasterize(&*data, key.width, key.height, fonts),
                        SvgSource::Path(_) => match &resolved {
                            Some(bytes) => rasterize(bytes, key.width, key.height, fonts),
                            None => Err(RasterError::SourceUnavailable),
                        },
                    }
                };
                let retained = clone_result(&result);
                let ghost before = cache.entries_view();
                cache.entries.push((key, retained));
                proof {
                    assert forall|i: int, j: int|
                        0 <= i < j < cache.entries_view().len() implies !same_key(
                        cache.entries_view()[i].0,
                        cache.entries_view()[j].0,
                    ) by {
                        if j < before.len() {
                        } else {
                            assert(cache.entries_view()[j].0 == key);
                        }
                    }
                    lemma_same_key_equivalence(key, key, key);
                    cache.lemma_entry_is_cached(key, before.len() as int);
                    assert forall|other: ImageSource| old(cache).contains_key(other) implies cache
                        .contains_key(other) && cache.cached(other) == old(cache).cached(
                    other) by {
                        let i: int = old(cache).index_of(other);
                        assert(0 <= i < before.len() && same_key(before[i].0, other));
                        cache.lemma_entry_is_cached(other, i);
                        old(cache).lemma_entry_is_cached(other, i);
                    }
                }
                (result, true)
            },
        }
    }
}

} // verus!
