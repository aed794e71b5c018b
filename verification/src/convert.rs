//! Color conversion from premultiplied-alpha RGBA to straight-alpha BGRA.
//!
//! A rasterized pixel arrives with each color channel already scaled by the
//! alpha fraction. The paint surface wants straight alpha and the channels
//! in blue, green, red, alpha order, so for every pixel the red and blue
//! bytes trade places and, where the alpha is not zero, each color channel
//! is divided by `alpha / 255` to recover the true color.

use vstd::prelude::*;

verus! {

/// The straight-alpha value of one premultiplied color channel: the channel
/// scaled back up by `255 / a`, saturating at 255. A zero alpha leaves the
/// channel untouched (there is nothing to divide by).
pub open spec fn unpremultiply(c: u8, a: u8) -> u8 {
    if a == 0 {
        c
    } else if c as int * 255 / a as int > 255 {
        255u8
    } else {
        (c as int * 255 / a as int) as u8
    }
}

/// The whole converted buffer: for each four-byte pixel, red and blue
/// swapped and every color channel un-premultiplied by that pixel's alpha.
/// The alpha byte itself is kept as it was.
pub open spec fn straight_bgra_of_premul_rgba(s: Seq<u8>) -> Seq<u8> {
    Seq::new(
        s.len(),
        |i: int|
            {
                let p = 4 * (i / 4);
                if i % 4 == 0 {
                    unpremultiply(s[p + 2], s[p + 3])
                } else if i % 4 == 1 {
                    unpremultiply(s[p + 1], s[p + 3])
                } else if i % 4 == 2 {
                    unpremultiply(s[p], s[p + 3])
                } else {
                    s[p + 3]
                }
            },
    )
}

/// An alpha of 255 means fully opaque: un-premultiplying is a no-op.
pub proof fn lemma_unpremultiply_opaque(c: u8)
    ensures
        unpremultiply(c, 255) == c,
{
}

/// The conversion never touches an alpha byte, and keeps the buffer length.
pub proof fn lemma_conversion_keeps_alpha(s: Seq<u8>)
    requires
        s.len() % 4 == 0,
    ensures
        straight_bgra_of_premul_rgba(s).len() == s.len(),
        forall|i: int| 0 <= i < s.len() && i % 4 == 3 ==> straight_bgra_of_premul_rgba(s)[i] == s[i],
{
    assert forall|i: int| 0 <= i < s.len() && i % 4 == 3 implies straight_bgra_of_premul_rgba(s)[i]
        == s[i] by {
        assert(4 * (i / 4) + 3 == i);
    }
}

fn unpremultiply_channel(c: u8, a: u8) -> (r: u8)
    ensures
        r == unpremultiply(c, a),
{
    if a == 0 {
        c
    } else {
        let q: u32 = c as u32 * 255 / a as u32;
        if q > 255 {
            255
        } else {
            q as u8
        }
    }
}

/// Converts the buffer in place from premultiplied RGBA to straight BGRA,
/// four bytes per pixel.
pub fn convert_premultiplied_rgba_to_bgra(data: &mut Vec<u8>)
    requires
        old(data)@.len() % 4 == 0,
    ensures
        final(data)@ == straight_bgra_of_premul_rgba(old(data)@),
{
    let ghost orig: Seq<u8> = data@;
    let n: usize = data.len();
    let pixel_count: usize = n / 4;
    let mut k: usize = 0;
    while k < pixel_count
        invariant
            data@.len() == orig.len(),
            orig.len() == n as int,
            pixel_count == n / 4,
            orig.len() % 4 == 0,
            k <= pixel_count,
            forall|j: int| 0 <= j < 4 * k ==> data@[j] == straight_bgra_of_premul_rgba(orig)[j],
            forall|j: int| 4 * k <= j < orig.len() ==> data@[j] == orig[j],
        decreases pixel_count - k,
    {
        proof {
            assert(4 * pixel_count <= orig.len());
        }
        let base: usize = 4 * k;
        let r0 = data[base];
        let g = data[base + 1];
        let b = data[base + 2];
        let a = data[base + 3];
        data.set(base, unpremultiply_channel(b, a));
        data.set(base + 1, unpremultiply_channel(g, a));
        data.set(base + 2, unpremultiply_channel(r0, a));
        proof {
            let converted = straight_bgra_of_premul_rgba(orig);
            assert forall|j: int| 4 * k <= j < 4 * (k + 1) implies data@[j] == converted[j] by {
                assert(j / 4 == k as int);
                assert(4 * (j / 4) == base as int);
            }
        }
        k = k + 1;
    }
    proof {
        assert(data@ =~= straight_bgra_of_premul_rgba(orig));
    }
}

} // verus!
