//! Fit-and-center placement: scaling an image down (never up) to fit a
//! bounding box while preserving the aspect ratio, then centering it.
//!
//! All arithmetic is exact. The fit ratio is kept as a fraction of whole
//! pixel extents, the scaled size is its ceiling and the centered origin
//! its floor, so the result matches the mathematical definition
//! `ratio = min(1, bounds.width / logical.width, bounds.height / logical.height)`,
//! `scaled = logical * ratio`, `origin = bounds.origin + (bounds.size - scaled) / 2`
//! with no rounding along the way.

use vstd::prelude::*;
use vstd::arithmetic::div_mod::{
    lemma_div_is_ordered, lemma_div_multiples_vanish_fancy, lemma_div_pos_is_pos,
    lemma_fundamental_div_mod, lemma_mod_division_less_than_divisor,
};

verus! {

/// Where a bitmap is painted: the top-left corner and the size, in whole
/// device pixels.
#[derive(Clone, Copy, Debug, PartialEq, Eq, Structural)]
pub struct Placement {
    pub x: i64,
    pub y: i64,
    pub width: u32,
    pub height: u32,
}

/// The fit ratio `min(1, bw / lw, bh / lh)` as an exact fraction
/// (numerator, denominator) with a positive denominator.
pub open spec fn fit_ratio(bw: int, bh: int, lw: int, lh: int) -> (int, int) {
    if bw * lh <= bh * lw {
        if bw < lw {
            (bw, lw)
        } else {
            (1, 1)
        }
    } else {
        if bh < lh {
            (bh, lh)
        } else {
            (1, 1)
        }
    }
}

/// One scaled extent: `ceil(l * n / d)`.
pub open spec fn scaled_extent(l: int, n: int, d: int) -> int {
    (l * n + d - 1) / d
}

/// One centered coordinate: `o + floor((b - l * n / d) / 2)`.
pub open spec fn centered_origin(o: int, b: int, l: int, n: int, d: int) -> int {
    o + (b * d - l * n) / (2 * d)
}

/// Everything the placement of one dimension needs: the scaled extent is
/// never larger than the logical extent (no upscaling) nor the bound (no
/// cropping), and together with the centering offset it stays inside the
/// bound.
proof fn lemma_fit_dim(b: int, l: int, n: int, d: int)
    requires
        0 < d,
        0 <= n <= d,
        0 < l,
        0 <= b,
        l * n <= b * d,
    ensures
        0 <= scaled_extent(l, n, d) <= l,
        scaled_extent(l, n, d) <= b,
        0 <= (b * d - l * n) / (2 * d) <= b,
        (b * d - l * n) / (2 * d) + scaled_extent(l, n, d) <= b,
{
    let num = l * n + d - 1;
    let ext = num / d;
    let cnum = b * d - l * n;
    let off = cnum / (2 * d);

    assert(b * d == d * b && l * d == d * l) by (nonlinear_arith);

    assert(0 <= l * n) by (nonlinear_arith)
        requires
            0 <= n,
            0 < l,
    ;
    lemma_div_pos_is_pos(num, d);

    // ext <= l: the numerator is at most d * l + (d - 1).
    assert(l * n <= l * d) by (nonlinear_arith)
        requires
            n <= d,
            0 < l,
    ;
    lemma_div_is_ordered(num, d * l + (d - 1), d);
    lemma_div_multiples_vanish_fancy(l, d - 1, d);

    // ext <= b: the numerator is at most d * b + (d - 1).
    lemma_div_is_ordered(num, d * b + (d - 1), d);
    lemma_div_multiples_vanish_fancy(b, d - 1, d);

    // 0 <= off <= b.
    lemma_div_pos_is_pos(cnum, 2 * d);
    assert(cnum <= (2 * d) * b + (2 * d - 1)) by (nonlinear_arith)
        requires
            0 <= l * n,
            0 < d,
            0 <= b,
            cnum == b * d - l * n,
    ;
    lemma_div_is_ordered(cnum, (2 * d) * b + (2 * d - 1), 2 * d);
    lemma_div_multiples_vanish_fancy(b, 2 * d - 1, 2 * d);

    // off + ext <= b.
    lemma_fundamental_div_mod(cnum, 2 * d);
    lemma_mod_division_less_than_divisor(cnum, 2 * d);
    lemma_fundamental_div_mod(num, d);
    lemma_mod_division_less_than_divisor(num, d);
    assert((2 * d) * off <= cnum);
    assert(d * ext <= num);
    assert((2 * d) * (off + ext) <= cnum + 2 * num) by (nonlinear_arith)
        requires
            (2 * d) * off <= cnum,
            d * ext <= num,
    ;
    assert(cnum + 2 * num < (2 * d) * (b + 1)) by (nonlinear_arith)
        requires
            cnum == b * d - l * n,
            num == l * n + d - 1,
            l * n <= b * d,
            0 < d,
    ;
    assert(off + ext < b + 1) by (nonlinear_arith)
        requires
            (2 * d) * (off + ext) < (2 * d) * (b + 1),
            0 < d,
    ;
}

/// The product of two pixel extents fits in 64 bits.
proof fn lemma_extent_product_fits(a: int, b: int)
    requires
        0 <= a < 0x1_0000_0000,
        0 <= b < 0x1_0000_0000,
    ensures
        0 <= a * b < 0x1_0000_0000_0000_0000,
{
    assert(a * b < 0x1_0000_0000_0000_0000) by (nonlinear_arith)
        requires
            0 <= a < 0x1_0000_0000,
            0 <= b < 0x1_0000_0000,
    ;
    assert(0 <= a * b) by (nonlinear_arith)
        requires
            0 <= a,
            0 <= b,
    ;
}

/// The placement of a `lw` by `lh` image inside the bounds with origin
/// (`ox`, `oy`) and size `bw` by `bh`: scaled down by the fit ratio (never
/// up past 1:1), the size rounded up and the centered origin rounded down
/// to whole device pixels. The image is never cropped: the placement stays
/// inside the bounds.
pub fn fit_and_center(ox: i64, oy: i64, bw: u32, bh: u32, lw: u32, lh: u32) -> (r: Placement)
    requires
        lw > 0,
        lh > 0,
        -0x1_0000_0000 <= ox <= 0x1_0000_0000,
        -0x1_0000_0000 <= oy <= 0x1_0000_0000,
    ensures
        ({
            let (n, d) = fit_ratio(bw as int, bh as int, lw as int, lh as int);
            &&& r.width == scaled_extent(lw as int, n, d)
            &&& r.height == scaled_extent(lh as int, n, d)
            &&& r.x == centered_origin(ox as int, bw as int, lw as int, n, d)
            &&& r.y == centered_origin(oy as int, bh as int, lh as int, n, d)
        }),
        r.width <= lw && r.height <= lh,
        r.width <= bw && r.height <= bh,
        ox <= r.x && r.x + r.width <= ox + bw,
        oy <= r.y && r.y + r.height <= oy + bh,
{
    proof {
        lemma_extent_product_fits(bw as int, lh as int);
        lemma_extent_product_fits(bh as int, lw as int);
    }
    let cross_w: u64 = bw as u64 * lh as u64;
    let cross_h: u64 = bh as u64 * lw as u64;
    let (n64, d64): (u64, u64) = if cross_w <= cross_h {
        if bw < lw {
            (bw as u64, lw as u64)
        } else {
            (1, 1)
        }
    } else {
        if bh < lh {
            (bh as u64, lh as u64)
        } else {
            (1, 1)
        }
    };
    proof {
        let (n, d) = fit_ratio(bw as int, bh as int, lw as int, lh as int);
        assert(n64 as int == n && d64 as int == d);
        assert(0 <= n <= d);
        assert(0 < d64 && n64 <= d64 && d64 < 0x1_0000_0000);
        if cross_w <= cross_h {
            assert(lw as int * n <= bw as int * d && lh as int * n <= bh as int * d)
                by (nonlinear_arith)
                requires
                    bw as int * lh as int <= bh as int * lw as int,
                    0 < lw as int,
                    0 < lh as int,
                    (n, d) == (if (bw as int) < (lw as int) {
                        (bw as int, lw as int)
                    } else {
                        (1int, 1int)
                    }),
            ;
        } else {
            assert(lw as int * n <= bw as int * d && lh as int * n <= bh as int * d)
                by (nonlinear_arith)
                requires
                    bh as int * lw as int <= bw as int * lh as int,
                    0 < lw as int,
                    0 < lh as int,
                    (n, d) == (if (bh as int) < (lh as int) {
                        (bh as int, lh as int)
                    } else {
                        (1int, 1int)
                    }),
            ;
        }
        lemma_fit_dim(bw as int, lw as int, n, d);
        lemma_fit_dim(bh as int, lh as int, n, d);
        lemma_extent_product_fits(lw as int, n);
        lemma_extent_product_fits(lh as int, n);
        lemma_extent_product_fits(bw as int, d);
        lemma_extent_product_fits(bh as int, d);
    }
    let n: u128 = n64 as u128;
    let d: u128 = d64 as u128;
    let sw: u128 = (lw as u128 * n + d - 1) / d;
    let sh: u128 = (lh as u128 * n + d - 1) / d;
    let tx: u128 = (bw as u128 * d - lw as u128 * n) / (2 * d);
    let ty: u128 = (bh as u128 * d - lh as u128 * n) / (2 * d);
    Placement {
        x: ox + tx as i64,
        y: oy + ty as i64,
        width: sw as u32,
        height: sh as u32,
    }
}

} // verus!
