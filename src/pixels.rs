//! Conversions between packed pixel layouts.
use vstd::prelude::*;
use vstd::arithmetic::div_mod::lemma_fundamental_div_mod_converse;

verus! {

/// `bgra` (4 bytes a pixel) as packed RGB: each whole pixel's red, green and
/// blue, in that order; alpha and a trailing partial pixel are dropped.
pub open spec fn rgb_of_bgra(bgra: Seq<u8>) -> Seq<u8> {
    Seq::new(
        (bgra.len() / 4) * 3,
        |i: int|
            {
                let p = i / 3;
                let c = i % 3;
                bgra[4 * p + 2 - c]
            },
    )
}

/// `rgb` (3 bytes a pixel) as BGRA with opaque alpha; a trailing partial
/// pixel is dropped.
pub open spec fn bgra_of_rgb(rgb: Seq<u8>) -> Seq<u8> {
    Seq::new(
        (rgb.len() / 3) * 4,
        |i: int|
            {
                let p = i / 4;
                let c = i % 4;
                if c == 3 {
                    255u8
                } else {
                    rgb[3 * p + 2 - c]
                }
            },
    )
}

/// Converts a captured BGRA frame to packed RGB.
pub fn bgra_to_rgb(bgra: &[u8], _width: usize, _height: usize) -> (r: Vec<u8>)
    ensures
        r@ == rgb_of_bgra(bgra@),
{
    let len: usize = bgra.len();
    let n: usize = len / 4;
    let mut rgb: Vec<u8> = Vec::new();
    let mut p: usize = 0;
    while p < n
        invariant
            p <= n,
            n == bgra@.len() / 4,
            len == bgra@.len(),
            rgb@.len() == p * 3,
            forall|i: int| 0 <= i < p * 3 ==> #[trigger] rgb@[i] == rgb_of_bgra(bgra@)[i],
        decreases n - p,
    {
        assert(4 * p + 3 < len);
        rgb.push(bgra[4 * p + 2]);
        rgb.push(bgra[4 * p + 1]);
        rgb.push(bgra[4 * p]);
        p = p + 1;
        assert forall|i: int| 0 <= i < p * 3 implies #[trigger] rgb@[i] == rgb_of_bgra(bgra@)[i] by {
            if i >= (p - 1) * 3 {
                assert(i / 3 == p - 1 && i % 3 == i - (p - 1) * 3);
            }
        }
    }
    assert(rgb@ =~= rgb_of_bgra(bgra@));
    rgb
}

/// Converts a packed RGB frame to BGRA with opaque alpha.
pub fn rgb_to_bgra(rgb: &[u8], _width: u32, _height: u32) -> (r: Vec<u8>)
    ensures
        r@ == bgra_of_rgb(rgb@),
{
    let len: usize = rgb.len();
    let n: usize = len / 3;
    let mut bgra: Vec<u8> = Vec::new();
    let mut p: usize = 0;
    while p < n
        invariant
            p <= n,
            n == rgb@.len() / 3,
            len == rgb@.len(),
            bgra@.len() == p * 4,
            forall|i: int| 0 <= i < p * 4 ==> #[trigger] bgra@[i] == bgra_of_rgb(rgb@)[i],
        decreases n - p,
    {
        assert(3 * p + 2 < len);
        assert(p * 4 + 4 <= n * 4);
        bgra.push(rgb[3 * p + 2]);
        bgra.push(rgb[3 * p + 1]);
        bgra.push(rgb[3 * p]);
        bgra.push(255);
        p = p + 1;
        assert forall|i: int| 0 <= i < p * 4 implies #[trigger] bgra@[i] == bgra_of_rgb(rgb@)[i] by {
            if i >= (p - 1) * 4 {
                assert(i / 4 == p - 1 && i % 4 == i - (p - 1) * 4);
            }
        }
    }
    assert(bgra@ =~= bgra_of_rgb(rgb@));
    bgra
}

/// A side of `n` pixels scaled to `percent` percent, rounded down.
pub open spec fn scaled_side(n: nat, percent: nat) -> nat {
    n * percent / 100
}

/// A `w × h` RGB frame scaled to `percent` percent by nearest neighbour:
/// output pixel `(x, y)` is input pixel `(x·100/percent, y·100/percent)`.
pub open spec fn scaled_rgb(rgb: Seq<u8>, w: nat, h: nat, percent: nat) -> Seq<u8> {
    let nw = scaled_side(w, percent);
    let nh = scaled_side(h, percent);
    Seq::new(
        nw * nh * 3,
        |i: int|
            {
                let p = i / 3;
                let sx = (p % (nw as int)) * 100 / (percent as int);
                let sy = (p / (nw as int)) * 100 / (percent as int);
                rgb[(sy * (w as int) + sx) * 3 + i % 3]
            },
    )
}

proof fn lemma_source_in_frame(w: nat, h: nat, percent: nat, x: nat, y: nat)
    requires
        1 <= percent <= 100,
        x < scaled_side(w, percent),
        y < scaled_side(h, percent),
    ensures
        x * 100 / percent < w,
        y * 100 / percent < h,
        ((y * 100 / percent) * w + x * 100 / percent) * 3 + 3 <= w * h * 3,
{
    assert(x * 100 < w * percent) by (nonlinear_arith)
        requires
            x < w * percent / 100,
    ;
    assert(x * 100 / percent < w) by (nonlinear_arith)
        requires
            x * 100 < w * percent,
            percent >= 1,
    ;
    assert(y * 100 < h * percent) by (nonlinear_arith)
        requires
            y < h * percent / 100,
    ;
    assert(y * 100 / percent < h) by (nonlinear_arith)
        requires
            y * 100 < h * percent,
            percent >= 1,
    ;
    let sx = x * 100 / percent;
    let sy = y * 100 / percent;
    assert((sy * w + sx) * 3 + 3 <= w * h * 3) by (nonlinear_arith)
        requires
            sx < w,
            sy < h,
    ;
}

/// Scales a `width × height` RGB frame to `percent` percent (1 to 100) by
/// nearest neighbour.
pub fn scale_frame(rgb: &Vec<u8>, width: u32, height: u32, percent: u32) -> (r: Vec<u8>)
    requires
        1 <= percent <= 100,
        rgb@.len() == width * height * 3,
    ensures
        r@ == scaled_rgb(rgb@, width as nat, height as nat, percent as nat),
{
    let rlen: usize = rgb.len();
    assert((width as nat) * (percent as nat) <= 0xffff_ffff * 100) by (nonlinear_arith)
        requires
            width <= 0xffff_ffff,
            percent <= 100,
    ;
    assert((height as nat) * (percent as nat) <= 0xffff_ffff * 100) by (nonlinear_arith)
        requires
            height <= 0xffff_ffff,
            percent <= 100,
    ;
    let nw: u64 = (width as u64) * (percent as u64) / 100;
    let nh: u64 = (height as u64) * (percent as u64) / 100;
    assert(nw <= width && nh <= height) by (nonlinear_arith)
        requires
            nw as int == (width as int) * (percent as int) / 100,
            nh as int == (height as int) * (percent as int) / 100,
            percent <= 100,
    ;
    let ghost spec_out = scaled_rgb(rgb@, width as nat, height as nat, percent as nat);
    assert(0 * nw * 3 == 0) by (nonlinear_arith);
    let mut out: Vec<u8> = Vec::new();
    let mut y: u64 = 0;
    while y < nh
        invariant
            y <= nh,
            nw == scaled_side(width as nat, percent as nat),
            nh == scaled_side(height as nat, percent as nat),
            nw <= width,
            nh <= height,
            1 <= percent <= 100,
            rgb@.len() == width * height * 3,
            rlen == rgb@.len(),
            spec_out == scaled_rgb(rgb@, width as nat, height as nat, percent as nat),
            spec_out.len() == nw * nh * 3,
            out@.len() == y * nw * 3,
            forall|j: int| 0 <= j < out@.len() ==> #[trigger] out@[j] == spec_out[j],
        decreases nh - y,
    {
        let mut x: u64 = 0;
        while x < nw
            invariant
                x <= nw,
                y < nh,
                nw == scaled_side(width as nat, percent as nat),
                nh == scaled_side(height as nat, percent as nat),
                nw <= width,
                nh <= height,
                1 <= percent <= 100,
                rgb@.len() == width * height * 3,
                rlen == rgb@.len(),
                spec_out == scaled_rgb(rgb@, width as nat, height as nat, percent as nat),
                spec_out.len() == nw * nh * 3,
                out@.len() == (y * nw + x) * 3,
                forall|j: int| 0 <= j < out@.len() ==> #[trigger] out@[j] == spec_out[j],
            decreases nw - x,
        {
            proof {
                lemma_source_in_frame(width as nat, height as nat, percent as nat, x as nat, y as nat);
                assert((y * nw + x) * 3 + 3 <= nw * nh * 3) by (nonlinear_arith)
                    requires
                        x < nw,
                        y < nh,
                ;
                assert((y * nw + x) * 3 + 3 == (y * nw + x + 1) * 3);
                assert(width * height * 3 <= 0xffff_ffff_ffff_ffff * 3) by (nonlinear_arith)
                    requires
                        width <= 0xffff_ffff,
                        height <= 0xffff_ffff,
                ;
            }
            let sx: u64 = x * 100 / (percent as u64);
            let sy: u64 = y * 100 / (percent as u64);
            let base: usize = ((sy * (width as u64) + sx) * 3) as usize;
            let ghost start = out@.len();
            let ghost before = out@;
            out.push(rgb[base]);
            out.push(rgb[base + 1]);
            out.push(rgb[base + 2]);
            proof {
                let px = (y * nw + x) as int;
                assert forall|j: int| 0 <= j < out@.len() implies #[trigger] out@[j] == spec_out[j] by {
                    if j >= start {
                        let c = j - start;
                        assert(j == px * 3 + c);
                        lemma_fundamental_div_mod_converse(j, 3, px, c);
                        lemma_fundamental_div_mod_converse(px, nw as int, y as int, x as int);
                    } else {
                        assert(out@[j] == before[j]);
                    }
                }
            }
            x = x + 1;
        }
        assert((y * nw + nw) * 3 == (y + 1) * nw * 3) by (nonlinear_arith);
        y = y + 1;
    }
    assert(nh * nw * 3 == nw * nh * 3) by (nonlinear_arith);
    assert(out@ =~= spec_out);
    out
}

} // verus!
