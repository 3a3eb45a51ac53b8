//! Straight-alpha compositing of RGBA pixels over an opaque white background.
use vstd::prelude::*;

verus! {

/// The blend of one channel value `c` with coverage `a` over white, rounded to
/// the nearest integer: `(c * a + 255 * (255 - a) + 127) / 255`.
pub open spec fn blend(c: int, a: int) -> int {
    (c * a + 255 * (255 - a) + 127) / 255
}

/// One output channel: opaque pixels keep their value, fully transparent ones
/// become white, and the others are blended.
pub open spec fn composite_channel(c: u8, a: u8) -> int {
    if a == 255 {
        c as int
    } else if a == 0 {
        255
    } else {
        blend(c as int, a as int)
    }
}

/// Channel `x` of the RGB output for the RGBA input `rgba`: channel `x % 3` of
/// pixel `x / 3`.
pub open spec fn composited_at(rgba: Seq<u8>, x: int) -> int {
    composite_channel(rgba[4 * (x / 3) + x % 3], rgba[4 * (x / 3) + 3])
}

/// The RGB bytes that compositing `rgba` produces: three per complete RGBA
/// pixel; a trailing incomplete pixel is ignored.
pub open spec fn composited(rgba: Seq<u8>) -> Seq<u8> {
    Seq::new(3 * (rgba.len() / 4), |x: int| composited_at(rgba, x) as u8)
}

proof fn lemma_blend_bounds(c: int, a: int)
    requires
        0 <= c <= 255,
        0 <= a <= 255,
    ensures
        c <= blend(c, a) <= 255,
        c * a + 255 * (255 - a) + 127 <= 65152,
{
    assert(c * a <= 255 * a) by (nonlinear_arith)
        requires
            c <= 255,
            0 <= a,
    ;
    let n = c * a + 255 * (255 - a) + 127;
    assert(n >= 255 * c) by (nonlinear_arith)
        requires
            n == c * a + 255 * (255 - a) + 127,
            0 <= c <= 255,
            0 <= a <= 255,
    {
        assert(255 * (255 - a) >= c * (255 - a)) by (nonlinear_arith)
            requires
                c <= 255,
                a <= 255,
        ;
    }
    assert(n / 255 >= c) by (nonlinear_arith)
        requires
            n >= 255 * c,
    ;
    assert(n / 255 <= 255) by (nonlinear_arith)
        requires
            n <= 65152,
    ;
}

/// The shortcuts for opaque and fully transparent pixels agree with the
/// blending formula: every output channel is `blend(c, a)`.
pub proof fn lemma_composite_is_blend(c: u8, a: u8)
    ensures
        composite_channel(c, a) == blend(c as int, a as int),
{
    if a == 255 {
        assert(blend(c as int, 255) == c as int) by (nonlinear_arith)
            requires
                0 <= c <= 255,
        ;
    } else if a == 0 {
        assert(blend(c as int, 0) == 255) by (nonlinear_arith)
            requires
                0 <= c <= 255,
        ;
    }
}

/// Compositing over white never darkens a channel, and never leaves the byte
/// range.
pub proof fn lemma_composite_never_darkens(c: u8, a: u8)
    ensures
        c <= composite_channel(c, a) <= 255,
{
    lemma_blend_bounds(c as int, a as int);
}

/// Compositing works pixel by pixel and channel by channel: the output has
/// three bytes per complete input pixel, and channel `k` of pixel `i` comes
/// from channel `k` of input pixel `i` and that pixel's alpha `a` alone: it
/// is kept when `a == 255`, white when `a == 0`, and otherwise
/// `(c * a + 255 * (255 - a) + 127) / 255`.
pub proof fn lemma_composite_channels(rgba: Seq<u8>, i: int, k: int)
    requires
        0 <= i < rgba.len() / 4,
        0 <= k < 3,
    ensures
        composited(rgba).len() == 3 * (rgba.len() / 4),
        ({
            let c = rgba[4 * i + k] as int;
            let a = rgba[4 * i + 3] as int;
            composited(rgba)[3 * i + k] as int == if a == 255 {
                c
            } else if a == 0 {
                255
            } else {
                (c * a + 255 * (255 - a) + 127) / 255
            }
        }),
{
    vstd::arithmetic::div_mod::lemma_fundamental_div_mod_converse(3 * i + k, 3, i, k);
    assert(4 * i + 3 < rgba.len()) by (nonlinear_arith)
        requires
            0 <= i < rgba.len() / 4,
    ;
    lemma_blend_bounds(rgba[4 * i + k] as int, rgba[4 * i + 3] as int);
    assert(3 * i + k < 3 * (rgba.len() / 4)) by (nonlinear_arith)
        requires
            0 <= i < rgba.len() / 4,
            0 <= k < 3,
    ;
}

proof fn lemma_pixel_index(i: int, n: int, len: int)
    requires
        0 <= i < n,
        n == len / 4,
        len >= 0,
    ensures
        4 * i + 3 < len,
{
    assert(4 * i + 4 <= 4 * n) by (nonlinear_arith)
        requires
            i < n,
    ;
}

/// Composites straight-alpha RGBA pixels over white and returns RGB pixels.
///
/// `width` and `height` describe the image; the output has one RGB triple per
/// complete RGBA quadruple of `rgba`.
pub fn composite_rgba_onto_white(rgba: &[u8], width: usize, height: usize) -> (rgb: Vec<u8>)
    ensures
        rgb@ == composited(rgba@),
{
    let n = rgba.len() / 4;
    let mut rgb: Vec<u8> = Vec::with_capacity(3 * n);
    let mut i: usize = 0;
    while i < n
        invariant
            n == rgba@.len() / 4,
            i <= n,
            rgb@ =~= Seq::new(3 * i as nat, |x: int| composited_at(rgba@, x) as u8),
        decreases n - i,
    {
        proof {
            lemma_pixel_index(i as int, n as int, rgba@.len() as int);
            assert(rgba@.len() == rgba.len());
        }
        let base = 4 * i;
        let r = rgba[base] as u32;
        let g = rgba[base + 1] as u32;
        let b = rgba[base + 2] as u32;
        let a = rgba[base + 3] as u32;
        if a == 255 {
            rgb.push(r as u8);
            rgb.push(g as u8);
            rgb.push(b as u8);
        } else if a == 0 {
            rgb.push(255);
            rgb.push(255);
            rgb.push(255);
        } else {
            proof {
                lemma_blend_bounds(r as int, a as int);
                lemma_blend_bounds(g as int, a as int);
                lemma_blend_bounds(b as int, a as int);
            }
            assert(r * a <= 65025 && g * a <= 65025 && b * a <= 65025) by (nonlinear_arith)
                requires
                    r <= 255,
                    g <= 255,
                    b <= 255,
                    a <= 255,
            ;
            let out_r = ((r * a + 255 * (255 - a) + 127) / 255) as u8;
            let out_g = ((g * a + 255 * (255 - a) + 127) / 255) as u8;
            let out_b = ((b * a + 255 * (255 - a) + 127) / 255) as u8;
            rgb.push(out_r);
            rgb.push(out_g);
            rgb.push(out_b);
        }
        proof {
            let ii = i as int;
            assert forall|x: int| 3 * ii <= x < 3 * ii + 3 implies x / 3 == ii && #[trigger] (x
                % 3) == x - 3 * ii by {}
        }
        i = i + 1;
    }
    rgb
}

} // verus!
