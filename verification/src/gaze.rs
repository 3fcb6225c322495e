//! Gaze coordinates and the stage-to-stage remap. A gaze point arrives at a
//! node in coordinates relative to the node's output resolution and must be
//! expressed relative to its input resolution before it is passed upstream.
//! When the two aspect ratios differ, the remap applies the letterbox (or
//! pillarbox) correction: per axis, `ratio = output / input`,
//! `scale = ratio / min(ratio.x, ratio.y)`, and on the wider-ratio axis an
//! offset of half the ratio difference; `out = scale * in - offset`.
//!
//! Coordinates are exact fixed-point numbers in units of 1/65536. The remap
//! rounds the mathematically exact result down to the nearest representable
//! value; with equal input and output sizes it is exactly the identity.

use vstd::prelude::*;
use vstd::arithmetic::div_mod::lemma_div_is_ordered;
use vstd::arithmetic::div_mod::lemma_div_multiples_vanish;
use vstd::arithmetic::div_mod::lemma_fundamental_div_mod;
use vstd::arithmetic::div_mod::lemma_fundamental_div_mod_converse;
use vstd::arithmetic::div_mod::lemma_mod_bound;

verus! {

/// Largest width or height of any negotiated resolution.
pub const MAX_DIMENSION: u32 = 8192;

/// Magnitude bound on a gaze coordinate accepted by the remap
/// (65536 display heights, far outside any visible area).
pub const GAZE_BOUND: i64 = 4294967296;

/// Magnitude bound on a coordinate produced by one remap step.
pub const GAZE_RESULT_BOUND: i64 = 0x800000000000000;

/// A resolution in pixels.
#[derive(Clone, Copy, Debug, PartialEq, Eq, Structural)]
pub struct Size {
    pub width: u32,
    pub height: u32,
}

/// A resolution the pipeline can negotiate: neither axis zero or beyond
/// `MAX_DIMENSION`.
pub open spec fn valid_size(s: Size) -> bool {
    &&& 1 <= s.width <= MAX_DIMENSION
    &&& 1 <= s.height <= MAX_DIMENSION
}

/// A tracked point of regard, in 1/65536 units of the current stage's
/// output resolution.
#[derive(Clone, Copy, Debug, PartialEq, Eq, Structural)]
pub struct Gaze {
    pub x: i64,
    pub y: i64,
}

/// A gaze point the remap accepts without overflow.
pub open spec fn gaze_in_bounds(g: Gaze) -> bool {
    &&& -GAZE_BOUND <= g.x <= GAZE_BOUND
    &&& -GAZE_BOUND <= g.y <= GAZE_BOUND
}

/// Exact horizontal remap: when the output-to-input ratio is at least as
/// wide as it is tall, `x` is scaled by `ratio.x / ratio.y` and shifted by
/// half the ratio difference, rounded down to 1/65536 units; otherwise the
/// horizontal axis is the reference axis and `x` is unchanged.
pub open spec fn remap_x(x: int, iw: int, ih: int, ow: int, oh: int) -> int {
    if ow * ih >= oh * iw {
        (2 * x * (ow * ih) * ih - 65536 * ((ow * ih) - (oh * iw)) * oh) / (2 * (oh * iw) * ih)
    } else {
        x
    }
}

/// Exact vertical remap, symmetric to `remap_x`.
pub open spec fn remap_y(y: int, iw: int, ih: int, ow: int, oh: int) -> int {
    if oh * iw >= ow * ih {
        (2 * y * (oh * iw) * iw - 65536 * ((oh * iw) - (ow * ih)) * ow) / (2 * (ow * ih) * iw)
    } else {
        y
    }
}

/// Product of two values bounded by nonnegative intervals stays within the
/// interval product, and above the lower-bound product for a nonnegative
/// first factor.
proof fn lemma_mul_interval(a: int, b: int, au: int, bl: int, bu: int) by (nonlinear_arith)
    requires
        -au <= a <= au,
        0 <= au,
        0 <= bl <= b <= bu,
    ensures
        -(au * bu) <= a * b <= au * bu,
        a >= 0 ==> a * b >= a * bl,
{
}

/// With equal output-to-input aspect ratios the vertical remap divides out
/// exactly: the scale is one and the offset zero.
proof fn lemma_remap_y_equal_aspect(y: int, iw: int, ih: int, ow: int, oh: int)
    requires
        1 <= iw,
        1 <= ih,
        1 <= ow,
        1 <= oh,
        oh * iw == ow * ih,
    ensures
        remap_y(y, iw, ih, ow, oh) == y,
{
    let my = 2 * (ow * ih) * iw;
    assert(2 * y * (oh * iw) * iw - 65536 * ((oh * iw) - (ow * ih)) * ow == my * y)
        by (nonlinear_arith)
        requires
            my == 2 * (ow * ih) * iw,
            oh * iw == ow * ih,
    ;
    assert(my > 0) by (nonlinear_arith)
        requires
            my == 2 * (ow * ih) * iw,
            1 <= iw,
            1 <= ih,
            1 <= ow,
    ;
    lemma_div_multiples_vanish(y, my);
}

/// Floor division of a bounded `i128` by a positive bounded divisor,
/// matching mathematical (Euclidean) integer division.
fn div_floor(n: i128, m: i128) -> (q: i128)
    requires
        0 < m <= 0x10000000000000000,
        -0x1000000000000000000000000 <= n <= 0x1000000000000000000000000,
    ensures
        q == n as int / m as int,
{
    if n >= 0 {
        let qu: u128 = (n as u128) / (m as u128);
        proof {
            lemma_div_is_ordered(n as int, 0x1000000000000000000000000, m as int);
        }
        qu as i128
    } else {
        let p: u128 = (-n) as u128;
        let md: u128 = m as u128;
        let c: u128 = (p + (md - 1)) / md;
        proof {
            let pi = p as int;
            let mi = m as int;
            lemma_fundamental_div_mod(pi + mi - 1, mi);
            lemma_mod_bound(pi + mi - 1, mi);
            let qq = (pi + mi - 1) / mi;
            let rr = (pi + mi - 1) % mi;
            assert(pi + mi - 1 == mi * qq + rr);
            assert(-pi == qq * (-1) * mi + ((mi - 1) - rr)) by (nonlinear_arith)
                requires
                    pi + mi - 1 == mi * qq + rr,
            ;
            lemma_fundamental_div_mod_converse(-pi, mi, -qq, mi - 1 - rr);
            // bound qq so the negation fits in i128
            assert(mi * qq <= pi + mi - 1);
            assert(qq <= pi) by (nonlinear_arith)
                requires
                    mi * qq <= pi + mi - 1,
                    1 <= mi,
                    1 <= pi,
            ;
            assert(qq >= 0) by (nonlinear_arith)
                requires
                    mi * qq + rr == pi + mi - 1,
                    rr < mi,
                    1 <= mi,
                    1 <= pi,
            ;
        }
        -(c as i128)
    }
}

/// Remaps a gaze point from this stage's output coordinates to its input
/// coordinates, exactly as `remap_x` / `remap_y` describe.
pub fn remap_gaze(gaze: &Gaze, input: &Size, output: &Size) -> (r: Gaze)
    requires
        valid_size(*input),
        valid_size(*output),
        gaze_in_bounds(*gaze),
    ensures
        r.x == remap_x(
            gaze.x as int,
            input.width as int,
            input.height as int,
            output.width as int,
            output.height as int,
        ),
        r.y == remap_y(
            gaze.y as int,
            input.width as int,
            input.height as int,
            output.width as int,
            output.height as int,
        ),
        -GAZE_RESULT_BOUND <= r.x <= GAZE_RESULT_BOUND,
        -GAZE_RESULT_BOUND <= r.y <= GAZE_RESULT_BOUND,
{
    let iw: i128 = input.width as i128;
    let ih: i128 = input.height as i128;
    let ow: i128 = output.width as i128;
    let oh: i128 = output.height as i128;
    proof {
        lemma_mul_interval(ow as int, ih as int, 8192, 1, 8192);
        lemma_mul_interval(oh as int, iw as int, 8192, 1, 8192);
    }
    let a: i128 = ow * ih;
    let b: i128 = oh * iw;
    if a >= b {
        let x: i128 = gaze.x as i128;
        let t1: i128 = 2 * x;
        proof {
            lemma_mul_interval(t1 as int, a as int, 0x200000000, 1, 0x4000000);
        }
        let t2: i128 = t1 * a;
        proof {
            lemma_mul_interval(t2 as int, ih as int, 0x800000000000000, 1, 0x2000);
        }
        let t3: i128 = t2 * ih;
        let e: i128 = 65536 * (a - b);
        proof {
            lemma_mul_interval(e as int, oh as int, 0x40000000000, 1, 0x2000);
            lemma_mul_interval(2 * b as int, ih as int, 0x8000000, 1, 0x2000);
        }
        let f: i128 = e * oh;
        let n: i128 = t3 - f;
        let m: i128 = 2 * b * ih;
        proof {
            let c: int = GAZE_RESULT_BOUND as int;
            assert(-(m as int * c) <= n as int <= m as int * c) by (nonlinear_arith)
                requires
                    n == t3 - f,
                    t3 == t1 * a * ih,
                    t1 == 2 * x,
                    -0x100000000 <= x <= 0x100000000,
                    f == e * oh,
                    e == 65536 * (a - b),
                    1 <= b <= a <= 0x4000000,
                    1 <= ih <= 0x2000,
                    1 <= oh <= 0x2000,
                    m == 2 * b * ih,
                    c == 0x800000000000000,
            ;
            lemma_div_is_ordered(n as int, m as int * c, m as int);
            lemma_div_multiples_vanish(c, m as int);
            lemma_div_is_ordered(m as int * -c, n as int, m as int);
            lemma_div_multiples_vanish(-c, m as int);
        }
        let q: i128 = div_floor(n, m);
        proof {
            if a == b {
                lemma_remap_y_equal_aspect(
                    gaze.y as int,
                    iw as int,
                    ih as int,
                    ow as int,
                    oh as int,
                );
            }
        }
        Gaze { x: q as i64, y: gaze.y }
    } else {
        let y: i128 = gaze.y as i128;
        let t1: i128 = 2 * y;
        proof {
            lemma_mul_interval(t1 as int, b as int, 0x200000000, 1, 0x4000000);
        }
        let t2: i128 = t1 * b;
        proof {
            lemma_mul_interval(t2 as int, iw as int, 0x800000000000000, 1, 0x2000);
        }
        let t3: i128 = t2 * iw;
        let e: i128 = 65536 * (b - a);
        proof {
            lemma_mul_interval(e as int, ow as int, 0x40000000000, 1, 0x2000);
            lemma_mul_interval(2 * a as int, iw as int, 0x8000000, 1, 0x2000);
        }
        let f: i128 = e * ow;
        let n: i128 = t3 - f;
        let m: i128 = 2 * a * iw;
        proof {
            let c: int = GAZE_RESULT_BOUND as int;
            assert(-(m as int * c) <= n as int <= m as int * c) by (nonlinear_arith)
                requires
                    n == t3 - f,
                    t3 == t1 * b * iw,
                    t1 == 2 * y,
                    -0x100000000 <= y <= 0x100000000,
                    f == e * ow,
                    e == 65536 * (b - a),
                    1 <= a <= b <= 0x4000000,
                    1 <= iw <= 0x2000,
                    1 <= ow <= 0x2000,
                    m == 2 * a * iw,
                    c == 0x800000000000000,
            ;
            lemma_div_is_ordered(n as int, m as int * c, m as int);
            lemma_div_multiples_vanish(c, m as int);
            lemma_div_is_ordered(m as int * -c, n as int, m as int);
            lemma_div_multiples_vanish(-c, m as int);
        }
        let q: i128 = div_floor(n, m);
        Gaze { x: gaze.x, y: q as i64 }
    }
}

/// With equal input and output sizes the remap is the identity on both
/// axes: the scale is one and the offset zero on each.
/// With equal output-to-input aspect ratios the horizontal remap divides
/// out exactly, symmetric to `lemma_remap_y_equal_aspect`.
proof fn lemma_remap_x_equal_aspect(x: int, iw: int, ih: int, ow: int, oh: int)
    requires
        1 <= iw,
        1 <= ih,
        1 <= oh,
        ow * ih == oh * iw,
    ensures
        remap_x(x, iw, ih, ow, oh) == x,
{
    let mx = 2 * (oh * iw) * ih;
    assert(2 * x * (ow * ih) * ih - 65536 * ((ow * ih) - (oh * iw)) * oh == mx * x)
        by (nonlinear_arith)
        requires
            mx == 2 * (oh * iw) * ih,
            ow * ih == oh * iw,
    ;
    assert(mx > 0) by (nonlinear_arith)
        requires
            mx == 2 * (oh * iw) * ih,
            1 <= iw,
            1 <= ih,
            1 <= oh,
    ;
    lemma_div_multiples_vanish(x, mx);
}

/// When the output and input aspect ratios agree — in particular whenever
/// the two sizes are equal — the remap is the identity on both axes: the
/// scale is one and the offset zero on each, so the remap is reversible.
pub proof fn lemma_remap_equal_aspect_identity(x: int, y: int, iw: int, ih: int, ow: int, oh: int)
    requires
        1 <= iw,
        1 <= ih,
        1 <= ow,
        1 <= oh,
        ow * ih == oh * iw,
    ensures
        remap_x(x, iw, ih, ow, oh) == x,
        remap_y(y, iw, ih, ow, oh) == y,
{
    lemma_remap_x_equal_aspect(x, iw, ih, ow, oh);
    lemma_remap_y_equal_aspect(y, iw, ih, ow, oh);
}

/// With equal input and output sizes the remap is the identity on both
/// axes.
pub proof fn lemma_remap_identity(x: int, y: int, iw: int, ih: int)
    requires
        1 <= iw,
        1 <= ih,
    ensures
        remap_x(x, iw, ih, iw, ih) == x,
        remap_y(y, iw, ih, iw, ih) == y,
{
    assert(iw * ih == ih * iw) by (nonlinear_arith);
    lemma_remap_equal_aspect_identity(x, y, iw, ih, iw, ih);
}

} // verus!
