//! The letterboxed viewport of a canvas: the chart keeps its design aspect
//! ratio on screens wider than it, and fills narrower screens.

use vstd::prelude::*;

verus! {

/// An aspect ratio `num : den`.
#[derive(Debug, Clone, Copy, PartialEq, Eq, Structural)]
pub struct Ratio {
    pub num: u32,
    pub den: u32,
}

/// The design ratio of charts that name none: 16:9.
pub fn default_ratio() -> (r: Ratio)
    ensures
        r == (Ratio { num: 16, den: 9 }),
{
    Ratio { num: 16, den: 9 }
}

/// Where the chart is drawn on the canvas, and at which aspect ratio.
#[derive(Debug, Clone, Copy, PartialEq, Eq, Structural)]
pub struct Viewport {
    pub x: u32,
    pub y: u32,
    pub width: u32,
    pub height: u32,
    pub aspect: Ratio,
}

/// `a / b` rounded to the nearest integer, halves up.
pub open spec fn div_round(a: int, b: int) -> int {
    (2 * a + b) / (2 * b)
}

/// The viewport of a `w` by `h` canvas for a chart of ratio `design`. The
/// ratio used is the smaller of the design ratio and the screen's; a screen
/// wider than that gets a centred viewport `round(h * ratio)` wide.
pub open spec fn spec_letterbox(w: u32, h: u32, design: Ratio) -> Viewport {
    if w == 0 || h == 0 || design.num == 0 || design.den == 0 {
        Viewport { x: 0, y: 0, width: w, height: h, aspect: Ratio { num: w, den: h } }
    } else if (w as int) * (design.den as int) > (design.num as int) * (h as int) {
        let vw = div_round(h as int * design.num as int, design.den as int);
        Viewport { x: ((w - vw) / 2) as u32, y: 0, width: vw as u32, height: h, aspect: design }
    } else {
        Viewport { x: 0, y: 0, width: w, height: h, aspect: Ratio { num: w, den: h } }
    }
}

pub fn letterbox(w: u32, h: u32, design: Ratio) -> (r: Viewport)
    ensures
        r == spec_letterbox(w, h, design),
        r.x as int + r.width as int <= w as int,
        r.height == h,
{
    if w == 0 || h == 0 || design.num == 0 || design.den == 0 {
        return Viewport { x: 0, y: 0, width: w, height: h, aspect: Ratio { num: w, den: h } };
    }
    proof {
        assert((w as int) * (design.den as int) <= 0xffff_ffff * 0xffff_ffff) by (nonlinear_arith)
            requires
                w <= 0xffff_ffff,
                design.den <= 0xffff_ffff,
        ;
        assert((design.num as int) * (h as int) <= 0xffff_ffff * 0xffff_ffff) by (nonlinear_arith)
            requires
                h <= 0xffff_ffff,
                design.num <= 0xffff_ffff,
        ;
    }
    let wide = (w as u64) * (design.den as u64) > (design.num as u64) * (h as u64);
    if wide {
        let a: u128 = (h as u128) * (design.num as u128);
        let b: u128 = design.den as u128;
        proof {
            assert(a <= 0xffff_ffff * 0xffff_ffff) by (nonlinear_arith)
                requires
                    a == (h as int) * (design.num as int),
                    h <= 0xffff_ffff,
                    design.num <= 0xffff_ffff,
            ;
        }
        let vw: u128 = (2 * a + b) / (2 * b);
        proof {
            assert(vw * (2 * b) <= 2 * a + b) by (nonlinear_arith)
                requires
                    vw == (2 * a + b) / (2 * b),
                    b > 0,
            ;
            assert((w as int) * b > a);
            assert(vw <= w) by (nonlinear_arith)
                requires
                    vw * (2 * b) <= 2 * a + b,
                    (w as int) * b > a,
                    b > 0,
            ;
        }
        let vw = vw as u32;
        Viewport { x: (w - vw) / 2, y: 0, width: vw, height: h, aspect: design }
    } else {
        Viewport { x: 0, y: 0, width: w, height: h, aspect: Ratio { num: w, den: h } }
    }
}

} // verus!
