//! Text animation: how a text value moves from one keyframe's string to the
//! next. Progress is the fraction `elapsed / span` of the segment.
//!
//! Texts that both carry the marker `%P%` are numbers: they interpolate
//! numerically, which the caller does from the two numbers handed back.
//! Otherwise a text grows or shrinks along the longer of the two when one is
//! a prefix of the other (from or to the empty text as well), and holds its
//! start value when neither is.

use vstd::prelude::*;

verus! {

/// Whether `%P%` starts at index `i` of `s`.
pub open spec fn marker_at(s: Seq<char>, i: int) -> bool {
    0 <= i && i + 3 <= s.len() && s[i] == '%' && s[i + 1] == 'P' && s[i + 2] == '%'
}

pub open spec fn has_marker(s: Seq<char>) -> bool {
    exists|i: int| marker_at(s, i)
}

/// `s` with every `%P%` taken out, left to right.
pub open spec fn strip_marker(s: Seq<char>) -> Seq<char>
    decreases s.len(),
{
    if s.len() < 3 {
        s
    } else if marker_at(s, 0) {
        strip_marker(s.skip(3))
    } else {
        seq![s[0]] + strip_marker(s.skip(1))
    }
}

pub open spec fn is_prefix(x: Seq<char>, y: Seq<char>) -> bool {
    x.len() <= y.len() && y.take(x.len() as int) == x
}

/// `a * e / s` rounded to the nearest integer, halves up.
pub open spec fn round_frac(a: int, e: int, s: int) -> int {
    (2 * a * e + s) / (2 * s)
}

/// A character count held within `0..=hi`.
pub open spec fn clamp_count(v: int, hi: int) -> int {
    if v < 0 {
        0
    } else if v > hi {
        hi
    } else {
        v
    }
}

/// The text at progress `e / s` between `x` and `y`, or `None` when the two
/// are numbers between their ends. Progress may leave `0..=1` (some easings
/// overshoot); character counts are then held at the ends of the text.
pub open spec fn spec_text_tween(x: Seq<char>, y: Seq<char>, e: int, s: int) -> Option<Seq<char>> {
    if has_marker(x) && has_marker(y) {
        if e >= s {
            Some(strip_marker(y))
        } else if e <= 0 {
            Some(strip_marker(x))
        } else {
            None
        }
    } else if x.len() == 0 && y.len() == 0 {
        Some(seq![])
    } else if y.len() == 0 {
        let xs = if has_marker(x) {
            strip_marker(x)
        } else {
            x
        };
        Some(xs.take(clamp_count(round_frac(xs.len() as int, s - e, s), xs.len() as int)))
    } else if x.len() == 0 {
        Some(y.take(clamp_count(round_frac(y.len() as int, e, s), y.len() as int)))
    } else if is_prefix(x, y) {
        let d = y.len() - x.len();
        Some(y.take(x.len() + clamp_count((d * e) / s, d)))
    } else if is_prefix(y, x) {
        let d = x.len() - y.len();
        Some(x.take(y.len() + clamp_count(round_frac(d, s - e, s), d)))
    } else if has_marker(x) {
        Some(strip_marker(x))
    } else {
        Some(x)
    }
}

/// The value of a text animation at some progress.
#[derive(Debug, Clone, PartialEq, Eq)]
pub enum TextTween {
    /// This text.
    Text(Vec<char>),
    /// The number that lies `elapsed / span` of the way from `from` to `to`
    /// (the texts with the marker taken out).
    Numeric { from: Vec<char>, to: Vec<char>, elapsed: i32, span: u32 },
}

fn marker_at_exec(v: &Vec<char>, i: usize) -> (r: bool)
    ensures
        r == marker_at(v@, i as int),
{
    i < v.len() && v.len() - i >= 3 && v[i] == '%' && v[i + 1] == 'P' && v[i + 2] == '%'
}

pub fn contains_marker(v: &Vec<char>) -> (r: bool)
    ensures
        r == has_marker(v@),
{
    let mut i: usize = 0;
    while i < v.len()
        invariant
            0 <= i <= v@.len(),
            forall|j: int| 0 <= j < i ==> !marker_at(v@, j),
        decreases v@.len() - i,
    {
        if marker_at_exec(v, i) {
            return true;
        }
        i = i + 1;
    }
    proof {
        assert forall|j: int| !marker_at(v@, j) by {
            if 0 <= j < v@.len() {
            }
        }
    }
    false
}

/// `v` with every `%P%` taken out, left to right.
pub fn remove_marker(v: &Vec<char>) -> (r: Vec<char>)
    ensures
        r@ == strip_marker(v@),
{
    let mut out: Vec<char> = Vec::new();
    let mut i: usize = 0;
    proof {
        assert(v@.skip(0) =~= v@);
        assert(out@ + strip_marker(v@.skip(0)) =~= strip_marker(v@));
    }
    while i < v.len()
        invariant
            0 <= i <= v@.len(),
            out@ + strip_marker(v@.skip(i as int)) == strip_marker(v@),
        decreases v@.len() - i,
    {
        let ghost rest = v@.skip(i as int);
        if v.len() - i < 3 {
            proof {
                assert(strip_marker(rest) == rest);
            }
            while i < v.len()
                invariant
                    0 <= i <= v@.len(),
                    v@.len() - i < 3 || i == v@.len(),
                    out@ + v@.skip(i as int) == strip_marker(v@),
                decreases v@.len() - i,
            {
                proof {
                    assert(v@.skip(i as int) =~= seq![v@[i as int]] + v@.skip(i + 1));
                }
                out.push(v[i]);
                proof {
                    assert(out@ + v@.skip(i + 1) =~= strip_marker(v@));
                }
                i = i + 1;
            }
            proof {
                assert(v@.skip(i as int) =~= Seq::<char>::empty());
                assert(out@ =~= strip_marker(v@));
            }
            return out;
        }
        if marker_at_exec(v, i) {
            proof {
                assert(marker_at(rest, 0));
                assert(rest.skip(3) =~= v@.skip(i + 3));
            }
            i = i + 3;
        } else {
            proof {
                assert(!marker_at(rest, 0));
                assert(rest.skip(1) =~= v@.skip(i + 1));
            }
            out.push(v[i]);
            proof {
                assert(out@ + strip_marker(v@.skip(i + 1)) =~= strip_marker(v@));
            }
            i = i + 1;
        }
    }
    proof {
        assert(v@.skip(i as int) =~= Seq::<char>::empty());
        assert(out@ =~= strip_marker(v@));
    }
    out
}

fn prefix_of(x: &Vec<char>, y: &Vec<char>) -> (r: bool)
    ensures
        r == is_prefix(x@, y@),
{
    if x.len() > y.len() {
        return false;
    }
    let mut i: usize = 0;
    while i < x.len()
        invariant
            x@.len() <= y@.len(),
            0 <= i <= x@.len(),
            forall|j: int| 0 <= j < i ==> x@[j] == y@[j],
        decreases x@.len() - i,
    {
        if x[i] != y[i] {
            proof {
                assert(y@.take(x@.len() as int)[i as int] != x@[i as int]);
            }
            return false;
        }
        i = i + 1;
    }
    proof {
        assert(y@.take(x@.len() as int) =~= x@);
    }
    true
}

fn take_chars(v: &Vec<char>, n: usize) -> (r: Vec<char>)
    requires
        n <= v@.len(),
    ensures
        r@ == v@.take(n as int),
{
    let mut out: Vec<char> = Vec::new();
    let mut i: usize = 0;
    while i < n
        invariant
            n <= v@.len(),
            0 <= i <= n,
            out@ == v@.take(i as int),
        decreases n - i,
    {
        out.push(v[i]);
        proof {
            assert(out@ =~= v@.take(i + 1));
        }
        i = i + 1;
    }
    out
}

/// `a * e / s` rounded, halves up, held within `0..=a`.
fn round_count(a: usize, e: i64, s: u32) -> (r: usize)
    requires
        s > 0,
        -0x4_0000_0000 <= e <= 0x4_0000_0000,
    ensures
        r == clamp_count(round_frac(a as int, e as int, s as int), a as int),
{
    proof {
        assert(-0x4_0000_0000 * 0xffff_ffff_ffff_ffff <= (a as int) * (e as int) <= 0x4_0000_0000
            * 0xffff_ffff_ffff_ffff) by (nonlinear_arith)
            requires
                0 <= a <= 0xffff_ffff_ffff_ffff,
                -0x4_0000_0000 <= e <= 0x4_0000_0000,
        ;
    }
    let ae: i128 = (a as i128) * (e as i128);
    let num: i128 = 2 * ae + s as i128;
    let den: i128 = 2 * (s as i128);
    proof {
        assert(2 * (a as int) * (e as int) == 2 * ae) by (nonlinear_arith)
            requires
                ae == (a as int) * (e as int),
        ;
    }
    if num <= 0 {
        proof {
            assert((num as int) / (den as int) <= 0) by (nonlinear_arith)
                requires
                    num <= 0,
                    den > 0,
            ;
        }
        return 0;
    }
    let q: u128 = (num as u128) / (den as u128);
    if q > a as u128 {
        a
    } else {
        q as usize
    }
}

/// `d * e / s` rounded down, held within `0..=d`.
fn floor_count(d: usize, e: i64, s: u32) -> (r: usize)
    requires
        s > 0,
        -0x4_0000_0000 <= e <= 0x4_0000_0000,
    ensures
        r == clamp_count(((d as int) * (e as int)) / (s as int), d as int),
{
    proof {
        assert(-0x4_0000_0000 * 0xffff_ffff_ffff_ffff <= (d as int) * (e as int) <= 0x4_0000_0000
            * 0xffff_ffff_ffff_ffff) by (nonlinear_arith)
            requires
                0 <= d <= 0xffff_ffff_ffff_ffff,
                -0x4_0000_0000 <= e <= 0x4_0000_0000,
        ;
    }
    let de: i128 = (d as i128) * (e as i128);
    if de < 0 {
        proof {
            assert((de as int) / (s as int) < 0) by (nonlinear_arith)
                requires
                    de < 0,
                    s > 0,
            ;
        }
        return 0;
    }
    let q: u128 = (de as u128) / (s as u128);
    if q > d as u128 {
        d
    } else {
        q as usize
    }
}

/// The text of a text animation at progress `elapsed / span`; the progress
/// may leave `0..=1`.
pub fn tween_text(x: &Vec<char>, y: &Vec<char>, elapsed: i32, span: u32) -> (r: TextTween)
    requires
        span > 0,
    ensures
        match spec_text_tween(x@, y@, elapsed as int, span as int) {
            Some(text) => r matches TextTween::Text(v) && v@ == text,
            None => r matches TextTween::Numeric { from, to, elapsed: e, span: s } && from@ == strip_marker(x@)
                && to@ == strip_marker(y@) && e == elapsed && s == span,
        },
{
    let xm = contains_marker(x);
    let ym = contains_marker(y);
    if xm && ym {
        if elapsed as i64 >= span as i64 {
            return TextTween::Text(remove_marker(y));
        } else if elapsed <= 0 {
            return TextTween::Text(remove_marker(x));
        } else {
            return TextTween::Numeric { from: remove_marker(x), to: remove_marker(y), elapsed, span };
        }
    }
    let back: i64 = span as i64 - elapsed as i64;
    if x.len() == 0 && y.len() == 0 {
        let empty: Vec<char> = Vec::new();
        proof {
            assert(empty@ =~= seq![]);
        }
        return TextTween::Text(empty);
    }
    if y.len() == 0 {
        let xs = if xm {
            remove_marker(x)
        } else {
            take_chars(x, x.len())
        };
        proof {
            assert(x@.take(x@.len() as int) =~= x@);
        }
        let n = round_count(xs.len(), back, span);
        return TextTween::Text(take_chars(&xs, n));
    }
    if x.len() == 0 {
        let n = round_count(y.len(), elapsed as i64, span);
        return TextTween::Text(take_chars(y, n));
    }
    if prefix_of(x, y) {
        let grow = floor_count(y.len() - x.len(), elapsed as i64, span);
        return TextTween::Text(take_chars(y, x.len() + grow));
    }
    if prefix_of(y, x) {
        let n = round_count(x.len() - y.len(), back, span);
        return TextTween::Text(take_chars(x, y.len() + n));
    }
    if xm {
        TextTween::Text(remove_marker(x))
    } else {
        proof {
            assert(x@.take(x@.len() as int) =~= x@);
        }
        TextTween::Text(take_chars(x, x.len()))
    }
}

} // verus!
