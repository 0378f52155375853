//! Easing identifiers and the table that maps the RPE easing numbers onto them.

use vstd::prelude::*;

verus! {

/// Index into the table of predefined easing functions.
pub type TweenId = u8;

/// Number of predefined easing functions.
pub const TWEEN_COUNT: u8 = 33;

/// Family of an easing curve.
#[derive(Debug, Clone, Copy, PartialEq, Eq, Structural)]
pub enum TweenMajor {
    Plain,
    Sine,
    Quad,
    Cubic,
    Quart,
    Quint,
    Expo,
    Circ,
    Back,
    Elastic,
    Bounce,
}

/// Which end of the curve is eased.
#[derive(Debug, Clone, Copy, PartialEq, Eq, Structural)]
pub enum TweenMinor {
    In,
    Out,
    InOut,
}

pub open spec fn major_index(m: TweenMajor) -> nat {
    match m {
        TweenMajor::Plain => 0,
        TweenMajor::Sine => 1,
        TweenMajor::Quad => 2,
        TweenMajor::Cubic => 3,
        TweenMajor::Quart => 4,
        TweenMajor::Quint => 5,
        TweenMajor::Expo => 6,
        TweenMajor::Circ => 7,
        TweenMajor::Back => 8,
        TweenMajor::Elastic => 9,
        TweenMajor::Bounce => 10,
    }
}

pub open spec fn minor_index(m: TweenMinor) -> nat {
    match m {
        TweenMinor::In => 0,
        TweenMinor::Out => 1,
        TweenMinor::InOut => 2,
    }
}

/// The easing id of a family and variant: three ids per family.
pub fn easing_from(major: TweenMajor, minor: TweenMinor) -> (r: TweenId)
    ensures
        r == 3 * major_index(major) + minor_index(minor),
        r < TWEEN_COUNT,
{
    let a: u8 = match major {
        TweenMajor::Plain => 0,
        TweenMajor::Sine => 1,
        TweenMajor::Quad => 2,
        TweenMajor::Cubic => 3,
        TweenMajor::Quart => 4,
        TweenMajor::Quint => 5,
        TweenMajor::Expo => 6,
        TweenMajor::Circ => 7,
        TweenMajor::Back => 8,
        TweenMajor::Elastic => 9,
        TweenMajor::Bounce => 10,
    };
    let b: u8 = match minor {
        TweenMinor::In => 0,
        TweenMinor::Out => 1,
        TweenMinor::InOut => 2,
    };
    a * 3 + b
}

/// One of the predefined easing functions, by id.
#[derive(Debug, Clone, Copy, PartialEq, Eq, Structural)]
pub struct StaticTween(pub TweenId);

impl StaticTween {
    pub open spec fn wf(self) -> bool {
        self.0 < TWEEN_COUNT
    }
}

/// RPE easing numbers 0..29 mapped onto easing ids.
pub const RPE_TWEEN_MAP: [TweenId; 30] = [
    2, 2, 4, 3, 7, 6, 5, 8, 10, 9, 13, 12, 11, 14, 16, 15, 19, 18, 22, 21, 25, 24, 23, 26, 28,
    27, 31, 30, 32, 29,
];

/// The table of `RPE_TWEEN_MAP`, as the family and variant of each entry.
pub open spec fn rpe_tween_spec(i: int) -> nat {
    let (ma, mi) = if i == 0 || i == 1 {
        (TweenMajor::Plain, TweenMinor::InOut)
    } else if i == 2 {
        (TweenMajor::Sine, TweenMinor::Out)
    } else if i == 3 {
        (TweenMajor::Sine, TweenMinor::In)
    } else if i == 4 {
        (TweenMajor::Quad, TweenMinor::Out)
    } else if i == 5 {
        (TweenMajor::Quad, TweenMinor::In)
    } else if i == 6 {
        (TweenMajor::Sine, TweenMinor::InOut)
    } else if i == 7 {
        (TweenMajor::Quad, TweenMinor::InOut)
    } else if i == 8 {
        (TweenMajor::Cubic, TweenMinor::Out)
    } else if i == 9 {
        (TweenMajor::Cubic, TweenMinor::In)
    } else if i == 10 {
        (TweenMajor::Quart, TweenMinor::Out)
    } else if i == 11 {
        (TweenMajor::Quart, TweenMinor::In)
    } else if i == 12 {
        (TweenMajor::Cubic, TweenMinor::InOut)
    } else if i == 13 {
        (TweenMajor::Quart, TweenMinor::InOut)
    } else if i == 14 {
        (TweenMajor::Quint, TweenMinor::Out)
    } else if i == 15 {
        (TweenMajor::Quint, TweenMinor::In)
    } else if i == 16 {
        (TweenMajor::Expo, TweenMinor::Out)
    } else if i == 17 {
        (TweenMajor::Expo, TweenMinor::In)
    } else if i == 18 {
        (TweenMajor::Circ, TweenMinor::Out)
    } else if i == 19 {
        (TweenMajor::Circ, TweenMinor::In)
    } else if i == 20 {
        (TweenMajor::Back, TweenMinor::Out)
    } else if i == 21 {
        (TweenMajor::Back, TweenMinor::In)
    } else if i == 22 {
        (TweenMajor::Circ, TweenMinor::InOut)
    } else if i == 23 {
        (TweenMajor::Back, TweenMinor::InOut)
    } else if i == 24 {
        (TweenMajor::Elastic, TweenMinor::Out)
    } else if i == 25 {
        (TweenMajor::Elastic, TweenMinor::In)
    } else if i == 26 {
        (TweenMajor::Bounce, TweenMinor::Out)
    } else if i == 27 {
        (TweenMajor::Bounce, TweenMinor::In)
    } else if i == 28 {
        (TweenMajor::Bounce, TweenMinor::InOut)
    } else {
        (TweenMajor::Elastic, TweenMinor::InOut)
    };
    if i == 0 || i == 1 {
        2
    } else {
        3 * major_index(ma) + minor_index(mi)
    }
}

/// The easing id for an RPE easing number: numbers below 1 count as 1
/// (linear), numbers past the table fall back to linear.
pub fn get_tween(easing_type: i32) -> (r: TweenId)
    ensures
        r == (if easing_type <= 1 || easing_type >= 30 {
            2
        } else {
            rpe_tween_spec(easing_type as int)
        }),
        r < TWEEN_COUNT,
{
    let table = RPE_TWEEN_MAP;
    let i: i32 = if easing_type < 1 { 1 } else { easing_type };
    if i >= 30 {
        return table[0];
    }
    let r = table[i as usize];
    r
}

} // verus!
