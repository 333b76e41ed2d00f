//! The per-frame clear-color policy.
//!
//! The clear color is a deterministic function of the cursor position and
//! the window size, so a frame's background can be checked exactly without
//! rendering.  Channels are kept as exact fractions; turning them into
//! floating-point channel values is the host's job.

use vstd::prelude::*;

verus! {

/// An exact non-negative fraction `num / den`.
#[derive(Clone, Copy, Debug, PartialEq, Eq, Structural)]
pub struct Frac {
    pub num: u32,
    pub den: u32,
}

/// The clear color for one frame, each channel an exact fraction.
#[derive(Clone, Copy, Debug, PartialEq, Eq, Structural)]
pub struct ClearColor {
    pub r: Frac,
    pub g: Frac,
    pub b: Frac,
    pub a: Frac,
}

/// The depth attachment's clear value: depth clears to one, the far
/// plane, before each pass.
pub open spec fn spec_depth_clear() -> Frac {
    Frac { num: 1, den: 1 }
}

/// The depth attachment's clear value.
pub fn depth_clear_value() -> (f: Frac)
    ensures
        f == spec_depth_clear(),
{
    Frac { num: 1, den: 1 }
}

/// The clear-color policy as a function: with the cursor at `(x, y)` in a
/// `w` by `h` window, red is `x/w`, green is `y/h`, blue is `(w - x)/w`
/// and alpha is one.
pub open spec fn spec_clear_color(x: u32, y: u32, w: u32, h: u32) -> ClearColor {
    ClearColor {
        r: Frac { num: x, den: w },
        g: Frac { num: y, den: h },
        b: Frac { num: (w - x) as u32, den: w },
        a: Frac { num: 1, den: 1 },
    }
}

/// Clear-color policy: with the cursor at `(x, y)` in a `w` by `h` window,
/// red is `x/w`, green is `y/h`, blue is `(w - x)/w` and alpha is one.
pub fn derive_clear_color(x: u32, y: u32, w: u32, h: u32) -> (c: ClearColor)
    requires
        0 < w,
        0 < h,
        x <= w,
        y <= h,
    ensures
        c == spec_clear_color(x, y, w, h),
        c.r == (Frac { num: x, den: w }),
        c.g == (Frac { num: y, den: h }),
        c.b == (Frac { num: (w - x) as u32, den: w }),
        c.a == (Frac { num: 1, den: 1 }),
{
    ClearColor {
        r: Frac { num: x, den: w },
        g: Frac { num: y, den: h },
        b: Frac { num: w - x, den: w },
        a: Frac { num: 1, den: 1 },
    }
}

} // verus!
