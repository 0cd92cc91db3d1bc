//! Canonical rotation state of the displayed image and the fit-preserving
//! rotation transform handed to the renderer.
//!
//! The four states form a cyclic group under `clockwise` / `anticlockwise`.
//! The transform is computed exactly, as signed rational matrix entries, so
//! that its letterboxing behaviour can be stated and proved precisely; a
//! renderer divides `num` by `den` when it needs floating-point entries.

use vstd::prelude::*;

verus! {

/// One of the four axis-aligned rotation states (mirrored EXIF orientations
/// are not modeled).
#[derive(Debug, PartialEq, Eq, Structural, Clone, Copy)]
pub enum Rotation {
    Up,
    Right,
    Down,
    Left,
}

/// A signed rational matrix entry: `num / den`, negated when `neg` holds.
/// Zero is represented as `0 / 1`.
#[derive(Debug, PartialEq, Eq, Structural, Clone, Copy)]
pub struct Coeff {
    pub neg: bool,
    pub num: u64,
    pub den: u64,
}

/// A 2x2 transform matrix `[[xx, xy], [yx, yy]]` applied to the unit quad
/// spanning `[-1,1]^2` in device-normalized coordinates.
#[derive(Debug, PartialEq, Eq, Structural, Clone, Copy)]
pub struct Mat2 {
    pub xx: Coeff,
    pub xy: Coeff,
    pub yx: Coeff,
    pub yy: Coeff,
}

pub open spec fn coeff_zero() -> Coeff {
    Coeff { neg: false, num: 0, den: 1 }
}

pub open spec fn coeff_one() -> Coeff {
    Coeff { neg: false, num: 1, den: 1 }
}

/// `c` with its sign flipped.
pub open spec fn coeff_neg(c: Coeff) -> Coeff {
    Coeff { neg: !c.neg, num: c.num, den: c.den }
}

impl Rotation {
    pub open spec fn clockwise_spec(self) -> Rotation {
        match self {
            Rotation::Up => Rotation::Right,
            Rotation::Right => Rotation::Down,
            Rotation::Down => Rotation::Left,
            Rotation::Left => Rotation::Up,
        }
    }

    pub open spec fn anticlockwise_spec(self) -> Rotation {
        match self {
            Rotation::Up => Rotation::Left,
            Rotation::Right => Rotation::Up,
            Rotation::Down => Rotation::Right,
            Rotation::Left => Rotation::Down,
        }
    }

    /// The next rotation state a quarter turn clockwise.
    pub fn clockwise(&self) -> (r: Rotation)
        ensures
            r == self.clockwise_spec(),
    {
        match self {
            Rotation::Up => Rotation::Right,
            Rotation::Right => Rotation::Down,
            Rotation::Down => Rotation::Left,
            Rotation::Left => Rotation::Up,
        }
    }

    /// The next rotation state a quarter turn anticlockwise.
    pub fn anticlockwise(&self) -> (r: Rotation)
        ensures
            r == self.anticlockwise_spec(),
    {
        match self {
            Rotation::Up => Rotation::Left,
            Rotation::Right => Rotation::Up,
            Rotation::Down => Rotation::Right,
            Rotation::Left => Rotation::Down,
        }
    }

    /// Whether this orientation swaps the device axes (a 90-degree rotation).
    pub open spec fn axes_swap(self) -> bool {
        self == Rotation::Right || self == Rotation::Left
    }

    /// Numerator of the cross-ratio `t` compared against 1 when letterboxing.
    pub open spec fn cross_num(self, d_size: (u32, u32), i_size: (u32, u32)) -> int {
        if self.axes_swap() {
            d_size.0 * i_size.0
        } else {
            d_size.1 * i_size.0
        }
    }

    /// Denominator of the cross-ratio `t`.
    pub open spec fn cross_den(self, d_size: (u32, u32), i_size: (u32, u32)) -> int {
        if self.axes_swap() {
            d_size.1 * i_size.1
        } else {
            d_size.0 * i_size.1
        }
    }

    /// The exact transform: the cross-ratio `t = cross_num / cross_den` and
    /// its reciprocal `s` are clamped so that exactly one of them is scaled
    /// down to fit and the other is held at full scale, then the entries are
    /// assigned per orientation with the sign pattern that encodes the axis
    /// swap and the vertical-flip correction.
    pub open spec fn mat_spec(self, d_size: (u32, u32), i_size: (u32, u32)) -> Mat2 {
        let tn = self.cross_num(d_size, i_size);
        let td = self.cross_den(d_size, i_size);
        let t = if tn < td {
            Coeff { neg: false, num: tn as u64, den: td as u64 }
        } else {
            coeff_one()
        };
        let s = if tn < td {
            coeff_one()
        } else {
            Coeff { neg: false, num: td as u64, den: tn as u64 }
        };
        match self {
            Rotation::Up => Mat2 { xx: t, xy: coeff_zero(), yx: coeff_zero(), yy: coeff_neg(s) },
            Rotation::Right => Mat2 {
                xx: coeff_zero(),
                xy: coeff_neg(t),
                yx: coeff_neg(s),
                yy: coeff_zero(),
            },
            Rotation::Down => Mat2 {
                xx: coeff_neg(t),
                xy: coeff_zero(),
                yx: coeff_zero(),
                yy: s,
            },
            Rotation::Left => Mat2 { xx: coeff_zero(), xy: t, yx: s, yy: coeff_zero() },
        }
    }

    /// The fit-preserving rotation transform from the current device size and
    /// the last loaded image's size, recomputed each frame and never stored.
    /// Dimensions must be nonzero (caller contract; not re-validated here).
    pub fn to_mat(&self, d_size: (u32, u32), i_size: (u32, u32)) -> (m: Mat2)
        requires
            d_size.0 > 0,
            d_size.1 > 0,
            i_size.0 > 0,
            i_size.1 > 0,
        ensures
            m == self.mat_spec(d_size, i_size),
    {
        proof {
            lemma_u32_prod_fits(d_size.0, i_size.0);
            lemma_u32_prod_fits(d_size.0, i_size.1);
            lemma_u32_prod_fits(d_size.1, i_size.0);
            lemma_u32_prod_fits(d_size.1, i_size.1);
        }
        let swap = match self {
            Rotation::Right | Rotation::Left => true,
            Rotation::Up | Rotation::Down => false,
        };
        let tn: u64 = if swap {
            (d_size.0 as u64) * (i_size.0 as u64)
        } else {
            (d_size.1 as u64) * (i_size.0 as u64)
        };
        let td: u64 = if swap {
            (d_size.1 as u64) * (i_size.1 as u64)
        } else {
            (d_size.0 as u64) * (i_size.1 as u64)
        };
        let t: Coeff = if tn < td {
            Coeff { neg: false, num: tn, den: td }
        } else {
            Coeff { neg: false, num: 1, den: 1 }
        };
        let s: Coeff = if tn < td {
            Coeff { neg: false, num: 1, den: 1 }
        } else {
            Coeff { neg: false, num: td, den: tn }
        };
        let zero = Coeff { neg: false, num: 0, den: 1 };
        let neg_t = Coeff { neg: true, num: t.num, den: t.den };
        let neg_s = Coeff { neg: true, num: s.num, den: s.den };
        match self {
            Rotation::Up => Mat2 { xx: t, xy: zero, yx: zero, yy: neg_s },
            Rotation::Right => Mat2 { xx: zero, xy: neg_t, yx: neg_s, yy: zero },
            Rotation::Down => Mat2 { xx: neg_t, xy: zero, yx: zero, yy: s },
            Rotation::Left => Mat2 { xx: zero, xy: t, yx: s, yy: zero },
        }
    }
}

/// The product of two `u32` values fits in a `u64`.
proof fn lemma_u32_prod_fits(a: u32, b: u32)
    ensures
        a * b <= u64::MAX,
{
    assert(a * b <= (u32::MAX as int) * (u32::MAX as int)) by (nonlinear_arith)
        requires
            a <= u32::MAX,
            b <= u32::MAX,
    ;
}

/// Law: `clockwise` applied four times returns to the original orientation.
pub proof fn lemma_clockwise_four_cycle(r: Rotation)
    ensures
        r.clockwise_spec().clockwise_spec().clockwise_spec().clockwise_spec() == r,
{
}

/// Law: `anticlockwise` is the exact inverse of `clockwise`, in both orders,
/// for all four states.
pub proof fn lemma_anticlockwise_inverse(r: Rotation)
    ensures
        r.clockwise_spec().anticlockwise_spec() == r,
        r.anticlockwise_spec().clockwise_spec() == r,
{
}

/// Law: for a square device and a square image no letterboxing is needed —
/// every nonzero entry of the transform has magnitude exactly 1.
pub proof fn lemma_square_no_letterbox(r: Rotation, d_size: (u32, u32), i_size: (u32, u32))
    requires
        d_size.0 == d_size.1,
        i_size.0 == i_size.1,
        d_size.0 > 0,
        i_size.0 > 0,
    ensures
        ({
            let m = r.mat_spec(d_size, i_size);
            &&& (m.xx.num != 0 ==> m.xx.num == m.xx.den)
            &&& (m.xy.num != 0 ==> m.xy.num == m.xy.den)
            &&& (m.yx.num != 0 ==> m.yx.num == m.yx.den)
            &&& (m.yy.num != 0 ==> m.yy.num == m.yy.den)
        }),
{
    assert(r.cross_num(d_size, i_size) == r.cross_den(d_size, i_size));
    lemma_u32_prod_fits(d_size.0, i_size.0);
    lemma_u32_prod_fits(d_size.1, i_size.1);
    lemma_u32_prod_fits(d_size.1, i_size.0);
    lemma_u32_prod_fits(d_size.0, i_size.1);
}

} // verus!
