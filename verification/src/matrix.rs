//! Fixed-point homogeneous matrices.
//!
//! The renderer's transform and projection math runs on 4x4 column-major
//! matrices.  Entries are fixed-point numbers: an `i64` entry holds the
//! real value multiplied by `FX_ONE`.  Products are truncated toward
//! zero, matching hardware-style fixed-point multiplies.
//!
//! Entries of matrices that are fed back into further products must stay
//! within `MAT_MAX`; that bound is what makes every dot product here
//! provably free of overflow.

use vstd::prelude::*;
use vstd::arithmetic::div_mod::lemma_div_basics;
use vstd::arithmetic::div_mod::lemma_div_is_ordered;
use vstd::arithmetic::div_mod::lemma_div_is_ordered_by_denominator;

verus! {

/// The fixed-point representation of 1.0.
pub const FX_ONE: i64 = 65536;

/// Bound on the magnitude of a matrix entry that may enter a product.
pub const MAT_MAX: i64 = 0x40_0000_0000;

/// Bound on the magnitude of a four-term dot product of `MAT_MAX`-bounded
/// entries.
pub const DOT_BOUND: i128 = 4 * 0x40_0000_0000 * 0x40_0000_0000;

/// Division truncated toward zero, for a positive divisor.
pub open spec fn trunc_div(a: int, b: int) -> int {
    if a >= 0 {
        a / b
    } else {
        -((-a) / b)
    }
}

/// The fixed-point value of the product or sum `a`, scaled back down by
/// one factor of `FX_ONE`, truncating toward zero.
pub open spec fn fx_scale_down(a: int) -> int {
    trunc_div(a, FX_ONE as int)
}

/// `x * y` stays within `m * n` when the factors are bounded by `m` and `n`.
pub proof fn lemma_mul_bound(x: int, y: int, m: int, n: int)
    requires
        -m <= x <= m,
        -n <= y <= n,
        0 <= m,
        0 <= n,
    ensures
        -(m * n) <= x * y <= m * n,
{
    assert(-(m * n) <= x * y <= m * n) by (nonlinear_arith)
        requires
            -m <= x <= m,
            -n <= y <= n,
            0 <= m,
            0 <= n,
    ;
}

/// Division truncated toward zero, as executable code.
///
/// The quotient never grows past the dividend, which is what callers use
/// to bound their results.
pub(crate) fn div_trunc(a: i128, b: i128) -> (q: i128)
    requires
        b > 0,
        a > i128::MIN,
    ensures
        q == trunc_div(a as int, b as int),
        a >= 0 ==> 0 <= q <= a,
        a < 0 ==> a <= q <= 0,
{
    if a >= 0 {
        let n: u128 = a as u128;
        let d: u128 = b as u128;
        let q: u128 = n / d;
        proof {
            lemma_div_is_ordered_by_denominator(a as int, 1, b as int);
            lemma_div_basics(a as int);
        }
        q as i128
    } else {
        let n: u128 = (-a) as u128;
        let d: u128 = b as u128;
        let q: u128 = n / d;
        proof {
            lemma_div_is_ordered_by_denominator((-a) as int, 1, b as int);
            lemma_div_basics((-a) as int);
        }
        -(q as i128)
    }
}

/// A column vector of four fixed-point components.
#[derive(Debug, Clone, Copy, PartialEq, Eq, Structural)]
pub struct Vec4 {
    /// First component.
    pub x: i64,
    /// Second component.
    pub y: i64,
    /// Third component.
    pub z: i64,
    /// Fourth component.
    pub w: i64,
}

/// A 4x4 column-major fixed-point matrix.  Field `cCrR` is the entry in
/// column `C`, row `R`.
#[derive(Debug, Clone, Copy, PartialEq, Eq, Structural)]
#[allow(missing_docs)]
pub struct Mat4 {
    pub c0r0: i64,
    pub c0r1: i64,
    pub c0r2: i64,
    pub c0r3: i64,
    pub c1r0: i64,
    pub c1r1: i64,
    pub c1r2: i64,
    pub c1r3: i64,
    pub c2r0: i64,
    pub c2r1: i64,
    pub c2r2: i64,
    pub c2r3: i64,
    pub c3r0: i64,
    pub c3r1: i64,
    pub c3r2: i64,
    pub c3r3: i64,
}

impl View for Mat4 {
    type V = Seq<int>;

    /// Column-major entries: index `c * 4 + r` holds column `c`, row `r`.
    open spec fn view(&self) -> Seq<int> {
        seq![
            self.c0r0 as int, self.c0r1 as int, self.c0r2 as int, self.c0r3 as int,
            self.c1r0 as int, self.c1r1 as int, self.c1r2 as int, self.c1r3 as int,
            self.c2r0 as int, self.c2r1 as int, self.c2r2 as int, self.c2r3 as int,
            self.c3r0 as int, self.c3r1 as int, self.c3r2 as int, self.c3r3 as int,
        ]
    }
}

impl Mat4 {
    /// True when every entry is small enough to enter a further product.
    pub open spec fn fits(self) -> bool {
        &&& -MAT_MAX <= self.c0r0 <= MAT_MAX
        &&& -MAT_MAX <= self.c0r1 <= MAT_MAX
        &&& -MAT_MAX <= self.c0r2 <= MAT_MAX
        &&& -MAT_MAX <= self.c0r3 <= MAT_MAX
        &&& -MAT_MAX <= self.c1r0 <= MAT_MAX
        &&& -MAT_MAX <= self.c1r1 <= MAT_MAX
        &&& -MAT_MAX <= self.c1r2 <= MAT_MAX
        &&& -MAT_MAX <= self.c1r3 <= MAT_MAX
        &&& -MAT_MAX <= self.c2r0 <= MAT_MAX
        &&& -MAT_MAX <= self.c2r1 <= MAT_MAX
        &&& -MAT_MAX <= self.c2r2 <= MAT_MAX
        &&& -MAT_MAX <= self.c2r3 <= MAT_MAX
        &&& -MAT_MAX <= self.c3r0 <= MAT_MAX
        &&& -MAT_MAX <= self.c3r1 <= MAT_MAX
        &&& -MAT_MAX <= self.c3r2 <= MAT_MAX
        &&& -MAT_MAX <= self.c3r3 <= MAT_MAX
    }

    /// The identity matrix, as a spec value.
    pub open spec fn identity_spec() -> Mat4 {
        Mat4 {
            c0r0: FX_ONE, c0r1: 0, c0r2: 0, c0r3: 0,
            c1r0: 0, c1r1: FX_ONE, c1r2: 0, c1r3: 0,
            c2r0: 0, c2r1: 0, c2r2: FX_ONE, c2r3: 0,
            c3r0: 0, c3r1: 0, c3r2: 0, c3r3: FX_ONE,
        }
    }

    /// The identity matrix (no transformation).
    pub fn identity() -> (m: Mat4)
        ensures
            m == Mat4::identity_spec(),
            m.fits(),
    {
        Mat4 {
            c0r0: FX_ONE, c0r1: 0, c0r2: 0, c0r3: 0,
            c1r0: 0, c1r1: FX_ONE, c1r2: 0, c1r3: 0,
            c2r0: 0, c2r1: 0, c2r2: FX_ONE, c2r3: 0,
            c3r0: 0, c3r1: 0, c3r2: 0, c3r3: FX_ONE,
        }
    }

}

/// Entry `(c, r)` of the fixed-point product of two matrices given as
/// column-major entry sequences.
pub open spec fn mat_prod_entry(a: Seq<int>, b: Seq<int>, c: int, r: int) -> int {
    fx_scale_down(
        a[0 * 4 + r] * b[c * 4 + 0] + a[1 * 4 + r] * b[c * 4 + 1] + a[2 * 4 + r] * b[c * 4 + 2]
            + a[3 * 4 + r] * b[c * 4 + 3],
    )
}

/// The fixed-point product of two matrices, over column-major entry
/// sequences.
pub open spec fn mat_mul_spec(a: Seq<int>, b: Seq<int>) -> Seq<int> {
    Seq::new(16, |i: int| mat_prod_entry(a, b, i / 4, i % 4))
}

/// True when every entry of a column-major entry sequence is small
/// enough to enter a further product.
pub open spec fn seq_fits(s: Seq<int>) -> bool {
    forall|i: int| 0 <= i < 16 ==> -MAT_MAX <= #[trigger] s[i] <= MAT_MAX
}

/// A matrix whose entry sequence is bounded fits.
pub proof fn lemma_seq_fits(m: Mat4)
    requires
        seq_fits(m@),
    ensures
        m.fits(),
{
    assert(m@[0] == m.c0r0 as int);
    assert(m@[1] == m.c0r1 as int);
    assert(m@[2] == m.c0r2 as int);
    assert(m@[3] == m.c0r3 as int);
    assert(m@[4] == m.c1r0 as int);
    assert(m@[5] == m.c1r1 as int);
    assert(m@[6] == m.c1r2 as int);
    assert(m@[7] == m.c1r3 as int);
    assert(m@[8] == m.c2r0 as int);
    assert(m@[9] == m.c2r1 as int);
    assert(m@[10] == m.c2r2 as int);
    assert(m@[11] == m.c2r3 as int);
    assert(m@[12] == m.c3r0 as int);
    assert(m@[13] == m.c3r1 as int);
    assert(m@[14] == m.c3r2 as int);
    assert(m@[15] == m.c3r3 as int);
}

/// The translation entry (column 3, row 0) of the orthographic
/// projection for `r`: `-(right + left) / (right - left)`, with
/// `left = r.x` and `right = r.x + r.w`.
pub open spec fn ortho_tx(r: crate::types::Rect) -> int {
    trunc_div(-((FX_ONE as int) * (2 * r.x + r.w)), r.w as int)
}

/// The translation entry (column 3, row 1) of the orthographic
/// projection for `r`: `-(bottom + top) / (bottom - top)`, with
/// `top = r.y` and `bottom = r.y + r.h`.
pub open spec fn ortho_ty(r: crate::types::Rect) -> int {
    trunc_div(-((FX_ONE as int) * (2 * r.y + r.h)), r.h as int)
}

/// The orthographic projection over the screen rectangle `r`, with the
/// near and far planes fixed at -1 and 1, as column-major entries.
///
/// With a top-left origin and Y increasing downward, the rectangle's
/// top-left corner `(r.x, r.y)` maps to the clip-space corner
/// `(-1, -1)` and its bottom-right corner to `(1, 1)`.
pub open spec fn ortho_spec(r: crate::types::Rect) -> Seq<int> {
    seq![
        trunc_div(2 * (FX_ONE as int) * (FX_ONE as int), r.w as int), 0, 0, 0,
        0, trunc_div(2 * (FX_ONE as int) * (FX_ONE as int), r.h as int), 0, 0,
        0, 0, -(FX_ONE as int), 0,
        ortho_tx(r), ortho_ty(r), 0, FX_ONE as int,
    ]
}

/// Builds the orthographic projection matrix over the given screen
/// rectangle, near and far fixed at -1 and 1.
///
/// The bounds on the translation entries are forced by the fixed-point
/// width: they hold for any rectangle whose offset is not vastly larger
/// than its extent.
pub fn ortho(r: &crate::types::Rect) -> (m: Mat4)
    requires
        0 < r.w <= MAT_MAX,
        0 < r.h <= MAT_MAX,
        -MAT_MAX <= r.x <= MAT_MAX,
        -MAT_MAX <= r.y <= MAT_MAX,
        -MAT_MAX <= ortho_tx(*r) <= MAT_MAX,
        -MAT_MAX <= ortho_ty(*r) <= MAT_MAX,
    ensures
        m@ == ortho_spec(*r),
        m.fits(),
{
    let two_sq: i128 = 2 * (FX_ONE as i128) * (FX_ONE as i128);
    let e00: i128 = div_trunc(two_sq, r.w as i128);
    let e11: i128 = div_trunc(two_sq, r.h as i128);
    let tx_num: i128 = -((FX_ONE as i128) * (2 * (r.x as i128) + (r.w as i128)));
    let ty_num: i128 = -((FX_ONE as i128) * (2 * (r.y as i128) + (r.h as i128)));
    let tx: i128 = div_trunc(tx_num, r.w as i128);
    let ty: i128 = div_trunc(ty_num, r.h as i128);
    let m = Mat4 {
        c0r0: e00 as i64, c0r1: 0, c0r2: 0, c0r3: 0,
        c1r0: 0, c1r1: e11 as i64, c1r2: 0, c1r3: 0,
        c2r0: 0, c2r1: 0, c2r2: -FX_ONE, c2r3: 0,
        c3r0: tx as i64, c3r1: ty as i64, c3r2: 0, c3r3: FX_ONE,
    };
    proof {
        assert(m@ =~= ortho_spec(*r));
    }
    m
}

/// One four-term fixed-point dot product, truncated toward zero.
fn fx_dot4(a0: i64, a1: i64, a2: i64, a3: i64, b0: i64, b1: i64, b2: i64, b3: i64) -> (r: i64)
    requires
        -MAT_MAX <= a0 <= MAT_MAX,
        -MAT_MAX <= a1 <= MAT_MAX,
        -MAT_MAX <= a2 <= MAT_MAX,
        -MAT_MAX <= a3 <= MAT_MAX,
        -MAT_MAX <= b0 <= MAT_MAX,
        -MAT_MAX <= b1 <= MAT_MAX,
        -MAT_MAX <= b2 <= MAT_MAX,
        -MAT_MAX <= b3 <= MAT_MAX,
    ensures
        r == fx_scale_down(a0 * b0 + a1 * b1 + a2 * b2 + a3 * b3),
{
    proof {
        lemma_mul_bound(a0 as int, b0 as int, MAT_MAX as int, MAT_MAX as int);
        lemma_mul_bound(a1 as int, b1 as int, MAT_MAX as int, MAT_MAX as int);
        lemma_mul_bound(a2 as int, b2 as int, MAT_MAX as int, MAT_MAX as int);
        lemma_mul_bound(a3 as int, b3 as int, MAT_MAX as int, MAT_MAX as int);
    }
    let s: i128 = (a0 as i128) * (b0 as i128) + (a1 as i128) * (b1 as i128)
        + (a2 as i128) * (b2 as i128) + (a3 as i128) * (b3 as i128);
    let q: i128 = div_trunc(s, FX_ONE as i128);
    proof {
        if s >= 0 {
            lemma_div_is_ordered(s as int, DOT_BOUND as int, FX_ONE as int);
        } else {
            lemma_div_is_ordered((-s) as int, DOT_BOUND as int, FX_ONE as int);
        }
    }
    q as i64
}

/// The fixed-point matrix product `a * b`.
pub fn mat_mul(a: &Mat4, b: &Mat4) -> (r: Mat4)
    requires
        a.fits(),
        b.fits(),
    ensures
        r@ == mat_mul_spec(a@, b@),
{
    let r = Mat4 {
        c0r0: fx_dot4(a.c0r0, a.c1r0, a.c2r0, a.c3r0, b.c0r0, b.c0r1, b.c0r2, b.c0r3),
        c0r1: fx_dot4(a.c0r1, a.c1r1, a.c2r1, a.c3r1, b.c0r0, b.c0r1, b.c0r2, b.c0r3),
        c0r2: fx_dot4(a.c0r2, a.c1r2, a.c2r2, a.c3r2, b.c0r0, b.c0r1, b.c0r2, b.c0r3),
        c0r3: fx_dot4(a.c0r3, a.c1r3, a.c2r3, a.c3r3, b.c0r0, b.c0r1, b.c0r2, b.c0r3),
        c1r0: fx_dot4(a.c0r0, a.c1r0, a.c2r0, a.c3r0, b.c1r0, b.c1r1, b.c1r2, b.c1r3),
        c1r1: fx_dot4(a.c0r1, a.c1r1, a.c2r1, a.c3r1, b.c1r0, b.c1r1, b.c1r2, b.c1r3),
        c1r2: fx_dot4(a.c0r2, a.c1r2, a.c2r2, a.c3r2, b.c1r0, b.c1r1, b.c1r2, b.c1r3),
        c1r3: fx_dot4(a.c0r3, a.c1r3, a.c2r3, a.c3r3, b.c1r0, b.c1r1, b.c1r2, b.c1r3),
        c2r0: fx_dot4(a.c0r0, a.c1r0, a.c2r0, a.c3r0, b.c2r0, b.c2r1, b.c2r2, b.c2r3),
        c2r1: fx_dot4(a.c0r1, a.c1r1, a.c2r1, a.c3r1, b.c2r0, b.c2r1, b.c2r2, b.c2r3),
        c2r2: fx_dot4(a.c0r2, a.c1r2, a.c2r2, a.c3r2, b.c2r0, b.c2r1, b.c2r2, b.c2r3),
        c2r3: fx_dot4(a.c0r3, a.c1r3, a.c2r3, a.c3r3, b.c2r0, b.c2r1, b.c2r2, b.c2r3),
        c3r0: fx_dot4(a.c0r0, a.c1r0, a.c2r0, a.c3r0, b.c3r0, b.c3r1, b.c3r2, b.c3r3),
        c3r1: fx_dot4(a.c0r1, a.c1r1, a.c2r1, a.c3r1, b.c3r0, b.c3r1, b.c3r2, b.c3r3),
        c3r2: fx_dot4(a.c0r2, a.c1r2, a.c2r2, a.c3r2, b.c3r0, b.c3r1, b.c3r2, b.c3r3),
        c3r3: fx_dot4(a.c0r3, a.c1r3, a.c2r3, a.c3r3, b.c3r0, b.c3r1, b.c3r2, b.c3r3),
    };
    proof {
        let s = mat_mul_spec(a@, b@);
        assert(r@[0] == s[0]);
        assert(r@[1] == s[1]);
        assert(r@[2] == s[2]);
        assert(r@[3] == s[3]);
        assert(r@[4] == s[4]);
        assert(r@[5] == s[5]);
        assert(r@[6] == s[6]);
        assert(r@[7] == s[7]);
        assert(r@[8] == s[8]);
        assert(r@[9] == s[9]);
        assert(r@[10] == s[10]);
        assert(r@[11] == s[11]);
        assert(r@[12] == s[12]);
        assert(r@[13] == s[13]);
        assert(r@[14] == s[14]);
        assert(r@[15] == s[15]);
        assert(r@ =~= s);
    }
    r
}

} // verus!
