//! The planar predicates: orientation of an ordered triple of points, fast
//! (floating, with a fixed absolute tolerance) and robust (exact kernel),
//! and the incircle test (floating only, as the fast path is).

use vstd::prelude::*;
use byteorder::ByteOrder;
use crate::fbits::{
    F64_SIGN_MASK, F64_MAG_MASK, F64_INF_MAG, mag_bits, sign_bit_set, is_nan_bits,
    moderate_bits, f64_val_scaled, fadd_bits, fsub_bits, fmul_bits, add_f64_bits, sub_f64_bits,
    mul_f64_bits,
};

verus! {

/// Bit pattern of the absolute tolerance `1.0e-12` (`(1.0e-12f64).to_bits()`):
/// a floating determinant whose magnitude falls below it is reported as zero.
pub const FAST_EPS_MAG: u64 = 0x3D71_9799_812D_EA11;

/// A point in the plane, carried as the IEEE-754 binary64 bit patterns of its
/// coordinates (`f64::to_bits`). The predicates read `x` and `y`; `z` exists
/// on the entity but is never read here.
#[derive(Clone, Copy)]
pub struct Point3d {
    pub x: u64,
    pub y: u64,
    pub z: u64,
}

/// Sign code under the floating evaluators' decision rule: a determinant
/// whose magnitude is below the `1.0e-12` tolerance counts as zero, and
/// otherwise its sign decides. On every binary64 pattern `re`, NaN included,
/// this is the value of `if re.abs() < 1.0e-12 { 0 } else if re > 0.0 { 1 }
/// else { -1 }` (a NaN fails both floating comparisons and lands at -1).
pub open spec fn tolerant_code(re: u64) -> int {
    if mag_bits(re) < FAST_EPS_MAG {
        0
    } else if !sign_bit_set(re) && !is_nan_bits(re) {
        1
    } else {
        -1
    }
}

/// Sign code under the exact rule: zero only on a genuine zero. On every
/// binary64 pattern `re` this is the value of `if re == 0.0 { 0 } else if
/// re > 0.0 { 1 } else { -1 }` (both zeros land at 0, a NaN at -1).
pub open spec fn exact_code(re: u64) -> int {
    if mag_bits(re) == 0 {
        0
    } else if !sign_bit_set(re) && !is_nan_bits(re) {
        1
    } else {
        -1
    }
}

/// Maps a binary64 determinant to its sign code under the tolerance rule of
/// the floating evaluators.
pub fn sign_code_tolerant(re: u64) -> (r: i8)
    ensures
        r as int == tolerant_code(re),
{
    let mag: u64 = re & F64_MAG_MASK;
    if mag < FAST_EPS_MAG {
        0
    } else if re & F64_SIGN_MASK == 0 && mag <= F64_INF_MAG {
        1
    } else {
        -1
    }
}

/// Maps a binary64 determinant to its sign code under the exact rule of the
/// robust evaluator.
pub fn sign_code_exact(re: u64) -> (r: i8)
    ensures
        r as int == exact_code(re),
{
    let mag: u64 = re & F64_MAG_MASK;
    if mag == 0 {
        0
    } else if re & F64_SIGN_MASK == 0 && mag <= F64_INF_MAG {
        1
    } else {
        -1
    }
}

/// Bit pattern of the floating 2x2 orientation determinant
/// `(a.x - c.x) * (b.y - c.y) - (a.y - c.y) * (b.x - c.x)`, each operation in
/// binary64.
pub open spec fn fast_det_bits(a: Point3d, b: Point3d, c: Point3d) -> u64 {
    fsub_bits(
        fmul_bits(fsub_bits(a.x, c.x), fsub_bits(b.y, c.y)),
        fmul_bits(fsub_bits(a.y, c.y), fsub_bits(b.x, c.x)),
    )
}

/// The sign code the fast evaluator returns for the triple `(a, b, c)`.
pub open spec fn orient2d_fast_code(a: Point3d, b: Point3d, c: Point3d) -> int {
    tolerant_code(fast_det_bits(a, b, c))
}

/// Whether six coordinate bit patterns all denote zero or a value of
/// moderate magnitude (between `2^-255` and `2^255`), the window in which
/// the exact kernel's adaptive arithmetic meets neither overflow nor
/// underflow.
pub open spec fn coords_moderate(ax: u64, ay: u64, bx: u64, by: u64, cx: u64, cy: u64) -> bool {
    moderate_bits(ax) && moderate_bits(ay) && moderate_bits(bx) && moderate_bits(by)
        && moderate_bits(cx) && moderate_bits(cy)
}

/// Whether the planar coordinates of all three points are moderate.
pub open spec fn all_moderate(a: Point3d, b: Point3d, c: Point3d) -> bool {
    coords_moderate(a.x, a.y, b.x, b.y, c.x, c.y)
}

/// The sign of the exact real orientation determinant
/// `(a - c) x (b - c) = (ax - cx)(by - cy) - (ay - cy)(bx - cx)` of the
/// values the six coordinate patterns denote, computed over the scaled
/// integer interpretation (scaling by `2^1074` leaves every sign unchanged):
/// +1 when the triple turns counter-clockwise, -1 when clockwise, 0 exactly
/// when the three points are collinear.
pub open spec fn exact_orient_sign(ax: u64, ay: u64, bx: u64, by: u64, cx: u64, cy: u64) -> int {
    let d = (f64_val_scaled(ax) - f64_val_scaled(cx)) * (f64_val_scaled(by) - f64_val_scaled(cy))
        - (f64_val_scaled(ay) - f64_val_scaled(cy)) * (f64_val_scaled(bx) - f64_val_scaled(cx));
    if d > 0 {
        1
    } else if d < 0 {
        -1
    } else {
        0
    }
}

/// Antisymmetry of the exact orientation: exchanging the first two points
/// negates the exact sign, for every six coordinate patterns. Together with
/// the contract of `orient2d_robust`, this gives for any two robust calls on
/// moderate coordinates that `orient2d_robust(b, a, c)` returns the negation
/// of `orient2d_robust(a, b, c)`.
pub proof fn lemma_exact_orient_sign_antisymmetric(a: Point3d, b: Point3d, c: Point3d)
    ensures
        exact_orient_sign(b.x, b.y, a.x, a.y, c.x, c.y) == -exact_orient_sign(
            a.x,
            a.y,
            b.x,
            b.y,
            c.x,
            c.y,
        ),
{
    let pax: int = f64_val_scaled(a.x);
    let pay: int = f64_val_scaled(a.y);
    let pbx: int = f64_val_scaled(b.x);
    let pby: int = f64_val_scaled(b.y);
    let pcx: int = f64_val_scaled(c.x);
    let pcy: int = f64_val_scaled(c.y);
    assert((pbx - pcx) * (pay - pcy) - (pby - pcy) * (pax - pcx) == -((pax - pcx) * (pby - pcy)
        - (pay - pcy) * (pbx - pcx))) by (nonlinear_arith);
}

/// Cyclic invariance of the exact orientation: rotating the three points
/// leaves the exact sign unchanged, for every six coordinate patterns.
/// Together with the contract of `orient2d_robust`, this gives for robust
/// calls on moderate coordinates that `orient2d_robust(b, c, a)` and
/// `orient2d_robust(c, a, b)` return the same sign code as
/// `orient2d_robust(a, b, c)`.
pub proof fn lemma_exact_orient_sign_cyclic(a: Point3d, b: Point3d, c: Point3d)
    ensures
        exact_orient_sign(b.x, b.y, c.x, c.y, a.x, a.y) == exact_orient_sign(
            a.x,
            a.y,
            b.x,
            b.y,
            c.x,
            c.y,
        ),
        exact_orient_sign(c.x, c.y, a.x, a.y, b.x, b.y) == exact_orient_sign(
            a.x,
            a.y,
            b.x,
            b.y,
            c.x,
            c.y,
        ),
{
    let pax: int = f64_val_scaled(a.x);
    let pay: int = f64_val_scaled(a.y);
    let pbx: int = f64_val_scaled(b.x);
    let pby: int = f64_val_scaled(b.y);
    let pcx: int = f64_val_scaled(c.x);
    let pcy: int = f64_val_scaled(c.y);
    assert((pbx - pax) * (pcy - pay) - (pby - pay) * (pcx - pax) == (pax - pcx) * (pby - pcy) - (
    pay - pcy) * (pbx - pcx)) by (nonlinear_arith);
    assert((pcx - pbx) * (pay - pby) - (pcy - pby) * (pax - pbx) == (pax - pcx) * (pby - pcy) - (
    pay - pcy) * (pbx - pcx)) by (nonlinear_arith);
}

/// Bit pattern of the value the exact kernel returns for the orientation of
/// the points `(ax, ay)`, `(bx, by)`, `(cx, cy)`.
pub uninterp spec fn robust_det_bits(ax: u64, ay: u64, bx: u64, by: u64, cx: u64, cy: u64) -> u64;

/// The sign code the robust evaluator returns for the triple `(a, b, c)`.
pub open spec fn orient2d_robust_code(a: Point3d, b: Point3d, c: Point3d) -> int {
    exact_code(robust_det_bits(a.x, a.y, b.x, b.y, c.x, c.y))
}

/// Relies on `robust::orient2d`, the adaptive-precision port of Shewchuk's
/// exact orientation kernel: it is a deterministic function of the six
/// coordinate bit patterns, and its documentation fixes the sign of the
/// returned value by the exact order of the points — positive when they
/// occur in counter-clockwise order, negative when clockwise, zero when
/// collinear. The underlying analysis is exact only while no intermediate
/// overflows or underflows (the kernel's first step multiplies coordinate
/// differences as plain binary64 products, so coordinates near `1e200`
/// already take it to NaN), which is why the claim is stated only for
/// coordinates in the moderate window, zero or magnitude within
/// `[2^-255, 2^255]`: there, differences stay below `2^257`, their products
/// below `2^514`, and every error term of the adaptive expansion above
/// `2^-800`, far from either end. The `byteorder` reads only turn each
/// `u64` pattern into the `f64` with those very bits, exact by construction.
#[verifier::external_body]
fn robust_orient_raw(ax: u64, ay: u64, bx: u64, by: u64, cx: u64, cy: u64) -> (r: u64)
    ensures
        r == robust_det_bits(ax, ay, bx, by, cx, cy),
        coords_moderate(ax, ay, bx, by, cx, cy) ==> exact_code(r) == exact_orient_sign(
            ax,
            ay,
            bx,
            by,
            cx,
            cy,
        ),
{
    let pa = robust::Coord {
        x: byteorder::LittleEndian::read_f64(&ax.to_le_bytes()),
        y: byteorder::LittleEndian::read_f64(&ay.to_le_bytes()),
    };
    let pb = robust::Coord {
        x: byteorder::LittleEndian::read_f64(&bx.to_le_bytes()),
        y: byteorder::LittleEndian::read_f64(&by.to_le_bytes()),
    };
    let pc = robust::Coord {
        x: byteorder::LittleEndian::read_f64(&cx.to_le_bytes()),
        y: byteorder::LittleEndian::read_f64(&cy.to_le_bytes()),
    };
    robust::orient2d(pa, pb, pc).to_bits()
}

/// Robust orientation of the ordered triple `(a, b, c)`: +1 if it turns
/// counter-clockwise, -1 if clockwise, 0 exactly when the three points are
/// collinear — the sign comes from the exact kernel, and zero is a genuine
/// equality, not a tolerance hit. The contract states this exactness for
/// every input in the moderate window (each coordinate zero or of magnitude
/// within `[2^-255, 2^255]`): there the result equals the sign of the exact
/// real orientation determinant, so exactly collinear points yield 0 at any
/// magnitude within the window. Outside it the kernel's own arithmetic can
/// overflow and only the result's value is pinned. The kernel binding is a
/// pure function with no process-wide state, so no one-time initialization
/// has to happen before the first call, and concurrent callers need no
/// coordination.
///
/// Antisymmetry and cyclic invariance across calls follow from the
/// exactness clause and the proved laws of `exact_orient_sign`
/// (`lemma_exact_orient_sign_antisymmetric`, `lemma_exact_orient_sign_cyclic`).
pub fn orient2d_robust(a: &Point3d, b: &Point3d, c: &Point3d) -> (r: i8)
    ensures
        r as int == orient2d_robust_code(*a, *b, *c),
        all_moderate(*a, *b, *c) ==> r as int == exact_orient_sign(a.x, a.y, b.x, b.y, c.x, c.y),
{
    let det = robust_orient_raw(a.x, a.y, b.x, b.y, c.x, c.y);
    sign_code_exact(det)
}

/// Approximate orientation of the ordered triple `(a, b, c)`: +1 if it turns
/// counter-clockwise, -1 if clockwise, 0 if collinear within the fixed
/// absolute tolerance. The tolerance is an absolute constant, not scaled by
/// the operands, so for coordinates far from unit scale the robust path is
/// the trustworthy one.
///
/// Beyond pinning the result, the contract carries the antisymmetry law:
/// whenever the floating determinant is not NaN, exchanging the first two
/// points negates the reported sign code (the determinant's two products
/// merely change places, and binary64 subtraction negates exactly under that
/// exchange).
pub fn orient2d_fast(a: &Point3d, b: &Point3d, c: &Point3d) -> (r: i8)
    ensures
        r as int == orient2d_fast_code(*a, *b, *c),
        !is_nan_bits(fast_det_bits(*a, *b, *c)) ==> orient2d_fast_code(*b, *a, *c)
            == -orient2d_fast_code(*a, *b, *c),
{
    let acx = sub_f64_bits(a.x, c.x);
    let bcy = sub_f64_bits(b.y, c.y);
    let acy = sub_f64_bits(a.y, c.y);
    let bcx = sub_f64_bits(b.x, c.x);
    let detleft = mul_f64_bits(acx, bcy);
    let detright = mul_f64_bits(acy, bcx);
    let det = sub_f64_bits(detleft, detright);
    proof {
        if !is_nan_bits(det) {
            // The products are not NaN either, so each commutes, and the
            // exchanged determinant is the reversed difference of the same
            // two products: equal in magnitude, opposite in sign.
            assert(fast_det_bits(*b, *a, *c) == fsub_bits(detright, detleft));
        }
    }
    sign_code_tolerant(det)
}

/// The sign code `orient2d` returns for the triple `(a, b, c)` under the
/// chosen strategy.
pub open spec fn orient2d_code(a: Point3d, b: Point3d, c: Point3d, robust_predicates: bool) -> int {
    if robust_predicates {
        orient2d_robust_code(a, b, c)
    } else {
        orient2d_fast_code(a, b, c)
    }
}

/// Orientation of the ordered triple `(a, b, c)`: +1 if it turns
/// counter-clockwise, -1 if clockwise, 0 if collinear within the chosen
/// strategy's precision. With `robust_predicates` the exact kernel decides;
/// without it the fast floating evaluator with its fixed `1.0e-12` tolerance
/// does. Pure selection: no state is kept between calls.
///
/// The contract restates what each strategy's evaluator carries: for the
/// robust path the result on moderate coordinates is the exact orientation
/// sign (whose antisymmetry and cyclic invariance are the proved laws of
/// `exact_orient_sign`), and for the fast path exchanging the first two
/// points negates the sign code whenever its determinant is not NaN.
pub fn orient2d(a: &Point3d, b: &Point3d, c: &Point3d, robust_predicates: bool) -> (r: i8)
    ensures
        r as int == orient2d_code(*a, *b, *c, robust_predicates),
        robust_predicates && all_moderate(*a, *b, *c) ==> r as int == exact_orient_sign(
            a.x,
            a.y,
            b.x,
            b.y,
            c.x,
            c.y,
        ),
        !robust_predicates && !is_nan_bits(fast_det_bits(*a, *b, *c)) ==> orient2d_code(
            *b,
            *a,
            *c,
            false,
        ) == -orient2d_code(*a, *b, *c, false),
{
    if robust_predicates {
        orient2d_robust(a, b, c)
    } else {
        orient2d_fast(a, b, c)
    }
}

/// Bit pattern of `q.x * q.x + q.y * q.y` evaluated in binary64.
pub open spec fn norm2_bits(q: Point3d) -> u64 {
    fadd_bits(fmul_bits(q.x, q.x), fmul_bits(q.y, q.y))
}

/// Bit pattern of the floating 3x3 lifted determinant the incircle evaluator
/// computes: each of `a`, `b`, `c` is lifted to
/// `(q.x - p.x, q.y - p.y, (q.x² + q.y²) - (p.x² + p.y²))` and the signed
/// determinant of the three rows is expanded along the last column as
/// `i - j + k`, every operation in binary64.
pub open spec fn incircle_det_bits(a: Point3d, b: Point3d, c: Point3d, p: Point3d) -> u64 {
    let atx = fsub_bits(a.x, p.x);
    let aty = fsub_bits(a.y, p.y);
    let atw = fsub_bits(norm2_bits(a), norm2_bits(p));
    let btx = fsub_bits(b.x, p.x);
    let bty = fsub_bits(b.y, p.y);
    let btw = fsub_bits(norm2_bits(b), norm2_bits(p));
    let ctx = fsub_bits(c.x, p.x);
    let cty = fsub_bits(c.y, p.y);
    let ctw = fsub_bits(norm2_bits(c), norm2_bits(p));
    let mi = fmul_bits(atx, fsub_bits(fmul_bits(bty, ctw), fmul_bits(btw, cty)));
    let mj = fmul_bits(aty, fsub_bits(fmul_bits(btx, ctw), fmul_bits(btw, ctx)));
    let mk = fmul_bits(atw, fsub_bits(fmul_bits(btx, cty), fmul_bits(bty, ctx)));
    fadd_bits(fsub_bits(mi, mj), mk)
}

/// The sign code the incircle evaluator returns for `(a, b, c, p)`.
pub open spec fn incircle_code(a: Point3d, b: Point3d, c: Point3d, p: Point3d) -> int {
    tolerant_code(incircle_det_bits(a, b, c, p))
}

/// Position of `p` relative to the circle through `a`, `b` and `c`: +1
/// inside, -1 outside, 0 on the circle within the fixed absolute tolerance.
/// The inside/outside polarity holds only when `a`, `b`, `c` are supplied in
/// counter-clockwise order; this evaluator performs no such check itself,
/// and callers must establish the order, e.g. through `orient2d`. Evaluation
/// is plain binary64 arithmetic with the same `1.0e-12` tolerance as the
/// fast orientation path; no robust strategy is offered for it here.
pub fn incircle(a: &Point3d, b: &Point3d, c: &Point3d, p: &Point3d) -> (r: i8)
    ensures
        r as int == incircle_code(*a, *b, *c, *p),
{
    let pn2 = add_f64_bits(mul_f64_bits(p.x, p.x), mul_f64_bits(p.y, p.y));
    let atx = sub_f64_bits(a.x, p.x);
    let aty = sub_f64_bits(a.y, p.y);
    let an2 = add_f64_bits(mul_f64_bits(a.x, a.x), mul_f64_bits(a.y, a.y));
    let atw = sub_f64_bits(an2, pn2);
    let btx = sub_f64_bits(b.x, p.x);
    let bty = sub_f64_bits(b.y, p.y);
    let bn2 = add_f64_bits(mul_f64_bits(b.x, b.x), mul_f64_bits(b.y, b.y));
    let btw = sub_f64_bits(bn2, pn2);
    let ctx = sub_f64_bits(c.x, p.x);
    let cty = sub_f64_bits(c.y, p.y);
    let cn2 = add_f64_bits(mul_f64_bits(c.x, c.x), mul_f64_bits(c.y, c.y));
    let ctw = sub_f64_bits(cn2, pn2);
    let mi = mul_f64_bits(atx, sub_f64_bits(mul_f64_bits(bty, ctw), mul_f64_bits(btw, cty)));
    let mj = mul_f64_bits(aty, sub_f64_bits(mul_f64_bits(btx, ctw), mul_f64_bits(btw, ctx)));
    let mk = mul_f64_bits(atw, sub_f64_bits(mul_f64_bits(btx, cty), mul_f64_bits(bty, ctx)));
    let det = add_f64_bits(sub_f64_bits(mi, mj), mk);
    sign_code_tolerant(det)
}

} // verus!
