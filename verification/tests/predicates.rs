use geompred::geom::{
    incircle, orient2d, orient2d_fast, orient2d_robust, sign_code_exact, sign_code_tolerant,
    Point3d,
};

fn pt(x: f64, y: f64) -> Point3d {
    Point3d { x: x.to_bits(), y: y.to_bits(), z: 0.0f64.to_bits() }
}

#[test]
fn orientation_ccw_literal() {
    let a = pt(0.0, 0.0);
    let b = pt(1.0, 0.0);
    let c = pt(0.0, 1.0);
    assert_eq!(orient2d_fast(&a, &b, &c), 1);
    assert_eq!(orient2d_robust(&a, &b, &c), 1);
    assert_eq!(orient2d(&a, &b, &c, false), 1);
    assert_eq!(orient2d(&a, &b, &c, true), 1);
}

#[test]
fn orientation_cw_literal() {
    let a = pt(0.0, 0.0);
    let b = pt(0.0, 1.0);
    let c = pt(1.0, 0.0);
    assert_eq!(orient2d_fast(&a, &b, &c), -1);
    assert_eq!(orient2d_robust(&a, &b, &c), -1);
    assert_eq!(orient2d(&a, &b, &c, false), -1);
    assert_eq!(orient2d(&a, &b, &c, true), -1);
}

#[test]
fn collinear_exact_robust() {
    let a = pt(0.0, 0.0);
    let b = pt(1.0, 1.0);
    let c = pt(2.0, 2.0);
    assert_eq!(orient2d(&a, &b, &c, true), 0);
    // The determinant is exactly zero in floating point too, so the fast
    // strategy agrees here.
    assert_eq!(orient2d(&a, &b, &c, false), 0);
    // Exact collinearity is recognized at any magnitude within the moderate
    // window, where the kernel's arithmetic cannot overflow or underflow.
    let big_a = pt(1.0e20, 1.0e20);
    let big_b = pt(2.0e20, 2.0e20);
    let big_c = pt(3.0e20, 3.0e20);
    assert_eq!(orient2d(&big_a, &big_b, &big_c, true), 0);
    let mid_a = pt(0.0, 0.0);
    let mid_b = pt(1.0e6, 1.0e6);
    let mid_c = pt(2.0e6, 2.0e6);
    assert_eq!(orient2d(&mid_a, &mid_b, &mid_c, true), 0);
    let huge_a = pt(0.0, 0.0);
    let huge_b = pt(1.0e50, 1.0e50);
    let huge_c = pt(2.0e50, 2.0e50);
    assert_eq!(orient2d(&huge_a, &huge_b, &huge_c, true), 0);
}

#[test]
fn robust_beyond_the_moderate_window() {
    // With coordinates near 1e200 the kernel's own first step — plain
    // binary64 products of coordinate differences — overflows, and the
    // returned value is NaN, reported as -1 for either order of the first
    // two points. This is why the exactness clause and the orientation laws
    // are stated only for the moderate window.
    let a = pt(1.0e200, 1.0e160);
    let b = pt(1.0e160, 1.0e200);
    let c = pt(0.0, 0.0);
    assert_eq!(orient2d_robust(&a, &b, &c), -1);
    assert_eq!(orient2d_robust(&b, &a, &c), -1);
}

#[test]
fn strategy_agreement_small_integers() {
    let coords = [0.0f64, 1.0, 2.0, 3.0];
    for &ax in &coords {
        for &ay in &coords {
            for &bx in &coords {
                for &by in &coords {
                    let a = pt(ax, ay);
                    let b = pt(bx, by);
                    let c = pt(2.0, 1.0);
                    assert_eq!(
                        orient2d(&a, &b, &c, false),
                        orient2d(&a, &b, &c, true),
                        "disagreement at ({ax},{ay}) ({bx},{by})"
                    );
                }
            }
        }
    }
}

#[test]
fn antisymmetry_both_strategies() {
    let triples = [
        (pt(0.0, 0.0), pt(1.0, 0.0), pt(0.0, 1.0)),
        (pt(0.5, 0.25), pt(-3.0, 7.0), pt(2.5, -1.0)),
        (pt(0.0, 0.0), pt(1.0, 1.0), pt(2.0, 2.0)),
        (pt(10.0, -4.0), pt(10.0, 5.0), pt(-2.0, 0.125)),
        (pt(1.0e150, -2.0e150), pt(3.0e149, 7.0e149), pt(-1.0e150, 5.0e149)),
    ];
    for (a, b, c) in triples {
        assert_eq!(orient2d_fast(&a, &b, &c), -orient2d_fast(&b, &a, &c));
        assert_eq!(orient2d_robust(&a, &b, &c), -orient2d_robust(&b, &a, &c));
        assert_eq!(orient2d(&a, &b, &c, false), -orient2d(&b, &a, &c, false));
        assert_eq!(orient2d(&a, &b, &c, true), -orient2d(&b, &a, &c, true));
    }
}

#[test]
fn cyclic_invariance_robust() {
    let triples = [
        (pt(0.0, 0.0), pt(1.0, 0.0), pt(0.0, 1.0)),
        (pt(0.5, 0.25), pt(-3.0, 7.0), pt(2.5, -1.0)),
        (pt(0.0, 0.0), pt(1.0, 1.0), pt(2.0, 2.0)),
        (pt(1.0e150, -2.0e150), pt(3.0e149, 7.0e149), pt(-1.0e150, 5.0e149)),
    ];
    for (a, b, c) in triples {
        let r = orient2d(&a, &b, &c, true);
        assert_eq!(orient2d(&b, &c, &a, true), r);
        assert_eq!(orient2d(&c, &a, &b, true), r);
    }
}

#[test]
fn incircle_literal_cases() {
    let a = pt(0.0, 0.0);
    let b = pt(1.0, 0.0);
    let c = pt(0.0, 1.0);
    assert_eq!(incircle(&a, &b, &c, &pt(0.25, 0.25)), 1);
    assert_eq!(incircle(&a, &b, &c, &pt(10.0, 10.0)), -1);
    assert_eq!(incircle(&a, &b, &c, &pt(1.0, 1.0)), 0);
}

#[test]
fn idempotent_calls() {
    let a = pt(0.1, 0.7);
    let b = pt(-2.0, 0.3);
    let c = pt(4.0, -9.0);
    let p = pt(0.0, 0.0);
    assert_eq!(orient2d(&a, &b, &c, false), orient2d(&a, &b, &c, false));
    assert_eq!(orient2d(&a, &b, &c, true), orient2d(&a, &b, &c, true));
    assert_eq!(orient2d_fast(&a, &b, &c), orient2d_fast(&a, &b, &c));
    assert_eq!(orient2d_robust(&a, &b, &c), orient2d_robust(&a, &b, &c));
    assert_eq!(incircle(&a, &b, &c, &p), incircle(&a, &b, &c, &p));
}

#[test]
fn tolerance_is_strict_and_absolute() {
    let a = pt(0.0, 0.0);
    let b = pt(1.0, 0.0);
    // The fast determinant here evaluates to exactly the y coordinate of c.
    let shallow = pt(1.0, 1.0e-13);
    assert_eq!(orient2d_fast(&a, &b, &shallow), 0);
    // The exact kernel still sees the counter-clockwise turn.
    assert_eq!(orient2d_robust(&a, &b, &shallow), 1);
    // The comparison with the tolerance is strict: a determinant of exactly
    // 1.0e-12 is not reported as zero.
    let at_eps = pt(1.0, 1.0e-12);
    assert_eq!(orient2d_fast(&a, &b, &at_eps), 1);
}

#[test]
fn z_coordinate_is_ignored() {
    let mut a = pt(0.0, 0.0);
    let mut b = pt(1.0, 0.0);
    let mut c = pt(0.0, 1.0);
    a.z = 7.5f64.to_bits();
    b.z = (-3.25f64).to_bits();
    c.z = f64::NAN.to_bits();
    assert_eq!(orient2d(&a, &b, &c, false), 1);
    assert_eq!(orient2d(&a, &b, &c, true), 1);
    assert_eq!(incircle(&a, &b, &c, &pt(0.25, 0.25)), 1);
}

#[test]
fn sign_codes_on_raw_determinants() {
    // Below the tolerance in magnitude: zero either sign.
    assert_eq!(sign_code_tolerant(5.0e-13f64.to_bits()), 0);
    assert_eq!(sign_code_tolerant((-5.0e-13f64).to_bits()), 0);
    // At or above it: the sign decides.
    assert_eq!(sign_code_tolerant(1.0e-12f64.to_bits()), 1);
    assert_eq!(sign_code_tolerant(2.0f64.to_bits()), 1);
    assert_eq!(sign_code_tolerant((-2.0f64).to_bits()), -1);
    assert_eq!(sign_code_tolerant(f64::INFINITY.to_bits()), 1);
    // A NaN fails both floating comparisons of the decision rule and lands
    // at -1, as it does for the original rule stated over f64 values.
    assert_eq!(sign_code_tolerant(f64::NAN.to_bits()), -1);

    // The exact rule reports zero only on a genuine zero, of either sign.
    assert_eq!(sign_code_exact(0.0f64.to_bits()), 0);
    assert_eq!(sign_code_exact((-0.0f64).to_bits()), 0);
    assert_eq!(sign_code_exact(1.0e-300f64.to_bits()), 1);
    assert_eq!(sign_code_exact((-1.0e-300f64).to_bits()), -1);
    assert_eq!(sign_code_exact(f64::NAN.to_bits()), -1);
}

#[test]
fn incircle_requires_ccw_polarity() {
    // With a, b, c supplied clockwise, the polarity flips: the documented
    // +1-inside convention holds only for counter-clockwise input.
    let a = pt(0.0, 0.0);
    let b = pt(0.0, 1.0);
    let c = pt(1.0, 0.0);
    assert_eq!(incircle(&a, &b, &c, &pt(0.25, 0.25)), -1);
    assert_eq!(incircle(&a, &b, &c, &pt(10.0, 10.0)), 1);
}
