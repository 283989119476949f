use sweepslide::geo::fixed::SCALE;
use sweepslide::geo::vec2::{points_are_colinear, Vec2, VecOp, VecOpScalar, VecOpVecToScalar};

/// One world unit in raw scalar units.
fn fx(v: i64) -> i64 {
    v * SCALE
}

/// Verify normalization in its expression forms.
#[test]
fn norm_expressions() {
    let mut x = Vec2::new(fx(2), 0);
    let mut result: Vec2;
    result = x.norm();
    assert_eq!(result.x, fx(1));
    assert_eq!(result.y, 0);
    assert_eq!(x.x, fx(2));
    assert_eq!(x.y, 0);
    x = x.norm();
    assert_eq!(x.x, fx(1));
    assert_eq!(x.y, 0);

    x.x = 0;
    x.y = fx(3);
    result = x.norm();
    assert_eq!(result.x, 0);
    assert_eq!(result.y, fx(1));
}

/// Verify scaling in its expression forms.
#[test]
fn scale_expressions() {
    let mut x = Vec2::new(fx(1), fx(1));
    let mut result: Vec2;
    result = x.scale(fx(1)).scale(0);
    assert_eq!(result.x, 0);
    assert_eq!(result.y, 0);
    assert_eq!(x.x, fx(1));
    assert_eq!(x.y, fx(1));
    x = x.scale(fx(1)).scale(0);
    assert_eq!(x.x, 0);
    assert_eq!(x.y, 0);

    x.x = fx(1);
    result = x.scale(fx(-1));
    assert_eq!(result.x, fx(-1));
    assert_eq!(result.y, 0);
}

/// Verify the expressions allowed with the dot product.
#[test]
fn dot_expressions() {
    let x = Vec2::zero();
    let y = Vec2::zero();
    let mut _result: i64;
    _result = x.dot(y);
    {
        let z = Vec2::zero();
        _result = z.dot(y);
        z.length();
    }
    {
        let z = Vec2::zero();
        _result = x.dot(z);
    }
    _result = x.dot(y);
    assert_eq!(_result, 0);
    assert_eq!(Vec2::new(fx(1), fx(2)).dot(Vec2::new(fx(3), fx(4))), fx(11));
    assert_eq!(Vec2::new(fx(1), fx(2)).ext(Vec2::new(fx(3), fx(4))), fx(-2));
}

/// Verifies points_are_colinear() basically works.
#[test]
fn everything() {
    assert!(points_are_colinear(
        &Vec2::new(fx(1), fx(1)),
        &Vec2::new(fx(2), fx(2)),
        &Vec2::new(fx(3), fx(3)),
    ));
    assert!(points_are_colinear(
        &Vec2::new(fx(1), fx(1)),
        &Vec2::new(fx(1), fx(1)),
        &Vec2::new(fx(1), fx(1)),
    ));
    assert!(!points_are_colinear(
        &Vec2::new(fx(1), fx(1)),
        &Vec2::new(fx(2), fx(2)),
        &Vec2::new(fx(4), fx(3)),
    ));
}
