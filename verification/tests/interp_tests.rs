//! The linear interpolator.

use toolbox::math::interp::Interpolator;
use toolbox::math::interp::Iter;
use toolbox::math::traits::Additive;
use toolbox::math::traits::Multiplicative;
use toolbox::math::traits::Numeric;
use toolbox::math::traits::One;
use toolbox::math::traits::Scalar;
use toolbox::math::traits::Zero;

#[derive(Debug, Default, Clone, Copy, PartialEq, PartialOrd)]
struct I32(i32);

impl Scalar for I32 {}

impl Zero for I32 {
    fn zero() -> I32 {
        I32(0)
    }
}

impl One for I32 {
    fn one() -> I32 {
        I32(1)
    }
}

impl Additive for I32 {
    fn add(self, other: I32) -> I32 {
        I32(self.0 + other.0)
    }

    fn sub(self, other: I32) -> I32 {
        I32(self.0 - other.0)
    }
}

impl Multiplicative for I32 {
    fn mul(self, other: I32) -> I32 {
        I32(self.0 * other.0)
    }

    fn div(self, other: I32) -> I32 {
        I32(self.0 / other.0)
    }

    fn neg(self) -> I32 {
        I32(-self.0)
    }
}

impl Numeric for I32 {
    fn lt(self, other: I32) -> bool {
        self.0 < other.0
    }

    fn eq_zero(self) -> bool {
        self.0 == 0
    }
}

#[test]
fn interpolation() {
    let interp = Interpolator::build(I32(0), I32(1000), I32(1000));
    let mut counter: i32 = 0;
    let mut iter = Iter::new(&interp);
    while let Some(interp_value) = iter.next() {
        assert!(interp_value == I32(counter));
        counter += 1;
    }
    assert!(counter == 1000);
}

#[test]
fn progress_and_regress() {
    let mut interp = Interpolator::build(I32(10), I32(20), I32(5));
    assert!(interp.step == I32(2));
    assert!(interp.progress() == I32(10));
    assert!(interp.progress() == I32(12));
    assert!(interp.curr == I32(14));
    assert!(interp.regress() == I32(14));
    assert!(interp.curr == I32(12));
}
