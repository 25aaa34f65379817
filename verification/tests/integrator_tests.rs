//! The fixed-step and adaptive Runge-Kutta integrator.

use toolbox::math::integration::integration_utils::DynamicsFunction;
use toolbox::math::integration::integrator::Integrator;
use toolbox::math::traits::Additive;
use toolbox::math::traits::FloatNumber;
use toolbox::math::traits::Multiplicative;
use toolbox::math::traits::Numeric;
use toolbox::math::traits::One;
use toolbox::math::traits::Scalar;
use toolbox::math::traits::Zero;

#[derive(Debug, Default, Clone, Copy, PartialEq, PartialOrd)]
struct F64(f64);

impl Scalar for F64 {}

impl Zero for F64 {
    fn zero() -> F64 {
        F64(0.)
    }
}

impl One for F64 {
    fn one() -> F64 {
        F64(1.)
    }
}

impl Additive for F64 {
    fn add(self, other: F64) -> F64 {
        F64(self.0 + other.0)
    }

    fn sub(self, other: F64) -> F64 {
        F64(self.0 - other.0)
    }
}

impl Multiplicative for F64 {
    fn mul(self, other: F64) -> F64 {
        F64(self.0 * other.0)
    }

    fn div(self, other: F64) -> F64 {
        F64(self.0 / other.0)
    }

    fn neg(self) -> F64 {
        F64(-self.0)
    }
}

impl Numeric for F64 {
    fn lt(self, other: F64) -> bool {
        self.0 < other.0
    }

    fn eq_zero(self) -> bool {
        self.0 == 0.
    }
}

impl FloatNumber for F64 {
    fn sqrt(self) -> F64 {
        F64(self.0.sqrt())
    }

    fn default_tolerance() -> F64 {
        F64(1e-9)
    }
}

/// `dy/dt = -y`: exponential decay.
#[derive(Debug, Clone, Copy)]
struct Decay;

impl DynamicsFunction<F64, (), 1> for Decay {
    fn ddt(&self, state: &[F64; 1], _args: ()) -> [F64; 1] {
        [F64(-state[0].0)]
    }
}

/// `dy/dt = rate * y`, with the rate handed through the auxiliary
/// arguments.
#[derive(Debug, Clone, Copy)]
struct ScaledGrowth;

impl DynamicsFunction<F64, F64, 1> for ScaledGrowth {
    fn ddt(&self, state: &[F64; 1], args: F64) -> [F64; 1] {
        [F64(args.0 * state[0].0)]
    }
}

#[test]
fn hundred_decay_steps_reach_inverse_e() {
    let mut integrator = Integrator::build([F64(1.)], F64(0.01), Decay, ());
    let mut last = [F64(0.)];
    for _ in 0..100 {
        last = integrator.step();
    }
    let expected = (-1.0f64).exp();
    assert!((last[0].0 - expected).abs() < 1e-3);
    assert!((integrator.time().0 - 1.).abs() < 1e-12);
    assert!(integrator.state()[0] == last[0]);
}

#[test]
fn adaptive_step_converges_on_a_stiff_function() {
    // A fast-varying derivative and a large initial step: the controller
    // must halve the step until the error estimate is within tolerance,
    // terminate, and commit an accepted step.
    let mut integrator = Integrator::build([F64(1.)], F64(1.0), ScaledGrowth, F64(-50.));
    let out = integrator.step_dynamic();
    assert!(out.is_some());
    let committed_dt = integrator.dt().0 / 2.;
    assert!(committed_dt < 1.0);
    assert!(integrator.time().0 == committed_dt);
    // The committed state is the full RK4 step of the accepted size, so
    // it must stay near the true decaying solution.
    let y = out.unwrap()[0].0;
    let expected = (-50.0f64 * committed_dt).exp();
    assert!((y - expected).abs() < 1e-2);
}

#[test]
fn adaptive_step_gives_up_when_no_tolerance_can_be_met() {
    let mut integrator = Integrator::build([F64(1.)], F64(1.0), ScaledGrowth, F64(-50.));
    *integrator.tolerance_mut() = F64(-1.0);
    let before_dt = integrator.dt();
    let before_time = integrator.time();
    assert!(integrator.step_dynamic().is_none());
    assert!(integrator.dt() == before_dt);
    assert!(integrator.time() == before_time);
    assert!(integrator.state() == [F64(1.)]);
}

#[test]
fn integration_step_leaves_the_integrator_unchanged() {
    let mut integrator = Integrator::build([F64(1.)], F64(0.5), Decay, ());
    let preview = integrator.integration_step();
    assert!(integrator.state() == [F64(1.)]);
    assert!(integrator.time() == F64(0.));
    let stepped = integrator.step();
    assert!(preview == stepped);
    assert!(integrator.time() == F64(0.5));
}

#[test]
fn accessors_and_mutators() {
    let mut integrator = Integrator::build([F64(2.)], F64(0.1), ScaledGrowth, F64(3.));
    assert!(integrator.dt() == F64(0.1));
    assert!(integrator.tolerance() == F64(1e-9));
    assert!(integrator.time() == F64(0.));
    assert!(integrator.ddt_fn_args() == F64(3.));
    *integrator.dt_mut() = F64(0.2);
    *integrator.tolerance_mut() = F64(1e-6);
    *integrator.ddt_fn_args_mut() = F64(4.);
    *integrator.ddt_fn_mut() = ScaledGrowth;
    assert!(integrator.dt() == F64(0.2));
    assert!(integrator.tolerance() == F64(1e-6));
    assert!(integrator.ddt_fn_args() == F64(4.));
    let f = integrator.ddt_fn();
    assert!(f.ddt(&[F64(2.)], F64(4.))[0] == F64(8.));
}
