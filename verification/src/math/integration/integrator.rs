//! A classical fourth-order Runge-Kutta integrator with an adaptive
//! step-doubling variant.
//!
//! `rk4_spec` is the specification of one RK4 update; `step` commits it
//! and advances time.  `step_dynamic` estimates the local error of a full
//! step by comparing it against two half steps from the same state,
//! halves the step size while the squared error exceeds the tolerance,
//! and gives up with `None` after a fixed number of halvings instead of
//! retrying forever; `adaptive_spec` is the recursion it is proved to
//! implement.

use vstd::prelude::*;

use super::super::traits::FloatNumber;
use super::super::traits::Numeric;
use super::super::vector::dot_seq;
use super::super::vector::vadd_seq;
use super::super::vector::vscale_seq;
use super::super::vector::BasicVectorOps;
use super::super::vector::VectorN;
use super::integration_utils::DynamicsFunction;

verus! {

/// How many times one `step_dynamic` call will halve the step size before
/// reporting that the error tolerance cannot be met.
pub const MAX_STEP_HALVINGS: usize = 64;

/// `one + one`: the scalar two, built from the trait identities.
pub open spec fn two_spec<T: Numeric>() -> T {
    T::one_spec().add_spec(T::one_spec())
}

/// The scalar three.
pub open spec fn three_spec<T: Numeric>() -> T {
    two_spec::<T>().add_spec(T::one_spec())
}

/// The scalar six.
pub open spec fn six_spec<T: Numeric>() -> T {
    three_spec::<T>().add_spec(three_spec::<T>())
}

/// The scalar one half.
pub open spec fn half_spec<T: Numeric>() -> T {
    T::one_spec().div_spec(two_spec::<T>())
}

/// The scalar one third.
pub open spec fn third_spec<T: Numeric>() -> T {
    T::one_spec().div_spec(three_spec::<T>())
}

/// The scalar one sixth.
pub open spec fn sixth_spec<T: Numeric>() -> T {
    T::one_spec().div_spec(six_spec::<T>())
}

/// A fourth-order Runge-Kutta integrator: the current state vector, the
/// time reached so far, the step size, the caller's derivative function
/// with its auxiliary arguments, and the error tolerance used by the
/// adaptive variant.
#[derive(Debug, Clone, Copy)]
pub struct Integrator<T, D, F, const N: usize> {
    pub state: VectorN<T, N>,
    pub dt: T,
    pub ddt_fn: F,
    pub ddt_fn_args: D,
    pub time: T,
    pub tolerance: T,
}

impl<T, D, F, const N: usize> Integrator<T, D, F, N> where
    T: FloatNumber,
    D: Clone + Copy,
    F: DynamicsFunction<T, D, N> + Clone + Copy,
 {
    /// One RK4 update of `state` with step size `dt`:
    /// `k1 = f(s)`, `k2 = f(s + k1*dt/2)`, `k3 = f(s + k2*dt/2)`,
    /// `k4 = f(s + k3*dt)`, giving `s + (k1+k4)*(dt/6) + (k2+k3)*(dt/3)`.
    pub open spec fn rk4_spec(&self, state: Seq<T>, dt: T) -> Seq<T> {
        let k1 = self.ddt_fn.ddt_spec(state, self.ddt_fn_args);
        let k2 = self.ddt_fn.ddt_spec(
            vadd_seq(state, vscale_seq(k1, dt.mul_spec(half_spec::<T>()))),
            self.ddt_fn_args,
        );
        let k3 = self.ddt_fn.ddt_spec(
            vadd_seq(state, vscale_seq(k2, dt.mul_spec(half_spec::<T>()))),
            self.ddt_fn_args,
        );
        let k4 = self.ddt_fn.ddt_spec(vadd_seq(state, vscale_seq(k3, dt)), self.ddt_fn_args);
        vadd_seq(
            vadd_seq(state, vscale_seq(vadd_seq(k1, k4), dt.mul_spec(sixth_spec::<T>()))),
            vscale_seq(vadd_seq(k2, k3), dt.mul_spec(third_spec::<T>())),
        )
    }

    /// Two consecutive RK4 updates of half the step size each: the
    /// "oracle" trajectory that the full step is compared against.
    pub open spec fn oracle_spec(&self, state: Seq<T>, dt: T) -> Seq<T> {
        self.rk4_spec(
            self.rk4_spec(state, dt.mul_spec(half_spec::<T>())),
            dt.mul_spec(half_spec::<T>()),
        )
    }

    /// The local error estimate of one step: the squared distance between
    /// the oracle state and the full-step state.
    pub open spec fn error_spec(&self, state: Seq<T>, dt: T) -> T {
        let diff = vadd_seq(
            vscale_seq(self.rk4_spec(state, dt), T::one_spec().neg_spec()),
            self.oracle_spec(state, dt),
        );
        dot_seq(diff, diff)
    }

    /// Whether a step of size `dt` from the current state is committed:
    /// an error estimate equal to the tolerance is accepted, only a
    /// strictly greater one forces a retry.
    pub open spec fn accepted_spec(&self, dt: T) -> bool {
        !self.tolerance.lt_spec(self.error_spec(self.state.inner@, dt))
    }

    /// What the adaptive step yields from the current state with step
    /// size `dt` and `fuel` halvings left: the committed state, the new
    /// time, and the doubled step size of the first accepted attempt, or
    /// nothing if every attempt is rejected.
    pub open spec fn adaptive_spec(&self, dt: T, fuel: nat) -> Option<(Seq<T>, T, T)>
        decreases fuel,
    {
        if self.accepted_spec(dt) {
            Some(
                (
                    self.rk4_spec(self.state.inner@, dt),
                    self.time.add_spec(dt),
                    dt.mul_spec(two_spec::<T>()),
                ),
            )
        } else if fuel == 0 {
            None
        } else {
            self.adaptive_spec(dt.mul_spec(half_spec::<T>()), (fuel - 1) as nat)
        }
    }

    /// A new integrator at time `zero` with the default tolerance.
    pub fn build(state: [T; N], dt: T, dynamics: F, args: D) -> (r: Self)
        ensures
            r == (Integrator {
                state: VectorN { inner: state },
                dt,
                ddt_fn: dynamics,
                ddt_fn_args: args,
                time: T::zero_spec(),
                tolerance: T::default_tolerance_spec(),
            }),
    {
        Self {
            state: VectorN::build(state),
            dt,
            ddt_fn: dynamics,
            ddt_fn_args: args,
            time: T::zero(),
            tolerance: T::default_tolerance(),
        }
    }

    /// The current state as an array of components.
    pub fn state(&self) -> (r: [T; N])
        ensures
            r@ == self.state.inner@,
    {
        self.state.array()
    }

    /// The current step size.
    pub fn dt(&self) -> (r: T)
        ensures
            r == self.dt,
    {
        self.dt
    }

    /// The step size, writable in place.
    pub fn dt_mut(&mut self) -> (r: &mut T)
        ensures
            *r == old(self).dt,
            *final(self) == (Integrator { dt: *final(r), ..*old(self) }),
    {
        &mut self.dt
    }

    /// The derivative function.
    pub fn ddt_fn(&self) -> (r: F)
        ensures
            r == self.ddt_fn,
    {
        self.ddt_fn
    }

    /// The derivative function, writable in place.
    pub fn ddt_fn_mut(&mut self) -> (r: &mut F)
        ensures
            *r == old(self).ddt_fn,
            *final(self) == (Integrator { ddt_fn: *final(r), ..*old(self) }),
    {
        &mut self.ddt_fn
    }

    /// The auxiliary arguments handed to the derivative function.
    pub fn ddt_fn_args(&self) -> (r: D)
        ensures
            r == self.ddt_fn_args,
    {
        self.ddt_fn_args
    }

    /// The auxiliary arguments, writable in place.
    pub fn ddt_fn_args_mut(&mut self) -> (r: &mut D)
        ensures
            *r == old(self).ddt_fn_args,
            *final(self) == (Integrator { ddt_fn_args: *final(r), ..*old(self) }),
    {
        &mut self.ddt_fn_args
    }

    /// The time reached so far.
    pub fn time(&self) -> (r: T)
        ensures
            r == self.time,
    {
        self.time
    }

    /// The error tolerance of the adaptive variant.
    pub fn tolerance(&self) -> (r: T)
        ensures
            r == self.tolerance,
    {
        self.tolerance
    }

    /// The error tolerance, writable in place.
    pub fn tolerance_mut(&mut self) -> (r: &mut T)
        ensures
            *r == old(self).tolerance,
            *final(self) == (Integrator { tolerance: *final(r), ..*old(self) }),
    {
        &mut self.tolerance
    }

    /// One RK4 update of `state` with step size `dt`, without touching
    /// the integrator.
    fn step_with(&self, state: &[T; N], dt: T) -> (r: [T; N])
        ensures
            r@ == self.rk4_spec(state@, dt),
    {
        let one = T::one();
        let two = one.add(one);
        let three = two.add(one);
        let six = three.add(three);
        let one_2 = one.div(two);
        let one_3 = one.div(three);
        let one_6 = one.div(six);
        let args = self.ddt_fn_args;

        let s = VectorN::build(*state);
        let k1 = VectorN::build(self.ddt_fn.ddt(state, args));
        let s2 = s.add(k1.mul_scalar(dt.mul(one_2)));
        let k2 = VectorN::build(self.ddt_fn.ddt(&s2.inner, args));
        let s3 = s.add(k2.mul_scalar(dt.mul(one_2)));
        let k3 = VectorN::build(self.ddt_fn.ddt(&s3.inner, args));
        let s4 = s.add(k3.mul_scalar(dt));
        let k4 = VectorN::build(self.ddt_fn.ddt(&s4.inner, args));

        let out = s.add(k1.add(k4).mul_scalar(dt.mul(one_6))).add(
            k2.add(k3).mul_scalar(dt.mul(one_3)),
        );
        out.inner
    }

    /// The RK4 update that one `step` call would commit, from the current
    /// state with the current step size, without mutating anything.
    pub fn integration_step(&self) -> (r: [T; N])
        ensures
            r@ == self.rk4_spec(self.state.inner@, self.dt),
    {
        self.step_with(&self.state.array(), self.dt)
    }

    /// Commit one fixed-size RK4 update: replace the state and advance
    /// the time by `dt`.  Returns the new state.
    pub fn step(&mut self) -> (r: [T; N])
        ensures
            *final(self) == (Integrator {
                state: VectorN { inner: r },
                time: old(self).time.add_spec(old(self).dt),
                ..*old(self)
            }),
            r@ == old(self).rk4_spec(old(self).state.inner@, old(self).dt),
    {
        self.time = self.time.add(self.dt);
        let next = self.step_with(&self.state.array(), self.dt);
        self.state = VectorN::build(next);
        next
    }

    /// One adaptive step with step-doubling error control.  Starting from
    /// the current step size, estimate the local error of a full step
    /// against two half steps; while the squared error strictly exceeds
    /// the tolerance, halve the step size, up to `MAX_STEP_HALVINGS`
    /// times.  On acceptance commit the full step, advance the time by
    /// the accepted step size, double the step size for the next call,
    /// and return the new state.  If no attempt is accepted, leave the
    /// integrator unchanged and return nothing.
    pub fn step_dynamic(&mut self) -> (r: Option<[T; N]>)
        ensures
            match old(self).adaptive_spec(old(self).dt, MAX_STEP_HALVINGS as nat) {
                Some(outcome) => {
                    &&& r matches Some(arr)
                    &&& arr@ == outcome.0
                    &&& *final(self) == (Integrator {
                        state: VectorN { inner: arr },
                        time: outcome.1,
                        dt: outcome.2,
                        ..*old(self)
                    })
                },
                None => {
                    &&& r is None
                    &&& *final(self) == *old(self)
                },
            },
    {
        let one = T::one();
        let two = one.add(one);
        let one_2 = one.div(two);

        let mut dt = self.dt;
        let mut halvings: usize = 0;
        loop
            invariant
                *self == *old(self),
                halvings <= MAX_STEP_HALVINGS,
                self.adaptive_spec(self.dt, MAX_STEP_HALVINGS as nat) == self.adaptive_spec(
                    dt,
                    (MAX_STEP_HALVINGS - halvings) as nat,
                ),
                one == T::one_spec(),
                one_2 == half_spec::<T>(),
                two == two_spec::<T>(),
            decreases MAX_STEP_HALVINGS - halvings,
        {
            let state = self.state.array();
            let full = self.step_with(&state, dt);
            let half_dt = dt.mul(one_2);
            let mid = self.step_with(&state, half_dt);
            let oracle = self.step_with(&mid, half_dt);

            let diff = VectorN::build(full).mul_scalar(one.neg()).add(VectorN::build(oracle));
            let error = diff.squared_length();
            proof {
                assert(oracle@ == self.oracle_spec(self.state.inner@, dt));
                assert(error == self.error_spec(self.state.inner@, dt));
            }
            if !self.tolerance.lt(error) {
                self.state = VectorN::build(full);
                self.time = self.time.add(dt);
                self.dt = dt.mul(two);
                return Some(full);
            }
            if halvings == MAX_STEP_HALVINGS {
                return None;
            }
            halvings = halvings + 1;
            dt = dt.mul(one_2);
        }
    }
}

} // verus!
