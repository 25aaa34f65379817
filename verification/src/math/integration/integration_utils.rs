//! The caller-supplied derivative function of the integrator.

use vstd::prelude::*;

use super::super::traits::Numeric;

verus! {

/// A derivative function `f` for the integrator: a pure mapping from a
/// state vector (and auxiliary arguments) to a derivative vector.  A
/// caller supplies it by implementing this trait; `ddt_spec` is the
/// mathematical model of the mapping, and `ddt` must compute exactly it.
/// Every integrator contract is stated in terms of `ddt_spec`, so whatever
/// a caller proves or tests about an integration run is relative to its
/// own derivative function behaving as modelled.
pub trait DynamicsFunction<T: Numeric, D, const N: usize>: Sized {
    /// The derivative of the state, at the specification level.
    open spec fn ddt_spec(&self, state: Seq<T>, args: D) -> Seq<T> {
        vstd::pervasive::arbitrary()
    }

    /// Evaluate the derivative at one state.
    fn ddt(&self, state: &[T; N], args: D) -> (r: [T; N])
        ensures
            r@ == self.ddt_spec(state@, args),
    ;
}

} // verus!
