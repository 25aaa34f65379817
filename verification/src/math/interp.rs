//! A linear interpolator: starting from one value, repeatedly add (or
//! subtract) a fixed step computed from the distance to an end value and
//! a step count.

use vstd::prelude::*;

use super::traits::Numeric;

verus! {

/// A running interpolation from a start value towards an end value in a
/// fixed number of equal steps.
#[derive(Debug, Clone, Copy)]
pub struct Interpolator<T> {
    pub curr: T,
    pub step: T,
    pub steps: T,
}

impl<T: Numeric> Interpolator<T> {
    /// An interpolator at `start` whose step is the distance to `end`
    /// divided by `steps`.
    pub fn build(start: T, end: T, steps: T) -> (r: Self)
        ensures
            r == (Interpolator { curr: start, step: end.sub_spec(start).div_spec(steps), steps }),
    {
        Self { curr: start, step: end.sub(start).div(steps), steps }
    }

    /// The current value; afterwards the interpolator has moved one step
    /// forward.
    pub fn progress(&mut self) -> (r: T)
        ensures
            r == old(self).curr,
            *final(self) == (Interpolator {
                curr: old(self).curr.add_spec(old(self).step),
                ..*old(self)
            }),
    {
        let out = self.curr;
        self.curr = self.curr.add(self.step);
        out
    }

    /// The current value; afterwards the interpolator has moved one step
    /// backward.
    pub fn regress(&mut self) -> (r: T)
        ensures
            r == old(self).curr,
            *final(self) == (Interpolator {
                curr: old(self).curr.sub_spec(old(self).step),
                ..*old(self)
            }),
    {
        let out = self.curr;
        self.curr = self.curr.sub(self.step);
        out
    }
}

/// A value iterator over the points of an interpolation: it yields the
/// current value and advances, `steps` many times.
#[derive(Debug, Clone, Copy)]
pub struct Iter<T> {
    pub interp: Interpolator<T>,
    pub steps: T,
}

impl<T: Numeric> Iter<T> {
    /// An iterator over as many interpolation points as the interpolator
    /// was built for.
    pub fn new(interp: &Interpolator<T>) -> (r: Self)
        ensures
            r == (Iter { interp: *interp, steps: interp.steps }),
    {
        Self { interp: *interp, steps: interp.steps }
    }

    /// The next interpolation point, or nothing once `steps` many have
    /// been yielded.
    pub fn next(&mut self) -> (r: Option<T>)
        ensures
            !T::zero_spec().lt_spec(old(self).steps) ==> r is None && *final(self) == *old(self),
            T::zero_spec().lt_spec(old(self).steps) ==> {
                &&& r == Some(old(self).interp.curr)
                &&& *final(self) == (Iter {
                    interp: Interpolator {
                        curr: old(self).interp.curr.add_spec(old(self).interp.step),
                        ..old(self).interp
                    },
                    steps: old(self).steps.sub_spec(T::one_spec()),
                })
            },
    {
        if !T::zero().lt(self.steps) {
            return None;
        }
        self.steps = self.steps.sub(T::one());
        Some(self.interp.progress())
    }
}

} // verus!
