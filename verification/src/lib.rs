//! A small math toolbox: fixed-dimension vectors and matrices over a generic
//! scalar type, and a fourth-order Runge-Kutta integrator with adaptive step
//! control, with machine-checked contracts for every operation.

pub mod containers;
pub mod math;
