pub mod integration_utils;
pub mod integrator;
