pub mod traits;
pub mod vector;
pub mod integration;
pub mod interp;
pub mod laws;
pub mod matrix;
