pub mod buffer;
pub mod heapless;
pub mod rolling_history;
