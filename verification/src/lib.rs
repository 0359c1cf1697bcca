pub mod cancel;
pub mod config;
pub mod counters;
pub mod dispatch;
pub mod gate;
pub mod limiter;
pub mod screen;
