pub mod cache;
pub mod config;
pub mod cpu;
pub mod decode;
pub mod keyboard;
pub mod model;
pub mod rng;
pub mod screen;
pub mod semantics;
pub mod step;
