//! The plain configuration values the surrounding program hands the core:
//! the program path, the number of cycles per external tick, the trace
//! toggle, and an optional fixed-iteration benchmark count.

use vstd::prelude::*;

use crate::model::CPU_SPEED;

verus! {

/// Configuration consumed by the core as plain values; how they are
/// gathered (command line or otherwise) is the surrounding program's
/// business.
pub struct Config {
    /// Where the program image comes from.
    pub rom_path: String,
    /// Instruction cycles to run per external tick.
    pub speed: usize,
    /// Whether to trace each cycle.
    pub debug: bool,
    /// When set, run exactly this many ticks and stop.
    pub bench: Option<u32>,
}

impl Config {
    /// A configuration with the defaults: the standard speed, no trace,
    /// no benchmark.
    pub fn new(rom_path: String) -> (c: Config)
        ensures
            c.rom_path == rom_path,
            c.speed == CPU_SPEED,
            !c.debug,
            c.bench is None,
    {
        Config { rom_path, speed: CPU_SPEED, debug: false, bench: None }
    }
}

} // verus!
