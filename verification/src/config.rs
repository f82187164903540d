use vstd::prelude::*;

use std::collections::HashSet;

verus! {

/// The emulator's settings, gathered from the command line.
pub struct RuntimeConfig {
    pub rom_file: Option<String>,
    pub breakpoints: HashSet<u16>,
    pub killpoint: Option<u16>,
    pub dump_trace: bool,
    pub dump_mem: bool,
    pub verbose: bool,
}

impl RuntimeConfig {
    /// No ROM, no breakpoints, no killpoint, every option off.
    pub fn new() -> (cfg: Self)
        ensures
            cfg.rom_file is None,
            cfg.breakpoints@ == Set::<u16>::empty(),
            cfg.killpoint is None,
            !cfg.dump_trace,
            !cfg.dump_mem,
            !cfg.verbose,
    {
        RuntimeConfig {
            rom_file: None,
            breakpoints: HashSet::new(),
            killpoint: None,
            dump_trace: false,
            dump_mem: false,
            verbose: false,
        }
    }
}

} // verus!
