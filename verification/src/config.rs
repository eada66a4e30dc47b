//! Startup configuration gathered from the command line.

use vstd::prelude::*;

verus! {

/// Everything the launcher needs to build the machine and the logger: the
/// paths, the optional verbosity, and the CPU-log switch. Populated once at
/// startup; not part of the runtime loop contract.
pub struct NESConfig<'a> {
    pub rom_path: &'a str,
    pub palette_path: Option<&'a str>,
    pub save_path: &'a str,
    pub state_path: &'a str,
    pub load_state: bool,
    pub debug_level: Option<&'a str>,
    pub display_cpu_logs: bool,
}

} // verus!
