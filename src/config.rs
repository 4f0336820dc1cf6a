use vstd::prelude::*;
use core::ops::Range;

verus! {

/// Pacing of the kernel boot stage.
pub struct BootConfig {
    /// How many log lines to print (a draw from this range).
    pub log_count_range: Range<usize>,
    /// Delay after each line, in milliseconds (a draw from this range).
    pub log_delay_range: Range<u64>,
    /// Delay after the last line, in milliseconds.
    pub final_delay: u64,
}

impl Default for BootConfig {
    fn default() -> (r: Self)
        ensures
            r.log_count_range.start == 8 && r.log_count_range.end == 15,
            r.log_delay_range.start == 50 && r.log_delay_range.end == 200,
            r.final_delay == 300,
    {
        BootConfig { log_count_range: 8..15, log_delay_range: 50..200, final_delay: 300 }
    }
}

} // verus!
