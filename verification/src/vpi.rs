//! Time query over the alternative raw interface generation.

use vstd::prelude::*;

verus! {

/// Get the current simulation time in simulation time units, composed from
/// the high and low 32-bit words of the time record that the raw interface
/// filled in.
pub fn get_time(high: u32, low: u32) -> (t: u64)
    ensures
        t == (high as u64) * 0x1_0000_0000 + (low as u64),
{
    (high as u64) * 0x1_0000_0000 + (low as u64)
}

} // verus!
