//! A safe interface layer between host code and a hardware simulator's
//! foreign procedure interface.
//!
//! The library models the simulator-owned state (the scope table and the
//! current-scope cell) as an explicit [`dpi::ScopeTable`] value that every
//! operation takes as an argument, so the scope-handle layer is an ordinary
//! request/response surface over that state.  The marshaling layer maps a
//! closed set of host primitive types onto their wire representations and
//! wraps them in direction-restricted parameter envelopes.

use vstd::prelude::*;

pub mod dpi;
pub mod vpi;

pub use dpi::set_scope;
pub use dpi::set_scope_by_name;
pub use dpi::SvScope;

verus! {

/// Get the current simulation time in simulation time units, composed from
/// the two 32-bit words of the time record that the raw interface filled in.
pub fn get_time(high: u32, low: u32) -> (t: u64)
    ensures
        t == (high as u64) * 0x1_0000_0000 + (low as u64),
{
    vpi::get_time(high, low)
}

} // verus!
