//! Fault taxonomy of the host bridge: every bounds violation in a host
//! function is fatal to the current firmware call.

use vstd::prelude::*;

verus! {

/// A bridge fault: an out-of-bounds index, offset or length in a host
/// function. Always fatal to the current firmware call; never a silently
/// wrapped or truncated access.
#[derive(Clone, Copy, Debug, PartialEq, Eq, Structural)]
pub enum Fault {
    /// A flash read index at or past the end of the flash store.
    FlashIndexOutOfBounds,
    /// A flash write whose destination range leaves the flash store.
    FlashRangeOutOfBounds,
    /// A flash write whose source range leaves the sandbox's linear memory.
    MemoryRangeOutOfBounds,
    /// A pin index at or past the end of the pin bank.
    PinIndexOutOfBounds,
}

} // verus!
