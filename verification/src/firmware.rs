//! The firmware ABI as seen from the host: the entry points the host
//! invokes on the sandboxed instance. The facade and console bridge emit
//! these as values; whichever component owns the sandbox performs them and
//! feeds the replies back.

use vstd::prelude::*;

verus! {

/// One call into a firmware entry point.
#[derive(Clone, Copy, Debug, PartialEq, Eq, Structural)]
pub enum FirmwareCall {
    /// One-time firmware initialization.
    Init,
    /// Advance the firmware's internal scheduler by one quantum; returns a
    /// firmware-defined status code, treated as an opaque diagnostic value.
    IdleTick,
    /// Notify the firmware that a watched pin changed (or register the
    /// watch itself at initialization).
    SendPinWatchEvent { pin: i32 },
    /// Push one console input character event, tagged with the logical
    /// channel it arrived on.
    PushConsoleCharEvent { device: i32, ch: i32 },
    /// Ask which device, if any, has output waiting; the none-sentinel
    /// device id means none.
    GetDeviceWithPendingOutput,
    /// Fetch the next pending output character of one device.
    GetNextOutputChar { device: i32 },
    /// Ask for the linear-memory offset of one framebuffer scan-row.
    GetFramebufferRowPtr { row: i32 },
}

} // verus!
