//! Async runner decisions: the mapping from what the runner wakes up on to
//! the facade operation it performs.
//!
//! The runner suspends on a three-way wait — next queued input, tick
//! interval elapsed, shutdown signal — so that ticking and input servicing
//! are both live. Inputs are applied strictly in arrival order (the input
//! queue itself is the channel that delivers them); every operation's
//! drained output is forwarded before the next input is applied; a
//! shutdown lets the operation in flight finish and starts no new one.

use vstd::prelude::*;

verus! {

/// How often the runner ticks the firmware absent external input, in
/// milliseconds: a configuration constant, not derived from input arrival.
pub const TICK_INTERVAL_MS: u64 = 50;

/// One value of the runner's input stream.
pub enum Input {
    /// A console byte sequence to inject.
    Console(Vec<u8>),
    /// A watched pin changed to the given level.
    Pin(u32, bool),
}

/// One value of the runner's output stream.
pub enum Output {
    /// One drained batch of console output bytes.
    Console(Vec<u8>),
}

/// What the runner's three-way wait woke up on.
pub enum RunnerEvent {
    /// The next queued input arrived.
    Arrived(Input),
    /// The tick interval elapsed with no input.
    TickElapsed,
    /// The shutdown signal was observed.
    ShutdownRequested,
}

/// The facade operation the runner performs next.
pub enum RunnerAction {
    /// Inject these bytes as console input, then drain.
    InjectConsole(Vec<u8>),
    /// Notify the firmware of a pin change, then drain.
    InjectPin(u32, bool),
    /// Idle-tick the firmware, then drain.
    Tick,
    /// Exit cooperatively; no new operation starts.
    Stop,
}

/// The runner's decision: each arrived input is applied as the matching
/// facade operation, an elapsed interval ticks the firmware, and a
/// shutdown stops the runner. No event is dropped or reordered into
/// another action.
pub fn runner_step(event: RunnerEvent) -> (r: RunnerAction)
    ensures
        match event {
            RunnerEvent::Arrived(Input::Console(data)) => r matches RunnerAction::InjectConsole(d)
                && d@ == data@,
            RunnerEvent::Arrived(Input::Pin(pin, level)) => r == (RunnerAction::InjectPin(
                pin,
                level,
            )),
            RunnerEvent::TickElapsed => r is Tick,
            RunnerEvent::ShutdownRequested => r is Stop,
        },
{
    match event {
        RunnerEvent::Arrived(Input::Console(data)) => RunnerAction::InjectConsole(data),
        RunnerEvent::Arrived(Input::Pin(pin, level)) => RunnerAction::InjectPin(pin, level),
        RunnerEvent::TickElapsed => RunnerAction::Tick,
        RunnerEvent::ShutdownRequested => RunnerAction::Stop,
    }
}

} // verus!
