//! Console bridge: a character-oriented duplex channel over the firmware's
//! own entry points.
//!
//! Output is drained by polling two entry points — "which device, if any,
//! has output waiting" and "give me its next character" — in a loop until
//! the device query returns the none-sentinel; the bytes are accumulated in
//! call order and handed out as one ordered batch per drain cycle. Input is
//! injected by one push-character call per byte, each tagged with the fixed
//! interactive-console device identifier; the host owns no input queue of
//! its own.

use vstd::prelude::*;

use crate::firmware::FirmwareCall;
use crate::CONSOLE_DEVICE;

verus! {

/// The device id the output-pending query returns when no device has
/// output waiting.
pub const NO_DEVICE: i32 = 0;

/// The push-character calls that inject `data` as console input: one call
/// per byte, tagged with the interactive-console device id, in the
/// original order.
pub open spec fn input_calls_spec(data: Seq<u8>) -> Seq<FirmwareCall> {
    Seq::new(
        data.len(),
        |k: int| FirmwareCall::PushConsoleCharEvent { device: CONSOLE_DEVICE, ch: data[k] as i32 },
    )
}

/// Emits the per-byte push-character calls that inject `data` as console
/// input, in the original order.
pub fn console_input_calls(data: &[u8]) -> (r: Vec<FirmwareCall>)
    ensures
        r@ == input_calls_spec(data@),
        r@.len() == data@.len(),
        forall|k: int|
            0 <= k < data@.len()
                ==> #[trigger] r@[k] == (FirmwareCall::PushConsoleCharEvent {
                    device: CONSOLE_DEVICE,
                    ch: data@[k] as i32,
                }),
{
    let mut out: Vec<FirmwareCall> = Vec::new();
    let mut i: usize = 0;
    while i < data.len()
        invariant
            i <= data@.len(),
            out@.len() == i,
            forall|k: int|
                0 <= k < i
                    ==> #[trigger] out@[k] == (FirmwareCall::PushConsoleCharEvent {
                        device: CONSOLE_DEVICE,
                        ch: data@[k] as i32,
                    }),
        decreases data@.len() - i,
    {
        out.push(FirmwareCall::PushConsoleCharEvent { device: CONSOLE_DEVICE, ch: data[i] as i32 });
        i = i + 1;
    }
    proof {
        assert(out@ =~= input_calls_spec(data@));
    }
    out
}

/// Where a drain cycle stands: about to ask which device has output, about
/// to ask a specific device for its next character, or finished because the
/// none-sentinel came back.
#[derive(Clone, Copy, Debug, PartialEq, Eq, Structural)]
pub enum DrainPhase {
    /// The next call is the output-pending device query.
    AskDevice,
    /// The next call fetches the next character of this device.
    AskChar(i32),
    /// The none-sentinel was returned; the cycle is over.
    Finished,
}

/// One output drain cycle. The driver alternates `next_call` with the
/// matching reply handler until the phase is `Finished`; the collected
/// bytes are then exactly the characters the firmware handed back, in call
/// order.
pub struct DrainCycle {
    /// The output bytes accumulated so far, in call order.
    pub collected: Vec<u8>,
    /// Where the cycle stands.
    pub phase: DrainPhase,
}

impl DrainCycle {
    /// The abstract value: the batch drained so far.
    pub open spec fn view(&self) -> Seq<u8> {
        self.collected@
    }

    /// A fresh cycle: nothing collected, the device query up next.
    pub fn new() -> (r: Self)
        ensures
            r@ == Seq::<u8>::empty(),
            r.phase == DrainPhase::AskDevice,
    {
        DrainCycle { collected: Vec::new(), phase: DrainPhase::AskDevice }
    }

    /// The firmware call the cycle is waiting on, if it is not finished.
    pub fn next_call(&self) -> (r: Option<FirmwareCall>)
        ensures
            match self.phase {
                DrainPhase::AskDevice => r == Some(FirmwareCall::GetDeviceWithPendingOutput),
                DrainPhase::AskChar(d) => r == Some(
                    FirmwareCall::GetNextOutputChar { device: d },
                ),
                DrainPhase::Finished => r is None,
            },
    {
        match self.phase {
            DrainPhase::AskDevice => Some(FirmwareCall::GetDeviceWithPendingOutput),
            DrainPhase::AskChar(d) => Some(FirmwareCall::GetNextOutputChar { device: d }),
            DrainPhase::Finished => None,
        }
    }

    /// Consumes the reply to the device query: the none-sentinel finishes
    /// the cycle, any other device id is asked for its next character.
    /// The collected batch is unchanged either way.
    pub fn on_device(&mut self, device: i32)
        requires
            old(self).phase == DrainPhase::AskDevice,
        ensures
            final(self)@ == old(self)@,
            device == NO_DEVICE ==> final(self).phase == DrainPhase::Finished,
            device != NO_DEVICE ==> final(self).phase == DrainPhase::AskChar(device),
    {
        if device == NO_DEVICE {
            self.phase = DrainPhase::Finished;
        } else {
            self.phase = DrainPhase::AskChar(device);
        }
    }

    /// Consumes the reply to a next-character call: the character's low
    /// byte is appended to the batch and the device query comes next.
    pub fn on_char(&mut self, ch: i32)
        requires
            old(self).phase is AskChar,
        ensures
            final(self)@ == old(self)@.push(ch as u8),
            final(self).phase == DrainPhase::AskDevice,
    {
        self.collected.push(ch as u8);
        self.phase = DrainPhase::AskDevice;
    }

    /// Hands out the drained batch.
    pub fn into_output(self) -> (r: Vec<u8>)
        requires
            self.phase == DrainPhase::Finished,
        ensures
            r@ == self@,
    {
        self.collected
    }
}

/// The batch a full drain cycle collects when the firmware hands back the
/// characters `chars`: exactly their low bytes, in order.
pub open spec fn drained_bytes(chars: Seq<i32>) -> Seq<u8> {
    Seq::new(chars.len(), |k: int| chars[k] as u8)
}

/// A full drain cycle, run against recorded firmware replies: `devices`
/// holds the answer to each output-pending poll (a device for every
/// pending character, then the none-sentinel) and `chars` the character
/// each announced device handed back. The cycle finishes on the sentinel,
/// and the batch it returns is exactly the characters the firmware gave,
/// in call order — nothing dropped, reordered or returned twice.
pub fn drain_with_replies(devices: &[i32], chars: &[i32]) -> (r: Vec<u8>)
    requires
        devices@.len() == chars@.len() + 1,
        forall|k: int| 0 <= k < chars@.len() ==> devices@[k] != NO_DEVICE,
        devices@.last() == NO_DEVICE,
    ensures
        r@ == drained_bytes(chars@),
{
    let mut cycle = DrainCycle::new();
    let mut k: usize = 0;
    while k < chars.len()
        invariant
            k <= chars@.len(),
            devices@.len() == chars@.len() + 1,
            forall|j: int| 0 <= j < chars@.len() ==> devices@[j] != NO_DEVICE,
            cycle.phase == DrainPhase::AskDevice,
            cycle@ == drained_bytes(chars@).subrange(0, k as int),
        decreases chars@.len() - k,
    {
        cycle.on_device(devices[k]);
        cycle.on_char(chars[k]);
        proof {
            assert(drained_bytes(chars@).subrange(0, k + 1) =~= drained_bytes(chars@).subrange(
                0,
                k as int,
            ).push(chars@[k as int] as u8));
        }
        k = k + 1;
    }
    cycle.on_device(devices[chars.len()]);
    proof {
        assert(drained_bytes(chars@).subrange(0, chars@.len() as int) =~= drained_bytes(chars@));
    }
    cycle.into_output()
}

} // verus!
