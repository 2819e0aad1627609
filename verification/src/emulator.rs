//! Emulator facade: sequences the firmware lifecycle over the emulated
//! peripherals.
//!
//! The lifecycle is one-way: uninitialized, then initialized (the init
//! entry point called exactly once and a pin watch registered for the
//! button pin), then running, with a terminal faulted state entered on any
//! unrecovered trap or bridge fault. Operations that may produce firmware
//! output are each followed by one console drain cycle, run by whichever
//! component owns the sandbox instance; the facade emits the calls each
//! operation makes and owns the peripheral state the host functions read
//! and write.

use vstd::prelude::*;

use crate::console::input_calls_spec;
use crate::console::console_input_calls;
use crate::fault::Fault;
use crate::firmware::FirmwareCall;
use crate::flash::FlashStore;
use crate::pins::PinBank;
use crate::{erased_flash, initial_pins, BUTTON_PIN, ERASED_BYTE, FLASH_SIZE, PIN_COUNT};

verus! {

/// Where the facade stands in the firmware lifecycle.
#[derive(Clone, Copy, Debug, PartialEq, Eq, Structural)]
pub enum Phase {
    /// Instance created and imports wired, but no entry point called yet.
    Uninitialized,
    /// The init entry point has been called and the button-pin watch
    /// registered; the initial drain has not finished yet.
    Initialized,
    /// Normal steady state.
    Running,
    /// Terminal: an unrecovered trap or bridge fault; no further
    /// operations are permitted.
    Faulted,
}

/// An operation issued against the wrong lifecycle phase, or with an
/// argument no firmware call may carry.
#[derive(Clone, Copy, Debug, PartialEq, Eq, Structural)]
pub enum EmuError {
    /// The operation is not available in the facade's current phase.
    WrongPhase,
    /// A pin-watch event for an index outside the pin bank.
    PinOutOfRange,
}

/// The emulator facade: the peripheral state plus the lifecycle phase.
pub struct Emulator {
    /// The emulated flash store.
    pub flash: FlashStore,
    /// The emulated pin bank.
    pub pins: PinBank,
    /// Where the facade stands in the lifecycle.
    pub phase: Phase,
}

impl Emulator {
    /// Well-formedness: both peripherals hold their fixed sizes.
    pub open spec fn wf(&self) -> bool {
        self.flash.wf() && self.pins.wf()
    }

    /// Constructs the facade with an erased flash store, or one seeded
    /// with the supplied contents; the pin bank is in its initial state
    /// and no entry point has been called.
    pub fn new(flash_contents: Option<&Vec<u8>>) -> (r: Self)
        requires
            flash_contents matches Some(c) ==> c@.len() <= FLASH_SIZE,
        ensures
            r.wf(),
            r.phase == Phase::Uninitialized,
            r.pins@ == initial_pins(),
            flash_contents is None ==> r.flash@ == erased_flash(),
            flash_contents matches Some(c) ==> {
                &&& forall|k: int| 0 <= k < c@.len() ==> r.flash@[k] == c@[k]
                &&& forall|k: int| c@.len() <= k < FLASH_SIZE ==> r.flash@[k] == ERASED_BYTE
            },
    {
        let flash = match flash_contents {
            Some(c) => FlashStore::new_with_contents(c.as_slice()),
            None => FlashStore::new(),
        };
        Emulator { flash, pins: PinBank::new(), phase: Phase::Uninitialized }
    }

    /// Re-erases the flash store. Valid before init and between ticks,
    /// never once the facade has faulted or while init is still draining.
    pub fn reset_storage(&mut self) -> (r: Result<(), EmuError>)
        requires
            old(self).wf(),
        ensures
            final(self).wf(),
            final(self).phase == old(self).phase,
            final(self).pins@ == old(self).pins@,
            match r {
                Ok(()) => (old(self).phase == Phase::Uninitialized || old(self).phase
                    == Phase::Running) && final(self).flash@ == erased_flash(),
                Err(e) => e == EmuError::WrongPhase && old(self).phase != Phase::Uninitialized
                    && old(self).phase != Phase::Running && final(self).flash@
                    == old(self).flash@,
            },
    {
        match self.phase {
            Phase::Uninitialized | Phase::Running => {
                self.flash.reset();
                Ok(())
            },
            _ => Err(EmuError::WrongPhase),
        }
    }

    /// Starts initialization: succeeds exactly once, from the
    /// uninitialized phase, and yields the calls the operation makes — the
    /// init entry point, then the pin-watch registration for the button
    /// pin. One console drain cycle follows; `finish_init` closes it.
    pub fn begin_init(&mut self) -> (r: Result<Vec<FirmwareCall>, EmuError>)
        requires
            old(self).wf(),
        ensures
            final(self).wf(),
            final(self).flash@ == old(self).flash@,
            final(self).pins@ == old(self).pins@,
            match r {
                Ok(plan) => old(self).phase == Phase::Uninitialized && final(self).phase
                    == Phase::Initialized && plan@ == seq![
                    FirmwareCall::Init,
                    FirmwareCall::SendPinWatchEvent { pin: BUTTON_PIN as i32 },
                ],
                Err(e) => e == EmuError::WrongPhase && old(self).phase != Phase::Uninitialized
                    && final(self).phase == old(self).phase,
            },
    {
        match self.phase {
            Phase::Uninitialized => {
                self.phase = Phase::Initialized;
                let mut plan: Vec<FirmwareCall> = Vec::new();
                plan.push(FirmwareCall::Init);
                plan.push(FirmwareCall::SendPinWatchEvent { pin: BUTTON_PIN as i32 });
                proof {
                    assert(plan@ =~= seq![
                        FirmwareCall::Init,
                        FirmwareCall::SendPinWatchEvent { pin: BUTTON_PIN as i32 },
                    ]);
                }
                Ok(plan)
            },
            _ => Err(EmuError::WrongPhase),
        }
    }

    /// Closes initialization once the startup drain has finished: the
    /// facade enters its steady state.
    pub fn finish_init(&mut self) -> (r: Result<(), EmuError>)
        requires
            old(self).wf(),
        ensures
            final(self).wf(),
            final(self).flash@ == old(self).flash@,
            final(self).pins@ == old(self).pins@,
            match r {
                Ok(()) => old(self).phase == Phase::Initialized && final(self).phase
                    == Phase::Running,
                Err(e) => e == EmuError::WrongPhase && old(self).phase != Phase::Initialized
                    && final(self).phase == old(self).phase,
            },
    {
        match self.phase {
            Phase::Initialized => {
                self.phase = Phase::Running;
                Ok(())
            },
            _ => Err(EmuError::WrongPhase),
        }
    }

    /// One idle tick: advances the firmware's internal scheduler by one
    /// quantum. Available only in the steady state; a drain cycle follows.
    pub fn tick_plan(&self) -> (r: Result<Vec<FirmwareCall>, EmuError>)
        ensures
            match r {
                Ok(plan) => self.phase == Phase::Running && plan@ == seq![FirmwareCall::IdleTick],
                Err(e) => e == EmuError::WrongPhase && self.phase != Phase::Running,
            },
    {
        match self.phase {
            Phase::Running => {
                let mut plan: Vec<FirmwareCall> = Vec::new();
                plan.push(FirmwareCall::IdleTick);
                proof {
                    assert(plan@ =~= seq![FirmwareCall::IdleTick]);
                }
                Ok(plan)
            },
            _ => Err(EmuError::WrongPhase),
        }
    }

    /// Injects a byte string as console input: one push-character call per
    /// byte, tagged with the interactive-console device id, in original
    /// order. Available only in the steady state; a drain cycle follows.
    pub fn push_string_plan(&self, data: &[u8]) -> (r: Result<Vec<FirmwareCall>, EmuError>)
        ensures
            match r {
                Ok(plan) => self.phase == Phase::Running && plan@ == input_calls_spec(data@),
                Err(e) => e == EmuError::WrongPhase && self.phase != Phase::Running,
            },
    {
        match self.phase {
            Phase::Running => Ok(console_input_calls(data)),
            _ => Err(EmuError::WrongPhase),
        }
    }

    /// Notifies the firmware that a watched pin changed. Available only in
    /// the steady state, for indices inside the pin bank; a drain cycle
    /// follows.
    pub fn pin_event_plan(&self, pin: u32) -> (r: Result<Vec<FirmwareCall>, EmuError>)
        ensures
            match r {
                Ok(plan) => self.phase == Phase::Running && pin < PIN_COUNT && plan@ == seq![
                    FirmwareCall::SendPinWatchEvent { pin: pin as i32 },
                ],
                Err(e) => (e == EmuError::WrongPhase && self.phase != Phase::Running) || (e
                    == EmuError::PinOutOfRange && pin >= PIN_COUNT),
            },
    {
        match self.phase {
            Phase::Running => {
                if (pin as usize) < PIN_COUNT {
                    let mut plan: Vec<FirmwareCall> = Vec::new();
                    plan.push(FirmwareCall::SendPinWatchEvent { pin: pin as i32 });
                    proof {
                        assert(plan@ =~= seq![FirmwareCall::SendPinWatchEvent { pin: pin as i32 }]);
                    }
                    Ok(plan)
                } else {
                    Err(EmuError::PinOutOfRange)
                }
            },
            _ => Err(EmuError::WrongPhase),
        }
    }

    /// Records an unrecovered trap from the sandbox: the facade enters the
    /// terminal faulted phase and must be discarded.
    pub fn on_trap(&mut self)
        requires
            old(self).wf(),
        ensures
            final(self).wf(),
            final(self).phase == Phase::Faulted,
            final(self).flash@ == old(self).flash@,
            final(self).pins@ == old(self).pins@,
    {
        self.phase = Phase::Faulted;
    }

    /// Host function `flashRead`: a single-byte read. An out-of-bounds
    /// index is a fatal bridge fault: the facade faults and the read
    /// fails, never a silently truncated access.
    pub fn host_flash_read(&mut self, index: u32) -> (r: Result<u8, Fault>)
        requires
            old(self).wf(),
        ensures
            final(self).wf(),
            final(self).flash@ == old(self).flash@,
            final(self).pins@ == old(self).pins@,
            match r {
                Ok(b) => index < FLASH_SIZE && b == old(self).flash@[index as int] && final(self).phase == old(self).phase,
                Err(f) => index >= FLASH_SIZE && f == Fault::FlashIndexOutOfBounds && final(self).phase == Phase::Faulted,
            },
    {
        match self.flash.read(index) {
            Ok(b) => Ok(b),
            Err(f) => {
                self.phase = Phase::Faulted;
                Err(f)
            },
        }
    }

    /// Host function `flashWritePtr`: copies `len` bytes out of the
    /// sandbox's linear memory `mem` at `ptr` into flash at `flash_off`.
    /// Either range out of bounds is a fatal bridge fault: the facade
    /// faults and nothing is written.
    pub fn host_flash_write(
        &mut self,
        mem: &[u8],
        flash_off: u32,
        ptr: u32,
        len: u32,
    ) -> (r: Result<(), Fault>)
        requires
            old(self).wf(),
        ensures
            final(self).wf(),
            final(self).pins@ == old(self).pins@,
            match r {
                Ok(()) => {
                    &&& flash_off + len <= FLASH_SIZE
                    &&& ptr + len <= mem@.len()
                    &&& final(self).phase == old(self).phase
                    &&& forall|j: int|
                        flash_off <= j < flash_off + len
                            ==> #[trigger] final(self).flash@[j] == mem@[ptr + (j - flash_off)]
                    &&& forall|j: int|
                        0 <= j < FLASH_SIZE && !(flash_off <= j < flash_off + len)
                            ==> #[trigger] final(self).flash@[j] == old(self).flash@[j]
                },
                Err(_) => {
                    &&& (flash_off + len > FLASH_SIZE || ptr + len > mem@.len())
                    &&& final(self).flash@ == old(self).flash@
                    &&& final(self).phase == Phase::Faulted
                },
            },
    {
        match self.flash.write_from(mem, flash_off, ptr, len) {
            Ok(()) => Ok(()),
            Err(f) => {
                self.phase = Phase::Faulted;
                Err(f)
            },
        }
    }

    /// Host function `getPinValue`: reads one pin. An out-of-bounds index
    /// is a fatal bridge fault.
    pub fn host_get_pin(&mut self, index: u32) -> (r: Result<bool, Fault>)
        requires
            old(self).wf(),
        ensures
            final(self).wf(),
            final(self).flash@ == old(self).flash@,
            final(self).pins@ == old(self).pins@,
            match r {
                Ok(v) => index < PIN_COUNT && v == old(self).pins@[index as int] && final(self).phase == old(self).phase,
                Err(f) => index >= PIN_COUNT && f == Fault::PinIndexOutOfBounds && final(self).phase == Phase::Faulted,
            },
    {
        match self.pins.get(index) {
            Ok(v) => Ok(v),
            Err(f) => {
                self.phase = Phase::Faulted;
                Err(f)
            },
        }
    }

    /// Host function `setPinValue`: writes one pin. An out-of-bounds index
    /// is a fatal bridge fault; on a fault no pin changes.
    pub fn host_set_pin(&mut self, index: u32, value: bool) -> (r: Result<(), Fault>)
        requires
            old(self).wf(),
        ensures
            final(self).wf(),
            final(self).flash@ == old(self).flash@,
            match r {
                Ok(()) => index < PIN_COUNT && final(self).pins@ == old(self).pins@.update(
                    index as int,
                    value,
                ) && final(self).phase == old(self).phase,
                Err(f) => index >= PIN_COUNT && f == Fault::PinIndexOutOfBounds && final(self).pins@ == old(self).pins@ && final(self).phase == Phase::Faulted,
            },
    {
        match self.pins.set(index, value) {
            Ok(()) => Ok(()),
            Err(f) => {
                self.phase = Phase::Faulted;
                Err(f)
            },
        }
    }
}

} // verus!
