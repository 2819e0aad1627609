use periph_emu::console::{DrainCycle, NO_DEVICE};
use periph_emu::emulator::{EmuError, Emulator, Phase};
use periph_emu::fault::Fault;
use periph_emu::firmware::FirmwareCall;
use periph_emu::{BUTTON_PIN, CONSOLE_DEVICE, ERASED_BYTE, FLASH_SIZE, PIN_COUNT};

/// A scripted firmware: answers the facade's calls like a tiny read-print
/// loop, so lifecycle scenarios can run end to end. Its banner and prompt
/// text are fixtures, compared as opaque bytes.
struct MockFirmware {
    input: Vec<u8>,
    pending: Vec<u8>,
    served: usize,
}

impl MockFirmware {
    fn new() -> Self {
        MockFirmware { input: Vec::new(), pending: Vec::new(), served: 0 }
    }

    fn perform(&mut self, call: &FirmwareCall) {
        match call {
            FirmwareCall::Init => {
                self.pending.extend_from_slice(b"ready\r\n>");
            }
            FirmwareCall::SendPinWatchEvent { .. } => {}
            FirmwareCall::PushConsoleCharEvent { device, ch } => {
                assert_eq!(*device, CONSOLE_DEVICE);
                self.input.push(*ch as u8);
            }
            FirmwareCall::IdleTick => {
                if self.input == b"1+1\n" {
                    self.input.clear();
                    self.pending.extend_from_slice(b"2\r\n>");
                }
            }
            other => panic!("unexpected firmware call {:?}", other),
        }
    }

    fn drain(&mut self) -> Vec<u8> {
        let mut cycle = DrainCycle::new();
        loop {
            match cycle.next_call() {
                Some(FirmwareCall::GetDeviceWithPendingOutput) => {
                    let device =
                        if self.served < self.pending.len() { CONSOLE_DEVICE } else { NO_DEVICE };
                    cycle.on_device(device);
                }
                Some(FirmwareCall::GetNextOutputChar { device }) => {
                    assert_eq!(device, CONSOLE_DEVICE);
                    cycle.on_char(self.pending[self.served] as i32);
                    self.served += 1;
                }
                Some(other) => panic!("unexpected drain call {:?}", other),
                None => break,
            }
        }
        cycle.into_output()
    }
}

#[test]
fn init_plan_calls_init_then_button_watch() {
    let mut emu = Emulator::new(None);
    assert_eq!(emu.phase, Phase::Uninitialized);
    let plan = emu.begin_init().unwrap();
    assert_eq!(
        plan,
        vec![
            FirmwareCall::Init,
            FirmwareCall::SendPinWatchEvent { pin: BUTTON_PIN as i32 },
        ]
    );
    assert_eq!(emu.phase, Phase::Initialized);
    assert_eq!(emu.finish_init(), Ok(()));
    assert_eq!(emu.phase, Phase::Running);
}

#[test]
fn init_happens_exactly_once() {
    let mut emu = Emulator::new(None);
    emu.begin_init().unwrap();
    assert_eq!(emu.begin_init().unwrap_err(), EmuError::WrongPhase);
    emu.finish_init().unwrap();
    assert_eq!(emu.begin_init().unwrap_err(), EmuError::WrongPhase);
}

#[test]
fn operations_refused_before_init() {
    let emu = Emulator::new(None);
    assert_eq!(emu.tick_plan().unwrap_err(), EmuError::WrongPhase);
    assert_eq!(emu.push_string_plan(b"x").unwrap_err(), EmuError::WrongPhase);
    assert_eq!(emu.pin_event_plan(3).unwrap_err(), EmuError::WrongPhase);
}

#[test]
fn pin_event_plan_rejects_out_of_range_pin() {
    let mut emu = Emulator::new(None);
    emu.begin_init().unwrap();
    emu.finish_init().unwrap();
    assert_eq!(emu.pin_event_plan(PIN_COUNT as u32).unwrap_err(), EmuError::PinOutOfRange);
    let plan = emu.pin_event_plan(3).unwrap();
    assert_eq!(plan, vec![FirmwareCall::SendPinWatchEvent { pin: 3 }]);
}

#[test]
fn host_fault_is_fatal_never_truncated() {
    let mut emu = Emulator::new(None);
    emu.begin_init().unwrap();
    emu.finish_init().unwrap();

    assert_eq!(emu.host_flash_read(FLASH_SIZE as u32), Err(Fault::FlashIndexOutOfBounds));
    assert_eq!(emu.phase, Phase::Faulted);
    // a faulted facade refuses every operation
    assert_eq!(emu.tick_plan().unwrap_err(), EmuError::WrongPhase);
    assert_eq!(emu.reset_storage().unwrap_err(), EmuError::WrongPhase);

    let mut emu2 = Emulator::new(None);
    assert_eq!(emu2.host_set_pin(PIN_COUNT as u32, true), Err(Fault::PinIndexOutOfBounds));
    assert_eq!(emu2.phase, Phase::Faulted);

    let mut emu3 = Emulator::new(None);
    assert_eq!(emu3.host_get_pin(255), Err(Fault::PinIndexOutOfBounds));
    assert_eq!(emu3.phase, Phase::Faulted);

    let mut emu4 = Emulator::new(None);
    let mem: Vec<u8> = vec![1, 2, 3];
    assert_eq!(
        emu4.host_flash_write(&mem, (FLASH_SIZE - 1) as u32, 0, 2),
        Err(Fault::FlashRangeOutOfBounds)
    );
    assert_eq!(emu4.phase, Phase::Faulted);
}

#[test]
fn host_functions_work_in_bounds() {
    let mut emu = Emulator::new(None);
    assert_eq!(emu.host_flash_read(0), Ok(ERASED_BYTE));
    let mem: Vec<u8> = vec![10, 11, 12];
    assert_eq!(emu.host_flash_write(&mem, 500, 1, 2), Ok(()));
    assert_eq!(emu.host_flash_read(500), Ok(11));
    assert_eq!(emu.host_flash_read(501), Ok(12));
    assert_eq!(emu.host_get_pin(BUTTON_PIN as u32), Ok(true));
    assert_eq!(emu.host_get_pin(0), Ok(false));
    assert_eq!(emu.host_set_pin(0, true), Ok(()));
    assert_eq!(emu.host_get_pin(0), Ok(true));
    assert_eq!(emu.phase, Phase::Uninitialized);
}

#[test]
fn reset_storage_erases_before_and_between_ticks() {
    let contents: Vec<u8> = vec![1, 2, 3];
    let mut emu = Emulator::new(Some(&contents));
    assert_eq!(emu.host_flash_read(0), Ok(1));
    assert_eq!(emu.reset_storage(), Ok(()));
    assert_eq!(emu.host_flash_read(0), Ok(ERASED_BYTE));
}

#[test]
fn trap_makes_facade_terminal() {
    let mut emu = Emulator::new(None);
    emu.begin_init().unwrap();
    emu.finish_init().unwrap();
    emu.on_trap();
    assert_eq!(emu.phase, Phase::Faulted);
    assert_eq!(emu.tick_plan().unwrap_err(), EmuError::WrongPhase);
    assert_eq!(emu.push_string_plan(b"x").unwrap_err(), EmuError::WrongPhase);
}

#[test]
fn end_to_end_eval_scenario() {
    let mut fw = MockFirmware::new();
    let mut emu = Emulator::new(None);

    // init: run the plan, then the startup drain flushes the banner
    let plan = emu.begin_init().unwrap();
    for call in &plan {
        fw.perform(call);
    }
    let banner = fw.drain();
    assert!(banner.is_empty() || banner.ends_with(b">"));
    emu.finish_init().unwrap();

    // inject "1+1\n", tick once, drain
    let plan = emu.push_string_plan(b"1+1\n").unwrap();
    assert_eq!(plan.len(), 4);
    for call in &plan {
        fw.perform(call);
    }
    let echoed = fw.drain();
    assert!(echoed.is_empty());

    let plan = emu.tick_plan().unwrap();
    for call in &plan {
        fw.perform(call);
    }
    let output = fw.drain();
    assert!(output.contains(&b'2'), "expected the evaluated result in {:?}", output);
    assert!(output.ends_with(b">"), "expected a prompt marker in {:?}", output);
}
