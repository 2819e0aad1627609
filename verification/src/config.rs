//! The initial-state collaborator's prescription, as plain values: what
//! seeds the flash store and the firmware's storage before the first tick.

use vstd::prelude::*;

use crate::codec::{initial_console_inputs, storage_write_command_spec, StorageEntry};
use crate::emulator::{Emulator, Phase};
use crate::{erased_flash, initial_pins, ERASED_BYTE, FLASH_SIZE};

verus! {

/// The initial state to establish before the first tick: optional
/// replacement flash contents, an optional factory reset, named storage
/// entries to inject via console commands after init, and an optional
/// startup command.
pub struct Config {
    /// Re-erase the flash store before init.
    pub factory_reset: bool,
    /// Replacement flash contents, of matching or shorter length.
    pub flash_contents: Option<Vec<u8>>,
    /// Storage entries to inject through the console after init.
    pub storage: Vec<StorageEntry>,
    /// A console command to run once the storage is seeded.
    pub startup: Option<Vec<u8>>,
}

/// Builds the emulator the configuration prescribes, plus the console
/// inputs to inject after init: the flash store seeded with the supplied
/// contents (then re-erased on a factory reset), one storage-write
/// command per entry in order, and the startup command, if any, last.
pub fn build_emulator(cfg: &Config) -> (r: (Emulator, Vec<Vec<u8>>))
    requires
        cfg.flash_contents matches Some(c) ==> c@.len() <= FLASH_SIZE,
        forall|k: int|
            0 <= k < cfg.storage@.len() ==> (#[trigger] cfg.storage@[k].name)@.len() * 4
                <= usize::MAX && cfg.storage@[k].contents@.len() * 4 <= usize::MAX,
    ensures
        r.0.wf(),
        r.0.phase == Phase::Uninitialized,
        r.0.pins@ == initial_pins(),
        cfg.factory_reset ==> r.0.flash@ == erased_flash(),
        !cfg.factory_reset && cfg.flash_contents is None ==> r.0.flash@ == erased_flash(),
        !cfg.factory_reset ==> (cfg.flash_contents matches Some(c) ==> {
            &&& forall|k: int| 0 <= k < c@.len() ==> r.0.flash@[k] == c@[k]
            &&& forall|k: int| c@.len() <= k < FLASH_SIZE ==> r.0.flash@[k] == ERASED_BYTE
        }),
        r.1@.len() == cfg.storage@.len() + (if cfg.startup is Some { 1int } else { 0int }),
        forall|k: int|
            0 <= k < cfg.storage@.len() ==> (#[trigger] r.1@[k])@ == storage_write_command_spec(
                cfg.storage@[k].name@,
                cfg.storage@[k].contents@,
            ),
        cfg.startup matches Some(s) ==> r.1@.last()@ == s@,
{
    let mut emu = Emulator::new(cfg.flash_contents.as_ref());
    if cfg.factory_reset {
        match emu.reset_storage() {
            Ok(()) => (),
            Err(_) => {
                proof {
                    assert(false);
                }
            },
        }
    }
    let inputs = initial_console_inputs(&cfg.storage, &cfg.startup);
    (emu, inputs)
}

} // verus!
