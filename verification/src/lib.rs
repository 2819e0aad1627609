//! Emulated peripherals for a sandboxed microcontroller firmware image:
//! byte-addressable flash storage, a digital pin bank, a packed-pixel
//! framebuffer decoder, a character-oriented console bridge, and the
//! facade that sequences the firmware lifecycle.

pub mod codec;
pub mod config;
pub mod console;
pub mod emulator;
pub mod fault;
pub mod firmware;
pub mod flash;
pub mod flash_image;
pub mod pins;
pub mod runner;
pub mod screen;

use vstd::prelude::*;

verus! {

/// Number of bytes in the emulated flash store (8 MiB).
pub const FLASH_SIZE: usize = 0x80_0000;

/// The value every flash byte holds in the erased state.
pub const ERASED_BYTE: u8 = 0xFF;

/// Number of pins in the emulated pin bank.
pub const PIN_COUNT: usize = 48;

/// The designated button input pin, initialized released (logical high).
pub const BUTTON_PIN: usize = 17;

/// The device id tagging every character of the interactive console
/// channel; nonzero, since zero is the none-sentinel of the output-pending
/// query.
pub const CONSOLE_DEVICE: i32 = 1;

/// The flash image in the erased state: the erased byte at every index.
pub open spec fn erased_flash() -> Seq<u8> {
    Seq::new(FLASH_SIZE as nat, |i: int| ERASED_BYTE)
}

/// The pin bank before firmware init: every pin low but the button pin,
/// which reads released (high) until explicitly set.
pub open spec fn initial_pins() -> Seq<bool> {
    Seq::new(PIN_COUNT as nat, |i: int| i == BUTTON_PIN)
}

} // verus!
