use periph_emu::fault::Fault;
use periph_emu::flash::FlashStore;
use periph_emu::pins::PinBank;
use periph_emu::{BUTTON_PIN, ERASED_BYTE, FLASH_SIZE, PIN_COUNT};

#[test]
fn fresh_flash_reads_erased() {
    let flash = FlashStore::new();
    assert_eq!(flash.read(0), Ok(ERASED_BYTE));
    assert_eq!(flash.read(12345), Ok(ERASED_BYTE));
    assert_eq!(flash.read((FLASH_SIZE - 1) as u32), Ok(ERASED_BYTE));
}

#[test]
fn flash_read_out_of_bounds_faults() {
    let flash = FlashStore::new();
    assert_eq!(flash.read(FLASH_SIZE as u32), Err(Fault::FlashIndexOutOfBounds));
    assert_eq!(flash.read(u32::MAX), Err(Fault::FlashIndexOutOfBounds));
}

#[test]
fn flash_write_then_read_back() {
    let mut flash = FlashStore::new();
    let mem: Vec<u8> = vec![9, 8, 7, 6, 5, 4];
    assert_eq!(flash.write_from(&mem, 100, 2, 3), Ok(()));
    assert_eq!(flash.read(100), Ok(7));
    assert_eq!(flash.read(101), Ok(6));
    assert_eq!(flash.read(102), Ok(5));
    assert_eq!(flash.read(99), Ok(ERASED_BYTE));
    assert_eq!(flash.read(103), Ok(ERASED_BYTE));
}

#[test]
fn flash_write_out_of_bounds_faults() {
    let mut flash = FlashStore::new();
    let mem: Vec<u8> = vec![1, 2, 3];
    assert_eq!(
        flash.write_from(&mem, (FLASH_SIZE - 1) as u32, 0, 2),
        Err(Fault::FlashRangeOutOfBounds)
    );
    assert_eq!(flash.write_from(&mem, 0, 2, 2), Err(Fault::MemoryRangeOutOfBounds));
    // nothing was written by the failed attempts
    assert_eq!(flash.read((FLASH_SIZE - 1) as u32), Ok(ERASED_BYTE));
    assert_eq!(flash.read(0), Ok(ERASED_BYTE));
}

#[test]
fn flash_seeded_contents_then_erased_tail() {
    let contents: Vec<u8> = vec![1, 2, 3];
    let flash = FlashStore::new_with_contents(&contents);
    assert_eq!(flash.read(0), Ok(1));
    assert_eq!(flash.read(1), Ok(2));
    assert_eq!(flash.read(2), Ok(3));
    assert_eq!(flash.read(3), Ok(ERASED_BYTE));
    assert_eq!(flash.read((FLASH_SIZE - 1) as u32), Ok(ERASED_BYTE));
}

#[test]
fn flash_reset_erases() {
    let mut flash = FlashStore::new();
    let mem: Vec<u8> = vec![42];
    assert_eq!(flash.write_from(&mem, 0, 0, 1), Ok(()));
    assert_eq!(flash.read(0), Ok(42));
    flash.reset();
    assert_eq!(flash.read(0), Ok(ERASED_BYTE));
}

#[test]
fn initial_pins_low_except_button() {
    let pins = PinBank::new();
    for i in 0..PIN_COUNT as u32 {
        if i as usize == BUTTON_PIN {
            assert_eq!(pins.get(i), Ok(true));
        } else {
            assert_eq!(pins.get(i), Ok(false));
        }
    }
}

#[test]
fn pin_set_then_get_returns_written_value() {
    let mut pins = PinBank::new();
    for i in 0..PIN_COUNT as u32 {
        assert_eq!(pins.set(i, true), Ok(()));
        assert_eq!(pins.get(i), Ok(true));
        assert_eq!(pins.set(i, false), Ok(()));
        assert_eq!(pins.get(i), Ok(false));
    }
}

#[test]
fn pin_out_of_bounds_faults() {
    let mut pins = PinBank::new();
    assert_eq!(pins.get(PIN_COUNT as u32), Err(Fault::PinIndexOutOfBounds));
    assert_eq!(pins.set(PIN_COUNT as u32, true), Err(Fault::PinIndexOutOfBounds));
    assert_eq!(pins.get(u32::MAX), Err(Fault::PinIndexOutOfBounds));
}
