//! Byte-addressable emulated flash storage: a fixed 8 MiB byte image.
//!
//! Index accesses are bounds-checked; an out-of-range access is a fault,
//! never a silently truncated one. Erase semantics are a firmware-level
//! convention: the host only services raw byte reads and length-bounded
//! writes, and "erased" means every byte holds `ERASED_BYTE`.

use vstd::prelude::*;

use crate::fault::Fault;
use crate::{erased_flash, ERASED_BYTE, FLASH_SIZE};

verus! {

/// The emulated flash store. Created at emulator construction, it persists
/// for the process lifetime unless explicitly reset to fully erased.
pub struct FlashStore {
    bytes: Vec<u8>,
}

impl FlashStore {
    /// The abstract value: the full byte image, always `FLASH_SIZE` long.
    pub closed spec fn view(&self) -> Seq<u8> {
        self.bytes@
    }

    /// Well-formedness: the image has exactly `FLASH_SIZE` bytes.
    pub open spec fn wf(&self) -> bool {
        self@.len() == FLASH_SIZE
    }

    /// A fully erased flash store: every byte holds the erased value.
    pub fn new() -> (r: Self)
        ensures
            r.wf(),
            r@ == erased_flash(),
    {
        let mut bytes: Vec<u8> = Vec::new();
        let mut i: usize = 0;
        while i < FLASH_SIZE
            invariant
                i <= FLASH_SIZE,
                bytes@.len() == i,
                forall|k: int| 0 <= k < i ==> bytes@[k] == ERASED_BYTE,
            decreases FLASH_SIZE - i,
        {
            bytes.push(ERASED_BYTE);
            i = i + 1;
        }
        proof {
            assert(bytes@ =~= erased_flash());
        }
        FlashStore { bytes }
    }

    /// A flash store seeded with externally supplied contents of matching or
    /// shorter length; the remaining bytes stay erased.
    pub fn new_with_contents(contents: &[u8]) -> (r: Self)
        requires
            contents@.len() <= FLASH_SIZE,
        ensures
            r.wf(),
            forall|k: int| 0 <= k < contents@.len() ==> r@[k] == contents@[k],
            forall|k: int| contents@.len() <= k < FLASH_SIZE ==> r@[k] == ERASED_BYTE,
    {
        let mut bytes: Vec<u8> = Vec::new();
        let mut i: usize = 0;
        while i < contents.len()
            invariant
                contents@.len() <= FLASH_SIZE,
                i <= contents@.len(),
                bytes@.len() == i,
                forall|k: int| 0 <= k < i ==> bytes@[k] == contents@[k],
            decreases contents@.len() - i,
        {
            bytes.push(contents[i]);
            i = i + 1;
        }
        while i < FLASH_SIZE
            invariant
                contents@.len() <= i <= FLASH_SIZE,
                bytes@.len() == i,
                forall|k: int| 0 <= k < contents@.len() ==> bytes@[k] == contents@[k],
                forall|k: int| contents@.len() <= k < i ==> bytes@[k] == ERASED_BYTE,
            decreases FLASH_SIZE - i,
        {
            bytes.push(ERASED_BYTE);
            i = i + 1;
        }
        FlashStore { bytes }
    }

    /// Single-byte read by index. Out of range is a fault, exactly when the
    /// index is at or past `FLASH_SIZE`.
    pub fn read(&self, index: u32) -> (r: Result<u8, Fault>)
        requires
            self.wf(),
        ensures
            match r {
                Ok(b) => index < FLASH_SIZE && b == self@[index as int],
                Err(f) => index >= FLASH_SIZE && f == Fault::FlashIndexOutOfBounds,
            },
    {
        if (index as usize) < FLASH_SIZE {
            Ok(self.bytes[index as usize])
        } else {
            Err(Fault::FlashIndexOutOfBounds)
        }
    }

    /// Bulk write: copies `len` bytes out of the sandbox's linear memory
    /// `mem`, starting at `ptr`, into the flash image starting at
    /// `flash_off`. Succeeds exactly when both ranges are in bounds; on a
    /// fault nothing is written.
    pub fn write_from(
        &mut self,
        mem: &[u8],
        flash_off: u32,
        ptr: u32,
        len: u32,
    ) -> (r: Result<(), Fault>)
        requires
            old(self).wf(),
        ensures
            final(self).wf(),
            match r {
                Ok(()) => {
                    &&& flash_off + len <= FLASH_SIZE
                    &&& ptr + len <= mem@.len()
                    &&& final(self)@.len() == FLASH_SIZE
                    &&& forall|j: int|
                        flash_off <= j < flash_off + len
                            ==> #[trigger] final(self)@[j] == mem@[ptr + (j - flash_off)]
                    &&& forall|j: int|
                        0 <= j < FLASH_SIZE && !(flash_off <= j < flash_off + len)
                            ==> #[trigger] final(self)@[j] == old(self)@[j]
                },
                Err(f) => {
                    &&& final(self)@ == old(self)@
                    &&& (f == Fault::FlashRangeOutOfBounds <==> flash_off + len > FLASH_SIZE)
                    &&& (f == Fault::MemoryRangeOutOfBounds
                        ==> flash_off + len <= FLASH_SIZE && ptr + len > mem@.len())
                },
            },
            r is Err <==> (flash_off + len > FLASH_SIZE || ptr + len > mem@.len()),
    {
        if (flash_off as u64) + (len as u64) > FLASH_SIZE as u64 {
            return Err(Fault::FlashRangeOutOfBounds);
        }
        let mem_len: usize = mem.len();
        if (ptr as u64) + (len as u64) > mem_len as u64 {
            return Err(Fault::MemoryRangeOutOfBounds);
        }
        let mut k: usize = 0;
        while k < len as usize
            invariant
                k <= len,
                flash_off + len <= FLASH_SIZE,
                ptr + len <= mem_len == mem@.len(),
                self@.len() == FLASH_SIZE,
                forall|j: int|
                    flash_off <= j < flash_off + k
                        ==> #[trigger] self@[j] == mem@[ptr + (j - flash_off)],
                forall|j: int|
                    0 <= j < FLASH_SIZE && !(flash_off <= j < flash_off + k)
                        ==> #[trigger] self@[j] == old(self)@[j],
            decreases len - k,
        {
            let b = mem[ptr as usize + k];
            self.bytes.set(flash_off as usize + k, b);
            k = k + 1;
        }
        Ok(())
    }

    /// Re-erases the whole image.
    pub fn reset(&mut self)
        ensures
            final(self).wf(),
            final(self)@ == erased_flash(),
    {
        *self = FlashStore::new();
    }
}

/// Immediately after construction with no explicit contents, every valid
/// index reads the erased value.
pub proof fn lemma_fresh_flash_is_erased(i: int)
    requires
        0 <= i < FLASH_SIZE,
    ensures
        erased_flash()[i] == ERASED_BYTE,
{
}

} // verus!
