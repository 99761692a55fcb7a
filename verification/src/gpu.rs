//! Video memory store: raw byte storage for the fixed-size video-memory
//! window. The 2-bit-per-pixel tile format of its contents is only meaningful
//! to an external renderer (see [`crate::renderer`]).

use vstd::prelude::*;

verus! {

/// Size in bytes of the video-memory window.
pub const VRAM_SIZE: usize = 0x2000;

/// Raw byte storage for the video-memory window.
pub struct GPU {
    pub vram: Vec<u8>,
}

impl GPU {
    /// Well-formedness: the store always holds exactly `VRAM_SIZE` bytes.
    pub open spec fn wf(&self) -> bool {
        self.vram@.len() == VRAM_SIZE
    }

    /// A fresh store, zero-filled.
    pub fn new() -> (gpu: GPU)
        ensures
            gpu.wf(),
            forall|i: int| 0 <= i < VRAM_SIZE ==> gpu.vram@[i] == 0u8,
    {
        let mut vram: Vec<u8> = Vec::new();
        let mut i: usize = 0;
        while i < VRAM_SIZE
            invariant
                i <= VRAM_SIZE,
                vram@.len() == i,
                forall|j: int| 0 <= j < i ==> vram@[j] == 0u8,
            decreases VRAM_SIZE - i,
        {
            vram.push(0u8);
            i = i + 1;
        }
        GPU { vram }
    }

    /// Read the byte at `offset` within the window.
    pub fn read_vram(&self, offset: usize) -> (value: u8)
        requires
            self.wf(),
            offset < VRAM_SIZE,
        ensures
            value == self.vram@[offset as int],
    {
        self.vram[offset]
    }

    /// Write `value` at `offset` within the window; no other byte changes.
    pub fn write_vram(&mut self, offset: usize, value: u8)
        requires
            old(self).wf(),
            offset < VRAM_SIZE,
        ensures
            final(self).wf(),
            final(self).vram@ == old(self).vram@.update(offset as int, value),
    {
        self.vram.set(offset, value);
    }
}

} // verus!
