//! Memory bus: a 64KB byte-addressable space. Addresses inside the
//! video-memory window are redirected (with offset translation) to the video
//! memory store; all other addresses index flat storage directly. Flat
//! storage starts zeroed except for a prefix seeded from boot data.

use crate::gpu::GPU;
use crate::gpu::VRAM_SIZE;
use vstd::prelude::*;

verus! {

/// First address of the video-memory window.
pub const VRAM_BEGIN: u16 = 0x8000;

/// Last address of the video-memory window.
pub const VRAM_END: u16 = 0x9FFF;

/// First address seeded from boot data.
pub const BOOT_ROM_BEGIN: usize = 0x00;

/// Last address seeded from boot data.
pub const BOOT_ROM_END: usize = 0xFF;

/// Maximum number of bytes taken from the supplied boot data.
pub const BOOT_ROM_SIZE: usize = 0x100;

/// Number of addresses in the 16-bit address space.
pub const ADDRESS_SPACE_SIZE: usize = 0x10000;

/// The mathematical state of the bus: flat storage and the video store.
#[verifier::ext_equal]
pub ghost struct BusView {
    pub mem: Seq<u8>,
    pub vram: Seq<u8>,
}

impl BusView {
    /// Both stores have their fixed sizes.
    pub open spec fn wf(&self) -> bool {
        &&& self.mem.len() == ADDRESS_SPACE_SIZE
        &&& self.vram.len() == VRAM_SIZE
    }
}

/// Whether an address falls inside the video-memory window.
pub open spec fn in_vram_window(address: u16) -> bool {
    VRAM_BEGIN <= address <= VRAM_END
}

/// The byte the bus yields at `address`: video store for window addresses
/// (offset by the window start), flat storage otherwise.
pub open spec fn bus_read(b: BusView, address: u16) -> u8 {
    if in_vram_window(address) {
        b.vram[address - VRAM_BEGIN]
    } else {
        b.mem[address as int]
    }
}

/// The bus state after writing `value` at `address`: exactly one byte of
/// exactly one store changes, chosen by the same window routing as reads.
pub open spec fn bus_write(b: BusView, address: u16, value: u8) -> BusView {
    if in_vram_window(address) {
        BusView { vram: b.vram.update(address - VRAM_BEGIN, value), ..b }
    } else {
        BusView { mem: b.mem.update(address as int, value), ..b }
    }
}

/// A byte written anywhere on the bus is read back unchanged from the same
/// address, and every other address still reads its old byte.
pub proof fn lemma_bus_read_after_write(b: BusView, address: u16, value: u8, other: u16)
    requires
        b.wf(),
    ensures
        bus_read(bus_write(b, address, value), address) == value,
        other != address ==> bus_read(bus_write(b, address, value), other) == bus_read(b, other),
{
}

/// Video window isolation: a write inside the window is read back through the
/// bus unchanged, while a write anywhere outside the window leaves the video
/// memory store untouched (and, symmetrically, a write inside the window
/// leaves flat storage untouched).
pub proof fn lemma_video_window_isolation(b: BusView, address: u16, value: u8)
    requires
        b.wf(),
    ensures
        in_vram_window(address) ==> bus_read(bus_write(b, address, value), address) == value,
        !in_vram_window(address) ==> bus_write(b, address, value).vram == b.vram,
        in_vram_window(address) ==> bus_write(b, address, value).mem == b.mem,
{
}

/// The 64KB address space, with the video-memory window carved out.
pub struct MemoryBus {
    pub memory: Vec<u8>,
    pub gpu: GPU,
}

impl View for MemoryBus {
    type V = BusView;

    open spec fn view(&self) -> BusView {
        BusView { mem: self.memory@, vram: self.gpu.vram@ }
    }
}

impl MemoryBus {
    /// Both stores hold their fixed number of bytes.
    pub open spec fn wf(&self) -> bool {
        self@.wf()
    }

    /// A fresh bus: flat storage zeroed, then seeded from the start of
    /// `boot_rom` (truncated to `BOOT_ROM_SIZE` bytes if longer); the video
    /// store zeroed.
    pub fn new(boot_rom: Vec<u8>) -> (bus: MemoryBus)
        ensures
            bus.wf(),
            forall|i: int|
                0 <= i < ADDRESS_SPACE_SIZE ==> bus@.mem[i] == (if i < boot_rom@.len() && i
                    < BOOT_ROM_SIZE {
                    boot_rom@[i]
                } else {
                    0u8
                }),
            forall|i: int| 0 <= i < VRAM_SIZE ==> bus@.vram[i] == 0u8,
    {
        let mut memory: Vec<u8> = Vec::new();
        let mut i: usize = 0;
        while i < ADDRESS_SPACE_SIZE
            invariant
                i <= ADDRESS_SPACE_SIZE,
                memory@.len() == i,
                forall|j: int| 0 <= j < i ==> memory@[j] == 0u8,
            decreases ADDRESS_SPACE_SIZE - i,
        {
            memory.push(0u8);
            i = i + 1;
        }
        let len: usize = if boot_rom.len() < BOOT_ROM_SIZE {
            boot_rom.len()
        } else {
            BOOT_ROM_SIZE
        };
        let mut k: usize = 0;
        while k < len
            invariant
                len <= boot_rom@.len(),
                len <= BOOT_ROM_SIZE,
                k <= len,
                memory@.len() == ADDRESS_SPACE_SIZE,
                forall|j: int| 0 <= j < k ==> memory@[j] == boot_rom@[j],
                forall|j: int| k <= j < ADDRESS_SPACE_SIZE ==> memory@[j] == 0u8,
            decreases len - k,
        {
            let byte: u8 = boot_rom[k];
            memory.set(k, byte);
            k = k + 1;
        }
        MemoryBus { memory, gpu: GPU::new() }
    }

    /// Read the byte at `address`, routed through the window. Total: every
    /// 16-bit address is valid.
    pub fn read_byte(&self, address: u16) -> (value: u8)
        requires
            self.wf(),
        ensures
            value == bus_read(self@, address),
    {
        if VRAM_BEGIN <= address && address <= VRAM_END {
            self.gpu.read_vram((address - VRAM_BEGIN) as usize)
        } else {
            self.memory[address as usize]
        }
    }

    /// Write `value` at `address`, routed through the window; immediately
    /// visible to subsequent reads. Total: every 16-bit address is valid.
    pub fn write_byte(&mut self, address: u16, value: u8)
        requires
            old(self).wf(),
        ensures
            final(self).wf(),
            final(self)@ == bus_write(old(self)@, address, value),
    {
        if VRAM_BEGIN <= address && address <= VRAM_END {
            self.gpu.write_vram((address - VRAM_BEGIN) as usize, value);
        } else {
            self.memory.set(address as usize, value);
        }
    }
}

} // verus!
