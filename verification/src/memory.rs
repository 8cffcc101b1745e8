//! The 64 KiB address space: routing of reads and writes to the cartridge,
//! the echo of work RAM, and the registers that read or write specially.

use vstd::prelude::*;
use crate::rom::Cart;
use crate::rom::CartView;
use crate::rom::ROM_BANK_SIZE;
use crate::util::LoHi;

verus! {

/// Number of addressable bytes.
pub const MEMORY_SIZE: usize = 0x1_0000;

/// Address of the interrupt-request register (IF).
pub const IF_ADDRESS: u16 = 0xFF0F;

/// Address of the interrupt-enable register (IE).
pub const IE_ADDRESS: u16 = 0xFFFF;

/// Address of the LCD control register (LCDC).
pub const LCDC_ADDRESS: u16 = 0xFF40;

/// Address of the LCD status register (STAT).
pub const STAT_ADDRESS: u16 = 0xFF41;

/// Address of the vertical scroll register (SCY).
pub const SCY_ADDRESS: u16 = 0xFF42;

/// Address of the horizontal scroll register (SCX).
pub const SCX_ADDRESS: u16 = 0xFF43;

/// Address of the current-scanline register (LY).
pub const LY_ADDRESS: u16 = 0xFF44;

/// The address space of the machine: a flat array of cells and the cartridge
/// that answers for the banked regions.
pub struct Memory {
    pub memory: Vec<u8>,
    pub cart: Cart,
}

/// The mathematical content of a [`Memory`].
pub struct MemoryView {
    pub bytes: Seq<u8>,
    pub cart: CartView,
}

impl View for Memory {
    type V = MemoryView;

    open spec fn view(&self) -> MemoryView {
        MemoryView { bytes: self.memory@, cart: self.cart@ }
    }
}

/// The cell of the flat array that stands behind `address`: the echo region
/// 0xE000-0xFDFF shares the cells of 0xC000-0xDDFF, every other address has
/// the cell of its own number.
pub open spec fn spec_translate(address: u16) -> int {
    if 0xE000 <= address <= 0xFDFF {
        address - 0x2000
    } else {
        address as int
    }
}

/// The address after `address`, wrapping from 0xFFFF to 0x0000.
pub open spec fn spec_next(address: u16) -> u16 {
    if address == 0xFFFF {
        0u16
    } else {
        (address + 1) as u16
    }
}

/// The 16-bit word with the given high and low bytes.
pub open spec fn spec_word(hi: u8, lo: u8) -> u16 {
    (hi * 256 + lo) as u16
}

/// The byte read as a two's-complement number.
pub open spec fn spec_signed(value: u8) -> i8 {
    if value < 128 {
        value as i8
    } else {
        (value - 256) as i8
    }
}

impl MemoryView {
    pub open spec fn wf(self) -> bool {
        &&& self.bytes.len() == MEMORY_SIZE
        &&& self.cart.wf()
    }

    /// The byte a read of `address` returns. In order of precedence: the
    /// fixed bank, the cartridge's banked ROM, the cartridge's RAM, 0xFF in
    /// the unusable region, the interrupt requests with their three top bits
    /// set, and otherwise the cell behind the address.
    pub open spec fn read(self, address: u16) -> u8 {
        if address < 0x4000 {
            self.bytes[address as int]
        } else if address < 0x8000 {
            self.cart.read_banked(address)
        } else if 0xA000 <= address < 0xC000 && self.cart is MBC1 {
            self.cart->MBC1_0.read_ram(address)
        } else if 0xFEA0 <= address <= 0xFEFF {
            0xFF
        } else if address == IF_ADDRESS {
            (0xE0 + self.bytes[IF_ADDRESS as int] % 32) as u8
        } else {
            self.bytes[spec_translate(address)]
        }
    }

    /// The content after `value` is written at `address`. In order of
    /// precedence: mapper control below 0x8000, the cartridge's RAM, the
    /// status register, which keeps its three low bits, and otherwise the
    /// cell behind the address.
    pub open spec fn write(self, address: u16, value: u8) -> MemoryView {
        if address < 0x8000 {
            MemoryView { cart: self.cart.write_control(address, value), ..self }
        } else if 0xA000 <= address < 0xC000 && self.cart is MBC1 {
            MemoryView { cart: CartView::MBC1(self.cart->MBC1_0.write_ram(address, value)), ..self }
        } else if address == STAT_ADDRESS {
            MemoryView {
                bytes: self.bytes.update(
                    STAT_ADDRESS as int,
                    (value / 8 * 8 + self.bytes[STAT_ADDRESS as int] % 8) as u8,
                ),
                ..self
            }
        } else {
            MemoryView { bytes: self.bytes.update(spec_translate(address), value), ..self }
        }
    }

    /// The little-endian word read at `address` and the address after it.
    pub open spec fn read_short(self, address: u16) -> u16 {
        spec_word(self.read(spec_next(address)), self.read(address))
    }

    /// The content after the low byte of `value` is written at `address` and
    /// then its high byte at the address after it.
    pub open spec fn write_short(self, address: u16, value: u16) -> MemoryView {
        self.write(address, (value % 256) as u8).write(spec_next(address), (value / 256) as u8)
    }
}

impl MemoryView {
    /// Whether `value`, written at `address`, is what a read of `address`
    /// then returns. ROM does not take a write; the unusable region and
    /// disabled cartridge RAM read as 0xFF; the interrupt requests read
    /// with their three top bits set; the status register keeps its three
    /// low bits.
    pub open spec fn stores(self, address: u16, value: u8) -> bool {
        if address < 0x8000 {
            false
        } else if 0xA000 <= address < 0xC000 && self.cart is MBC1 {
            self.cart->MBC1_0.ram_enabled || value == 0xFF
        } else if 0xFEA0 <= address <= 0xFEFF {
            value == 0xFF
        } else if address == IF_ADDRESS {
            value >= 0xE0
        } else if address == STAT_ADDRESS {
            value % 8 == self.bytes[STAT_ADDRESS as int] % 8
        } else {
            true
        }
    }

    /// Whether both bytes of `value`, written at `address` and the address
    /// after it, are stored there. The word's second byte must not fall
    /// into ROM, which leaves out 0xFFFF, whose successor is 0x0000.
    pub open spec fn stores_short(self, address: u16, value: u16) -> bool {
        &&& address != 0xFFFF
        &&& self.stores(address, (value % 256) as u8)
        &&& self.write(address, (value % 256) as u8).stores(
            spec_next(address),
            (value / 256) as u8,
        )
    }
}

/// Writing keeps the memory well-formed.
pub proof fn lemma_write_wf(mem: MemoryView, address: u16, value: u8)
    requires
        mem.wf(),
    ensures
        mem.write(address, value).wf(),
{
}

/// A byte that the memory stores at an address is read back from it.
pub proof fn lemma_read_after_write(mem: MemoryView, address: u16, value: u8)
    requires
        mem.wf(),
        mem.stores(address, value),
    ensures
        mem.write(address, value).read(address) == value,
{
}

/// A write above the ROM region leaves every address with another cell
/// as it read before.
pub proof fn lemma_read_other_after_write(mem: MemoryView, address: u16, value: u8, other: u16)
    requires
        mem.wf(),
        address >= 0x8000,
        spec_translate(address) != spec_translate(other),
    ensures
        mem.write(address, value).read(other) == mem.read(other),
{
}

/// A word written with `write_short` is read back by `read_short` at every
/// address where both of its bytes are stored.
pub proof fn lemma_short_round_trip(mem: MemoryView, address: u16, value: u16)
    requires
        mem.wf(),
        mem.stores_short(address, value),
    ensures
        mem.write_short(address, value).read_short(address) == value,
{
    let lo = (value % 256) as u8;
    let hi = (value / 256) as u8;
    let first = mem.write(address, lo);
    lemma_read_after_write(mem, address, lo);
    lemma_read_after_write(first, spec_next(address), hi);
    lemma_read_other_after_write(first, spec_next(address), hi, address);
}

/// At the top of the address space a word wraps: its low byte is stored
/// at 0xFFFF, its high byte goes to 0x0000, where ROM does not take it, so
/// that the word read back has the byte of ROM for its high byte.
pub proof fn lemma_short_at_top(mem: MemoryView, value: u16)
    requires
        mem.wf(),
    ensures
        mem.write_short(0xFFFF, value).read(0xFFFF) == (value % 256) as u8,
        mem.write_short(0xFFFF, value).read(0x0000) == mem.read(0x0000),
        mem.write_short(0xFFFF, value).read_short(0xFFFF) == spec_word(
            mem.read(0x0000),
            (value % 256) as u8,
        ),
{
}

/// The echo region 0xE000-0xFDFF and work RAM 0x2000 below it are one
/// store: a write at either address is the same write, and is read back
/// at both.
pub proof fn lemma_echo_alias(mem: MemoryView, address: u16, value: u8)
    requires
        mem.wf(),
        0xE000 <= address <= 0xFDFF,
    ensures
        mem.write(address, value) == mem.write((address - 0x2000) as u16, value),
        mem.write(address, value).read((address - 0x2000) as u16) == value,
        mem.write((address - 0x2000) as u16, value).read(address) == value,
        mem.read(address) == mem.read((address - 0x2000) as u16),
{
}

/// Translates a machine address to the index of its cell.
pub fn translate(address: u16) -> (index: usize)
    ensures
        index == spec_translate(address),
        index < MEMORY_SIZE,
{
    if address >= 0xE000 && address <= 0xFDFF {
        address as usize - 0x2000
    } else {
        address as usize
    }
}

/// The address after `address`, wrapping at the top of the address space.
pub fn next_address(address: u16) -> (next: u16)
    ensures
        next == spec_next(address),
{
    if address == 0xFFFF {
        0
    } else {
        address + 1
    }
}

impl Memory {
    pub open spec fn wf(&self) -> bool {
        self@.wf()
    }

    /// A memory of zeros with a cartridge of zeros and no mapper.
    pub fn new() -> (memory: Memory)
        ensures
            memory.wf(),
            memory@.bytes == Seq::new(MEMORY_SIZE as nat, |i: int| 0u8),
            memory@.cart == CartView::RomOnly(Seq::new(ROM_BANK_SIZE as nat, |i: int| 0u8)),
    {
        let memory = Memory { memory: vec![0u8; MEMORY_SIZE], cart: Cart::RomOnly(vec![0u8; ROM_BANK_SIZE]) };
        assert(memory@.bytes =~= Seq::new(MEMORY_SIZE as nat, |i: int| 0u8));
        assert(memory.cart@->RomOnly_0 =~= Seq::new(ROM_BANK_SIZE as nat, |i: int| 0u8));
        memory
    }

    /// Writes `value` at `address`.
    pub fn write_byte(&mut self, address: u16, value: u8)
        requires
            old(self).wf(),
        ensures
            final(self).wf(),
            final(self)@ == old(self)@.write(address, value),
    {
        if address < 0x8000 {
            self.cart.write_control(address, value);
        } else if address >= 0xA000 && address < 0xC000 {
            match &mut self.cart {
                Cart::MBC1(data) => {
                    data.write_ram(address, value);
                },
                Cart::RomOnly(_) => {
                    self.memory.set(address as usize, value);
                },
            }
        } else if address == STAT_ADDRESS {
            let kept: u8 = self.memory[STAT_ADDRESS as usize] % 8;
            self.memory.set(STAT_ADDRESS as usize, value / 8 * 8 + kept);
        } else {
            self.memory.set(translate(address), value);
        }
    }

    /// Writes `value` at `address` and the address after it, low byte first.
    /// At 0xFFFF the high byte goes to 0x0000.
    pub fn write_short(&mut self, address: u16, value: u16)
        requires
            old(self).wf(),
        ensures
            final(self).wf(),
            final(self)@ == old(self)@.write_short(address, value),
    {
        self.write_byte(address, value.lo());
        self.write_byte(next_address(address), value.hi());
    }

    /// Reads the byte at `address`.
    pub fn read_byte(&self, address: u16) -> (value: u8)
        requires
            self.wf(),
        ensures
            value == self@.read(address),
    {
        if address < 0x4000 {
            self.memory[address as usize]
        } else if address < 0x8000 {
            self.cart.read_banked(address)
        } else if address >= 0xA000 && address < 0xC000 {
            match &self.cart {
                Cart::MBC1(data) => data.read_ram(address),
                Cart::RomOnly(_) => self.memory[address as usize],
            }
        } else if address >= 0xFEA0 && address <= 0xFEFF {
            0xFF
        } else if address == IF_ADDRESS {
            0xE0 + self.memory[IF_ADDRESS as usize] % 32
        } else {
            self.memory[translate(address)]
        }
    }

    /// Reads the byte at `address` as a two's-complement number.
    pub fn read_signed_byte(&self, address: u16) -> (value: i8)
        requires
            self.wf(),
        ensures
            value == spec_signed(self@.read(address)),
    {
        let byte: u8 = self.read_byte(address);
        if byte < 128 {
            byte as i8
        } else {
            (byte as i16 - 256) as i8
        }
    }

    /// Reads the little-endian word at `address` and the address after it.
    /// At 0xFFFF the high byte comes from 0x0000.
    pub fn read_short(&self, address: u16) -> (value: u16)
        requires
            self.wf(),
        ensures
            value == self@.read_short(address),
    {
        let lo: u8 = self.read_byte(address);
        let hi: u8 = self.read_byte(next_address(address));
        hi as u16 * 256 + lo as u16
    }
}

} // verus!
