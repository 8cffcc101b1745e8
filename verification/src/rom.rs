//! Cartridges: the mapper kinds, their bank-select state, and how a raw ROM
//! image becomes a freshly loaded memory.

use vstd::prelude::*;
use crate::memory::Memory;
use crate::memory::MemoryView;
use crate::memory::MEMORY_SIZE;

verus! {

/// Size in bytes of one ROM bank, and of the fixed bank at the bottom of the
/// address space.
pub const ROM_BANK_SIZE: usize = 0x4000;

/// Size in bytes of one cartridge RAM bank.
pub const RAM_BANK_SIZE: usize = 0x2000;

/// Size in bytes of the ROM image an MBC1 cartridge owns (128 banks).
pub const MBC1_ROM_SIZE: usize = 0x20_0000;

/// Size in bytes of the RAM an MBC1 cartridge owns (4 banks).
pub const MBC1_RAM_SIZE: usize = 0x8000;

/// Offset in the image of the byte that names the mapper.
pub const CART_TYPE_OFFSET: usize = 0x0147;

/// What the two bank-select registers of an MBC1 mean.
#[derive(Clone, Copy, Debug, PartialEq, Eq, Structural)]
pub enum MBCMode {
    /// Both registers together select the ROM bank; RAM bank 0 is exposed.
    Rom,
    /// The low register alone selects the ROM bank; the high register
    /// selects the RAM bank.
    Ram,
}

/// The storage and bank-select state of an MBC1 cartridge.
pub struct MBC1Data {
    pub bank_lo: u8,
    pub bank_hi: u8,
    pub rom: Vec<u8>,
    pub ram: Vec<u8>,
    pub mode: MBCMode,
    pub ram_enabled: bool,
}

/// A cartridge, by mapper kind. The kind is fixed when the image is loaded.
pub enum Cart {
    /// No mapper: one fixed 16 KiB bank behind 0x4000-0x7FFF.
    RomOnly(Vec<u8>),
    /// Bank-switching mapper.
    MBC1(MBC1Data),
}

/// Why an image could not be loaded.
#[derive(Debug)]
pub enum RomError {
    /// The mapper byte names a cartridge kind that is not supported.
    Invalid,
    /// The image could not be read in full; the text says what was missing.
    Io(String),
}

/// The mathematical content of an [`MBC1Data`].
pub struct MBC1View {
    pub bank_lo: u8,
    pub bank_hi: u8,
    pub rom: Seq<u8>,
    pub ram: Seq<u8>,
    pub mode: MBCMode,
    pub ram_enabled: bool,
}

/// The mathematical content of a [`Cart`].
pub enum CartView {
    RomOnly(Seq<u8>),
    MBC1(MBC1View),
}

impl View for MBC1Data {
    type V = MBC1View;

    open spec fn view(&self) -> MBC1View {
        MBC1View {
            bank_lo: self.bank_lo,
            bank_hi: self.bank_hi,
            rom: self.rom@,
            ram: self.ram@,
            mode: self.mode,
            ram_enabled: self.ram_enabled,
        }
    }
}

impl View for Cart {
    type V = CartView;

    open spec fn view(&self) -> CartView {
        match self {
            Cart::RomOnly(bank) => CartView::RomOnly(bank@),
            Cart::MBC1(data) => CartView::MBC1(data@),
        }
    }
}

impl MBC1View {
    /// The low register holds 1 to 31, the high register 0 to 3, and both
    /// stores have their full size.
    pub open spec fn wf(self) -> bool {
        &&& 1 <= self.bank_lo <= 31
        &&& self.bank_hi <= 3
        &&& self.rom.len() == MBC1_ROM_SIZE
        &&& self.ram.len() == MBC1_RAM_SIZE
    }

    /// Number of the ROM bank that answers at 0x4000-0x7FFF.
    pub open spec fn rom_bank(self) -> int {
        match self.mode {
            MBCMode::Rom => self.bank_hi * 32 + self.bank_lo,
            MBCMode::Ram => self.bank_lo as int,
        }
    }

    /// Number of the RAM bank that answers at 0xA000-0xBFFF.
    pub open spec fn ram_bank(self) -> int {
        match self.mode {
            MBCMode::Rom => 0,
            MBCMode::Ram => self.bank_hi as int,
        }
    }

    /// Index into `rom` of the byte behind `address` (0x4000-0x7FFF).
    pub open spec fn rom_index(self, address: u16) -> int {
        self.rom_bank() * ROM_BANK_SIZE + (address - 0x4000)
    }

    /// Index into `ram` of the byte behind `address` (0xA000-0xBFFF).
    pub open spec fn ram_index(self, address: u16) -> int {
        self.ram_bank() * RAM_BANK_SIZE + (address - 0xA000)
    }

    /// The byte read at `address` in 0xA000-0xBFFF: the banked RAM byte, or
    /// 0xFF while RAM is disabled.
    pub open spec fn read_ram(self, address: u16) -> u8 {
        if self.ram_enabled {
            self.ram[self.ram_index(address)]
        } else {
            0xFF
        }
    }

    /// The state after `value` is written at `address` in 0xA000-0xBFFF:
    /// the banked RAM byte is replaced, unless RAM is disabled.
    pub open spec fn write_ram(self, address: u16, value: u8) -> MBC1View {
        if self.ram_enabled {
            MBC1View { ram: self.ram.update(self.ram_index(address), value), ..self }
        } else {
            self
        }
    }

    /// The state after `value` is written at `address` below 0x8000. Which
    /// register is set depends on the 8 KiB quarter the address lies in:
    /// RAM enable, low bank bits (0 reads as 1), high bank bits, mode.
    pub open spec fn write_control(self, address: u16, value: u8) -> MBC1View {
        if address < 0x2000 {
            MBC1View { ram_enabled: value % 16 == 0x0A, ..self }
        } else if address < 0x4000 {
            MBC1View { bank_lo: if value % 32 == 0 { 1u8 } else { (value % 32) as u8 }, ..self }
        } else if address < 0x6000 {
            MBC1View { bank_hi: (value % 4) as u8, ..self }
        } else {
            MBC1View { mode: if value % 2 == 1 { MBCMode::Ram } else { MBCMode::Rom }, ..self }
        }
    }
}

impl CartView {
    pub open spec fn wf(self) -> bool {
        match self {
            CartView::RomOnly(bank) => bank.len() == ROM_BANK_SIZE,
            CartView::MBC1(data) => data.wf(),
        }
    }

    /// Whether the cartridge answers at 0xA000-0xBFFF with RAM of its own.
    pub open spec fn has_ram(self) -> bool {
        self is MBC1
    }

    /// The byte the cartridge shows at `address` in 0x4000-0x7FFF.
    pub open spec fn read_banked(self, address: u16) -> u8 {
        match self {
            CartView::RomOnly(bank) => bank[address - 0x4000],
            CartView::MBC1(data) => data.rom[data.rom_index(address)],
        }
    }

    /// The cartridge after a write below 0x8000: mapper control for MBC1,
    /// nothing for a cartridge without a mapper.
    pub open spec fn write_control(self, address: u16, value: u8) -> CartView {
        match self {
            CartView::RomOnly(bank) => self,
            CartView::MBC1(data) => CartView::MBC1(data.write_control(address, value)),
        }
    }
}

impl MBC1Data {
    /// Reads the banked ROM byte behind `address`.
    pub fn read_banked(&self, address: u16) -> (value: u8)
        requires
            self@.wf(),
            0x4000 <= address < 0x8000,
        ensures
            value == self@.rom[self@.rom_index(address)],
    {
        let bank: usize = match self.mode {
            MBCMode::Rom => self.bank_hi as usize * 32 + self.bank_lo as usize,
            MBCMode::Ram => self.bank_lo as usize,
        };
        self.rom[bank * ROM_BANK_SIZE + (address as usize - 0x4000)]
    }

    /// Reads the cartridge RAM byte behind `address`.
    pub fn read_ram(&self, address: u16) -> (value: u8)
        requires
            self@.wf(),
            0xA000 <= address < 0xC000,
        ensures
            value == self@.read_ram(address),
    {
        if self.ram_enabled {
            let bank: usize = match self.mode {
                MBCMode::Rom => 0,
                MBCMode::Ram => self.bank_hi as usize,
            };
            self.ram[bank * RAM_BANK_SIZE + (address as usize - 0xA000)]
        } else {
            0xFF
        }
    }

    /// Writes `value` to the cartridge RAM byte behind `address`.
    pub fn write_ram(&mut self, address: u16, value: u8)
        requires
            old(self)@.wf(),
            0xA000 <= address < 0xC000,
        ensures
            final(self)@.wf(),
            final(self)@ == old(self)@.write_ram(address, value),
    {
        if self.ram_enabled {
            let bank: usize = match self.mode {
                MBCMode::Rom => 0,
                MBCMode::Ram => self.bank_hi as usize,
            };
            self.ram.set(bank * RAM_BANK_SIZE + (address as usize - 0xA000), value);
        }
    }

    /// Applies a mapper-control write.
    pub fn write_control(&mut self, address: u16, value: u8)
        requires
            old(self)@.wf(),
            address < 0x8000,
        ensures
            final(self)@.wf(),
            final(self)@ == old(self)@.write_control(address, value),
    {
        if address < 0x2000 {
            self.ram_enabled = value % 16 == 0x0A;
        } else if address < 0x4000 {
            let low: u8 = value % 32;
            self.bank_lo = if low == 0 { 1 } else { low };
        } else if address < 0x6000 {
            self.bank_hi = value % 4;
        } else {
            self.mode = if value % 2 == 1 { MBCMode::Ram } else { MBCMode::Rom };
        }
    }
}

impl Cart {
    /// Reads the byte the cartridge shows at `address` in 0x4000-0x7FFF.
    pub fn read_banked(&self, address: u16) -> (value: u8)
        requires
            self@.wf(),
            0x4000 <= address < 0x8000,
        ensures
            value == self@.read_banked(address),
    {
        match self {
            Cart::RomOnly(bank) => bank[address as usize - 0x4000],
            Cart::MBC1(data) => data.read_banked(address),
        }
    }

    /// Applies a write below 0x8000.
    pub fn write_control(&mut self, address: u16, value: u8)
        requires
            old(self)@.wf(),
            address < 0x8000,
        ensures
            final(self)@.wf(),
            final(self)@ == old(self)@.write_control(address, value),
    {
        match self {
            Cart::RomOnly(_) => {},
            Cart::MBC1(data) => {
                data.write_control(address, value);
            },
        }
    }
}

/// `len` bytes of `image` from offset `start` on, with zeros where the image
/// has ended.
pub open spec fn spec_window(image: Seq<u8>, start: int, len: nat) -> Seq<u8> {
    Seq::new(len, |i: int| if start + i < image.len() { image[start + i] } else { 0u8 })
}

/// The flat array of a freshly loaded memory: the image's first bank, and
/// zeros above it.
pub open spec fn spec_loaded_bytes(image: Seq<u8>) -> Seq<u8> {
    Seq::new(MEMORY_SIZE as nat, |i: int| if i < ROM_BANK_SIZE { image[i] } else { 0u8 })
}

/// The cartridge that an image with mapper byte 0x00 or 0x01 loads as.
/// Without a mapper it is the image's second bank; with MBC1 it is the whole
/// image, bank 1 selected, in ROM mode, RAM zeroed and disabled.
pub open spec fn spec_loaded_cart(image: Seq<u8>) -> CartView {
    if image[CART_TYPE_OFFSET as int] == 0x00 {
        CartView::RomOnly(spec_window(image, ROM_BANK_SIZE as int, ROM_BANK_SIZE as nat))
    } else {
        CartView::MBC1(
            MBC1View {
                bank_lo: 1,
                bank_hi: 0,
                rom: spec_window(image, 0, MBC1_ROM_SIZE as nat),
                ram: Seq::new(MBC1_RAM_SIZE as nat, |i: int| 0u8),
                mode: MBCMode::Rom,
                ram_enabled: false,
            },
        )
    }
}

/// Whether the image's mapper byte names a supported cartridge kind.
pub open spec fn spec_supported(image: Seq<u8>) -> bool {
    image[CART_TYPE_OFFSET as int] == 0x00 || image[CART_TYPE_OFFSET as int] == 0x01
}

/// The text carried by the error for an image that ends inside its first
/// bank.
pub open spec fn spec_truncated_text() -> Seq<char> {
    "failed to fill whole buffer"@
}

/// Copies `len` bytes of `image` from offset `start` on, padding with zeros.
pub fn copy_window(image: &[u8], start: usize, len: usize) -> (out: Vec<u8>)
    requires
        start + len <= usize::MAX,
    ensures
        out@ == spec_window(image@, start as int, len as nat),
{
    let mut out: Vec<u8> = Vec::with_capacity(len);
    let mut i: usize = 0;
    while i < len
        invariant
            i <= len,
            start + len <= usize::MAX,
            out@ == spec_window(image@, start as int, i as nat),
        decreases len - i,
    {
        let byte: u8 = if start + i < image.len() { image[start + i] } else { 0 };
        out.push(byte);
        i += 1;
        assert(out@ =~= spec_window(image@, start as int, i as nat));
    }
    out
}

/// Builds the memory that a raw cartridge image loads as.
///
/// The image must hold its first bank in full, else the load fails as a
/// short read does. The byte at 0x0147 then chooses the cartridge kind;
/// any value but 0x00 and 0x01 is refused. On success the first bank is
/// in the flat array and the rest of the memory is zero.
pub fn load_rom(image: &[u8]) -> (result: Result<Memory, RomError>)
    ensures
        image@.len() < ROM_BANK_SIZE ==> (result matches Err(RomError::Io(text)) && text@
            == spec_truncated_text()),
        image@.len() >= ROM_BANK_SIZE && !spec_supported(image@) ==> result is Err
            && result->Err_0 is Invalid,
        image@.len() >= ROM_BANK_SIZE && spec_supported(image@) ==> (result matches Ok(memory)
            && memory.wf() && memory@.bytes == spec_loaded_bytes(image@) && memory@.cart
            == spec_loaded_cart(image@)),
{
    if image.len() < ROM_BANK_SIZE {
        return Err(RomError::Io("failed to fill whole buffer".to_owned()));
    }
    let cart_val: u8 = image[CART_TYPE_OFFSET];
    if cart_val != 0x00 && cart_val != 0x01 {
        return Err(RomError::Invalid);
    }
    let mut memory: Vec<u8> = copy_window(image, 0, ROM_BANK_SIZE);
    let mut i: usize = ROM_BANK_SIZE;
    while i < MEMORY_SIZE
        invariant
            ROM_BANK_SIZE <= i <= MEMORY_SIZE,
            image@.len() >= ROM_BANK_SIZE,
            memory@.len() == i,
            forall|k: int| 0 <= k < i ==> memory@[k] == spec_loaded_bytes(image@)[k],
        decreases MEMORY_SIZE - i,
    {
        memory.push(0);
        i += 1;
    }
    assert(memory@ =~= spec_loaded_bytes(image@));
    let cart = if cart_val == 0x00 {
        Cart::RomOnly(copy_window(image, ROM_BANK_SIZE, ROM_BANK_SIZE))
    } else {
        let ram: Vec<u8> = vec![0u8; MBC1_RAM_SIZE];
        assert(ram@ =~= Seq::new(MBC1_RAM_SIZE as nat, |i: int| 0u8));
        Cart::MBC1(
            MBC1Data {
                bank_lo: 0x01,
                bank_hi: 0x00,
                rom: copy_window(image, 0, MBC1_ROM_SIZE),
                ram,
                mode: MBCMode::Rom,
                ram_enabled: false,
            },
        )
    };
    Ok(Memory { memory, cart })
}

/// After an image without a mapper is loaded, the fixed bank reads as the
/// image's first 16 KiB and the banked region as its second 16 KiB, with
/// zeros where the image has ended.
pub proof fn lemma_rom_only_reads(image: Seq<u8>, address: u16)
    requires
        image.len() >= ROM_BANK_SIZE,
        image[CART_TYPE_OFFSET as int] == 0x00,
        address < 0x8000,
    ensures
        (MemoryView { bytes: spec_loaded_bytes(image), cart: spec_loaded_cart(image) }).read(
            address,
        ) == if address < image.len() {
            image[address as int]
        } else {
            0u8
        },
{
}

/// After an MBC1 image is loaded, the banked region reads as the image's
/// bank 1.
pub proof fn lemma_mbc1_reads_bank_one(image: Seq<u8>, address: u16)
    requires
        image.len() >= ROM_BANK_SIZE,
        image[CART_TYPE_OFFSET as int] == 0x01,
        0x4000 <= address < 0x8000,
    ensures
        (MemoryView { bytes: spec_loaded_bytes(image), cart: spec_loaded_cart(image) }).read(
            address,
        ) == if address < image.len() {
            image[address as int]
        } else {
            0u8
        },
{
}

} // verus!
