//! The pixel unit: the scanline state machine that keeps time with the
//! processor, and the rendering of the background into a frame.

use vstd::prelude::*;
use crate::frame::flipped_texture;
use crate::frame::frame_bytes;
use crate::frame::spec_flip_rows;
use crate::frame::spec_pixel_offset;
use crate::frame::texture_content;
use crate::frame::FrameBuffer;
use crate::frame::FRAME_BYTES;
use crate::frame::FRAME_SIDE;
use crate::memory::spec_signed;
use crate::memory::Memory;
use crate::memory::MEMORY_SIZE;
use crate::memory::IF_ADDRESS;
use crate::memory::LCDC_ADDRESS;
use crate::memory::LY_ADDRESS;
use crate::memory::SCX_ADDRESS;
use crate::memory::SCY_ADDRESS;
use crate::memory::STAT_ADDRESS;

verus! {

/// Number of scanlines that are drawn.
pub const VISIBLE_LINES: u8 = 144;

/// Number of scanlines in a frame, the vertical blank included.
pub const TOTAL_LINES: u8 = 154;

/// What the pixel unit is doing with the current scanline.
#[derive(Clone, Copy, Debug, PartialEq, Eq, Structural)]
pub enum Mode {
    HBlank,
    VBlank,
    OAMSearch,
    PixelTransfer,
}

impl Mode {
    /// The mode's number in the two low bits of the status register.
    pub open spec fn spec_bits(self) -> u8 {
        match self {
            Mode::HBlank => 0,
            Mode::VBlank => 1,
            Mode::OAMSearch => 2,
            Mode::PixelTransfer => 3,
        }
    }

    /// The clock ticks the pixel unit spends in the mode.
    pub open spec fn spec_cycles(self) -> int {
        match self {
            Mode::OAMSearch => 80,
            Mode::PixelTransfer => 172,
            Mode::HBlank => 204,
            Mode::VBlank => 456,
        }
    }

    pub fn bits(&self) -> (bits: u8)
        ensures
            bits == self.spec_bits(),
    {
        match self {
            Mode::HBlank => 0,
            Mode::VBlank => 1,
            Mode::OAMSearch => 2,
            Mode::PixelTransfer => 3,
        }
    }

    pub fn cycles(&self) -> (cycles: i64)
        ensures
            cycles == self.spec_cycles(),
    {
        match self {
            Mode::OAMSearch => 80,
            Mode::PixelTransfer => 172,
            Mode::HBlank => 204,
            Mode::VBlank => 456,
        }
    }
}

/// The state of the scanline state machine.
pub struct Scan {
    pub mode: Mode,
    pub line: u8,
}

impl Scan {
    /// The line counter fits the mode: a line that is searched or
    /// transferred is visible, a horizontal blank follows one of the
    /// visible lines, and the vertical blank covers the lines after them.
    pub open spec fn wf(self) -> bool {
        match self.mode {
            Mode::OAMSearch => self.line < VISIBLE_LINES,
            Mode::PixelTransfer => self.line < VISIBLE_LINES,
            Mode::HBlank => 1 <= self.line <= VISIBLE_LINES,
            Mode::VBlank => VISIBLE_LINES <= self.line < TOTAL_LINES,
        }
    }

    /// The state after one transition. A search is followed by the
    /// transfer, the transfer by the horizontal blank, in which the line
    /// counter steps up. After the blank of the last visible line comes
    /// the vertical blank, after any other the search of the next line.
    /// The vertical blank repeats, the line counter stepping up, until the
    /// counter wraps to line 0 and its search.
    pub open spec fn spec_next(self) -> Scan {
        match self.mode {
            Mode::OAMSearch => Scan { mode: Mode::PixelTransfer, line: self.line },
            Mode::PixelTransfer => Scan { mode: Mode::HBlank, line: (self.line + 1) as u8 },
            Mode::HBlank => if self.line < VISIBLE_LINES {
                Scan { mode: Mode::OAMSearch, line: self.line }
            } else {
                Scan { mode: Mode::VBlank, line: self.line }
            },
            Mode::VBlank => if self.line + 1 == TOTAL_LINES {
                Scan { mode: Mode::OAMSearch, line: 0 }
            } else {
                Scan { mode: Mode::VBlank, line: (self.line + 1) as u8 }
            },
        }
    }
}

/// The cells with the two low bits of the status register set to the
/// mode's number.
pub open spec fn spec_mirror_mode(bytes: Seq<u8>, mode: Mode) -> Seq<u8> {
    bytes.update(
        STAT_ADDRESS as int,
        (bytes[STAT_ADDRESS as int] / 4 * 4 + mode.spec_bits()) as u8,
    )
}

/// The cells with the V-blank bit of the interrupt requests set or
/// cleared.
pub open spec fn spec_request_vblank(bytes: Seq<u8>, raised: bool) -> Seq<u8> {
    bytes.update(
        IF_ADDRESS as int,
        (bytes[IF_ADDRESS as int] / 2 * 2 + if raised {
            1int
        } else {
            0int
        }) as u8,
    )
}

/// The cells after the transition from `scan`: the status register
/// mirrors the new mode; the scanline register mirrors the line counter
/// whenever it has changed; the V-blank request is raised when the
/// vertical blank begins and withdrawn when it ends.
pub open spec fn spec_step_cells(bytes: Seq<u8>, scan: Scan) -> Seq<u8> {
    let next = scan.spec_next();
    let mirrored = spec_mirror_mode(bytes, next.mode);
    match scan.mode {
        Mode::OAMSearch => mirrored,
        Mode::PixelTransfer => mirrored.update(LY_ADDRESS as int, next.line),
        Mode::HBlank => if next.mode == Mode::VBlank {
            spec_request_vblank(mirrored, true)
        } else {
            mirrored
        },
        Mode::VBlank => if next.mode == Mode::OAMSearch {
            spec_request_vblank(mirrored, false).update(LY_ADDRESS as int, next.line)
        } else {
            mirrored.update(LY_ADDRESS as int, next.line)
        },
    }
}

/// Every transition keeps the line counter fitting the mode; the line
/// counter never exceeds 153.
pub proof fn lemma_scan_stays_well_formed(scan: Scan)
    requires
        scan.wf(),
    ensures
        scan.spec_next().wf(),
        scan.spec_next().line <= 153,
{
}

/// The modes follow each other in a fixed order: search, transfer,
/// horizontal blank; then the search of the next line, or after line 143
/// the vertical blank, which lasts until the line counter wraps from 153
/// to 0 and the search of line 0 begins.
pub proof fn lemma_mode_order(scan: Scan)
    requires
        scan.wf(),
    ensures
        scan.mode == Mode::OAMSearch ==> scan.spec_next().mode == Mode::PixelTransfer,
        scan.mode == Mode::PixelTransfer ==> scan.spec_next().mode == Mode::HBlank,
        scan.mode == Mode::HBlank ==> scan.spec_next().mode == if scan.line == VISIBLE_LINES {
            Mode::VBlank
        } else {
            Mode::OAMSearch
        },
        scan.mode == Mode::VBlank ==> scan.spec_next().mode == if scan.line == 153 {
            Mode::OAMSearch
        } else {
            Mode::VBlank
        },
        scan.mode == Mode::VBlank && scan.line == 153 ==> scan.spec_next().line == 0,
{
}

/// After every transition the status register's two low bits are the
/// number of the mode entered; and a scanline register that showed the
/// line counter before the transition shows it after, so that it never
/// exceeds 153.
pub proof fn lemma_registers_mirror(bytes: Seq<u8>, scan: Scan)
    requires
        scan.wf(),
        bytes.len() == MEMORY_SIZE,
        bytes[LY_ADDRESS as int] == scan.line,
    ensures
        spec_step_cells(bytes, scan)[STAT_ADDRESS as int] % 4 == scan.spec_next().mode.spec_bits(),
        spec_step_cells(bytes, scan)[LY_ADDRESS as int] == scan.spec_next().line,
        spec_step_cells(bytes, scan)[LY_ADDRESS as int] <= 153,
{
}

/// The V-blank request is raised by the transition into the vertical
/// blank, withdrawn by the transition out of it, and left alone by every
/// other.
pub proof fn lemma_vblank_request(bytes: Seq<u8>, scan: Scan)
    requires
        scan.wf(),
        bytes.len() == MEMORY_SIZE,
    ensures
        spec_step_cells(bytes, scan)[IF_ADDRESS as int] % 2 == if scan.mode == Mode::HBlank
            && scan.line == VISIBLE_LINES {
            1int
        } else if scan.mode == Mode::VBlank && scan.line == 153 {
            0int
        } else {
            bytes[IF_ADDRESS as int] as int % 2
        },
        spec_step_cells(bytes, scan)[IF_ADDRESS as int] / 2 == bytes[IF_ADDRESS as int] / 2,
{
}

/// From the search of a visible line, three transitions lead to the
/// search of the next line, or from the last visible line into the
/// vertical blank; the line counter is one higher.
pub proof fn lemma_scanline_cycle(scan: Scan)
    requires
        scan.mode == Mode::OAMSearch,
        scan.line < VISIBLE_LINES,
    ensures
        scan.spec_next().spec_next().spec_next() == (Scan {
            mode: if scan.line + 1 == VISIBLE_LINES {
                Mode::VBlank
            } else {
                Mode::OAMSearch
            },
            line: (scan.line + 1) as u8,
        }),
{
}

/// The column of the tile map's base address that the control byte
/// selects with bit 3.
pub open spec fn spec_tile_map_base(control: u8) -> int {
    if control / 8 % 2 == 1 {
        0x9C00
    } else {
        0x9800
    }
}

/// The address of the 16 bytes of tile `index`. With bit 4 of the control
/// byte set, tiles are counted from 0x8000 by an unsigned index; with it
/// clear, from 0x9000 by a signed one.
pub open spec fn spec_tile_address(control: u8, index: u8) -> int {
    if control / 16 % 2 == 1 {
        0x8000 + index * 16
    } else {
        0x8800 + (spec_signed(index) + 128) * 16
    }
}

/// The bit of `byte` for pixel column `column` of a tile row; column 0 is
/// the leftmost pixel and the byte's top bit.
pub open spec fn spec_plane_bit(byte: u8, column: u8) -> u8 {
    (byte >> (7 - column) as u8) & 1
}

/// The shade, 0 to 3, of the background pixel at column `x` of row `y`.
/// The tile map names the tile of each 8 by 8 block; a tile row is two
/// bytes, of which the first gives the upper bit of each pixel's shade
/// and the second the lower.
pub open spec fn spec_shade(bytes: Seq<u8>, x: int, y: int) -> u8 {
    let control = bytes[LCDC_ADDRESS as int];
    let index = bytes[spec_tile_map_base(control) + y / 8 * 32 + x / 8];
    let row = spec_tile_address(control, index) + y % 8 * 2;
    (spec_plane_bit(bytes[row], (x % 8) as u8) * 2 + spec_plane_bit(bytes[row + 1], (x % 8) as u8)) as u8
}

/// One colour channel of a shade's grey: shades 0 to 3 run from black to
/// white in equal steps; alpha, the fourth channel, is always full.
pub open spec fn spec_channel(shade: u8, channel: int) -> u8 {
    if channel == 3 {
        255
    } else {
        (shade * 85) as u8
    }
}

/// The bytes of the frame that shows the whole background.
pub open spec fn spec_frame(bytes: Seq<u8>) -> Seq<u8> {
    Seq::new(
        FRAME_BYTES as nat,
        |i: int| spec_channel(spec_shade(bytes, i / 4 % 256, i / 4 / 256), i % 4),
    )
}

/// The pixel unit.
pub struct PPU {
    pub frame_buffer: FrameBuffer,
    pub mode: Mode,
    pub current_line: u8,
}

/// The mathematical content of a [`PPU`].
pub struct PpuView {
    pub frame: Seq<u8>,
    pub scan: Scan,
}

impl View for PPU {
    type V = PpuView;

    open spec fn view(&self) -> PpuView {
        PpuView {
            frame: frame_bytes(self.frame_buffer),
            scan: Scan { mode: self.mode, line: self.current_line },
        }
    }
}

/// The grey of a shade, as red, green, blue and alpha.
pub fn to_pixel(bits: u8) -> (pixel: (u8, u8, u8, u8))
    requires
        bits < 4,
    ensures
        pixel == (
            spec_channel(bits, 0),
            spec_channel(bits, 1),
            spec_channel(bits, 2),
            spec_channel(bits, 3),
        ),
{
    match bits {
        0 => (0u8, 0, 0, 255),
        1 => (85u8, 85, 85, 255),
        2 => (170u8, 170, 170, 255),
        _ => (255u8, 255, 255, 255),
    }
}

/// The bit of `byte` for pixel column `column` of a tile row.
pub fn plane_bit(byte: u8, column: u8) -> (bit: u8)
    requires
        column < 8,
    ensures
        bit == spec_plane_bit(byte, column),
        bit <= 1,
{
    let shift: u8 = 7 - column;
    let bit: u8 = (byte >> shift) & 1;
    assert((byte >> shift) & 1 <= 1) by (bit_vector);
    bit
}

/// The shade of the background pixel at column `x` of row `y`.
pub fn shade_at(memory: &Memory, x: u32, y: u32) -> (shade: u8)
    requires
        memory.wf(),
        x < FRAME_SIDE,
        y < FRAME_SIDE,
    ensures
        shade == spec_shade(memory@.bytes, x as int, y as int),
        shade < 4,
{
    let control: u8 = memory.memory[LCDC_ADDRESS as usize];
    let map_base: usize = if control / 8 % 2 == 1 { 0x9C00 } else { 0x9800 };
    let index: u8 = memory.memory[map_base + (y / 8 * 32 + x / 8) as usize];
    let tile: usize = if control / 16 % 2 == 1 {
        0x8000 + index as usize * 16
    } else if index < 128 {
        0x8800 + (index as usize + 128) * 16
    } else {
        0x8800 + (index as usize - 128) * 16
    };
    let row: usize = tile + (y % 8 * 2) as usize;
    let column: u8 = (x % 8) as u8;
    plane_bit(memory.memory[row], column) * 2 + plane_bit(memory.memory[row + 1], column)
}

impl PPU {
    pub open spec fn wf(&self) -> bool {
        &&& self.frame_buffer.wf()
        &&& self@.scan.wf()
    }

    /// A pixel unit with a black, transparent frame, about to search the
    /// first line.
    pub fn new() -> (ppu: PPU)
        ensures
            ppu.wf(),
            ppu@.scan == (Scan { mode: Mode::OAMSearch, line: 0 }),
            ppu@.frame == Seq::new(FRAME_BYTES as nat, |i: int| 0u8),
    {
        PPU { frame_buffer: FrameBuffer::new(), mode: Mode::OAMSearch, current_line: 0 }
    }

    /// The bytes of the frame, row by row from the top, four to a pixel:
    /// red, green, blue, alpha.
    pub fn frame(&self) -> (bytes: Vec<u8>)
        ensures
            bytes@ == self@.frame,
    {
        self.frame_buffer.to_raw()
    }

    /// Renders the background into the frame and returns it as a texture,
    /// with the number 0.
    ///
    /// The control register selects the tile map and the tile data. The
    /// palette register is not consulted, and the scroll registers are
    /// read but do not move the picture. Nothing but the frame changes.
    pub fn draw(&mut self, memory: &Memory) -> (out: (glium::texture::RawImage2d<'static, u8>, u8))
        requires
            old(self).wf(),
            memory.wf(),
        ensures
            final(self).wf(),
            final(self)@.scan == old(self)@.scan,
            final(self)@.frame == spec_frame(memory@.bytes),
            texture_content(out.0) == (
                spec_flip_rows(spec_frame(memory@.bytes)),
                FRAME_SIDE as nat,
                FRAME_SIDE as nat,
            ),
            out.1 == 0,
    {
        let mut cur_y: u32 = 0;
        while cur_y < FRAME_SIDE
            invariant
                cur_y <= FRAME_SIDE,
                memory.wf(),
                self.wf(),
                self@.scan == old(self)@.scan,
                forall|i: int|
                    0 <= i < spec_pixel_offset(0, cur_y as int) ==> self@.frame[i] == spec_frame(
                        memory@.bytes,
                    )[i],
            decreases FRAME_SIDE - cur_y,
        {
            let mut cur_x: u32 = 0;
            while cur_x < FRAME_SIDE
                invariant
                    cur_x <= FRAME_SIDE,
                    cur_y < FRAME_SIDE,
                    memory.wf(),
                    self.wf(),
                    self@.scan == old(self)@.scan,
                    forall|i: int|
                        0 <= i < spec_pixel_offset(cur_x as int, cur_y as int) ==> self@.frame[i]
                            == spec_frame(memory@.bytes)[i],
                decreases FRAME_SIDE - cur_x,
            {
                let (red, green, blue, alpha) = to_pixel(shade_at(memory, cur_x, cur_y));
                self.frame_buffer.put_pixel(cur_x, cur_y, red, green, blue, alpha);
                cur_x += 1;
            }
            cur_y += 1;
        }
        let _scroll_y: u8 = memory.read_byte(SCY_ADDRESS);
        let _scroll_x: u8 = memory.read_byte(SCX_ADDRESS);
        assert(self@.frame =~= spec_frame(memory@.bytes));
        let raw: Vec<u8> = self.frame_buffer.to_raw();
        (flipped_texture(&raw), 0)
    }

    /// Advances the state machine by one transition, mirrors the new state
    /// into the registers, and returns the clock ticks of the mode just
    /// entered.
    pub fn step(&mut self, memory: &mut Memory) -> (cycles: i64)
        requires
            old(self).wf(),
            old(memory).wf(),
        ensures
            final(self).wf(),
            final(memory).wf(),
            final(self)@.scan == old(self)@.scan.spec_next(),
            final(self)@.frame == old(self)@.frame,
            final(memory)@.cart == old(memory)@.cart,
            final(memory)@.bytes == spec_step_cells(old(memory)@.bytes, old(self)@.scan),
            cycles == old(self)@.scan.spec_next().mode.spec_cycles(),
    {
        let status: u8 = memory.memory[STAT_ADDRESS as usize] / 4 * 4;
        let requests: u8 = memory.memory[IF_ADDRESS as usize] / 2 * 2;
        match self.mode {
            Mode::OAMSearch => {
                self.mode = Mode::PixelTransfer;
            },
            Mode::PixelTransfer => {
                self.mode = Mode::HBlank;
                self.current_line += 1;
                memory.memory.set(LY_ADDRESS as usize, self.current_line);
            },
            Mode::HBlank => {
                if self.current_line == VISIBLE_LINES {
                    self.mode = Mode::VBlank;
                    memory.memory.set(IF_ADDRESS as usize, requests + 1);
                } else {
                    self.mode = Mode::OAMSearch;
                }
            },
            Mode::VBlank => {
                self.current_line += 1;
                if self.current_line == TOTAL_LINES {
                    self.current_line = 0;
                    self.mode = Mode::OAMSearch;
                    memory.memory.set(IF_ADDRESS as usize, requests);
                }
                memory.memory.set(LY_ADDRESS as usize, self.current_line);
            },
        }
        memory.memory.set(STAT_ADDRESS as usize, status + self.mode.bits());
        assert(memory@.bytes =~= spec_step_cells(old(memory)@.bytes, old(self)@.scan));
        self.mode.cycles()
    }

    /// The clock ticks that the current mode lasts.
    pub fn estimate_clock_cycles(&mut self) -> (cycles: i64)
        ensures
            cycles == old(self)@.scan.mode.spec_cycles(),
            *final(self) == *old(self),
    {
        self.mode.cycles()
    }
}

} // verus!
