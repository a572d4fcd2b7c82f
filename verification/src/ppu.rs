//! The video controller as the bus sees it: video memory, object memory, the
//! video registers, and the scanline clock that renders the background.

use vstd::prelude::*;
use crate::error::CoreError;

verus! {

/// Width of the screen in pixels.
pub const LCD_WIDTH: usize = 160;

/// Height of the screen in pixels.
pub const LCD_HEIGHT: usize = 144;

/// Number of pixels of the screen.
pub const LCD_PIXELS: usize = LCD_WIDTH * LCD_HEIGHT;

/// Size of the video memory.
pub const VRAM_SIZE: usize = 0x2000;

/// Size of the object memory.
pub const OAM_SIZE: usize = 0xA0;

/// Size of the frame buffer.
pub const BUFFER_SIZE: usize = LCD_PIXELS * 4;

/// Bit of the control register that switches the controller on.
pub const PPU_ENABLE: u8 = 0x80;

/// Bit of the control register that selects how tiles are numbered.
pub const TILE_DATA_ADDRESSING_MODE: u8 = 0x10;

/// Bit of the control register that selects the background's tile map.
pub const BG_TILE_MAP: u8 = 0x08;

/// Bit of the control register that switches the background on.
pub const BG_WINDOW_ENABLE: u8 = 0x01;

/// Bit of the status register that tells that the line counter equals the
/// line compare register.
pub const LYC_EQ_LY: u8 = 0x04;

/// What the controller is doing.
#[derive(Clone, Copy, Debug, PartialEq, Eq, Structural)]
pub enum Mode {
    HBlink,
    VBlink,
    OamScan,
    Drawing,
}

impl Mode {
    /// The number of the mode in the low two bits of the status register.
    pub open spec fn number(self) -> u8 {
        match self {
            Mode::HBlink => 0,
            Mode::VBlink => 1,
            Mode::OamScan => 2,
            Mode::Drawing => 3,
        }
    }
}

/// Bit `c` of `v`.
pub open spec fn bit_at(v: u8, c: u8) -> u8 {
    (v >> c) & 1
}

/// The shade of grey that the palette gives to a 2-bit pixel.
pub open spec fn shade(palette: u8, pixel: u8) -> u8 {
    let colour = (palette >> ((pixel * 2) as u8)) & 3;
    if colour == 0 {
        0xFF
    } else if colour == 1 {
        0xAA
    } else if colour == 2 {
        0x55
    } else {
        0x00
    }
}

/// What a video controller holds.
pub struct PpuView {
    pub mode: Mode,
    pub lcdc: u8,
    pub stat: u8,
    pub ly: u8,
    pub lyc: u8,
    pub scx: u8,
    pub scy: u8,
    pub bgp: u8,
    pub obp0: u8,
    pub obp1: u8,
    pub wy: u8,
    pub wx: u8,
    pub cycles: u8,
    pub vram: Seq<u8>,
    pub oam: Seq<u8>,
    pub buffer: Seq<u8>,
}

impl PpuView {
    /// The three memories have their fixed sizes.
    pub open spec fn wf(self) -> bool {
        &&& self.vram.len() == VRAM_SIZE
        &&& self.oam.len() == OAM_SIZE
        &&& self.buffer.len() == BUFFER_SIZE
    }

    /// The controller after reset.
    pub open spec fn reset() -> PpuView {
        PpuView {
            mode: Mode::OamScan,
            lcdc: 0,
            stat: 0,
            ly: 0,
            lyc: 0,
            scx: 0,
            scy: 0,
            bgp: 0,
            obp0: 0,
            obp1: 0,
            wy: 0,
            wx: 0,
            cycles: 0,
            vram: Seq::new(VRAM_SIZE as nat, |i: int| 0u8),
            oam: Seq::new(OAM_SIZE as nat, |i: int| 0u8),
            buffer: Seq::new(BUFFER_SIZE as nat, |i: int| 0u8),
        }
    }

    /// Whether `addr` lies in the video memory.
    pub open spec fn in_vram(addr: u16) -> bool {
        0x8000 <= addr <= 0x9FFF
    }

    /// Whether `addr` lies in the object memory.
    pub open spec fn in_oam(addr: u16) -> bool {
        0xFE00 <= addr <= 0xFE9F
    }

    /// Whether `addr` lies in the range of the video registers.
    pub open spec fn in_registers(addr: u16) -> bool {
        0xFF40 <= addr <= 0xFF4B
    }

    /// Whether the controller serves `addr`.
    pub open spec fn maps(addr: u16) -> bool {
        Self::in_vram(addr) || Self::in_oam(addr) || Self::in_registers(addr)
    }

    /// Whether the video memory is out of the bus's reach.
    pub open spec fn vram_busy(self) -> bool {
        self.mode == Mode::Drawing
    }

    /// Whether the object memory is out of the bus's reach.
    pub open spec fn oam_busy(self) -> bool {
        self.mode == Mode::Drawing || self.mode == Mode::OamScan
    }

    /// The value of the register at `addr`, 0xFF where the range holds no
    /// register.
    pub open spec fn read_register(self, addr: u16) -> u8 {
        if addr == 0xFF40 {
            self.lcdc
        } else if addr == 0xFF41 {
            0x80 | self.stat | self.mode.number()
        } else if addr == 0xFF42 {
            self.scy
        } else if addr == 0xFF43 {
            self.scx
        } else if addr == 0xFF44 {
            self.ly
        } else if addr == 0xFF45 {
            self.lyc
        } else if addr == 0xFF47 {
            self.bgp
        } else if addr == 0xFF48 {
            self.obp0
        } else if addr == 0xFF49 {
            self.obp1
        } else if addr == 0xFF4A {
            self.wy
        } else if addr == 0xFF4B {
            self.wx
        } else {
            0xFF
        }
    }

    /// The result of a read at `addr`.
    pub open spec fn read(self, addr: u16) -> Result<u8, CoreError> {
        if Self::in_vram(addr) {
            if self.vram_busy() {
                Ok(0xFF)
            } else {
                Ok(self.vram[addr - 0x8000])
            }
        } else if Self::in_oam(addr) {
            if self.oam_busy() {
                Ok(0xFF)
            } else {
                Ok(self.oam[addr - 0xFE00])
            }
        } else if Self::in_registers(addr) {
            Ok(self.read_register(addr))
        } else {
            Err(CoreError::InvalidRegisterAddress { addr })
        }
    }

    /// The controller after `val` is written to the register at `addr`.
    pub open spec fn write_register(self, addr: u16, val: u8) -> PpuView {
        if addr == 0xFF40 {
            PpuView { lcdc: val, ..self }
        } else if addr == 0xFF41 {
            PpuView { stat: (self.stat & LYC_EQ_LY) | (val & 0xF8), ..self }
        } else if addr == 0xFF42 {
            PpuView { scy: val, ..self }
        } else if addr == 0xFF43 {
            PpuView { scx: val, ..self }
        } else if addr == 0xFF44 {
            PpuView { ly: val, ..self }
        } else if addr == 0xFF45 {
            PpuView { lyc: val, ..self }
        } else if addr == 0xFF47 {
            PpuView { bgp: val, ..self }
        } else if addr == 0xFF48 {
            PpuView { obp0: val, ..self }
        } else if addr == 0xFF49 {
            PpuView { obp1: val, ..self }
        } else if addr == 0xFF4A {
            PpuView { wy: val, ..self }
        } else if addr == 0xFF4B {
            PpuView { wx: val, ..self }
        } else {
            self
        }
    }

    /// The controller after `val` is written at `addr`. A write to a memory
    /// that is out of reach is dropped.
    pub open spec fn write(self, addr: u16, val: u8) -> PpuView {
        if Self::in_vram(addr) {
            if self.vram_busy() {
                self
            } else {
                PpuView { vram: self.vram.update(addr - 0x8000, val), ..self }
            }
        } else if Self::in_oam(addr) {
            if self.oam_busy() {
                self
            } else {
                PpuView { oam: self.oam.update(addr - 0xFE00, val), ..self }
            }
        } else if Self::in_registers(addr) {
            self.write_register(addr, val)
        } else {
            self
        }
    }

    /// The 2-bit pixel at a row and column of a tile.
    pub open spec fn pixel_of_tile(self, tile_idx: int, row: u8, col: u8) -> u8 {
        let low = self.vram[tile_idx * 16 + row * 2];
        let high = self.vram[tile_idx * 16 + row * 2 + 1];
        (bit_at(high, (7 - col) as u8) * 2 + bit_at(low, (7 - col) as u8)) as u8
    }

    /// The index of the tile at a row and column of a tile map. With the
    /// addressing bit set the byte of the map is the index; else bytes 0 to
    /// 127 stand for tiles 256 to 383.
    pub open spec fn tile_of_map(self, tile_map: bool, row: u8, col: u8) -> int {
        let entry = self.vram[0x1800 + (if tile_map {
            0x400int
        } else {
            0
        }) + row * 32 + col];
        if self.lcdc & TILE_DATA_ADDRESSING_MODE != 0 || entry >= 128 {
            entry as int
        } else {
            entry + 0x100
        }
    }

    /// The shade of the background at column `i` of the current line.
    pub open spec fn bg_shade(self, i: int) -> u8 {
        let y = self.ly.wrapping_add(self.scy);
        let x = ((i % 256) as u8).wrapping_add(self.scx);
        let tile = self.tile_of_map(self.lcdc & BG_TILE_MAP != 0, y / 8, x / 8);
        shade(self.bgp, self.pixel_of_tile(tile, y % 8, x % 8))
    }

    /// The controller after the background of the current line is drawn
    /// into the frame buffer, where the background is switched on.
    pub open spec fn render_bg(self) -> PpuView {
        if self.lcdc & BG_WINDOW_ENABLE == 0 {
            self
        } else {
            let start = LCD_WIDTH * self.ly;
            PpuView {
                buffer: Seq::new(
                    self.buffer.len(),
                    |j: int|
                        if start <= j < start + LCD_WIDTH {
                            self.bg_shade(j - start)
                        } else {
                            self.buffer[j]
                        },
                ),
                ..self
            }
        }
    }

    /// The controller after the line counter is compared with the line
    /// compare register.
    pub open spec fn check_lyc_eq_ly(self) -> PpuView {
        if self.ly == self.lyc {
            PpuView { stat: self.stat | LYC_EQ_LY, ..self }
        } else {
            PpuView { stat: self.stat & !LYC_EQ_LY, ..self }
        }
    }

    /// The controller after the mode that has run out is left for the next.
    pub open spec fn next_mode(self) -> PpuView {
        match self.mode {
            Mode::HBlink => {
                let ly = self.ly.wrapping_add(1);
                if ly < 144 {
                    (PpuView { ly, mode: Mode::OamScan, cycles: 20, ..self }).check_lyc_eq_ly()
                } else {
                    (PpuView { ly, mode: Mode::VBlink, cycles: 114, ..self }).check_lyc_eq_ly()
                }
            },
            Mode::VBlink => {
                let ly = self.ly.wrapping_add(1);
                if ly > 153 {
                    (PpuView { ly: 0, mode: Mode::OamScan, cycles: 20, ..self }).check_lyc_eq_ly()
                } else {
                    (PpuView { ly: 114, ..self }).check_lyc_eq_ly()
                }
            },
            Mode::OamScan => PpuView { mode: Mode::Drawing, cycles: 43, ..self },
            Mode::Drawing => PpuView { mode: Mode::HBlink, cycles: 51, ..self.render_bg() },
        }
    }

    /// Whether the cycle that starts in this state ends a frame.
    pub open spec fn frame_ends(self) -> bool {
        &&& self.lcdc & PPU_ENABLE != 0
        &&& self.cycles.wrapping_sub(1) == 0
        &&& self.mode == Mode::VBlink
        &&& self.ly.wrapping_add(1) > 153
    }

    /// The controller after one cycle. Switched off it stands still. Else
    /// the cycle counter of the mode goes down by one, modulo 256, and at 0
    /// the mode is left for the next.
    pub open spec fn tick(self) -> PpuView {
        if self.lcdc & PPU_ENABLE == 0 {
            self
        } else {
            let counted = PpuView { cycles: self.cycles.wrapping_sub(1), ..self };
            if counted.cycles > 0 {
                counted
            } else {
                counted.next_mode()
            }
        }
    }
}

/// The video controller.
pub struct Ppu {
    mode: Mode,
    lcdc: u8,
    stat: u8,
    ly: u8,
    lyc: u8,
    scx: u8,
    scy: u8,
    bgp: u8,
    obp0: u8,
    obp1: u8,
    wy: u8,
    wx: u8,
    cycles: u8,
    vram: Vec<u8>,
    oam: Vec<u8>,
    buffer: Vec<u8>,
}

impl View for Ppu {
    type V = PpuView;

    closed spec fn view(&self) -> PpuView {
        PpuView {
            mode: self.mode,
            lcdc: self.lcdc,
            stat: self.stat,
            ly: self.ly,
            lyc: self.lyc,
            scx: self.scx,
            scy: self.scy,
            bgp: self.bgp,
            obp0: self.obp0,
            obp1: self.obp1,
            wy: self.wy,
            wx: self.wx,
            cycles: self.cycles,
            vram: self.vram@,
            oam: self.oam@,
            buffer: self.buffer@,
        }
    }
}

proof fn lemma_bit_at(v: u8, c: u8)
    by (bit_vector)
    requires
        c < 8,
    ensures
        (v >> c) & 1 <= 1,
{
}

proof fn lemma_not_lyc()
    by (bit_vector)
    ensures
        !0x04u8 == 0xFBu8,
{
}

/// Bit `c` of `v`.
fn bit_of(v: u8, c: u8) -> (b: u8)
    requires
        c < 8,
    ensures
        b == bit_at(v, c),
        b <= 1,
{
    proof {
        lemma_bit_at(v, c);
    }
    (v >> c) & 1
}

/// The shade of grey that the palette gives to a 2-bit pixel.
fn shade_of(palette: u8, pixel: u8) -> (s: u8)
    requires
        pixel <= 3,
    ensures
        s == shade(palette, pixel),
{
    let colour: u8 = (palette >> (pixel * 2)) & 3;
    if colour == 0 {
        0xFF
    } else if colour == 1 {
        0xAA
    } else if colour == 2 {
        0x55
    } else {
        0x00
    }
}

impl Ppu {
    /// The invariant of the type: the three memories have their fixed
    /// sizes.
    #[verifier::type_invariant]
    pub closed spec fn inv(self) -> bool {
        &&& self.vram@.len() == VRAM_SIZE
        &&& self.oam@.len() == OAM_SIZE
        &&& self.buffer@.len() == BUFFER_SIZE
    }

    /// What the invariant says of the view.
    pub proof fn lemma_inv(self)
        requires
            self.inv(),
        ensures
            self@.wf(),
    {
    }

    /// The controller after reset: scanning objects on line 0, switched
    /// off, with its memories zeroed.
    pub fn new() -> (r: Self)
        ensures
            r@ == PpuView::reset(),
            r@.wf(),
    {
        let vram: Vec<u8> = vec![0u8; VRAM_SIZE];
        let oam: Vec<u8> = vec![0u8; OAM_SIZE];
        let buffer: Vec<u8> = vec![0u8; BUFFER_SIZE];
        assert(vram@ =~= Seq::new(VRAM_SIZE as nat, |i: int| 0u8));
        assert(oam@ =~= Seq::new(OAM_SIZE as nat, |i: int| 0u8));
        assert(buffer@ =~= Seq::new(BUFFER_SIZE as nat, |i: int| 0u8));
        Ppu {
            mode: Mode::OamScan,
            lcdc: 0,
            stat: 0,
            ly: 0,
            lyc: 0,
            scx: 0,
            scy: 0,
            bgp: 0,
            obp0: 0,
            obp1: 0,
            wy: 0,
            wx: 0,
            cycles: 0,
            vram,
            oam,
            buffer,
        }
    }

    /// The frame buffer, one byte per pixel in its first `LCD_PIXELS` bytes,
    /// line after line.
    pub fn buffer(&self) -> (b: &Vec<u8>)
        ensures
            b@ == self@.buffer,
            self@.wf(),
    {
        proof {
            use_type_invariant(self);
        }
        &self.buffer
    }

    fn mode_number(&self) -> (n: u8)
        ensures
            n == self@.mode.number(),
    {
        match self.mode {
            Mode::HBlink => 0,
            Mode::VBlink => 1,
            Mode::OamScan => 2,
            Mode::Drawing => 3,
        }
    }

    fn read_register(&self, addr: u16) -> (v: u8)
        ensures
            v == self@.read_register(addr),
    {
        if addr == 0xFF40 {
            self.lcdc
        } else if addr == 0xFF41 {
            0x80 | self.stat | self.mode_number()
        } else if addr == 0xFF42 {
            self.scy
        } else if addr == 0xFF43 {
            self.scx
        } else if addr == 0xFF44 {
            self.ly
        } else if addr == 0xFF45 {
            self.lyc
        } else if addr == 0xFF47 {
            self.bgp
        } else if addr == 0xFF48 {
            self.obp0
        } else if addr == 0xFF49 {
            self.obp1
        } else if addr == 0xFF4A {
            self.wy
        } else if addr == 0xFF4B {
            self.wx
        } else {
            0xFF
        }
    }

    /// Reads a byte of video memory, of object memory or a register. 0xFF
    /// is read from a memory that is out of reach: video memory while
    /// drawing, object memory while drawing or scanning objects. An address
    /// outside the three ranges is an error.
    pub fn read(&self, addr: u16) -> (r: Result<u8, CoreError>)
        ensures
            r == self@.read(addr),
            self@.wf(),
    {
        proof {
            use_type_invariant(self);
        }
        if 0x8000 <= addr && addr <= 0x9FFF {
            if self.mode == Mode::Drawing {
                Ok(0xFF)
            } else {
                Ok(self.vram[(addr - 0x8000) as usize])
            }
        } else if 0xFE00 <= addr && addr <= 0xFE9F {
            if self.mode == Mode::Drawing || self.mode == Mode::OamScan {
                Ok(0xFF)
            } else {
                Ok(self.oam[(addr - 0xFE00) as usize])
            }
        } else if 0xFF40 <= addr && addr <= 0xFF4B {
            Ok(self.read_register(addr))
        } else {
            Err(CoreError::InvalidRegisterAddress { addr })
        }
    }

    fn write_register(&mut self, addr: u16, val: u8)
        ensures
            final(self)@ == old(self)@.write_register(addr, val),
    {
        proof {
            use_type_invariant(&*self);
        }
        if addr == 0xFF40 {
            self.lcdc = val;
        } else if addr == 0xFF41 {
            self.stat = (self.stat & LYC_EQ_LY) | (val & 0xF8);
        } else if addr == 0xFF42 {
            self.scy = val;
        } else if addr == 0xFF43 {
            self.scx = val;
        } else if addr == 0xFF44 {
            self.ly = val;
        } else if addr == 0xFF45 {
            self.lyc = val;
        } else if addr == 0xFF47 {
            self.bgp = val;
        } else if addr == 0xFF48 {
            self.obp0 = val;
        } else if addr == 0xFF49 {
            self.obp1 = val;
        } else if addr == 0xFF4A {
            self.wy = val;
        } else if addr == 0xFF4B {
            self.wx = val;
        }
    }

    /// Writes a byte of video memory, of object memory or a register. A
    /// write to a memory that is out of reach is dropped. Of the status
    /// register only bits 3 to 7 are written. An address outside the three
    /// ranges is an error and changes nothing.
    pub fn write(&mut self, addr: u16, val: u8) -> (r: Result<(), CoreError>)
        ensures
            final(self)@ == old(self)@.write(addr, val),
            final(self)@.wf(),
            PpuView::maps(addr) ==> r == Ok::<(), CoreError>(()),
            !PpuView::maps(addr) ==> r == Err::<(), CoreError>(CoreError::InvalidRegisterAddress { addr }),
    {
        proof {
            use_type_invariant(&*self);
        }
        if 0x8000 <= addr && addr <= 0x9FFF {
            if self.mode != Mode::Drawing {
                self.vram[(addr - 0x8000) as usize] = val;
            }
            Ok(())
        } else if 0xFE00 <= addr && addr <= 0xFE9F {
            if self.mode != Mode::Drawing && self.mode != Mode::OamScan {
                self.oam[(addr - 0xFE00) as usize] = val;
            }
            Ok(())
        } else if 0xFF40 <= addr && addr <= 0xFF4B {
            self.write_register(addr, val);
            Ok(())
        } else {
            Err(CoreError::InvalidRegisterAddress { addr })
        }
    }

    /// The 2-bit pixel at a row and column of a tile.
    fn get_pixel_from_tile(&self, tile_idx: usize, row: u8, col: u8) -> (p: u8)
        requires
            tile_idx < 384,
            row < 8,
            col < 8,
        ensures
            p == self@.pixel_of_tile(tile_idx as int, row, col),
            p <= 3,
    {
        proof {
            use_type_invariant(self);
        }
        let r: usize = (row * 2) as usize;
        let c: u8 = 7 - col;
        let tile_addr: usize = tile_idx * 16;
        let low: u8 = self.vram[tile_addr + r];
        let high: u8 = self.vram[tile_addr + r + 1];
        bit_of(high, c) * 2 + bit_of(low, c)
    }

    /// The index of the tile at a row and column of a tile map.
    fn get_tile_idx_from_tile_map(&self, tile_map: bool, row: u8, col: u8) -> (t: usize)
        requires
            row < 32,
            col < 32,
        ensures
            t == self@.tile_of_map(tile_map, row, col),
            t < 384,
    {
        proof {
            use_type_invariant(self);
        }
        let start_addr: usize = if tile_map {
            0x1C00
        } else {
            0x1800
        };
        let entry: u8 = self.vram[start_addr + (row as usize) * 32 + (col as usize)];
        if self.lcdc & TILE_DATA_ADDRESSING_MODE != 0 || entry >= 128 {
            entry as usize
        } else {
            entry as usize + 0x100
        }
    }

    /// Draws the background of the current line into the frame buffer,
    /// where the background is switched on.
    fn render_bg(&mut self)
        ensures
            final(self)@ == old(self)@.render_bg(),
    {
        proof {
            use_type_invariant(&*self);
        }
        if self.lcdc & BG_WINDOW_ENABLE == 0 {
            return ;
        }
        let y: u8 = self.ly.wrapping_add(self.scy);
        let start: usize = LCD_WIDTH * (self.ly as usize);
        let ghost before = self@;
        let mut i: usize = 0;
        while i < LCD_WIDTH
            invariant
                i <= LCD_WIDTH,
                start == LCD_WIDTH * before.ly,
                y == before.ly.wrapping_add(before.scy),
                self.vram@.len() == VRAM_SIZE,
                self.oam@.len() == OAM_SIZE,
                self.buffer@.len() == BUFFER_SIZE,
                before.buffer.len() == BUFFER_SIZE,
                self@ == (PpuView { buffer: self@.buffer, ..before }),
                forall|j: int|
                    0 <= j < BUFFER_SIZE ==> #[trigger] self.buffer@[j] == if start <= j < start + i {
                        before.bg_shade(j - start)
                    } else {
                        before.buffer[j]
                    },
            decreases LCD_WIDTH - i,
        {
            let x: u8 = ((i % 256) as u8).wrapping_add(self.scx);
            let tile_idx = self.get_tile_idx_from_tile_map(self.lcdc & BG_TILE_MAP != 0, y / 8, x / 8);
            let pixel = self.get_pixel_from_tile(tile_idx, y % 8, x % 8);
            let value = shade_of(self.bgp, pixel);
            assert(value == before.bg_shade(i as int));
            self.buffer[start + i] = value;
            i = i + 1;
        }
        assert(self@.buffer =~= before.render_bg().buffer);
    }

    /// Compares the line counter with the line compare register and records
    /// the outcome in the status register.
    fn check_lyc_eq_ly(&mut self)
        ensures
            final(self)@ == old(self)@.check_lyc_eq_ly(),
    {
        proof {
            use_type_invariant(&*self);
            lemma_not_lyc();
        }
        if self.ly == self.lyc {
            self.stat = self.stat | LYC_EQ_LY;
        } else {
            self.stat = self.stat & 0xFB;
        }
    }

    /// Advances the controller by one cycle and tells whether a frame has
    /// ended.
    pub fn emulate_cycle(&mut self) -> (frame: bool)
        ensures
            final(self)@ == old(self)@.tick(),
            frame == old(self)@.frame_ends(),
            final(self)@.wf(),
    {
        proof {
            use_type_invariant(&*self);
        }
        if self.lcdc & PPU_ENABLE == 0 {
            return false;
        }
        self.cycles = self.cycles.wrapping_sub(1);
        if self.cycles > 0 {
            return false;
        }
        let mut frame = false;
        match self.mode {
            Mode::HBlink => {
                self.ly = self.ly.wrapping_add(1);
                if self.ly < 144 {
                    self.mode = Mode::OamScan;
                    self.cycles = 20;
                } else {
                    self.mode = Mode::VBlink;
                    self.cycles = 114;
                }
                self.check_lyc_eq_ly();
            },
            Mode::VBlink => {
                self.ly = self.ly.wrapping_add(1);
                if self.ly > 153 {
                    frame = true;
                    self.ly = 0;
                    self.mode = Mode::OamScan;
                    self.cycles = 20;
                } else {
                    self.ly = 114;
                }
                self.check_lyc_eq_ly();
            },
            Mode::OamScan => {
                self.mode = Mode::Drawing;
                self.cycles = 43;
            },
            Mode::Drawing => {
                self.render_bg();
                self.mode = Mode::HBlink;
                self.cycles = 51;
            },
        }
        proof {
            use_type_invariant(&*self);
        }
        frame
    }
}

/// A byte written to video memory or object memory while it is in reach is
/// read back at the same address; a write while it is out of reach changes
/// nothing.
pub proof fn law_ppu_memory_round_trip(p: PpuView, addr: u16, val: u8)
    requires
        p.wf(),
        PpuView::in_vram(addr) || PpuView::in_oam(addr),
    ensures
        PpuView::in_vram(addr) && !p.vram_busy() ==> p.write(addr, val).read(addr) == Ok::<u8, CoreError>(val),
        PpuView::in_oam(addr) && !p.oam_busy() ==> p.write(addr, val).read(addr) == Ok::<u8, CoreError>(val),
        PpuView::in_vram(addr) && p.vram_busy() ==> p.write(addr, val) == p,
        PpuView::in_oam(addr) && p.oam_busy() ==> p.write(addr, val) == p,
        p.write(addr, val).wf(),
{
}

} // verus!
