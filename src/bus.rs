use vstd::prelude::*;
use crate::state::{
    with_status, Nes, NesState, BUTTON_COUNT, CYCLE_LIMIT, JOYPAD, OAMDMA, PALETTE_SIZE,
    PPU_CARTRIDGE_SIZE,
};

verus! {

/// `v` reduced to a byte.
pub open spec fn wrap8(v: int) -> u8 {
    (v % 0x100) as u8
}

/// `v` reduced to a 16-bit word.
pub open spec fn wrap16(v: int) -> u16 {
    (v % 0x10000) as u16
}

/// The little-endian word made of two bytes.
pub open spec fn word(hi: u8, lo: u8) -> u16 {
    (hi * 0x100 + lo) as u16
}

/// The high byte shifted up, or-ed with the low byte, is the word they make.
pub proof fn lemma_word_bits(hi: u8, lo: u8)
    ensures
        ((hi as u16) << 8u16) | (lo as u16) == word(hi, lo),
{
    assert(((hi as u16) << 8u16) | (lo as u16) == (hi * 0x100 + lo) as u16) by (bit_vector);
}

// ---------------------------------------------------------------------------
// PPU memory
// ---------------------------------------------------------------------------

/// Whether a PPU address (folded into 0x0000..0x4000) falls in the palette window.
pub open spec fn ppu_in_palette(addr: u16) -> bool {
    addr % 0x4000 >= 0x3f00
}

/// Offset of a PPU address in palette RAM or in the pattern/name table memory.
/// Name tables at 0x2400..0x3000 fold back into the 0x2000 window modulo 0x400.
pub open spec fn ppu_offset(addr: u16) -> int {
    let a = addr % 0x4000;
    if a >= 0x3f00 {
        (a % 0x20) as int
    } else if 0x2000 <= a < 0x3000 {
        0x2000 + (a - 0x2000) % 0x400
    } else {
        a as int
    }
}

pub open spec fn ppu_read_spec(s: NesState, addr: u16) -> u8 {
    if ppu_in_palette(addr) {
        s.ppu_ram[ppu_offset(addr)]
    } else {
        s.ppu_cartridge[ppu_offset(addr)]
    }
}

pub open spec fn ppu_write_spec(s: NesState, addr: u16, val: u8) -> NesState {
    if ppu_in_palette(addr) {
        NesState { ppu_ram: s.ppu_ram.update(ppu_offset(addr), val), ..s }
    } else {
        NesState { ppu_cartridge: s.ppu_cartridge.update(ppu_offset(addr), val), ..s }
    }
}

fn ppu_location(addr: u16) -> (r: (bool, usize))
    ensures
        r.0 == ppu_in_palette(addr),
        r.1 == ppu_offset(addr),
        r.0 ==> r.1 < PALETTE_SIZE,
        !r.0 ==> r.1 < PPU_CARTRIDGE_SIZE,
{
    let a: u16 = addr % 0x4000;
    if a >= 0x3f00 {
        (true, (a % 0x20) as usize)
    } else if 0x2000 <= a && a < 0x3000 {
        (false, 0x2000 + ((a - 0x2000) % 0x400) as usize)
    } else {
        (false, a as usize)
    }
}

// ---------------------------------------------------------------------------
// CPU bus
// ---------------------------------------------------------------------------

/// How far PPUADDR moves after a PPUDATA access: 1, or 32 when PPUCTRL bit 2 is set.
pub open spec fn ppuaddr_increment(s: NesState) -> u16 {
    if s.ppu_regs[0] & 0x04 == 0 {
        1
    } else {
        32
    }
}

/// A controller read: the pointed button, which advances unless the latch is strobed
/// (then button 0 is read over and over).
pub open spec fn joypad_read_spec(s: NesState) -> (NesState, u8) {
    if s.strobe_mode {
        (s, if s.buttons[0] { 1u8 } else { 0u8 })
    } else {
        (
            NesState { current_button: ((s.current_button + 1) % 8) as usize, ..s },
            if s.buttons[s.current_button as int] { 1u8 } else { 0u8 },
        )
    }
}

/// What a CPU read of `addr` returns, and the state it leaves behind.
#[verifier::opaque]
pub open spec fn read_spec(s: NesState, addr: u16) -> (NesState, u8) {
    if addr < 0x2000 {
        (s, s.ram[(addr % 0x800) as int])
    } else if addr < 0x4000 {
        let i = addr % 8;
        if i == 2 {
            (NesState { w: false, ..s }, s.ppu_regs[2])
        } else if i == 4 {
            (s, s.oam[s.ppu_regs[3] as int])
        } else if i == 7 {
            (
                NesState {
                    ppudata: ppu_read_spec(s, s.ppuaddr),
                    ppuaddr: wrap16(s.ppuaddr + ppuaddr_increment(s)),
                    ..s
                },
                s.ppudata,
            )
        } else {
            (s, s.ppu_regs[i as int])
        }
    } else if addr < 0x4018 {
        if addr == JOYPAD {
            joypad_read_spec(s)
        } else {
            (s, s.apu_and_io_regs[addr - 0x4000])
        }
    } else if addr < 0x4020 {
        (s, 0)
    } else {
        (s, s.cartridge[addr - 0x4020])
    }
}

/// The OAM-DMA copy from byte `i` on: each byte is read over the bus from
/// `base + i` and stored at OAM index `start + i`, wrapping.
pub open spec fn dma_copy(s: NesState, base: u16, start: u8, i: nat) -> NesState
    decreases 256 - i,
{
    if i >= 256 {
        s
    } else {
        let (s1, b) = read_spec(s, (base + i) as u16);
        let s2 = NesState { oam: s1.oam.update((start + i) % 256, b), ..s1 };
        dma_copy(s2, base, start, i + 1)
    }
}

/// A write to OAMDMA: copy page `page` into OAM, then stall 513 cycles, 514 when
/// the cycle count was odd.
pub open spec fn dma_spec(s: NesState, page: u8) -> NesState {
    let s1 = dma_copy(s, (page * 0x100) as u16, s.ppu_regs[3], 0);
    NesState { cycles: (s1.cycles + 513 + s1.cycles % 2) as u64, ..s1 }
}

/// A write to PPU register `i` (the address modulo 8). Raising PPUCTRL's
/// NMI-enable bit while PPUSTATUS reports vblank leaves an NMI pending.
pub open spec fn ppu_register_write_spec(s: NesState, i: u16, val: u8) -> NesState {
    if i == 0 {
        NesState {
            ppu_regs: s.ppu_regs.update(0, val),
            nmi_pending: s.nmi_pending || (s.ppu_regs[2] & 0x80 != 0 && s.ppu_regs[0] & 0x80 == 0
                && val & 0x80 != 0),
            ..s
        }
    } else if i == 4 {
        NesState {
            oam: s.oam.update(s.ppu_regs[3] as int, val),
            ppu_regs: s.ppu_regs.update(3, wrap8(s.ppu_regs[3] + 1)),
            ..s
        }
    } else if i == 5 {
        if s.w {
            NesState { internal_y_scroll: val, w: false, ..s }
        } else {
            NesState { internal_x_scroll: val, w: true, ..s }
        }
    } else if i == 6 {
        if s.w {
            NesState { ppuaddr: (s.ppuaddr & 0xff00) | (val as u16), w: false, ..s }
        } else {
            NesState { ppuaddr: ((val as u16) << 8u16) | (s.ppuaddr & 0x00ff), w: true, ..s }
        }
    } else if i == 7 {
        let s1 = ppu_write_spec(s, s.ppuaddr, val);
        NesState { ppuaddr: wrap16(s.ppuaddr + ppuaddr_increment(s)), ..s1 }
    } else {
        NesState { ppu_regs: s.ppu_regs.update(i as int, val), ..s }
    }
}

/// A write to the APU and IO window 0x4000..0x4018. At the controller port,
/// bit 0 set strobes the latch at button 0; clearing it ends the strobe, and the
/// high-to-low edge restarts the walk at button 0.
pub open spec fn io_write_spec(s: NesState, addr: u16, val: u8) -> NesState {
    if addr == OAMDMA {
        dma_spec(s, val)
    } else if addr == JOYPAD {
        NesState {
            strobe_mode: val & 1 == 1,
            current_button: if val & 1 == 1 || s.strobe_mode { 0 } else { s.current_button },
            apu_and_io_regs: s.apu_and_io_regs.update(0x16, val & 0x07),
            ..s
        }
    } else {
        NesState { apu_and_io_regs: s.apu_and_io_regs.update(addr - 0x4000, val), ..s }
    }
}

/// The state after a CPU write of `val` to `addr`.
#[verifier::opaque]
pub open spec fn write_spec(s: NesState, addr: u16, val: u8) -> NesState {
    if addr < 0x2000 {
        NesState { ram: s.ram.update((addr % 0x800) as int, val), ..s }
    } else if addr < 0x4000 {
        ppu_register_write_spec(s, addr % 8, val)
    } else if addr < 0x4018 {
        io_write_spec(s, addr, val)
    } else if addr < 0x4020 {
        s
    } else {
        NesState { cartridge: s.cartridge.update(addr - 0x4020, val), ..s }
    }
}

/// A little-endian word read as `read(addr + 1)` (high byte) then `read(addr)`.
pub open spec fn read16_spec(s: NesState, addr: u16) -> (NesState, u16) {
    let (s1, hi) = read_spec(s, wrap16(addr + 1));
    let (s2, lo) = read_spec(s1, addr);
    (s2, word(hi, lo))
}

// ---------------------------------------------------------------------------
// Stack
// ---------------------------------------------------------------------------

/// Store at 0x0100 + S, then decrement S.
pub open spec fn push_spec(s: NesState, val: u8) -> NesState {
    NesState { s: wrap8(s.s - 1), ..write_spec(s, (0x100 + s.s) as u16, val) }
}

/// Increment S, then load from 0x0100 + S.
pub open spec fn pop_spec(s: NesState) -> (NesState, u8) {
    let s1 = NesState { s: wrap8(s.s + 1), ..s };
    read_spec(s1, (0x100 + s1.s) as u16)
}

/// High byte first, then low.
pub open spec fn push16_spec(s: NesState, val: u16) -> NesState {
    push_spec(push_spec(s, (val / 0x100) as u8), (val % 0x100) as u8)
}

/// Low byte first, then high.
pub open spec fn pop16_spec(s: NesState) -> (NesState, u16) {
    let (s1, lo) = pop_spec(s);
    let (s2, hi) = pop_spec(s1);
    (s2, word(hi, lo))
}

/// The CPU registers and flags of two states agree.
pub open spec fn same_registers(s: NesState, t: NesState) -> bool {
    &&& s.a == t.a
    &&& s.x == t.x
    &&& s.y == t.y
    &&& s.s == t.s
    &&& s.pc == t.pc
    &&& s.carry == t.carry
    &&& s.zero == t.zero
    &&& s.interrupt_disable == t.interrupt_disable
    &&& s.decimal_mode == t.decimal_mode
    &&& s.overflow == t.overflow
    &&& s.negative == t.negative
}

/// The registers and flags of two states agree, but for the stack pointer.
pub open spec fn same_registers_but_sp(s: NesState, t: NesState) -> bool {
    &&& s.a == t.a
    &&& s.x == t.x
    &&& s.y == t.y
    &&& s.pc == t.pc
    &&& s.carry == t.carry
    &&& s.zero == t.zero
    &&& s.interrupt_disable == t.interrupt_disable
    &&& s.decimal_mode == t.decimal_mode
    &&& s.overflow == t.overflow
    &&& s.negative == t.negative
}

impl Nes {
    pub fn ppu_read(&self, addr: u16) -> (r: u8)
        requires
            self.wf(),
        ensures
            r == ppu_read_spec(self@, addr),
    {
        let (palette, offset) = ppu_location(addr);
        if palette {
            self.ppu_ram[offset]
        } else {
            self.ppu_cartridge[offset]
        }
    }

    pub fn ppu_write(&mut self, addr: u16, val: u8)
        requires
            old(self).wf(),
        ensures
            final(self)@ == ppu_write_spec(old(self)@, addr, val),
    {
        let (palette, offset) = ppu_location(addr);
        if palette {
            self.ppu_ram.set(offset, val);
        } else {
            self.ppu_cartridge.set(offset, val);
        }
    }

    fn ppuaddr_increment(&self) -> (r: u16)
        requires
            self.wf(),
        ensures
            r == ppuaddr_increment(self@),
    {
        if self.ppu_regs[0] & 0x04 == 0 {
            1
        } else {
            32
        }
    }

    fn read_joypad(&mut self) -> (r: u8)
        requires
            old(self).wf(),
        ensures
            (final(self)@, r) == joypad_read_spec(old(self)@),
    {
        if self.strobe_mode {
            if self.buttons[0] { 1 } else { 0 }
        } else {
            let result: u8 = if self.buttons[self.current_button] { 1 } else { 0 };
            self.current_button = (self.current_button + 1) % 8;
            result
        }
    }

    /// A CPU read. Some registers change state when read, hence `&mut self`.
    pub fn read(&mut self, addr: u16) -> (r: u8)
        requires
            old(self).wf(),
        ensures
            final(self).wf(),
            final(self).cycles == old(self).cycles,
            same_registers(final(self)@, old(self)@),
            (final(self)@, r) == read_spec(old(self)@, addr),
    {
        reveal(read_spec);
        if addr < 0x2000 {
            self.ram[(addr % 0x800) as usize]
        } else if addr < 0x4000 {
            let i: u16 = addr % 8;
            if i == 2 {
                // PPUSTATUS clears the shared write toggle
                self.w = false;
                self.ppu_regs[2]
            } else if i == 4 {
                // OAMDATA
                self.oam[self.ppu_regs[3] as usize]
            } else if i == 7 {
                // PPUDATA hands out the buffered byte and refills the buffer
                let result: u8 = self.ppudata;
                self.ppudata = self.ppu_read(self.ppuaddr);
                self.ppuaddr = self.ppuaddr.wrapping_add(self.ppuaddr_increment());
                result
            } else {
                self.ppu_regs[i as usize]
            }
        } else if addr < 0x4018 {
            if addr == JOYPAD {
                self.read_joypad()
            } else {
                self.apu_and_io_regs[(addr - 0x4000) as usize]
            }
        } else if addr < 0x4020 {
            0
        } else {
            self.cartridge[(addr - 0x4020) as usize]
        }
    }

    fn oam_dma(&mut self, page: u8)
        requires
            old(self).wf(),
            old(self).cycles <= CYCLE_LIMIT,
        ensures
            final(self).wf(),
            final(self).cycles == old(self).cycles + 513 + old(self).cycles % 2,
            same_registers(final(self)@, old(self)@),
            final(self)@ == dma_spec(old(self)@, page),
    {
        let base: u16 = page as u16 * 0x100;
        let start: u8 = self.ppu_regs[3];
        let mut i: u16 = 0;
        while i < 0x100
            invariant
                self.wf(),
                i <= 0x100,
                base == page * 0x100,
                start == old(self)@.ppu_regs[3],
                self.cycles == old(self).cycles,
                same_registers(self@, old(self)@),
                dma_copy(self@, base, start, i as nat) == dma_copy(
                    old(self)@,
                    base,
                    start,
                    0,
                ),
            decreases 0x100 - i,
        {
            let b: u8 = self.read(base + i);
            self.oam.set(((start as u16 + i) % 0x100) as usize, b);
            i = i + 1;
        }
        self.cycles = self.cycles + 513 + self.cycles % 2;
    }

    fn write_ppuctrl(&mut self, val: u8)
        requires
            old(self).wf(),
        ensures
            final(self).wf(),
            final(self)@ == ppu_register_write_spec(old(self)@, 0, val),
    {
        // raising the NMI-enable bit while vblank is set requests an NMI
        if self.ppu_regs[2] & 0x80 != 0 && self.ppu_regs[0] & 0x80 == 0 && val & 0x80 != 0 {
            self.nmi_pending = true;
        }
        self.ppu_regs.set(0, val);
    }

    fn write_oamdata(&mut self, val: u8)
        requires
            old(self).wf(),
        ensures
            final(self).wf(),
            final(self)@ == ppu_register_write_spec(old(self)@, 4, val),
    {
        let oam_addr: u8 = self.ppu_regs[3];
        self.oam.set(oam_addr as usize, val);
        self.ppu_regs.set(3, oam_addr.wrapping_add(1));
    }

    fn write_ppuscroll(&mut self, val: u8)
        requires
            old(self).wf(),
        ensures
            final(self).wf(),
            final(self)@ == ppu_register_write_spec(old(self)@, 5, val),
    {
        // X first, then Y
        if self.w {
            self.internal_y_scroll = val;
        } else {
            self.internal_x_scroll = val;
        }
        self.w = !self.w;
    }

    fn write_ppuaddr(&mut self, val: u8)
        requires
            old(self).wf(),
        ensures
            final(self).wf(),
            final(self)@ == ppu_register_write_spec(old(self)@, 6, val),
    {
        // high byte first, then low
        if self.w {
            self.ppuaddr = (self.ppuaddr & 0xff00) | (val as u16);
        } else {
            self.ppuaddr = ((val as u16) << 8u16) | (self.ppuaddr & 0x00ff);
        }
        self.w = !self.w;
    }

    fn write_ppudata(&mut self, val: u8)
        requires
            old(self).wf(),
        ensures
            final(self).wf(),
            final(self)@ == ppu_register_write_spec(old(self)@, 7, val),
    {
        let step: u16 = self.ppuaddr_increment();
        let target: u16 = self.ppuaddr;
        self.ppu_write(target, val);
        self.ppuaddr = target.wrapping_add(step);
    }

    fn write_ppu_register(&mut self, i: u16, val: u8)
        requires
            old(self).wf(),
            i < 8,
        ensures
            final(self).wf(),
            final(self)@ == ppu_register_write_spec(old(self)@, i, val),
    {
        if i == 0 {
            self.write_ppuctrl(val);
        } else if i == 4 {
            self.write_oamdata(val);
        } else if i == 5 {
            self.write_ppuscroll(val);
        } else if i == 6 {
            self.write_ppuaddr(val);
        } else if i == 7 {
            self.write_ppudata(val);
        } else {
            self.ppu_regs.set(i as usize, val);
        }
    }

    fn write_io(&mut self, addr: u16, val: u8)
        requires
            old(self).wf(),
            0x4000 <= addr < 0x4018,
            addr == OAMDMA ==> old(self).cycles <= CYCLE_LIMIT,
        ensures
            final(self).wf(),
            final(self).cycles >= old(self).cycles,
            final(self).cycles <= old(self).cycles + 514,
            addr != OAMDMA ==> final(self).cycles == old(self).cycles,
            same_registers(final(self)@, old(self)@),
            final(self)@ == io_write_spec(old(self)@, addr, val),
    {
        if addr == OAMDMA {
            self.oam_dma(val);
        } else if addr == JOYPAD {
            // bit 0 high holds the latch in strobe mode at button 0; the
            // falling edge restarts the walk at button 0 as well
            if val & 1 == 1 {
                self.strobe_mode = true;
                self.current_button = 0;
            } else {
                if self.strobe_mode {
                    self.current_button = 0;
                }
                self.strobe_mode = false;
            }
            self.apu_and_io_regs.set(0x16, val & 0x07);
        } else {
            self.apu_and_io_regs.set((addr - 0x4000) as usize, val);
        }
    }

    /// A CPU write.
    pub fn write(&mut self, addr: u16, val: u8)
        requires
            old(self).wf(),
            addr == OAMDMA ==> old(self).cycles <= CYCLE_LIMIT,
        ensures
            final(self).wf(),
            final(self).cycles >= old(self).cycles,
            final(self).cycles <= old(self).cycles + 514,
            addr != OAMDMA ==> final(self).cycles == old(self).cycles,
            same_registers(final(self)@, old(self)@),
            final(self)@ == write_spec(old(self)@, addr, val),
    {
        reveal(write_spec);
        if addr < 0x2000 {
            self.ram.set((addr % 0x800) as usize, val);
        } else if addr < 0x4000 {
            self.write_ppu_register(addr % 8, val);
        } else if addr < 0x4018 {
            self.write_io(addr, val);
        } else if addr < 0x4020 {
            // test registers ignore writes
        } else {
            self.cartridge.set((addr - 0x4020) as usize, val);
        }
    }

    /// A little-endian word: the high byte at `addr + 1` (wrapping), the low at `addr`.
    pub fn read16(&mut self, addr: u16) -> (r: u16)
        requires
            old(self).wf(),
        ensures
            final(self).wf(),
            final(self).cycles == old(self).cycles,
            same_registers(final(self)@, old(self)@),
            (final(self)@, r) == read16_spec(old(self)@, addr),
    {
        let hi: u8 = self.read(addr.wrapping_add(1));
        let lo: u8 = self.read(addr);
        proof {
            lemma_word_bits(hi, lo);
        }
        ((hi as u16) << 8u16) | (lo as u16)
    }

    pub fn push(&mut self, val: u8)
        requires
            old(self).wf(),
        ensures
            final(self).wf(),
            final(self).cycles == old(self).cycles,
            same_registers_but_sp(final(self)@, old(self)@),
            final(self)@ == push_spec(old(self)@, val),
    {
        let sp: u8 = self.s;
        self.write((sp as u16) + 0x100, val);
        self.s = sp.wrapping_sub(1);
    }

    pub fn push16(&mut self, val: u16)
        requires
            old(self).wf(),
        ensures
            final(self).wf(),
            final(self).cycles == old(self).cycles,
            same_registers_but_sp(final(self)@, old(self)@),
            final(self)@ == push16_spec(old(self)@, val),
    {
        self.push((val >> 8u16) as u8);
        self.push((val & 0xff) as u8);
        assert((val >> 8u16) as u8 == (val / 0x100) as u8 && (val & 0xff) as u8 == (val
            % 0x100) as u8) by (bit_vector);
    }

    pub fn pop(&mut self) -> (r: u8)
        requires
            old(self).wf(),
        ensures
            final(self).wf(),
            final(self).cycles == old(self).cycles,
            same_registers_but_sp(final(self)@, old(self)@),
            (final(self)@, r) == pop_spec(old(self)@),
    {
        self.s = self.s.wrapping_add(1);
        self.read((self.s as u16) + 0x100)
    }

    pub fn pop16(&mut self) -> (r: u16)
        requires
            old(self).wf(),
        ensures
            final(self).wf(),
            final(self).cycles == old(self).cycles,
            same_registers_but_sp(final(self)@, old(self)@),
            (final(self)@, r) == pop16_spec(old(self)@),
    {
        let lo: u8 = self.pop();
        let hi: u8 = self.pop();
        proof {
            lemma_word_bits(hi, lo);
        }
        ((hi as u16) << 8u16) | (lo as u16)
    }

    /// Restores the flags from a popped status byte, ignoring bits 4 and 5.
    pub fn pop_flags(&mut self)
        requires
            old(self).wf(),
        ensures
            final(self).wf(),
            final(self).cycles == old(self).cycles,
            final(self)@ == with_status(pop_spec(old(self)@).0, pop_spec(old(self)@).1),
    {
        let p: u8 = self.pop();
        self.set_flags_byte(p);
    }

    /// Marks controller button `b` as held.
    pub fn key_down(&mut self, b: usize)
        requires
            old(self).wf(),
            b < BUTTON_COUNT,
        ensures
            final(self).wf(),
            final(self)@ == (NesState { buttons: old(self)@.buttons.update(b as int, true), ..old(self)@ }),
    {
        self.buttons.set(b, true);
    }

    /// Marks controller button `b` as released.
    pub fn key_up(&mut self, b: usize)
        requires
            old(self).wf(),
            b < BUTTON_COUNT,
        ensures
            final(self).wf(),
            final(self)@ == (NesState { buttons: old(self)@.buttons.update(b as int, false), ..old(self)@ }),
    {
        self.buttons.set(b, false);
    }
}

} // verus!

verus! {

/// A pop right after a push gives back the pushed byte and the stack pointer.
pub proof fn lemma_push_then_pop(s: NesState, val: u8)
    requires
        s.wf(),
    ensures
        pop_spec(push_spec(s, val)).1 == val,
        pop_spec(push_spec(s, val)).0.s == s.s,
{
    reveal(read_spec);
    reveal(write_spec);
}

/// A 16-bit pop right after a 16-bit push gives back the word and the stack pointer.
pub proof fn lemma_push16_then_pop16(s: NesState, val: u16)
    requires
        s.wf(),
    ensures
        pop16_spec(push16_spec(s, val)).1 == val,
        pop16_spec(push16_spec(s, val)).0.s == s.s,
{
    reveal(read_spec);
    reveal(write_spec);
    let hi = (val / 0x100) as u8;
    let lo = (val % 0x100) as u8;
    assert(word(hi, lo) == val);
}

/// Internal RAM is mirrored: a byte written at `a < 0x800` reads back at `a + 0x800`.
pub proof fn lemma_ram_mirror(s: NesState, a: u16, val: u8)
    requires
        s.wf(),
        a < 0x800,
    ensures
        read_spec(write_spec(s, a, val), (a + 0x800) as u16).1 == val,
{
    reveal(read_spec);
    reveal(write_spec);
}

/// The eight PPU registers are mirrored up to 0x3FFF: after a write to
/// `0x2000 + i`, a read at `0x3FF8 + i` does what a read at `0x2000 + i` does.
pub proof fn lemma_ppu_register_mirror(s: NesState, i: u16, val: u8)
    requires
        s.wf(),
        i < 8,
    ensures
        ({
            let s1 = write_spec(s, (0x2000 + i) as u16, val);
            read_spec(s1, (0x3ff8 + i) as u16) == read_spec(s1, (0x2000 + i) as u16)
        }),
{
    reveal(read_spec);
}

} // verus!
