use vstd::prelude::*;

verus! {

/// Internal RAM size; the 0x0000..0x2000 window mirrors it.
pub const RAM_SIZE: usize = 0x800;

/// Number of memory-mapped PPU registers; 0x2000..0x4000 mirrors them.
pub const PPU_REG_COUNT: usize = 8;

/// Number of APU and IO registers at 0x4000..0x4018.
pub const IO_REG_COUNT: usize = 0x18;

/// Bytes of cartridge space, 0x4020..=0xFFFF.
pub const CARTRIDGE_SIZE: usize = 0xbfe0;

/// Bytes of PPU memory below the palette window (pattern and name tables).
pub const PPU_CARTRIDGE_SIZE: usize = 0x3f00;

/// Bytes of palette RAM.
pub const PALETTE_SIZE: usize = 0x20;

/// Bytes of object attribute memory.
pub const OAM_SIZE: usize = 0x100;

/// Buttons per controller, in the order A, B, Select, Start, Up, Down, Left, Right.
pub const BUTTON_COUNT: usize = 8;

pub const NMI_VECTOR: u16 = 0xfffa;
pub const RESET_VECTOR: u16 = 0xfffc;
pub const BRK_VECTOR: u16 = 0xfffe;

pub const PPUCTRL: u16 = 0x2000;
pub const PPUSTATUS: u16 = 0x2002;
pub const OAMADDR: u16 = 0x2003;
pub const OAMDATA: u16 = 0x2004;
pub const PPUSCROLL: u16 = 0x2005;
pub const PPUADDR: u16 = 0x2006;
pub const PPUDATA: u16 = 0x2007;
pub const OAMDMA: u16 = 0x4014;
pub const JOYPAD: u16 = 0x4016;

/// The cycle counter must stay at or below this value before any operation that
/// may advance it, so that the largest single advance (an instruction whose
/// store starts an OAM DMA) cannot overflow.
pub const CYCLE_LIMIT: u64 = 0xffff_ffff_ffff_0000;

/// The whole console state seen by the CPU: registers, flags, cycle counter,
/// the memories behind the bus, the PPU register facade and the controller latch.
pub struct Nes {
    pub a: u8,
    pub x: u8,
    pub y: u8,
    pub s: u8,
    pub pc: u16,
    pub carry: bool,
    pub zero: bool,
    pub interrupt_disable: bool,
    pub decimal_mode: bool,
    pub overflow: bool,
    pub negative: bool,
    pub cycles: u64,
    pub ram: Vec<u8>,
    pub ppu_regs: Vec<u8>,
    pub apu_and_io_regs: Vec<u8>,
    pub cartridge: Vec<u8>,
    pub ppu_cartridge: Vec<u8>,
    pub ppu_ram: Vec<u8>,
    pub oam: Vec<u8>,
    pub w: bool,
    pub ppuaddr: u16,
    pub ppudata: u8,
    pub internal_x_scroll: u8,
    pub internal_y_scroll: u8,
    pub buttons: Vec<bool>,
    pub current_button: usize,
    pub strobe_mode: bool,
    pub nmi_pending: bool,
}

/// Mathematical model of `Nes`: the same fields, with sequences for the memories.
pub struct NesState {
    pub a: u8,
    pub x: u8,
    pub y: u8,
    pub s: u8,
    pub pc: u16,
    pub carry: bool,
    pub zero: bool,
    pub interrupt_disable: bool,
    pub decimal_mode: bool,
    pub overflow: bool,
    pub negative: bool,
    pub cycles: u64,
    pub ram: Seq<u8>,
    pub ppu_regs: Seq<u8>,
    pub apu_and_io_regs: Seq<u8>,
    pub cartridge: Seq<u8>,
    pub ppu_cartridge: Seq<u8>,
    pub ppu_ram: Seq<u8>,
    pub oam: Seq<u8>,
    pub w: bool,
    pub ppuaddr: u16,
    pub ppudata: u8,
    pub internal_x_scroll: u8,
    pub internal_y_scroll: u8,
    pub buttons: Seq<bool>,
    pub current_button: usize,
    pub strobe_mode: bool,
    pub nmi_pending: bool,
}

impl NesState {
    /// Every memory has its fixed size and the button index points at a button.
    pub open spec fn wf(self) -> bool {
        &&& self.ram.len() == RAM_SIZE
        &&& self.ppu_regs.len() == PPU_REG_COUNT
        &&& self.apu_and_io_regs.len() == IO_REG_COUNT
        &&& self.cartridge.len() == CARTRIDGE_SIZE
        &&& self.ppu_cartridge.len() == PPU_CARTRIDGE_SIZE
        &&& self.ppu_ram.len() == PALETTE_SIZE
        &&& self.oam.len() == OAM_SIZE
        &&& self.buttons.len() == BUTTON_COUNT
        &&& self.current_button < BUTTON_COUNT
    }

    /// Z and N set from a result byte.
    pub open spec fn with_nz(self, val: u8) -> NesState {
        NesState { zero: val == 0, negative: val >= 0x80, ..self }
    }
}

impl View for Nes {
    type V = NesState;

    open spec fn view(&self) -> NesState {
        NesState {
            a: self.a,
            x: self.x,
            y: self.y,
            s: self.s,
            pc: self.pc,
            carry: self.carry,
            zero: self.zero,
            interrupt_disable: self.interrupt_disable,
            decimal_mode: self.decimal_mode,
            overflow: self.overflow,
            negative: self.negative,
            cycles: self.cycles,
            ram: self.ram@,
            ppu_regs: self.ppu_regs@,
            apu_and_io_regs: self.apu_and_io_regs@,
            cartridge: self.cartridge@,
            ppu_cartridge: self.ppu_cartridge@,
            ppu_ram: self.ppu_ram@,
            oam: self.oam@,
            w: self.w,
            ppuaddr: self.ppuaddr,
            ppudata: self.ppudata,
            internal_x_scroll: self.internal_x_scroll,
            internal_y_scroll: self.internal_y_scroll,
            buttons: self.buttons@,
            current_button: self.current_button,
            strobe_mode: self.strobe_mode,
            nmi_pending: self.nmi_pending,
        }
    }
}

/// The power-up state: A=X=Y=0, S=0xFD, only I set, cleared memories,
/// PPUSTATUS reporting vblank, PC still 0 (a loader sets it from the reset vector).
pub open spec fn power_up_state() -> NesState {
    NesState {
        a: 0,
        x: 0,
        y: 0,
        s: 0xfd,
        pc: 0,
        carry: false,
        zero: false,
        interrupt_disable: true,
        decimal_mode: false,
        overflow: false,
        negative: false,
        cycles: 0,
        ram: Seq::new(RAM_SIZE as nat, |i: int| 0u8),
        ppu_regs: seq![0u8, 0, 0xa0, 0, 0, 0, 0, 0],
        apu_and_io_regs: Seq::new(IO_REG_COUNT as nat, |i: int| 0u8),
        cartridge: Seq::new(CARTRIDGE_SIZE as nat, |i: int| 0u8),
        ppu_cartridge: Seq::new(PPU_CARTRIDGE_SIZE as nat, |i: int| 0u8),
        ppu_ram: Seq::new(PALETTE_SIZE as nat, |i: int| 0u8),
        oam: Seq::new(OAM_SIZE as nat, |i: int| 0u8),
        w: false,
        ppuaddr: 0,
        ppudata: 0,
        internal_x_scroll: 0,
        internal_y_scroll: 0,
        buttons: Seq::new(BUTTON_COUNT as nat, |i: int| false),
        current_button: 0,
        strobe_mode: false,
        nmi_pending: false,
    }
}

fn zeroed(n: usize) -> (r: Vec<u8>)
    ensures
        r@ == Seq::new(n as nat, |i: int| 0u8),
{
    let mut r: Vec<u8> = Vec::new();
    while r.len() < n
        invariant
            r.len() <= n,
            forall|i: int| 0 <= i < r.len() ==> r@[i] == 0u8,
        decreases n - r.len(),
    {
        r.push(0);
    }
    assert(r@ =~= Seq::new(n as nat, |i: int| 0u8));
    r
}

impl Default for Nes {
    fn default() -> (r: Nes)
        ensures
            r@ == power_up_state(),
    {
        let mut buttons: Vec<bool> = Vec::new();
        while buttons.len() < BUTTON_COUNT
            invariant
                buttons.len() <= BUTTON_COUNT,
                forall|i: int| 0 <= i < buttons.len() ==> !buttons@[i],
            decreases BUTTON_COUNT - buttons.len(),
        {
            buttons.push(false);
        }
        assert(buttons@ =~= Seq::new(BUTTON_COUNT as nat, |i: int| false));
        let ppu_regs: Vec<u8> = vec![0, 0, 0xa0, 0, 0, 0, 0, 0];
        assert(ppu_regs@ =~= seq![0u8, 0, 0xa0, 0, 0, 0, 0, 0]);
        Nes {
            a: 0,
            x: 0,
            y: 0,
            s: 0xfd,
            pc: 0,
            carry: false,
            zero: false,
            interrupt_disable: true,
            decimal_mode: false,
            overflow: false,
            negative: false,
            cycles: 0,
            ram: zeroed(RAM_SIZE),
            ppu_regs,
            apu_and_io_regs: zeroed(IO_REG_COUNT),
            cartridge: zeroed(CARTRIDGE_SIZE),
            ppu_cartridge: zeroed(PPU_CARTRIDGE_SIZE),
            ppu_ram: zeroed(PALETTE_SIZE),
            oam: zeroed(OAM_SIZE),
            w: false,
            ppuaddr: 0,
            ppudata: 0,
            internal_x_scroll: 0,
            internal_y_scroll: 0,
            buttons,
            current_button: 0,
            strobe_mode: false,
            nmi_pending: false,
        }
    }
}

/// True when the top bit (the sign bit of a two's complement byte) is set.
pub fn is_negative(val: u8) -> (r: bool)
    ensures
        r == (val >= 0x80),
{
    val >= 0x80
}

/// The status byte N V 1 B D I Z C built from the flags and a B bit.
pub open spec fn status_byte(s: NesState, b: bool) -> u8 {
    (if s.negative { 0x80u8 } else { 0u8 }) | (if s.overflow { 0x40u8 } else { 0u8 }) | 0x20u8 | (
    if b { 0x10u8 } else { 0u8 }) | (if s.decimal_mode { 0x08u8 } else { 0u8 }) | (
    if s.interrupt_disable { 0x04u8 } else { 0u8 }) | (if s.zero { 0x02u8 } else { 0u8 }) | (
    if s.carry { 0x01u8 } else { 0u8 })
}

/// The flags restored from a status byte; bits 4 and 5 are ignored.
pub open spec fn with_status(s: NesState, p: u8) -> NesState {
    NesState {
        negative: p & 0x80 != 0,
        overflow: p & 0x40 != 0,
        decimal_mode: p & 0x08 != 0,
        interrupt_disable: p & 0x04 != 0,
        zero: p & 0x02 != 0,
        carry: p & 0x01 != 0,
        ..s
    }
}

/// The unused bit 5 of a status byte is always set, and bit 4 is the B bit it
/// was built with.
pub proof fn lemma_status_byte_bit5(s: NesState, b: bool)
    ensures
        status_byte(s, b) & 0x20 == 0x20,
        status_byte(s, b) & 0x10 == (if b { 0x10u8 } else { 0u8 }),
{
    let n = s.negative;
    let v = s.overflow;
    let d = s.decimal_mode;
    let i = s.interrupt_disable;
    let z = s.zero;
    let c = s.carry;
    let p = status_byte(s, b);
    assert(p == ((if n { 0x80u8 } else { 0u8 }) | (if v { 0x40u8 } else { 0u8 }) | 0x20u8 | (if b {
        0x10u8
    } else {
        0u8
    }) | (if d { 0x08u8 } else { 0u8 }) | (if i { 0x04u8 } else { 0u8 }) | (if z {
        0x02u8
    } else {
        0u8
    }) | (if c { 0x01u8 } else { 0u8 })));
    assert(p & 0x20 == 0x20 && p & 0x10 == (if b { 0x10u8 } else { 0u8 })) by (bit_vector)
        requires
            p == ((if n { 0x80u8 } else { 0u8 }) | (if v { 0x40u8 } else { 0u8 }) | 0x20u8 | (if b {
                0x10u8
            } else {
                0u8
            }) | (if d { 0x08u8 } else { 0u8 }) | (if i { 0x04u8 } else { 0u8 }) | (if z {
                0x02u8
            } else {
                0u8
            }) | (if c { 0x01u8 } else { 0u8 })),
    ;
}

impl Nes {
    pub open spec fn wf(&self) -> bool {
        self@.wf()
    }

    /// Sets Z and N from a result byte.
    pub fn update_nz_flags(&mut self, val: u8)
        ensures
            final(self)@ == old(self)@.with_nz(val),
    {
        self.zero = val == 0;
        self.negative = is_negative(val);
    }

    /// The status byte as pushed: N V 1 B D I Z C.
    pub fn get_flags_byte(&self, b: bool) -> (r: u8)
        ensures
            r == status_byte(self@, b),
            r & 0x20 == 0x20,
    {
        proof {
            lemma_status_byte_bit5(self@, b);
        }
        (if self.negative { 0x80u8 } else { 0u8 }) | (if self.overflow { 0x40u8 } else { 0u8 })
            | 0x20u8 | (if b { 0x10u8 } else { 0u8 }) | (if self.decimal_mode { 0x08u8 } else {
            0u8
        }) | (if self.interrupt_disable { 0x04u8 } else { 0u8 }) | (if self.zero { 0x02u8 } else {
            0u8
        }) | (if self.carry { 0x01u8 } else { 0u8 })
    }

    /// Restores N, V, D, I, Z and C from a status byte.
    pub fn set_flags_byte(&mut self, p: u8)
        ensures
            final(self)@ == with_status(old(self)@, p),
    {
        self.negative = p & 0x80 != 0;
        self.overflow = p & 0x40 != 0;
        self.decimal_mode = p & 0x08 != 0;
        self.interrupt_disable = p & 0x04 != 0;
        self.zero = p & 0x02 != 0;
        self.carry = p & 0x01 != 0;
    }
}

} // verus!
