use vstd::prelude::*;
use crate::bus::{read16_spec, write_spec, ppu_write_spec};
use crate::state::{power_up_state, Nes, NesState, CARTRIDGE_SIZE, PPU_CARTRIDGE_SIZE, RESET_VECTOR};

verus! {

/// Size of an iNES header.
pub const HEADER_SIZE: usize = 16;

/// Size of one PRG-ROM bank.
pub const PRG_BANK_SIZE: usize = 0x4000;

/// Size of one CHR-ROM bank.
pub const CHR_BANK_SIZE: usize = 0x2000;

/// Why an iNES image cannot be loaded.
#[derive(Clone, Copy, Debug, PartialEq, Eq)]
pub enum RomError {
    /// The image does not start with "NES" and 0x1A.
    InvalidMagic,
    /// More than two PRG-ROM banks (this loader knows no mappers).
    UnsupportedPrgSize(u8),
    /// More than one CHR-ROM bank.
    UnsupportedChrSize(u8),
    /// The image ends before its header or its banks do.
    Truncated,
}

pub open spec fn has_magic(rom: Seq<u8>) -> bool {
    rom[0] == 0x4e && rom[1] == 0x45 && rom[2] == 0x53 && rom[3] == 0x1a
}

/// CPU address of the first PRG byte: one bank sits at 0xC000, two at 0x8000.
pub open spec fn prg_base(prg_banks: u8) -> int {
    if prg_banks == 2 {
        0x8000
    } else {
        0xc000
    }
}

/// Cartridge space after the PRG banks are installed.
pub open spec fn loaded_cartridge(rom: Seq<u8>) -> Seq<u8> {
    let off = prg_base(rom[4]) - 0x4020;
    let len = rom[4] * PRG_BANK_SIZE;
    Seq::new(
        CARTRIDGE_SIZE as nat,
        |k: int|
            if off <= k < off + len {
                rom[HEADER_SIZE + k - off]
            } else {
                0u8
            },
    )
}

/// PPU pattern memory after the CHR bank is installed.
pub open spec fn loaded_ppu_cartridge(rom: Seq<u8>) -> Seq<u8> {
    let start = HEADER_SIZE + rom[4] * PRG_BANK_SIZE;
    let len = rom[5] * CHR_BANK_SIZE;
    Seq::new(
        PPU_CARTRIDGE_SIZE as nat,
        |k: int|
            if k < len {
                rom[start + k]
            } else {
                0u8
            },
    )
}

/// The power-up state with the image's banks installed, before PC is loaded.
pub open spec fn installed_state(rom: Seq<u8>) -> NesState {
    NesState {
        cartridge: loaded_cartridge(rom),
        ppu_cartridge: loaded_ppu_cartridge(rom),
        ..power_up_state()
    }
}

/// The state right after loading: the banks installed and PC read from the reset vector.
pub open spec fn loaded_state(rom: Seq<u8>) -> NesState {
    let (s, pc) = read16_spec(installed_state(rom), RESET_VECTOR);
    NesState { pc, ..s }
}

/// When an image loads: a full header with the magic, at most two PRG banks
/// and one CHR bank, and all of those banks present.
pub open spec fn ines_loadable(rom: Seq<u8>) -> bool {
    &&& rom.len() >= HEADER_SIZE
    &&& has_magic(rom)
    &&& rom[4] <= 2
    &&& rom[5] <= 1
    &&& rom.len() >= HEADER_SIZE + rom[4] * PRG_BANK_SIZE + rom[5] * CHR_BANK_SIZE
}

/// The error for an image that does not load, checks taken in header order.
pub open spec fn ines_error(rom: Seq<u8>) -> RomError {
    if rom.len() < HEADER_SIZE {
        RomError::Truncated
    } else if !has_magic(rom) {
        RomError::InvalidMagic
    } else if rom[4] > 2 {
        RomError::UnsupportedPrgSize(rom[4])
    } else if rom[5] > 1 {
        RomError::UnsupportedChrSize(rom[5])
    } else {
        RomError::Truncated
    }
}

proof fn lemma_write_cartridge(s: NesState, addr: u16, val: u8)
    requires
        addr >= 0x4020,
    ensures
        write_spec(s, addr, val) == (NesState {
            cartridge: s.cartridge.update(addr - 0x4020, val),
            ..s
        }),
{
    reveal(write_spec);
}

impl Nes {
    /// Builds a console from an iNES image: PRG banks installed through the bus,
    /// the CHR bank into PPU memory at 0x0000, PC loaded from the reset vector.
    pub fn new(rom: &Vec<u8>) -> (r: Result<Nes, RomError>)
        ensures
            ines_loadable(rom@) <==> r is Ok,
            r matches Ok(nes) ==> nes.wf() && nes@ == loaded_state(rom@),
            r matches Err(e) ==> e == ines_error(rom@),
    {
        if rom.len() < HEADER_SIZE {
            return Err(RomError::Truncated);
        }
        if !(rom[0] == 0x4e && rom[1] == 0x45 && rom[2] == 0x53 && rom[3] == 0x1a) {
            return Err(RomError::InvalidMagic);
        }
        let prg_banks: u8 = rom[4];
        let chr_banks: u8 = rom[5];
        if prg_banks > 2 {
            return Err(RomError::UnsupportedPrgSize(prg_banks));
        }
        if chr_banks > 1 {
            return Err(RomError::UnsupportedChrSize(chr_banks));
        }
        let prg_len: usize = prg_banks as usize * PRG_BANK_SIZE;
        let chr_len: usize = chr_banks as usize * CHR_BANK_SIZE;
        if rom.len() - HEADER_SIZE < prg_len + chr_len {
            return Err(RomError::Truncated);
        }
        let mut nes: Nes = Nes::default();
        let base: u16 = if prg_banks == 2 {
            0x8000
        } else {
            0xc000
        };
        let ghost off: int = prg_base(prg_banks) - 0x4020;
        let mut i: usize = 0;
        assert(power_up_state().cartridge =~= Seq::new(
            CARTRIDGE_SIZE as nat,
            |k: int|
                if off <= k < off + i {
                    rom@[HEADER_SIZE + k - off]
                } else {
                    0u8
                },
        ));
        while i < prg_len
            invariant
                nes.wf(),
                i <= prg_len,
                prg_len == prg_banks * PRG_BANK_SIZE,
                prg_banks == rom@[4],
                prg_banks <= 2,
                base == prg_base(prg_banks),
                off == base - 0x4020,
                rom@.len() >= HEADER_SIZE + prg_len,
                nes@ == (NesState {
                    cartridge: Seq::new(
                        CARTRIDGE_SIZE as nat,
                        |k: int|
                            if off <= k < off + i {
                                rom@[HEADER_SIZE + k - off]
                            } else {
                                0u8
                            },
                    ),
                    ..power_up_state()
                }),
            decreases prg_len - i,
        {
            let addr: u16 = base + i as u16;
            proof {
                lemma_write_cartridge(nes@, addr, rom@[HEADER_SIZE + i]);
            }
            nes.write(addr, rom[HEADER_SIZE + i]);
            assert(nes@.cartridge =~= Seq::new(
                CARTRIDGE_SIZE as nat,
                |k: int|
                    if off <= k < off + i + 1 {
                        rom@[HEADER_SIZE + k - off]
                    } else {
                        0u8
                    },
            ));
            i = i + 1;
        }
        assert(nes@.cartridge =~= loaded_cartridge(rom@));
        let chr_start: usize = HEADER_SIZE + prg_len;
        let mut j: usize = 0;
        assert(power_up_state().ppu_cartridge =~= Seq::new(
            PPU_CARTRIDGE_SIZE as nat,
            |k: int|
                if k < j {
                    rom@[chr_start + k]
                } else {
                    0u8
                },
        ));
        while j < chr_len
            invariant
                nes.wf(),
                j <= chr_len,
                chr_len == chr_banks * CHR_BANK_SIZE,
                chr_banks == rom@[5],
                chr_banks <= 1,
                chr_start == HEADER_SIZE + rom@[4] * PRG_BANK_SIZE,
                rom@.len() >= chr_start + chr_len,
                nes@ == (NesState {
                    cartridge: loaded_cartridge(rom@),
                    ppu_cartridge: Seq::new(
                        PPU_CARTRIDGE_SIZE as nat,
                        |k: int|
                            if k < j {
                                rom@[chr_start + k]
                            } else {
                                0u8
                            },
                    ),
                    ..power_up_state()
                }),
            decreases chr_len - j,
        {
            nes.ppu_write(j as u16, rom[chr_start + j]);
            assert(nes@.ppu_cartridge =~= Seq::new(
                PPU_CARTRIDGE_SIZE as nat,
                |k: int|
                    if k < j + 1 {
                        rom@[chr_start + k]
                    } else {
                        0u8
                    },
            ));
            j = j + 1;
        }
        assert(nes@.ppu_cartridge =~= loaded_ppu_cartridge(rom@));
        assert(nes@ == installed_state(rom@));
        nes.pc = nes.read16(RESET_VECTOR);
        Ok(nes)
    }
}

} // verus!
