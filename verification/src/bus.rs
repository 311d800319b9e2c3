//! The address bus: work RAM and a cartridge behind one 16-bit address
//! space.

use vstd::prelude::*;
use vstd::array::spec_array_update;
use crate::cartridge::Cartoridge;
use crate::cpu::memory::{join_reads, Memory};
use crate::fault::{Fatal, Feature};
use crate::types::{high_byte, lemma_word_bytes, low_byte, Address, Byte, Word};

verus! {

/// Size of the work RAM: 2 KiB.
pub const RAM_SIZE: usize = 0x0800;

/// Last address of the work RAM and its mirrors, which start at 0.
pub const RAM_END: Address = 0x1FFF;

/// First address of the picture unit's registers and their mirrors.
pub const PPU_BEGIN: Address = 0x2000;

/// Last address of the picture unit's registers and their mirrors.
pub const PPU_END: Address = 0x3FFF;

/// First address of the program ROM window, which ends at `0xFFFF`.
pub const PRG_ROM_BEGIN: Address = 0x8000;

/// The four parts of the address space.
#[derive(Clone, Copy, Debug, PartialEq, Eq, Structural)]
pub enum Region {
    /// Work RAM and its mirrors, `0x0000..=0x1FFF`.
    Ram,
    /// The picture unit's registers and their mirrors, `0x2000..=0x3FFF`.
    Ppu,
    /// What nothing answers for, `0x4000..=0x7FFF`.
    Unmapped,
    /// The program ROM window, `0x8000..=0xFFFF`.
    PrgRom,
}

/// The part of the address space that `addr` lies in.
pub open spec fn region_of(addr: Address) -> Region {
    if addr <= RAM_END {
        Region::Ram
    } else if addr <= PPU_END {
        Region::Ppu
    } else if addr < PRG_ROM_BEGIN {
        Region::Unmapped
    } else {
        Region::PrgRom
    }
}

/// Decodes an address: the part of the address space that it lies in.
pub fn region(addr: Address) -> (r: Region)
    ensures
        r == region_of(addr),
{
    if addr <= RAM_END {
        Region::Ram
    } else if addr <= PPU_END {
        Region::Ppu
    } else if addr < PRG_ROM_BEGIN {
        Region::Unmapped
    } else {
        Region::PrgRom
    }
}

/// Whether a program ROM of `len` bytes has a byte for every address of
/// the program ROM window: it is one bank of 16 KiB, seen twice, or at
/// least as long as the window.
pub open spec fn fills_window(len: nat) -> bool {
    len == 0x4000 || len >= 0x8000
}

/// The cell of work RAM that an address up to `RAM_END` stands for: the
/// RAM is seen again every 2 KiB.
pub open spec fn ram_index(addr: Address) -> int {
    (addr % 0x0800) as int
}

/// The register that an address of the picture unit's window stands for:
/// the eight registers are seen again every 8 bytes.
pub open spec fn ppu_register(addr: Address) -> Address {
    (0x2000 + addr % 8) as Address
}

/// The byte of a program ROM of `len` bytes that an address of the program
/// ROM window stands for: a ROM of one bank is seen in both halves of the
/// window.
pub open spec fn prg_rom_index(len: nat, addr: Address) -> int {
    if len == 0x4000 && addr >= 0xC000 {
        addr - 0xC000
    } else {
        addr - 0x8000
    }
}

/// The three decodings above are what the masks of the hardware give:
/// `0x07FF` on an address of work RAM, `0x2007` on an address of the picture
/// unit, `0x3FFF` on an offset in a program ROM of one bank.
pub proof fn lemma_mirrors_are_masks(addr: Address)
    ensures
        ram_index(addr) == addr & 0x07FF,
        PPU_BEGIN <= addr <= PPU_END ==> ppu_register(addr) == addr & 0x2007,
        addr >= 0xC000 ==> prg_rom_index(0x4000, addr) == ((addr - 0x8000) as Address) & 0x3FFF,
{
    assert(addr % 0x0800 == addr & 0x07FF) by (bit_vector);
    assert(0x2000 <= addr <= 0x3FFF ==> (0x2000 + addr % 8) as u16 == addr & 0x2007)
        by (bit_vector);
    assert(addr >= 0xC000 ==> (addr - 0xC000) as u16 == ((addr - 0x8000) as u16) & 0x3FFF)
        by (bit_vector);
}

/// The memory that the processor works on: 2 KiB of work RAM, and a
/// cartridge whose program ROM has a byte for every address of its window.
pub struct Bus {
    ram: [Byte; 0x0800],
    cartridge: Cartoridge,
}

impl Bus {
    #[verifier::type_invariant]
    spec fn well_formed(self) -> bool {
        fills_window(self.cartridge.prg_rom@.len())
    }

    /// What the work RAM holds: 2048 bytes.
    pub closed spec fn ram(self) -> Seq<Byte> {
        self.ram@
    }

    /// The cartridge on the bus.
    pub closed spec fn cartridge(self) -> Cartoridge {
        self.cartridge
    }

    /// What the cartridge's program ROM holds.
    pub open spec fn prg_rom(self) -> Seq<Byte> {
        self.cartridge().prg_rom@
    }

    /// This bus with `value` in the cell `index` of its work RAM.
    pub closed spec fn with_ram(self, index: int, value: Byte) -> Bus {
        Bus { ram: spec_array_update(self.ram, index, value), cartridge: self.cartridge }
    }

    /// Whether a bus can be made with `cartridge` on it: whether its
    /// program ROM fills the window.
    pub fn can_hold(cartridge: &Cartoridge) -> (ok: bool)
        ensures
            ok == fills_window(cartridge.prg_rom@.len()),
    {
        cartridge.prg_rom.len() == 0x4000 || cartridge.prg_rom.len() >= 0x8000
    }

    /// A bus with `cartridge` on it and a work RAM of zeros.
    pub fn new(cartridge: Cartoridge) -> (bus: Self)
        requires
            fills_window(cartridge.prg_rom@.len()),
        ensures
            bus.ram() == Seq::new(0x0800, |i: int| 0u8),
            bus.cartridge() == cartridge,
    {
        Self { ram: [0;0x0800], cartridge }
    }

    /// The byte of program ROM behind an address of its window.
    fn read_prg_rom(&self, addr: Address) -> (value: Byte)
        requires
            addr >= PRG_ROM_BEGIN,
        ensures
            value == self.prg_rom()[prg_rom_index(self.prg_rom().len(), addr)],
    {
        proof {
            use_type_invariant(self);
        }
        let mut offset: Address = addr - PRG_ROM_BEGIN;
        if self.cartridge.prg_rom.len() == 0x4000 && offset >= 0x4000 {
            offset = offset - 0x4000;
        }
        self.cartridge.prg_rom[offset as usize]
    }
}

/// The work RAM has 2048 cells, and `with_ram` changes the one that it
/// names and nothing else.
pub proof fn lemma_with_ram(bus: Bus, index: int, value: Byte)
    requires
        0 <= index < RAM_SIZE,
    ensures
        bus.ram().len() == RAM_SIZE,
        bus.with_ram(index, value).ram() == bus.ram().update(index, value),
        bus.with_ram(index, value).cartridge() == bus.cartridge(),
{
    broadcast use vstd::array::group_array_axioms;

}

/// What a write to work RAM does to every later read: the cell that the
/// address stands for reads as the value written, under each of its
/// addresses, and all else reads as before.
pub proof fn lemma_ram_write(bus: Bus, addr: Address, value: Byte, other: Address)
    requires
        addr <= RAM_END,
    ensures
        bus.poke(addr, value) matches Ok(next) && next.peek(other) == (if other <= RAM_END
            && ram_index(other) == ram_index(addr) {
            Ok::<Byte, Fatal>(value)
        } else {
            bus.peek(other)
        }),
{
    broadcast use vstd::array::group_array_axioms;

}

/// A byte written to an address of work RAM is the byte read from it.
pub proof fn lemma_ram_write_then_read(bus: Bus, addr: Address, value: Byte)
    requires
        addr <= RAM_END,
    ensures
        bus.poke(addr, value) matches Ok(next) && next.peek(addr) == Ok::<Byte, Fatal>(value),
{
    lemma_ram_write(bus, addr, value, addr);
}

/// A word written to work RAM, low byte first, is the word read from it:
/// both writes succeed, and the two bytes read back make up `value`. The
/// last address of the RAM's mirrors is left out: the word's high byte would
/// go to the picture unit.
pub proof fn lemma_ram_write_word_then_read_word(bus: Bus, addr: Address, value: Word)
    requires
        addr < RAM_END,
    ensures
        bus.poke(addr, low_byte(value)) matches Ok(mid) && mid.poke(
            addr.wrapping_add(1),
            high_byte(value),
        ) matches Ok(next) && join_reads(next.peek(addr), next.peek(addr.wrapping_add(1))) == Ok::<
            Word,
            Fatal,
        >(value),
{
    let after: Address = addr.wrapping_add(1);
    lemma_ram_write(bus, addr, low_byte(value), addr);
    let mid = bus.poke(addr, low_byte(value))->Ok_0;
    lemma_ram_write(mid, after, high_byte(value), addr);
    lemma_ram_write(mid, after, high_byte(value), after);
    lemma_word_bytes(0, 0, value);
}

/// A program ROM of one bank is seen in both halves of its window: an
/// address of the lower half and the address 16 KiB above it read the same
/// byte of the ROM.
pub proof fn lemma_single_bank_is_mirrored(bus: Bus, addr: Address)
    requires
        bus.prg_rom().len() == 0x4000,
        0x8000 <= addr <= 0xBFFF,
    ensures
        bus.peek(addr) == Ok::<Byte, Fatal>(bus.prg_rom()[addr - 0x8000]),
        bus.peek((addr + 0x4000) as Address) == bus.peek(addr),
{
}

/// Work RAM is seen four times: an address of the first 2 KiB and the
/// addresses 2, 4 and 6 KiB above it read the same cell.
pub proof fn lemma_ram_is_mirrored(bus: Bus, addr: Address)
    requires
        addr < 0x0800,
    ensures
        bus.peek(addr) == Ok::<Byte, Fatal>(bus.ram()[addr as int]),
        bus.peek((addr + 0x0800) as Address) == bus.peek(addr),
        bus.peek((addr + 0x1000) as Address) == bus.peek(addr),
        bus.peek((addr + 0x1800) as Address) == bus.peek(addr),
{
}

impl Memory for Bus {
    /// A read of work RAM gives the cell that the address stands for; the
    /// picture unit's registers are not emulated; a read of what nothing
    /// answers for gives 0; a read of program ROM gives the byte that the
    /// address stands for.
    open spec fn peek(&self, addr: Address) -> Result<Byte, Fatal> {
        match region_of(addr) {
            Region::Ram => Ok(self.ram()[ram_index(addr)]),
            Region::Ppu => Err(Fatal::Unimplemented(Feature::PpuRegister(ppu_register(addr)))),
            Region::Unmapped => Ok(0),
            Region::PrgRom => Ok(self.prg_rom()[prg_rom_index(self.prg_rom().len(), addr)]),
        }
    }

    /// A write to work RAM changes the cell that the address stands for;
    /// the picture unit's registers are not emulated; a write to what
    /// nothing answers for changes nothing; program ROM cannot be written.
    open spec fn poke(&self, addr: Address, value: Byte) -> Result<Self, Fatal> {
        match region_of(addr) {
            Region::Ram => Ok(self.with_ram(ram_index(addr), value)),
            Region::Ppu => Err(Fatal::Unimplemented(Feature::PpuRegister(ppu_register(addr)))),
            Region::Unmapped => Ok(*self),
            Region::PrgRom => Err(Fatal::RomWriteAttempt(addr)),
        }
    }

    fn read_byte(&self, addr: Address) -> (r: Result<Byte, Fatal>) {
        match region(addr) {
            Region::Ram => {
                let mirror_down_addr: Address = addr % 0x0800;
                Ok(self.ram[mirror_down_addr as usize])
            },
            Region::Ppu => {
                let mirror_down_addr: Address = 0x2000 + addr % 8;
                Err(Fatal::Unimplemented(Feature::PpuRegister(mirror_down_addr)))
            },
            Region::Unmapped => Ok(0),
            Region::PrgRom => Ok(self.read_prg_rom(addr)),
        }
    }

    fn write_byte(&mut self, addr: Address, value: Byte) -> (r: Result<(), Fatal>) {
        proof {
            use_type_invariant(&*self);
        }
        match region(addr) {
            Region::Ram => {
                let mirror_down_addr: Address = addr % 0x0800;
                self.ram[mirror_down_addr as usize] = value;
                Ok(())
            },
            Region::Ppu => {
                let mirror_down_addr: Address = 0x2000 + addr % 8;
                Err(Fatal::Unimplemented(Feature::PpuRegister(mirror_down_addr)))
            },
            Region::Unmapped => Ok(()),
            Region::PrgRom => Err(Fatal::RomWriteAttempt(addr)),
        }
    }
}

} // verus!
