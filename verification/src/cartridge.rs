//! Cartridges and their images in the iNES format.

use vstd::prelude::*;

verus! {

/// Size of one bank of program ROM: 16 KiB.
pub const PRG_ROM_PAGE_SIZE: usize = 0x4000;

/// Size of one bank of character ROM: 8 KiB.
pub const CHR_ROM_PAGE_SIZE: usize = 0x2000;

/// Size of the header that an image starts with.
pub const HEADER_SIZE: usize = 16;

/// Size of the trainer that may stand between header and program ROM.
pub const TRAINER_SIZE: usize = 0x0200;

/// How a cartridge lays the two name tables out over four.
#[derive(Clone, Copy, Debug, PartialEq, Eq, Structural)]
pub enum Mirroring {
    Vertical,
    Horizontal,
    FourScreen,
}

/// Why an image is not taken for a cartridge.
#[derive(Clone, Copy, Debug, PartialEq, Eq, Structural)]
pub enum CartridgeError {
    /// The image does not start with the bytes `4E 45 53 1A`.
    NotInes,
    /// The image is of a later version of the format than the first.
    UnsupportedVersion,
    /// The image ends before its header, or before the program and
    /// character ROM that its header announces.
    Truncated,
}

/// A cartridge: what an image holds, once taken apart.
#[derive(Debug)]
pub struct Cartoridge {
    /// Program ROM, a whole number of banks of 16 KiB.
    pub prg_rom: Vec<u8>,
    /// Character ROM, a whole number of banks of 8 KiB.
    pub chr_rom: Vec<u8>,
    /// Number of the mapper.
    pub mapper: u8,
    pub mirroring: Mirroring,
}

/// A cartridge as a mathematical value.
pub struct CartridgeView {
    pub prg_rom: Seq<u8>,
    pub chr_rom: Seq<u8>,
    pub mapper: u8,
    pub mirroring: Mirroring,
}

impl View for Cartoridge {
    type V = CartridgeView;

    open spec fn view(&self) -> CartridgeView {
        CartridgeView {
            prg_rom: self.prg_rom@,
            chr_rom: self.chr_rom@,
            mapper: self.mapper,
            mirroring: self.mirroring,
        }
    }
}

/// Whether `image` starts with the four bytes that mark the format, "NES"
/// and `0x1A`.
pub open spec fn has_magic(image: Seq<u8>) -> bool {
    image.len() >= 4 && image[0] == 0x4E && image[1] == 0x45 && image[2] == 0x53 && image[3]
        == 0x1A
}

/// The version field of a header: the high six bits of its byte 7.
pub open spec fn version_of(image: Seq<u8>) -> u8 {
    image[7] >> 2
}

/// The mapper number of a header: its high nibble from byte 7, its low
/// nibble from the high nibble of byte 6.
pub open spec fn mapper_of(image: Seq<u8>) -> u8 {
    (image[7] & 0b1111_0000) | (image[6] >> 4)
}

/// The mirroring of a header, by byte 6: four screens if bit 3 is set;
/// if not, vertical if bit 0 is set, and horizontal if not.
pub open spec fn mirroring_of(image: Seq<u8>) -> Mirroring {
    if image[6] & 0b1000 != 0 {
        Mirroring::FourScreen
    } else if image[6] & 0b0001 != 0 {
        Mirroring::Vertical
    } else {
        Mirroring::Horizontal
    }
}

/// Where program ROM starts in an image: after the header, and after the
/// trainer where bit 2 of byte 6 says that there is one.
pub open spec fn prg_rom_start(image: Seq<u8>) -> int {
    if image[6] & 0b0100 != 0 {
        HEADER_SIZE + TRAINER_SIZE
    } else {
        HEADER_SIZE as int
    }
}

/// Size of the program ROM that a header announces: byte 4 counts its
/// banks.
pub open spec fn prg_rom_size(image: Seq<u8>) -> int {
    image[4] * PRG_ROM_PAGE_SIZE
}

/// Size of the character ROM that a header announces: byte 5 counts its
/// banks.
pub open spec fn chr_rom_size(image: Seq<u8>) -> int {
    image[5] * CHR_ROM_PAGE_SIZE
}

/// The cartridge that `image` holds, or why it holds none. Character ROM
/// follows program ROM; what follows character ROM is not looked at.
pub open spec fn parse(image: Seq<u8>) -> Result<CartridgeView, CartridgeError> {
    let prg_start = prg_rom_start(image);
    let chr_start = prg_start + prg_rom_size(image);
    let end = chr_start + chr_rom_size(image);
    if !has_magic(image) {
        Err(CartridgeError::NotInes)
    } else if image.len() < HEADER_SIZE {
        Err(CartridgeError::Truncated)
    } else if version_of(image) != 0 {
        Err(CartridgeError::UnsupportedVersion)
    } else if image.len() < end {
        Err(CartridgeError::Truncated)
    } else {
        Ok(
            CartridgeView {
                prg_rom: image.subrange(prg_start, chr_start),
                chr_rom: image.subrange(chr_start, end),
                mapper: mapper_of(image),
                mirroring: mirroring_of(image),
            },
        )
    }
}

/// A cartridge that was taken from an image has whole banks: its program
/// ROM is as many banks of 16 KiB as byte 4 of the header says, and its
/// character ROM as many banks of 8 KiB as byte 5 says. The image started
/// with the four bytes of the format and was of its first version.
pub proof fn lemma_parsed_cartridge(image: Seq<u8>)
    requires
        parse(image) is Ok,
    ensures
        has_magic(image),
        version_of(image) == 0,
        parse(image)->Ok_0.prg_rom.len() == image[4] * PRG_ROM_PAGE_SIZE,
        parse(image)->Ok_0.chr_rom.len() == image[5] * CHR_ROM_PAGE_SIZE,
        parse(image)->Ok_0.prg_rom.len() % (PRG_ROM_PAGE_SIZE as nat) == 0,
        parse(image)->Ok_0.chr_rom.len() % (CHR_ROM_PAGE_SIZE as nat) == 0,
        parse(image)->Ok_0.mapper == (image[7] & 0xF0) | (image[6] >> 4),
{
    assert((image[4] * 0x4000) % 0x4000 == 0) by (nonlinear_arith);
    assert((image[5] * 0x2000) % 0x2000 == 0) by (nonlinear_arith);
}

/// The bytes of `bytes` from `start` on, `len` of them.
fn copy_range(bytes: &Vec<u8>, start: usize, len: usize) -> (out: Vec<u8>)
    requires
        start + len <= bytes.len(),
    ensures
        out@ == bytes@.subrange(start as int, start + len),
{
    let mut out: Vec<u8> = Vec::with_capacity(len);
    let mut i: usize = 0;
    while i < len
        invariant
            i <= len,
            start + len <= bytes.len(),
            out@ == bytes@.subrange(start as int, start + i),
        decreases len - i,
    {
        out.push(bytes[start + i]);
        i = i + 1;
    }
    out
}

impl CartridgeError {
    /// The reason in words.
    pub open spec fn reason(self) -> Seq<char> {
        match self {
            CartridgeError::NotInes => "The bytes is not iNES format"@,
            CartridgeError::UnsupportedVersion => "iNES 2.0 is not supported"@,
            CartridgeError::Truncated => "The image ends before its ROM does"@,
        }
    }

    /// The reason in words, for a person to read.
    pub fn message(&self) -> (text: String)
        ensures
            text@ == self.reason(),
    {
        match self {
            CartridgeError::NotInes => "The bytes is not iNES format".to_string(),
            CartridgeError::UnsupportedVersion => "iNES 2.0 is not supported".to_string(),
            CartridgeError::Truncated => "The image ends before its ROM does".to_string(),
        }
    }
}

impl Cartoridge {
    /// Takes an image in the iNES format apart.
    pub fn new(bytes: Vec<u8>) -> (r: Result<Cartoridge, CartridgeError>)
        ensures
            match parse(bytes@) {
                Ok(cartridge) => r matches Ok(c) && c@ == cartridge,
                Err(e) => r matches Err(x) && x == e,
            },
    {
        if bytes.len() < 4 || bytes[0] != 0x4E || bytes[1] != 0x45 || bytes[2] != 0x53 || bytes[3]
            != 0x1A {
            return Err(CartridgeError::NotInes);
        }
        if bytes.len() < HEADER_SIZE {
            return Err(CartridgeError::Truncated);
        }
        let mapper: u8 = (bytes[7] & 0b1111_0000) | (bytes[6] >> 4);

        let ines_version: u8 = bytes[7] >> 2;
        if ines_version != 0 {
            return Err(CartridgeError::UnsupportedVersion);
        }
        let is_four_screen = bytes[6] & 0b1000 != 0;
        let is_vertical = bytes[6] & 0b0001 != 0;
        let mirroring = if is_four_screen {
            Mirroring::FourScreen
        } else if is_vertical {
            Mirroring::Vertical
        } else {
            Mirroring::Horizontal
        };

        let prg_rom_size: usize = bytes[4] as usize * PRG_ROM_PAGE_SIZE;
        let chr_rom_size: usize = bytes[5] as usize * CHR_ROM_PAGE_SIZE;

        let skip_trainer = bytes[6] & 0b0100 != 0;

        let prg_rom_start: usize = HEADER_SIZE + if skip_trainer {
            TRAINER_SIZE
        } else {
            0
        };
        let chr_rom_start: usize = prg_rom_start + prg_rom_size;
        if bytes.len() < chr_rom_start + chr_rom_size {
            return Err(CartridgeError::Truncated);
        }
        Ok(
            Cartoridge {
                prg_rom: copy_range(&bytes, prg_rom_start, prg_rom_size),
                chr_rom: copy_range(&bytes, chr_rom_start, chr_rom_size),
                mapper,
                mirroring,
            },
        )
    }
}

} // verus!
