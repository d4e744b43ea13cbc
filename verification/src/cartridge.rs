//! Program images.
//!
//! An image is the content of a cartridge in the iNES format: a header, an
//! optional trainer, the program banks and the character banks. Reading an
//! image is the console core's business. What is decided here is whether an
//! image can be handed to the core at all: whether it is as long as its
//! header says, and whether it holds a program.

use vstd::prelude::*;

verus! {

/// Bytes of the header that are read.
pub const HEADER_FIELDS: usize = 8;

/// Bytes before the trainer or the first program bank.
pub const HEADER_LEN: usize = 16;

/// Bytes in a trainer.
pub const TRAINER_LEN: usize = 512;

/// Bytes in a program bank.
pub const PRG_BANK_LEN: usize = 0x4000;

/// Bytes in a character bank.
pub const CHR_BANK_LEN: usize = 0x2000;

/// Whether the image starts with the four bytes that mark the format.
pub open spec fn has_magic(image: Seq<u8>) -> bool {
    &&& image.len() >= 4
    &&& image[0] == 0x4E
    &&& image[1] == 0x45
    &&& image[2] == 0x53
    &&& image[3] == 0x1A
}

/// The number of program banks that the header announces.
pub open spec fn prg_banks(image: Seq<u8>) -> nat {
    image[4] as nat
}

/// The number of character banks that the header announces.
pub open spec fn chr_banks(image: Seq<u8>) -> nat {
    image[5] as nat
}

/// Whether the header announces a trainer.
pub open spec fn has_trainer(image: Seq<u8>) -> bool {
    image[6] & 0b100 != 0
}

/// The number of the mapper: its low four bits are the high four bits of
/// byte 6, its high four bits those of byte 7.
pub open spec fn mapper_number(image: Seq<u8>) -> u8 {
    (image[6] >> 4) | (image[7] & 0xF0)
}

/// Whether the console core knows the mapper.
pub open spec fn mapper_supported(image: Seq<u8>) -> bool {
    mapper_number(image) <= 2
}

/// The program memory of the cartridge in bytes: one bank for each that the
/// header announces.
pub open spec fn program_bytes(image: Seq<u8>) -> nat {
    PRG_BANK_LEN as nat * prg_banks(image)
}

/// The character memory of the cartridge in bytes: one bank for each that
/// the header announces, and one bank of its own if the header announces
/// none.
pub open spec fn character_bytes(image: Seq<u8>) -> nat {
    if chr_banks(image) == 0 {
        CHR_BANK_LEN as nat
    } else {
        CHR_BANK_LEN as nat * chr_banks(image)
    }
}

/// Where the last announced bank ends.
pub open spec fn banks_end(image: Seq<u8>) -> nat {
    HEADER_LEN as nat + (if has_trainer(image) {
        TRAINER_LEN as nat
    } else {
        0
    }) + PRG_BANK_LEN as nat * prg_banks(image) + CHR_BANK_LEN as nat * chr_banks(image)
}

/// Whether the image holds the header fields and every bank that the header
/// announces.
pub open spec fn is_complete(image: Seq<u8>) -> bool {
    image.len() >= HEADER_FIELDS && banks_end(image) <= image.len()
}

/// Whether a console can be made from the image: it is complete, it is in
/// the format, its mapper is known, and it has at least one program bank.
pub open spec fn is_loadable(image: Seq<u8>) -> bool {
    &&& is_complete(image)
    &&& prg_banks(image) >= 1
    &&& has_magic(image)
    &&& mapper_supported(image)
}

/// Whether the image holds the header fields and every bank that the header
/// announces.
pub fn image_is_complete(image: &[u8]) -> (complete: bool)
    ensures
        complete == is_complete(image@),
{
    if image.len() < HEADER_FIELDS {
        return false;
    }
    let prg: usize = image[4] as usize;
    let chr: usize = image[5] as usize;
    let trainer: usize = if image[6] & 0b100 != 0 {
        TRAINER_LEN
    } else {
        0
    };
    let end: usize = HEADER_LEN + trainer + PRG_BANK_LEN * prg + CHR_BANK_LEN * chr;
    end <= image.len()
}

} // verus!
