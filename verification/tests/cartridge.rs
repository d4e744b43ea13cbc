use nes_avsync::cartridge::{
    image_is_complete, CHR_BANK_LEN, HEADER_FIELDS, HEADER_LEN, PRG_BANK_LEN, TRAINER_LEN,
};

fn header(prg: u8, chr: u8, flags6: u8, flags7: u8) -> Vec<u8> {
    let mut image = vec![0x4E, 0x45, 0x53, 0x1A, prg, chr, flags6, flags7];
    image.extend_from_slice(&[0; 8]);
    image
}

#[test]
fn sizes_of_the_format() {
    assert_eq!(HEADER_FIELDS, 8);
    assert_eq!(HEADER_LEN, 16);
    assert_eq!(TRAINER_LEN, 512);
    assert_eq!(PRG_BANK_LEN, 16 * 1024);
    assert_eq!(CHR_BANK_LEN, 8 * 1024);
}

#[test]
fn images_shorter_than_the_header_fields_are_incomplete() {
    assert!(!image_is_complete(&[]));
    assert!(!image_is_complete(&[0x4E, 0x45, 0x53]));
    assert!(!image_is_complete(&[0x4E, 0x45, 0x53, 0x1A, 0, 0, 0]));
}

#[test]
fn header_without_banks_is_complete_at_sixteen_bytes() {
    assert!(image_is_complete(&header(0, 0, 0, 0)));
    assert!(!image_is_complete(&header(0, 0, 0, 0)[..15]));
}

#[test]
fn every_announced_bank_must_be_there() {
    let mut image = header(2, 1, 0, 0);
    image.resize(16 + 2 * 0x4000 + 0x2000 - 1, 0);
    assert!(!image_is_complete(&image));
    image.push(0);
    assert!(image_is_complete(&image));
    image.push(0);
    assert!(image_is_complete(&image));
}

#[test]
fn a_trainer_takes_512_bytes_more() {
    let mut image = header(1, 0, 0b100, 0);
    image.resize(16 + 0x4000, 0);
    assert!(!image_is_complete(&image));
    image.resize(16 + 512 + 0x4000, 0);
    assert!(image_is_complete(&image));
}

#[test]
fn the_largest_header_is_measured_without_overflow() {
    let mut image = header(255, 255, 0b100, 0);
    let full = 16 + 512 + 255 * 0x4000 + 255 * 0x2000;
    image.resize(full - 1, 0);
    assert!(!image_is_complete(&image));
    image.push(0);
    assert!(image_is_complete(&image));
}

#[test]
fn completeness_does_not_look_at_the_first_four_bytes() {
    let mut image = header(1, 1, 0, 0);
    image.resize(16 + 0x4000 + 0x2000, 0);
    image[0] = 0;
    assert!(image_is_complete(&image));
}
