use nesemu::rom::{FormatError, INESHeader, CHR_BANK_LEN, INES_HEADER_MAGIC, PRG_BANK_LEN, ROM};

fn header(prg: u8, chr: u8, flags_6: u8) -> Vec<u8> {
    vec![0x4E, 0x45, 0x53, 0x1A, prg, chr, flags_6, 0, 0, 0, 0, 0, 0, 0, 0, 0]
}

fn image(prg: u8, chr: u8) -> Vec<u8> {
    let mut v = header(prg, chr, 0);
    for i in 0..(prg as usize * PRG_BANK_LEN) {
        v.push((i % 251) as u8);
    }
    for _ in 0..(chr as usize * CHR_BANK_LEN) {
        v.push(0xCC);
    }
    v
}

#[test]
fn bad_magic_is_a_format_error() {
    let mut v = image(1, 0);
    v[3] = 0x00;
    match ROM::from_bytes(&v) {
        Err(FormatError::BadMagic { magic }) => assert_eq!(magic, 0x0053454E),
        _ => panic!("expected a bad magic"),
    }
    let mut w = image(1, 0);
    w[0] = b'X';
    assert!(matches!(ROM::from_bytes(&w), Err(FormatError::BadMagic { .. })));
}

#[test]
fn short_image_is_a_format_error() {
    let v = vec![0x4E, 0x45, 0x53, 0x1A, 1, 0];
    assert_eq!(ROM::from_bytes(&v).err(), Some(FormatError::ShortHeader { len: 6 }));
    assert_eq!(ROM::from_bytes(&[]).err(), Some(FormatError::ShortHeader { len: 0 }));
}

#[test]
fn truncated_prg_is_a_format_error() {
    let mut v = header(1, 1, 0);
    v.extend(std::iter::repeat(0u8).take(100));
    assert_eq!(
        ROM::from_bytes(&v).err(),
        Some(FormatError::Truncated { needed: 16 + 16384 + 8192, len: 116 })
    );
}

#[test]
fn trainer_counts_toward_the_needed_length() {
    let mut v = header(1, 0, 0x04);
    v.extend(std::iter::repeat(0u8).take(16384));
    assert_eq!(
        ROM::from_bytes(&v).err(),
        Some(FormatError::Truncated { needed: 16 + 512 + 16384, len: 16 + 16384 })
    );
}

#[test]
fn loads_prg_and_chr() {
    let v = image(2, 1);
    let rom = ROM::from_bytes(&v).ok().unwrap();
    assert_eq!(rom.prg.len(), 2 * 16384);
    assert_eq!(rom.chr.len(), 8192);
    assert_eq!(rom.prg[0], 0);
    assert_eq!(rom.prg[300], (300 % 251) as u8);
    assert!(rom.chr.iter().all(|&b| b == 0xCC));
    assert_eq!(rom.header.size_prg, 2);
    assert_eq!(rom.header.size_chr, 1);
    assert_eq!(rom.header.magic, INES_HEADER_MAGIC);
}

#[test]
fn extra_bytes_are_ignored() {
    let mut v = image(1, 0);
    v.push(0x99);
    let rom = ROM::from_bytes(&v).ok().unwrap();
    assert_eq!(rom.prg.len(), 16384);
    assert!(rom.chr.is_empty());
}

#[test]
fn trainer_is_skipped() {
    let mut v = header(1, 0, 0x04);
    v.extend(std::iter::repeat(0xEEu8).take(512));
    v.push(0x42);
    v.extend(std::iter::repeat(0u8).take(16383));
    let rom = ROM::from_bytes(&v).ok().unwrap();
    assert_eq!(rom.prg[0], 0x42);
    assert!(rom.header.has_trainer());
}

#[test]
fn header_fields_from_array() {
    let a: [u8; 16] = [0x4E, 0x45, 0x53, 0x1A, 2, 3, 0x04, 5, 6, 7, 8, 0, 0, 0, 0, 9];
    let h = INESHeader::from_array(&a).ok().unwrap();
    assert_eq!(h.magic, 0x1A53454E);
    assert_eq!((h.size_prg, h.size_chr, h.flags_6, h.flags_7), (2, 3, 4, 5));
    assert_eq!((h.size_prg_ram, h.flags_9, h.flags_10), (6, 7, 8));
    assert_eq!(h.zero, [0, 0, 0, 0, 9]);
    assert!(h.has_trainer());
    let mut b = a;
    b[6] = 0xFB;
    assert!(!INESHeader::from_array(&b).ok().unwrap().has_trainer());
    b[1] = 0;
    assert_eq!(INESHeader::from_array(&b).err(), Some(FormatError::BadMagic { magic: 0x1A53004E }));
}

#[test]
fn new_header_is_zero() {
    let h = INESHeader::new();
    assert_eq!(h.magic, 0);
    assert_eq!(h.size_prg, 0);
    assert_eq!(h.flags_6, 0);
    assert_eq!(h.zero, [0; 5]);
    assert!(!h.has_trainer());
}
