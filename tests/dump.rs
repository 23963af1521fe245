use nesemu::cpu::CPU;
use nesemu::dump::hexdump;

#[test]
fn hexdump_one_row() {
    assert_eq!(hexdump(&[0xAB, 0x01, 0x00], 0), "\n0000: ab 01 00 \n");
}

#[test]
fn hexdump_starts_a_row_every_32_addresses() {
    assert_eq!(hexdump(&[1, 2, 3], 31), "01 \n0020: 02 03 \n");
    let bytes = [0u8; 33];
    let d = hexdump(&bytes, 0x8000);
    assert!(d.starts_with("\n8000: 00 "));
    assert!(d.ends_with("\n8020: 00 \n"));
}

#[test]
fn hexdump_of_nothing_is_a_new_line() {
    assert_eq!(hexdump(&[], 5), "\n");
}

#[test]
fn hexdump_wide_address() {
    assert_eq!(hexdump(&[0xFF], 0x10000), "\n10000: ff \n");
}

#[test]
fn ram_dump() {
    let mut v = vec![0x4E, 0x45, 0x53, 0x1A, 1, 0, 0, 0, 0, 0, 0, 0, 0, 0, 0, 0];
    v.extend(vec![0u8; 16384]);
    let mut cpu = CPU::new(&v).ok().unwrap();
    cpu.storeb(0x0001, 0x9C);
    cpu.storeb(0x0002, 0x0E);
    assert_eq!(cpu.dump_ram(1, 3), "\n0000: 9c 0e \n");
    let all = cpu.dump_ram(0, 0);
    assert!(all.starts_with("\n0000: 00 9c 0e 00 "));
    assert_eq!(all.matches('\n').count(), 0x800 / 32 + 1);
}
