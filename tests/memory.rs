use gbcore::mmu::Mmu;

#[test]
fn test_new_mmu_is_zeroes() {
    let mmu = Mmu::new();
    assert_eq!(mmu.read_byte(0x0000), 0);
}

#[test]
fn test_read_write_byte() {
    let mut mmu = Mmu::new();
    mmu.write_byte(0x1000, 0xFF);
    assert_eq!(mmu.read_byte(0x1000), 0xFF);
    assert_eq!(mmu.read_byte(0x1001), 0x0);
}

#[test]
fn test_read_write_word() {
    let mut mmu = Mmu::new();
    mmu.write_word(0x1000, 0xBEEF);
    assert_eq!(mmu.read_word(0x1000), 0xBEEF);
    assert_eq!(mmu.read_word(0x1002), 0x0);
}

#[test]
fn test_write_word_at_boundary() {
    let mut mmu = Mmu::new();
    mmu.write_word(0xFFFF, 0x1234);
    assert_eq!(mmu.read_byte(0xFFFF), 0x34);
    assert_eq!(mmu.read_byte(0x0000), 0x12);
}

#[test]
fn test_load_rom() {
    let mut mmu = Mmu::new();
    let data: Vec<u8> = vec![0x00, 0xC3, 0x50, 0x01, 0xCE, 0xED];
    mmu.load_rom(&data);

    assert_eq!(mmu.read_byte(0x0000), 0x00);
    assert_eq!(mmu.read_byte(0x0001), 0xC3);
    assert_eq!(mmu.read_byte(0x002), 0x50);
    assert_eq!(mmu.read_byte(0x003), 0x01);
    assert_eq!(mmu.read_byte(0x004), 0xCE);
    assert_eq!(mmu.read_byte(0x005), 0xED);
}

#[test]
fn test_load_rom_clamps_to_32kb() {
    let mut mmu = Mmu::new();
    let rom_data: Vec<u8> = vec![0xFF; 0x10000];
    mmu.load_rom(&rom_data);

    assert_eq!(mmu.read_byte(0x0000), 0xFF);
    assert_eq!(mmu.read_byte(0x7FFF), 0xFF);
    assert_eq!(mmu.read_byte(0x8000), 0x00);
}

#[test]
fn new_mmu_is_zero_everywhere() {
    let mmu = Mmu::new();
    for a in 0..=0xFFFFu16 {
        assert_eq!(mmu.read_byte(a), 0);
    }
}

#[test]
fn byte_write_leaves_other_addresses() {
    let mut mmu = Mmu::new();
    mmu.write_byte(0xFFFF, 0xAB);
    mmu.write_byte(0x0000, 0xCD);
    assert_eq!(mmu.read_byte(0xFFFF), 0xAB);
    assert_eq!(mmu.read_byte(0x0000), 0xCD);
    assert_eq!(mmu.read_byte(0xFFFE), 0);
    assert_eq!(mmu.read_byte(0x0001), 0);
    mmu.write_byte(0xFFFF, 0x01);
    assert_eq!(mmu.read_byte(0xFFFF), 0x01);
}

#[test]
fn word_is_little_endian() {
    let mut mmu = Mmu::new();
    mmu.write_byte(0x2000, 0x34);
    mmu.write_byte(0x2001, 0x12);
    assert_eq!(mmu.read_word(0x2000), 0x1234);
    mmu.write_word(0x3000, 0xBEEF);
    assert_eq!(mmu.read_byte(0x3000), 0xEF);
    assert_eq!(mmu.read_byte(0x3001), 0xBE);
    assert_eq!(mmu.read_byte(0x2FFF), 0);
    assert_eq!(mmu.read_byte(0x3002), 0);
}

#[test]
fn word_read_wraps_at_top_of_memory() {
    let mut mmu = Mmu::new();
    mmu.write_byte(0xFFFF, 0xCD);
    mmu.write_byte(0x0000, 0xAB);
    assert_eq!(mmu.read_word(0xFFFF), 0xABCD);
    mmu.write_word(0xFFFF, 0x5678);
    assert_eq!(mmu.read_word(0xFFFF), 0x5678);
    assert_eq!(mmu.read_byte(0x0001), 0);
}

#[test]
fn load_rom_of_exactly_32kb() {
    let mut mmu = Mmu::new();
    let data: Vec<u8> = (0..0x8000u32).map(|i| (i % 251) as u8 + 1).collect();
    mmu.load_rom(&data);
    assert_eq!(mmu.read_byte(0x0000), 1);
    assert_eq!(mmu.read_byte(0x7FFF), (0x7FFFu32 % 251) as u8 + 1);
    assert_eq!(mmu.read_byte(0x8000), 0);
}

#[test]
fn load_rom_keeps_high_memory_and_unloaded_tail() {
    let mut mmu = Mmu::new();
    mmu.write_byte(0x0010, 0x77);
    mmu.write_byte(0x8000, 0x42);
    mmu.write_byte(0xFFFF, 0x99);
    mmu.load_rom(&[1, 2, 3]);
    assert_eq!(mmu.read_byte(0x0000), 1);
    assert_eq!(mmu.read_byte(0x0002), 3);
    assert_eq!(mmu.read_byte(0x0003), 0);
    assert_eq!(mmu.read_byte(0x0010), 0x77);

    let big: Vec<u8> = vec![0xEE; 0x9000];
    mmu.load_rom(&big);
    assert_eq!(mmu.read_byte(0x0010), 0xEE);
    assert_eq!(mmu.read_byte(0x8000), 0x42);
    assert_eq!(mmu.read_byte(0x8FFF), 0);
    assert_eq!(mmu.read_byte(0xFFFF), 0x99);
}

#[test]
fn load_empty_rom_changes_nothing() {
    let mut mmu = Mmu::new();
    mmu.write_byte(0x0000, 0x5A);
    mmu.load_rom(&[]);
    assert_eq!(mmu.read_byte(0x0000), 0x5A);
}
