use mos6502::memory::MEM;

#[test]
fn new_memory_is_zeroed() {
    let mem = MEM::new();
    assert_eq!(mem.read_byte(0x0000), 0);
    assert_eq!(mem.read_byte(0x1234), 0);
    assert_eq!(mem.read_byte(0xFFFF), 0);
}

#[test]
fn byte_round_trip() {
    let mut mem = MEM::new();
    mem.write_byte(0x0042, 0xAB);
    assert_eq!(mem.read_byte(0x0042), 0xAB);
    assert_eq!(mem.read_byte(0x0041), 0);
    assert_eq!(mem.read_byte(0x0043), 0);
}

#[test]
fn word_write_is_little_endian() {
    let mut mem = MEM::new();
    mem.write_word(0x1234, 0x0080);
    assert_eq!(mem.read_byte(0x0080), 0x34);
    assert_eq!(mem.read_byte(0x0081), 0x12);
}

#[test]
fn word_round_trip() {
    let mut mem = MEM::new();
    mem.write_word(0xBEEF, 0x0200);
    assert_eq!(mem.read_word(0x0200), 0xBEEF);
    mem.write_word(0x0001, 0x0200);
    assert_eq!(mem.read_word(0x0200), 0x0001);
}

#[test]
fn word_round_trip_at_top_wrap_boundary() {
    // the high byte of a word at 0xFFFF wraps to address 0x0000,
    // for the write and for the read alike
    let mut mem = MEM::new();
    mem.write_word(0xABCD, 0xFFFF);
    assert_eq!(mem.read_byte(0xFFFF), 0xCD);
    assert_eq!(mem.read_byte(0x0000), 0xAB);
    assert_eq!(mem.read_word(0xFFFF), 0xABCD);
}
