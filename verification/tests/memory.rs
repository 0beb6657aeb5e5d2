use chip8::mem::{LoadError, Opcode, RAM};

#[test]
fn ram_new_has_glyphs_and_zeros() {
    let ram = RAM::new();
    // glyph 0
    assert_eq!(&ram.0[0..5], &[0xF0, 0x90, 0x90, 0x90, 0xF0]);
    // glyph 1
    assert_eq!(&ram.0[5..10], &[0x20, 0x60, 0x20, 0x20, 0x70]);
    // last byte of glyph F
    assert_eq!(ram.0[79], 0x80);
    for i in 80..4096 {
        assert_eq!(ram.0[i], 0, "byte {} not zero", i);
    }
}

#[test]
fn fill_rejects_oversized_rom() {
    let mut ram = RAM::new();
    let rom = vec![0xAB_u8; 3585];
    assert_eq!(ram.fill(&rom), Err(LoadError::TooLarge));
    // nothing was written
    assert_eq!(ram.0[0x200], 0);
    assert_eq!(ram.0[4095], 0);
}

#[test]
fn fill_accepts_max_rom() {
    let mut ram = RAM::new();
    let rom = vec![0xAB_u8; 3584];
    assert_eq!(ram.fill(&rom), Ok(()));
    assert_eq!(ram.0[0x200], 0xAB);
    assert_eq!(ram.0[4095], 0xAB);
    // glyphs and the gap below 0x200 untouched
    assert_eq!(ram.0[0], 0xF0);
    assert_eq!(ram.0[0x1FF], 0);
}

#[test]
fn fill_copies_rom_in_order() {
    let mut ram = RAM::new();
    let rom = vec![1u8, 2, 3, 4];
    assert_eq!(ram.fill(&rom), Ok(()));
    assert_eq!(&ram.0[0x200..0x204], &[1, 2, 3, 4]);
    assert_eq!(ram.0[0x204], 0);
}

#[test]
fn opcode_fetch_is_big_endian() {
    let mut ram = RAM::new();
    ram.set(0x200, 0x6A);
    ram.set(0x201, 0x3C);
    let op = ram.opcode(0x200);
    assert_eq!(op.0, 0x6A3C);
}

#[test]
fn opcode_fields() {
    let op = Opcode(0xD123);
    assert_eq!(op.mode(), 0xD);
    assert_eq!(op.x(), 0x1);
    assert_eq!(op.y(), 0x2);
    assert_eq!(op.z(), 0x3);
    assert_eq!(op.num(), 0x23);
    assert_eq!(op.addr(), 0x123);
}

#[test]
fn sprite_reads_glyph_bytes() {
    let ram = RAM::new();
    let s = ram.sprite(0, 5);
    assert_eq!(s, vec![0xF0, 0x90, 0x90, 0x90, 0xF0]);
    let empty = ram.sprite(100, 0);
    assert!(empty.is_empty());
}

#[test]
fn set_then_get_roundtrip() {
    let mut ram = RAM::new();
    ram.set(0x300, 0x5A);
    assert_eq!(ram.get(0x300), 0x5A);
    assert_eq!(ram.get(0x2FF), 0);
    assert_eq!(ram.get(0x301), 0);
}
