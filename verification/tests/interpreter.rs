use chip8::cpu::{CPU, Fault, Instr, Step};
use chip8::mem::{Opcode, RAM};
use chip8::keys::State;

fn no_keys() -> State {
    State { key: 0, pressed: false, state: 0 }
}

/// A machine with `rom` loaded at 0x200, ready to run.
fn cpu_with(rom: &[u8]) -> CPU {
    let mut ram = RAM::new();
    ram.fill(&rom.to_vec()).unwrap();
    CPU::new(ram)
}

#[test]
fn decode_covers_every_family() {
    assert_eq!(Opcode(0x0000).decode(), Instr::Halt);
    assert_eq!(Opcode(0x00E0).decode(), Instr::Clear);
    assert_eq!(Opcode(0x00EE).decode(), Instr::Ret);
    assert_eq!(Opcode(0x00FF).decode(), Instr::Unknown);
    assert_eq!(Opcode(0x1234).decode(), Instr::Jump(0x234));
    assert_eq!(Opcode(0x2345).decode(), Instr::Call(0x345));
    assert_eq!(Opcode(0x3A12).decode(), Instr::SkipEqNum(0xA, 0x12));
    assert_eq!(Opcode(0x4B34).decode(), Instr::SkipNeNum(0xB, 0x34));
    assert_eq!(Opcode(0x5120).decode(), Instr::SkipEqReg(1, 2));
    assert_eq!(Opcode(0x5121).decode(), Instr::Unknown);
    assert_eq!(Opcode(0x6A3C).decode(), Instr::SetNum(0xA, 0x3C));
    assert_eq!(Opcode(0x7003).decode(), Instr::AddNum(0, 3));
    assert_eq!(Opcode(0x8120).decode(), Instr::Copy(1, 2));
    assert_eq!(Opcode(0x8121).decode(), Instr::Or(1, 2));
    assert_eq!(Opcode(0x8122).decode(), Instr::And(1, 2));
    assert_eq!(Opcode(0x8123).decode(), Instr::Xor(1, 2));
    assert_eq!(Opcode(0x8124).decode(), Instr::AddReg(1, 2));
    assert_eq!(Opcode(0x8125).decode(), Instr::SubReg(1, 2));
    assert_eq!(Opcode(0x8126).decode(), Instr::Shr(1, 2));
    assert_eq!(Opcode(0x8127).decode(), Instr::SubRev(1, 2));
    assert_eq!(Opcode(0x812E).decode(), Instr::Shl(1, 2));
    assert_eq!(Opcode(0x8128).decode(), Instr::Unknown);
    assert_eq!(Opcode(0x9120).decode(), Instr::SkipNeReg(1, 2));
    assert_eq!(Opcode(0x9121).decode(), Instr::Unknown);
    assert_eq!(Opcode(0xA400).decode(), Instr::SetIndex(0x400));
    assert_eq!(Opcode(0xB300).decode(), Instr::JumpOffset(0x300));
    assert_eq!(Opcode(0xC30F).decode(), Instr::Rand(3, 0x0F));
    assert_eq!(Opcode(0xD015).decode(), Instr::Draw(0, 1, 5));
    assert_eq!(Opcode(0xE39E).decode(), Instr::SkipKey(3));
    assert_eq!(Opcode(0xE3A1).decode(), Instr::SkipNoKey(3));
    assert_eq!(Opcode(0xE300).decode(), Instr::Unknown);
    assert_eq!(Opcode(0xF107).decode(), Instr::GetDelay(1));
    assert_eq!(Opcode(0xF10A).decode(), Instr::WaitKey(1));
    assert_eq!(Opcode(0xF115).decode(), Instr::SetDelay(1));
    assert_eq!(Opcode(0xF118).decode(), Instr::SetSound(1));
    assert_eq!(Opcode(0xF11E).decode(), Instr::AddIndex(1));
    assert_eq!(Opcode(0xF129).decode(), Instr::Glyph(1));
    assert_eq!(Opcode(0xF133).decode(), Instr::StoreDigits(1));
    assert_eq!(Opcode(0xF155).decode(), Instr::StoreRegs);
    assert_eq!(Opcode(0xF165).decode(), Instr::LoadRegs);
    assert_eq!(Opcode(0xF1FF).decode(), Instr::Unknown);
}

#[test]
fn set_register_advances_pc_by_two() {
    let mut cpu = cpu_with(&[0x6A, 0x3C]);
    let r = cpu.exec(&no_keys());
    assert!(matches!(r, Ok(Step::Continue)));
    assert_eq!(cpu.pc, 0x202);
    assert_eq!(cpu.vreg[0xA], 0x3C);
}

#[test]
fn add_reg_sets_carry_iff_sum_overflows() {
    let mut cpu = cpu_with(&[0x80, 0x14]);
    cpu.vreg[0] = 200;
    cpu.vreg[1] = 100;
    cpu.exec(&no_keys()).unwrap();
    assert_eq!(cpu.vreg[0], 44); // (200 + 100) mod 256
    assert_eq!(cpu.vreg[0xF], 1);

    let mut cpu = cpu_with(&[0x80, 0x14]);
    cpu.vreg[0] = 10;
    cpu.vreg[1] = 20;
    cpu.vreg[0xF] = 7;
    cpu.exec(&no_keys()).unwrap();
    assert_eq!(cpu.vreg[0], 30);
    assert_eq!(cpu.vreg[0xF], 0);
}

#[test]
fn sub_reg_sets_flag_iff_minuend_larger() {
    let mut cpu = cpu_with(&[0x80, 0x15]);
    cpu.vreg[0] = 10;
    cpu.vreg[1] = 20;
    cpu.exec(&no_keys()).unwrap();
    assert_eq!(cpu.vreg[0], 246); // (10 - 20) mod 256
    assert_eq!(cpu.vreg[0xF], 0);

    let mut cpu = cpu_with(&[0x80, 0x15]);
    cpu.vreg[0] = 20;
    cpu.vreg[1] = 10;
    cpu.exec(&no_keys()).unwrap();
    assert_eq!(cpu.vreg[0], 10);
    assert_eq!(cpu.vreg[0xF], 1);
}

#[test]
fn sub_rev_takes_other_direction() {
    let mut cpu = cpu_with(&[0x80, 0x17]);
    cpu.vreg[0] = 10;
    cpu.vreg[1] = 20;
    cpu.exec(&no_keys()).unwrap();
    assert_eq!(cpu.vreg[0], 10); // 20 - 10
    assert_eq!(cpu.vreg[0xF], 1);
}

#[test]
fn shifts_report_edge_bits() {
    let mut cpu = cpu_with(&[0x80, 0x16]);
    cpu.vreg[0] = 0b1001_0101;
    cpu.exec(&no_keys()).unwrap();
    assert_eq!(cpu.vreg[0], 0b0100_1010);
    assert_eq!(cpu.vreg[0xF], 1);

    let mut cpu = cpu_with(&[0x80, 0x1E]);
    cpu.vreg[0] = 0b1001_0101;
    cpu.exec(&no_keys()).unwrap();
    assert_eq!(cpu.vreg[0], 0b0010_1010);
    assert_eq!(cpu.vreg[0xF], 1);
}

#[test]
fn copy_or_and_xor_registers() {
    let mut cpu = cpu_with(&[0x81, 0x20, 0x83, 0x41, 0x85, 0x62, 0x87, 0x83]);
    cpu.vreg[2] = 0x5A;
    cpu.vreg[3] = 0b1100;
    cpu.vreg[4] = 0b1010;
    cpu.vreg[5] = 0b1100;
    cpu.vreg[6] = 0b1010;
    cpu.vreg[7] = 0b1100;
    cpu.vreg[8] = 0b1010;
    cpu.exec(&no_keys()).unwrap();
    assert_eq!(cpu.vreg[1], 0x5A);
    cpu.exec(&no_keys()).unwrap();
    assert_eq!(cpu.vreg[3], 0b1110);
    cpu.exec(&no_keys()).unwrap();
    assert_eq!(cpu.vreg[5], 0b1000);
    cpu.exec(&no_keys()).unwrap();
    assert_eq!(cpu.vreg[7], 0b0110);
    assert_eq!(cpu.pc, 0x208);
}

#[test]
fn add_num_wraps_without_touching_flag() {
    let mut cpu = cpu_with(&[0x70, 0x0A]);
    cpu.vreg[0] = 250;
    cpu.vreg[0xF] = 9;
    cpu.exec(&no_keys()).unwrap();
    assert_eq!(cpu.vreg[0], 4); // 250 + 10 wraps
    assert_eq!(cpu.vreg[0xF], 9); // flag untouched
}

#[test]
fn clear_blanks_every_row() {
    let mut cpu = cpu_with(&[0x00, 0xE0]);
    for i in 0..32 {
        cpu.fbuf.0[i] = u64::MAX;
    }
    let r = cpu.exec(&no_keys());
    assert!(matches!(r, Ok(Step::Continue)));
    for i in 0..32 {
        assert_eq!(cpu.fbuf.0[i], 0);
    }
    assert_eq!(cpu.pc, 0x202);
}

#[test]
fn draw_twice_restores_framebuffer_and_reports_collision() {
    // glyph 0 (at address 0) drawn at column 4, row 3, twice in a row
    let mut cpu = cpu_with(&[0xD0, 0x15, 0xD0, 0x15]);
    cpu.vreg[0] = 4;
    cpu.vreg[1] = 3;
    let r1 = cpu.exec(&no_keys());
    let glyph0: [u8; 5] = [0xF0, 0x90, 0x90, 0x90, 0xF0];
    for (i, b) in glyph0.iter().enumerate() {
        assert_eq!(cpu.fbuf.0[3 + i], ((*b as u64) << 56) >> 4);
    }
    assert_eq!(cpu.vreg[0xF], 0); // nothing was lit before
    match r1 {
        Ok(Step::Draw(f)) => assert_eq!(f.0, cpu.fbuf.0),
        _ => panic!("first draw did not emit a frame"),
    }
    let r2 = cpu.exec(&no_keys());
    for i in 0..32 {
        assert_eq!(cpu.fbuf.0[i], 0, "row {} not restored", i);
    }
    assert_eq!(cpu.vreg[0xF], 1); // second draw erased what the first lit
    assert!(matches!(r2, Ok(Step::Draw(_))));
    assert_eq!(cpu.pc, 0x204);
}

#[test]
fn draw_detects_partial_collision() {
    let mut cpu = cpu_with(&[0xD0, 0x11]);
    cpu.vreg[0] = 0;
    cpu.vreg[1] = 0;
    cpu.ireg = 0x300;
    cpu.ram.set(0x300, 0x80); // single leftmost pixel
    cpu.fbuf.0[0] = 1 << 63; // already lit
    cpu.exec(&no_keys()).unwrap();
    assert_eq!(cpu.fbuf.0[0], 0);
    assert_eq!(cpu.vreg[0xF], 1);
}

#[test]
fn timer_ticks_clamp_at_zero() {
    let mut cpu = cpu_with(&[0x00, 0x00]);
    cpu.dt = 5;
    cpu.st = 0;
    for _ in 0..10 {
        cpu.tick();
    }
    assert_eq!(cpu.dt, 0);
    assert_eq!(cpu.st, 0);
}

#[test]
fn jump_sets_pc_regardless_of_prior_value() {
    let mut cpu = cpu_with(&[0x12, 0x00]);
    cpu.exec(&no_keys()).unwrap();
    assert_eq!(cpu.pc, 0x200);

    let mut cpu = cpu_with(&[]);
    cpu.pc = 0x250;
    cpu.ram.set(0x250, 0x12);
    cpu.ram.set(0x251, 0x00);
    cpu.exec(&no_keys()).unwrap();
    assert_eq!(cpu.pc, 0x200);
}

#[test]
fn jump_offset_adds_v0() {
    let mut cpu = cpu_with(&[0xB3, 0x00]);
    cpu.vreg[0] = 4;
    cpu.exec(&no_keys()).unwrap();
    assert_eq!(cpu.pc, 0x304);
}

#[test]
fn call_then_ret_resumes_after_call() {
    let mut rom = vec![0u8; 0x102];
    rom[0] = 0x23; // 0x2300 at 0x200: call 0x300
    rom[1] = 0x00;
    rom[0x100] = 0x00; // 0x00EE at 0x300: return
    rom[0x101] = 0xEE;
    let mut cpu = cpu_with(&rom);
    cpu.exec(&no_keys()).unwrap();
    assert_eq!(cpu.pc, 0x300);
    assert_eq!(cpu.stack.sp, 1);
    assert_eq!(cpu.stack.data[1], 0x200);
    cpu.exec(&no_keys()).unwrap();
    assert_eq!(cpu.pc, 0x202);
    assert_eq!(cpu.stack.sp, 0);
}

#[test]
fn skip_key_advances_by_four_when_pressed() {
    let keys = State { key: 3, pressed: true, state: 1 << 3 };
    let mut cpu = cpu_with(&[0xE3, 0x9E]);
    cpu.vreg[3] = 3;
    cpu.exec(&keys).unwrap();
    assert_eq!(cpu.pc, 0x204);

    let mut cpu = cpu_with(&[0xE3, 0xA1]);
    cpu.vreg[3] = 3;
    cpu.exec(&keys).unwrap();
    assert_eq!(cpu.pc, 0x202);
}

#[test]
fn skip_key_advances_by_two_when_released() {
    let keys = no_keys();
    let mut cpu = cpu_with(&[0xE3, 0x9E]);
    cpu.vreg[3] = 3;
    cpu.exec(&keys).unwrap();
    assert_eq!(cpu.pc, 0x202);

    let mut cpu = cpu_with(&[0xE3, 0xA1]);
    cpu.vreg[3] = 3;
    cpu.exec(&keys).unwrap();
    assert_eq!(cpu.pc, 0x204);
}

#[test]
fn skip_families_compare_correctly() {
    // 0x3: skip if Vx == nn
    let mut cpu = cpu_with(&[0x30, 0x07]);
    cpu.vreg[0] = 7;
    cpu.exec(&no_keys()).unwrap();
    assert_eq!(cpu.pc, 0x204);
    // 0x4: skip if Vx != nn
    let mut cpu = cpu_with(&[0x40, 0x07]);
    cpu.vreg[0] = 7;
    cpu.exec(&no_keys()).unwrap();
    assert_eq!(cpu.pc, 0x202);
    // 0x5: skip if Vx == Vy
    let mut cpu = cpu_with(&[0x50, 0x10]);
    cpu.vreg[0] = 9;
    cpu.vreg[1] = 9;
    cpu.exec(&no_keys()).unwrap();
    assert_eq!(cpu.pc, 0x204);
    // 0x9: skip if Vx != Vy
    let mut cpu = cpu_with(&[0x90, 0x10]);
    cpu.vreg[0] = 9;
    cpu.vreg[1] = 9;
    cpu.exec(&no_keys()).unwrap();
    assert_eq!(cpu.pc, 0x202);
}

#[test]
fn wait_key_blocks_until_press() {
    let mut cpu = cpu_with(&[0xF0, 0x0A]);
    let r = cpu.exec(&no_keys());
    assert!(matches!(r, Ok(Step::Waiting)));
    assert_eq!(cpu.pc, 0x200); // did not advance: the driver retries

    let pressed = State { key: 7, pressed: true, state: 1 << 7 };
    let r = cpu.exec(&pressed);
    assert!(matches!(r, Ok(Step::Continue)));
    assert_eq!(cpu.vreg[0], 7);
    assert_eq!(cpu.pc, 0x202);
}

#[test]
fn rand_is_masked() {
    let mut cpu = cpu_with(&[0xC3, 0x00, 0xC4, 0x0F]);
    cpu.vreg[3] = 0xAA;
    cpu.exec(&no_keys()).unwrap();
    assert_eq!(cpu.vreg[3], 0); // any byte masked by 0 is 0
    cpu.exec(&no_keys()).unwrap();
    assert!(cpu.vreg[4] <= 0x0F);
    assert_eq!(cpu.pc, 0x204);
}

#[test]
fn delay_and_sound_timers_load_and_read() {
    let mut cpu = cpu_with(&[0xF0, 0x15, 0xF1, 0x18, 0xF2, 0x07]);
    cpu.vreg[0] = 42;
    cpu.vreg[1] = 17;
    cpu.exec(&no_keys()).unwrap();
    assert_eq!(cpu.dt, 42);
    cpu.exec(&no_keys()).unwrap();
    assert_eq!(cpu.st, 17);
    cpu.exec(&no_keys()).unwrap();
    assert_eq!(cpu.vreg[2], 42);
}

#[test]
fn add_index_and_glyph_address() {
    let mut cpu = cpu_with(&[0xF0, 0x1E, 0xF1, 0x29]);
    cpu.ireg = 0x100;
    cpu.vreg[0] = 0x20;
    cpu.vreg[1] = 0x1B; // low nibble 0xB
    cpu.exec(&no_keys()).unwrap();
    assert_eq!(cpu.ireg, 0x120);
    cpu.exec(&no_keys()).unwrap();
    assert_eq!(cpu.ireg, 55); // glyph B at 11 * 5
}

#[test]
fn bcd_store_decomposes_digits() {
    let mut cpu = cpu_with(&[0xA4, 0x00, 0xF0, 0x33]);
    cpu.vreg[0] = 234;
    cpu.exec(&no_keys()).unwrap();
    assert_eq!(cpu.ireg, 0x400);
    cpu.exec(&no_keys()).unwrap();
    assert_eq!(cpu.ram.get(0x400), 2);
    assert_eq!(cpu.ram.get(0x401), 3);
    assert_eq!(cpu.ram.get(0x402), 4);
}

#[test]
fn store_then_load_registers_roundtrip() {
    let mut cpu = cpu_with(&[0xF0, 0x55, 0x60, 0x00, 0xF0, 0x65]);
    for i in 0..16 {
        cpu.vreg[i] = (i as u8) * 3;
    }
    cpu.ireg = 0x500;
    cpu.exec(&no_keys()).unwrap(); // dump
    for i in 0..16 {
        assert_eq!(cpu.ram.get(0x500 + i), (i as u8) * 3);
    }
    cpu.exec(&no_keys()).unwrap(); // V0 = 0
    assert_eq!(cpu.vreg[0], 0);
    cpu.exec(&no_keys()).unwrap(); // load back
    for i in 0..16 {
        assert_eq!(cpu.vreg[i as usize], (i as u8) * 3);
    }
}

#[test]
fn halt_stops_without_advancing() {
    let mut cpu = cpu_with(&[0x00, 0x00]);
    let r = cpu.exec(&no_keys());
    assert!(matches!(r, Ok(Step::Halt)));
    assert_eq!(cpu.pc, 0x200);
}

#[test]
fn unrecognized_opcode_is_reported_and_driver_advances() {
    let mut cpu = cpu_with(&[0xFF, 0xFF]);
    let r = cpu.exec(&no_keys());
    assert_eq!(r.unwrap_err(), Fault::Unrecognized(0xFFFF));
    assert_eq!(cpu.pc, 0x200); // the error path does not advance
    cpu.advance(); // the driver applies the default increment
    assert_eq!(cpu.pc, 0x202);
}

#[test]
fn ret_underflows_on_empty_stack() {
    let mut cpu = cpu_with(&[0x00, 0xEE]);
    assert_eq!(cpu.exec(&no_keys()).unwrap_err(), Fault::StackUnderflow);
    assert_eq!(cpu.pc, 0x200);
}

#[test]
fn call_overflows_after_fifteen_frames() {
    // 0x2200 at 0x200 calls itself, pushing 0x200 every time
    let mut cpu = cpu_with(&[0x22, 0x00]);
    for depth in 1..=15 {
        assert!(matches!(cpu.exec(&no_keys()), Ok(Step::Continue)));
        assert_eq!(cpu.stack.sp, depth);
    }
    assert_eq!(cpu.exec(&no_keys()).unwrap_err(), Fault::StackOverflow);
    assert_eq!(cpu.stack.sp, 15);
}

#[test]
fn fetch_out_of_range_faults() {
    let mut cpu = cpu_with(&[]);
    cpu.pc = 4095;
    assert_eq!(cpu.exec(&no_keys()).unwrap_err(), Fault::FetchOutOfRange(4095));
}

#[test]
fn sprite_read_past_memory_faults() {
    let mut cpu = cpu_with(&[0xD0, 0x1F]);
    cpu.ireg = 4090;
    assert_eq!(cpu.exec(&no_keys()).unwrap_err(), Fault::SpriteOutOfRange(4090, 15));
}

#[test]
fn draw_outside_grid_faults() {
    let mut cpu = cpu_with(&[0xD0, 0x15]);
    cpu.vreg[0] = 0;
    cpu.vreg[1] = 30; // 30 + 5 rows > 32
    assert_eq!(cpu.exec(&no_keys()).unwrap_err(), Fault::DrawOutOfRange(0, 30, 5));

    let mut cpu = cpu_with(&[0xD0, 0x15]);
    cpu.vreg[0] = 70; // column offset beyond 63
    cpu.vreg[1] = 0;
    assert_eq!(cpu.exec(&no_keys()).unwrap_err(), Fault::DrawOutOfRange(70, 0, 5));
}

#[test]
fn memory_stores_past_end_fault() {
    let mut cpu = cpu_with(&[0xF0, 0x33]);
    cpu.ireg = 4094;
    assert_eq!(cpu.exec(&no_keys()).unwrap_err(), Fault::MemOutOfRange(4094));

    let mut cpu = cpu_with(&[0xF0, 0x55]);
    cpu.ireg = 4082;
    assert_eq!(cpu.exec(&no_keys()).unwrap_err(), Fault::MemOutOfRange(4082));

    let mut cpu = cpu_with(&[0xF0, 0x65]);
    cpu.ireg = 4082;
    assert_eq!(cpu.exec(&no_keys()).unwrap_err(), Fault::MemOutOfRange(4082));
}

#[test]
fn advance_wraps_at_the_top_of_the_address_space() {
    let mut cpu = cpu_with(&[]);
    cpu.pc = 0xFFFF;
    cpu.advance();
    assert_eq!(cpu.pc, 1);
}

#[test]
fn new_cpu_starts_clean() {
    let cpu = cpu_with(&[]);
    assert_eq!(cpu.pc, 0x200);
    assert_eq!(cpu.ireg, 0);
    assert_eq!(cpu.dt, 0);
    assert_eq!(cpu.st, 0);
    assert_eq!(cpu.stack.sp, 0);
    for i in 0..16 {
        assert_eq!(cpu.vreg[i], 0);
    }
    for i in 0..32 {
        assert_eq!(cpu.fbuf.0[i], 0);
    }
}

#[test]
fn render_packs_two_rows_per_glyph_line() {
    let mut cpu = cpu_with(&[]);
    cpu.fbuf.0[0] = 1 << 63; // top half of the first cell
    cpu.fbuf.0[1] = 1; // bottom half of the last cell
    cpu.fbuf.0[2] = 1 << 62;
    cpu.fbuf.0[3] = 1 << 62; // both halves of the second cell, second line
    let rows = chip8::render::render_rows(&chip8::cpu::Frame(cpu.fbuf.0));
    assert_eq!(rows.len(), 16);
    for row in &rows {
        assert_eq!(row.len(), 64);
    }
    assert_eq!(rows[0][0], '\u{2580}');
    assert_eq!(rows[0][63], '\u{2584}');
    assert_eq!(rows[0][1], ' ');
    assert_eq!(rows[1][1], '\u{2588}');
    assert_eq!(rows[1][0], ' ');
    for n in 0..64 {
        assert_eq!(rows[15][n], ' ');
    }
}
