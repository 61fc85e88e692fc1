use chip8::Chip8;
use chip8::Chip8Error;
use chip8::CycleOutcome;

/// Builds a ROM from a list of 16-bit opcodes, big-endian.
fn rom_of(ops: &[u16]) -> Vec<u8> {
    let mut rom = Vec::new();
    for op in ops {
        rom.push((op >> 8) as u8);
        rom.push((op & 0xFF) as u8);
    }
    rom
}

/// A machine with the given opcodes loaded at 0x200.
fn machine_with(ops: &[u16]) -> Chip8 {
    let mut m = Chip8::new();
    m.load_rom(&rom_of(ops)).unwrap();
    m
}

/// Runs `count` cycles, requiring each to complete.
fn run(m: &mut Chip8, count: usize) {
    for _ in 0..count {
        assert_eq!(m.cycle(), Ok(CycleOutcome::Completed));
    }
}

#[test]
fn new_machine_has_font_and_zeroed_state() {
    let m = Chip8::new();
    assert_eq!(m.ram.len(), 4096);
    assert_eq!(m.ram[0], 0xF0); // first byte of glyph 0
    assert_eq!(m.ram[5], 0x20); // first byte of glyph 1
    assert_eq!(m.ram[79], 0x80); // last byte of glyph F
    assert_eq!(m.ram[80], 0x00);
    assert_eq!(m.ram[0x200], 0x00);
    assert_eq!(m.reg_pc, 0);
    assert_eq!(m.reg_sp, 0);
    assert_eq!(m.reg_i, 0);
    assert!(m.reg_v.iter().all(|&v| v == 0));
    assert!(m.get_display().iter().all(|&p| p == 0));
}

#[test]
fn load_rom_at_capacity_succeeds() {
    // 3584 + 0x200 = 4096 <= 4096: the ROM exactly fills memory
    let mut m = Chip8::new();
    let rom = vec![0xABu8; 3584];
    assert_eq!(m.load_rom(&rom), Ok(()));
    assert_eq!(m.reg_pc, 0x200);
    assert_eq!(m.ram[0x200], 0xAB);
    assert_eq!(m.ram[4095], 0xAB);
}

#[test]
fn load_rom_one_byte_over_capacity_fails() {
    // 3585 + 0x200 = 4097 > 4096
    let mut m = Chip8::new();
    let rom = vec![0xABu8; 3585];
    assert_eq!(m.load_rom(&rom), Err(Chip8Error::CapacityError));
    // nothing changed
    assert_eq!(m.reg_pc, 0);
    assert_eq!(m.ram[0x200], 0x00);
}

#[test]
fn load_rom_over_capacity_fails() {
    let mut m = Chip8::new();
    let rom = vec![0xABu8; 3840];
    assert_eq!(m.load_rom(&rom), Err(Chip8Error::CapacityError));
    assert_eq!(m.reg_pc, 0);
    assert_eq!(m.ram[0x200], 0x00);
}

#[test]
fn reset_restores_initial_state() {
    let mut m = machine_with(&[0x6105]);
    run(&mut m, 1);
    assert_eq!(m.reg_v[1], 5);
    m.reset();
    assert_eq!(m.reg_pc, 0);
    assert_eq!(m.reg_v[1], 0);
    assert_eq!(m.ram[0x200], 0);
    assert_eq!(m.ram[0], 0xF0);
}

#[test]
fn ld_and_add_immediate() {
    let mut m = machine_with(&[0x6321, 0x7302]);
    run(&mut m, 2);
    assert_eq!(m.reg_v[3], 0x23);
}

#[test]
fn add_immediate_wraps_without_flag() {
    let mut m = machine_with(&[0x60FF, 0x6F07, 0x7002]);
    run(&mut m, 3);
    assert_eq!(m.reg_v[0], 0x01);
    assert_eq!(m.reg_v[0xF], 0x07); // VF untouched by ADD Vx,imm
}

#[test]
fn add_registers_with_carry() {
    // Vx=0xFF, Vy=0x01 -> Vx=0x00, VF=1
    let mut m = machine_with(&[0x60FF, 0x6101, 0x8014]);
    run(&mut m, 3);
    assert_eq!(m.reg_v[0], 0x00);
    assert_eq!(m.reg_v[0xF], 1);
}

#[test]
fn add_registers_without_carry() {
    // Vx=0x01, Vy=0x01 -> Vx=0x02, VF=0
    let mut m = machine_with(&[0x6001, 0x6101, 0x8014]);
    run(&mut m, 3);
    assert_eq!(m.reg_v[0], 0x02);
    assert_eq!(m.reg_v[0xF], 0);
}

#[test]
fn sub_registers_with_borrow() {
    // Vx=0x05, Vy=0x0A -> Vx=0xFB (wrapped), VF=0
    let mut m = machine_with(&[0x6005, 0x610A, 0x8015]);
    run(&mut m, 3);
    assert_eq!(m.reg_v[0], 0xFB);
    assert_eq!(m.reg_v[0xF], 0);
}

#[test]
fn sub_registers_without_borrow() {
    // Vx=0x0A, Vy=0x05 -> Vx=0x05, VF=1
    let mut m = machine_with(&[0x600A, 0x6105, 0x8015]);
    run(&mut m, 3);
    assert_eq!(m.reg_v[0], 0x05);
    assert_eq!(m.reg_v[0xF], 1);
}

#[test]
fn subn_registers() {
    // Vx=0x0A, Vy=0x05: Vx = Vy - Vx = 0xFB, VF=0
    let mut m = machine_with(&[0x600A, 0x6105, 0x8017]);
    run(&mut m, 3);
    assert_eq!(m.reg_v[0], 0xFB);
    assert_eq!(m.reg_v[0xF], 0);
    // Vx=0x05, Vy=0x0A: Vx = 0x05, VF=1
    let mut m = machine_with(&[0x6005, 0x610A, 0x8017]);
    run(&mut m, 3);
    assert_eq!(m.reg_v[0], 0x05);
    assert_eq!(m.reg_v[0xF], 1);
}

#[test]
fn shr_captures_lsb() {
    // Vx=0x03 -> Vx=0x01, VF=1
    let mut m = machine_with(&[0x6003, 0x8016]);
    run(&mut m, 2);
    assert_eq!(m.reg_v[0], 0x01);
    assert_eq!(m.reg_v[0xF], 1);
    // Vx=0x04 -> Vx=0x02, VF=0
    let mut m = machine_with(&[0x6004, 0x8016]);
    run(&mut m, 2);
    assert_eq!(m.reg_v[0], 0x02);
    assert_eq!(m.reg_v[0xF], 0);
}

#[test]
fn shl_captures_msb() {
    // Vx=0x81 -> Vx=0x02, VF=1
    let mut m = machine_with(&[0x6081, 0x801E]);
    run(&mut m, 2);
    assert_eq!(m.reg_v[0], 0x02);
    assert_eq!(m.reg_v[0xF], 1);
    // Vx=0x41 -> Vx=0x82, VF=0
    let mut m = machine_with(&[0x6041, 0x801E]);
    run(&mut m, 2);
    assert_eq!(m.reg_v[0], 0x82);
    assert_eq!(m.reg_v[0xF], 0);
}

#[test]
fn bitwise_ops() {
    let mut m = machine_with(&[0x60CC, 0x61AA, 0x8011]);
    run(&mut m, 3);
    assert_eq!(m.reg_v[0], 0xCC | 0xAA);
    let mut m = machine_with(&[0x60CC, 0x61AA, 0x8012]);
    run(&mut m, 3);
    assert_eq!(m.reg_v[0], 0xCC & 0xAA);
    let mut m = machine_with(&[0x60CC, 0x61AA, 0x8013]);
    run(&mut m, 3);
    assert_eq!(m.reg_v[0], 0xCC ^ 0xAA);
}

#[test]
fn ld_register_copies() {
    let mut m = machine_with(&[0x6142, 0x8010]);
    run(&mut m, 2);
    assert_eq!(m.reg_v[0], 0x42);
}

#[test]
fn skip_equal_immediate() {
    // V0 = 7; SE V0,7 skips the LD V1,1; so V1 stays 0
    let mut m = machine_with(&[0x6007, 0x3007, 0x6101, 0x6202]);
    run(&mut m, 3);
    assert_eq!(m.reg_v[1], 0);
    assert_eq!(m.reg_v[2], 2);
    // SE V0,8 does not skip
    let mut m = machine_with(&[0x6007, 0x3008, 0x6101]);
    run(&mut m, 3);
    assert_eq!(m.reg_v[1], 1);
}

#[test]
fn skip_not_equal_immediate() {
    let mut m = machine_with(&[0x6007, 0x4008, 0x6101, 0x6202]);
    run(&mut m, 3);
    assert_eq!(m.reg_v[1], 0);
    assert_eq!(m.reg_v[2], 2);
}

#[test]
fn skip_register_compares() {
    // V0 == V1: SE skips
    let mut m = machine_with(&[0x6005, 0x6105, 0x5010, 0x6201, 0x6302]);
    run(&mut m, 4);
    assert_eq!(m.reg_v[2], 0);
    assert_eq!(m.reg_v[3], 2);
    // V0 != V1: SNE skips
    let mut m = machine_with(&[0x6005, 0x6106, 0x9010, 0x6201, 0x6302]);
    run(&mut m, 4);
    assert_eq!(m.reg_v[2], 0);
    assert_eq!(m.reg_v[3], 2);
}

#[test]
fn jp_sets_pc_exactly() {
    let mut m = machine_with(&[0x1345]);
    run(&mut m, 1);
    assert_eq!(m.reg_pc, 0x345);
    // regardless of current pc: jump from a later address too
    let mut m = machine_with(&[0x6000, 0x1400]);
    run(&mut m, 2);
    assert_eq!(m.reg_pc, 0x400);
}

#[test]
fn jp_v0_adds_offset() {
    let mut m = machine_with(&[0x6005, 0xB300]);
    run(&mut m, 2);
    assert_eq!(m.reg_pc, 0x305);
}

#[test]
fn call_then_ret_returns_past_the_call() {
    // 0x200: CALL 0x206; 0x202: LD V1,1; 0x204: JP 0x204; 0x206: RET
    let mut m = machine_with(&[0x2206, 0x6101, 0x1204, 0x00EE]);
    run(&mut m, 1);
    assert_eq!(m.reg_pc, 0x206);
    assert_eq!(m.reg_sp, 1);
    assert_eq!(m.stack[0], 0x202);
    run(&mut m, 1); // RET
    assert_eq!(m.reg_pc, 0x202);
    assert_eq!(m.reg_sp, 0);
    run(&mut m, 1);
    assert_eq!(m.reg_v[1], 1);
}

#[test]
fn seventeenth_call_overflows_stack() {
    // Each CALL targets the next instruction; the 17th finds the stack full.
    let mut ops = Vec::new();
    for i in 0..17u16 {
        let target = 0x200 + 2 * (i + 1);
        ops.push(0x2000 | target);
    }
    let mut m = machine_with(&ops);
    for _ in 0..16 {
        assert_eq!(m.cycle(), Ok(CycleOutcome::Completed));
    }
    assert_eq!(m.reg_sp, 16);
    assert_eq!(m.cycle(), Err(Chip8Error::StackError));
}

#[test]
fn ret_on_empty_stack_underflows() {
    let mut m = machine_with(&[0x00EE]);
    assert_eq!(m.cycle(), Err(Chip8Error::StackError));
}

#[test]
fn cls_clears_and_double_draw_toggles_off() {
    // 0x200: LD V0,0; 0x202: LD I,0x20A; 0x204: DRW V0,V0,1;
    // 0x206: DRW V0,V0,1; 0x208: CLS; 0x20A: data 0xFF 0x00
    let mut m = machine_with(&[0x6000, 0xA20A, 0xD001, 0xD001, 0x00E0, 0xFF00]);
    run(&mut m, 3);
    // one 8x1 sprite of all-1 bits at (0,0): pixels 0..8 on, no collision
    for px in 0..8 {
        assert_eq!(m.get_display()[px], 1);
    }
    assert_eq!(m.get_display()[8], 0);
    assert_eq!(m.reg_v[0xF], 0);
    run(&mut m, 1);
    // drawn twice: all toggled back off, collision reported
    assert!(m.get_display().iter().all(|&p| p == 0));
    assert_eq!(m.reg_v[0xF], 1);
    run(&mut m, 1);
    // CLS after draws leaves the buffer all-off
    assert!(m.get_display().iter().all(|&p| p == 0));
}

#[test]
fn draw_wraps_at_display_edges() {
    // V0=62 (column), V1=31 (row): the sprite wraps both edges
    let mut m = machine_with(&[0x603E, 0x611F, 0xA20A, 0xD012, 0x1208, 0xFFFF]);
    run(&mut m, 4);
    let d = m.get_display();
    // row 31: columns 62, 63, 0..6
    assert_eq!(d[31 * 64 + 62], 1);
    assert_eq!(d[31 * 64 + 63], 1);
    assert_eq!(d[31 * 64 + 5], 1);
    assert_eq!(d[31 * 64 + 6], 0);
    // second sprite row wraps to row 0
    assert_eq!(d[0 * 64 + 62], 1);
    assert_eq!(d[0 * 64 + 1], 1);
    assert_eq!(m.reg_v[0xF], 0);
}

#[test]
fn draw_past_memory_end_is_memory_error() {
    let mut m = machine_with(&[0xAFFF, 0xD012]);
    run(&mut m, 1);
    assert_eq!(m.cycle(), Err(Chip8Error::MemoryError));
}

#[test]
fn bcd_stores_decimal_digits() {
    let mut m = machine_with(&[0x63FE, 0xA300, 0xF333]);
    run(&mut m, 3);
    assert_eq!(m.ram[0x300], 2);
    assert_eq!(m.ram[0x301], 5);
    assert_eq!(m.ram[0x302], 4);
    let mut m = machine_with(&[0x6307, 0xA300, 0xF333]);
    run(&mut m, 3);
    assert_eq!(m.ram[0x300], 0);
    assert_eq!(m.ram[0x301], 0);
    assert_eq!(m.ram[0x302], 7);
}

#[test]
fn bcd_past_memory_end_is_memory_error() {
    let mut m = machine_with(&[0xAFFE, 0xF333]);
    run(&mut m, 1);
    assert_eq!(m.cycle(), Err(Chip8Error::MemoryError));
}

#[test]
fn store_and_load_register_block() {
    // V0..V2 = 1,2,3; store V0..V2 at 0x300; clear V1; load back V0..V2
    let mut m = machine_with(&[
        0x6001, 0x6102, 0x6203, 0x6399, 0xA300, 0xF255, 0x6100, 0xF265,
    ]);
    run(&mut m, 8);
    assert_eq!(m.ram[0x300], 1);
    assert_eq!(m.ram[0x301], 2);
    assert_eq!(m.ram[0x302], 3);
    assert_eq!(m.ram[0x303], 0); // V3 was not stored
    assert_eq!(m.reg_v[0], 1);
    assert_eq!(m.reg_v[1], 2);
    assert_eq!(m.reg_v[2], 3);
    assert_eq!(m.reg_v[3], 0x99); // V3 was not loaded
}

#[test]
fn register_block_past_memory_end_is_memory_error() {
    let mut m = machine_with(&[0xAFFE, 0xF255, 0xAFFE, 0xF265]);
    run(&mut m, 1);
    assert_eq!(m.cycle(), Err(Chip8Error::MemoryError));
    run(&mut m, 1);
    assert_eq!(m.cycle(), Err(Chip8Error::MemoryError));
}

#[test]
fn font_address_uses_low_nibble() {
    let mut m = machine_with(&[0x600A, 0xF029]);
    run(&mut m, 2);
    assert_eq!(m.reg_i, 50); // glyph A at 10 * 5
    let mut m = machine_with(&[0x60FA, 0xF029]);
    run(&mut m, 2);
    assert_eq!(m.reg_i, 50); // only the low nibble selects the glyph
}

#[test]
fn add_i_accumulates() {
    let mut m = machine_with(&[0xA100, 0x6005, 0xF01E]);
    run(&mut m, 3);
    assert_eq!(m.reg_i, 0x105);
}

#[test]
fn timers_load_and_store() {
    let mut m = machine_with(&[0x6030, 0xF015, 0xF118, 0xF207]);
    run(&mut m, 4);
    assert_eq!(m.delay_timer(), 0x30);
    assert_eq!(m.sound_timer(), 0);
    assert_eq!(m.reg_v[2], 0x30);
    m.set_delay_timer(0x2F);
    m.set_sound_timer(9);
    assert_eq!(m.delay_timer(), 0x2F);
    assert_eq!(m.sound_timer(), 9);
}

#[test]
fn skip_if_key_pressed() {
    // V0 selects key 4; SKP skips when pressed
    let mut m = machine_with(&[0x6004, 0xE09E, 0x6101, 0x6202]);
    m.set_key(4, true);
    run(&mut m, 3);
    assert_eq!(m.reg_v[1], 0);
    assert_eq!(m.reg_v[2], 2);
    // not pressed: no skip
    let mut m = machine_with(&[0x6004, 0xE09E, 0x6101]);
    run(&mut m, 3);
    assert_eq!(m.reg_v[1], 1);
}

#[test]
fn skip_key_selects_low_nibble_of_vx() {
    // V0 = 0x14 selects key 4
    let mut m = machine_with(&[0x6014, 0xE09E, 0x6101, 0x6202]);
    m.set_key(4, true);
    run(&mut m, 3);
    assert_eq!(m.reg_v[1], 0);
    assert_eq!(m.reg_v[2], 2);
}

#[test]
fn skip_if_key_not_pressed() {
    let mut m = machine_with(&[0x6004, 0xE0A1, 0x6101, 0x6202]);
    run(&mut m, 3);
    assert_eq!(m.reg_v[1], 0);
    assert_eq!(m.reg_v[2], 2);
}

#[test]
fn wait_for_key_blocks_then_completes() {
    let mut m = machine_with(&[0xF30A, 0x6101]);
    assert_eq!(m.cycle(), Ok(CycleOutcome::Blocked));
    assert_eq!(m.reg_pc, 0x200); // still at the wait instruction
    assert_eq!(m.cycle(), Ok(CycleOutcome::Blocked));
    m.set_key(7, true);
    assert_eq!(m.cycle(), Ok(CycleOutcome::Completed));
    assert_eq!(m.reg_v[3], 7);
    assert_eq!(m.reg_pc, 0x202);
}

#[test]
fn wait_for_key_takes_lowest_pressed() {
    let mut m = machine_with(&[0xF30A]);
    m.set_key(9, true);
    m.set_key(2, true);
    assert_eq!(m.cycle(), Ok(CycleOutcome::Completed));
    assert_eq!(m.reg_v[3], 2);
}

#[test]
fn random_masks_with_immediate() {
    let mut m = machine_with(&[0xC00F, 0xC100]);
    run(&mut m, 2);
    assert_eq!(m.reg_v[0] & 0xF0, 0); // only bits of the mask can be set
    assert_eq!(m.reg_v[1], 0); // mask 0 forces 0
}

#[test]
fn sys_is_a_no_op() {
    let mut m = machine_with(&[0x0123, 0x6105]);
    run(&mut m, 2);
    assert_eq!(m.reg_pc, 0x204);
    assert_eq!(m.reg_v[1], 5);
}

#[test]
fn unknown_opcode_reports_decode_error_and_advances() {
    let mut m = machine_with(&[0x8009, 0x6105]);
    assert_eq!(m.cycle(), Err(Chip8Error::DecodeError(0x8009)));
    assert_eq!(m.reg_pc, 0x202);
    // a permissive caller can keep cycling as if it were a no-op
    run(&mut m, 1);
    assert_eq!(m.reg_v[1], 5);
}

#[test]
fn super_chip_opcodes_are_unsupported() {
    for op in [0x00FBu16, 0x00FC, 0x00FD, 0x00FE, 0x00FF, 0x00C3, 0xD120, 0xF130, 0xF175, 0xF185] {
        let mut m = machine_with(&[op]);
        assert_eq!(m.cycle(), Err(Chip8Error::DecodeError(op)));
    }
}

#[test]
fn fetch_past_memory_end_is_memory_error() {
    let mut m = machine_with(&[0x1FFF]);
    run(&mut m, 1);
    assert_eq!(m.reg_pc, 0xFFF);
    assert_eq!(m.cycle(), Err(Chip8Error::MemoryError));
    assert_eq!(m.reg_pc, 0xFFF); // nothing changed
}

#[test]
fn display_snapshot_has_fixed_size() {
    let m = Chip8::new();
    assert_eq!(m.get_display().len(), 64 * 32);
}
