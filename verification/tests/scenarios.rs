//! End-to-end scenarios: short programs placed in flash and stepped
//! through the fetch-decode-execute pipeline.

use disco_emulator::bits::{bit_field_clear, bit_field_insert, bitset};
use disco_emulator::board::Board;
use disco_emulator::bytecode::{decode_thumb, InstructionContext, ItPos};

/// Builds a board whose vector table points SP at `sp`, the reset entry
/// at `0x0800_0100`, and the hard-fault handler at `0x0800_0200`; the
/// given halfwords stand at the entry.
fn setup(code: &[u16], sp: u32) -> Board {
    let mut board = Board::new();
    let mut table: Vec<u8> = Vec::new();
    table.extend_from_slice(&sp.to_le_bytes());
    table.extend_from_slice(&0x0800_0101u32.to_le_bytes());
    table.extend_from_slice(&0u32.to_le_bytes());
    table.extend_from_slice(&0x0800_0201u32.to_le_bytes());
    board.load_flash(0x0800_0000, &table).unwrap();
    let mut bytes: Vec<u8> = Vec::new();
    for hw in code {
        bytes.extend_from_slice(&hw.to_le_bytes());
    }
    board.load_flash(0x0800_0100, &bytes).unwrap();
    board.reset_registers().unwrap();
    assert_eq!(board.cpu.read_instruction_pc(), 0x0800_0100);
    board
}

#[test]
fn adc_immediate_with_carry_in() {
    // ADC r10, r10, #0xA9 << 24 (wide, modified immediate, flag-setting)
    let mut board = setup(&[0xF15A, 0x4A29], 0x2001_8000);
    board.cpu.set_carry_flag(true);
    board.step().unwrap();
    assert_eq!(board.read_reg(10), (0xA9 << 24) + 1);
    let flags = board.cpu.get_flags();
    assert!(flags.n);
    assert!(!flags.z);
}

#[test]
fn conditional_execution_via_it() {
    // ITE EQ; MOVEQ r0, #1; MOVNE r0, #2
    let mut board = setup(&[0xBF0C, 0x2001, 0x2002], 0x2001_8000);
    board.cpu.set_zero_flag(true);
    let r1_before = board.read_reg(1);
    board.step().unwrap();
    assert!(board.in_it_block());
    board.step().unwrap();
    board.step().unwrap();
    assert_eq!(board.read_reg(0), 1);
    assert_eq!(board.read_reg(1), r1_before);
    assert!(!board.in_it_block());
    assert_eq!(board.cpu.itstate.state, 0);
}

#[test]
fn push_then_pop_round_trip() {
    // PUSH {r0, r1, r2, LR}; POP {r0, r1, r2, PC}
    let mut board = setup(&[0xB507, 0xBD07], 0x2001_8000);
    board.cpu.write_reg(0, 1);
    board.cpu.write_reg(1, 2);
    board.cpu.write_reg(2, 3);
    // The link register carries the Thumb bit; popping it into the PC
    // clears it.
    board.cpu.write_reg(14, 0xAB);
    board.step().unwrap();
    assert_eq!(board.read_sp(), 0x2001_8000 - 16);
    board.step().unwrap();
    assert_eq!(board.read_sp(), 0x2001_8000);
    assert_eq!(board.read_reg(0), 1);
    assert_eq!(board.read_reg(1), 2);
    assert_eq!(board.read_reg(2), 3);
    assert_eq!(board.cpu.read_instruction_pc(), 0xAA & !0b1);
}

#[test]
fn ldrex_strex_success_then_failure() {
    // LDREX r1, [r0]; ADDS r1, #1; STREX r2, r1, [r0]; STREX r2, r1, [r0]
    let code = [0xE850, 0x1F00, 0x3101, 0xE840, 0x1200, 0xE840, 0x1200];
    let mut board = setup(&code, 0x2001_8000);
    board.cpu.write_reg(0, 0x2000_0000);
    board.memory.write_mem_u(0x2000_0000, 4, 41).unwrap();
    board.step().unwrap();
    assert_eq!(board.read_reg(1), 41);
    board.step().unwrap();
    assert_eq!(board.read_reg(1), 42);
    board.step().unwrap();
    assert_eq!(board.read_reg(2), 0, "first store-exclusive must succeed");
    assert_eq!(board.memory.read_mem_u(0x2000_0000, 4), Ok(42));
    board.memory.write_mem_u(0x2000_0000, 4, 7).unwrap();
    board.step().unwrap();
    assert_eq!(board.read_reg(2), 1, "second store-exclusive must fail");
    assert_eq!(board.memory.read_mem_u(0x2000_0000, 4), Ok(7));
}

#[test]
fn branch_sign_extension_backwards() {
    // B with a -6 byte offset from the architectural PC
    let mut board = setup(&[0xE7FD], 0x2001_8000);
    board.step().unwrap();
    assert_eq!(board.cpu.read_instruction_pc(), 0x0800_0100 - 2);
}

#[test]
fn umull_of_max_values() {
    // UMULL r2, r3, r0, r1
    let mut board = setup(&[0xFBA0, 0x2301], 0x2001_8000);
    board.cpu.write_reg(0, 0xFFFF_FFFF);
    board.cpu.write_reg(1, 0xFFFF_FFFF);
    board.step().unwrap();
    assert_eq!(board.read_reg(2), 1);
    assert_eq!(board.read_reg(3), 0xFFFF_FFFE);
}

#[test]
fn udiv_by_zero_raises_usage_fault() {
    // UDIV r0, r1, r2 with r2 == 0: the trap is enabled, so the driver
    // routes the fault to the hard-fault vector.
    let mut board = setup(&[0xFBB1, 0xF0F2], 0x2001_8000);
    board.cpu.write_reg(1, 100);
    board.cpu.write_reg(2, 0);
    board.cpu.write_reg(0, 0xDEAD);
    board.step().unwrap();
    assert_eq!(board.cpu.read_instruction_pc(), 0x0800_0200);
    assert_eq!(board.read_reg(0), 0xDEAD);
}

#[test]
fn sdiv_by_zero_returns_zero() {
    // SDIV r0, r1, r2 with r2 == 0: the trap is disabled, the result is 0.
    let mut board = setup(&[0xFB91, 0xF0F2], 0x2001_8000);
    board.cpu.write_reg(1, 100);
    board.cpu.write_reg(2, 0);
    board.cpu.write_reg(0, 0xDEAD);
    board.step().unwrap();
    assert_eq!(board.read_reg(0), 0);
    assert_eq!(board.cpu.read_instruction_pc(), 0x0800_0104);
}

#[test]
fn sdiv_truncates_toward_zero() {
    // SDIV r0, r1, r2 with -7 / 2 == -3
    let mut board = setup(&[0xFB91, 0xF0F2], 0x2001_8000);
    board.cpu.write_reg(1, (-7i32) as u32);
    board.cpu.write_reg(2, 2);
    board.step().unwrap();
    assert_eq!(board.read_reg(0), (-3i32) as u32);
}

#[test]
fn asr_by_32_and_lsl_by_32_boundaries() {
    // MOVS r1, #32; ASRS r0, r0, r1 on 0x8000_0000
    let mut board = setup(&[0x2120, 0x4108], 0x2001_8000);
    board.cpu.write_reg(0, 0x8000_0000);
    board.step().unwrap();
    board.step().unwrap();
    assert_eq!(board.read_reg(0), 0xFFFF_FFFF);
    assert!(board.cpu.get_flags().c);

    // MOVS r1, #32; LSLS r0, r0, r1 on an odd value
    let mut board2 = setup(&[0x2120, 0x4088], 0x2001_8000);
    board2.cpu.write_reg(0, 0x0000_0003);
    board2.step().unwrap();
    board2.step().unwrap();
    assert_eq!(board2.read_reg(0), 0);
    assert!(board2.cpu.get_flags().c, "carry is the original bit 0");
}

#[test]
fn stack_pointer_stays_word_aligned() {
    // SUB sp, #4 repeatedly: SP reads back word-aligned at every step.
    let mut board = setup(&[0xB081, 0xB081, 0xB081], 0x2001_8000);
    for _ in 0..3 {
        board.step().unwrap();
        assert_eq!(board.read_sp() & 0b11, 0);
    }
}

#[test]
fn decode_is_deterministic_and_cache_serves_hits() {
    // A two-instruction loop: B back to a MOVS. Stepping it twice reuses
    // the cached decode; the registers behave identically on both trips.
    let mut board = setup(&[0x2005, 0xE7FD], 0x2001_8000);
    board.step().unwrap();
    assert_eq!(board.read_reg(0), 5);
    board.cpu.write_reg(0, 0);
    board.step().unwrap();
    assert_eq!(board.cpu.read_instruction_pc(), 0x0800_0100);
    board.step().unwrap();
    assert_eq!(board.read_reg(0), 5);

    // Re-decoding the same word under the same context yields the same
    // operation.
    let word = 0x2005_0000u32;
    let a = decode_thumb(word, InstructionContext::new(0x0800_0100, ItPos::Outside));
    let b = decode_thumb(word, InstructionContext::new(0x0800_0100, ItPos::Outside));
    assert_eq!(a, b);
}

#[test]
fn bit_field_insert_places_provider_bits() {
    let original = 0x1234_5678u32;
    let provider = 0x0000_00ABu32;
    let r = bit_field_insert(original, provider, 19, 12);
    for bit in 0..32u32 {
        if (12..=19).contains(&bit) {
            assert_eq!(bitset(r, bit), bitset(provider, bit - 12));
        } else {
            assert_eq!(bitset(r, bit), bitset(original, bit));
        }
    }
    assert_eq!(bit_field_clear(r, 19, 12) | ((provider & 0xFF) << 12), r);
}
