//! Tests of the protocol helpers, the memory bus error taxonomy, the
//! RCC peripheral and the audio sink.

use disco_emulator::board::Board;
use disco_emulator::cpu::ItState;
use disco_emulator::memory::{MemError, MemoryBus};
use disco_emulator::audio::AudioHandler;
use disco_emulator::server::packet::{
    get_checksum_hex, get_u8_from_hex, hex_to_byte, hex_to_word, is_hex_char, leading_alpha,
    validate_packet, word_to_hex,
};
use std::sync::mpsc::sync_channel;

#[test]
fn hex_round_trips() {
    assert_eq!(word_to_hex(0xDEAD_BEEF), "deadbeef");
    assert_eq!(word_to_hex(0x0000_0001), "00000001");
    assert_eq!(hex_to_word(b"deadbeef"), Ok(0xDEAD_BEEF));
    assert_eq!(hex_to_word(b"1F"), Ok(31));
    assert_eq!(hex_to_word(b""), Err(()));
    assert_eq!(hex_to_word(b"xyz"), Err(()));
    assert_eq!(hex_to_word(b"100000000"), Err(()), "nine digits overflow a word");
    assert_eq!(hex_to_word(b"ffffffff"), Ok(0xFFFF_FFFF));
}

#[test]
fn hex_digits() {
    assert!(is_hex_char(b'0') && is_hex_char(b'9') && is_hex_char(b'a') && is_hex_char(b'F'));
    assert!(!is_hex_char(b'g') && !is_hex_char(b' '));
    assert_eq!(hex_to_byte(b'7'), Ok(7));
    assert_eq!(hex_to_byte(b'b'), Ok(11));
    assert_eq!(hex_to_byte(b'C'), Ok(12));
    assert_eq!(hex_to_byte(b'!'), Err(()));
    assert_eq!(get_u8_from_hex((b'a', b'5')), Ok(0xA5));
    assert_eq!(get_u8_from_hex((b'a', b'x')), Err(()));
}

#[test]
fn checksums() {
    // 'a' + 'b' + 'c' = 294, wrapping to 0x26.
    assert_eq!(get_checksum_hex(b"abc"), "26");
    assert!(validate_packet(b"abc", 0x26));
    assert!(!validate_packet(b"abc", 0x27));
    assert!(validate_packet(b"", 0));
}

#[test]
fn command_prefix() {
    assert_eq!(leading_alpha(b"qSupported:xmlRegisters"), b"qSupported");
    assert_eq!(leading_alpha(b"m80000,4"), b"m");
    assert_eq!(leading_alpha(b"abc"), b"abc");
    assert_eq!(leading_alpha(b"123"), b"");
}

#[test]
fn memory_error_taxonomy() {
    let mut bus = MemoryBus::new();
    assert_eq!(bus.read_mem_u(0x9000_0000, 4), Err(MemError::OutOfBounds));
    assert_eq!(bus.read_mem_a(0x2000_0001, 4), Err(MemError::Unaligned));
    assert_eq!(bus.write_mem_u(0x0800_0000, 4, 1), Err(MemError::ReadOnly));
    assert_eq!(bus.read_mem_u(0x4000_0000, 4), Err(MemError::Unimplemented));
    // An unaligned unassisted read assembles bytes little-endian.
    bus.write_mem_u(0x2000_0000, 4, 0x4433_2211).unwrap();
    bus.write_mem_u(0x2000_0004, 4, 0x8877_6655).unwrap();
    assert_eq!(bus.read_mem_u(0x2000_0001, 4), Ok(0x5544_3322));
}

#[test]
fn flash_is_mirrored_at_zero() {
    let mut board = Board::new();
    let image = vec![0x78, 0x56, 0x34, 0x12];
    board.load_flash(0x0800_0000, &image).unwrap();
    assert_eq!(board.memory.read_mem_u(0x0000_0000, 4), Ok(0x1234_5678));
    assert_eq!(board.memory.read_mem_u(0x0800_0000, 4), Ok(0x1234_5678));
}

#[test]
fn rcc_reset_and_pll_lock() {
    let mut board = Board::new();
    // After reset: MSI range 6, MSI ready and on.
    assert_eq!(board.memory.read_mem_u(0x4002_1000, 4), Ok(0x63));
    // Switching the PLL on mirrors into the ready bit at once; MSI goes
    // off and its range drops with it.
    board.memory.write_mem_u(0x4002_1000, 4, 1 << 24).unwrap();
    assert_eq!(board.memory.read_mem_u(0x4002_1000, 4), Ok(0x0300_0000));
    // The interrupt-and-status word reads its documented default.
    assert_eq!(board.memory.read_mem_u(0x4002_1004, 4), Ok(0x1071_0096));
}

#[test]
fn audio_handler_counts_and_forwards() {
    let mut handler = AudioHandler::new();
    assert!(!handler.handle(5), "no consumer registered yet");
    let (tx, rx) = sync_channel::<i16>(4);
    handler.set_observer(tx);
    assert!(handler.handle(-7));
    assert!(handler.handle(42));
    assert_eq!(handler.samples, 3);
    assert_eq!(rx.recv(), Ok(-7));
    assert_eq!(rx.recv(), Ok(42));
}

#[test]
fn it_state_machine() {
    let mut it = ItState::new();
    assert!(!it.active());
    it.state = 0x0C;
    assert!(it.active());
    assert_eq!(it.num_remaining(), 2);
    it.advance();
    assert_eq!(it.state, 0x18);
    assert_eq!(it.num_remaining(), 1);
    it.advance();
    assert_eq!(it.state, 0);
    assert!(!it.active());
}

#[test]
fn xpsr_packs_the_status_words() {
    let mut board = Board::new();
    board.cpu.set_negative_flag(true);
    board.cpu.set_carry_flag(true);
    board.cpu.set_thumb_mode(true);
    let xpsr = board.cpu.read_xpsr();
    assert_eq!(xpsr & (1 << 31), 1 << 31, "negative flag at bit 31");
    assert_eq!(xpsr & (1 << 29), 1 << 29, "carry flag at bit 29");
    assert_eq!(xpsr & (1 << 24), 1 << 24, "thumb bit at bit 24");
    assert_eq!(xpsr & (1 << 30), 0, "zero flag clear");
}

#[test]
fn apsr_display_marks_set_flags() {
    let mut board = Board::new();
    board.cpu.set_zero_flag(true);
    assert_eq!(board.cpu.get_apsr_display(), "APSR: _Z___");
}

#[test]
fn read_memory_region_pads_failures() {
    let mut board = Board::new();
    let bytes = board.read_memory_region(0x9000_0000, 8);
    assert_eq!(bytes, vec![0; 8]);
    let good = board.read_memory_region(0x2000_0000, 4);
    assert_eq!(good.len(), 4);
    // A region that crosses the end of SRAM comes back zeroed as a
    // whole, readable prefix included.
    board.memory.write_mem_u(0x2001_7FFC, 4, 0xAABB_CCDD).unwrap();
    let crossing = board.read_memory_region(0x2001_7FFE, 4);
    assert_eq!(crossing, vec![0; 4]);
}

#[test]
fn audio_call_is_intercepted_on_bl() {
    // A BL whose target is registered as the audio-sample symbol sends
    // the low halfword of r0 to the sink and skips the call.
    let mut board = Board::new();
    let mut table: Vec<u8> = Vec::new();
    table.extend_from_slice(&0x2001_8000u32.to_le_bytes());
    table.extend_from_slice(&0x0800_0101u32.to_le_bytes());
    board.load_flash(0x0800_0000, &table).unwrap();
    // BL with zero offset: target = pc = 0x0800_0104.
    let code: Vec<u8> = vec![0x00, 0xF0, 0x00, 0xF8];
    board.load_flash(0x0800_0100, &code).unwrap();
    board.reset_registers().unwrap();
    board.branch_map.insert(0x0800_0104, "audio_play_sample".to_owned());
    let (tx, rx) = sync_channel::<i16>(4);
    board.audio_handler.set_observer(tx);
    board.cpu.write_reg(0, 0x1234);
    board.step().unwrap();
    assert_eq!(rx.recv(), Ok(0x1234));
    // The call was skipped: control continues after the BL.
    assert_eq!(board.cpu.read_instruction_pc(), 0x0800_0104);
    assert_eq!(board.read_lr(), 0x0800_0105, "return address with the Thumb bit");
}
