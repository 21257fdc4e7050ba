use umpk80::EmuError;
use umpk80::cpu::RunState;
use umpk80::display::Display;
use umpk80::keyboard::Keyboard;
use umpk80::session::Umpk80;

fn session_with(image: &[u8]) -> Umpk80 {
    let mut s = Umpk80::new();
    let img: Vec<u8> = image.to_vec();
    assert_eq!(s.load_image(&img), Ok(()));
    s
}

#[test]
fn power_on_state() {
    let s = Umpk80::new();
    assert_eq!(s.get_program_counter(), 0);
    assert_eq!(s.cpu_state().run, RunState::Running);
    assert_eq!(s.cpu_state().a, 0);
    assert_eq!(s.cpu_state().sp, 0);
    for i in 0..6 {
        assert_eq!(s.get_display_digit(i), 0);
    }
    assert_eq!(s.scan_port(), 0);
}

#[test]
fn display_write_then_read_no_cross_talk() {
    let mut d = Display::new();
    d.write_digit(2, 0x5A);
    assert_eq!(d.read_digit(2), 0x5A);
    for i in [0usize, 1, 3, 4, 5] {
        assert_eq!(d.read_digit(i), 0);
    }
    d.write_digit(5, 0x3F);
    assert_eq!(d.read_digit(5), 0x3F);
    assert_eq!(d.read_digit(2), 0x5A);
}

#[test]
fn keyboard_press_scan_release() {
    let mut k = Keyboard::new();
    assert_eq!(k.scan_port(), 0x00);
    k.press_key(5);
    assert_eq!(k.scan_port(), 0x22);
    k.press_key(0);
    assert_eq!(k.scan_port(), 0x11);
    k.press_key(15);
    assert_eq!(k.scan_port(), 0x88);
    k.release_key();
    assert_eq!(k.scan_port(), 0x00);
}

#[test]
fn keyboard_out_of_matrix_code_scans_idle() {
    let mut k = Keyboard::new();
    k.press_key(16);
    assert_eq!(k.scan_port(), 0x00);
}

#[test]
fn load_image_copies_bytes() {
    let s = session_with(&[0x3E, 0x42]);
    assert_eq!(s.read_memory(0), 0x3E);
    assert_eq!(s.read_memory(1), 0x42);
    assert_eq!(s.read_memory(2), 0x00);
}

#[test]
fn load_image_too_large_rejected_and_harmless() {
    let mut s = session_with(&[0x11, 0x22, 0x33]);
    let big: Vec<u8> = vec![0xAB; 2049];
    assert_eq!(s.load_image(&big), Err(EmuError::ImageTooLarge));
    assert_eq!(s.read_memory(0), 0x11);
    assert_eq!(s.read_memory(1), 0x22);
    assert_eq!(s.read_memory(2), 0x33);
    assert_eq!(s.get_program_counter(), 0);
    assert_eq!(s.cpu_state().run, RunState::Running);
    let exact: Vec<u8> = vec![0xCD; 2048];
    assert_eq!(s.load_image(&exact), Ok(()));
    assert_eq!(s.read_memory(2047), 0xCD);
}

#[test]
fn illegal_opcode_halts_and_freezes() {
    // A no-op, then a byte that maps to no instruction.
    let mut s = session_with(&[0x00, 0x08]);
    assert_eq!(s.tick(), Ok(()));
    assert_eq!(s.get_program_counter(), 1);
    assert_eq!(s.tick(), Err(EmuError::IllegalOpcode));
    assert_eq!(s.cpu_state().run, RunState::Halted);
    assert_eq!(s.get_program_counter(), 1);
    for _ in 0..5 {
        assert_eq!(s.tick(), Ok(()));
        assert_eq!(s.get_program_counter(), 1);
        assert_eq!(s.cpu_state().a, 0);
    }
}

#[test]
fn stop_freezes_and_restart_resets() {
    let mut s = session_with(&[0x00, 0x00, 0x00]);
    assert_eq!(s.tick(), Ok(()));
    assert_eq!(s.get_program_counter(), 1);
    s.stop();
    assert_eq!(s.cpu_state().run, RunState::Stopped);
    assert_eq!(s.tick(), Ok(()));
    assert_eq!(s.get_program_counter(), 1);
    s.restart();
    assert_eq!(s.get_program_counter(), 0);
    assert_eq!(s.cpu_state().run, RunState::Running);
    // Firmware survives the restart.
    assert_eq!(s.read_memory(0), 0x00);
    assert_eq!(s.tick(), Ok(()));
    assert_eq!(s.get_program_counter(), 1);
}

#[test]
fn halt_instruction_halts_after_advancing() {
    let mut s = session_with(&[0x76]);
    assert_eq!(s.tick(), Ok(()));
    assert_eq!(s.cpu_state().run, RunState::Halted);
    assert_eq!(s.get_program_counter(), 1);
}

#[test]
fn short_firmware_trace() {
    // MVI A,42h; OUT 6; MVI B,5; ADD B; HLT.
    let mut s = session_with(&[0x3E, 0x42, 0xD3, 0x06, 0x06, 0x05, 0x80, 0x76]);
    let expected_pc = [2u16, 4, 6, 7, 8];
    for pc in expected_pc {
        assert_eq!(s.tick(), Ok(()));
        assert_eq!(s.get_program_counter(), pc);
    }
    let c = s.cpu_state();
    assert_eq!(c.a, 0x47);
    assert_eq!(c.b, 0x05);
    assert_eq!(c.run, RunState::Halted);
    assert!(!c.flags.z);
    assert!(!c.flags.s);
    assert!(!c.flags.cy);
    assert!(!c.flags.ac);
    assert!(c.flags.p);
    assert_eq!(s.get_display_digit(0), 0x42);
}

#[test]
fn add_sets_zero_carry_aux_parity() {
    // MVI A,FFh; ADI 1; HLT.
    let mut s = session_with(&[0x3E, 0xFF, 0xC6, 0x01, 0x76]);
    for _ in 0..3 {
        assert_eq!(s.tick(), Ok(()));
    }
    let c = s.cpu_state();
    assert_eq!(c.a, 0x00);
    assert!(c.flags.z);
    assert!(c.flags.cy);
    assert!(c.flags.ac);
    assert!(c.flags.p);
    assert!(!c.flags.s);
}

#[test]
fn sub_sets_borrow_and_sign() {
    // MVI A,5; SUI 7; HLT.
    let mut s = session_with(&[0x3E, 0x05, 0xD6, 0x07, 0x76]);
    for _ in 0..3 {
        assert_eq!(s.tick(), Ok(()));
    }
    let c = s.cpu_state();
    assert_eq!(c.a, 0xFE);
    assert!(c.flags.cy);
    assert!(c.flags.s);
    assert!(!c.flags.z);
    assert!(!c.flags.ac);
    assert!(!c.flags.p);
}

#[test]
fn conditional_jump_taken_on_zero() {
    // MVI A,0; ORA A; JZ 0008h; (dead bytes); MVI A,99h; HLT.
    let mut s = session_with(&[0x3E, 0x00, 0xB7, 0xCA, 0x08, 0x00, 0x00, 0x00, 0x3E, 0x99, 0x76]);
    assert_eq!(s.tick(), Ok(()));
    assert_eq!(s.tick(), Ok(()));
    assert!(s.cpu_state().flags.z);
    assert_eq!(s.tick(), Ok(()));
    assert_eq!(s.get_program_counter(), 0x0008);
    assert_eq!(s.tick(), Ok(()));
    assert_eq!(s.cpu_state().a, 0x99);
}

#[test]
fn conditional_jump_not_taken_falls_through() {
    // MVI A,1; ORA A; JZ 0008h; HLT.
    let mut s = session_with(&[0x3E, 0x01, 0xB7, 0xCA, 0x08, 0x00, 0x76]);
    for _ in 0..3 {
        assert_eq!(s.tick(), Ok(()));
    }
    assert_eq!(s.get_program_counter(), 6);
    assert_eq!(s.tick(), Ok(()));
    assert_eq!(s.cpu_state().run, RunState::Halted);
}

#[test]
fn call_and_return_use_the_stack() {
    // LXI SP,8300h; CALL 0008h; HLT; (pad); MVI A,77h; RET.
    let mut s = session_with(&[0x31, 0x00, 0x83, 0xCD, 0x08, 0x00, 0x76, 0x00, 0x3E, 0x77, 0xC9]);
    assert_eq!(s.tick(), Ok(()));
    assert_eq!(s.cpu_state().sp, 0x8300);
    assert_eq!(s.tick(), Ok(()));
    assert_eq!(s.get_program_counter(), 0x0008);
    assert_eq!(s.cpu_state().sp, 0x82FE);
    assert_eq!(s.read_memory(0x82FE), 0x06);
    assert_eq!(s.read_memory(0x82FF), 0x00);
    assert_eq!(s.tick(), Ok(()));
    assert_eq!(s.cpu_state().a, 0x77);
    assert_eq!(s.tick(), Ok(()));
    assert_eq!(s.get_program_counter(), 0x0006);
    assert_eq!(s.cpu_state().sp, 0x8300);
    assert_eq!(s.tick(), Ok(()));
    assert_eq!(s.cpu_state().run, RunState::Halted);
}

#[test]
fn rom_region_ignores_processor_writes() {
    // MVI A,AAh; STA 0100h (firmware region); STA 9000h (RAM); HLT.
    let mut s = session_with(&[0x3E, 0xAA, 0x32, 0x00, 0x01, 0x32, 0x00, 0x90, 0x76]);
    for _ in 0..4 {
        assert_eq!(s.tick(), Ok(()));
    }
    assert_eq!(s.read_memory(0x0100), 0x00);
    assert_eq!(s.read_memory(0x9000), 0xAA);
}

#[test]
fn port_latches_reach_the_processor() {
    // IN 20h; OUT 21h; HLT.
    let mut s = session_with(&[0xDB, 0x20, 0xD3, 0x21, 0x76]);
    s.set_input_port(0x20, 0x5C);
    assert_eq!(s.get_input_port(0x20), 0x5C);
    for _ in 0..3 {
        assert_eq!(s.tick(), Ok(()));
    }
    assert_eq!(s.cpu_state().a, 0x5C);
    assert_eq!(s.get_output_port(0x21), 0x5C);
}

#[test]
fn processor_reads_keyboard_through_its_port() {
    // IN 04h; HLT.
    let mut s = session_with(&[0xDB, 0x04, 0x76]);
    s.press_key(0);
    assert_eq!(s.port_in(0x04), 0x11);
    assert_eq!(s.tick(), Ok(()));
    assert_eq!(s.cpu_state().a, 0x11);
}

#[test]
fn processor_drives_display_through_ports() {
    // MVI A,3Fh; OUT 6; MVI A,06h; OUT 7; HLT.
    let mut s = session_with(&[0x3E, 0x3F, 0xD3, 0x06, 0x3E, 0x06, 0xD3, 0x07, 0x76]);
    for _ in 0..5 {
        assert_eq!(s.tick(), Ok(()));
    }
    assert_eq!(s.get_display_digit(0), 0x3F);
    assert_eq!(s.get_display_digit(1), 0x06);
    for i in 2..6 {
        assert_eq!(s.get_display_digit(i), 0);
    }
}

#[test]
fn host_port_out_drives_display_too() {
    let mut s = Umpk80::new();
    s.port_out(0x0B, 0x77);
    assert_eq!(s.get_display_digit(5), 0x77);
    s.port_out(0x40, 0x12);
    assert_eq!(s.get_output_port(0x40), 0x12);
}

#[test]
fn increment_and_decrement_flags() {
    // INR B; DCR B; HLT.
    let mut s = session_with(&[0x04, 0x05, 0x76]);
    assert_eq!(s.tick(), Ok(()));
    assert_eq!(s.cpu_state().b, 1);
    assert!(!s.cpu_state().flags.z);
    assert_eq!(s.tick(), Ok(()));
    let c = s.cpu_state();
    assert_eq!(c.b, 0);
    assert!(c.flags.z);
    assert!(c.flags.p);
    assert!(c.flags.ac);
}

#[test]
fn rotate_left_carries_the_top_bit() {
    // MVI A,81h; RLC; HLT.
    let mut s = session_with(&[0x3E, 0x81, 0x07, 0x76]);
    assert_eq!(s.tick(), Ok(()));
    assert_eq!(s.tick(), Ok(()));
    let c = s.cpu_state();
    assert_eq!(c.a, 0x03);
    assert!(c.flags.cy);
}

#[test]
fn exchange_swaps_the_pairs() {
    // LXI H,1234h; LXI D,5678h; XCHG; HLT.
    let mut s = session_with(&[0x21, 0x34, 0x12, 0x11, 0x78, 0x56, 0xEB, 0x76]);
    for _ in 0..3 {
        assert_eq!(s.tick(), Ok(()));
    }
    let c = s.cpu_state();
    assert_eq!((c.h, c.l), (0x56, 0x78));
    assert_eq!((c.d, c.e), (0x12, 0x34));
}

#[test]
fn push_and_pop_processor_status_word() {
    // LXI SP,8300h; MVI A,FFh; ADI 1; PUSH PSW; MVI A,0; POP PSW; HLT.
    let mut s = session_with(&[
        0x31, 0x00, 0x83, 0x3E, 0xFF, 0xC6, 0x01, 0xF5, 0x3E, 0x00, 0xF1, 0x76,
    ]);
    for _ in 0..4 {
        assert_eq!(s.tick(), Ok(()));
    }
    assert_eq!(s.read_memory(0x82FF), 0x00);
    assert_eq!(s.read_memory(0x82FE), 0x57);
    for _ in 0..2 {
        assert_eq!(s.tick(), Ok(()));
    }
    let c = s.cpu_state();
    assert_eq!(c.a, 0x00);
    assert!(c.flags.z && c.flags.cy && c.flags.ac && c.flags.p);
}

#[test]
fn double_add_wraps_and_sets_carry() {
    // LXI H,FFFFh; LXI B,0001h; DAD B; HLT.
    let mut s = session_with(&[0x21, 0xFF, 0xFF, 0x01, 0x01, 0x00, 0x09, 0x76]);
    for _ in 0..3 {
        assert_eq!(s.tick(), Ok(()));
    }
    let c = s.cpu_state();
    assert_eq!((c.h, c.l), (0, 0));
    assert!(c.flags.cy);
}

#[test]
fn decimal_adjust_corrects_bcd_sums() {
    // MVI A,15h; ADI 27h; DAA; HLT — packed decimal 15 + 27 = 42.
    let mut s = session_with(&[0x3E, 0x15, 0xC6, 0x27, 0x27, 0x76]);
    for _ in 0..3 {
        assert_eq!(s.tick(), Ok(()));
    }
    let c = s.cpu_state();
    assert_eq!(c.a, 0x42);
    assert!(!c.flags.cy);
    assert!(c.flags.ac);
}

#[test]
fn decimal_adjust_carries_out() {
    // MVI A,9Bh; DAA; HLT — both nibbles corrected, carry out.
    let mut s = session_with(&[0x3E, 0x9B, 0x27, 0x76]);
    for _ in 0..2 {
        assert_eq!(s.tick(), Ok(()));
    }
    let c = s.cpu_state();
    assert_eq!(c.a, 0x01);
    assert!(c.flags.cy);
    assert!(c.flags.ac);
}

#[test]
fn restart_trap_vectors_and_stacks() {
    // LXI SP,8300h; RST 2; HLT; ...; at 0010h: RET.
    let mut image = vec![0u8; 0x11];
    image[0] = 0x31;
    image[1] = 0x00;
    image[2] = 0x83;
    image[3] = 0xD7;
    image[4] = 0x76;
    image[0x10] = 0xC9;
    let mut s = Umpk80::new();
    assert_eq!(s.load_image(&image), Ok(()));
    assert_eq!(s.tick(), Ok(()));
    assert_eq!(s.tick(), Ok(()));
    assert_eq!(s.get_program_counter(), 0x0010);
    assert_eq!(s.cpu_state().sp, 0x82FE);
    assert_eq!(s.read_memory(0x82FE), 0x04);
    assert_eq!(s.tick(), Ok(()));
    assert_eq!(s.get_program_counter(), 0x0004);
    assert_eq!(s.tick(), Ok(()));
    assert_eq!(s.cpu_state().run, RunState::Halted);
}

#[test]
fn interrupt_latch_follows_enable_and_disable() {
    // EI; DI; HLT.
    let mut s = session_with(&[0xFB, 0xF3, 0x76]);
    assert!(!s.cpu_state().inte);
    assert_eq!(s.tick(), Ok(()));
    assert!(s.cpu_state().inte);
    assert_eq!(s.tick(), Ok(()));
    assert!(!s.cpu_state().inte);
}

#[test]
fn undefined_bytes_are_illegal() {
    for op in [0x08u8, 0x10, 0x18, 0x20, 0x28, 0x30, 0x38, 0xCB, 0xD9, 0xDD, 0xED, 0xFD] {
        let mut s = session_with(&[op]);
        assert_eq!(s.tick(), Err(EmuError::IllegalOpcode));
        assert_eq!(s.cpu_state().run, RunState::Halted);
        assert_eq!(s.get_program_counter(), 0);
    }
}

#[test]
fn memory_loads_and_stores_through_pairs() {
    // LXI H,9000h; MVI M,ABh; LDA 9000h; HLT.
    let mut s = session_with(&[0x21, 0x00, 0x90, 0x36, 0xAB, 0x3A, 0x00, 0x90, 0x76]);
    for _ in 0..3 {
        assert_eq!(s.tick(), Ok(()));
    }
    assert_eq!(s.read_memory(0x9000), 0xAB);
    assert_eq!(s.cpu_state().a, 0xAB);
}

#[test]
fn stax_and_ldax_use_the_pairs() {
    // LXI B,9000h; MVI A,C4h; STAX B; LXI D,9000h; MVI A,0; LDAX D; HLT.
    let mut s = session_with(&[
        0x01, 0x00, 0x90, 0x3E, 0xC4, 0x02, 0x11, 0x00, 0x90, 0x3E, 0x00, 0x1A, 0x76,
    ]);
    for _ in 0..6 {
        assert_eq!(s.tick(), Ok(()));
    }
    assert_eq!(s.read_memory(0x9000), 0xC4);
    assert_eq!(s.cpu_state().a, 0xC4);
}

#[test]
fn shld_and_lhld_move_the_pair_through_memory() {
    // LXI H,BEEFh; SHLD 9000h; LXI H,0; LHLD 9000h; HLT.
    let mut s = session_with(&[
        0x21, 0xEF, 0xBE, 0x22, 0x00, 0x90, 0x21, 0x00, 0x00, 0x2A, 0x00, 0x90, 0x76,
    ]);
    for _ in 0..4 {
        assert_eq!(s.tick(), Ok(()));
    }
    assert_eq!(s.read_memory(0x9000), 0xEF);
    assert_eq!(s.read_memory(0x9001), 0xBE);
    let c = s.cpu_state();
    assert_eq!((c.h, c.l), (0xBE, 0xEF));
}

#[test]
fn exchange_with_stack_top() {
    // LXI SP,9000h; LXI H,1234h; XTHL; HLT — memory at 9000h holds 0.
    let mut s = session_with(&[0x31, 0x00, 0x90, 0x21, 0x34, 0x12, 0xE3, 0x76]);
    for _ in 0..3 {
        assert_eq!(s.tick(), Ok(()));
    }
    let c = s.cpu_state();
    assert_eq!((c.h, c.l), (0, 0));
    assert_eq!(s.read_memory(0x9000), 0x34);
    assert_eq!(s.read_memory(0x9001), 0x12);
}

#[test]
fn jump_and_stack_pointer_through_hl() {
    // LXI H,8200h; SPHL; LXI H,0008h; PCHL; HLT (dead); at 8: HLT.
    let mut s = session_with(&[0x21, 0x00, 0x82, 0xF9, 0x21, 0x08, 0x00, 0xE9, 0x76]);
    for _ in 0..2 {
        assert_eq!(s.tick(), Ok(()));
    }
    assert_eq!(s.cpu_state().sp, 0x8200);
    for _ in 0..2 {
        assert_eq!(s.tick(), Ok(()));
    }
    assert_eq!(s.get_program_counter(), 0x0008);
    assert_eq!(s.tick(), Ok(()));
    assert_eq!(s.cpu_state().run, RunState::Halted);
}

#[test]
fn conditional_call_and_return() {
    // LXI SP,8300h; MVI A,1; ORA A; CNZ 000Ah; HLT; (pad); INR A; RNZ.
    let mut s = session_with(&[
        0x31, 0x00, 0x83, 0x3E, 0x01, 0xB7, 0xC4, 0x0A, 0x00, 0x76, 0x3C, 0xC0,
    ]);
    for _ in 0..4 {
        assert_eq!(s.tick(), Ok(()));
    }
    assert_eq!(s.get_program_counter(), 0x000A);
    assert_eq!(s.tick(), Ok(()));
    assert_eq!(s.cpu_state().a, 2);
    assert_eq!(s.tick(), Ok(()));
    assert_eq!(s.get_program_counter(), 0x0009);
    assert_eq!(s.tick(), Ok(()));
    assert_eq!(s.cpu_state().run, RunState::Halted);
}

#[test]
fn untaken_conditional_return_falls_through() {
    // LXI SP,8300h; MVI A,0; ORA A; RNZ; HLT — zero is set, so no return.
    let mut s = session_with(&[0x31, 0x00, 0x83, 0x3E, 0x00, 0xB7, 0xC0, 0x76]);
    for _ in 0..4 {
        assert_eq!(s.tick(), Ok(()));
    }
    assert_eq!(s.get_program_counter(), 0x0007);
    assert_eq!(s.cpu_state().sp, 0x8300);
}

#[test]
fn pair_increment_decrement_wraps() {
    // LXI B,FFFFh; INX B; LXI D,0; DCX D; HLT.
    let mut s = session_with(&[0x01, 0xFF, 0xFF, 0x03, 0x11, 0x00, 0x00, 0x1B, 0x76]);
    for _ in 0..4 {
        assert_eq!(s.tick(), Ok(()));
    }
    let c = s.cpu_state();
    assert_eq!((c.b, c.c), (0, 0));
    assert_eq!((c.d, c.e), (0xFF, 0xFF));
}

#[test]
fn move_family_covers_memory_operand() {
    // LXI H,9000h; MVI M,66h; MOV B,M; MOV A,B; MOV C,A; HLT.
    let mut s = session_with(&[0x21, 0x00, 0x90, 0x36, 0x66, 0x46, 0x78, 0x4F, 0x76]);
    for _ in 0..5 {
        assert_eq!(s.tick(), Ok(()));
    }
    let c = s.cpu_state();
    assert_eq!(c.b, 0x66);
    assert_eq!(c.a, 0x66);
    assert_eq!(c.c, 0x66);
}
