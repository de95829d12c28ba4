use r8086::Memory;
use r8086::RegisterFile;
use r8086::disassemble;
use r8086::run;

/// Loads a program image at the bottom of fresh memory.
fn load(program: &[u8]) -> Memory {
    let mut memory = Memory::new();
    for (i, b) in program.iter().enumerate() {
        memory.data[i] = *b;
    }
    memory
}

#[test]
fn run_halts_exactly_at_image_length() {
    // mov cx, 3 / mov bx, cx: two instructions, five bytes.
    let program: Vec<u8> = vec![0xb9, 0x03, 0x00, 0x89, 0xcb];
    let mut registers = RegisterFile::default();
    let mut memory = load(&program);

    let completed = run(&mut registers, &mut memory, program.len() as u16, 100).unwrap();

    assert!(completed);
    assert_eq!(registers.ip, 5);
    assert_eq!(registers.cx, 3);
    assert_eq!(registers.bx, 3);
}

#[test]
fn run_executes_a_backward_jne_loop() {
    // mov cx, 3; sub cx, 1; jne -5: counts CX down to zero, then falls
    // through to the end of the image.
    let program: Vec<u8> = vec![0xb9, 0x03, 0x00, 0x83, 0xe9, 0x01, 0x75, 0xfb];
    let mut registers = RegisterFile::default();
    let mut memory = load(&program);

    let completed = run(&mut registers, &mut memory, program.len() as u16, 100).unwrap();

    assert!(completed);
    assert_eq!(registers.cx, 0);
    assert_eq!(registers.ip, 8);
}

#[test]
fn run_sign_extends_the_byte_immediate_of_a_word_sub() {
    // mov cx, 5; sub cx, byte -1 (sign-extend form): CX ends at 6.
    let program: Vec<u8> = vec![0xb9, 0x05, 0x00, 0x83, 0xe9, 0xff];
    let mut registers = RegisterFile::default();
    let mut memory = load(&program);

    let completed = run(&mut registers, &mut memory, program.len() as u16, 100).unwrap();

    assert!(completed);
    assert_eq!(registers.cx, 6);
}

#[test]
fn run_respects_the_step_budget() {
    let program: Vec<u8> = vec![0xb9, 0x03, 0x00, 0x89, 0xcb];
    let mut registers = RegisterFile::default();
    let mut memory = load(&program);

    let completed = run(&mut registers, &mut memory, program.len() as u16, 1).unwrap();

    assert!(!completed);
    assert_eq!(registers.ip, 3);
}

#[test]
fn run_stops_on_an_undecodable_byte() {
    let program: Vec<u8> = vec![0xb9, 0x03, 0x00, 0xf4];
    let mut registers = RegisterFile::default();
    let mut memory = load(&program);

    let result = run(&mut registers, &mut memory, program.len() as u16, 100);

    assert!(result.is_err());
    assert_eq!(registers.ip, 3);
}

#[test]
fn disassemble_lists_one_line_per_instruction() {
    let program: Vec<u8> = vec![0x89, 0xd9, 0xb9, 0x03, 0x00, 0x75, 0xfb];
    let lines = disassemble(&program).unwrap();

    assert_eq!(
        lines,
        vec![
            "mov cx, bx".to_string(),
            "mov cx, word 3".to_string(),
            "jne byte 251".to_string(),
        ]
    );
}

#[test]
fn disassemble_pads_the_final_window_with_zeros() {
    // A two-byte instruction at the very end of the image still decodes.
    let program: Vec<u8> = vec![0x75, 0x02];
    let lines = disassemble(&program).unwrap();

    assert_eq!(lines, vec!["jne byte 2".to_string()]);
}

#[test]
fn disassemble_reports_an_unsupported_opcode() {
    let program: Vec<u8> = vec![0x89, 0xd9, 0xf4];
    assert!(disassemble(&program).is_err());
}
