use r8086::DecodeError;
use r8086::Immediate;
use r8086::Instruction;
use r8086::MemoryOperand;
use r8086::MemoryOperandKind;
use r8086::MemoryOperandSize;
use r8086::Op;
use r8086::Operand;
use r8086::Register;
use r8086::decode_instruction;

#[test]
fn register_to_register() {
    let bytes = &mut [0x89, 0xd9, 0, 0, 0, 0];
    let instruction = decode_instruction(bytes).unwrap();

    let answer = Instruction {
        op: Op::Mov,
        operands: [
            Some(Operand::Register(Register::CX)),
            Some(Operand::Register(Register::BX)),
        ],
        length: 2,
    };
    assert_eq!(instruction, answer);
    assert_eq!(instruction.render(), "mov cx, bx");
}

#[test]
fn register_to_memory_direct() {
    let bytes = &mut [0xa1, 0x21, 0x00, 0, 0, 0];
    let instruction = decode_instruction(bytes).unwrap();

    let answer = Instruction {
        op: Op::Mov,
        operands: [
            Some(Operand::Register(Register::AX)),
            Some(Operand::Memory(MemoryOperand {
                kind: MemoryOperandKind::Direct_Address(33),
                size: MemoryOperandSize::Word,
            })),
        ],
        length: 3,
    };

    assert_eq!(instruction, answer);
    assert_eq!(instruction.render(), "mov ax, word [33]");
}

#[test]
fn register_to_memory_disp8() {
    let bytes = &mut [0x8b, 0x5c, 0x21, 0, 0, 0];
    let instruction = decode_instruction(bytes).unwrap();

    let answer = Instruction {
        op: Op::Mov,
        operands: [
            Some(Operand::Register(Register::BX)),
            Some(Operand::Memory(MemoryOperand {
                kind: MemoryOperandKind::Disp8_SI(33),
                size: MemoryOperandSize::Word,
            })),
        ],
        length: 3,
    };
    assert_eq!(instruction, answer);
    assert_eq!(instruction.render(), "mov bx, word [si +33]");
}

#[test]
fn register_to_memory_disp16() {
    let bytes = &mut [0x8b, 0x94, 0xd0, 0x07, 0, 0];
    let instruction = decode_instruction(bytes).unwrap();

    let answer = Instruction {
        op: Op::Mov,
        operands: [
            Some(Operand::Register(Register::DX)),
            Some(Operand::Memory(MemoryOperand {
                kind: MemoryOperandKind::Disp16_SI(2000),
                size: MemoryOperandSize::Word,
            })),
        ],
        length: 4,
    };
    assert_eq!(instruction, answer);
    assert_eq!(instruction.render(), "mov dx, word [si +2000]");
}

#[test]
fn direct_address_consumes_two_bytes() {
    // mod = 00, rm = 110 inside a mod-reg-rm MOV: the two extra bytes are a
    // bare address, not a base-register form.
    let bytes = &mut [0x8b, 0x1e, 0x21, 0x00, 0, 0];
    let instruction = decode_instruction(bytes).unwrap();

    let answer = Instruction {
        op: Op::Mov,
        operands: [
            Some(Operand::Register(Register::BX)),
            Some(Operand::Memory(MemoryOperand {
                kind: MemoryOperandKind::Direct_Address(33),
                size: MemoryOperandSize::Word,
            })),
        ],
        length: 4,
    };
    assert_eq!(instruction, answer);
    assert_eq!(instruction.render(), "mov bx, word [33]");
}

#[test]
fn immediate_to_register() {
    let bytes = &mut [0xb9, 0x02, 0x00, 0, 0, 0];
    let instruction = decode_instruction(bytes).unwrap();

    let answer = Instruction {
        op: Op::Mov,
        operands: [
            Some(Operand::Register(Register::CX)),
            Some(Operand::Immediate(Immediate::Bit16(2))),
        ],
        length: 3,
    };
    assert_eq!(instruction, answer);
    assert_eq!(instruction.render(), "mov cx, word 2");
}

#[test]
fn immediate_byte_to_register() {
    let bytes = &mut [0xb1, 0x07, 0, 0, 0, 0];
    let instruction = decode_instruction(bytes).unwrap();

    let answer = Instruction {
        op: Op::Mov,
        operands: [
            Some(Operand::Register(Register::CL)),
            Some(Operand::Immediate(Immediate::Bit8(7))),
        ],
        length: 2,
    };
    assert_eq!(instruction, answer);
    assert_eq!(instruction.render(), "mov cl, byte 7");
}

#[test]
fn sub_immediate_from_register() {
    // Shared immediate-arithmetic form, sign-extend bit set: one immediate
    // byte even with a word register.
    let bytes = &mut [0x83, 0xe9, 0x01, 0, 0, 0];
    let instruction = decode_instruction(bytes).unwrap();

    let answer = Instruction {
        op: Op::Sub,
        operands: [
            Some(Operand::Register(Register::CX)),
            Some(Operand::Immediate(Immediate::Bit8(1))),
        ],
        length: 3,
    };
    assert_eq!(instruction, answer);
    assert_eq!(instruction.render(), "sub cx, byte 1");
}

#[test]
fn negative_displacement_renders_with_sign() {
    // disp8 of -4 on BP prints an explicit minus sign.
    let bytes = &mut [0x8b, 0x46, 0xfc, 0, 0, 0];
    let instruction = decode_instruction(bytes).unwrap();

    let answer = Instruction {
        op: Op::Mov,
        operands: [
            Some(Operand::Register(Register::AX)),
            Some(Operand::Memory(MemoryOperand {
                kind: MemoryOperandKind::Disp8_BP(-4),
                size: MemoryOperandSize::Word,
            })),
        ],
        length: 3,
    };
    assert_eq!(instruction, answer);
    assert_eq!(instruction.render(), "mov ax, word [bp -4]");
}

#[test]
fn jump_decodes_with_length_two() {
    let bytes = &mut [0x75, 0xfb, 0, 0, 0, 0];
    let instruction = decode_instruction(bytes).unwrap();

    let answer = Instruction {
        op: Op::Jne,
        operands: [Some(Operand::Immediate(Immediate::Bit8(0xfb))), None],
        length: 2,
    };
    assert_eq!(instruction, answer);
    assert_eq!(instruction.render(), "jne byte 251");
}

#[test]
fn unsupported_opcode_is_an_error() {
    // 0xF4 (HLT) matches none of the covered patterns.
    let bytes = &mut [0xf4, 0, 0, 0, 0, 0];
    let result = decode_instruction(bytes);
    assert_eq!(result, Err(DecodeError::UnsupportedOpcode(0xf4)));
}

#[test]
fn unsupported_arith_subop_is_an_error() {
    // The shared immediate-arithmetic form with sub-opcode 001 (OR) is
    // outside the covered subset; the mod-reg-rm byte is reported.
    let bytes = &mut [0x80, 0xc9, 0x01, 0, 0, 0];
    let result = decode_instruction(bytes);
    assert_eq!(result, Err(DecodeError::UnsupportedOpcode(0xc9)));
}

#[test]
fn accumulator_byte_form_uses_al() {
    let bytes = &mut [0xa0, 0x21, 0x00, 0, 0, 0];
    let instruction = decode_instruction(bytes).unwrap();

    let answer = Instruction {
        op: Op::Mov,
        operands: [
            Some(Operand::Register(Register::AL)),
            Some(Operand::Memory(MemoryOperand {
                kind: MemoryOperandKind::Direct_Address(33),
                size: MemoryOperandSize::Byte,
            })),
        ],
        length: 2,
    };
    assert_eq!(instruction, answer);
    assert_eq!(instruction.render(), "mov al, byte [33]");
}
