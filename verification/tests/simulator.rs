use r8086::Immediate;
use r8086::Instruction;
use r8086::Memory;
use r8086::MemoryOperand;
use r8086::MemoryOperandKind;
use r8086::MemoryOperandSize;
use r8086::Op;
use r8086::Operand;
use r8086::Register;
use r8086::RegisterFile;
use r8086::ExecError;
use r8086::SF_MASK;
use r8086::ZF_MASK;
use r8086::simulate;

fn mov(dst: Operand, src: Operand, length: u8) -> Instruction {
    Instruction {
        op: Op::Mov,
        operands: [Some(dst), Some(src)],
        length,
    }
}

fn reg(r: Register) -> Operand {
    Operand::Register(r)
}

#[test]
fn byte_register_aliasing() {
    // Writing AL must leave AH unchanged; AX then shows the prior high byte
    // over the new low byte.
    let mut registers = RegisterFile::default();
    let mut memory = Memory::new();
    registers.ax = 0x1234;

    let write_al = mov(reg(Register::AL), Operand::Immediate(Immediate::Bit8(0xcd)), 2);
    simulate(&mut registers, &mut memory, write_al).unwrap();

    assert_eq!(registers.ax, 0x12cd);

    let write_ah = mov(reg(Register::AH), Operand::Immediate(Immediate::Bit8(0xab)), 2);
    simulate(&mut registers, &mut memory, write_ah).unwrap();

    assert_eq!(registers.ax, 0xabcd);
}

#[test]
fn mov_register_to_register() {
    let mut registers = RegisterFile::default();
    let mut memory = Memory::new();
    registers.bx = 0x00ff;

    let instruction = mov(reg(Register::CX), reg(Register::BX), 2);
    simulate(&mut registers, &mut memory, instruction).unwrap();

    assert_eq!(registers.cx, 0x00ff);
    assert_eq!(registers.ip, 2);
}

#[test]
fn mov_word_to_memory_and_back() {
    let mut registers = RegisterFile::default();
    let mut memory = Memory::new();
    registers.ax = 0xbeef;

    let slot = Operand::Memory(MemoryOperand {
        kind: MemoryOperandKind::Direct_Address(33),
        size: MemoryOperandSize::Word,
    });
    simulate(&mut registers, &mut memory, mov(slot, reg(Register::AX), 3)).unwrap();

    // Little-endian byte order in memory.
    assert_eq!(memory.data[33], 0xef);
    assert_eq!(memory.data[34], 0xbe);

    simulate(&mut registers, &mut memory, mov(reg(Register::DX), slot, 3)).unwrap();
    assert_eq!(registers.dx, 0xbeef);
}

#[test]
fn mov_uses_effective_address_with_displacement() {
    let mut registers = RegisterFile::default();
    let mut memory = Memory::new();
    registers.si = 100;
    memory.data[133] = 0x2a;

    let slot = Operand::Memory(MemoryOperand {
        kind: MemoryOperandKind::Disp8_SI(33),
        size: MemoryOperandSize::Byte,
    });
    simulate(&mut registers, &mut memory, mov(reg(Register::BL), slot, 3)).unwrap();

    assert_eq!(registers.bx, 0x002a);
}

#[test]
fn sub_equal_operands_sets_zero_clears_sign() {
    let mut registers = RegisterFile::default();
    let mut memory = Memory::new();
    registers.bx = 0x1234;
    registers.flags = SF_MASK;

    let instruction = Instruction {
        op: Op::Sub,
        operands: [Some(reg(Register::BX)), Some(reg(Register::BX))],
        length: 2,
    };
    simulate(&mut registers, &mut memory, instruction).unwrap();

    assert_eq!(registers.bx, 0);
    assert_eq!(registers.flags & ZF_MASK, ZF_MASK);
    assert_eq!(registers.flags & SF_MASK, 0);
}

#[test]
fn sub_negative_byte_result_sets_sign_clears_zero() {
    let mut registers = RegisterFile::default();
    let mut memory = Memory::new();
    registers.ax = 0x0001;

    let instruction = Instruction {
        op: Op::Sub,
        operands: [
            Some(reg(Register::AL)),
            Some(Operand::Immediate(Immediate::Bit8(2))),
        ],
        length: 2,
    };
    simulate(&mut registers, &mut memory, instruction).unwrap();

    assert_eq!(registers.ax & 0x00ff, 0x00ff);
    assert_eq!(registers.flags & SF_MASK, SF_MASK);
    assert_eq!(registers.flags & ZF_MASK, 0);
}

#[test]
fn byte_immediate_is_sign_extended_for_word_destination() {
    // The sign-extend-bit form pairs one data byte with a word register:
    // 0xFF means -1, so SUB CX, byte -1 increments CX.
    let mut registers = RegisterFile::default();
    let mut memory = Memory::new();
    registers.cx = 5;

    let instruction = Instruction {
        op: Op::Sub,
        operands: [
            Some(reg(Register::CX)),
            Some(Operand::Immediate(Immediate::Bit8(0xff))),
        ],
        length: 3,
    };
    simulate(&mut registers, &mut memory, instruction).unwrap();

    assert_eq!(registers.cx, 6);
    assert_eq!(registers.flags & ZF_MASK, 0);
    assert_eq!(registers.flags & SF_MASK, 0);

    // Against a byte destination the result is truncated to the byte, so
    // adding 0xFF to AL = 5 wraps to 4.
    let mut registers = RegisterFile::default();
    registers.ax = 5;
    let instruction = Instruction {
        op: Op::Add,
        operands: [
            Some(reg(Register::AL)),
            Some(Operand::Immediate(Immediate::Bit8(0xff))),
        ],
        length: 2,
    };
    simulate(&mut registers, &mut memory, instruction).unwrap();
    assert_eq!(registers.ax, 4); // 5 + 255 truncated to a byte
}

#[test]
fn add_wraps_at_sixteen_bits() {
    let mut registers = RegisterFile::default();
    let mut memory = Memory::new();
    registers.ax = 0xffff;

    let instruction = Instruction {
        op: Op::Add,
        operands: [
            Some(reg(Register::AX)),
            Some(Operand::Immediate(Immediate::Bit16(2))),
        ],
        length: 4,
    };
    simulate(&mut registers, &mut memory, instruction).unwrap();

    assert_eq!(registers.ax, 1);
    assert_eq!(registers.flags & ZF_MASK, 0);
    assert_eq!(registers.flags & SF_MASK, 0);
}

#[test]
fn cmp_discards_result_but_sets_flags() {
    let mut registers = RegisterFile::default();
    let mut memory = Memory::new();
    registers.cx = 5;
    registers.dx = 5;

    let instruction = Instruction {
        op: Op::Cmp,
        operands: [Some(reg(Register::CX)), Some(reg(Register::DX))],
        length: 2,
    };
    simulate(&mut registers, &mut memory, instruction).unwrap();

    assert_eq!(registers.cx, 5);
    assert_eq!(registers.flags & ZF_MASK, ZF_MASK);
}

#[test]
fn jne_taken_adds_positive_displacement() {
    let mut registers = RegisterFile::default();
    let mut memory = Memory::new();
    registers.ip = 10;
    registers.flags = 0; // zero flag clear: condition taken

    let instruction = Instruction {
        op: Op::Jne,
        operands: [Some(Operand::Immediate(Immediate::Bit8(5))), None],
        length: 2,
    };
    simulate(&mut registers, &mut memory, instruction).unwrap();

    // Address after the instruction (12) plus the displacement.
    assert_eq!(registers.ip, 17);
}

#[test]
fn jne_taken_adds_negative_displacement() {
    let mut registers = RegisterFile::default();
    let mut memory = Memory::new();
    registers.ip = 10;
    registers.flags = 0;

    let instruction = Instruction {
        op: Op::Jne,
        operands: [Some(Operand::Immediate(Immediate::Bit8(0xfb))), None], // -5
        length: 2,
    };
    simulate(&mut registers, &mut memory, instruction).unwrap();

    assert_eq!(registers.ip, 7);
}

#[test]
fn jne_not_taken_only_advances() {
    let mut registers = RegisterFile::default();
    let mut memory = Memory::new();
    registers.ip = 10;
    registers.flags = ZF_MASK;

    let instruction = Instruction {
        op: Op::Jne,
        operands: [Some(Operand::Immediate(Immediate::Bit8(5))), None],
        length: 2,
    };
    simulate(&mut registers, &mut memory, instruction).unwrap();

    assert_eq!(registers.ip, 12);
}

#[test]
fn decoded_but_unexecuted_op_is_an_error() {
    let mut registers = RegisterFile::default();
    let mut memory = Memory::new();
    registers.ip = 3;

    let instruction = Instruction {
        op: Op::Je,
        operands: [Some(Operand::Immediate(Immediate::Bit8(5))), None],
        length: 2,
    };
    let result = simulate(&mut registers, &mut memory, instruction);

    assert_eq!(result, Err(ExecError::UnsupportedOp));
    // The failed instruction changes nothing, not even the pointer.
    assert_eq!(registers.ip, 3);
}

#[test]
fn memory_to_memory_mov_is_an_error() {
    let mut registers = RegisterFile::default();
    let mut memory = Memory::new();

    let a = Operand::Memory(MemoryOperand {
        kind: MemoryOperandKind::Direct_Address(1),
        size: MemoryOperandSize::Word,
    });
    let b = Operand::Memory(MemoryOperand {
        kind: MemoryOperandKind::Direct_Address(9),
        size: MemoryOperandSize::Word,
    });
    let result = simulate(&mut registers, &mut memory, mov(a, b, 4));

    assert_eq!(result, Err(ExecError::UnsupportedOperands));
    assert_eq!(registers.ip, 0);
}

#[test]
fn memory_destination_add_is_an_error() {
    let mut registers = RegisterFile::default();
    let mut memory = Memory::new();

    let slot = Operand::Memory(MemoryOperand {
        kind: MemoryOperandKind::Direct_Address(1),
        size: MemoryOperandSize::Word,
    });
    let instruction = Instruction {
        op: Op::Add,
        operands: [Some(slot), Some(Operand::Immediate(Immediate::Bit16(1)))],
        length: 6,
    };
    let result = simulate(&mut registers, &mut memory, instruction);

    assert_eq!(result, Err(ExecError::UnsupportedOperands));
}
