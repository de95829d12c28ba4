//! The decoder: classifies the leading opcode byte against the fixed bit
//! patterns of the covered 8086 subset and produces one structured
//! instruction together with its exact encoded length.
//!
//! `spec_decode` is the mathematical definition of the decode table;
//! `decode_instruction` is the executable decoder, proved equal to it.

use vstd::prelude::*;

use crate::Immediate;
use crate::Instruction;
use crate::MemoryOperand;
use crate::MemoryOperandKind;
use crate::Op;
use crate::Operand;
use crate::Register;
use crate::spec_size_from_w;

verus! {

/// Decoding failure: a byte that matches no recognized bit pattern. The
/// payload is the offending byte: the leading opcode byte, or, for the
/// shared immediate-arithmetic form, the mod-reg-rm byte whose opcode
/// sub-field named no covered operation.
#[derive(Debug, Clone, Copy, PartialEq, Eq, Structural)]
pub enum DecodeError {
    UnsupportedOpcode(u8),
}

/// Range facts about the bit fields extracted from one byte.
proof fn lemma_bit_fields(b: u8)
    by (bit_vector)
    ensures
        b >> 6 < 4,
        (b & 0x38) >> 3 < 8,
        b & 0x07 < 8,
        b & 1 < 2,
        (b >> 1) & 1 < 2,
        (b >> 3) & 1 < 2,
{
}

/// The register named by a 3-bit encoding under a given width bit: the byte
/// table for `wide == 0`, the word table for `wide == 1`.
pub open spec fn spec_decode_register(encoding: u8, wide: u8) -> Operand {
    if wide == 0 {
        if encoding == 0 {
            Operand::Register(Register::AL)
        } else if encoding == 1 {
            Operand::Register(Register::CL)
        } else if encoding == 2 {
            Operand::Register(Register::DL)
        } else if encoding == 3 {
            Operand::Register(Register::BL)
        } else if encoding == 4 {
            Operand::Register(Register::AH)
        } else if encoding == 5 {
            Operand::Register(Register::CH)
        } else if encoding == 6 {
            Operand::Register(Register::DH)
        } else {
            Operand::Register(Register::BH)
        }
    } else {
        if encoding == 0 {
            Operand::Register(Register::AX)
        } else if encoding == 1 {
            Operand::Register(Register::CX)
        } else if encoding == 2 {
            Operand::Register(Register::DX)
        } else if encoding == 3 {
            Operand::Register(Register::BX)
        } else if encoding == 4 {
            Operand::Register(Register::SP)
        } else if encoding == 5 {
            Operand::Register(Register::BP)
        } else if encoding == 6 {
            Operand::Register(Register::SI)
        } else {
            Operand::Register(Register::DI)
        }
    }
}

/// Looks a 3-bit register encoding up in the byte- or word-register table.
pub fn decode_register(encoding: u8, wide: u8) -> (r: Operand)
    requires
        encoding < 8,
        wide < 2,
    ensures
        r == spec_decode_register(encoding, wide),
{
    if wide == 0 {
        match encoding {
            0 => Operand::Register(Register::AL),
            1 => Operand::Register(Register::CL),
            2 => Operand::Register(Register::DL),
            3 => Operand::Register(Register::BL),
            4 => Operand::Register(Register::AH),
            5 => Operand::Register(Register::CH),
            6 => Operand::Register(Register::DH),
            _ => Operand::Register(Register::BH),
        }
    } else {
        match encoding {
            0 => Operand::Register(Register::AX),
            1 => Operand::Register(Register::CX),
            2 => Operand::Register(Register::DX),
            3 => Operand::Register(Register::BX),
            4 => Operand::Register(Register::SP),
            5 => Operand::Register(Register::BP),
            6 => Operand::Register(Register::SI),
            _ => Operand::Register(Register::DI),
        }
    }
}

/// The 16-bit word assembled from a little-endian byte pair.
pub open spec fn spec_word_le(lo: u8, hi: u8) -> u16 {
    (hi * 0x100 + lo) as u16
}

/// Assembles a 16-bit word from a little-endian byte pair.
pub fn word_le(lo: u8, hi: u8) -> (w: u16)
    ensures
        w == spec_word_le(lo, hi),
{
    (hi as u16) * 0x100 + (lo as u16)
}

/// The memory operand of the no-displacement addressing class, together with
/// the count of extra displacement bytes it consumed. Encoding 110 is the
/// direct-address special case: it takes a bare 16-bit address from the two
/// following bytes instead of a base-less form.
pub open spec fn spec_decode_address(encoding: u8, w: u8, disp_lo: u8, disp_hi: u8) -> (
    Operand,
    u8,
) {
    let size = spec_size_from_w(w);
    if encoding == 0 {
        (Operand::Memory(MemoryOperand { kind: MemoryOperandKind::Direct_BX_SI, size }), 0u8)
    } else if encoding == 1 {
        (Operand::Memory(MemoryOperand { kind: MemoryOperandKind::Direct_BX_DI, size }), 0u8)
    } else if encoding == 2 {
        (Operand::Memory(MemoryOperand { kind: MemoryOperandKind::Direct_BP_SI, size }), 0u8)
    } else if encoding == 3 {
        (Operand::Memory(MemoryOperand { kind: MemoryOperandKind::Direct_BP_DI, size }), 0u8)
    } else if encoding == 4 {
        (Operand::Memory(MemoryOperand { kind: MemoryOperandKind::Direct_SI, size }), 0u8)
    } else if encoding == 5 {
        (Operand::Memory(MemoryOperand { kind: MemoryOperandKind::Direct_DI, size }), 0u8)
    } else if encoding == 6 {
        (
            Operand::Memory(
                MemoryOperand {
                    kind: MemoryOperandKind::Direct_Address(spec_word_le(disp_lo, disp_hi)),
                    size,
                },
            ),
            2u8,
        )
    } else {
        (Operand::Memory(MemoryOperand { kind: MemoryOperandKind::Direct_BX, size }), 0u8)
    }
}

/// Decodes a memory operand of the no-displacement class, returning it with
/// the count of extra displacement bytes consumed (2 for the direct-address
/// special case, 0 otherwise).
pub fn decode_address(encoding: u8, w: u8, disp_lo: u8, disp_hi: u8) -> (r: (Operand, u8))
    requires
        encoding < 8,
        w < 2,
    ensures
        r == spec_decode_address(encoding, w, disp_lo, disp_hi),
        r.1 == 0 || r.1 == 2,
{
    let size = crate::MemoryOperandSize::from_w_bit(w);
    match encoding {
        0 => (Operand::Memory(MemoryOperand { kind: MemoryOperandKind::Direct_BX_SI, size }), 0),
        1 => (Operand::Memory(MemoryOperand { kind: MemoryOperandKind::Direct_BX_DI, size }), 0),
        2 => (Operand::Memory(MemoryOperand { kind: MemoryOperandKind::Direct_BP_SI, size }), 0),
        3 => (Operand::Memory(MemoryOperand { kind: MemoryOperandKind::Direct_BP_DI, size }), 0),
        4 => (Operand::Memory(MemoryOperand { kind: MemoryOperandKind::Direct_SI, size }), 0),
        5 => (Operand::Memory(MemoryOperand { kind: MemoryOperandKind::Direct_DI, size }), 0),
        6 => (
            Operand::Memory(
                MemoryOperand {
                    kind: MemoryOperandKind::Direct_Address(word_le(disp_lo, disp_hi)),
                    size,
                },
            ),
            2,
        ),
        _ => (Operand::Memory(MemoryOperand { kind: MemoryOperandKind::Direct_BX, size }), 0),
    }
}

/// The memory operand of the 8-bit-displacement addressing class.
pub open spec fn spec_decode_address_disp8(encoding: u8, w: u8, disp: i8) -> Operand {
    let size = spec_size_from_w(w);
    if encoding == 0 {
        Operand::Memory(MemoryOperand { kind: MemoryOperandKind::Disp8_BX_SI(disp), size })
    } else if encoding == 1 {
        Operand::Memory(MemoryOperand { kind: MemoryOperandKind::Disp8_BX_DI(disp), size })
    } else if encoding == 2 {
        Operand::Memory(MemoryOperand { kind: MemoryOperandKind::Disp8_BP_SI(disp), size })
    } else if encoding == 3 {
        Operand::Memory(MemoryOperand { kind: MemoryOperandKind::Disp8_BP_DI(disp), size })
    } else if encoding == 4 {
        Operand::Memory(MemoryOperand { kind: MemoryOperandKind::Disp8_SI(disp), size })
    } else if encoding == 5 {
        Operand::Memory(MemoryOperand { kind: MemoryOperandKind::Disp8_DI(disp), size })
    } else if encoding == 6 {
        Operand::Memory(MemoryOperand { kind: MemoryOperandKind::Disp8_BP(disp), size })
    } else {
        Operand::Memory(MemoryOperand { kind: MemoryOperandKind::Disp8_BX(disp), size })
    }
}

/// Decodes a memory operand of the 8-bit-displacement class.
pub fn decode_address_disp8(encoding: u8, w: u8, disp: i8) -> (r: Operand)
    requires
        encoding < 8,
        w < 2,
    ensures
        r == spec_decode_address_disp8(encoding, w, disp),
{
    let size = crate::MemoryOperandSize::from_w_bit(w);
    match encoding {
        0 => Operand::Memory(MemoryOperand { kind: MemoryOperandKind::Disp8_BX_SI(disp), size }),
        1 => Operand::Memory(MemoryOperand { kind: MemoryOperandKind::Disp8_BX_DI(disp), size }),
        2 => Operand::Memory(MemoryOperand { kind: MemoryOperandKind::Disp8_BP_SI(disp), size }),
        3 => Operand::Memory(MemoryOperand { kind: MemoryOperandKind::Disp8_BP_DI(disp), size }),
        4 => Operand::Memory(MemoryOperand { kind: MemoryOperandKind::Disp8_SI(disp), size }),
        5 => Operand::Memory(MemoryOperand { kind: MemoryOperandKind::Disp8_DI(disp), size }),
        6 => Operand::Memory(MemoryOperand { kind: MemoryOperandKind::Disp8_BP(disp), size }),
        _ => Operand::Memory(MemoryOperand { kind: MemoryOperandKind::Disp8_BX(disp), size }),
    }
}

/// The memory operand of the 16-bit-displacement addressing class.
pub open spec fn spec_decode_address_disp16(encoding: u8, w: u8, disp: i16) -> Operand {
    let size = spec_size_from_w(w);
    if encoding == 0 {
        Operand::Memory(MemoryOperand { kind: MemoryOperandKind::Disp16_BX_SI(disp), size })
    } else if encoding == 1 {
        Operand::Memory(MemoryOperand { kind: MemoryOperandKind::Disp16_BX_DI(disp), size })
    } else if encoding == 2 {
        Operand::Memory(MemoryOperand { kind: MemoryOperandKind::Disp16_BP_SI(disp), size })
    } else if encoding == 3 {
        Operand::Memory(MemoryOperand { kind: MemoryOperandKind::Disp16_BP_DI(disp), size })
    } else if encoding == 4 {
        Operand::Memory(MemoryOperand { kind: MemoryOperandKind::Disp16_SI(disp), size })
    } else if encoding == 5 {
        Operand::Memory(MemoryOperand { kind: MemoryOperandKind::Disp16_DI(disp), size })
    } else if encoding == 6 {
        Operand::Memory(MemoryOperand { kind: MemoryOperandKind::Disp16_BP(disp), size })
    } else {
        Operand::Memory(MemoryOperand { kind: MemoryOperandKind::Disp16_BX(disp), size })
    }
}

/// Decodes a memory operand of the 16-bit-displacement class.
pub fn decode_address_disp16(encoding: u8, w: u8, disp: i16) -> (r: Operand)
    requires
        encoding < 8,
        w < 2,
    ensures
        r == spec_decode_address_disp16(encoding, w, disp),
{
    let size = crate::MemoryOperandSize::from_w_bit(w);
    match encoding {
        0 => Operand::Memory(MemoryOperand { kind: MemoryOperandKind::Disp16_BX_SI(disp), size }),
        1 => Operand::Memory(MemoryOperand { kind: MemoryOperandKind::Disp16_BX_DI(disp), size }),
        2 => Operand::Memory(MemoryOperand { kind: MemoryOperandKind::Disp16_BP_SI(disp), size }),
        3 => Operand::Memory(MemoryOperand { kind: MemoryOperandKind::Disp16_BP_DI(disp), size }),
        4 => Operand::Memory(MemoryOperand { kind: MemoryOperandKind::Disp16_SI(disp), size }),
        5 => Operand::Memory(MemoryOperand { kind: MemoryOperandKind::Disp16_DI(disp), size }),
        6 => Operand::Memory(MemoryOperand { kind: MemoryOperandKind::Disp16_BP(disp), size }),
        _ => Operand::Memory(MemoryOperand { kind: MemoryOperandKind::Disp16_BX(disp), size }),
    }
}

/// The instruction decoded from a register/memory-with-register form
/// (opcode bits `......dw`, then a mod-reg-rm byte): MOV, ADD, SUB or CMP
/// with the direction bit selecting which decoded operand is the
/// destination.
pub open spec fn spec_decode_rm_reg(op: Op, bytes: Seq<u8>) -> Instruction {
    let b0 = bytes[0];
    let b1 = bytes[1];
    let d = (b0 >> 1) & 1;
    let w = b0 & 1;
    let mod_bits = b1 >> 6;
    let reg = (b1 & 0x38) >> 3;
    let rm = b1 & 0x07;
    let reg0 = spec_decode_register(reg, w);
    let reg1 = spec_decode_register(rm, w);
    let pair = spec_decode_address(rm, w, bytes[2], bytes[3]);
    let mem = pair.0;
    let bytes_read = pair.1;
    let mem_disp8 = spec_decode_address_disp8(rm, w, bytes[2] as i8);
    let mem_disp16 = spec_decode_address_disp16(rm, w, spec_word_le(bytes[2], bytes[3]) as i16);
    let triple: (Operand, Operand, u8) = if mod_bits == 0 {
        if d == 1 {
            (mem, reg0, (2 + bytes_read) as u8)
        } else {
            (reg0, mem, (2 + bytes_read) as u8)
        }
    } else if mod_bits == 1 {
        if d == 1 {
            (mem_disp8, reg0, 3u8)
        } else {
            (reg0, mem_disp8, 3u8)
        }
    } else if mod_bits == 2 {
        if d == 1 {
            (mem_disp16, reg0, 4u8)
        } else {
            (reg0, mem_disp16, 4u8)
        }
    } else {
        if d == 1 {
            (reg1, reg0, 2u8)
        } else {
            (reg0, reg1, 2u8)
        }
    };
    Instruction { op, length: triple.2, operands: [Some(triple.1), Some(triple.0)] }
}

/// Decodes one of the register/memory-with-register forms.
fn decode_rm_reg(op: Op, bytes: &[u8]) -> (i: Instruction)
    requires
        bytes@.len() >= 6,
    ensures
        i == spec_decode_rm_reg(op, bytes@),
        2 <= i.length <= 4,
{
    let b0 = bytes[0];
    let b1 = bytes[1];
    proof {
        lemma_bit_fields(b0);
        lemma_bit_fields(b1);
    }
    let d = (b0 >> 1) & 1;
    let w = b0 & 1;
    let mod_bits = b1 >> 6;
    let reg = (b1 & 0x38) >> 3;
    let rm = b1 & 0x07;
    let reg0 = decode_register(reg, w);
    let reg1 = decode_register(rm, w);
    let (mem, bytes_read) = decode_address(rm, w, bytes[2], bytes[3]);
    let mem_disp8 = decode_address_disp8(rm, w, bytes[2] as i8);
    let mem_disp16 = decode_address_disp16(rm, w, word_le(bytes[2], bytes[3]) as i16);
    let (src, dest, len): (Operand, Operand, u8) = if mod_bits == 0 {
        if d == 1 {
            (mem, reg0, 2 + bytes_read)
        } else {
            (reg0, mem, 2 + bytes_read)
        }
    } else if mod_bits == 1 {
        if d == 1 {
            (mem_disp8, reg0, 3)
        } else {
            (reg0, mem_disp8, 3)
        }
    } else if mod_bits == 2 {
        if d == 1 {
            (mem_disp16, reg0, 4)
        } else {
            (reg0, mem_disp16, 4)
        }
    } else {
        if d == 1 {
            (reg1, reg0, 2)
        } else {
            (reg0, reg1, 2)
        }
    };
    Instruction { op, length: len, operands: [Some(dest), Some(src)] }
}

/// The instruction decoded from the MOV immediate-to-register/memory form
/// (`1100011w`, mod-reg-rm byte, displacement, then immediate data).
pub open spec fn spec_decode_mov_imm_rm(bytes: Seq<u8>) -> Instruction {
    let b0 = bytes[0];
    let b1 = bytes[1];
    let w = b0 & 1;
    let mod_bits = b1 >> 6;
    let rm = b1 & 0x07;
    let reg_rm = spec_decode_register(rm, w);
    let pair = spec_decode_address(rm, w, bytes[2], bytes[3]);
    let mem = pair.0;
    let bytes_read = pair.1;
    let mem_disp8 = spec_decode_address_disp8(rm, w, bytes[2] as i8);
    let mem_disp16 = spec_decode_address_disp16(rm, w, spec_word_le(bytes[2], bytes[3]) as i16);
    let quad: (Operand, u8, u8, u8) = if mod_bits == 0 {
        (mem, bytes[2 + bytes_read as int], bytes[3 + bytes_read as int], (3 + bytes_read) as u8)
    } else if mod_bits == 1 {
        (mem_disp8, bytes[3], bytes[4], 4u8)
    } else if mod_bits == 2 {
        (mem_disp16, bytes[4], bytes[5], 5u8)
    } else {
        (reg_rm, bytes[2], bytes[3], 3u8)
    };
    let imm = if w == 0 {
        Operand::Immediate(Immediate::Bit8(quad.1))
    } else {
        Operand::Immediate(Immediate::Bit16(spec_word_le(quad.1, quad.2)))
    };
    Instruction { op: Op::Mov, length: (quad.3 + w) as u8, operands: [Some(quad.0), Some(imm)] }
}

/// Decodes the MOV immediate-to-register/memory form.
fn decode_mov_imm_rm(bytes: &[u8]) -> (i: Instruction)
    requires
        bytes@.len() >= 6,
    ensures
        i == spec_decode_mov_imm_rm(bytes@),
        3 <= i.length <= 6,
{
    let b0 = bytes[0];
    let b1 = bytes[1];
    proof {
        lemma_bit_fields(b0);
        lemma_bit_fields(b1);
    }
    let w = b0 & 1;
    let mod_bits = b1 >> 6;
    let rm = b1 & 0x07;
    let reg_rm = decode_register(rm, w);
    let (mem, bytes_read) = decode_address(rm, w, bytes[2], bytes[3]);
    let mem_disp8 = decode_address_disp8(rm, w, bytes[2] as i8);
    let mem_disp16 = decode_address_disp16(rm, w, word_le(bytes[2], bytes[3]) as i16);
    let (dest, data_lo, data_hi, len): (Operand, u8, u8, u8) = if mod_bits == 0 {
        (mem, bytes[2 + bytes_read as usize], bytes[3 + bytes_read as usize], 3 + bytes_read)
    } else if mod_bits == 1 {
        (mem_disp8, bytes[3], bytes[4], 4)
    } else if mod_bits == 2 {
        (mem_disp16, bytes[4], bytes[5], 5)
    } else {
        (reg_rm, bytes[2], bytes[3], 3)
    };
    let imm = if w == 0 {
        Operand::Immediate(Immediate::Bit8(data_lo))
    } else {
        Operand::Immediate(Immediate::Bit16(word_le(data_lo, data_hi)))
    };
    Instruction { op: Op::Mov, length: len + w, operands: [Some(dest), Some(imm)] }
}

/// The instruction decoded from the MOV immediate-to-register form
/// (`1011wreg`, then immediate data).
pub open spec fn spec_decode_mov_imm_reg(bytes: Seq<u8>) -> Instruction {
    let b0 = bytes[0];
    let w = (b0 >> 3) & 1;
    let reg = b0 & 0x07;
    let reg0 = spec_decode_register(reg, w);
    let imm = if w == 0 {
        Operand::Immediate(Immediate::Bit8(bytes[1]))
    } else {
        Operand::Immediate(Immediate::Bit16(spec_word_le(bytes[1], bytes[2])))
    };
    Instruction { op: Op::Mov, length: (2 + w) as u8, operands: [Some(reg0), Some(imm)] }
}

/// Decodes the MOV immediate-to-register form.
fn decode_mov_imm_reg(bytes: &[u8]) -> (i: Instruction)
    requires
        bytes@.len() >= 6,
    ensures
        i == spec_decode_mov_imm_reg(bytes@),
        2 <= i.length <= 3,
{
    let b0 = bytes[0];
    proof {
        lemma_bit_fields(b0);
    }
    let w = (b0 >> 3) & 1;
    let reg = b0 & 0x07;
    let reg0 = decode_register(reg, w);
    let imm = if w == 0 {
        Operand::Immediate(Immediate::Bit8(bytes[1]))
    } else {
        Operand::Immediate(Immediate::Bit16(word_le(bytes[1], bytes[2])))
    };
    Instruction { op: Op::Mov, length: 2 + w, operands: [Some(reg0), Some(imm)] }
}

/// The instruction decoded from the MOV accumulator forms (`1010000w`
/// memory to accumulator, `1010001w` accumulator to memory): a direct
/// address paired with AL or AX according to the width bit.
pub open spec fn spec_decode_mov_acc(bytes: Seq<u8>, acc_to_mem: bool) -> Instruction {
    let b0 = bytes[0];
    let w = b0 & 1;
    let mem = if w == 0 {
        Operand::Memory(
            MemoryOperand {
                kind: MemoryOperandKind::Direct_Address(bytes[1] as u16),
                size: crate::MemoryOperandSize::Byte,
            },
        )
    } else {
        Operand::Memory(
            MemoryOperand {
                kind: MemoryOperandKind::Direct_Address(spec_word_le(bytes[1], bytes[2])),
                size: crate::MemoryOperandSize::Word,
            },
        )
    };
    let acc = if w == 0 {
        Operand::Register(Register::AL)
    } else {
        Operand::Register(Register::AX)
    };
    let operands = if acc_to_mem {
        [Some(mem), Some(acc)]
    } else {
        [Some(acc), Some(mem)]
    };
    Instruction { op: Op::Mov, length: (2 + w) as u8, operands }
}

/// Decodes the MOV accumulator-and-memory forms.
fn decode_mov_acc(bytes: &[u8], acc_to_mem: bool) -> (i: Instruction)
    requires
        bytes@.len() >= 6,
    ensures
        i == spec_decode_mov_acc(bytes@, acc_to_mem),
        2 <= i.length <= 3,
{
    let b0 = bytes[0];
    proof {
        lemma_bit_fields(b0);
    }
    let w = b0 & 1;
    let mem = if w == 0 {
        Operand::Memory(
            MemoryOperand {
                kind: MemoryOperandKind::Direct_Address(bytes[1] as u16),
                size: crate::MemoryOperandSize::Byte,
            },
        )
    } else {
        Operand::Memory(
            MemoryOperand {
                kind: MemoryOperandKind::Direct_Address(word_le(bytes[1], bytes[2])),
                size: crate::MemoryOperandSize::Word,
            },
        )
    };
    let acc = if w == 0 {
        Operand::Register(Register::AL)
    } else {
        Operand::Register(Register::AX)
    };
    let operands = if acc_to_mem {
        [Some(mem), Some(acc)]
    } else {
        [Some(acc), Some(mem)]
    };
    Instruction { op: Op::Mov, length: 2 + w, operands }
}

/// The operation selected by the opcode sub-field (bits 3-5 of the
/// mod-reg-rm byte) within the shared immediate-arithmetic form.
pub open spec fn spec_arith_subop(b1: u8) -> Option<Op> {
    if b1 & 0x38 == 0x00 {
        Some(Op::Add)
    } else if b1 & 0x38 == 0x28 {
        Some(Op::Sub)
    } else if b1 & 0x38 == 0x38 {
        Some(Op::Cmp)
    } else {
        None
    }
}

/// Reads the opcode sub-field of the shared immediate-arithmetic form.
fn arith_subop(b1: u8) -> (r: Option<Op>)
    ensures
        r == spec_arith_subop(b1),
{
    let sub = b1 & 0x38;
    if sub == 0x00 {
        Some(Op::Add)
    } else if sub == 0x28 {
        Some(Op::Sub)
    } else if sub == 0x38 {
        Some(Op::Cmp)
    } else {
        None
    }
}

/// The instruction decoded from the shared ADD/SUB/CMP
/// immediate-to-register/memory form (`100000sw`): the immediate is 16 bits
/// wide only when the width bit is set and the sign-extend bit is clear.
pub open spec fn spec_decode_arith_imm_rm(op: Op, bytes: Seq<u8>) -> Instruction {
    let b0 = bytes[0];
    let b1 = bytes[1];
    let s = (b0 >> 1) & 1;
    let w = b0 & 1;
    let mod_bits = b1 >> 6;
    let rm = b1 & 0x07;
    let reg_rm = spec_decode_register(rm, w);
    let pair = spec_decode_address(rm, w, bytes[2], bytes[3]);
    let mem = pair.0;
    let bytes_read = pair.1;
    let mem_disp8 = spec_decode_address_disp8(rm, w, bytes[2] as i8);
    let mem_disp16 = spec_decode_address_disp16(rm, w, spec_word_le(bytes[2], bytes[3]) as i16);
    let wide_imm = w == 1 && s == 0;
    let triple: (Operand, Operand, u8) = if mod_bits == 0 {
        if wide_imm {
            (
                mem,
                Operand::Immediate(
                    Immediate::Bit16(
                        spec_word_le(bytes[2 + bytes_read as int], bytes[3 + bytes_read as int]),
                    ),
                ),
                (4 + bytes_read) as u8,
            )
        } else {
            (
                mem,
                Operand::Immediate(Immediate::Bit8(bytes[2 + bytes_read as int])),
                (3 + bytes_read) as u8,
            )
        }
    } else if mod_bits == 1 {
        if wide_imm {
            (mem_disp8, Operand::Immediate(Immediate::Bit16(spec_word_le(bytes[3], bytes[4]))), 5u8)
        } else {
            (mem_disp8, Operand::Immediate(Immediate::Bit8(bytes[3])), 4u8)
        }
    } else if mod_bits == 2 {
        if wide_imm {
            (
                mem_disp16,
                Operand::Immediate(Immediate::Bit16(spec_word_le(bytes[4], bytes[5]))),
                6u8,
            )
        } else {
            (mem_disp16, Operand::Immediate(Immediate::Bit8(bytes[4])), 5u8)
        }
    } else {
        if wide_imm {
            (reg_rm, Operand::Immediate(Immediate::Bit16(spec_word_le(bytes[2], bytes[3]))), 4u8)
        } else {
            (reg_rm, Operand::Immediate(Immediate::Bit8(bytes[2])), 3u8)
        }
    };
    Instruction { op, length: triple.2, operands: [Some(triple.0), Some(triple.1)] }
}

/// Decodes the shared ADD/SUB/CMP immediate-to-register/memory form, for
/// the operation its opcode sub-field named.
fn decode_arith_imm_rm(op: Op, bytes: &[u8]) -> (i: Instruction)
    requires
        bytes@.len() >= 6,
    ensures
        i == spec_decode_arith_imm_rm(op, bytes@),
        3 <= i.length <= 6,
{
    let b0 = bytes[0];
    let b1 = bytes[1];
    proof {
        lemma_bit_fields(b0);
        lemma_bit_fields(b1);
    }
    let s = (b0 >> 1) & 1;
    let w = b0 & 1;
    let mod_bits = b1 >> 6;
    let rm = b1 & 0x07;
    let reg_rm = decode_register(rm, w);
    let (mem, bytes_read) = decode_address(rm, w, bytes[2], bytes[3]);
    let mem_disp8 = decode_address_disp8(rm, w, bytes[2] as i8);
    let mem_disp16 = decode_address_disp16(rm, w, word_le(bytes[2], bytes[3]) as i16);
    let wide_imm = w == 1 && s == 0;
    let (dest, src, len): (Operand, Operand, u8) = if mod_bits == 0 {
        if wide_imm {
            (
                mem,
                Operand::Immediate(
                    Immediate::Bit16(
                        word_le(bytes[2 + bytes_read as usize], bytes[3 + bytes_read as usize]),
                    ),
                ),
                4 + bytes_read,
            )
        } else {
            (
                mem,
                Operand::Immediate(Immediate::Bit8(bytes[2 + bytes_read as usize])),
                3 + bytes_read,
            )
        }
    } else if mod_bits == 1 {
        if wide_imm {
            (mem_disp8, Operand::Immediate(Immediate::Bit16(word_le(bytes[3], bytes[4]))), 5)
        } else {
            (mem_disp8, Operand::Immediate(Immediate::Bit8(bytes[3])), 4)
        }
    } else if mod_bits == 2 {
        if wide_imm {
            (mem_disp16, Operand::Immediate(Immediate::Bit16(word_le(bytes[4], bytes[5]))), 6)
        } else {
            (mem_disp16, Operand::Immediate(Immediate::Bit8(bytes[4])), 5)
        }
    } else {
        if wide_imm {
            (reg_rm, Operand::Immediate(Immediate::Bit16(word_le(bytes[2], bytes[3]))), 4)
        } else {
            (reg_rm, Operand::Immediate(Immediate::Bit8(bytes[2])), 3)
        }
    };
    Instruction { op, length: len, operands: [Some(dest), Some(src)] }
}

/// The instruction decoded from an immediate-to-accumulator form: AL with
/// an 8-bit immediate, or AX with a 16-bit one, by the width bit.
pub open spec fn spec_decode_arith_imm_acc(op: Op, bytes: Seq<u8>) -> Instruction {
    let b0 = bytes[0];
    let w = b0 & 1;
    let pair: (Operand, Operand) = if w == 0 {
        (Operand::Register(Register::AL), Operand::Immediate(Immediate::Bit8(bytes[1])))
    } else {
        (
            Operand::Register(Register::AX),
            Operand::Immediate(Immediate::Bit16(spec_word_le(bytes[1], bytes[2]))),
        )
    };
    Instruction { op, length: (2 + w) as u8, operands: [Some(pair.0), Some(pair.1)] }
}

/// Decodes an ADD/SUB/CMP immediate-to-accumulator form.
fn decode_arith_imm_acc(op: Op, bytes: &[u8]) -> (i: Instruction)
    requires
        bytes@.len() >= 6,
    ensures
        i == spec_decode_arith_imm_acc(op, bytes@),
        2 <= i.length <= 3,
{
    let b0 = bytes[0];
    proof {
        lemma_bit_fields(b0);
    }
    let w = b0 & 1;
    let (reg, imm): (Operand, Operand) = if w == 0 {
        (Operand::Register(Register::AL), Operand::Immediate(Immediate::Bit8(bytes[1])))
    } else {
        (
            Operand::Register(Register::AX),
            Operand::Immediate(Immediate::Bit16(word_le(bytes[1], bytes[2]))),
        )
    };
    Instruction { op, length: 2 + w, operands: [Some(reg), Some(imm)] }
}

/// The conditional-jump, loop or JCXZ operation a single-byte opcode names,
/// if any.
pub open spec fn spec_jump_op(b0: u8) -> Option<Op> {
    if b0 == 0x74 {
        Some(Op::Je)
    } else if b0 == 0x7C {
        Some(Op::Jl)
    } else if b0 == 0x7E {
        Some(Op::Jle)
    } else if b0 == 0x72 {
        Some(Op::Jb)
    } else if b0 == 0x76 {
        Some(Op::Jbe)
    } else if b0 == 0x7A {
        Some(Op::Jp)
    } else if b0 == 0x70 {
        Some(Op::Jo)
    } else if b0 == 0x78 {
        Some(Op::Js)
    } else if b0 == 0x75 {
        Some(Op::Jne)
    } else if b0 == 0x7D {
        Some(Op::Jnl)
    } else if b0 == 0x7F {
        Some(Op::Jg)
    } else if b0 == 0x73 {
        Some(Op::Jnb)
    } else if b0 == 0x77 {
        Some(Op::Ja)
    } else if b0 == 0x7B {
        Some(Op::Jnp)
    } else if b0 == 0x71 {
        Some(Op::Jno)
    } else if b0 == 0x79 {
        Some(Op::Jns)
    } else if b0 == 0xE2 {
        Some(Op::Loop)
    } else if b0 == 0xE1 {
        Some(Op::Loopz)
    } else if b0 == 0xE0 {
        Some(Op::Loopnz)
    } else if b0 == 0xE3 {
        Some(Op::Jcxz)
    } else {
        None
    }
}

/// Classifies a single-byte jump/loop opcode.
fn jump_op(b0: u8) -> (r: Option<Op>)
    ensures
        r == spec_jump_op(b0),
{
    match b0 {
        0x74 => Some(Op::Je),
        0x7C => Some(Op::Jl),
        0x7E => Some(Op::Jle),
        0x72 => Some(Op::Jb),
        0x76 => Some(Op::Jbe),
        0x7A => Some(Op::Jp),
        0x70 => Some(Op::Jo),
        0x78 => Some(Op::Js),
        0x75 => Some(Op::Jne),
        0x7D => Some(Op::Jnl),
        0x7F => Some(Op::Jg),
        0x73 => Some(Op::Jnb),
        0x77 => Some(Op::Ja),
        0x7B => Some(Op::Jnp),
        0x71 => Some(Op::Jno),
        0x79 => Some(Op::Jns),
        0xE2 => Some(Op::Loop),
        0xE1 => Some(Op::Loopz),
        0xE0 => Some(Op::Loopnz),
        0xE3 => Some(Op::Jcxz),
        _ => None,
    }
}

/// The instruction decoded from a jump/loop form: one signed 8-bit
/// displacement operand, length always 2.
pub open spec fn spec_decode_jump(op: Op, bytes: Seq<u8>) -> Instruction {
    Instruction {
        op,
        length: 2u8,
        operands: [Some(Operand::Immediate(Immediate::Bit8(bytes[1]))), None],
    }
}

/// Decodes a jump/loop form.
fn decode_jump(op: Op, bytes: &[u8]) -> (i: Instruction)
    requires
        bytes@.len() >= 6,
    ensures
        i == spec_decode_jump(op, bytes@),
        i.length == 2,
{
    Instruction {
        op,
        length: 2,
        operands: [Some(Operand::Immediate(Immediate::Bit8(bytes[1]))), None],
    }
}

/// Whether the leading byte matches one of the recognized opcode patterns.
pub open spec fn spec_opcode_supported(b0: u8) -> bool {
    ||| b0 >> 2 == 0x22
    ||| b0 >> 1 == 0x63
    ||| b0 >> 4 == 0x0B
    ||| b0 >> 1 == 0x50
    ||| b0 >> 1 == 0x51
    ||| b0 >> 2 == 0x00
    ||| b0 >> 2 == 0x20
    ||| b0 >> 1 == 0x02
    ||| b0 >> 2 == 0x0A
    ||| b0 >> 1 == 0x16
    ||| b0 >> 2 == 0x0E
    ||| b0 >> 1 == 0x1E
    ||| spec_jump_op(b0) is Some
}

/// The decode table: the instruction a byte window decodes to, or `None`
/// when no recognized pattern matches. Needs a window of at least 6 bytes,
/// the longest encoding in the covered subset.
pub open spec fn spec_decode(bytes: Seq<u8>) -> Option<Instruction> {
    let b0 = bytes[0];
    if b0 >> 2 == 0x22 {
        Some(spec_decode_rm_reg(Op::Mov, bytes))
    } else if b0 >> 1 == 0x63 {
        Some(spec_decode_mov_imm_rm(bytes))
    } else if b0 >> 4 == 0x0B {
        Some(spec_decode_mov_imm_reg(bytes))
    } else if b0 >> 1 == 0x50 {
        Some(spec_decode_mov_acc(bytes, false))
    } else if b0 >> 1 == 0x51 {
        Some(spec_decode_mov_acc(bytes, true))
    } else if b0 >> 2 == 0x00 {
        Some(spec_decode_rm_reg(Op::Add, bytes))
    } else if b0 >> 2 == 0x20 {
        match spec_arith_subop(bytes[1]) {
            Some(op) => Some(spec_decode_arith_imm_rm(op, bytes)),
            None => None,
        }
    } else if b0 >> 1 == 0x02 {
        Some(spec_decode_arith_imm_acc(Op::Add, bytes))
    } else if b0 >> 2 == 0x0A {
        Some(spec_decode_rm_reg(Op::Sub, bytes))
    } else if b0 >> 1 == 0x16 {
        Some(spec_decode_arith_imm_acc(Op::Sub, bytes))
    } else if b0 >> 2 == 0x0E {
        Some(spec_decode_rm_reg(Op::Cmp, bytes))
    } else if b0 >> 1 == 0x1E {
        Some(spec_decode_arith_imm_acc(Op::Cmp, bytes))
    } else {
        match spec_jump_op(b0) {
            Some(op) => Some(spec_decode_jump(op, bytes)),
            None => None,
        }
    }
}

/// The shared immediate-arithmetic pattern overlaps none of the patterns
/// tried before it in the decode table.
proof fn lemma_arith_imm_pattern_first(b0: u8)
    by (bit_vector)
    ensures
        b0 >> 2 == 0x20 ==> b0 >> 1 != 0x63 && b0 >> 4 != 0x0B && b0 >> 1 != 0x50 && b0 >> 1
            != 0x51,
{
}

/// Totality of the decode table: a window decodes exactly when its leading
/// byte matches a recognized pattern (and, for the shared
/// immediate-arithmetic form, its opcode sub-field names a covered
/// operation); the decoded length then is between 1 and 6 bytes and never
/// exceeds the window supplied.
pub proof fn lemma_decode_total(bytes: Seq<u8>)
    requires
        bytes.len() >= 6,
    ensures
        spec_decode(bytes) is Some <==> (spec_opcode_supported(bytes[0]) && (bytes[0] >> 2 == 0x20
            ==> spec_arith_subop(bytes[1]) is Some)),
        spec_decode(bytes) matches Some(i) ==> 1 <= i.length <= 6 && i.length <= bytes.len(),
{
    lemma_arith_imm_pattern_first(bytes[0]);
    lemma_bit_fields(bytes[0]);
    lemma_bit_fields(bytes[1]);
}

/// Determinism of decoding: the table is a function of the byte window
/// alone, so equal windows always decode to equal instructions.
pub proof fn lemma_decode_deterministic(b1: Seq<u8>, b2: Seq<u8>)
    requires
        b1 == b2,
    ensures
        spec_decode(b1) == spec_decode(b2),
{
}

/// Direct-address special case: in a register/memory-with-register MOV
/// with mod = 00 and rm = 110, exactly two extra displacement bytes are
/// consumed (total length 4) and the memory operand is the bare 16-bit
/// address they hold, not a base-register form.
pub proof fn lemma_direct_address_special_case(bytes: Seq<u8>)
    requires
        bytes.len() >= 6,
        bytes[0] >> 2 == 0x22,
        bytes[1] >> 6 == 0,
        bytes[1] & 0x07 == 6,
    ensures
        spec_decode(bytes) is Some,
        spec_decode(bytes).unwrap().length == 4,
        ({
            let i = spec_decode(bytes).unwrap();
            let mem = Operand::Memory(
                MemoryOperand {
                    kind: MemoryOperandKind::Direct_Address(spec_word_le(bytes[2], bytes[3])),
                    size: spec_size_from_w(bytes[0] & 1),
                },
            );
            if (bytes[0] >> 1) & 1 == 1 {
                i.operands[1] == Some(mem)
            } else {
                i.operands[0] == Some(mem)
            }
        }),
{
    lemma_bit_fields(bytes[0]);
}

/// Decodes one instruction from a lookahead window of at least 6 bytes.
///
/// Succeeds exactly when the window matches the decode table; the decoded
/// instruction then equals `spec_decode` of the window and its length counts
/// every byte consumed, never more than the window holds. On failure the
/// error carries the unrecognized byte.
pub fn decode_instruction(bytes: &[u8]) -> (r: Result<Instruction, DecodeError>)
    requires
        bytes@.len() >= 6,
    ensures
        r matches Ok(i) ==> spec_decode(bytes@) == Some(i) && 1 <= i.length <= 6,
        r is Err ==> spec_decode(bytes@) is None,
        r matches Err(e) ==> e == DecodeError::UnsupportedOpcode(
            if spec_opcode_supported(bytes@[0]) {
                bytes@[1]
            } else {
                bytes@[0]
            },
        ),
        r is Ok <==> spec_decode(bytes@) is Some,
{
    let b0 = bytes[0];
    if b0 >> 2 == 0x22 {
        Ok(decode_rm_reg(Op::Mov, bytes))
    } else if b0 >> 1 == 0x63 {
        Ok(decode_mov_imm_rm(bytes))
    } else if b0 >> 4 == 0x0B {
        Ok(decode_mov_imm_reg(bytes))
    } else if b0 >> 1 == 0x50 {
        Ok(decode_mov_acc(bytes, false))
    } else if b0 >> 1 == 0x51 {
        Ok(decode_mov_acc(bytes, true))
    } else if b0 >> 2 == 0x00 {
        Ok(decode_rm_reg(Op::Add, bytes))
    } else if b0 >> 2 == 0x20 {
        match arith_subop(bytes[1]) {
            Some(op) => Ok(decode_arith_imm_rm(op, bytes)),
            None => Err(DecodeError::UnsupportedOpcode(bytes[1])),
        }
    } else if b0 >> 1 == 0x02 {
        Ok(decode_arith_imm_acc(Op::Add, bytes))
    } else if b0 >> 2 == 0x0A {
        Ok(decode_rm_reg(Op::Sub, bytes))
    } else if b0 >> 1 == 0x16 {
        Ok(decode_arith_imm_acc(Op::Sub, bytes))
    } else if b0 >> 2 == 0x0E {
        Ok(decode_rm_reg(Op::Cmp, bytes))
    } else if b0 >> 1 == 0x1E {
        Ok(decode_arith_imm_acc(Op::Cmp, bytes))
    } else {
        match jump_op(b0) {
            Some(op) => Ok(decode_jump(op, bytes)),
            None => Err(DecodeError::UnsupportedOpcode(b0)),
        }
    }
}

} // verus!
