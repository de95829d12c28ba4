//! The simulator: applies one decoded instruction to the architectural
//! state. The instruction pointer is advanced by the encoded length first,
//! so relative jumps are taken from the address of the following byte.
//!
//! `spec_step` is the mathematical transition relation; `simulate` is the
//! executable interpreter, proved to realize it and to leave the state
//! untouched on every error.

use vstd::arithmetic::div_mod::lemma_add_mod_noop_right;
use vstd::arithmetic::div_mod::lemma_mod_add_multiples_vanish;
use vstd::arithmetic::div_mod::lemma_mod_sub_multiples_vanish;
use vstd::arithmetic::div_mod::lemma_small_mod;
use vstd::prelude::*;

use crate::Immediate;
use crate::Instruction;
use crate::Memory;
use crate::MemoryOperand;
use crate::MemoryOperandKind;
use crate::MemoryOperandSize;
use crate::Op;
use crate::Operand;
use crate::Register;
use crate::RegisterFile;
use crate::SF_MASK;
use crate::ZF_MASK;
use crate::decoder::spec_word_le;
use crate::decoder::word_le;
use crate::reg_is_wide;
use crate::spec_reg_read;
use crate::spec_reg_write;

verus! {

/// Execution failure: the instruction is outside the executed subset, or a
/// recognized operation reached an operand pairing with no defined
/// semantics. The machine state is left untouched in either case.
#[derive(Debug, Clone, Copy, PartialEq, Eq, Structural)]
pub enum ExecError {
    UnsupportedOp,
    UnsupportedOperands,
}

/// Reduction into the 16-bit range: the wrapping result of any exact
/// integer computation.
pub open spec fn wrap16(x: int) -> u16 {
    (x % 0x10000) as u16
}

/// `wrap16` is the identity inside the 16-bit range.
proof fn lemma_wrap16_small(x: int)
    requires
        0 <= x < 0x10000,
    ensures
        wrap16(x) == x,
{
    lemma_small_mod(x as nat, 0x10000nat);
}

/// `wrap16` is invariant under shifts by the full range.
proof fn lemma_wrap16_shift(x: int)
    ensures
        wrap16(x + 0x10000) == wrap16(x),
        wrap16(x - 0x10000) == wrap16(x),
{
    lemma_mod_add_multiples_vanish(x, 0x10000);
    lemma_mod_sub_multiples_vanish(x, 0x10000);
}

/// The wrapping 16-bit sum equals the exact sum reduced by `wrap16`.
proof fn lemma_wrapping_add16(x: u16, y: u16)
    ensures
        vstd::wrapping::u16_specs::wrapping_add(x, y) == wrap16(x + y),
{
    if x + y <= 0xFFFF {
        lemma_wrap16_small(x + y);
    } else {
        lemma_wrap16_shift(x + y - 0x10000);
        lemma_wrap16_small(x + y - 0x10000);
    }
}

/// The wrapping signed addition equals the exact sum reduced by `wrap16`.
proof fn lemma_wrapping_add_signed16(x: u16, d: i16)
    ensures
        vstd::wrapping::u16_specs::wrapping_add_signed(x, d) == wrap16(x + d),
{
    if x + d > 0xFFFF {
        lemma_wrap16_shift(x + d - 0x10000);
        lemma_wrap16_small(x + d - 0x10000);
    } else if x + d < 0 {
        lemma_wrap16_shift(x + d);
        lemma_wrap16_small(x + d + 0x10000);
    } else {
        lemma_wrap16_small(x + d);
    }
}

/// Two-step wrapping base-plus-displacement equals the exact sum reduced
/// by `wrap16`.
proof fn lemma_wrapping_base_disp16(a: u16, b: u16, d: i16)
    ensures
        vstd::wrapping::u16_specs::wrapping_add_signed(
            vstd::wrapping::u16_specs::wrapping_add(a, b),
            d,
        ) == wrap16(a + b + d),
{
    let s = vstd::wrapping::u16_specs::wrapping_add(a, b);
    lemma_wrapping_add16(a, b);
    lemma_wrapping_add_signed16(s, d);
    lemma_add_mod_noop_right(d as int, (a + b) as int, 0x10000);
}

/// The flags word after an arithmetic result: the zero and sign bits are
/// rewritten from the result, every other bit is preserved.
pub open spec fn spec_set_flags(flags: u16, zero: bool, sign: bool) -> u16 {
    (flags & !(ZF_MASK | SF_MASK)) | (if zero {
        ZF_MASK
    } else {
        0
    }) | (if sign {
        SF_MASK
    } else {
        0
    })
}

/// Rewrites the zero and sign bits of the flags word, leaving the rest.
pub fn set_flags(flags: &mut u16, zero: bool, sign: bool)
    ensures
        *final(flags) == spec_set_flags(*old(flags), zero, sign),
{
    let cleared = *flags & !(ZF_MASK | SF_MASK);
    let z: u16 = if zero {
        ZF_MASK
    } else {
        0
    };
    let s: u16 = if sign {
        SF_MASK
    } else {
        0
    };
    *flags = cleared | z | s;
}

/// Reads the value a register name denotes, at that register's own width.
pub fn get_register_value(registers: &RegisterFile, reg: Register) -> (v: u16)
    ensures
        v == spec_reg_read(*registers, reg),
{
    match reg {
        Register::AL => registers.ax % 0x100,
        Register::CL => registers.cx % 0x100,
        Register::DL => registers.dx % 0x100,
        Register::BL => registers.bx % 0x100,
        Register::AH => registers.ax / 0x100,
        Register::CH => registers.cx / 0x100,
        Register::DH => registers.dx / 0x100,
        Register::BH => registers.bx / 0x100,
        Register::AX => registers.ax,
        Register::CX => registers.cx,
        Register::DX => registers.dx,
        Register::BX => registers.bx,
        Register::SP => registers.sp,
        Register::BP => registers.bp,
        Register::SI => registers.si,
        Register::DI => registers.di,
    }
}

/// Writes a value to a register: the full word for word registers, the low
/// byte of the value into the register's own half for byte registers.
pub fn set_register_value(registers: &mut RegisterFile, reg: Register, v: u16)
    ensures
        *final(registers) == spec_reg_write(*old(registers), reg, v),
{
    proof {
        crate::lemma_half_write_facts(old(registers).ax, v);
        crate::lemma_half_write_facts(old(registers).bx, v);
        crate::lemma_half_write_facts(old(registers).cx, v);
        crate::lemma_half_write_facts(old(registers).dx, v);
    }
    match reg {
        Register::AL => registers.ax = (registers.ax / 0x100) * 0x100 + v % 0x100,
        Register::CL => registers.cx = (registers.cx / 0x100) * 0x100 + v % 0x100,
        Register::DL => registers.dx = (registers.dx / 0x100) * 0x100 + v % 0x100,
        Register::BL => registers.bx = (registers.bx / 0x100) * 0x100 + v % 0x100,
        Register::AH => registers.ax = (v % 0x100) * 0x100 + registers.ax % 0x100,
        Register::CH => registers.cx = (v % 0x100) * 0x100 + registers.cx % 0x100,
        Register::DH => registers.dx = (v % 0x100) * 0x100 + registers.dx % 0x100,
        Register::BH => registers.bx = (v % 0x100) * 0x100 + registers.bx % 0x100,
        Register::AX => registers.ax = v,
        Register::CX => registers.cx = v,
        Register::DX => registers.dx = v,
        Register::BX => registers.bx = v,
        Register::SP => registers.sp = v,
        Register::BP => registers.bp = v,
        Register::SI => registers.si = v,
        Register::DI => registers.di = v,
    }
}

/// The transfer width of a register name.
pub open spec fn spec_reg_size(r: Register) -> MemoryOperandSize {
    if reg_is_wide(r) {
        MemoryOperandSize::Word
    } else {
        MemoryOperandSize::Byte
    }
}

/// The transfer width of an immediate.
pub open spec fn spec_imm_size(imm: Immediate) -> MemoryOperandSize {
    match imm {
        Immediate::Bit8(_) => MemoryOperandSize::Byte,
        Immediate::Bit16(_) => MemoryOperandSize::Word,
    }
}

/// The value of an immediate, widened to 16 bits unsigned.
pub open spec fn spec_imm_value(imm: Immediate) -> u16 {
    match imm {
        Immediate::Bit8(v) => v as u16,
        Immediate::Bit16(v) => v,
    }
}

/// The transfer width an operand implies: the register's own width, the
/// memory operand's explicit width tag, or the immediate's encoded width.
pub open spec fn spec_operand_size(o: Operand) -> MemoryOperandSize {
    match o {
        Operand::Register(r) => spec_reg_size(r),
        Operand::Memory(m) => m.size,
        Operand::Immediate(imm) => spec_imm_size(imm),
    }
}

/// Reads the transfer width an operand implies.
fn operand_size(o: Operand) -> (s: MemoryOperandSize)
    ensures
        s == spec_operand_size(o),
{
    match o {
        Operand::Register(r) => match r {
            Register::AL | Register::CL | Register::DL | Register::BL => MemoryOperandSize::Byte,
            Register::AH | Register::CH | Register::DH | Register::BH => MemoryOperandSize::Byte,
            _ => MemoryOperandSize::Word,
        },
        Operand::Memory(m) => m.size,
        Operand::Immediate(imm) => match imm {
            Immediate::Bit8(_) => MemoryOperandSize::Byte,
            Immediate::Bit16(_) => MemoryOperandSize::Word,
        },
    }
}

/// The effective address of a memory operand: the sum of its base
/// registers and its signed displacement, in 16-bit wrapping arithmetic;
/// a direct address stands by itself.
pub open spec fn spec_effective_address(rf: RegisterFile, m: MemoryOperand) -> u16 {
    match m.kind {
        MemoryOperandKind::Direct_BX_SI => wrap16(rf.bx + rf.si),
        MemoryOperandKind::Direct_BX_DI => wrap16(rf.bx + rf.di),
        MemoryOperandKind::Direct_BP_SI => wrap16(rf.bp + rf.si),
        MemoryOperandKind::Direct_BP_DI => wrap16(rf.bp + rf.di),
        MemoryOperandKind::Direct_SI => rf.si,
        MemoryOperandKind::Direct_DI => rf.di,
        MemoryOperandKind::Direct_Address(a) => a,
        MemoryOperandKind::Direct_BX => rf.bx,
        MemoryOperandKind::Disp8_BX_SI(d) => wrap16(rf.bx + rf.si + d),
        MemoryOperandKind::Disp8_BX_DI(d) => wrap16(rf.bx + rf.di + d),
        MemoryOperandKind::Disp8_BP_SI(d) => wrap16(rf.bp + rf.si + d),
        MemoryOperandKind::Disp8_BP_DI(d) => wrap16(rf.bp + rf.di + d),
        MemoryOperandKind::Disp8_SI(d) => wrap16(rf.si + d),
        MemoryOperandKind::Disp8_DI(d) => wrap16(rf.di + d),
        MemoryOperandKind::Disp8_BP(d) => wrap16(rf.bp + d),
        MemoryOperandKind::Disp8_BX(d) => wrap16(rf.bx + d),
        MemoryOperandKind::Disp16_BX_SI(d) => wrap16(rf.bx + rf.si + d),
        MemoryOperandKind::Disp16_BX_DI(d) => wrap16(rf.bx + rf.di + d),
        MemoryOperandKind::Disp16_BP_SI(d) => wrap16(rf.bp + rf.si + d),
        MemoryOperandKind::Disp16_BP_DI(d) => wrap16(rf.bp + rf.di + d),
        MemoryOperandKind::Disp16_SI(d) => wrap16(rf.si + d),
        MemoryOperandKind::Disp16_DI(d) => wrap16(rf.di + d),
        MemoryOperandKind::Disp16_BP(d) => wrap16(rf.bp + d),
        MemoryOperandKind::Disp16_BX(d) => wrap16(rf.bx + d),
    }
}

/// Computes the effective address of a memory operand as an offset into
/// the flat memory array.
pub fn get_address_from_operand(register_file: &RegisterFile, memory_operand: MemoryOperand) -> (
    addr: usize)
    ensures
        addr == spec_effective_address(*register_file, memory_operand),
        addr < 0x10000,
{
    let rf = *register_file;
    let a: u16 = match memory_operand.kind {
        MemoryOperandKind::Direct_BX_SI => {
            proof {
                lemma_wrapping_add16(rf.bx, rf.si);
            }
            rf.bx.wrapping_add(rf.si)
        },
        MemoryOperandKind::Direct_BX_DI => {
            proof {
                lemma_wrapping_add16(rf.bx, rf.di);
            }
            rf.bx.wrapping_add(rf.di)
        },
        MemoryOperandKind::Direct_BP_SI => {
            proof {
                lemma_wrapping_add16(rf.bp, rf.si);
            }
            rf.bp.wrapping_add(rf.si)
        },
        MemoryOperandKind::Direct_BP_DI => {
            proof {
                lemma_wrapping_add16(rf.bp, rf.di);
            }
            rf.bp.wrapping_add(rf.di)
        },
        MemoryOperandKind::Direct_SI => rf.si,
        MemoryOperandKind::Direct_DI => rf.di,
        MemoryOperandKind::Direct_Address(a) => a,
        MemoryOperandKind::Direct_BX => rf.bx,
        MemoryOperandKind::Disp8_BX_SI(d) => {
            proof {
                lemma_wrapping_base_disp16(rf.bx, rf.si, d as i16);
            }
            rf.bx.wrapping_add(rf.si).wrapping_add_signed(d as i16)
        },
        MemoryOperandKind::Disp8_BX_DI(d) => {
            proof {
                lemma_wrapping_base_disp16(rf.bx, rf.di, d as i16);
            }
            rf.bx.wrapping_add(rf.di).wrapping_add_signed(d as i16)
        },
        MemoryOperandKind::Disp8_BP_SI(d) => {
            proof {
                lemma_wrapping_base_disp16(rf.bp, rf.si, d as i16);
            }
            rf.bp.wrapping_add(rf.si).wrapping_add_signed(d as i16)
        },
        MemoryOperandKind::Disp8_BP_DI(d) => {
            proof {
                lemma_wrapping_base_disp16(rf.bp, rf.di, d as i16);
            }
            rf.bp.wrapping_add(rf.di).wrapping_add_signed(d as i16)
        },
        MemoryOperandKind::Disp8_SI(d) => {
            proof {
                lemma_wrapping_add_signed16(rf.si, d as i16);
            }
            rf.si.wrapping_add_signed(d as i16)
        },
        MemoryOperandKind::Disp8_DI(d) => {
            proof {
                lemma_wrapping_add_signed16(rf.di, d as i16);
            }
            rf.di.wrapping_add_signed(d as i16)
        },
        MemoryOperandKind::Disp8_BP(d) => {
            proof {
                lemma_wrapping_add_signed16(rf.bp, d as i16);
            }
            rf.bp.wrapping_add_signed(d as i16)
        },
        MemoryOperandKind::Disp8_BX(d) => {
            proof {
                lemma_wrapping_add_signed16(rf.bx, d as i16);
            }
            rf.bx.wrapping_add_signed(d as i16)
        },
        MemoryOperandKind::Disp16_BX_SI(d) => {
            proof {
                lemma_wrapping_base_disp16(rf.bx, rf.si, d);
            }
            rf.bx.wrapping_add(rf.si).wrapping_add_signed(d)
        },
        MemoryOperandKind::Disp16_BX_DI(d) => {
            proof {
                lemma_wrapping_base_disp16(rf.bx, rf.di, d);
            }
            rf.bx.wrapping_add(rf.di).wrapping_add_signed(d)
        },
        MemoryOperandKind::Disp16_BP_SI(d) => {
            proof {
                lemma_wrapping_base_disp16(rf.bp, rf.si, d);
            }
            rf.bp.wrapping_add(rf.si).wrapping_add_signed(d)
        },
        MemoryOperandKind::Disp16_BP_DI(d) => {
            proof {
                lemma_wrapping_base_disp16(rf.bp, rf.di, d);
            }
            rf.bp.wrapping_add(rf.di).wrapping_add_signed(d)
        },
        MemoryOperandKind::Disp16_SI(d) => {
            proof {
                lemma_wrapping_add_signed16(rf.si, d);
            }
            rf.si.wrapping_add_signed(d)
        },
        MemoryOperandKind::Disp16_DI(d) => {
            proof {
                lemma_wrapping_add_signed16(rf.di, d);
            }
            rf.di.wrapping_add_signed(d)
        },
        MemoryOperandKind::Disp16_BP(d) => {
            proof {
                lemma_wrapping_add_signed16(rf.bp, d);
            }
            rf.bp.wrapping_add_signed(d)
        },
        MemoryOperandKind::Disp16_BX(d) => {
            proof {
                lemma_wrapping_add_signed16(rf.bx, d);
            }
            rf.bx.wrapping_add_signed(d)
        },
    };
    a as usize
}

/// The value read from memory at an address: one byte widened, or a
/// little-endian word.
pub open spec fn spec_mem_read(mem: Seq<u8>, addr: u16, size: MemoryOperandSize) -> u16 {
    match size {
        MemoryOperandSize::Byte => mem[addr as int] as u16,
        MemoryOperandSize::Word => spec_word_le(mem[addr as int], mem[addr as int + 1]),
    }
}

/// The memory after writing a value at an address: one byte, or a
/// little-endian word.
pub open spec fn spec_mem_write(mem: Seq<u8>, addr: u16, size: MemoryOperandSize, v: u16) -> Seq<
    u8,
> {
    match size {
        MemoryOperandSize::Byte => mem.update(addr as int, (v % 0x100) as u8),
        MemoryOperandSize::Word => mem.update(addr as int, (v % 0x100) as u8).update(
            addr as int + 1,
            (v / 0x100) as u8,
        ),
    }
}

/// Reads a byte or little-endian word from memory.
fn mem_read(memory: &Memory, addr: u16, size: MemoryOperandSize) -> (v: u16)
    requires
        memory.wf(),
    ensures
        v == spec_mem_read(memory@, addr, size),
{
    let a = addr as usize;
    match size {
        MemoryOperandSize::Byte => memory.data[a] as u16,
        MemoryOperandSize::Word => word_le(memory.data[a], memory.data[a + 1]),
    }
}

/// Writes a byte or little-endian word to memory.
fn mem_write(memory: &mut Memory, addr: u16, size: MemoryOperandSize, v: u16)
    requires
        old(memory).wf(),
    ensures
        final(memory).wf(),
        final(memory)@ == spec_mem_write(old(memory)@, addr, size, v),
{
    let a = addr as usize;
    match size {
        MemoryOperandSize::Byte => {
            memory.data[a] = (v % 0x100) as u8;
        },
        MemoryOperandSize::Word => {
            memory.data[a] = (v % 0x100) as u8;
            memory.data[a + 1] = (v / 0x100) as u8;
        },
    }
}

/// The register file with the instruction pointer advanced by an encoded
/// length, in 16-bit wrapping arithmetic.
pub open spec fn spec_advance_ip(rf: RegisterFile, length: u8) -> RegisterFile {
    RegisterFile { ip: wrap16(rf.ip + length), ..rf }
}

/// The MOV transition, applied after the instruction-pointer advance:
/// copies the source operand's value to the destination's location.
/// Memory-to-memory, an immediate destination, and differing source and
/// destination widths have no defined semantics.
pub open spec fn spec_mov(rf: RegisterFile, mem: Seq<u8>, dst: Operand, src: Operand) -> Option<
    (RegisterFile, Seq<u8>),
> {
    if dst is Memory && src is Memory {
        None
    } else if dst is Immediate {
        None
    } else if spec_operand_size(dst) != spec_operand_size(src) {
        None
    } else {
        let v = match src {
            Operand::Register(r) => spec_reg_read(rf, r),
            Operand::Memory(m) => spec_mem_read(mem, spec_effective_address(rf, m), m.size),
            Operand::Immediate(imm) => spec_imm_value(imm),
        };
        match dst {
            Operand::Register(r) => Some((spec_reg_write(rf, r, v), mem)),
            Operand::Memory(m) => Some(
                (rf, spec_mem_write(mem, spec_effective_address(rf, m), m.size, v)),
            ),
            Operand::Immediate(_) => None,
        }
    }
}

/// The source value an arithmetic instruction reads: a register at its
/// own width, or an immediate. An 8-bit immediate meeting a word-width
/// destination is sign-extended to 16 bits (the effect of the sign-extend
/// bit: it is the one form that pairs a single data byte with a word
/// register); against a byte destination it stands as is.
pub open spec fn spec_arith_src_value(rf: RegisterFile, src: Operand, wide: bool) -> u16 {
    match src {
        Operand::Register(r) => spec_reg_read(rf, r),
        Operand::Immediate(imm) => match imm {
            Immediate::Bit8(v) => if wide {
                (v as i8) as u16
            } else {
                v as u16
            },
            Immediate::Bit16(v) => v,
        },
        Operand::Memory(_) => 0u16,
    }
}

/// The ADD/SUB/CMP transition, applied after the instruction-pointer
/// advance: a 16-bit wrapping sum or difference, truncated to the
/// destination register's width, written back (except for CMP) and
/// reflected in the zero and sign flags. The source value follows
/// `spec_arith_src_value`, so an 8-bit immediate against a word register
/// is sign-extended. Only register destinations and register or immediate
/// sources have defined semantics.
pub open spec fn spec_arith(rf: RegisterFile, op: Op, dst: Operand, src: Operand) -> Option<
    RegisterFile,
> {
    if src is Memory {
        None
    } else {
        match dst {
            Operand::Register(r) => {
                let src_val = spec_arith_src_value(rf, src, reg_is_wide(r));
                let dest_val = spec_reg_read(rf, r);
                let full = if op is Add {
                    wrap16(dest_val + src_val)
                } else {
                    wrap16(dest_val - src_val)
                };
                let result = if reg_is_wide(r) {
                    full
                } else {
                    (full % 0x100) as u16
                };
                let zero = result == 0;
                let sign = if reg_is_wide(r) {
                    result >= 0x8000
                } else {
                    result >= 0x80
                };
                let rf1 = if op is Cmp {
                    rf
                } else {
                    spec_reg_write(rf, r, result)
                };
                Some(RegisterFile { flags: spec_set_flags(rf1.flags, zero, sign), ..rf1 })
            },
            _ => None,
        }
    }
}

/// The JNE transition, applied after the instruction-pointer advance: when
/// the zero flag is clear, the signed 8-bit displacement is added to the
/// already-advanced instruction pointer, in 16-bit wrapping arithmetic.
pub open spec fn spec_jne(rf: RegisterFile, operand: Option<Operand>) -> Option<RegisterFile> {
    match operand {
        Some(Operand::Immediate(Immediate::Bit8(d))) => {
            if rf.flags & ZF_MASK == 0 {
                Some(RegisterFile { ip: wrap16(rf.ip + (d as i8)), ..rf })
            } else {
                Some(rf)
            }
        },
        _ => None,
    }
}

/// Whether an operation belongs to the executed subset (the rest of the
/// jump/loop family is decoded but not executed).
pub open spec fn spec_op_executable(op: Op) -> bool {
    match op {
        Op::Mov | Op::Add | Op::Sub | Op::Cmp | Op::Jne => true,
        _ => false,
    }
}

/// The machine transition of one instruction: the instruction pointer is
/// advanced by the encoded length first, then the operation's effect is
/// applied. `None` when the instruction is outside the executed subset or
/// its operands have no defined semantics.
pub open spec fn spec_step(rf: RegisterFile, mem: Seq<u8>, i: Instruction) -> Option<
    (RegisterFile, Seq<u8>),
> {
    let rf1 = spec_advance_ip(rf, i.length);
    match i.op {
        Op::Mov => match (i.operands[0], i.operands[1]) {
            (Some(dst), Some(src)) => spec_mov(rf1, mem, dst, src),
            _ => None,
        },
        Op::Add | Op::Sub | Op::Cmp => match (i.operands[0], i.operands[1]) {
            (Some(dst), Some(src)) => match spec_arith(rf1, i.op, dst, src) {
                Some(rf2) => Some((rf2, mem)),
                None => None,
            },
            _ => None,
        },
        Op::Jne => match spec_jne(rf1, i.operands[0]) {
            Some(rf2) => Some((rf2, mem)),
            None => None,
        },
        _ => None,
    }
}

/// Executes one instruction against the machine state.
///
/// Succeeds exactly when `spec_step` defines a transition; the new state
/// then is that transition's result. On failure nothing changes, and the
/// error says whether the operation itself or its operand pairing was
/// unsupported.
pub fn simulate(registers: &mut RegisterFile, memory: &mut Memory, instruction: Instruction) -> (r:
    Result<(), ExecError>)
    requires
        old(memory).wf(),
    ensures
        final(memory).wf(),
        r is Ok <==> spec_step(*old(registers), old(memory)@, instruction) is Some,
        r matches Ok(()) ==> spec_step(*old(registers), old(memory)@, instruction) == Some(
            (*final(registers), final(memory)@),
        ),
        r matches Err(e) ==> {
            &&& *final(registers) == *old(registers)
            &&& final(memory)@ == old(memory)@
            &&& (e == ExecError::UnsupportedOp <==> !spec_op_executable(instruction.op))
            &&& (e == ExecError::UnsupportedOperands <==> spec_op_executable(instruction.op))
        },
{
    let mut rf = *registers;
    proof {
        lemma_wrapping_add16(rf.ip, instruction.length as u16);
    }
    rf.ip = rf.ip.wrapping_add(instruction.length as u16);
    match instruction.op {
        Op::Mov => {
            let (dst, src) = match (instruction.operands[0], instruction.operands[1]) {
                (Some(a), Some(b)) => (a, b),
                _ => {
                    return Err(ExecError::UnsupportedOperands);
                },
            };
            if matches!(dst, Operand::Memory(_)) && matches!(src, Operand::Memory(_)) {
                return Err(ExecError::UnsupportedOperands);
            }
            if matches!(dst, Operand::Immediate(_)) {
                return Err(ExecError::UnsupportedOperands);
            }
            if operand_size(dst) != operand_size(src) {
                return Err(ExecError::UnsupportedOperands);
            }
            let v: u16 = match src {
                Operand::Register(r) => get_register_value(&rf, r),
                Operand::Memory(m) => {
                    let addr = get_address_from_operand(&rf, m);
                    mem_read(memory, addr as u16, m.size)
                },
                Operand::Immediate(imm) => match imm {
                    Immediate::Bit8(x) => x as u16,
                    Immediate::Bit16(x) => x,
                },
            };
            match dst {
                Operand::Register(r) => {
                    set_register_value(&mut rf, r, v);
                    *registers = rf;
                    Ok(())
                },
                Operand::Memory(m) => {
                    let addr = get_address_from_operand(&rf, m);
                    mem_write(memory, addr as u16, m.size, v);
                    *registers = rf;
                    Ok(())
                },
                Operand::Immediate(_) => Err(ExecError::UnsupportedOperands),
            }
        },
        Op::Add | Op::Sub | Op::Cmp => {
            let (dst, src) = match (instruction.operands[0], instruction.operands[1]) {
                (Some(a), Some(b)) => (a, b),
                _ => {
                    return Err(ExecError::UnsupportedOperands);
                },
            };
            if matches!(src, Operand::Memory(_)) {
                return Err(ExecError::UnsupportedOperands);
            }
            match dst {
                Operand::Register(r) => {
                    let wide = matches!(operand_size(dst), MemoryOperandSize::Word);
                    let src_val: u16 = match src {
                        Operand::Register(r2) => get_register_value(&rf, r2),
                        Operand::Immediate(imm) => match imm {
                            Immediate::Bit8(x) => {
                                if wide {
                                    (x as i8) as u16
                                } else {
                                    x as u16
                                }
                            },
                            Immediate::Bit16(x) => x,
                        },
                        Operand::Memory(_) => {
                            return Err(ExecError::UnsupportedOperands);
                        },
                    };
                    let dest_val = get_register_value(&rf, r);
                    let full: u16 = match instruction.op {
                        Op::Add => {
                            proof {
                                lemma_wrapping_add16(dest_val, src_val);
                            }
                            dest_val.wrapping_add(src_val)
                        },
                        _ => {
                            proof {
                                lemma_wrapping_sub16(dest_val, src_val);
                            }
                            dest_val.wrapping_sub(src_val)
                        },
                    };
                    let result: u16 = if wide {
                        full
                    } else {
                        full % 0x100
                    };
                    let zero = result == 0;
                    let sign = if wide {
                        result >= 0x8000
                    } else {
                        result >= 0x80
                    };
                    if !matches!(instruction.op, Op::Cmp) {
                        set_register_value(&mut rf, r, result);
                    }
                    set_flags(&mut rf.flags, zero, sign);
                    *registers = rf;
                    Ok(())
                },
                _ => Err(ExecError::UnsupportedOperands),
            }
        },
        Op::Jne => {
            let d: u8 = match instruction.operands[0] {
                Some(Operand::Immediate(Immediate::Bit8(d))) => d,
                _ => {
                    return Err(ExecError::UnsupportedOperands);
                },
            };
            if rf.flags & ZF_MASK == 0 {
                proof {
                    lemma_wrapping_add_signed16(rf.ip, (d as i8) as i16);
                }
                rf.ip = rf.ip.wrapping_add_signed((d as i8) as i16);
            }
            *registers = rf;
            Ok(())
        },
        _ => Err(ExecError::UnsupportedOp),
    }
}

/// The rewritten flags word has its zero bit exactly when the result was
/// zero, its sign bit exactly when the sign was computed, and every other
/// bit as before.
pub proof fn lemma_set_flags_bits(f: u16, z: bool, s: bool)
    by (bit_vector)
    ensures
        spec_set_flags(f, z, s) & ZF_MASK == (if z {
            ZF_MASK
        } else {
            0u16
        }),
        spec_set_flags(f, z, s) & SF_MASK == (if s {
            SF_MASK
        } else {
            0u16
        }),
        spec_set_flags(f, z, s) & !(ZF_MASK | SF_MASK) == f & !(ZF_MASK | SF_MASK),
{
}

/// Flag semantics of SUB with destination equal to source: the difference
/// is zero, so the zero flag is set and the sign flag cleared, whatever
/// the register and its prior value.
pub proof fn lemma_sub_equal_operands_flags(rf: RegisterFile, r: Register)
    ensures
        spec_arith(rf, Op::Sub, Operand::Register(r), Operand::Register(r)) is Some,
        ({
            let rf2 = spec_arith(rf, Op::Sub, Operand::Register(r), Operand::Register(r)).unwrap();
            &&& rf2.flags & ZF_MASK == ZF_MASK
            &&& rf2.flags & SF_MASK == 0
        }),
{
    let v = spec_reg_read(rf, r);
    lemma_wrap16_small(0);
    assert(wrap16(v - v) == 0);
    lemma_set_flags_bits(rf.flags, true, false);
}

/// Flag semantics of SUB with a negative signed byte result: the
/// most-significant bit of the truncated byte is set, so the sign flag is
/// set and the zero flag cleared.
pub proof fn lemma_sub_negative_byte_flags(rf: RegisterFile, r: Register, src: Operand)
    requires
        !reg_is_wide(r),
        src is Register || src is Immediate,
        wrap16(spec_reg_read(rf, r) - spec_arith_src_value(rf, src, false)) % 0x100 >= 0x80,
    ensures
        spec_arith(rf, Op::Sub, Operand::Register(r), src) is Some,
        ({
            let rf2 = spec_arith(rf, Op::Sub, Operand::Register(r), src).unwrap();
            &&& rf2.flags & SF_MASK == SF_MASK
            &&& rf2.flags & ZF_MASK == 0
        }),
{
    lemma_set_flags_bits(rf.flags, false, true);
}

/// Relative-jump direction (JNE): when the zero flag is clear, the new
/// instruction pointer is the address immediately after the instruction
/// (old pointer plus encoded length) plus the signed displacement, in
/// 16-bit wrapping arithmetic; when the flag is set, it is just the
/// address after the instruction.
pub proof fn lemma_jne_displacement(rf: RegisterFile, mem: Seq<u8>, length: u8, d: u8)
    ensures
        ({
            let i = Instruction {
                op: Op::Jne,
                length,
                operands: [Some(Operand::Immediate(Immediate::Bit8(d))), None],
            };
            &&& (rf.flags & ZF_MASK == 0 ==> spec_step(rf, mem, i) == Some(
                (RegisterFile { ip: wrap16(rf.ip + length + (d as i8)), ..rf }, mem),
            ))
            &&& (rf.flags & ZF_MASK != 0 ==> spec_step(rf, mem, i) == Some(
                (RegisterFile { ip: wrap16(rf.ip + length), ..rf }, mem),
            ))
        }),
{
    lemma_add_mod_noop_right((d as i8) as int, rf.ip + length, 0x10000);
}

/// Straight-line advance: every defined transition that is not a taken
/// JNE leaves the instruction pointer at the old pointer plus the encoded
/// length (reduced to 16 bits). While pointer plus length stays within
/// 16 bits and the length is at least one — true of every decoded
/// instruction inside a 64 KiB image — the pointer strictly increases, so
/// a fetch loop bounded by the image length halts exactly when the
/// pointer reaches it.
pub proof fn lemma_straight_line_ip_advance(rf: RegisterFile, mem: Seq<u8>, i: Instruction)
    requires
        spec_step(rf, mem, i) is Some,
        !(i.op == Op::Jne && rf.flags & ZF_MASK == 0),
    ensures
        spec_step(rf, mem, i).unwrap().0.ip == wrap16(rf.ip + i.length),
        rf.ip + i.length <= 0xFFFF && i.length >= 1 ==> spec_step(rf, mem, i).unwrap().0.ip
            > rf.ip,
{
    if rf.ip + i.length <= 0xFFFF {
        lemma_wrap16_small(rf.ip + i.length);
    }
}

/// The wrapping 16-bit difference equals the exact difference reduced by
/// `wrap16`.
proof fn lemma_wrapping_sub16(x: u16, y: u16)
    ensures
        vstd::wrapping::u16_specs::wrapping_sub(x, y) == wrap16(x - y),
{
    if x - y >= 0 {
        lemma_wrap16_small(x - y);
    } else {
        lemma_wrap16_shift(x - y);
        lemma_wrap16_small(x - y + 0x10000);
    }
}

} // verus!
