//! Core of a small 8086 emulator: a decoder that turns raw bytes into
//! structured instructions, and a simulator that applies one instruction to
//! the architectural state (registers, flags, byte-addressable memory).
//!
//! The covered subset is MOV/ADD/SUB/CMP plus the conditional-jump and loop
//! family (decoded; only JNE is executed). Everything here is pure
//! computation over plain values; reading program images and writing dumps
//! is left to the caller.

use vstd::prelude::*;

pub mod decoder;
pub mod render;
pub mod runner;
pub mod simulator;

pub use decoder::DecodeError;
pub use decoder::decode_instruction;
pub use simulator::ExecError;
pub use simulator::simulate;
pub use runner::RunError;
pub use runner::disassemble;
pub use runner::run;

verus! {

/// Mask of the zero-flag bit inside `RegisterFile::flags`.
pub const ZF_MASK: u16 = 0x8;

/// Mask of the sign-flag bit inside `RegisterFile::flags`.
pub const SF_MASK: u16 = 0x10;

/// Capacity of the flat memory array, in bytes (1 MiB).
pub const MEMORY_SIZE: usize = 0x100000;

/// The complete visible architectural state: four general word registers,
/// four pointer/index registers, the instruction pointer and the flags word.
///
/// Byte registers (AL/AH and friends) are not stored separately: they are
/// views of the low/high half of their parent word register, so writing one
/// half can never disturb the other.
#[derive(Debug, Clone, Copy, PartialEq, Eq, Structural)]
pub struct RegisterFile {
    pub ax: u16,
    pub bx: u16,
    pub cx: u16,
    pub dx: u16,

    pub sp: u16,
    pub bp: u16,
    pub si: u16,
    pub di: u16,

    pub ip: u16,
    pub flags: u16,
}

impl Default for RegisterFile {
    /// All registers, the instruction pointer and the flags start at zero.
    fn default() -> (r: RegisterFile)
        ensures
            r == (RegisterFile {
                ax: 0u16,
                bx: 0u16,
                cx: 0u16,
                dx: 0u16,
                sp: 0u16,
                bp: 0u16,
                si: 0u16,
                di: 0u16,
                ip: 0u16,
                flags: 0u16,
            }),
    {
        RegisterFile {
            ax: 0,
            bx: 0,
            cx: 0,
            dx: 0,
            sp: 0,
            bp: 0,
            si: 0,
            di: 0,
            ip: 0,
            flags: 0,
        }
    }
}

/// One of the sixteen register names: eight byte-width halves followed by
/// the eight word-width registers.
#[derive(Debug, Clone, Copy, PartialEq, Eq, Structural)]
pub enum Register {
    AL,
    CL,
    DL,
    BL,
    AH,
    CH,
    DH,
    BH,

    AX,
    CX,
    DX,
    BX,
    SP,
    BP,
    SI,
    DI,
}

/// A literal operand, tagged by its encoded width.
#[derive(Debug, Clone, Copy, PartialEq, Eq, Structural)]
pub enum Immediate {
    Bit8(u8),
    Bit16(u16),
}

/// Explicit width of a memory transfer.
#[derive(Debug, Clone, Copy, PartialEq, Eq, Structural)]
pub enum MemoryOperandSize {
    Word,
    Byte,
}

/// The operand width a width bit selects: byte for 0, word for 1.
pub open spec fn spec_size_from_w(w: u8) -> MemoryOperandSize {
    if w == 0 {
        MemoryOperandSize::Byte
    } else {
        MemoryOperandSize::Word
    }
}

impl MemoryOperandSize {
    /// The operand width a width bit selects.
    pub fn from_w_bit(w: u8) -> (s: MemoryOperandSize)
        requires
            w < 2,
        ensures
            s == spec_size_from_w(w),
    {
        match w {
            0 => MemoryOperandSize::Byte,
            _ => MemoryOperandSize::Word,
        }
    }
}

/// Addressing form of a memory operand: one of the eight base-register
/// combinations, crossed with the displacement class (none, signed 8-bit,
/// signed 16-bit). `Direct_Address` is the mod=00, rm=110 special case: a
/// bare 16-bit address in place of the base-less BP form.
#[allow(non_camel_case_types)]
#[derive(Debug, Clone, Copy, PartialEq, Eq, Structural)]
pub enum MemoryOperandKind {
    Direct_BX_SI,
    Direct_BX_DI,
    Direct_BP_SI,
    Direct_BP_DI,
    Direct_SI,
    Direct_DI,
    Direct_Address(u16),
    Direct_BX,

    Disp8_BX_SI(i8),
    Disp8_BX_DI(i8),
    Disp8_BP_SI(i8),
    Disp8_BP_DI(i8),
    Disp8_SI(i8),
    Disp8_DI(i8),
    Disp8_BP(i8),
    Disp8_BX(i8),

    Disp16_BX_SI(i16),
    Disp16_BX_DI(i16),
    Disp16_BP_SI(i16),
    Disp16_BP_DI(i16),
    Disp16_SI(i16),
    Disp16_DI(i16),
    Disp16_BP(i16),
    Disp16_BX(i16),
}

/// A memory reference: addressing form plus explicit transfer width.
#[derive(Debug, Clone, Copy, PartialEq, Eq, Structural)]
pub struct MemoryOperand {
    pub kind: MemoryOperandKind,
    pub size: MemoryOperandSize,
}

/// Base-register combinations of the no-displacement addressing class.
#[allow(non_camel_case_types)]
#[derive(Debug, Clone, Copy, PartialEq, Eq, Structural)]
pub enum MemoryDirect {
    BX_SI,
    BX_DI,
    BP_SI,
    BP_DI,
    SI,
    DI,
    DirectAddress(u16),
    BX,
}

/// Base-register combinations of the 8-bit-displacement addressing class.
#[allow(non_camel_case_types)]
#[derive(Debug, Clone, Copy, PartialEq, Eq, Structural)]
pub enum MemoryDisplacement8bit {
    BX_SI(i8),
    BX_DI(i8),
    BP_SI(i8),
    BP_DI(i8),
    SI(i8),
    DI(i8),
    BP(i8),
    BX(i8),
}

/// Base-register combinations of the 16-bit-displacement addressing class.
#[allow(non_camel_case_types)]
#[derive(Debug, Clone, Copy, PartialEq, Eq, Structural)]
pub enum MemoryDisplacement16bit {
    BX_SI(i16),
    BX_DI(i16),
    BP_SI(i16),
    BP_DI(i16),
    SI(i16),
    DI(i16),
    BP(i16),
    BX(i16),
}

/// An instruction operand: a register, a memory reference or an immediate.
#[derive(Debug, Clone, Copy, PartialEq, Eq, Structural)]
pub enum Operand {
    Register(Register),
    Memory(MemoryOperand),
    Immediate(Immediate),
}

/// Operation tag of a decoded instruction.
#[derive(Debug, Clone, Copy, PartialEq, Eq, Structural)]
pub enum Op {
    Mov,
    Add,
    Sub,
    Cmp,
    Je,
    Jl,
    Jle,
    Jb,
    Jbe,
    Jp,
    Jo,
    Js,
    Jne,
    Jnl,
    Jg,
    Jnb,
    Ja,
    Jnp,
    Jno,
    Jns,
    Loop,
    Loopz,
    Loopnz,
    Jcxz,
}

/// One decoded instruction: operation tag, exact encoded byte length, and up
/// to two operands (destination first, then source).
#[derive(Debug, Clone, Copy, PartialEq, Eq)]
pub struct Instruction {
    pub op: Op,
    pub length: u8,
    pub operands: [Option<Operand>; 2],
}

/// The flat, byte-addressable memory: a zero-initialized array of
/// `MEMORY_SIZE` bytes, addressed by 16-bit offsets.
pub struct Memory {
    pub data: Vec<u8>,
}

impl View for Memory {
    type V = Seq<u8>;

    open spec fn view(&self) -> Seq<u8> {
        self.data@
    }
}

impl Memory {
    /// A memory value is well formed when it has its full fixed capacity.
    pub open spec fn wf(&self) -> bool {
        self.data.len() == MEMORY_SIZE
    }

    /// Fresh memory: full capacity, every byte zero.
    pub fn new() -> (m: Memory)
        ensures
            m.wf(),
            m@ == Seq::new(MEMORY_SIZE as nat, |i: int| 0u8),
    {
        let mut data: Vec<u8> = Vec::new();
        let mut i: usize = 0;
        while i < MEMORY_SIZE
            invariant
                i <= MEMORY_SIZE,
                data@ == Seq::new(i as nat, |j: int| 0u8),
            decreases MEMORY_SIZE - i,
        {
            data.push(0u8);
            proof {
                assert(data@ =~= Seq::new((i + 1) as nat, |j: int| 0u8));
            }
            i = i + 1;
        }
        Memory { data }
    }
}

/// Whether a register name covers a full 16-bit word (as opposed to one of
/// the byte-width halves).
pub open spec fn reg_is_wide(r: Register) -> bool {
    match r {
        Register::AL | Register::CL | Register::DL | Register::BL => false,
        Register::AH | Register::CH | Register::DH | Register::BH => false,
        _ => true,
    }
}

/// The value a register name denotes: the full word for word registers, the
/// low or high half (as a value below 256) for byte registers.
pub open spec fn spec_reg_read(rf: RegisterFile, r: Register) -> u16 {
    match r {
        Register::AL => (rf.ax % 0x100) as u16,
        Register::CL => (rf.cx % 0x100) as u16,
        Register::DL => (rf.dx % 0x100) as u16,
        Register::BL => (rf.bx % 0x100) as u16,
        Register::AH => (rf.ax / 0x100) as u16,
        Register::CH => (rf.cx / 0x100) as u16,
        Register::DH => (rf.dx / 0x100) as u16,
        Register::BH => (rf.bx / 0x100) as u16,
        Register::AX => rf.ax,
        Register::CX => rf.cx,
        Register::DX => rf.dx,
        Register::BX => rf.bx,
        Register::SP => rf.sp,
        Register::BP => rf.bp,
        Register::SI => rf.si,
        Register::DI => rf.di,
    }
}

/// A word register with its low byte replaced.
pub open spec fn word_with_low(word: u16, v: u16) -> u16 {
    ((word / 0x100) * 0x100 + v % 0x100) as u16
}

/// A word register with its high byte replaced.
pub open spec fn word_with_high(word: u16, v: u16) -> u16 {
    ((v % 0x100) * 0x100 + word % 0x100) as u16
}

/// The register file after writing `v` to register `r`. Word registers take
/// the full value; byte registers take `v % 256` into their own half of the
/// parent word, leaving the sibling half untouched.
pub open spec fn spec_reg_write(rf: RegisterFile, r: Register, v: u16) -> RegisterFile {
    match r {
        Register::AL => RegisterFile { ax: word_with_low(rf.ax, v), ..rf },
        Register::CL => RegisterFile { cx: word_with_low(rf.cx, v), ..rf },
        Register::DL => RegisterFile { dx: word_with_low(rf.dx, v), ..rf },
        Register::BL => RegisterFile { bx: word_with_low(rf.bx, v), ..rf },
        Register::AH => RegisterFile { ax: word_with_high(rf.ax, v), ..rf },
        Register::CH => RegisterFile { cx: word_with_high(rf.cx, v), ..rf },
        Register::DH => RegisterFile { dx: word_with_high(rf.dx, v), ..rf },
        Register::BH => RegisterFile { bx: word_with_high(rf.bx, v), ..rf },
        Register::AX => RegisterFile { ax: v, ..rf },
        Register::CX => RegisterFile { cx: v, ..rf },
        Register::DX => RegisterFile { dx: v, ..rf },
        Register::BX => RegisterFile { bx: v, ..rf },
        Register::SP => RegisterFile { sp: v, ..rf },
        Register::BP => RegisterFile { bp: v, ..rf },
        Register::SI => RegisterFile { si: v, ..rf },
        Register::DI => RegisterFile { di: v, ..rf },
    }
}

/// Byte-register aliasing: writing AL changes only the low byte of AX, so a
/// later read of AH sees the old high byte, and a read of AX sees the new
/// low byte under the old high byte; symmetrically for a write of AH.
pub proof fn lemma_byte_register_aliasing(rf: RegisterFile, v: u16)
    ensures
        spec_reg_read(spec_reg_write(rf, Register::AL, v), Register::AH) == spec_reg_read(
            rf,
            Register::AH,
        ),
        spec_reg_read(spec_reg_write(rf, Register::AL, v), Register::AL) == v % 0x100,
        spec_reg_read(spec_reg_write(rf, Register::AL, v), Register::AX) == spec_reg_read(
            rf,
            Register::AH,
        ) * 0x100 + v % 0x100,
        spec_reg_read(spec_reg_write(rf, Register::AH, v), Register::AL) == spec_reg_read(
            rf,
            Register::AL,
        ),
        spec_reg_read(spec_reg_write(rf, Register::AH, v), Register::AH) == v % 0x100,
{
    lemma_half_write_facts(rf.ax, v);
}

/// Div/mod facts behind byte-register writes: replacing one half of a word
/// stays within 16 bits and leaves the other half as it was.
pub(crate) proof fn lemma_half_write_facts(word: u16, v: u16)
    by (nonlinear_arith)
    ensures
        (word / 0x100) * 0x100 + v % 0x100 <= 0xFFFF,
        ((word / 0x100) * 0x100 + v % 0x100) / 0x100 == word / 0x100,
        ((word / 0x100) * 0x100 + v % 0x100) % 0x100 == v % 0x100,
        (v % 0x100) * 0x100 + word % 0x100 <= 0xFFFF,
        ((v % 0x100) * 0x100 + word % 0x100) % 0x100 == word % 0x100,
        ((v % 0x100) * 0x100 + word % 0x100) / 0x100 == v % 0x100,
        (word / 0x100) * 0x100 + word % 0x100 == word,
{
}

} // verus!
