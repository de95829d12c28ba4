//! Textual rendering of decoded instructions, for disassembly listings.
//! The grammar is `<mnemonic> <dest>[, <src>]`; registers print their
//! lowercase names, memory operands print `<width> [<base-expression>]`,
//! displacements carry an explicit sign, immediates print `byte <value>`
//! or `word <value>`.

use vstd::prelude::*;

use crate::Immediate;
use crate::Instruction;
use crate::MemoryOperand;
use crate::MemoryOperandKind;
use crate::MemoryOperandSize;
use crate::Op;
use crate::Operand;
use crate::Register;

verus! {

/// The decimal digit character for a value below ten.
pub open spec fn spec_digit_char(d: nat) -> char {
    if d == 0 {
        '0'
    } else if d == 1 {
        '1'
    } else if d == 2 {
        '2'
    } else if d == 3 {
        '3'
    } else if d == 4 {
        '4'
    } else if d == 5 {
        '5'
    } else if d == 6 {
        '6'
    } else if d == 7 {
        '7'
    } else if d == 8 {
        '8'
    } else {
        '9'
    }
}

/// The decimal rendering of a natural number, most significant digit
/// first, with no leading zeros (a single `0` for zero itself).
pub open spec fn spec_decimal(n: nat) -> Seq<char>
    decreases n,
{
    if n < 10 {
        seq![spec_digit_char(n)]
    } else {
        spec_decimal(n / 10) + seq![spec_digit_char(n % 10)]
    }
}

/// The rendering of a signed displacement: an explicit `+` or `-` sign
/// followed by the decimal magnitude.
pub open spec fn spec_signed_decimal(d: int) -> Seq<char> {
    if d >= 0 {
        seq!['+'] + spec_decimal(d as nat)
    } else {
        seq!['-'] + spec_decimal((-d) as nat)
    }
}

/// The lowercase mnemonic of an operation.
pub open spec fn spec_mnemonic(op: Op) -> Seq<char> {
    match op {
        Op::Mov => "mov"@,
        Op::Add => "add"@,
        Op::Sub => "sub"@,
        Op::Cmp => "cmp"@,
        Op::Je => "je"@,
        Op::Jl => "jl"@,
        Op::Jle => "jle"@,
        Op::Jb => "jb"@,
        Op::Jbe => "jbe"@,
        Op::Jp => "jp"@,
        Op::Jo => "jo"@,
        Op::Js => "js"@,
        Op::Jne => "jne"@,
        Op::Jnl => "jnl"@,
        Op::Jg => "jg"@,
        Op::Jnb => "jnb"@,
        Op::Ja => "ja"@,
        Op::Jnp => "jnp"@,
        Op::Jno => "jno"@,
        Op::Jns => "jns"@,
        Op::Loop => "loop"@,
        Op::Loopz => "loopz"@,
        Op::Loopnz => "loopnz"@,
        Op::Jcxz => "jcxz"@,
    }
}

/// The lowercase name of a register.
pub open spec fn spec_reg_name(r: Register) -> Seq<char> {
    match r {
        Register::AL => "al"@,
        Register::CL => "cl"@,
        Register::DL => "dl"@,
        Register::BL => "bl"@,
        Register::AH => "ah"@,
        Register::CH => "ch"@,
        Register::DH => "dh"@,
        Register::BH => "bh"@,
        Register::AX => "ax"@,
        Register::CX => "cx"@,
        Register::DX => "dx"@,
        Register::BX => "bx"@,
        Register::SP => "sp"@,
        Register::BP => "bp"@,
        Register::SI => "si"@,
        Register::DI => "di"@,
    }
}

/// The width word of a memory transfer.
pub open spec fn spec_size_name(s: MemoryOperandSize) -> Seq<char> {
    match s {
        MemoryOperandSize::Byte => "byte"@,
        MemoryOperandSize::Word => "word"@,
    }
}

/// The bracketed part of a memory operand: a base-register combination, a
/// bare decimal address, or a base followed by a signed displacement.
pub open spec fn spec_base_expr(kind: MemoryOperandKind) -> Seq<char> {
    match kind {
        MemoryOperandKind::Direct_BX_SI => "bx + si"@,
        MemoryOperandKind::Direct_BX_DI => "bx + di"@,
        MemoryOperandKind::Direct_BP_SI => "bp + si"@,
        MemoryOperandKind::Direct_BP_DI => "bp + di"@,
        MemoryOperandKind::Direct_SI => "si"@,
        MemoryOperandKind::Direct_DI => "di"@,
        MemoryOperandKind::Direct_Address(a) => spec_decimal(a as nat),
        MemoryOperandKind::Direct_BX => "bx"@,
        MemoryOperandKind::Disp8_BX_SI(d) => "bx + si "@ + spec_signed_decimal(d as int),
        MemoryOperandKind::Disp8_BX_DI(d) => "bx + di "@ + spec_signed_decimal(d as int),
        MemoryOperandKind::Disp8_BP_SI(d) => "bp + si "@ + spec_signed_decimal(d as int),
        MemoryOperandKind::Disp8_BP_DI(d) => "bp + di "@ + spec_signed_decimal(d as int),
        MemoryOperandKind::Disp8_SI(d) => "si "@ + spec_signed_decimal(d as int),
        MemoryOperandKind::Disp8_DI(d) => "di "@ + spec_signed_decimal(d as int),
        MemoryOperandKind::Disp8_BP(d) => "bp "@ + spec_signed_decimal(d as int),
        MemoryOperandKind::Disp8_BX(d) => "bx "@ + spec_signed_decimal(d as int),
        MemoryOperandKind::Disp16_BX_SI(d) => "bx + si "@ + spec_signed_decimal(d as int),
        MemoryOperandKind::Disp16_BX_DI(d) => "bx + di "@ + spec_signed_decimal(d as int),
        MemoryOperandKind::Disp16_BP_SI(d) => "bp + si "@ + spec_signed_decimal(d as int),
        MemoryOperandKind::Disp16_BP_DI(d) => "bp + di "@ + spec_signed_decimal(d as int),
        MemoryOperandKind::Disp16_SI(d) => "si "@ + spec_signed_decimal(d as int),
        MemoryOperandKind::Disp16_DI(d) => "di "@ + spec_signed_decimal(d as int),
        MemoryOperandKind::Disp16_BP(d) => "bp "@ + spec_signed_decimal(d as int),
        MemoryOperandKind::Disp16_BX(d) => "bx "@ + spec_signed_decimal(d as int),
    }
}

/// The rendering of a memory operand: its width word, then the bracketed
/// base expression.
pub open spec fn spec_render_mem(m: MemoryOperand) -> Seq<char> {
    spec_size_name(m.size) + " ["@ + spec_base_expr(m.kind) + "]"@
}

/// The rendering of one operand.
pub open spec fn spec_render_operand(o: Operand) -> Seq<char> {
    match o {
        Operand::Register(r) => spec_reg_name(r),
        Operand::Memory(m) => spec_render_mem(m),
        Operand::Immediate(Immediate::Bit8(v)) => "byte "@ + spec_decimal(v as nat),
        Operand::Immediate(Immediate::Bit16(v)) => "word "@ + spec_decimal(v as nat),
    }
}

/// The rendering of a whole instruction: the mnemonic, then the operands
/// that are present, the destination first.
pub open spec fn spec_render_instruction(i: Instruction) -> Seq<char> {
    let head = spec_mnemonic(i.op);
    let with_dst = match i.operands[0] {
        Some(o) => head + " "@ + spec_render_operand(o),
        None => head,
    };
    match i.operands[1] {
        Some(o) => with_dst + ", "@ + spec_render_operand(o),
        None => with_dst,
    }
}

/// Rendering names the operation: distinct operations render distinct
/// mnemonics, so the mnemonic of a rendered instruction identifies the
/// operation the decoded bytes encode.
pub proof fn lemma_mnemonics_distinct(o1: Op, o2: Op)
    requires
        o1 != o2,
    ensures
        spec_mnemonic(o1) != spec_mnemonic(o2),
{
    reveal_strlit("mov");
    reveal_strlit("add");
    reveal_strlit("sub");
    reveal_strlit("cmp");
    reveal_strlit("je");
    reveal_strlit("jl");
    reveal_strlit("jle");
    reveal_strlit("jb");
    reveal_strlit("jbe");
    reveal_strlit("jp");
    reveal_strlit("jo");
    reveal_strlit("js");
    reveal_strlit("jne");
    reveal_strlit("jnl");
    reveal_strlit("jg");
    reveal_strlit("jnb");
    reveal_strlit("ja");
    reveal_strlit("jnp");
    reveal_strlit("jno");
    reveal_strlit("jns");
    reveal_strlit("loop");
    reveal_strlit("loopz");
    reveal_strlit("loopnz");
    reveal_strlit("jcxz");
    assert("mov"@.len() == 3 && "mov"@[0] == 'm' && "mov"@[1] == 'o' && "mov"@[2] == 'v');
    assert("add"@.len() == 3 && "add"@[0] == 'a' && "add"@[1] == 'd' && "add"@[2] == 'd');
    assert("sub"@.len() == 3 && "sub"@[0] == 's' && "sub"@[1] == 'u' && "sub"@[2] == 'b');
    assert("cmp"@.len() == 3 && "cmp"@[0] == 'c' && "cmp"@[1] == 'm' && "cmp"@[2] == 'p');
    assert("je"@.len() == 2 && "je"@[0] == 'j' && "je"@[1] == 'e');
    assert("jl"@.len() == 2 && "jl"@[0] == 'j' && "jl"@[1] == 'l');
    assert("jle"@.len() == 3 && "jle"@[0] == 'j' && "jle"@[1] == 'l' && "jle"@[2] == 'e');
    assert("jb"@.len() == 2 && "jb"@[0] == 'j' && "jb"@[1] == 'b');
    assert("jbe"@.len() == 3 && "jbe"@[0] == 'j' && "jbe"@[1] == 'b' && "jbe"@[2] == 'e');
    assert("jp"@.len() == 2 && "jp"@[0] == 'j' && "jp"@[1] == 'p');
    assert("jo"@.len() == 2 && "jo"@[0] == 'j' && "jo"@[1] == 'o');
    assert("js"@.len() == 2 && "js"@[0] == 'j' && "js"@[1] == 's');
    assert("jne"@.len() == 3 && "jne"@[0] == 'j' && "jne"@[1] == 'n' && "jne"@[2] == 'e');
    assert("jnl"@.len() == 3 && "jnl"@[0] == 'j' && "jnl"@[1] == 'n' && "jnl"@[2] == 'l');
    assert("jg"@.len() == 2 && "jg"@[0] == 'j' && "jg"@[1] == 'g');
    assert("jnb"@.len() == 3 && "jnb"@[0] == 'j' && "jnb"@[1] == 'n' && "jnb"@[2] == 'b');
    assert("ja"@.len() == 2 && "ja"@[0] == 'j' && "ja"@[1] == 'a');
    assert("jnp"@.len() == 3 && "jnp"@[0] == 'j' && "jnp"@[1] == 'n' && "jnp"@[2] == 'p');
    assert("jno"@.len() == 3 && "jno"@[0] == 'j' && "jno"@[1] == 'n' && "jno"@[2] == 'o');
    assert("jns"@.len() == 3 && "jns"@[0] == 'j' && "jns"@[1] == 'n' && "jns"@[2] == 's');
    assert("loop"@.len() == 4 && "loop"@[0] == 'l');
    assert("loopz"@.len() == 5);
    assert("loopnz"@.len() == 6);
    assert("jcxz"@.len() == 4 && "jcxz"@[0] == 'j');
}

/// Every mnemonic is at least two characters long and contains no space,
/// so in a rendered instruction the mnemonic is exactly the text before
/// the first space.
pub proof fn lemma_mnemonic_space_free(op: Op)
    ensures
        spec_mnemonic(op).len() >= 2,
        forall|k: int| 0 <= k < spec_mnemonic(op).len() ==> spec_mnemonic(op)[k] != ' ',
{
    reveal_strlit("mov");
    reveal_strlit("add");
    reveal_strlit("sub");
    reveal_strlit("cmp");
    reveal_strlit("je");
    reveal_strlit("jl");
    reveal_strlit("jle");
    reveal_strlit("jb");
    reveal_strlit("jbe");
    reveal_strlit("jp");
    reveal_strlit("jo");
    reveal_strlit("js");
    reveal_strlit("jne");
    reveal_strlit("jnl");
    reveal_strlit("jg");
    reveal_strlit("jnb");
    reveal_strlit("ja");
    reveal_strlit("jnp");
    reveal_strlit("jno");
    reveal_strlit("jns");
    reveal_strlit("loop");
    reveal_strlit("loopz");
    reveal_strlit("loopnz");
    reveal_strlit("jcxz");
}

/// Rendering a decoded instruction names the operation the bytes encode:
/// two instructions that carry a destination operand and render to the
/// same text perform the same operation.
pub proof fn lemma_render_names_operation(i1: Instruction, i2: Instruction)
    requires
        i1.operands[0] is Some,
        i2.operands[0] is Some,
        spec_render_instruction(i1) == spec_render_instruction(i2),
    ensures
        i1.op == i2.op,
{
    reveal_strlit(" ");
    assert(" "@.len() == 1 && " "@[0] == ' ');
    let m1 = spec_mnemonic(i1.op);
    let m2 = spec_mnemonic(i2.op);
    lemma_mnemonic_space_free(i1.op);
    lemma_mnemonic_space_free(i2.op);
    let t1 = spec_render_instruction(i1);
    let t2 = spec_render_instruction(i2);
    let head1 = m1 + " "@ + spec_render_operand(i1.operands[0]->0);
    let head2 = m2 + " "@ + spec_render_operand(i2.operands[0]->0);
    assert forall|k: int| 0 <= k <= m1.len() implies t1[k] == head1[k] by {}
    assert forall|k: int| 0 <= k <= m2.len() implies t2[k] == head2[k] by {}
    assert(t1[m1.len() as int] == ' ');
    assert(t2[m2.len() as int] == ' ');
    assert(m1.len() == m2.len()) by {
        if m1.len() < m2.len() {
            assert(t2[m1.len() as int] == m2[m1.len() as int]);
        } else if m2.len() < m1.len() {
            assert(t1[m2.len() as int] == m1[m2.len() as int]);
        }
    }
    assert forall|k: int| 0 <= k < m1.len() implies m1[k] == m2[k] by {
        assert(t1[k] == m1[k]);
        assert(t2[k] == m2[k]);
    }
    assert(m1 =~= m2);
    if i1.op != i2.op {
        lemma_mnemonics_distinct(i1.op, i2.op);
    }
}

/// Renders a value below ten as its decimal digit.
fn digit_str(d: u16) -> (s: &'static str)
    requires
        d < 10,
    ensures
        s@ == seq![spec_digit_char(d as nat)],
{
    proof {
        reveal_strlit("0");
        reveal_strlit("1");
        reveal_strlit("2");
        reveal_strlit("3");
        reveal_strlit("4");
        reveal_strlit("5");
        reveal_strlit("6");
        reveal_strlit("7");
        reveal_strlit("8");
        reveal_strlit("9");
    }
    let s = match d {
        0 => "0",
        1 => "1",
        2 => "2",
        3 => "3",
        4 => "4",
        5 => "5",
        6 => "6",
        7 => "7",
        8 => "8",
        _ => "9",
    };
    proof {
        assert(s@ =~= seq![spec_digit_char(d as nat)]);
    }
    s
}

/// Renders a 16-bit value in decimal.
pub fn render_u16(n: u16) -> (s: String)
    ensures
        s@ == spec_decimal(n as nat),
    decreases n,
{
    if n < 10 {
        let s = String::new();
        let s = s.concat(digit_str(n));
        proof {
            assert(s@ =~= spec_decimal(n as nat));
        }
        s
    } else {
        let s = render_u16(n / 10);
        let s = s.concat(digit_str(n % 10));
        proof {
            assert(s@ =~= spec_decimal(n as nat));
        }
        s
    }
}

/// Renders a signed 16-bit displacement with its explicit sign.
fn render_signed(d: i16) -> (s: String)
    ensures
        s@ == spec_signed_decimal(d as int),
{
    if d >= 0 {
        let s = String::from_str("+");
        let s = s.concat(render_u16(d as u16).as_str());
        proof {
            reveal_strlit("+");
            assert(s@ =~= spec_signed_decimal(d as int));
        }
        s
    } else {
        let mag: i32 = -(d as i32);
        let s = String::from_str("-");
        let s = s.concat(render_u16(mag as u16).as_str());
        proof {
            reveal_strlit("-");
            assert(s@ =~= spec_signed_decimal(d as int));
        }
        s
    }
}

/// The lowercase mnemonic of an operation.
fn mnemonic_str(op: Op) -> (s: &'static str)
    ensures
        s@ == spec_mnemonic(op),
{
    match op {
        Op::Mov => "mov",
        Op::Add => "add",
        Op::Sub => "sub",
        Op::Cmp => "cmp",
        Op::Je => "je",
        Op::Jl => "jl",
        Op::Jle => "jle",
        Op::Jb => "jb",
        Op::Jbe => "jbe",
        Op::Jp => "jp",
        Op::Jo => "jo",
        Op::Js => "js",
        Op::Jne => "jne",
        Op::Jnl => "jnl",
        Op::Jg => "jg",
        Op::Jnb => "jnb",
        Op::Ja => "ja",
        Op::Jnp => "jnp",
        Op::Jno => "jno",
        Op::Jns => "jns",
        Op::Loop => "loop",
        Op::Loopz => "loopz",
        Op::Loopnz => "loopnz",
        Op::Jcxz => "jcxz",
    }
}

/// The lowercase name of a register.
fn reg_name_str(r: Register) -> (s: &'static str)
    ensures
        s@ == spec_reg_name(r),
{
    match r {
        Register::AL => "al",
        Register::CL => "cl",
        Register::DL => "dl",
        Register::BL => "bl",
        Register::AH => "ah",
        Register::CH => "ch",
        Register::DH => "dh",
        Register::BH => "bh",
        Register::AX => "ax",
        Register::CX => "cx",
        Register::DX => "dx",
        Register::BX => "bx",
        Register::SP => "sp",
        Register::BP => "bp",
        Register::SI => "si",
        Register::DI => "di",
    }
}

/// The bare base-register text of a displacement addressing form, without
/// its displacement.
fn disp_base_str(kind: MemoryOperandKind) -> (s: &'static str)
    requires
        !(kind is Direct_BX_SI) && !(kind is Direct_BX_DI) && !(kind is Direct_BP_SI) && !(kind
            is Direct_BP_DI) && !(kind is Direct_SI) && !(kind is Direct_DI) && !(kind
            is Direct_Address) && !(kind is Direct_BX),
    ensures
        match kind {
            MemoryOperandKind::Disp8_BX_SI(_) | MemoryOperandKind::Disp16_BX_SI(_) => s@
                == "bx + si "@,
            MemoryOperandKind::Disp8_BX_DI(_) | MemoryOperandKind::Disp16_BX_DI(_) => s@
                == "bx + di "@,
            MemoryOperandKind::Disp8_BP_SI(_) | MemoryOperandKind::Disp16_BP_SI(_) => s@
                == "bp + si "@,
            MemoryOperandKind::Disp8_BP_DI(_) | MemoryOperandKind::Disp16_BP_DI(_) => s@
                == "bp + di "@,
            MemoryOperandKind::Disp8_SI(_) | MemoryOperandKind::Disp16_SI(_) => s@ == "si "@,
            MemoryOperandKind::Disp8_DI(_) | MemoryOperandKind::Disp16_DI(_) => s@ == "di "@,
            MemoryOperandKind::Disp8_BP(_) | MemoryOperandKind::Disp16_BP(_) => s@ == "bp "@,
            MemoryOperandKind::Disp8_BX(_) | MemoryOperandKind::Disp16_BX(_) => s@ == "bx "@,
            _ => false,
        },
{
    match kind {
        MemoryOperandKind::Disp8_BX_SI(_) | MemoryOperandKind::Disp16_BX_SI(_) => "bx + si ",
        MemoryOperandKind::Disp8_BX_DI(_) | MemoryOperandKind::Disp16_BX_DI(_) => "bx + di ",
        MemoryOperandKind::Disp8_BP_SI(_) | MemoryOperandKind::Disp16_BP_SI(_) => "bp + si ",
        MemoryOperandKind::Disp8_BP_DI(_) | MemoryOperandKind::Disp16_BP_DI(_) => "bp + di ",
        MemoryOperandKind::Disp8_SI(_) | MemoryOperandKind::Disp16_SI(_) => "si ",
        MemoryOperandKind::Disp8_DI(_) | MemoryOperandKind::Disp16_DI(_) => "di ",
        MemoryOperandKind::Disp8_BP(_) | MemoryOperandKind::Disp16_BP(_) => "bp ",
        _ => "bx ",
    }
}

/// The signed displacement a displacement addressing form carries.
fn disp_value(kind: MemoryOperandKind) -> (d: i16)
    requires
        !(kind is Direct_BX_SI) && !(kind is Direct_BX_DI) && !(kind is Direct_BP_SI) && !(kind
            is Direct_BP_DI) && !(kind is Direct_SI) && !(kind is Direct_DI) && !(kind
            is Direct_Address) && !(kind is Direct_BX),
    ensures
        match kind {
            MemoryOperandKind::Disp8_BX_SI(x) => d == x,
            MemoryOperandKind::Disp8_BX_DI(x) => d == x,
            MemoryOperandKind::Disp8_BP_SI(x) => d == x,
            MemoryOperandKind::Disp8_BP_DI(x) => d == x,
            MemoryOperandKind::Disp8_SI(x) => d == x,
            MemoryOperandKind::Disp8_DI(x) => d == x,
            MemoryOperandKind::Disp8_BP(x) => d == x,
            MemoryOperandKind::Disp8_BX(x) => d == x,
            MemoryOperandKind::Disp16_BX_SI(x) => d == x,
            MemoryOperandKind::Disp16_BX_DI(x) => d == x,
            MemoryOperandKind::Disp16_BP_SI(x) => d == x,
            MemoryOperandKind::Disp16_BP_DI(x) => d == x,
            MemoryOperandKind::Disp16_SI(x) => d == x,
            MemoryOperandKind::Disp16_DI(x) => d == x,
            MemoryOperandKind::Disp16_BP(x) => d == x,
            MemoryOperandKind::Disp16_BX(x) => d == x,
            _ => false,
        },
{
    match kind {
        MemoryOperandKind::Disp8_BX_SI(x) => x as i16,
        MemoryOperandKind::Disp8_BX_DI(x) => x as i16,
        MemoryOperandKind::Disp8_BP_SI(x) => x as i16,
        MemoryOperandKind::Disp8_BP_DI(x) => x as i16,
        MemoryOperandKind::Disp8_SI(x) => x as i16,
        MemoryOperandKind::Disp8_DI(x) => x as i16,
        MemoryOperandKind::Disp8_BP(x) => x as i16,
        MemoryOperandKind::Disp8_BX(x) => x as i16,
        MemoryOperandKind::Disp16_BX_SI(x) => x,
        MemoryOperandKind::Disp16_BX_DI(x) => x,
        MemoryOperandKind::Disp16_BP_SI(x) => x,
        MemoryOperandKind::Disp16_BP_DI(x) => x,
        MemoryOperandKind::Disp16_SI(x) => x,
        MemoryOperandKind::Disp16_DI(x) => x,
        MemoryOperandKind::Disp16_BP(x) => x,
        MemoryOperandKind::Disp16_BX(x) => x,
        _ => 0,
    }
}

impl MemoryOperand {
    /// Renders this memory operand as `<width> [<base-expression>]`.
    pub fn render(&self) -> (s: String)
        ensures
            s@ == spec_render_mem(*self),
    {
        let mut s = String::new();
        match self.size {
            MemoryOperandSize::Byte => s.append("byte"),
            MemoryOperandSize::Word => s.append("word"),
        }
        s.append(" [");
        match self.kind {
            MemoryOperandKind::Direct_BX_SI => s.append("bx + si"),
            MemoryOperandKind::Direct_BX_DI => s.append("bx + di"),
            MemoryOperandKind::Direct_BP_SI => s.append("bp + si"),
            MemoryOperandKind::Direct_BP_DI => s.append("bp + di"),
            MemoryOperandKind::Direct_SI => s.append("si"),
            MemoryOperandKind::Direct_DI => s.append("di"),
            MemoryOperandKind::Direct_Address(a) => s.append(render_u16(a).as_str()),
            MemoryOperandKind::Direct_BX => s.append("bx"),
            _ => {
                s.append(disp_base_str(self.kind));
                s.append(render_signed(disp_value(self.kind)).as_str());
            },
        }
        s.append("]");
        proof {
            assert(s@ =~= spec_render_mem(*self));
        }
        s
    }
}

impl Operand {
    /// Renders this operand.
    pub fn render(&self) -> (s: String)
        ensures
            s@ == spec_render_operand(*self),
    {
        match self {
            Operand::Register(r) => {
                let s = String::from_str(reg_name_str(*r));
                proof {
                    assert(s@ =~= spec_render_operand(*self));
                }
                s
            },
            Operand::Memory(m) => m.render(),
            Operand::Immediate(imm) => {
                let mut s = String::new();
                match imm {
                    Immediate::Bit8(v) => {
                        s.append("byte ");
                        s.append(render_u16(*v as u16).as_str());
                    },
                    Immediate::Bit16(v) => {
                        s.append("word ");
                        s.append(render_u16(*v).as_str());
                    },
                }
                proof {
                    assert(s@ =~= spec_render_operand(*self));
                }
                s
            },
        }
    }
}

impl Instruction {
    /// Renders this instruction as `<mnemonic> <dest>[, <src>]`.
    pub fn render(&self) -> (s: String)
        ensures
            s@ == spec_render_instruction(*self),
    {
        let mut s = String::from_str(mnemonic_str(self.op));
        match self.operands[0] {
            Some(o) => {
                s.append(" ");
                s.append(o.render().as_str());
            },
            None => {},
        }
        match self.operands[1] {
            Some(o) => {
                s.append(", ");
                s.append(o.render().as_str());
            },
            None => {},
        }
        proof {
            assert(s@ =~= spec_render_instruction(*self));
        }
        s
    }
}

} // verus!
