//! The fetch-decode-execute loop and the disassembly loop: pure drivers
//! over the decoder and the simulator. The caller supplies the program
//! image (already loaded at the bottom of memory) and its length; windows
//! handed to the decoder are padded with zeros past the image, so nothing
//! is ever read beyond it.

use vstd::prelude::*;

use crate::Memory;
use crate::RegisterFile;
use crate::decoder::DecodeError;
use crate::decoder::decode_instruction;
use crate::decoder::spec_decode;
use crate::render::spec_render_instruction;
use crate::simulator::ExecError;
use crate::simulator::simulate;
use crate::simulator::spec_step;

verus! {

/// A failure of the fetch loop: the instruction at the current
/// instruction pointer could not be decoded, or its execution was
/// unsupported.
#[derive(Debug, Clone, Copy, PartialEq, Eq, Structural)]
pub enum RunError {
    Decode(DecodeError),
    Exec(ExecError),
}

/// The 6-byte lookahead window at a given offset: image bytes below
/// `size`, zeros beyond it.
pub open spec fn spec_window(mem: Seq<u8>, ip: int, size: int) -> Seq<u8> {
    Seq::new(
        6,
        |k: int|
            if ip + k < size {
                mem[ip + k]
            } else {
                0u8
            },
    )
}

/// The decode window depends only on the image bytes below `size`: two
/// memories that agree there yield the same window at every offset, so
/// the fetch loop never reads past the image.
pub proof fn lemma_window_reads_only_image(mem1: Seq<u8>, mem2: Seq<u8>, ip: int, size: int)
    requires
        ip >= 0,
        mem1.len() >= size,
        mem2.len() >= size,
        forall|j: int| 0 <= j < size ==> mem1[j] == mem2[j],
    ensures
        spec_window(mem1, ip, size) == spec_window(mem2, ip, size),
{
    assert forall|k: int| 0 <= k < 6 implies spec_window(mem1, ip, size)[k] == spec_window(
        mem2,
        ip,
        size,
    )[k] by {
        if ip + k < size {
            assert(mem1[ip + k] == mem2[ip + k]);
        }
    }
    assert(spec_window(mem1, ip, size) =~= spec_window(mem2, ip, size));
}

/// Builds the zero-padded 6-byte window at `ip`.
fn fetch_window(memory: &Memory, ip: u16, program_size: u16) -> (w: Vec<u8>)
    requires
        memory.wf(),
        program_size <= memory@.len(),
    ensures
        w@ == spec_window(memory@, ip as int, program_size as int),
        w@.len() == 6,
{
    let mut w: Vec<u8> = Vec::new();
    let mut k: usize = 0;
    while k < 6
        invariant
            memory.wf(),
            program_size <= memory@.len(),
            k <= 6,
            w@.len() == k,
            forall|j: int|
                0 <= j < k ==> w@[j] == spec_window(memory@, ip as int, program_size as int)[j],
        decreases 6 - k,
    {
        let idx = ip as usize + k;
        let b: u8 = if idx < program_size as usize {
            memory.data[idx]
        } else {
            0
        };
        w.push(b);
        k = k + 1;
    }
    proof {
        assert(w@ =~= spec_window(memory@, ip as int, program_size as int));
    }
    w
}

/// The fetch loop as a mathematical function: step until the instruction
/// pointer reaches the image length (completed, `true`), the fuel runs out
/// (`false`), or a decode or execution fault occurs (`None`).
pub open spec fn spec_run(rf: RegisterFile, mem: Seq<u8>, size: u16, fuel: nat) -> Option<
    (RegisterFile, Seq<u8>, bool),
>
    decreases fuel,
{
    if rf.ip >= size {
        Some((rf, mem, true))
    } else if fuel == 0 {
        Some((rf, mem, false))
    } else {
        match spec_decode(spec_window(mem, rf.ip as int, size as int)) {
            None => None,
            Some(i) => match spec_step(rf, mem, i) {
                None => None,
                Some((rf2, mem2)) => spec_run(rf2, mem2, size, (fuel - 1) as nat),
            },
        }
    }
}

/// Runs the fetch-decode-execute loop over the program image loaded at the
/// bottom of memory, for at most `max_steps` instructions.
///
/// Returns `Ok(true)` when the loop halted because the instruction pointer
/// reached the image length — and only then, so the final pointer is at or
/// past the end exactly in that case. Returns `Ok(false)` when the step
/// budget ran out first. On a decode or execution fault the machine state
/// is that of the moment of the fault: it is reached from the initial
/// state by some number of fault-free steps, its pointer is still inside
/// the image, and the instruction there fails to decode (`Decode`) or to
/// execute (`Exec`) — execution faults change nothing of the faulting
/// instruction.
#[verifier::rlimit(60)]
pub fn run(registers: &mut RegisterFile, memory: &mut Memory, program_size: u16, max_steps: usize)
    -> (r: Result<bool, RunError>)
    requires
        old(memory).wf(),
    ensures
        final(memory).wf(),
        r matches Ok(completed) ==> spec_run(
            *old(registers),
            old(memory)@,
            program_size,
            max_steps as nat,
        ) == Some((*final(registers), final(memory)@, completed)),
        r matches Ok(completed) ==> (completed <==> final(registers).ip >= program_size),
        r is Err ==> spec_run(*old(registers), old(memory)@, program_size, max_steps as nat)
            is None,
        r is Err ==> {
            &&& final(registers).ip < program_size
            &&& exists|k: nat|
                k <= max_steps && #[trigger] spec_run(
                    *old(registers),
                    old(memory)@,
                    program_size,
                    k,
                ) == Some((*final(registers), final(memory)@, false))
        },
        r matches Err(e) ==> match e {
            RunError::Decode(_) => spec_decode(
                spec_window(final(memory)@, final(registers).ip as int, program_size as int),
            ) is None,
            RunError::Exec(_) => {
                let w = spec_window(final(memory)@, final(registers).ip as int, program_size as int);
                &&& spec_decode(w) is Some
                &&& spec_step(*final(registers), final(memory)@, spec_decode(w).unwrap()) is None
            },
        },
{
    let mut steps: usize = 0;
    loop
        invariant
            memory.wf(),
            steps <= max_steps,
            forall|j: nat|
                spec_run(*old(registers), old(memory)@, program_size, (steps + j) as nat)
                    == #[trigger] spec_run(*registers, memory@, program_size, j),
        decreases max_steps - steps,
    {
        if registers.ip >= program_size {
            proof {
                assert(spec_run(*registers, memory@, program_size, (max_steps - steps) as nat)
                    == Some((*registers, memory@, true)));
            }
            return Ok(true);
        }
        if steps == max_steps {
            proof {
                assert(spec_run(*registers, memory@, program_size, 0nat) == Some(
                    (*registers, memory@, false),
                ));
            }
            return Ok(false);
        }
        let ghost pre_rf = *registers;
        let ghost pre_mem = memory@;
        let ghost pre_steps = steps;
        let w = fetch_window(memory, registers.ip, program_size);
        let instruction = match decode_instruction(w.as_slice()) {
            Ok(i) => i,
            Err(e) => {
                proof {
                    assert(spec_run(*registers, memory@, program_size, 0nat) == Some(
                        (*registers, memory@, false),
                    ));
                }
                return Err(RunError::Decode(e));
            },
        };
        match simulate(registers, memory, instruction) {
            Ok(()) => {},
            Err(e) => {
                proof {
                    assert(spec_run(*registers, memory@, program_size, 0nat) == Some(
                        (*registers, memory@, false),
                    ));
                }
                return Err(RunError::Exec(e));
            },
        }
        steps = steps + 1;
        proof {
            assert forall|j: nat|
                spec_run(*old(registers), old(memory)@, program_size, (steps + j) as nat)
                    == #[trigger] spec_run(*registers, memory@, program_size, j) by {
                assert(spec_run(*old(registers), old(memory)@, program_size, (pre_steps + (j
                    + 1)) as nat) == spec_run(pre_rf, pre_mem, program_size, (j + 1) as nat));
                assert(spec_run(pre_rf, pre_mem, program_size, (j + 1) as nat) == spec_run(
                    *registers,
                    memory@,
                    program_size,
                    j,
                ));
            }
        }
    }
}

/// The disassembly listing as a mathematical function: one rendered line
/// per decoded instruction, walking the image from `offset` by each
/// instruction's encoded length; `None` when any instruction fails to
/// decode.
pub open spec fn spec_disassemble(prog: Seq<u8>, offset: nat) -> Option<Seq<Seq<char>>>
    decreases prog.len() - offset,
{
    if offset >= prog.len() {
        Some(Seq::empty())
    } else {
        match spec_decode(spec_window(prog, offset as int, prog.len() as int)) {
            None => None,
            Some(i) => {
                if i.length == 0 {
                    None
                } else {
                    let next: nat = if offset + i.length >= prog.len() {
                        prog.len()
                    } else {
                        (offset + i.length) as nat
                    };
                    match spec_disassemble(prog, next) {
                        None => None,
                        Some(rest) => Some(seq![spec_render_instruction(i)] + rest),
                    }
                }
            },
        }
    }
}

/// Builds the zero-padded 6-byte window at `offset` of a raw image.
fn image_window(program: &Vec<u8>, offset: usize) -> (w: Vec<u8>)
    ensures
        w@ == spec_window(program@, offset as int, program@.len() as int),
        w@.len() == 6,
{
    let n = program.len();
    let mut w: Vec<u8> = Vec::new();
    let mut k: usize = 0;
    while k < 6
        invariant
            n == program@.len(),
            k <= 6,
            w@.len() == k,
            forall|j: int|
                0 <= j < k ==> w@[j] == spec_window(program@, offset as int, program@.len() as int)[j],
        decreases 6 - k,
    {
        let b: u8 = if offset < n && k < n - offset {
            program[offset + k]
        } else {
            0
        };
        w.push(b);
        k = k + 1;
    }
    proof {
        assert(w@ =~= spec_window(program@, offset as int, program@.len() as int));
    }
    w
}

/// Disassembles a whole program image into one rendered line per
/// instruction, decoding at each offset from a zero-padded window and
/// advancing by each instruction's exact encoded length.
pub fn disassemble(program: &Vec<u8>) -> (r: Result<Vec<String>, DecodeError>)
    requires
        program@.len() <= 0xFFFF,
    ensures
        r matches Ok(lines) ==> Some(lines@.map_values(|s: String| s@)) == spec_disassemble(
            program@,
            0,
        ),
        r is Err ==> spec_disassemble(program@, 0) is None,
{
    let n = program.len();
    let mut lines: Vec<String> = Vec::new();
    let mut offset: usize = 0;
    while offset < n
        invariant
            n == program@.len(),
            n <= 0xFFFF,
            offset <= n,
            (match spec_disassemble(program@, offset as nat) {
                Some(rest) => spec_disassemble(program@, 0) == Some(
                    lines@.map_values(|s: String| s@) + rest,
                ),
                None => spec_disassemble(program@, 0) is None,
            }),
        decreases n - offset,
    {
        let w = image_window(program, offset);
        let instruction = match decode_instruction(w.as_slice()) {
            Ok(i) => i,
            Err(e) => {
                return Err(e);
            },
        };
        let ghost lines_before = lines@;
        let line = instruction.render();
        lines.push(line);
        proof {
            assert(lines@.map_values(|s: String| s@) =~= lines_before.map_values(|s: String| s@)
                + seq![spec_render_instruction(instruction)]);
        }
        offset = if instruction.length as usize >= n - offset {
            n
        } else {
            offset + instruction.length as usize
        };
    }
    proof {
        assert(spec_disassemble(program@, offset as nat) == Some(Seq::<Seq<char>>::empty()));
        assert(lines@.map_values(|s: String| s@) + Seq::<Seq<char>>::empty() =~= lines@.map_values(
            |s: String| s@,
        ));
    }
    Ok(lines)
}

} // verus!
