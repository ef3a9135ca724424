use vstd::prelude::*;

use crate::machine::{
    addr_ok, execute_spec, reg_ok, step_spec, word, wrap, MachineView, VmError,
};
use crate::opcode::{code_of, lemma_opcode_of_code, opcode_of, Opcode, OPCODE_COUNT};

verus! {

/// Addition, multiplication and subtraction of registers wrap modulo 2^16: the destination
/// receives the exact result reduced modulo 65536, for every choice of registers.
pub proof fn lemma_arith_wraps(s: MachineView, dst: u8, a: u8, b: u8)
    requires
        s.wf(),
        reg_ok(dst),
        reg_ok(a),
        reg_ok(b),
    ensures
        execute_spec(s, Opcode::Add, dst, a, b) == Ok::<MachineView, VmError>(
            s.with_reg(dst, ((s.regs[a as int] + s.regs[b as int]) % 65536) as u16),
        ),
        execute_spec(s, Opcode::Mul, dst, a, b) == Ok::<MachineView, VmError>(
            s.with_reg(dst, ((s.regs[a as int] * s.regs[b as int]) % 65536) as u16),
        ),
        execute_spec(s, Opcode::Sub, dst, a, b) == Ok::<MachineView, VmError>(
            s.with_reg(dst, ((s.regs[a as int] - s.regs[b as int]) % 65536) as u16),
        ),
{
}

/// A division whose divisor register holds zero fails with `DivisionByZero`.
pub proof fn lemma_div_by_zero(s: MachineView, dst: u8, a: u8, b: u8)
    requires
        s.wf(),
        reg_ok(dst),
        reg_ok(a),
        reg_ok(b),
        s.regs[b as int] == 0,
    ensures
        execute_spec(s, Opcode::Div, dst, a, b) == Err::<MachineView, VmError>(
            VmError::DivisionByZero,
        ),
{
}

/// Storing a register at an address and loading from the same address gives the stored
/// value back.
pub proof fn lemma_store_then_load(s: MachineView, addr_hi: u8, addr_lo: u8, src: u8, dst: u8)
    requires
        s.wf(),
        reg_ok(src),
        reg_ok(dst),
        addr_ok(word(addr_hi, addr_lo)),
    ensures
        execute_spec(s, Opcode::Store, addr_hi, addr_lo, src) is Ok,
        ({
            let t = execute_spec(s, Opcode::Store, addr_hi, addr_lo, src)->Ok_0;
            &&& execute_spec(t, Opcode::Load, dst, addr_hi, addr_lo) is Ok
            &&& (execute_spec(t, Opcode::Load, dst, addr_hi, addr_lo)->Ok_0).regs[dst as int]
                == s.regs[src as int]
        }),
{
    let v = s.regs[src as int];
    assert((v / 256) as u8 * 256 + (v % 256) as u8 == v);
}

/// A conditional jump whose tested register holds zero jumps to its target; otherwise it
/// falls through to the next instruction. Nothing else changes.
pub proof fn lemma_jump_if_zero(s: MachineView, addr_hi: u8, addr_lo: u8, src: u8)
    requires
        s.wf(),
        reg_ok(src),
        !s.past_end,
        s.pc + 4 <= s.bin.len(),
        s.bin[s.pc as int] == code_of(Opcode::JmpIfZero),
        s.bin[s.pc + 1] == addr_hi,
        s.bin[s.pc + 2] == addr_lo,
        s.bin[s.pc + 3] == src,
    ensures
        step_spec(s) == (
            if s.regs[src as int] == 0 {
                s.with_pc(word(addr_hi, addr_lo))
            } else {
                s.advanced()
            },
            Ok::<(), VmError>(()),
        ),
{
    lemma_opcode_of_code(Opcode::JmpIfZero);
}

/// A step ends the program exactly when the program has run off the address space or the
/// four bytes at the program counter do not all lie in the program; the machine is then
/// left as it was.
pub proof fn lemma_end_of_program(s: MachineView)
    ensures
        step_spec(s).1 == Err::<(), VmError>(VmError::EndOfProgram) <==> (s.past_end || s.pc + 4
            > s.bin.len()),
        step_spec(s).1 == Err::<(), VmError>(VmError::EndOfProgram) ==> step_spec(s).0 == s,
{
}

/// Once an instruction at the top of the address space has run without jumping, the next
/// step ends the program instead of starting over at address 0.
pub proof fn lemma_end_of_address_space(s: MachineView)
    requires
        s.pc + 4 > u16::MAX,
        step_spec(s).1 is Ok,
        opcode_of(s.bin[s.pc as int]) != Some(Opcode::Jmp),
        opcode_of(s.bin[s.pc as int]) != Some(Opcode::JmpIfZero),
    ensures
        step_spec(step_spec(s).0).1 == Err::<(), VmError>(VmError::EndOfProgram),
{
}

/// An opcode byte with no entry in the opcode table fails the step with `InvalidOpcode`,
/// after the program counter has moved past it.
pub proof fn lemma_invalid_opcode(s: MachineView)
    requires
        !s.past_end,
        s.pc + 4 <= s.bin.len(),
        s.bin[s.pc as int] >= OPCODE_COUNT,
    ensures
        step_spec(s) == (s.advanced(), Err::<(), VmError>(VmError::InvalidOpcode)),
{
    let b = s.bin[s.pc as int];
    assert forall|op: Opcode| code_of(op) != b by {
        assert(code_of(op) < OPCODE_COUNT);
    }
}

/// After every step that does not end the program, failed or not, the program counter
/// holds either the address of the next instruction or the target written by a jump.
pub proof fn lemma_pc_after_step(s: MachineView)
    requires
        step_spec(s).1 != Err::<(), VmError>(VmError::EndOfProgram),
    ensures
        ({
            let t = step_spec(s).0;
            ||| t.pc == wrap(s.pc + 4)
            ||| (opcode_of(s.bin[s.pc as int]) == Some(Opcode::Jmp) || opcode_of(
                s.bin[s.pc as int],
            ) == Some(Opcode::JmpIfZero)) && t.pc == word(s.bin[s.pc + 1], s.bin[s.pc + 2])
        }),
{
}

} // verus!
