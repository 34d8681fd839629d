//! Laws of the engine, proved once for every reachable state: how the
//! condition flags, the program counter, the subroutine linkage, the
//! indirect load, the halt transition and the invalid-trap failure
//! behave across a step.

use vstd::prelude::*;

use crate::bits::{sext, wadd};
use crate::isa::{
    dr_field, imm5_field, imm_mode, is_trap_vector, lemma_instr_fields, long_mode, off11_field,
    off9_field, op_field, sr1_field, sr2_field, trap_field,
};
use crate::machine::{flag_for, lemma_flag_for, VmState, VmView};
use crate::step::{halt_message, spec_provide_input, spec_step, ActionView, ExecError};

verus! {

/// The opcodes that rewrite the condition flags from the value they
/// write: ADD, LD, AND, LDR, NOT, LDI and LEA.
pub open spec fn is_flag_setting(op: u16) -> bool {
    op == 1 || op == 2 || op == 5 || op == 6 || op == 9 || op == 10 || op == 14
}

/// After any flag-updating instruction, the condition-flag register
/// holds exactly one of the three flags, and that flag classifies the
/// value just written to the destination register: `Zro` for zero,
/// `Neg` for a value with its high bit set, `Pos` otherwise.
pub proof fn lemma_flags_after_step(v: VmView)
    requires
        v.wf(),
        v.state == VmState::Running,
        is_flag_setting(op_field(v.mem[v.pc() as int])),
    ensures
        ({
            let post = spec_step(v).0;
            let val = post.regs[dr_field(v.mem[v.pc() as int]) as int];
            &&& post.cond() == flag_for(val)
            &&& (post.cond() == 1 || post.cond() == 2 || post.cond() == 4)
            &&& (post.cond() == 2 <==> val == 0)
            &&& (post.cond() == 4 <==> val >= 0x8000)
            &&& (post.cond() == 1 <==> 0 < val < 0x8000)
        }),
{
    let instr = v.mem[v.pc() as int];
    lemma_instr_fields(instr);
    let post = spec_step(v).0;
    let val = post.regs[dr_field(instr) as int];
    lemma_flag_for(val);
}

/// The GETC and IN services classify the character they store in R0;
/// a character code is never negative, so the flag is `Pos` or `Zro`.
pub proof fn lemma_flags_after_input(v: VmView, ch: u8)
    requires
        v.wf(),
    ensures
        ({
            let post = spec_provide_input(v, ch);
            &&& post.regs[0] == ch as u16
            &&& post.cond() == flag_for(ch as u16)
            &&& (post.cond() == 1 || post.cond() == 2)
            &&& (post.cond() == 2 <==> ch == 0)
        }),
{
    lemma_flag_for(ch as u16);
}

/// The program counter is incremented by exactly one modulo 2^16 on
/// fetch, before the instruction body runs.  Only BR, JSR/JSRR and JMP
/// overwrite it afterwards: every other instruction leaves it at the
/// incremented value, and so does a branch whose condition is not met.
pub proof fn lemma_pc_increment(v: VmView)
    requires
        v.wf(),
        v.state == VmState::Running,
        !(op_field(v.mem[v.pc() as int]) == 15 && !is_trap_vector(trap_field(
            v.mem[v.pc() as int],
        ))),
    ensures
        ({
            let instr = v.mem[v.pc() as int];
            let op = op_field(instr);
            let post = spec_step(v).0;
            &&& (op != 0 && op != 4 && op != 12 ==> post.pc() == wadd(v.pc(), 1))
            &&& (op == 0 && v.cond() & dr_field(instr) == 0 ==> post.pc() == wadd(v.pc(), 1))
            &&& (op == 0 && v.cond() & dr_field(instr) != 0 ==> post.pc() == wadd(
                wadd(v.pc(), 1),
                sext(off9_field(instr), 9),
            ))
            &&& (op == 12 ==> post.pc() == v.regs[sr1_field(instr) as int])
        }),
{
    let instr = v.mem[v.pc() as int];
    lemma_instr_fields(instr);
}

/// The LDI round trip: when the word at PC+1+offset is an address A and
/// the word at A is V, executing LDI loads V into the destination
/// register and sets the flags from V.
pub proof fn lemma_ldi_round_trip(v: VmView)
    requires
        v.wf(),
        v.state == VmState::Running,
        op_field(v.mem[v.pc() as int]) == 10,
    ensures
        ({
            let instr = v.mem[v.pc() as int];
            let pc1 = wadd(v.pc(), 1);
            let a = v.mem[wadd(pc1, sext(off9_field(instr), 9)) as int];
            let val = v.mem[a as int];
            let post = spec_step(v).0;
            &&& post.regs[dr_field(instr) as int] == val
            &&& post.cond() == flag_for(val)
            &&& post.pc() == pc1
            &&& post.mem == v.mem
        }),
{
    let instr = v.mem[v.pc() as int];
    lemma_instr_fields(instr);
}

/// The immediate-mode bit selects an ADD or AND instruction's second
/// operand exactly: the sign-extended 5-bit immediate when the bit is
/// set, the SR2 register when it is clear.  ADD wraps modulo 2^16.
pub proof fn lemma_operand_mode(v: VmView)
    requires
        v.wf(),
        v.state == VmState::Running,
        op_field(v.mem[v.pc() as int]) == 1 || op_field(v.mem[v.pc() as int]) == 5,
    ensures
        ({
            let instr = v.mem[v.pc() as int];
            let operand = if imm_mode(instr) {
                sext(imm5_field(instr), 5)
            } else {
                v.regs[sr2_field(instr) as int]
            };
            let post = spec_step(v).0;
            &&& (op_field(instr) == 1 ==> post.regs[dr_field(instr) as int] == wadd(
                v.regs[sr1_field(instr) as int],
                operand,
            ))
            &&& (op_field(instr) == 5 ==> post.regs[dr_field(instr) as int] == (v.regs[sr1_field(
                instr,
            ) as int] & operand))
        }),
{
    let instr = v.mem[v.pc() as int];
    lemma_instr_fields(instr);
}

/// After JSR or JSRR, R7 holds the return address: the program-counter
/// value immediately after the fetch increment, in either mode.  The
/// jump target follows the mode bit; the base register is read after R7
/// is written, so JSRR through R7 jumps to the return address itself.
pub proof fn lemma_jsr_return_address(v: VmView)
    requires
        v.wf(),
        v.state == VmState::Running,
        op_field(v.mem[v.pc() as int]) == 4,
    ensures
        ({
            let instr = v.mem[v.pc() as int];
            let pc1 = wadd(v.pc(), 1);
            let post = spec_step(v).0;
            &&& post.regs[7] == pc1
            &&& (long_mode(instr) ==> post.pc() == wadd(pc1, sext(off11_field(instr), 11)))
            &&& (!long_mode(instr) ==> post.pc() == (if sr1_field(instr) == 7 {
                pc1
            } else {
                v.regs[sr1_field(instr) as int]
            }))
        }),
{
    let instr = v.mem[v.pc() as int];
    lemma_instr_fields(instr);
}

/// Executing the HALT trap halts the engine and announces it, touching
/// nothing but R7 and the program counter.
pub proof fn lemma_halt_trap(v: VmView)
    requires
        v.wf(),
        v.state == VmState::Running,
        op_field(v.mem[v.pc() as int]) == 15,
        trap_field(v.mem[v.pc() as int]) == 0x25,
    ensures
        spec_step(v).0.state == VmState::Halted,
        spec_step(v).0.mem == v.mem,
        spec_step(v).1 == Ok::<ActionView, ExecError>(ActionView::Halt(halt_message())),
{
}

/// A halted engine is terminal: stepping it executes no instruction,
/// changes nothing, and reports the halt with no further output.
pub proof fn lemma_halted_is_terminal(v: VmView)
    requires
        v.state == VmState::Halted,
    ensures
        spec_step(v).0 == v,
        spec_step(v).1 == Ok::<ActionView, ExecError>(ActionView::Halt(Seq::<u8>::empty())),
{
}

/// A trap with an undefined vector is fatal: the step reports the
/// invalid vector and leaves memory, registers and the run state
/// exactly as they were before the step.
pub proof fn lemma_invalid_trap(v: VmView)
    requires
        v.wf(),
        v.state == VmState::Running,
        op_field(v.mem[v.pc() as int]) == 15,
        !is_trap_vector(trap_field(v.mem[v.pc() as int])),
    ensures
        spec_step(v).0 == v,
        spec_step(v).1 == Err::<ActionView, ExecError>(
            ExecError::InvalidTrapVector(trap_field(v.mem[v.pc() as int])),
        ),
{
}

/// A step preserves well-formedness: memory keeps its full span and the
/// register file its ten registers.
pub proof fn lemma_step_preserves_wf(v: VmView)
    requires
        v.wf(),
    ensures
        spec_step(v).0.wf(),
{
    if v.state == VmState::Running {
        lemma_instr_fields(v.mem[v.pc() as int]);
    }
}

} // verus!
