//! The fetch-decode-execute engine.  `VM::step` executes exactly one
//! instruction and reports the console interaction it calls for as an
//! explicit action, so the engine itself performs no input or output.
//! `spec_step` is the mathematical description of that transition, and
//! `step` is proved to implement it.

use vstd::prelude::*;

use crate::bits::{sext, wadd};
use crate::isa::{
    dr_field, imm5_field, imm_mode, is_trap_vector, lemma_instr_fields, long_mode, off11_field,
    off6_field, off9_field, op_field, sr1_field, sr2_field, trap_field, OpCode, Register, TrapCode,
};
use crate::machine::{flag_for, VmState, VmView, MEMORY_MAX, VM};
use crate::sign_extend;

verus! {

/// What the engine asks of its caller after one executed instruction.
/// The caller performs the console work; the engine never blocks.
pub enum StepAction {
    /// The instruction finished with no console effect.
    Proceed,
    /// Write these bytes to the console, then continue.
    Output(Vec<u8>),
    /// Write the prompt, read one character from the console, feed it
    /// back through `VM::provide_input`, and echo it when `echo` is set.
    NeedsInput { prompt: Vec<u8>, echo: bool },
    /// The engine has halted; write the announcement bytes.  No further
    /// instruction executes.
    Halt(Vec<u8>),
}

/// The mathematical counterpart of a `StepAction`.
pub ghost enum ActionView {
    Proceed,
    Output(Seq<u8>),
    NeedsInput { prompt: Seq<u8>, echo: bool },
    Halt(Seq<u8>),
}

impl View for StepAction {
    type V = ActionView;

    open spec fn view(&self) -> ActionView {
        match self {
            StepAction::Proceed => ActionView::Proceed,
            StepAction::Output(b) => ActionView::Output(b@),
            StepAction::NeedsInput { prompt, echo } => ActionView::NeedsInput {
                prompt: prompt@,
                echo: *echo,
            },
            StepAction::Halt(b) => ActionView::Halt(b@),
        }
    }
}

/// A fatal condition that ends a run.
#[derive(Clone, Copy, PartialEq, Eq, Structural, Debug)]
pub enum ExecError {
    /// A trap instruction carried a vector outside the six defined
    /// service routines: a programming error in the loaded image.  The
    /// machine's memory and registers are left untouched by the failing
    /// instruction.
    InvalidTrapVector(u16),
}

/// The state with one register overwritten.
pub open spec fn with_reg(v: VmView, r: int, val: u16) -> VmView {
    VmView { regs: v.regs.update(r, val), ..v }
}

/// The state with the program counter overwritten.
pub open spec fn with_pc(v: VmView, pc: u16) -> VmView {
    with_reg(v, 8, pc)
}

/// The state with one memory word overwritten.
pub open spec fn with_mem(v: VmView, addr: u16, val: u16) -> VmView {
    VmView { mem: v.mem.update(addr as int, val), ..v }
}

/// The state after a flag-setting instruction wrote `val` to register
/// `r`: the register takes the value and the condition flags classify it.
pub open spec fn set_and_flag(v: VmView, r: int, val: u16) -> VmView {
    VmView { regs: v.regs.update(r, val).update(9, flag_for(val)), ..v }
}

/// The state with the engine halted.
pub open spec fn halted(v: VmView) -> VmView {
    VmView { state: VmState::Halted, ..v }
}

/// The console bytes of a word string: the low byte of each word from
/// `addr` up to, and not including, the first zero word.  The fuel bounds
/// the scan to one pass over the address space, which wraps.
pub open spec fn puts_bytes(mem: Seq<u16>, addr: u16, fuel: nat) -> Seq<u8>
    decreases fuel,
{
    if fuel == 0 {
        Seq::empty()
    } else {
        let w = mem[addr as int];
        if w == 0 {
            Seq::empty()
        } else {
            seq![(w & 0xFF) as u8] + puts_bytes(mem, wadd(addr, 1), (fuel - 1) as nat)
        }
    }
}

/// The console bytes of a packed byte string: each word from `addr` up
/// to the first zero word contributes its low byte and then, when it is
/// not zero, its high byte.
pub open spec fn putsp_bytes(mem: Seq<u16>, addr: u16, fuel: nat) -> Seq<u8>
    decreases fuel,
{
    if fuel == 0 {
        Seq::empty()
    } else {
        let w = mem[addr as int];
        if w == 0 {
            Seq::empty()
        } else {
            let lo = (w & 0xFF) as u8;
            let hi = ((w >> 8) & 0xFF) as u8;
            (if hi != 0 {
                seq![lo, hi]
            } else {
                seq![lo]
            }) + putsp_bytes(mem, wadd(addr, 1), (fuel - 1) as nat)
        }
    }
}

/// The prompt the IN service writes before it reads: "Enter a character: ".
pub open spec fn in_prompt() -> Seq<u8> {
    seq![
        69u8,
        110,
        116,
        101,
        114,
        32,
        97,
        32,
        99,
        104,
        97,
        114,
        97,
        99,
        116,
        101,
        114,
        58,
        32,
    ]
}

/// The announcement the HALT service writes: "HALT" and a newline.
pub open spec fn halt_message() -> Seq<u8> {
    seq![72u8, 65, 76, 84, 10]
}

/// The effect of a trap with a defined vector, on a state whose program
/// counter was already incremented and whose R7 already holds the return
/// address.
pub open spec fn spec_trap(v: VmView, vect: u16) -> (VmView, Result<ActionView, ExecError>)
    recommends
        is_trap_vector(vect),
{
    if vect == 0x20 {
        (v, Ok(ActionView::NeedsInput { prompt: Seq::empty(), echo: false }))
    } else if vect == 0x21 {
        (v, Ok(ActionView::Output(seq![(v.regs[0] & 0xFF) as u8])))
    } else if vect == 0x22 {
        (v, Ok(ActionView::Output(puts_bytes(v.mem, v.regs[0], MEMORY_MAX as nat))))
    } else if vect == 0x23 {
        (v, Ok(ActionView::NeedsInput { prompt: in_prompt(), echo: true }))
    } else if vect == 0x24 {
        (v, Ok(ActionView::Output(putsp_bytes(v.mem, v.regs[0], MEMORY_MAX as nat))))
    } else {
        (halted(v), Ok(ActionView::Halt(halt_message())))
    }
}

/// The effect of one decoded instruction on a state whose program
/// counter was already incremented past the instruction.  A trap whose
/// vector is undefined was rejected before this point.
pub open spec fn spec_exec(v: VmView, instr: u16) -> (VmView, Result<ActionView, ExecError>) {
    let op = op_field(instr);
    let pc = v.pc();
    if op == 0 {
        // BR: branch when the flags meet the condition bits.
        if v.cond() & dr_field(instr) != 0 {
            (with_pc(v, wadd(pc, sext(off9_field(instr), 9))), Ok(ActionView::Proceed))
        } else {
            (v, Ok(ActionView::Proceed))
        }
    } else if op == 1 {
        // ADD: register or sign-extended immediate operand, wrapping.
        let operand = if imm_mode(instr) {
            sext(imm5_field(instr), 5)
        } else {
            v.regs[sr2_field(instr) as int]
        };
        let val = wadd(v.regs[sr1_field(instr) as int], operand);
        (set_and_flag(v, dr_field(instr) as int, val), Ok(ActionView::Proceed))
    } else if op == 2 {
        // LD: load PC-relative.
        let val = v.mem[wadd(pc, sext(off9_field(instr), 9)) as int];
        (set_and_flag(v, dr_field(instr) as int, val), Ok(ActionView::Proceed))
    } else if op == 3 {
        // ST: store PC-relative.
        (
            with_mem(v, wadd(pc, sext(off9_field(instr), 9)), v.regs[dr_field(instr) as int]),
            Ok(ActionView::Proceed),
        )
    } else if op == 4 {
        // JSR/JSRR: save the return address in R7, then jump.  The base
        // register is read after R7 is written.
        let v7 = with_reg(v, 7, pc);
        let target = if long_mode(instr) {
            wadd(pc, sext(off11_field(instr), 11))
        } else {
            v7.regs[sr1_field(instr) as int]
        };
        (with_pc(v7, target), Ok(ActionView::Proceed))
    } else if op == 5 {
        // AND: register or sign-extended immediate operand.
        let operand = if imm_mode(instr) {
            sext(imm5_field(instr), 5)
        } else {
            v.regs[sr2_field(instr) as int]
        };
        let val = v.regs[sr1_field(instr) as int] & operand;
        (set_and_flag(v, dr_field(instr) as int, val), Ok(ActionView::Proceed))
    } else if op == 6 {
        // LDR: load base plus offset.
        let val = v.mem[wadd(v.regs[sr1_field(instr) as int], sext(off6_field(instr), 6)) as int];
        (set_and_flag(v, dr_field(instr) as int, val), Ok(ActionView::Proceed))
    } else if op == 7 {
        // STR: store base plus offset.
        (
            with_mem(
                v,
                wadd(v.regs[sr1_field(instr) as int], sext(off6_field(instr), 6)),
                v.regs[dr_field(instr) as int],
            ),
            Ok(ActionView::Proceed),
        )
    } else if op == 8 || op == 13 {
        // RTI and RES, the reserved encodings: halt with no other effect.
        (halted(v), Ok(ActionView::Halt(Seq::empty())))
    } else if op == 9 {
        // NOT: bitwise complement.
        (
            set_and_flag(v, dr_field(instr) as int, !v.regs[sr1_field(instr) as int]),
            Ok(ActionView::Proceed),
        )
    } else if op == 10 {
        // LDI: load indirect through a PC-relative address word.
        let addr = v.mem[wadd(pc, sext(off9_field(instr), 9)) as int];
        (set_and_flag(v, dr_field(instr) as int, v.mem[addr as int]), Ok(ActionView::Proceed))
    } else if op == 11 {
        // STI: store indirect through a PC-relative address word.
        let addr = v.mem[wadd(pc, sext(off9_field(instr), 9)) as int];
        (with_mem(v, addr, v.regs[dr_field(instr) as int]), Ok(ActionView::Proceed))
    } else if op == 12 {
        // JMP (and RET, when the base register is R7).
        (with_pc(v, v.regs[sr1_field(instr) as int]), Ok(ActionView::Proceed))
    } else if op == 14 {
        // LEA: load the effective address itself.
        (
            set_and_flag(v, dr_field(instr) as int, wadd(pc, sext(off9_field(instr), 9))),
            Ok(ActionView::Proceed),
        )
    } else {
        // TRAP: save the return address in R7 and run the service.
        spec_trap(with_reg(v, 7, pc), trap_field(instr))
    }
}

/// One step of the engine.  A halted machine does nothing.  Otherwise
/// the instruction at the program counter is fetched, the counter is
/// incremented by one modulo 2^16 before the instruction body runs, and
/// the instruction executes.  A trap with an undefined vector leaves the
/// whole state untouched and reports the fatal error instead.
pub open spec fn spec_step(v: VmView) -> (VmView, Result<ActionView, ExecError>) {
    if v.state == VmState::Halted {
        (v, Ok(ActionView::Halt(Seq::empty())))
    } else {
        let instr = v.mem[v.pc() as int];
        if op_field(instr) == 15 && !is_trap_vector(trap_field(instr)) {
            (v, Err(ExecError::InvalidTrapVector(trap_field(instr))))
        } else {
            spec_exec(with_pc(v, wadd(v.pc(), 1)), instr)
        }
    }
}

/// The state after a pending console read is answered with `ch`: R0
/// takes the character code and the flags classify it.
pub open spec fn spec_provide_input(v: VmView, ch: u8) -> VmView {
    set_and_flag(v, 0, ch as u16)
}

/// Whether an executable step result and a mathematical one agree.
pub open spec fn action_matches(
    r: Result<StepAction, ExecError>,
    s: Result<ActionView, ExecError>,
) -> bool {
    match (r, s) {
        (Ok(a), Ok(av)) => a@ == av,
        (Err(e), Err(ev)) => e == ev,
        _ => false,
    }
}

impl VM {
    /// Executes one instruction: exactly the transition `spec_step`
    /// describes, reporting the console action it calls for.
    pub fn step(&mut self) -> (r: Result<StepAction, ExecError>)
        requires
            old(self).wf(),
        ensures
            final(self).wf(),
            final(self)@ == spec_step(old(self)@).0,
            action_matches(r, spec_step(old(self)@).1),
    {
        if self.run_state() == VmState::Halted {
            return Ok(StepAction::Halt(Vec::new()));
        }
        let pc0 = self.get_register(Register::Pc);
        let instr = self.mem_read(pc0);
        proof {
            lemma_instr_fields(instr);
        }
        let opv = instr >> 12;
        if opv == 15 {
            let vect = instr & 0xFF;
            if TrapCode::from_u16(vect).is_none() {
                return Err(ExecError::InvalidTrapVector(vect));
            }
        }
        let pc = pc0.wrapping_add(1);
        self.set_register(Register::Pc, pc);
        let op = OpCode::from_u16(opv).unwrap();
        match op {
            OpCode::Add => {
                let r0 = Register::from_u16((instr >> 9) & 0x7).unwrap();
                let r1 = Register::from_u16((instr >> 6) & 0x7).unwrap();
                let imm_flag = (instr >> 5) & 0x1;
                if imm_flag == 1 {
                    let imm5 = sign_extend(instr & 0x1F, 5);
                    let result = self.get_register(r1).wrapping_add(imm5);
                    self.set_register(r0, result);
                } else {
                    let r2 = Register::from_u16(instr & 0x7).unwrap();
                    let result = self.get_register(r1).wrapping_add(self.get_register(r2));
                    self.set_register(r0, result);
                }
                self.update_flags(r0);
                Ok(StepAction::Proceed)
            }
            OpCode::And => {
                let r0 = Register::from_u16((instr >> 9) & 0x7).unwrap();
                let r1 = Register::from_u16((instr >> 6) & 0x7).unwrap();
                let imm_flag = (instr >> 5) & 0x1;
                let result = if imm_flag == 1 {
                    let imm5 = sign_extend(instr & 0x1F, 5);
                    self.get_register(r1) & imm5
                } else {
                    let r2 = Register::from_u16(instr & 0x7).unwrap();
                    self.get_register(r1) & self.get_register(r2)
                };
                self.set_register(r0, result);
                self.update_flags(r0);
                Ok(StepAction::Proceed)
            }
            OpCode::Not => {
                let r0 = Register::from_u16((instr >> 9) & 0x7).unwrap();
                let r1 = Register::from_u16((instr >> 6) & 0x7).unwrap();
                self.set_register(r0, !self.get_register(r1));
                self.update_flags(r0);
                Ok(StepAction::Proceed)
            }
            OpCode::Br => {
                let pc_offset = sign_extend(instr & 0x1FF, 9);
                let cond_flag = (instr >> 9) & 0x7;
                if self.get_register(Register::Cond) & cond_flag != 0 {
                    let cur = self.get_register(Register::Pc);
                    self.set_register(Register::Pc, cur.wrapping_add(pc_offset));
                }
                Ok(StepAction::Proceed)
            }
            OpCode::Jmp => {
                let base_r = Register::from_u16((instr >> 6) & 0x7).unwrap();
                let target_address = self.get_register(base_r);
                self.set_register(Register::Pc, target_address);
                Ok(StepAction::Proceed)
            }
            OpCode::Jsr => {
                let cur = self.get_register(Register::Pc);
                self.set_register(Register::R7, cur);
                let long_flag = (instr >> 11) & 1;
                if long_flag == 1 {
                    let offset = sign_extend(instr & 0x7FF, 11);
                    self.set_register(Register::Pc, cur.wrapping_add(offset));
                } else {
                    let r1 = Register::from_u16((instr >> 6) & 0x7).unwrap();
                    let target = self.get_register(r1);
                    self.set_register(Register::Pc, target);
                }
                Ok(StepAction::Proceed)
            }
            OpCode::Ld => {
                let r0 = Register::from_u16((instr >> 9) & 0x7).unwrap();
                let pc_offset = sign_extend(instr & 0x1FF, 9);
                let cur = self.get_register(Register::Pc);
                let value = self.mem_read(cur.wrapping_add(pc_offset));
                self.set_register(r0, value);
                self.update_flags(r0);
                Ok(StepAction::Proceed)
            }
            OpCode::Ldi => {
                let r0 = Register::from_u16((instr >> 9) & 0x7).unwrap();
                let pc_offset = sign_extend(instr & 0x1FF, 9);
                let cur = self.get_register(Register::Pc);
                let addr = self.mem_read(cur.wrapping_add(pc_offset));
                let val = self.mem_read(addr);
                self.set_register(r0, val);
                self.update_flags(r0);
                Ok(StepAction::Proceed)
            }
            OpCode::Ldr => {
                let r0 = Register::from_u16((instr >> 9) & 0x7).unwrap();
                let offset = sign_extend(instr & 0x3F, 6);
                let base_r = Register::from_u16((instr >> 6) & 0x7).unwrap();
                let address = self.get_register(base_r).wrapping_add(offset);
                let value = self.mem_read(address);
                self.set_register(r0, value);
                self.update_flags(r0);
                Ok(StepAction::Proceed)
            }
            OpCode::Lea => {
                let r0 = Register::from_u16((instr >> 9) & 0x7).unwrap();
                let pc_offset = sign_extend(instr & 0x1FF, 9);
                let cur = self.get_register(Register::Pc);
                let address = cur.wrapping_add(pc_offset);
                self.set_register(r0, address);
                self.update_flags(r0);
                Ok(StepAction::Proceed)
            }
            OpCode::St => {
                let r0 = Register::from_u16((instr >> 9) & 0x7).unwrap();
                let pc_offset = sign_extend(instr & 0x1FF, 9);
                let value = self.get_register(r0);
                let cur = self.get_register(Register::Pc);
                let address = cur.wrapping_add(pc_offset);
                self.mem_write(address, value);
                Ok(StepAction::Proceed)
            }
            OpCode::Sti => {
                let r0 = Register::from_u16((instr >> 9) & 0x7).unwrap();
                let pc_offset = sign_extend(instr & 0x1FF, 9);
                let value = self.get_register(r0);
                let cur = self.get_register(Register::Pc);
                let address = cur.wrapping_add(pc_offset);
                let target = self.mem_read(address);
                self.mem_write(target, value);
                Ok(StepAction::Proceed)
            }
            OpCode::Str => {
                let r0 = Register::from_u16((instr >> 9) & 0x7).unwrap();
                let base_r = Register::from_u16((instr >> 6) & 0x7).unwrap();
                let base_offset = sign_extend(instr & 0x3F, 6);
                let address = self.get_register(base_r).wrapping_add(base_offset);
                let value = self.get_register(r0);
                self.mem_write(address, value);
                Ok(StepAction::Proceed)
            }
            OpCode::Trap => {
                let cur = self.get_register(Register::Pc);
                self.set_register(Register::R7, cur);
                let trap = TrapCode::from_u16(instr & 0xFF).unwrap();
                match trap {
                    TrapCode::Getc => {
                        Ok(StepAction::NeedsInput { prompt: Vec::new(), echo: false })
                    }
                    TrapCode::Out => {
                        let ch = self.get_register(Register::R0);
                        proof {
                            assert(ch & 0xFF < 0x100) by (bit_vector);
                        }
                        let mut out: Vec<u8> = Vec::new();
                        out.push((ch & 0xFF) as u8);
                        proof {
                            assert(out@ =~= seq![(ch & 0xFF) as u8]);
                        }
                        Ok(StepAction::Output(out))
                    }
                    TrapCode::Puts => {
                        let start = self.get_register(Register::R0);
                        let out = self.read_word_string(start);
                        Ok(StepAction::Output(out))
                    }
                    TrapCode::In => {
                        Ok(StepAction::NeedsInput { prompt: build_in_prompt(), echo: true })
                    }
                    TrapCode::Putsp => {
                        let start = self.get_register(Register::R0);
                        let out = self.read_byte_string(start);
                        Ok(StepAction::Output(out))
                    }
                    TrapCode::Halt => {
                        self.halt();
                        Ok(StepAction::Halt(build_halt_message()))
                    }
                }
            }
            OpCode::Res | OpCode::Rti => {
                self.halt();
                Ok(StepAction::Halt(Vec::new()))
            }
        }
    }

    /// Answers a pending console read, as the GETC and IN services
    /// specify: R0 takes the character code and the flags classify it.
    pub fn provide_input(&mut self, ch: u8)
        requires
            old(self).wf(),
        ensures
            final(self).wf(),
            final(self)@ == spec_provide_input(old(self)@, ch),
    {
        self.set_register(Register::R0, ch as u16);
        self.update_flags(Register::R0);
    }

    /// Collects the console bytes of a word string: the low byte of each
    /// word from `start` up to the first zero word, scanning at most one
    /// pass over the address space.
    pub fn read_word_string(&self, start: u16) -> (out: Vec<u8>)
        requires
            self.wf(),
        ensures
            out@ == puts_bytes(self@.mem, start, MEMORY_MAX as nat),
    {
        let ghost total = puts_bytes(self@.mem, start, MEMORY_MAX as nat);
        let mut out: Vec<u8> = Vec::new();
        let mut address = start;
        let mut steps: usize = 0;
        let mut done = false;
        proof {
            assert(Seq::<u8>::empty() + total =~= total);
        }
        while !done && steps < MEMORY_MAX
            invariant
                self.wf(),
                steps <= MEMORY_MAX,
                total == puts_bytes(self@.mem, start, MEMORY_MAX as nat),
                total == out@ + puts_bytes(self@.mem, address, (MEMORY_MAX - steps) as nat),
                done ==> puts_bytes(self@.mem, address, (MEMORY_MAX - steps) as nat)
                    == Seq::<u8>::empty(),
            decreases MEMORY_MAX - steps, (if done { 0int } else { 1int }),
        {
            let w = self.mem_read(address);
            if w == 0 {
                done = true;
            } else {
                proof {
                    assert(w & 0xFF < 0x100) by (bit_vector);
                }
                let ghost out0 = out@;
                let ghost rest = puts_bytes(
                    self@.mem,
                    wadd(address, 1),
                    (MEMORY_MAX - steps - 1) as nat,
                );
                out.push((w & 0xFF) as u8);
                proof {
                    assert(out@ =~= out0 + seq![(w & 0xFF) as u8]);
                    assert(out0 + (seq![(w & 0xFF) as u8] + rest) =~= (out0 + seq![
                        (w & 0xFF) as u8,
                    ]) + rest);
                }
                address = address.wrapping_add(1);
                steps = steps + 1;
            }
        }
        proof {
            assert(out@ + Seq::<u8>::empty() =~= out@);
        }
        out
    }

    /// Collects the console bytes of a packed byte string: each word
    /// from `start` up to the first zero word contributes its low byte
    /// and then, when it is not zero, its high byte.
    pub fn read_byte_string(&self, start: u16) -> (out: Vec<u8>)
        requires
            self.wf(),
        ensures
            out@ == putsp_bytes(self@.mem, start, MEMORY_MAX as nat),
    {
        let ghost total = putsp_bytes(self@.mem, start, MEMORY_MAX as nat);
        let mut out: Vec<u8> = Vec::new();
        let mut address = start;
        let mut steps: usize = 0;
        let mut done = false;
        proof {
            assert(Seq::<u8>::empty() + total =~= total);
        }
        while !done && steps < MEMORY_MAX
            invariant
                self.wf(),
                steps <= MEMORY_MAX,
                total == putsp_bytes(self@.mem, start, MEMORY_MAX as nat),
                total == out@ + putsp_bytes(self@.mem, address, (MEMORY_MAX - steps) as nat),
                done ==> putsp_bytes(self@.mem, address, (MEMORY_MAX - steps) as nat)
                    == Seq::<u8>::empty(),
            decreases MEMORY_MAX - steps, (if done { 0int } else { 1int }),
        {
            let w = self.mem_read(address);
            if w == 0 {
                done = true;
            } else {
                proof {
                    assert(w & 0xFF < 0x100 && (w >> 8) & 0xFF < 0x100) by (bit_vector);
                }
                let ghost out0 = out@;
                let ghost rest = putsp_bytes(
                    self@.mem,
                    wadd(address, 1),
                    (MEMORY_MAX - steps - 1) as nat,
                );
                let lo = (w & 0xFF) as u8;
                let hi = ((w >> 8) & 0xFF) as u8;
                let ghost chunk = if hi != 0 {
                    seq![lo, hi]
                } else {
                    seq![lo]
                };
                out.push(lo);
                if hi != 0 {
                    out.push(hi);
                }
                proof {
                    assert(out@ =~= out0 + chunk);
                    assert(out0 + (chunk + rest) =~= (out0 + chunk) + rest);
                }
                address = address.wrapping_add(1);
                steps = steps + 1;
            }
        }
        proof {
            assert(out@ + Seq::<u8>::empty() =~= out@);
        }
        out
    }
}

/// Builds the prompt bytes the IN service writes.
fn build_in_prompt() -> (out: Vec<u8>)
    ensures
        out@ == in_prompt(),
{
    let mut out: Vec<u8> = Vec::new();
    out.push(69);
    out.push(110);
    out.push(116);
    out.push(101);
    out.push(114);
    out.push(32);
    out.push(97);
    out.push(32);
    out.push(99);
    out.push(104);
    out.push(97);
    out.push(114);
    out.push(97);
    out.push(99);
    out.push(116);
    out.push(101);
    out.push(114);
    out.push(58);
    out.push(32);
    proof {
        assert(out@ =~= in_prompt());
    }
    out
}

/// Builds the announcement bytes the HALT service writes.
fn build_halt_message() -> (out: Vec<u8>)
    ensures
        out@ == halt_message(),
{
    let mut out: Vec<u8> = Vec::new();
    out.push(72);
    out.push(65);
    out.push(76);
    out.push(84);
    out.push(10);
    proof {
        assert(out@ =~= halt_message());
    }
    out
}

} // verus!
