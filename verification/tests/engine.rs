use lc3::isa::Register;
use lc3::machine::{VmState, VM};
use lc3::step::StepAction;

/// A machine with `words` loaded at the default entry address and the
/// engine placed at the start of a run.
fn setup(words: Vec<u16>) -> VM {
    let mut vm = VM::new();
    vm.load_image(0x3000, &words);
    vm.start();
    vm
}

fn step_ok(vm: &mut VM) -> StepAction {
    match vm.step() {
        Ok(a) => a,
        Err(e) => panic!("unexpected exec error: {:?}", e),
    }
}

#[test]
fn add_immediate_scenario() {
    // ADD R0 <- R0 + imm5(5), registers all zero at start.
    let mut vm = setup(vec![0x1025]);
    let action = step_ok(&mut vm);
    assert!(matches!(action, StepAction::Proceed));
    assert_eq!(vm.get_register(Register::R0), 5);
    assert_eq!(vm.get_register(Register::Cond), 1);
    assert_eq!(vm.get_register(Register::Pc), 0x3001);
    assert_eq!(vm.run_state(), VmState::Running);
}

#[test]
fn add_register_mode() {
    // ADD R2 <- R0 + R1.
    let mut vm = setup(vec![0x1401]);
    vm.set_register(Register::R0, 2);
    vm.set_register(Register::R1, 3);
    step_ok(&mut vm);
    assert_eq!(vm.get_register(Register::R2), 5);
    assert_eq!(vm.get_register(Register::Cond), 1);
}

#[test]
fn add_wraparound_sets_neg() {
    // ADD R0 <- R1 + imm5(1) with R1 = 0x7FFF wraps into the negatives.
    let mut vm = setup(vec![0x1061]);
    vm.set_register(Register::R1, 0x7FFF);
    step_ok(&mut vm);
    assert_eq!(vm.get_register(Register::R0), 0x8000);
    assert_eq!(vm.get_register(Register::Cond), 4);
}

#[test]
fn add_full_wrap_to_zero() {
    // ADD R0 <- R1 + imm5(1) with R1 = 0xFFFF wraps to zero, flag ZRO.
    let mut vm = setup(vec![0x1061]);
    vm.set_register(Register::R1, 0xFFFF);
    step_ok(&mut vm);
    assert_eq!(vm.get_register(Register::R0), 0);
    assert_eq!(vm.get_register(Register::Cond), 2);
}

#[test]
fn add_negative_immediate() {
    // ADD R0 <- R1 + imm5(-1): the immediate sign-extends.
    let mut vm = setup(vec![0x107F]);
    vm.set_register(Register::R1, 10);
    step_ok(&mut vm);
    assert_eq!(vm.get_register(Register::R0), 9);
}

#[test]
fn and_immediate_zero() {
    // AND R0 <- R0 & imm5(0) clears the register, flag ZRO.
    let mut vm = setup(vec![0x5020]);
    vm.set_register(Register::R0, 0xABCD);
    step_ok(&mut vm);
    assert_eq!(vm.get_register(Register::R0), 0);
    assert_eq!(vm.get_register(Register::Cond), 2);
}

#[test]
fn and_register_mode() {
    // AND R2 <- R0 & R1.
    let mut vm = setup(vec![0x5401]);
    vm.set_register(Register::R0, 0b1100);
    vm.set_register(Register::R1, 0b1010);
    step_ok(&mut vm);
    assert_eq!(vm.get_register(Register::R2), 0b1000);
    assert_eq!(vm.get_register(Register::Cond), 1);
}

#[test]
fn not_complements() {
    // NOT R1 <- !R0.
    let mut vm = setup(vec![0x923F]);
    vm.set_register(Register::R0, 0x00FF);
    step_ok(&mut vm);
    assert_eq!(vm.get_register(Register::R1), 0xFF00);
    assert_eq!(vm.get_register(Register::Cond), 4);
}

#[test]
fn br_taken_on_zero_flag() {
    // BRz with offset 2: the flags hold ZRO right after start.
    let mut vm = setup(vec![0x0402]);
    step_ok(&mut vm);
    assert_eq!(vm.get_register(Register::Pc), 0x3003);
}

#[test]
fn br_not_taken() {
    // BRp while the flags hold ZRO: the branch falls through.
    let mut vm = setup(vec![0x0202]);
    step_ok(&mut vm);
    assert_eq!(vm.get_register(Register::Pc), 0x3001);
}

#[test]
fn br_all_conditions_taken() {
    // BRnzp always branches; offset -2 lands below the entry point.
    let mut vm = setup(vec![0x0FFE]);
    step_ok(&mut vm);
    assert_eq!(vm.get_register(Register::Pc), 0x2FFF);
}

#[test]
fn br_does_not_touch_flags() {
    let mut vm = setup(vec![0x0402]);
    step_ok(&mut vm);
    assert_eq!(vm.get_register(Register::Cond), 2);
}

#[test]
fn jmp_sets_pc() {
    // JMP R2.
    let mut vm = setup(vec![0xC080]);
    vm.set_register(Register::R2, 0x4242);
    step_ok(&mut vm);
    assert_eq!(vm.get_register(Register::Pc), 0x4242);
}

#[test]
fn ret_jumps_through_r7() {
    // JMP R7 acts as RET.
    let mut vm = setup(vec![0xC1C0]);
    vm.set_register(Register::R7, 0x3456);
    step_ok(&mut vm);
    assert_eq!(vm.get_register(Register::Pc), 0x3456);
}

#[test]
fn jsr_long_offset() {
    // JSR with PCoffset11 = 5: R7 holds the return address.
    let mut vm = setup(vec![0x4805]);
    step_ok(&mut vm);
    assert_eq!(vm.get_register(Register::R7), 0x3001);
    assert_eq!(vm.get_register(Register::Pc), 0x3006);
}

#[test]
fn jsr_negative_offset() {
    // JSR with PCoffset11 = -1 jumps back onto the instruction itself.
    let mut vm = setup(vec![0x4FFF]);
    step_ok(&mut vm);
    assert_eq!(vm.get_register(Register::R7), 0x3001);
    assert_eq!(vm.get_register(Register::Pc), 0x3000);
}

#[test]
fn jsrr_base_register() {
    // JSRR R2: R7 holds the return address regardless of mode.
    let mut vm = setup(vec![0x4080]);
    vm.set_register(Register::R2, 0x4000);
    step_ok(&mut vm);
    assert_eq!(vm.get_register(Register::R7), 0x3001);
    assert_eq!(vm.get_register(Register::Pc), 0x4000);
}

#[test]
fn jsrr_through_r7_uses_return_address() {
    // JSRR R7: R7 is written before the base register is read, so the
    // jump lands on the return address itself.
    let mut vm = setup(vec![0x41C0]);
    vm.set_register(Register::R7, 0x1234);
    step_ok(&mut vm);
    assert_eq!(vm.get_register(Register::R7), 0x3001);
    assert_eq!(vm.get_register(Register::Pc), 0x3001);
}

#[test]
fn ld_loads_pc_relative() {
    // LD R1 <- Memory[PC + 2]; the data word sits at 0x3003.
    let mut vm = setup(vec![0x2202, 0, 0, 0x0042]);
    step_ok(&mut vm);
    assert_eq!(vm.get_register(Register::R1), 0x42);
    assert_eq!(vm.get_register(Register::Cond), 1);
}

#[test]
fn ldi_round_trip() {
    // LDI R0 with offset 1: Memory[0x3002] holds the address 0x4000 and
    // Memory[0x4000] holds the value.
    let mut vm = setup(vec![0xA001, 0, 0x4000]);
    vm.mem_write(0x4000, 0xBEEF);
    step_ok(&mut vm);
    assert_eq!(vm.get_register(Register::R0), 0xBEEF);
    assert_eq!(vm.get_register(Register::Cond), 4);
    assert_eq!(vm.get_register(Register::Pc), 0x3001);
}

#[test]
fn ldr_loads_base_plus_offset() {
    // LDR R0 <- Memory[R1 + 2].
    let mut vm = setup(vec![0x6042]);
    vm.set_register(Register::R1, 0x4000);
    vm.mem_write(0x4002, 7);
    step_ok(&mut vm);
    assert_eq!(vm.get_register(Register::R0), 7);
    assert_eq!(vm.get_register(Register::Cond), 1);
}

#[test]
fn lea_loads_address_and_flags() {
    // LEA R0 <- PC + 3 after the fetch increment.
    let mut vm = setup(vec![0xE003]);
    step_ok(&mut vm);
    assert_eq!(vm.get_register(Register::R0), 0x3004);
    assert_eq!(vm.get_register(Register::Cond), 1);
}

#[test]
fn st_stores_pc_relative() {
    // ST R0 -> Memory[PC + 3]; the flags stay untouched.
    let mut vm = setup(vec![0x3003]);
    vm.set_register(Register::R0, 0x55AA);
    step_ok(&mut vm);
    assert_eq!(vm.mem_read(0x3004), 0x55AA);
    assert_eq!(vm.get_register(Register::Cond), 2);
}

#[test]
fn sti_stores_indirect() {
    // STI R0 through the address word at 0x3002.
    let mut vm = setup(vec![0xB001, 0, 0x5000]);
    vm.set_register(Register::R0, 0x1111);
    step_ok(&mut vm);
    assert_eq!(vm.mem_read(0x5000), 0x1111);
}

#[test]
fn str_stores_base_plus_offset() {
    // STR R0 -> Memory[R1 + 1].
    let mut vm = setup(vec![0x7041]);
    vm.set_register(Register::R0, 9);
    vm.set_register(Register::R1, 0x4000);
    step_ok(&mut vm);
    assert_eq!(vm.mem_read(0x4001), 9);
}

#[test]
fn pc_wraps_at_address_space_top() {
    // A fetch at the last address wraps the program counter to zero.
    let mut vm = setup(vec![]);
    vm.mem_write(0xFFFF, 0x1025);
    vm.set_register(Register::Pc, 0xFFFF);
    step_ok(&mut vm);
    assert_eq!(vm.get_register(Register::Pc), 0);
    assert_eq!(vm.get_register(Register::R0), 5);
}

#[test]
fn rti_halts_engine() {
    let mut vm = setup(vec![0x8000]);
    let action = step_ok(&mut vm);
    match action {
        StepAction::Halt(bytes) => assert!(bytes.is_empty()),
        other => panic!("expected a halt action, got {:?}", action_name(&other)),
    }
    assert_eq!(vm.run_state(), VmState::Halted);
}

#[test]
fn res_halts_engine() {
    let mut vm = setup(vec![0xD000]);
    let action = step_ok(&mut vm);
    assert!(matches!(action, StepAction::Halt(_)));
    assert_eq!(vm.run_state(), VmState::Halted);
}

#[test]
fn brn_taken_after_negative_result() {
    // ADD R0 <- R0 + imm5(-1) leaves the NEG flag, so BRn branches.
    let mut vm = setup(vec![0x103F, 0x0802]);
    step_ok(&mut vm);
    assert_eq!(vm.get_register(Register::R0), 0xFFFF);
    assert_eq!(vm.get_register(Register::Cond), 4);
    step_ok(&mut vm);
    assert_eq!(vm.get_register(Register::Pc), 0x3004);
}

#[test]
fn countdown_program_runs_to_halt() {
    // R1 <- 3; decrement while positive; then HALT.  The branch loops
    // back on the POS flag and falls through once the flag is ZRO.
    let mut vm = setup(vec![0x1263, 0x127F, 0x03FE, 0xF025]);
    let mut steps = 0;
    loop {
        steps += 1;
        assert!(steps < 100, "program did not halt");
        match step_ok(&mut vm) {
            StepAction::Halt(_) => break,
            _ => {}
        }
    }
    assert_eq!(vm.get_register(Register::R1), 0);
    assert_eq!(vm.get_register(Register::Cond), 2);
    assert_eq!(vm.run_state(), VmState::Halted);
}

fn action_name(a: &StepAction) -> &'static str {
    match a {
        StepAction::Proceed => "proceed",
        StepAction::Output(_) => "output",
        StepAction::NeedsInput { .. } => "needs-input",
        StepAction::Halt(_) => "halt",
    }
}
