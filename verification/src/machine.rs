//! The machine's state: the 64K-word memory, the ten-register file, the
//! engine's run state, and the primitive operations on them.

use vstd::prelude::*;

use crate::bits::{bit_at, wadd};
use crate::isa::{reg_num, ConditionFlag, Register};

verus! {

/// Number of words in the address space; every 16-bit address is valid.
pub const MEMORY_MAX: usize = 65536;

/// Number of registers in the register file: R0 through R7, then the
/// program counter and the condition-flag register.
pub const REGISTER_COUNT: usize = 10;

/// The address the program counter takes at the start of a run.
pub const PC_START: u16 = 0x3000;

/// The engine's run state: it executes instructions while `Running` and
/// does nothing once `Halted`, a terminal state.
#[derive(Clone, Copy, PartialEq, Eq, Structural, Debug)]
pub enum VmState {
    Running,
    Halted,
}

/// The mathematical state of the machine: the memory contents, the
/// register-file contents, and the engine's run state.
#[verifier::ext_equal]
pub ghost struct VmView {
    pub mem: Seq<u16>,
    pub regs: Seq<u16>,
    pub state: VmState,
}

impl VmView {
    /// Well-formedness: the memory spans the full address space and the
    /// register file has its ten registers.
    pub open spec fn wf(self) -> bool {
        &&& self.mem.len() == MEMORY_MAX
        &&& self.regs.len() == REGISTER_COUNT
    }

    /// The program counter's value.
    pub open spec fn pc(self) -> u16 {
        self.regs[8]
    }

    /// The condition-flag register's value.
    pub open spec fn cond(self) -> u16 {
        self.regs[9]
    }
}

/// The condition-flag pattern derived from a just-written value: `Zro`
/// for zero, `Neg` when the high bit is set (the value is negative as a
/// signed 16-bit word), `Pos` otherwise.
pub open spec fn flag_for(val: u16) -> u16 {
    if val == 0 {
        2
    } else if bit_at(val, 15) {
        4
    } else {
        1
    }
}

/// The flag pattern of a value is always exactly one of the three flag
/// bits, and which one it is follows the value's sign classification.
pub proof fn lemma_flag_for(v: u16)
    ensures
        flag_for(v) == 1 || flag_for(v) == 2 || flag_for(v) == 4,
        flag_for(v) == 2 <==> v == 0,
        flag_for(v) == 4 <==> v >= 0x8000,
        flag_for(v) == 1 <==> 0 < v < 0x8000,
{
    assert((v >> 15) & 1 == 1 <==> v >= 0x8000) by (bit_vector);
}

/// Loading `words` into memory starting at `origin`: `words[i]` lands at
/// address `origin + i` modulo 2^16, written in order, so a later word
/// silently overwrites an earlier one whose address it revisits.
pub open spec fn spec_load_words(mem: Seq<u16>, origin: u16, words: Seq<u16>) -> Seq<u16>
    decreases words.len(),
{
    if words.len() == 0 {
        mem
    } else {
        spec_load_words(mem.update(origin as int, words[0]), wadd(origin, 1), words.drop_first())
    }
}

/// The address the `i`-th word of an image with this origin lands at:
/// origin plus `i`, wrapping past the top of the address space.
pub open spec fn image_addr(origin: u16, i: int) -> int {
    (origin + i) % 65536
}

/// Whether loading `len` words at `origin` writes address `a`.
pub open spec fn in_loaded_range(origin: u16, len: int, a: int) -> bool {
    exists|i: int| 0 <= i < len && image_addr(origin, i) == a
}

/// Where each loaded word lands: an image of at most 2^16 words writes
/// `words[i]` to address origin+i modulo 2^16 and leaves every address
/// it does not reach unchanged.
pub proof fn lemma_load_words_effect(mem: Seq<u16>, origin: u16, words: Seq<u16>)
    requires
        mem.len() == MEMORY_MAX,
        words.len() <= MEMORY_MAX,
    ensures
        spec_load_words(mem, origin, words).len() == MEMORY_MAX,
        forall|i: int|
            0 <= i < words.len() ==> spec_load_words(mem, origin, words)[#[trigger] image_addr(
                origin,
                i,
            )] == words[i],
        forall|a: int|
            0 <= a < MEMORY_MAX && !in_loaded_range(origin, words.len() as int, a)
                ==> spec_load_words(mem, origin, words)[a] == mem[a],
    decreases words.len(),
{
    if words.len() == 0 {
    } else {
        let mem1 = mem.update(origin as int, words[0]);
        let origin1 = wadd(origin, 1);
        let rest = words.drop_first();
        let loaded = spec_load_words(mem, origin, words);
        lemma_load_words_effect(mem1, origin1, rest);
        assert(loaded == spec_load_words(mem1, origin1, rest));
        assert forall|i: int| 1 <= i < words.len() implies image_addr(origin1, i - 1)
            == image_addr(origin, i) by {
            assert(origin1 == (origin + 1) % 65536);
        }
        // The first word survives the rest of the load: the remaining
        // writes only revisit the origin after a full wrap, and the
        // image is not long enough for that.
        assert(image_addr(origin, 0) == origin as int);
        assert(!in_loaded_range(origin1, rest.len() as int, origin as int)) by {
            if in_loaded_range(origin1, rest.len() as int, origin as int) {
                let j = choose|j: int|
                    0 <= j < rest.len() && image_addr(origin1, j) == origin as int;
                assert(image_addr(origin1, j) == (origin + 1 + j) % 65536);
                assert((origin + 1 + j) % 65536 == origin as int ==> j == 65535);
            }
        }
        assert(loaded[origin as int] == mem1[origin as int]);
        assert forall|i: int| 0 <= i < words.len() implies loaded[image_addr(origin, i)]
            == words[i] by {
            if i >= 1 {
                assert(loaded[image_addr(origin1, i - 1)] == rest[i - 1]);
            }
        }
        assert forall|a: int|
            0 <= a < MEMORY_MAX && !in_loaded_range(origin, words.len() as int, a) implies loaded[a]
            == mem[a] by {
            assert(image_addr(origin, 0) == origin as int);
            assert forall|j: int| 0 <= j < rest.len() && image_addr(origin1, j) == a implies
                in_loaded_range(origin, words.len() as int, a) by {
                assert(image_addr(origin, j + 1) == a);
            }
            assert(!in_loaded_range(origin1, rest.len() as int, a));
            assert(loaded[a] == mem1[a]);
        }
    }
}

/// The simulated machine: memory, register file, and run state.
pub struct VM {
    memory: Vec<u16>,
    registers: Vec<u16>,
    state: VmState,
}

impl View for VM {
    type V = VmView;

    closed spec fn view(&self) -> VmView {
        VmView { mem: self.memory@, regs: self.registers@, state: self.state }
    }
}

impl VM {
    /// Well-formedness of the machine's state.
    pub open spec fn wf(self) -> bool {
        self@.wf()
    }

    /// A fresh machine: memory and registers all zero, engine running.
    pub fn new() -> (vm: VM)
        ensures
            vm.wf(),
            forall|a: int| 0 <= a < MEMORY_MAX ==> vm@.mem[a] == 0,
            forall|r: int| 0 <= r < REGISTER_COUNT ==> vm@.regs[r] == 0,
            vm@.state == VmState::Running,
    {
        VM { memory: vec![0u16; 65536], registers: vec![0u16; 10], state: VmState::Running }
    }

    /// The engine's current run state.
    pub fn run_state(&self) -> (s: VmState)
        ensures
            s == self@.state,
    {
        self.state
    }

    /// Reads the word at `address`; every address is in range.
    pub fn mem_read(&self, address: u16) -> (w: u16)
        requires
            self.wf(),
        ensures
            w == self@.mem[address as int],
    {
        self.memory[address as usize]
    }

    /// Overwrites the word at `address`; every address is in range.
    pub fn mem_write(&mut self, address: u16, value: u16)
        requires
            old(self).wf(),
        ensures
            final(self).wf(),
            final(self)@.mem == old(self)@.mem.update(address as int, value),
            final(self)@.regs == old(self)@.regs,
            final(self)@.state == old(self)@.state,
    {
        self.memory[address as usize] = value;
    }

    /// The current value of a register.
    pub fn get_register(&self, reg: Register) -> (v: u16)
        requires
            self.wf(),
        ensures
            v == self@.regs[reg_num(reg)],
    {
        self.registers[reg.index()]
    }

    /// Overwrites a register.
    pub fn set_register(&mut self, reg: Register, value: u16)
        requires
            old(self).wf(),
        ensures
            final(self).wf(),
            final(self)@.regs == old(self)@.regs.update(reg_num(reg), value),
            final(self)@.mem == old(self)@.mem,
            final(self)@.state == old(self)@.state,
    {
        let i = reg.index();
        self.registers[i] = value;
    }

    /// Rewrites the condition-flag register from the current value of
    /// `reg`: zero, negative (high bit set) or positive.
    pub fn update_flags(&mut self, reg: Register)
        requires
            old(self).wf(),
        ensures
            final(self).wf(),
            final(self)@.regs == old(self)@.regs.update(
                9,
                flag_for(old(self)@.regs[reg_num(reg)]),
            ),
            final(self)@.mem == old(self)@.mem,
            final(self)@.state == old(self)@.state,
    {
        let val = self.get_register(reg);
        let flag = if val == 0 {
            ConditionFlag::Zro
        } else if (val >> 15) & 1 == 1 {
            ConditionFlag::Neg
        } else {
            ConditionFlag::Pos
        };
        self.set_register(Register::Cond, flag.bits());
    }

    /// Copies `words` into memory starting at `origin`, wrapping past the
    /// top of the address space; later writes win over earlier ones.
    pub fn load_image(&mut self, origin: u16, words: &Vec<u16>)
        requires
            old(self).wf(),
        ensures
            final(self).wf(),
            final(self)@.mem == spec_load_words(old(self)@.mem, origin, words@),
            final(self)@.regs == old(self)@.regs,
            final(self)@.state == old(self)@.state,
    {
        let ghost mem0 = self@.mem;
        proof {
            assert(words@.skip(0) =~= words@);
        }
        let mut address = origin;
        let mut i: usize = 0;
        while i < words.len()
            invariant
                self.wf(),
                i <= words@.len(),
                self@.regs == old(self)@.regs,
                self@.state == old(self)@.state,
                spec_load_words(mem0, origin, words@) == spec_load_words(
                    self@.mem,
                    address,
                    words@.skip(i as int),
                ),
            decreases words@.len() - i,
        {
            self.mem_write(address, words[i]);
            proof {
                assert(words@.skip(i as int).drop_first() =~= words@.skip(i + 1));
            }
            address = address.wrapping_add(1);
            i = i + 1;
        }
        proof {
            assert(words@.skip(words@.len() as int).len() == 0);
        }
    }

    /// Transitions the engine to its terminal halted state, with no
    /// other effect on memory or registers.
    pub fn halt(&mut self)
        requires
            old(self).wf(),
        ensures
            final(self).wf(),
            final(self)@.mem == old(self)@.mem,
            final(self)@.regs == old(self)@.regs,
            final(self)@.state == VmState::Halted,
    {
        self.state = VmState::Halted;
    }

    /// Puts the engine at the start of a run: the condition flags hold
    /// `Zro`, the program counter holds the default entry address, and
    /// the engine is running.
    pub fn start(&mut self)
        requires
            old(self).wf(),
        ensures
            final(self).wf(),
            final(self)@.regs == old(self)@.regs.update(9, 2u16).update(
                8,
                PC_START as u16,
            ),
            final(self)@.mem == old(self)@.mem,
            final(self)@.state == VmState::Running,
    {
        self.set_register(Register::Cond, ConditionFlag::Zro.bits());
        self.set_register(Register::Pc, PC_START);
        self.state = VmState::Running;
    }
}

} // verus!
