//! Machine state: the register file (32 general-purpose registers with
//! register 0 hardwired to zero), the flat little-endian byte-addressable
//! memory, and the program-counter pair. `State` is the mathematical view
//! of a `Core` that all contracts speak of.

use crate::fault::Fault;
use vstd::prelude::*;

verus! {

/// Mathematical view of the machine state.
#[verifier::ext_equal]
pub ghost struct State {
    /// Contents of the 32 general-purpose registers.
    pub regs: Seq<u32>,
    /// Address of the instruction currently being executed.
    pub pc: u32,
    /// Staging register for the program counter taking effect at the end
    /// of the current instruction.
    pub next_pc: u32,
    /// Byte-addressable memory, little-endian for multi-byte values.
    pub mem: Seq<u8>,
}

/// The architectural machine state: 32 registers, the program-counter
/// pair, and byte-addressable memory.
pub struct Core {
    /// The 32 general-purpose registers.
    pub regs: Vec<u32>,
    /// Address of the instruction currently being executed.
    pub pc: u32,
    /// Staged program counter, committed at the end of each instruction.
    pub next_pc: u32,
    /// Byte-addressable memory.
    pub memory: Vec<u8>,
}

impl View for Core {
    type V = State;

    open spec fn view(&self) -> State {
        State { regs: self.regs@, pc: self.pc, next_pc: self.next_pc, mem: self.memory@ }
    }
}

/// Well-formedness of a machine state: exactly 32 registers, register 0
/// holding 0, and a memory that fits the 32-bit address space.
pub open spec fn wf_state(s: State) -> bool {
    &&& s.regs.len() == 32
    &&& s.regs[0] == 0
    &&& s.mem.len() <= 0xffff_ffff
}

/// Value read from the register file at `reg` (taken modulo 32).
/// Well-formedness makes a read of register 0 yield 0.
pub open spec fn rf_read(regs: Seq<u32>, reg: u32) -> u32 {
    regs[reg as int % 32]
}

/// Register file after writing `val` at `reg` (taken modulo 32): a write
/// to register 0 is discarded, any other write replaces the single slot.
pub open spec fn rf_write(regs: Seq<u32>, reg: u32, val: u32) -> Seq<u32> {
    if reg as int % 32 == 0 {
        regs
    } else {
        regs.update(reg as int % 32, val)
    }
}

/// The 32-bit word stored little-endian at `addr`: the byte at `addr` is
/// least significant.
pub open spec fn word_at(mem: Seq<u8>, addr: int) -> u32 {
    (mem[addr] as u32) | ((mem[addr + 1] as u32) << 8) | ((mem[addr + 2] as u32) << 16) | ((mem[addr
        + 3] as u32) << 24)
}

/// Little-endian byte `j` of the word `w`.
pub open spec fn word_byte(w: u32, j: int) -> u8 {
    if j == 0 {
        (w & 0xff) as u8
    } else if j == 1 {
        ((w >> 8) & 0xff) as u8
    } else if j == 2 {
        ((w >> 16) & 0xff) as u8
    } else {
        ((w >> 24) & 0xff) as u8
    }
}

/// Reassembling the four little-endian bytes of a word recovers the word.
pub proof fn lemma_word_bytes_roundtrip(w: u32)
    ensures
        ((word_byte(w, 0) as u32) | ((word_byte(w, 1) as u32) << 8) | ((word_byte(w, 2) as u32)
            << 16) | ((word_byte(w, 3) as u32) << 24)) == w,
{
    assert((((w & 0xff) as u8) as u32) | (((((w >> 8) & 0xff) as u8) as u32) << 8) | (((((w >> 16)
        & 0xff) as u8) as u32) << 16) | (((((w >> 24) & 0xff) as u8) as u32) << 24) == w)
        by (bit_vector);
}

impl Core {
    /// Well-formedness of the machine state.
    pub open spec fn wf(&self) -> bool {
        wf_state(self@)
    }

    /// Fresh machine: all registers zero, both program counters zero, and
    /// `mem_size` bytes of zeroed memory.
    pub fn new(mem_size: usize) -> (c: Core)
        requires
            mem_size <= 0xffff_ffff,
        ensures
            c.wf(),
            c@.regs == Seq::new(32, |i: int| 0u32),
            c@.pc == 0,
            c@.next_pc == 0,
            c@.mem == Seq::new(mem_size as nat, |i: int| 0u8),
    {
        let mut regs: Vec<u32> = Vec::new();
        let mut i: usize = 0;
        while i < 32
            invariant
                i <= 32,
                regs@.len() == i,
                forall|k: int| 0 <= k < i ==> regs@[k] == 0u32,
            decreases 32 - i,
        {
            regs.push(0);
            i = i + 1;
        }
        let mut memory: Vec<u8> = Vec::new();
        let mut j: usize = 0;
        while j < mem_size
            invariant
                j <= mem_size,
                memory@.len() == j,
                forall|k: int| 0 <= k < j ==> memory@[k] == 0u8,
            decreases mem_size - j,
        {
            memory.push(0);
            j = j + 1;
        }
        let c = Core { regs, pc: 0, next_pc: 0, memory };
        proof {
            assert(c@.regs =~= Seq::new(32, |i: int| 0u32));
            assert(c@.mem =~= Seq::new(mem_size as nat, |i: int| 0u8));
        }
        c
    }

    /// Current program counter.
    pub fn pc(&self) -> (r: u32)
        ensures
            r == self@.pc,
    {
        self.pc
    }

    /// Currently staged next program counter.
    pub fn next_pc(&self) -> (r: u32)
        ensures
            r == self@.next_pc,
    {
        self.next_pc
    }

    /// Memory capacity in bytes.
    pub fn mem_size(&self) -> (r: usize)
        ensures
            r == self@.mem.len(),
    {
        self.memory.len()
    }

    /// Seed the program counter before execution starts.
    pub fn set_pc(&mut self, pc: u32)
        requires
            old(self).wf(),
        ensures
            final(self).wf(),
            final(self)@ == (State { pc, ..old(self)@ }),
    {
        self.pc = pc;
    }
}

/// Read a register: register 0 reads as 0; the index is taken modulo 32.
pub fn get_reg(core: &Core, reg: u32) -> (r: u32)
    requires
        core.wf(),
    ensures
        r == rf_read(core@.regs, reg),
        reg as int % 32 == 0 ==> r == 0,
{
    core.regs[(reg % 32) as usize]
}

/// Write a register: a write to register 0 is silently discarded; any
/// other write replaces the single slot and nothing else.
pub fn set_reg(core: &mut Core, reg: u32, val: u32)
    requires
        old(core).wf(),
    ensures
        final(core).wf(),
        final(core)@ == (State { regs: rf_write(old(core)@.regs, reg, val), ..old(core)@ }),
{
    let idx: usize = (reg % 32) as usize;
    if idx != 0 {
        core.regs.set(idx, val);
    }
    proof {
        assert(final(core)@ =~= (State { regs: rf_write(old(core)@.regs, reg, val), ..old(
            core,
        )@ }));
    }
}

/// Fetch the 32-bit word stored little-endian at the current program
/// counter. Succeeds exactly when all four bytes lie inside memory;
/// otherwise reports a memory fault and leaves everything untouched.
pub fn fetch_instruction(core: &Core) -> (r: Result<u32, Fault>)
    requires
        core.wf(),
    ensures
        core@.pc + 3 < core@.mem.len() ==> r == Ok::<u32, Fault>(
            word_at(core@.mem, core@.pc as int),
        ),
        core@.pc + 3 >= core@.mem.len() ==> r == Err::<u32, Fault>(Fault::MemoryOutOfBounds),
{
    if (core.pc as u64) + 3 < (core.memory.len() as u64) {
        let p: usize = core.pc as usize;
        let b0 = core.memory[p];
        let b1 = core.memory[p + 1];
        let b2 = core.memory[p + 2];
        let b3 = core.memory[p + 3];
        Ok((b0 as u32) | ((b1 as u32) << 8) | ((b2 as u32) << 16) | ((b3 as u32) << 24))
    } else {
        Err(Fault::MemoryOutOfBounds)
    }
}

/// Write the program image into memory: each word is stored at
/// consecutive 4-byte addresses starting at address 0, least-significant
/// byte first, so that fetching address `4 * k` reads back word `k`.
/// Registers, both program counters and the rest of memory are untouched.
pub fn load_prog(core: &mut Core, prog: Vec<u32>)
    requires
        old(core).wf(),
        4 * prog@.len() <= old(core)@.mem.len(),
    ensures
        final(core).wf(),
        final(core)@.regs == old(core)@.regs,
        final(core)@.pc == old(core)@.pc,
        final(core)@.next_pc == old(core)@.next_pc,
        final(core)@.mem.len() == old(core)@.mem.len(),
        forall|i: int|
            0 <= i < 4 * prog@.len() ==> final(core)@.mem[i] == word_byte(prog@[i / 4], i % 4),
        forall|i: int|
            4 * prog@.len() <= i < old(core)@.mem.len() ==> final(core)@.mem[i] == old(
                core,
            )@.mem[i],
        forall|k: int| 0 <= k < prog@.len() ==> word_at(final(core)@.mem, 4 * k) == prog@[k],
{
    let mut wi: usize = 0;
    while wi < prog.len()
        invariant
            wi <= prog@.len(),
            4 * prog@.len() <= core@.mem.len(),
            core@.mem.len() <= 0xffff_ffff,
            core@.regs == old(core)@.regs,
            core@.pc == old(core)@.pc,
            core@.next_pc == old(core)@.next_pc,
            core@.mem.len() == old(core)@.mem.len(),
            forall|i: int| 0 <= i < 4 * wi ==> core@.mem[i] == word_byte(prog@[i / 4], i % 4),
            forall|i: int| 4 * wi <= i < core@.mem.len() ==> core@.mem[i] == old(core)@.mem[i],
        decreases prog@.len() - wi,
    {
        let instr = prog[wi];
        proof {
            assert(instr & 0xff < 256 && (instr >> 8) & 0xff < 256 && (instr >> 16) & 0xff < 256
                && (instr >> 24) & 0xff < 256) by (bit_vector);
        }
        let base: usize = 4 * wi;
        core.memory.set(base, (instr & 0xff) as u8);
        core.memory.set(base + 1, ((instr >> 8) & 0xff) as u8);
        core.memory.set(base + 2, ((instr >> 16) & 0xff) as u8);
        core.memory.set(base + 3, ((instr >> 24) & 0xff) as u8);
        wi = wi + 1;
    }
    proof {
        assert forall|k: int| 0 <= k < prog@.len() implies word_at(final(core)@.mem, 4 * k)
            == prog@[k] by {
            lemma_word_bytes_roundtrip(prog@[k]);
            assert(final(core)@.mem[4 * k] == word_byte(prog@[k], 0));
            assert(final(core)@.mem[4 * k + 1] == word_byte(prog@[k], 1));
            assert(final(core)@.mem[4 * k + 2] == word_byte(prog@[k], 2));
            assert(final(core)@.mem[4 * k + 3] == word_byte(prog@[k], 3));
        }
    }
}

/// Register file after a whole sequence of writes, applied first to last.
pub open spec fn apply_writes(regs: Seq<u32>, writes: Seq<(u32, u32)>) -> Seq<u32>
    decreases writes.len(),
{
    if writes.len() == 0 {
        regs
    } else {
        apply_writes(rf_write(regs, writes[0].0, writes[0].1), writes.drop_first())
    }
}

/// Zero-register invariant: starting from any well-formed register file,
/// after any sequence of writes — whatever registers they target,
/// register 0 included — a read of register 0 still returns 0.
pub proof fn lemma_zero_register(regs: Seq<u32>, writes: Seq<(u32, u32)>)
    requires
        regs.len() == 32,
        regs[0] == 0,
    ensures
        apply_writes(regs, writes).len() == 32,
        apply_writes(regs, writes)[0] == 0,
        rf_read(apply_writes(regs, writes), 0) == 0,
    decreases writes.len(),
{
    if writes.len() > 0 {
        let regs1 = rf_write(regs, writes[0].0, writes[0].1);
        lemma_zero_register(regs1, writes.drop_first());
    }
}

} // verus!
