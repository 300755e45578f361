//! Instruction dispatcher and execution engine. `spec_step` is the
//! mathematical small-step semantics of the machine: fetch the word at
//! `pc`, stage `next_pc = pc + 4`, dispatch on the opcode (and, for
//! R-type, on the `(funct3, funct7)` pair), and commit `pc = next_pc`.
//! The executable functions are proved to follow it exactly; a fault
//! leaves the whole machine state untouched.

use crate::decode::{
    get_funct3, get_funct7, get_imm_jtype, get_opcode, get_rd, get_rs1, get_rs2, spec_funct3,
    spec_funct7, spec_imm_jtype, spec_opcode, spec_rd, spec_rs1, spec_rs2, FUNCT3_ADD, FUNCT7_ADD,
    OPCODE_JAL, OPCODE_RTYPE,
};
use crate::fault::Fault;
use crate::machine::{
    fetch_instruction, get_reg, rf_read, rf_write, set_reg, wf_state, word_at, Core, State,
};
use vstd::prelude::*;

verus! {

/// Effect of an R-type instruction word on the machine state: the only
/// implemented `(funct3, funct7)` pair is integer addition, which writes
/// the wrapping sum of the two source registers into the destination;
/// every other pair is an unimplemented-instruction fault.
pub open spec fn spec_exec_rtype(s: State, instr: u32) -> Result<State, Fault> {
    if spec_funct3(instr) == FUNCT3_ADD && spec_funct7(instr) == FUNCT7_ADD {
        Ok(
            State {
                regs: rf_write(
                    s.regs,
                    spec_rd(instr),
                    rf_read(s.regs, spec_rs1(instr)).wrapping_add(
                        rf_read(s.regs, spec_rs2(instr)),
                    ),
                ),
                ..s
            },
        )
    } else {
        Err(Fault::UnimplementedInstruction)
    }
}

/// Effect of the jump-and-link instruction: the already-staged return
/// address (`next_pc`) is linked into the destination register, then the
/// staged program counter is redirected to `pc` plus the sign-extended
/// immediate, with wrapping addition on the unsigned representation.
pub open spec fn spec_exec_jtype(s: State, instr: u32) -> State {
    State {
        regs: rf_write(s.regs, spec_rd(instr), s.next_pc),
        next_pc: s.pc.wrapping_add(spec_imm_jtype(instr)),
        ..s
    }
}

/// Two-level dispatch: route on the opcode field to the R-type or J-type
/// handler; any other opcode is an unrecognized-opcode fault. A fault
/// changes nothing.
pub open spec fn spec_dispatch(s: State, instr: u32) -> Result<State, Fault> {
    if spec_opcode(instr) == OPCODE_RTYPE {
        spec_exec_rtype(s, instr)
    } else if spec_opcode(instr) == OPCODE_JAL {
        Ok(spec_exec_jtype(s, instr))
    } else {
        Err(Fault::UnrecognizedOpcode)
    }
}

/// One full fetch–execute cycle: fetch the word at `pc` (a memory fault
/// if any of its four bytes lies outside memory), stage
/// `next_pc = pc + 4`, dispatch, and commit `pc = next_pc`. On any fault
/// the state is unchanged.
pub open spec fn spec_step(s: State) -> Result<State, Fault> {
    if s.pc + 3 < s.mem.len() {
        match spec_dispatch(
            State { next_pc: (s.pc + 4) as u32, ..s },
            word_at(s.mem, s.pc as int),
        ) {
            Ok(t) => Ok(State { pc: t.next_pc, ..t }),
            Err(f) => Err(f),
        }
    } else {
        Err(Fault::MemoryOutOfBounds)
    }
}

/// Machine state after `n` fetch–execute cycles, or the first fault met.
pub open spec fn spec_run(s: State, n: nat) -> Result<State, Fault>
    decreases n,
{
    if n == 0 {
        Ok(s)
    } else {
        match spec_step(s) {
            Ok(t) => spec_run(t, (n - 1) as nat),
            Err(f) => Err(f),
        }
    }
}

/// `add`: write the wrapping (modulo 2^32) sum of registers `rs1` and
/// `rs2` into register `rd`. Overflow is defined behavior, never a fault.
pub fn exec_add(core: &mut Core, rs1: u32, rs2: u32, rd: u32)
    requires
        old(core).wf(),
    ensures
        final(core).wf(),
        final(core)@ == (State {
            regs: rf_write(
                old(core)@.regs,
                rd,
                rf_read(old(core)@.regs, rs1).wrapping_add(rf_read(old(core)@.regs, rs2)),
            ),
            ..old(core)@
        }),
{
    let a = get_reg(core, rs1);
    let b = get_reg(core, rs2);
    set_reg(core, rd, a.wrapping_add(b));
}

/// Level-2 dispatch for the R-type family on the `(funct3, funct7)`
/// pair. Only integer addition is implemented; every other pair reports
/// an unimplemented-instruction fault and changes nothing.
pub fn exec_rtype(core: &mut Core, instr: u32) -> (r: Result<(), Fault>)
    requires
        old(core).wf(),
    ensures
        final(core).wf(),
        spec_exec_rtype(old(core)@, instr) matches Ok(t) ==> r is Ok && final(core)@ == t,
        spec_exec_rtype(old(core)@, instr) matches Err(f) ==> r == Err::<(), Fault>(f)
            && final(core)@ == old(core)@,
{
    let funct3 = get_funct3(instr);
    let funct7 = get_funct7(instr);
    if funct3 == FUNCT3_ADD && funct7 == FUNCT7_ADD {
        let rd = get_rd(instr);
        let rs1 = get_rs1(instr);
        let rs2 = get_rs2(instr);
        exec_add(core, rs1, rs2, rd);
        Ok(())
    } else {
        Err(Fault::UnimplementedInstruction)
    }
}

/// Execute the jump-and-link instruction: link the staged return address
/// into `rd`, then redirect the staged program counter by the
/// sign-extended J-type immediate.
pub fn exec_jtype(core: &mut Core, instr: u32)
    requires
        old(core).wf(),
    ensures
        final(core).wf(),
        final(core)@ == spec_exec_jtype(old(core)@, instr),
{
    let rd = get_rd(instr);
    let imm = get_imm_jtype(instr);
    let link = core.next_pc;
    set_reg(core, rd, link);
    core.next_pc = core.pc.wrapping_add(imm);
    proof {
        assert(final(core)@ =~= spec_exec_jtype(old(core)@, instr));
    }
}

/// Level-1 dispatch: route the fetched word on its opcode field to the
/// matching handler. An unknown opcode is reported as an
/// unrecognized-opcode fault; no register is mutated and no next program
/// counter is taken on any fault.
pub fn exec_instr(core: &mut Core, instr: u32) -> (r: Result<(), Fault>)
    requires
        old(core).wf(),
    ensures
        final(core).wf(),
        spec_dispatch(old(core)@, instr) matches Ok(t) ==> r is Ok && final(core)@ == t,
        spec_dispatch(old(core)@, instr) matches Err(f) ==> r == Err::<(), Fault>(f)
            && final(core)@ == old(core)@,
{
    let opcode = get_opcode(instr);
    if opcode == OPCODE_RTYPE {
        exec_rtype(core, instr)
    } else if opcode == OPCODE_JAL {
        exec_jtype(core, instr);
        Ok(())
    } else {
        Err(Fault::UnrecognizedOpcode)
    }
}

/// Drive one instruction through the full cycle, exactly as `spec_step`
/// says: fetch at `pc`, stage `next_pc = pc + 4`, execute, commit
/// `pc = next_pc`. A fault is returned to the caller with the machine
/// state exactly as it was before the cycle.
pub fn step(core: &mut Core) -> (r: Result<(), Fault>)
    requires
        old(core).wf(),
    ensures
        final(core).wf(),
        spec_step(old(core)@) matches Ok(t) ==> r is Ok && final(core)@ == t,
        spec_step(old(core)@) matches Err(f) ==> r == Err::<(), Fault>(f)
            && final(core)@ == old(core)@,
{
    let instr = match fetch_instruction(core) {
        Ok(w) => w,
        Err(f) => {
            return Err(f);
        },
    };
    let saved_next_pc = core.next_pc;
    core.next_pc = core.pc + 4;
    match exec_instr(core, instr) {
        Ok(()) => {
            core.pc = core.next_pc;
            proof {
                match spec_step(old(core)@) {
                    Ok(t) => {
                        assert(final(core)@ =~= t);
                    },
                    Err(_) => {},
                }
            }
            Ok(())
        },
        Err(f) => {
            core.next_pc = saved_next_pc;
            proof {
                assert(final(core)@ =~= old(core)@);
            }
            Err(f)
        },
    }
}

/// Extending a fault-free run by one cycle executes one more `spec_step`.
pub proof fn lemma_run_extend(s: State, n: nat)
    ensures
        spec_run(s, n) matches Ok(m) ==> spec_run(s, n + 1) == spec_step(m),
    decreases n,
{
    match spec_step(s) {
        Ok(t) => {
            assert(spec_run(s, n + 1) == spec_run(t, n));
            if n > 0 {
                assert(spec_run(s, n) == spec_run(t, (n - 1) as nat));
                lemma_run_extend(t, (n - 1) as nat);
            }
        },
        Err(f) => {
            assert(spec_run(s, n + 1) == Err::<State, Fault>(f));
        },
    }
}

/// A run that has faulted stays faulted however much further it is driven.
pub proof fn lemma_run_err_stable(s: State, n: nat, m: nat)
    requires
        spec_run(s, n) is Err,
        n <= m,
    ensures
        spec_run(s, m) == spec_run(s, n),
    decreases n,
{
    match spec_step(s) {
        Ok(t) => {
            lemma_run_err_stable(t, (n - 1) as nat, (m - 1) as nat);
        },
        Err(_) => {},
    }
}

/// Run up to `max_steps` fetch–execute cycles: the bounded embedding of
/// the engine loop. Stops at the first fault, leaving the machine in the
/// state reached just before the faulting cycle.
pub fn run(core: &mut Core, max_steps: u64) -> (r: Result<(), Fault>)
    requires
        old(core).wf(),
    ensures
        final(core).wf(),
        spec_run(old(core)@, max_steps as nat) matches Ok(t) ==> r is Ok && final(core)@ == t,
        spec_run(old(core)@, max_steps as nat) matches Err(f) ==> r == Err::<(), Fault>(f)
            && spec_step(final(core)@) == Err::<State, Fault>(f),
{
    let mut i: u64 = 0;
    while i < max_steps
        invariant
            core.wf(),
            i <= max_steps,
            spec_run(old(core)@, i as nat) == Ok::<State, Fault>(core@),
        decreases max_steps - i,
    {
        let ghost pre = core@;
        match step(core) {
            Ok(()) => {
                proof {
                    lemma_run_extend(old(core)@, i as nat);
                }
                i = i + 1;
            },
            Err(f) => {
                proof {
                    lemma_run_extend(old(core)@, i as nat);
                    lemma_run_err_stable(old(core)@, (i + 1) as nat, max_steps as nat);
                }
                return Err(f);
            },
        }
    }
    Ok(())
}

/// Sequential default: when the executed instruction leaves the staged
/// next program counter untouched, committing advances `pc` by exactly 4.
pub proof fn lemma_sequential_default(s: State)
    requires
        wf_state(s),
        spec_step(s) is Ok,
        ({
            let staged = State { next_pc: (s.pc + 4) as u32, ..s };
            spec_dispatch(staged, word_at(s.mem, s.pc as int)) matches Ok(t) && t.next_pc
                == staged.next_pc
        }),
    ensures
        spec_step(s) matches Ok(t) && t.pc == s.pc + 4,
{
}

} // verus!
