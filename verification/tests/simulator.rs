use rv32_core::decode::{
    encode_jtype, encode_rtype, get_funct3, get_funct7, get_imm_jtype, get_opcode, get_rd, get_rs1,
    get_rs2, n_bits, FUNCT3_ADD, FUNCT7_ADD, OPCODE_JAL, OPCODE_RTYPE,
};
use rv32_core::engine::{exec_add, exec_instr, exec_jtype, exec_rtype, run, step};
use rv32_core::fault::Fault;
use rv32_core::machine::{fetch_instruction, get_reg, load_prog, set_reg, Core};

// add x3, x3, x2 : funct7=0, rs2=2, rs1=3, funct3=0, rd=3, opcode=0110011
const ADD_X3_X3_X2: u32 = 0x0021_81b3;
// jal x1, -4
const JAL_X1_MINUS_4: u32 = 0xffdf_f0ef;

#[test]
fn n_bits_masks() {
    assert_eq!(n_bits(0), 0);
    assert_eq!(n_bits(1), 1);
    assert_eq!(n_bits(5), 0x1f);
    assert_eq!(n_bits(7), 0x7f);
    assert_eq!(n_bits(31), 0x7fff_ffff);
}

#[test]
fn decoder_round_trip_rtype() {
    let cases = [
        (OPCODE_RTYPE, 3, FUNCT3_ADD, 1, 2, FUNCT7_ADD),
        (0x7f, 31, 7, 31, 31, 0x7f),
        (0, 0, 0, 0, 0, 0),
        (OPCODE_JAL, 17, 5, 9, 23, 0x41),
    ];
    for &(opcode, rd, funct3, rs1, rs2, funct7) in cases.iter() {
        let w = encode_rtype(opcode, rd, funct3, rs1, rs2, funct7);
        assert_eq!(get_opcode(w), opcode);
        assert_eq!(get_rd(w), rd);
        assert_eq!(get_funct3(w), funct3);
        assert_eq!(get_rs1(w), rs1);
        assert_eq!(get_rs2(w), rs2);
        assert_eq!(get_funct7(w), funct7);
    }
}

#[test]
fn decoder_round_trip_jtype() {
    let imms = [
        0x0000_0000u32, // zero offset
        0xffff_fffcu32, // -4
        0x000f_fffeu32, // largest positive even offset
        0xfff0_0000u32, // most negative offset
        0x0000_0800u32, // exercises the lone bit-11 range
        0x0003_a99au32, // bits spread over all four ranges
    ];
    for &imm in imms.iter() {
        let w = encode_jtype(OPCODE_JAL, 1, imm);
        assert_eq!(get_opcode(w), OPCODE_JAL);
        assert_eq!(get_rd(w), 1);
        assert_eq!(get_imm_jtype(w), imm);
    }
}

#[test]
fn decode_known_add_word() {
    assert_eq!(get_opcode(ADD_X3_X3_X2), OPCODE_RTYPE);
    assert_eq!(get_rd(ADD_X3_X3_X2), 3);
    assert_eq!(get_funct3(ADD_X3_X3_X2), 0);
    assert_eq!(get_rs1(ADD_X3_X3_X2), 3);
    assert_eq!(get_rs2(ADD_X3_X3_X2), 2);
    assert_eq!(get_funct7(ADD_X3_X3_X2), 0);
}

#[test]
fn decode_known_jal_word() {
    assert_eq!(get_opcode(JAL_X1_MINUS_4), OPCODE_JAL);
    assert_eq!(get_rd(JAL_X1_MINUS_4), 1);
    // -4 sign-extended to 32 bits
    assert_eq!(get_imm_jtype(JAL_X1_MINUS_4), 0xffff_fffc);
}

#[test]
fn new_machine_is_zeroed() {
    let c = Core::new(64);
    for i in 0..32 {
        assert_eq!(get_reg(&c, i), 0);
    }
    assert_eq!(c.pc(), 0);
    assert_eq!(c.next_pc(), 0);
    assert_eq!(c.mem_size(), 64);
}

#[test]
fn zero_register_reads_zero_after_writes() {
    let mut c = Core::new(16);
    set_reg(&mut c, 0, 0xdead_beef);
    assert_eq!(get_reg(&c, 0), 0);
    set_reg(&mut c, 0, 1);
    set_reg(&mut c, 0, 0xffff_ffff);
    set_reg(&mut c, 0, 42);
    assert_eq!(get_reg(&c, 0), 0);
    // index taken modulo 32: register 32 is register 0
    set_reg(&mut c, 32, 7);
    assert_eq!(get_reg(&c, 32), 0);
    assert_eq!(get_reg(&c, 0), 0);
    // ordinary registers still work
    set_reg(&mut c, 5, 99);
    assert_eq!(get_reg(&c, 5), 99);
    assert_eq!(get_reg(&c, 0), 0);
}

#[test]
fn register_write_replaces_single_slot() {
    let mut c = Core::new(16);
    set_reg(&mut c, 7, 11);
    set_reg(&mut c, 7, 22);
    assert_eq!(get_reg(&c, 7), 22);
    for i in 1..32 {
        if i != 7 {
            assert_eq!(get_reg(&c, i), 0);
        }
    }
}

#[test]
fn load_prog_little_endian_layout() {
    let mut c = Core::new(16);
    load_prog(&mut c, vec![0xdead_beef, 0x1234_5678]);
    assert_eq!(c.memory[0], 0xef);
    assert_eq!(c.memory[1], 0xbe);
    assert_eq!(c.memory[2], 0xad);
    assert_eq!(c.memory[3], 0xde);
    assert_eq!(c.memory[4], 0x78);
    assert_eq!(c.memory[5], 0x56);
    assert_eq!(c.memory[6], 0x34);
    assert_eq!(c.memory[7], 0x12);
    // the rest of memory is untouched
    for i in 8..16 {
        assert_eq!(c.memory[i], 0);
    }
}

#[test]
fn load_empty_program_changes_nothing() {
    let mut c = Core::new(8);
    load_prog(&mut c, vec![]);
    for i in 0..8 {
        assert_eq!(c.memory[i], 0);
    }
    assert_eq!(c.pc(), 0);
}

#[test]
fn load_program_filling_whole_memory() {
    let mut c = Core::new(8);
    load_prog(&mut c, vec![0x0102_0304, 0x0506_0708]);
    assert_eq!(fetch_instruction(&c), Ok(0x0102_0304));
    c.set_pc(4);
    assert_eq!(fetch_instruction(&c), Ok(0x0506_0708));
    c.set_pc(8);
    assert_eq!(fetch_instruction(&c), Err(Fault::MemoryOutOfBounds));
}

#[test]
fn load_then_fetch_round_trips() {
    let mut c = Core::new(16);
    load_prog(&mut c, vec![0xdead_beef, 0x1234_5678]);
    assert_eq!(fetch_instruction(&c), Ok(0xdead_beef));
    c.set_pc(4);
    assert_eq!(fetch_instruction(&c), Ok(0x1234_5678));
}

#[test]
fn fetch_out_of_bounds_is_memory_fault() {
    let mut c = Core::new(4);
    // bytes 0..=3 exist: a fetch at 0 is fine, a fetch at 1 reaches byte 4
    assert!(fetch_instruction(&c).is_ok());
    c.set_pc(1);
    assert_eq!(fetch_instruction(&c), Err(Fault::MemoryOutOfBounds));
    c.set_pc(4);
    assert_eq!(fetch_instruction(&c), Err(Fault::MemoryOutOfBounds));
}

#[test]
fn step_out_of_bounds_leaves_state_unchanged() {
    let mut c = Core::new(2);
    set_reg(&mut c, 1, 5);
    assert_eq!(step(&mut c), Err(Fault::MemoryOutOfBounds));
    assert_eq!(c.pc(), 0);
    assert_eq!(c.next_pc(), 0);
    assert_eq!(get_reg(&c, 1), 5);
}

#[test]
fn end_to_end_add_scenario() {
    // program = [R-type add, rs1=1, rs2=2, rd=3], registers[1]=1, registers[2]=2
    let mut c = Core::new(64);
    load_prog(&mut c, vec![encode_rtype(OPCODE_RTYPE, 3, FUNCT3_ADD, 1, 2, FUNCT7_ADD)]);
    set_reg(&mut c, 1, 1);
    set_reg(&mut c, 2, 2);
    assert_eq!(step(&mut c), Ok(()));
    assert_eq!(get_reg(&c, 3), 3);
    assert_eq!(c.pc(), 4);
}

#[test]
fn add_wraps_around() {
    // 0xffff_ffff + 1 == 0 in any destination register other than 0
    for rd in [1u32, 5, 31] {
        let mut c = Core::new(16);
        load_prog(&mut c, vec![encode_rtype(OPCODE_RTYPE, rd, FUNCT3_ADD, 1, 2, FUNCT7_ADD)]);
        set_reg(&mut c, 1, 0xffff_ffff);
        set_reg(&mut c, 2, 1);
        assert_eq!(step(&mut c), Ok(()));
        assert_eq!(get_reg(&c, rd), 0);
        assert_eq!(c.pc(), 4);
    }
}

#[test]
fn exec_add_wraps_directly() {
    let mut c = Core::new(16);
    set_reg(&mut c, 4, 0xffff_fffe);
    set_reg(&mut c, 5, 3);
    exec_add(&mut c, 4, 5, 6);
    assert_eq!(get_reg(&c, 6), 1);
}

#[test]
fn sequential_default_advances_pc_by_4() {
    let mut c = Core::new(32);
    load_prog(
        &mut c,
        vec![
            encode_rtype(OPCODE_RTYPE, 1, FUNCT3_ADD, 2, 3, FUNCT7_ADD),
            encode_rtype(OPCODE_RTYPE, 4, FUNCT3_ADD, 5, 6, FUNCT7_ADD),
        ],
    );
    assert_eq!(step(&mut c), Ok(()));
    assert_eq!(c.pc(), 4);
    assert_eq!(step(&mut c), Ok(()));
    assert_eq!(c.pc(), 8);
}

#[test]
fn jal_links_and_redirects() {
    // jump-and-link at pc = 0x100 with rd = x1 and immediate -4:
    // x1 gets 0x104, the next cycle starts at 0x0fc
    let mut c = Core::new(0x200);
    let mut prog = vec![0u32; 64];
    prog.push(encode_jtype(OPCODE_JAL, 1, 0xffff_fffc));
    load_prog(&mut c, prog);
    c.set_pc(0x100);
    assert_eq!(step(&mut c), Ok(()));
    assert_eq!(get_reg(&c, 1), 0x104);
    assert_eq!(c.pc(), 0x0fc);
}

#[test]
fn jal_forward_to_zero_register_discards_link() {
    let mut c = Core::new(32);
    load_prog(&mut c, vec![encode_jtype(OPCODE_JAL, 0, 8)]);
    assert_eq!(step(&mut c), Ok(()));
    assert_eq!(get_reg(&c, 0), 0);
    assert_eq!(c.pc(), 8);
}

#[test]
fn unrecognized_opcode_faults_without_mutation() {
    // opcode 0 belongs to no known family
    let mut c = Core::new(16);
    set_reg(&mut c, 3, 77);
    assert_eq!(step(&mut c), Err(Fault::UnrecognizedOpcode));
    assert_eq!(get_reg(&c, 3), 77);
    assert_eq!(c.pc(), 0);
    assert_eq!(c.next_pc(), 0);
}

#[test]
fn unimplemented_funct_pair_faults_without_mutation() {
    // funct7 = 0b0100000 with funct3 = 0 encodes subtraction: not implemented
    let mut c = Core::new(16);
    load_prog(&mut c, vec![encode_rtype(OPCODE_RTYPE, 3, FUNCT3_ADD, 1, 2, 0b010_0000)]);
    set_reg(&mut c, 1, 9);
    set_reg(&mut c, 2, 4);
    assert_eq!(step(&mut c), Err(Fault::UnimplementedInstruction));
    assert_eq!(get_reg(&c, 3), 0);
    assert_eq!(c.pc(), 0);
    assert_eq!(c.next_pc(), 0);
}

#[test]
fn exec_instr_dispatches_on_opcode() {
    let mut c = Core::new(16);
    c.next_pc = 4;
    set_reg(&mut c, 1, 10);
    set_reg(&mut c, 2, 20);
    assert_eq!(
        exec_instr(&mut c, encode_rtype(OPCODE_RTYPE, 3, FUNCT3_ADD, 1, 2, FUNCT7_ADD)),
        Ok(())
    );
    assert_eq!(get_reg(&c, 3), 30);
    assert_eq!(exec_instr(&mut c, 0x0000_0007), Err(Fault::UnrecognizedOpcode));
}

#[test]
fn exec_rtype_level_two_dispatch() {
    let mut c = Core::new(16);
    set_reg(&mut c, 1, 2);
    set_reg(&mut c, 2, 5);
    assert_eq!(
        exec_rtype(&mut c, encode_rtype(OPCODE_RTYPE, 4, FUNCT3_ADD, 1, 2, FUNCT7_ADD)),
        Ok(())
    );
    assert_eq!(get_reg(&c, 4), 7);
    // any other (funct3, funct7) pair is unimplemented
    assert_eq!(
        exec_rtype(&mut c, encode_rtype(OPCODE_RTYPE, 4, 0b111, 1, 2, 0)),
        Err(Fault::UnimplementedInstruction)
    );
    assert_eq!(get_reg(&c, 4), 7);
}

#[test]
fn exec_jtype_links_staged_return_address() {
    let mut c = Core::new(16);
    c.pc = 0x40;
    c.next_pc = 0x44;
    exec_jtype(&mut c, encode_jtype(OPCODE_JAL, 2, 0x10));
    assert_eq!(get_reg(&c, 2), 0x44);
    assert_eq!(c.next_pc(), 0x50);
    assert_eq!(c.pc(), 0x40);
}

#[test]
fn run_counter_loop() {
    // the two-instruction loop: x3 += x2, then jump back 4 bytes
    let mut c = Core::new(1024);
    load_prog(&mut c, vec![ADD_X3_X3_X2, JAL_X1_MINUS_4]);
    set_reg(&mut c, 2, 1);
    assert_eq!(run(&mut c, 4), Ok(()));
    // two full add/jal rounds: x3 counted to 2, x1 links to 8, pc back at 0
    assert_eq!(get_reg(&c, 3), 2);
    assert_eq!(get_reg(&c, 1), 8);
    assert_eq!(c.pc(), 0);
}

#[test]
fn run_stops_at_first_fault() {
    // one good add, then a word with an unknown opcode
    let mut c = Core::new(64);
    load_prog(&mut c, vec![ADD_X3_X3_X2, 0x0000_0001]);
    set_reg(&mut c, 2, 6);
    assert_eq!(run(&mut c, 10), Err(Fault::UnrecognizedOpcode));
    // the add committed before the fault; the fault itself changed nothing
    assert_eq!(get_reg(&c, 3), 6);
    assert_eq!(c.pc(), 4);
}

#[test]
fn run_zero_steps_is_identity() {
    let mut c = Core::new(16);
    set_reg(&mut c, 9, 123);
    assert_eq!(run(&mut c, 0), Ok(()));
    assert_eq!(get_reg(&c, 9), 123);
    assert_eq!(c.pc(), 0);
}
