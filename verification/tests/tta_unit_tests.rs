use tta_sim::alu::{alu_compute, ALUBank};
use tta_sim::assembler::{instr, ALUOp, Unit};
use tta_sim::bus::BusInputs;
use tta_sim::memory::Memory;
use tta_sim::regfile::RegisterFile;
use tta_sim::sequencer::Processor;
use tta_sim::stack::StackBank;

fn quiet_bus() -> BusInputs {
    BusInputs { instr_ready: false, instr_read_data: 0, data_ready: false, data_read_data: 0 }
}

#[test]
fn test_alu_arithmetic_values() {
    // Exact values, wraparound included.
    assert_eq!(alu_compute(ALUOp::ALU_NOP, 666, 111), 0);
    assert_eq!(alu_compute(ALUOp::ALU_ADD, 666, 111), 777);
    assert_eq!(alu_compute(ALUOp::ALU_ADD, 0xFFFF_FFFF, 1), 0);
    assert_eq!(alu_compute(ALUOp::ALU_SUB, 666, 111), 555);
    assert_eq!(alu_compute(ALUOp::ALU_SUB, 0, 1), 0xFFFF_FFFF);
    assert_eq!(alu_compute(ALUOp::ALU_MUL, 666, 111), 73926);
    assert_eq!(alu_compute(ALUOp::ALU_MUL, 0x1_0000, 0x1_0000), 0);
    assert_eq!(alu_compute(ALUOp::ALU_DIV, 666, 111), 6);
    assert_eq!(alu_compute(ALUOp::ALU_DIV, 7, 2), 3);
    assert_eq!(alu_compute(ALUOp::ALU_MOD, 7, 2), 1);
    // Division and remainder by zero are total and yield 0.
    assert_eq!(alu_compute(ALUOp::ALU_DIV, 666, 0), 0);
    assert_eq!(alu_compute(ALUOp::ALU_MOD, 666, 0), 0);
}

#[test]
fn test_alu_commutativity_values() {
    for (a, b) in [(0u32, 4095u32), (123, 456), (4095, 4095), (1, 2)] {
        assert_eq!(
            alu_compute(ALUOp::ALU_ADD, a, b),
            alu_compute(ALUOp::ALU_ADD, b, a)
        );
        assert_eq!(
            alu_compute(ALUOp::ALU_MUL, a, b),
            alu_compute(ALUOp::ALU_MUL, b, a)
        );
        // Anti-commutativity of SUB: the two differences sum to 0 mod 2^32.
        let d1 = alu_compute(ALUOp::ALU_SUB, a, b);
        let d2 = alu_compute(ALUOp::ALU_SUB, b, a);
        assert_eq!(alu_compute(ALUOp::ALU_ADD, d1, d2), 0);
        assert_eq!(alu_compute(ALUOp::ALU_SUB, 0, d2), d1);
    }
}

#[test]
fn test_alu_bitwise_identity_values() {
    for v in [0u32, 1, 0xDEAD_BEEF, 0xFFFF_FFFF] {
        assert_eq!(alu_compute(ALUOp::ALU_AND, v, 0xFFFF_FFFF), v);
        assert_eq!(alu_compute(ALUOp::ALU_AND, 0xFFFF_FFFF, v), v);
        assert_eq!(alu_compute(ALUOp::ALU_OR, v, 0), v);
        assert_eq!(alu_compute(ALUOp::ALU_OR, 0, v), v);
        assert_eq!(alu_compute(ALUOp::ALU_XOR, v, 0), v);
        assert_eq!(alu_compute(ALUOp::ALU_XOR, 0, v), v);
    }
    assert_eq!(alu_compute(ALUOp::ALU_NOT, 0xF0F0_F0F0, 77), 0x0F0F_0F0F);
    assert_eq!(alu_compute(ALUOp::ALU_AND, 0xFF00, 0x0FF0), 0x0F00);
    assert_eq!(alu_compute(ALUOp::ALU_OR, 0xFF00, 0x0FF0), 0xFFF0);
    assert_eq!(alu_compute(ALUOp::ALU_XOR, 0xFF00, 0x0FF0), 0xF0F0);
}

#[test]
fn test_alu_comparison_values() {
    for (a, b) in [(1u32, 2u32), (2, 1), (2, 2), (0, 0xFFFF_FFFF)] {
        let lt = alu_compute(ALUOp::ALU_LT, a, b);
        let eq = alu_compute(ALUOp::ALU_EQL, a, b);
        let gt = alu_compute(ALUOp::ALU_GT, a, b);
        assert_eq!(lt + eq + gt, 1, "exactly one comparison holds");
        assert_eq!(lt == 1, a < b);
        assert_eq!(eq == 1, a == b);
        assert_eq!(gt == 1, a > b);
    }
}

#[test]
fn test_alu_shift_values() {
    assert_eq!(alu_compute(ALUOp::ALU_SL, 1, 4), 16);
    assert_eq!(alu_compute(ALUOp::ALU_SL, 0x8000_0001, 1), 2);
    assert_eq!(alu_compute(ALUOp::ALU_SL, 1, 32), 0);
    assert_eq!(alu_compute(ALUOp::ALU_SR, 16, 4), 1);
    assert_eq!(alu_compute(ALUOp::ALU_SR, 0x8000_0000, 31), 1);
    assert_eq!(alu_compute(ALUOp::ALU_SR, 1, 32), 0);
    // Arithmetic shift keeps the sign.
    assert_eq!(alu_compute(ALUOp::ALU_SRA, 0x8000_0000, 1), 0xC000_0000);
    assert_eq!(alu_compute(ALUOp::ALU_SRA, 0xFFFF_FFF8, 2), 0xFFFF_FFFE); // -8 >> 2 == -2
    assert_eq!(alu_compute(ALUOp::ALU_SRA, 16, 2), 4);
    assert_eq!(alu_compute(ALUOp::ALU_SRA, 0xFFFF_FFFF, 40), 0xFFFF_FFFF);
    assert_eq!(alu_compute(ALUOp::ALU_SRA, 7, 40), 0);
}

#[test]
fn test_alu_bank_independence() {
    // Two instances never observe each other's writes.
    let mut bank = ALUBank::new(16);
    bank.write_left(0, 666);
    bank.write_right(0, 111);
    bank.write_left(1, 5);
    bank.write_right(1, 7);
    bank.write_operator(0, 1); // ADD
    bank.write_operator(1, 3); // MUL
    assert_eq!(bank.read_result(0), 777);
    assert_eq!(bank.read_result(1), 35);
    assert_eq!(bank.read_left(0), 666);
    assert_eq!(bank.read_right(1), 7);
    // Out-of-bank ids act as a no-op transport.
    bank.write_left(99, 1);
    assert_eq!(bank.read_left(99), 0);
}

#[test]
fn test_register_file_independence() {
    let mut rf = RegisterFile::new(32);
    rf.write(3, 111);
    rf.write(4, 222);
    assert_eq!(rf.read(3), 111);
    assert_eq!(rf.read(4), 222);
    // Writing one register back to itself changes nothing.
    let v = rf.read(3);
    rf.write(3, v);
    assert_eq!(rf.read(3), 111);
    assert_eq!(rf.read(4), 222);
    // Out-of-file indices read as 0 and discard writes.
    rf.write(77, 5);
    assert_eq!(rf.read(77), 0);
}

#[test]
fn test_stack_bank_operations() {
    let mut bank = StackBank::new(16);
    // Popping an empty stack yields 0 and does not fail.
    assert_eq!(bank.pop(0), 0);
    bank.push(0, 10);
    bank.push(0, 20);
    bank.push(0, 30);
    assert_eq!(bank.depth(0), 3);
    // peek addresses from the top without changing depth.
    assert_eq!(bank.peek(0, 0), 30);
    assert_eq!(bank.peek(0, 1), 20);
    assert_eq!(bank.peek(0, 2), 10);
    assert_eq!(bank.peek(0, 3), 0); // past the bottom
    assert_eq!(bank.depth(0), 3);
    // poke(0, x) then pop returns x.
    bank.poke(0, 0, 99);
    assert_eq!(bank.pop(0), 99);
    assert_eq!(bank.pop(0), 20);
    assert_eq!(bank.pop(0), 10);
    assert_eq!(bank.pop(0), 0);
    // Stacks are independent.
    bank.push(1, 7);
    bank.push(2, 8);
    assert_eq!(bank.pop(1), 7);
    assert_eq!(bank.pop(2), 8);
}

#[test]
fn test_memory_write_read_round_trip() {
    let mut mem = Memory::new(1024);
    for (a, v) in [(0u32, 1u32), (123, 666), (1023, 0xFFFF_FFFF)] {
        mem.write(a, v);
        assert_eq!(mem.read(a), v);
    }
    // Other addresses are untouched.
    assert_eq!(mem.read(124), 0);
    // Out-of-store accesses are a no-op.
    mem.write(4096, 5);
    assert_eq!(mem.read(4096), 0);
}

#[test]
fn test_reset_is_deterministic() {
    // Two cores with different histories become indistinguishable after
    // reset: the same program gives the same results.
    let program = vec![
        instr()
            .src(Unit::UNIT_ABS_IMMEDIATE)
            .si(55)
            .dst(Unit::UNIT_MEMORY_IMMEDIATE)
            .di(10),
    ];
    let mut machine_code = Vec::new();
    for i in program {
        machine_code.extend(i.assemble());
    }

    // First core: run some unrelated work before the reset.
    let mut tta1 = Processor::new();
    let scratch = vec![
        instr().push_immediate(0, 3),
        instr()
            .src(Unit::UNIT_ABS_IMMEDIATE)
            .si(9)
            .dst(Unit::UNIT_REGISTER)
            .di(2),
    ];
    let mut scratch_code = Vec::new();
    for i in scratch {
        scratch_code.extend(i.assemble());
    }
    let mut pre = TestRun::new(&scratch_code);
    pre.run(&mut tta1, 30);

    // Second core: fresh.
    let mut tta2 = Processor::new();

    let mut run1 = TestRun::new(&machine_code);
    let mut run2 = TestRun::new(&machine_code);
    run1.run(&mut tta1, 20);
    run2.run(&mut tta2, 20);

    assert_eq!(run1.data.read(10), 55);
    assert_eq!(run2.data.read(10), 55);
    assert_eq!(tta1.pc(), tta2.pc());
    assert_eq!(tta1.done(), tta2.done());
}

/// A minimal driving loop: reset, release, then clock for a bounded
/// number of cycles while serving both buses.
struct TestRun {
    imem: Memory,
    data: Memory,
}

impl TestRun {
    fn new(code: &[u32]) -> Self {
        let mut imem = Memory::new(4096);
        for (i, &w) in code.iter().enumerate() {
            imem.write(i as u32, w);
        }
        Self { imem, data: Memory::new(4096) }
    }

    fn run(&mut self, tta: &mut Processor, cycles: u32) {
        tta.step(true, quiet_bus());
        for _ in 0..cycles {
            let (instr_ready, instr_read_data) = self.imem.respond(tta.instr_bus());
            let (data_ready, data_read_data) = self.data.respond(tta.data_bus());
            tta.step(
                false,
                BusInputs { instr_ready, instr_read_data, data_ready, data_read_data },
            );
        }
    }
}

#[test]
fn test_register_independence_through_program() {
    // Two registers written through the core never observe each other.
    let program = vec![
        instr()
            .src(Unit::UNIT_ABS_IMMEDIATE)
            .si(111)
            .dst(Unit::UNIT_REGISTER)
            .di(1),
        instr()
            .src(Unit::UNIT_ABS_IMMEDIATE)
            .si(222)
            .dst(Unit::UNIT_REGISTER)
            .di(2),
        instr()
            .src(Unit::UNIT_REGISTER)
            .si(1)
            .dst(Unit::UNIT_MEMORY_IMMEDIATE)
            .di(50),
        instr()
            .src(Unit::UNIT_REGISTER)
            .si(2)
            .dst(Unit::UNIT_MEMORY_IMMEDIATE)
            .di(51),
    ];
    let mut code = Vec::new();
    for i in program {
        code.extend(i.assemble());
    }
    let mut tta = Processor::new();
    let mut run = TestRun::new(&code);
    run.run(&mut tta, 40);
    assert_eq!(run.data.read(50), 111);
    assert_eq!(run.data.read(51), 222);
}

#[test]
fn test_pc_source_and_done_pulse() {
    // Reading the program counter as a source yields the address of the
    // instruction itself; done pulses once per instruction.
    let program = vec![
        instr()
            .src(Unit::UNIT_PC)
            .dst(Unit::UNIT_MEMORY_IMMEDIATE)
            .di(60),
        instr()
            .src(Unit::UNIT_PC)
            .dst(Unit::UNIT_MEMORY_IMMEDIATE)
            .di(61),
    ];
    let mut code = Vec::new();
    for i in program {
        code.extend(i.assemble());
    }
    let mut tta = Processor::new();
    let mut imem = Memory::new(4096);
    for (i, &w) in code.iter().enumerate() {
        imem.write(i as u32, w);
    }
    let mut data = Memory::new(4096);
    tta.step(true, quiet_bus());
    let mut done_pulses = 0u32;
    for _ in 0..30 {
        let (instr_ready, instr_read_data) = imem.respond(tta.instr_bus());
        let (data_ready, data_read_data) = data.respond(tta.data_bus());
        tta.step(
            false,
            BusInputs { instr_ready, instr_read_data, data_ready, data_read_data },
        );
        if tta.done() {
            done_pulses += 1;
        }
    }
    assert_eq!(data.read(60), 0); // first instruction sits at address 0
    assert_eq!(data.read(61), 1); // second instruction at address 1
    // 30 cycles run the 2-instruction program and then the all-zero
    // no-op transport that follows it; each completion pulses once.
    assert!(done_pulses >= 2);
}

#[test]
fn test_stalled_bus_holds_request() {
    // With a memory that never answers, the core holds valid and the
    // address stable and makes no progress: no done pulse ever comes.
    let program = vec![instr()
        .src(Unit::UNIT_MEMORY_IMMEDIATE)
        .si(5)
        .dst(Unit::UNIT_REGISTER)
        .di(0)];
    let mut code = Vec::new();
    for i in program {
        code.extend(i.assemble());
    }
    let mut imem = Memory::new(4096);
    for (i, &w) in code.iter().enumerate() {
        imem.write(i as u32, w);
    }
    let mut tta = Processor::new();
    tta.step(true, quiet_bus());
    // Serve the instruction channel normally, but never assert data
    // ready.
    for _ in 0..20 {
        let (instr_ready, instr_read_data) = imem.respond(tta.instr_bus());
        tta.step(
            false,
            BusInputs { instr_ready, instr_read_data, data_ready: false, data_read_data: 0 },
        );
        assert!(!tta.done());
    }
    // The data-bus read request is still outstanding, held stable.
    let req = tta.data_bus();
    assert!(req.valid);
    assert_eq!(req.address, 5);
    assert!(!req.write_strobe);
}

#[test]
fn test_pc_write_is_control_transfer() {
    // Writing the program counter jumps: the instruction at the target
    // runs next, and the counter is not advanced past the jump as well.
    let program = vec![
        // 0: jump to address 4
        instr()
            .src(Unit::UNIT_ABS_IMMEDIATE)
            .si(4)
            .dst(Unit::UNIT_PC),
        // 1: would store 111 at 70 (skipped)
        instr()
            .src(Unit::UNIT_ABS_IMMEDIATE)
            .si(111)
            .dst(Unit::UNIT_MEMORY_IMMEDIATE)
            .di(70),
        // 2, 3: padding no-ops
        instr(),
        instr(),
        // 4: store 222 at 71
        instr()
            .src(Unit::UNIT_ABS_IMMEDIATE)
            .si(222)
            .dst(Unit::UNIT_MEMORY_IMMEDIATE)
            .di(71),
    ];
    let mut code = Vec::new();
    for i in program {
        code.extend(i.assemble());
    }
    let mut tta = Processor::new();
    let mut run = TestRun::new(&code);
    run.run(&mut tta, 40);
    assert_eq!(run.data.read(70), 0, "the jumped-over store must not run");
    assert_eq!(run.data.read(71), 222, "the jump target must run");
}
