use tta_sim::assembler::{decode, instr, Unit};

#[test]
fn test_basic_instruction_encoding() {
    // Test a simple register-to-register move
    let instr = instr()
        .src(Unit::UNIT_REGISTER)
        .si(5) // source register 5
        .dst(Unit::UNIT_REGISTER)
        .di(10); // destination register 10

    let assembled = instr.assemble();
    assert_eq!(assembled.len(), 1); // No operands needed

    // Verify bit packing
    let packed = assembled[0];
    assert_eq!(packed & 0xF, Unit::UNIT_REGISTER.to_code()); // src_unit
    assert_eq!((packed >> 4) & 0xFFF, 5); // si
    assert_eq!((packed >> 16) & 0xF, Unit::UNIT_REGISTER.to_code()); // dst_unit
    assert_eq!((packed >> 20) & 0xFFF, 10); // di
}

#[test]
fn test_instruction_with_operands() {
    // Test instruction with both operands
    let instr = instr()
        .src(Unit::UNIT_MEMORY_OPERAND)
        .soperand(0x1234)
        .dst(Unit::UNIT_MEMORY_OPERAND)
        .doperand(0x5678);

    let assembled = instr.assemble();
    assert_eq!(assembled.len(), 3); // Base instruction + 2 operands
    assert_eq!(assembled[1], 0x1234); // soperand
    assert_eq!(assembled[2], 0x5678); // doperand
}

#[test]
fn test_assembler_debug() {
    // Debug stack_poke assembler specifically
    let poke_instr = instr().stack_poke(0, 0, 15);
    let assembled = poke_instr.assemble();
    println!("stack_poke(0, 0, 15) assembled: {:?}", assembled);

    // Manually decode the first word
    let word = assembled[0];
    let src_unit = word & 0xF;
    let si = (word >> 4) & 0xFFF;
    let dst_unit = (word >> 16) & 0xF;
    let di = (word >> 20) & 0xFFF;

    println!(
        "  decoded src_unit: {} (should be 3 for UNIT_REGISTER)",
        src_unit
    );
    println!("  decoded si: {} (should be 15)", si);
    println!(
        "  decoded dst_unit: {} (should be 2 for UNIT_STACK_INDEX)",
        dst_unit
    );
    println!("  decoded di: {} (should be 0)", di);

    assert_eq!(src_unit, 3);
    assert_eq!(si, 15);
    assert_eq!(dst_unit, 2);
    assert_eq!(di, 0);

    // Compare with manual instruction creation
    let manual = instr()
        .src(Unit::UNIT_REGISTER)
        .si(15)
        .dst(Unit::UNIT_STACK_INDEX)
        .di(0);
    let manual_assembled = manual.assemble();
    println!("Manual equivalent: {:?}", manual_assembled);
    assert_eq!(assembled, manual_assembled);

    // Also test the register load instruction
    let reg_instr = instr()
        .src(Unit::UNIT_ABS_IMMEDIATE)
        .si(777)
        .dst(Unit::UNIT_REGISTER)
        .di(15);
    let reg_assembled = reg_instr.assemble();
    println!("Register load assembled: {:?}", reg_assembled);

    let reg_word = reg_assembled[0];
    let reg_si = (reg_word >> 4) & 0xFFF;
    let reg_di = (reg_word >> 20) & 0xFFF;
    println!("  reg si: {} (should be 777)", reg_si);
    println!("  reg di: {} (should be 15)", reg_di);
    assert_eq!(reg_si, 777);
    assert_eq!(reg_di, 15);
}

#[test]
fn test_encode_decode_round_trip() {
    // One instruction of each length: 1, 2 and 3 words.
    let one = instr()
        .src(Unit::UNIT_ABS_IMMEDIATE)
        .si(4095)
        .dst(Unit::UNIT_STACK_PUSH_POP)
        .di(7);
    let two = instr()
        .src(Unit::UNIT_ABS_OPERAND)
        .soperand(0xDEAD_BEEF)
        .dst(Unit::UNIT_REGISTER)
        .di(31);
    let three = instr()
        .src(Unit::UNIT_MEMORY_OPERAND)
        .soperand(0x1111_2222)
        .dst(Unit::UNIT_MEMORY_OPERAND)
        .doperand(0x3333_4444);

    for (i, expected_len) in [(one, 1), (two, 2), (three, 3)] {
        let words = i.assemble();
        assert_eq!(words.len(), expected_len);
        let back = decode(&words).expect("a valid encoding must decode");
        assert_eq!(back.assemble(), words);
        assert_eq!(back.src_unit, i.src_unit);
        assert_eq!(back.si, i.si);
        assert_eq!(back.dst_unit, i.dst_unit);
        assert_eq!(back.di, i.di);
        assert_eq!(back.soperand, i.soperand);
        assert_eq!(back.doperand, i.doperand);
    }
}

#[test]
fn test_decode_rejects_bad_input() {
    // Empty input is no instruction.
    assert!(decode(&vec![]).is_none());

    // Word 0 promises two operand words but only one follows.
    let short = instr()
        .src(Unit::UNIT_MEMORY_OPERAND)
        .soperand(1)
        .dst(Unit::UNIT_MEMORY_OPERAND)
        .doperand(2)
        .assemble();
    assert!(decode(&vec![short[0], short[1]]).is_none());

    // A trailing word no unit asked for.
    let plain = instr()
        .src(Unit::UNIT_REGISTER)
        .si(1)
        .dst(Unit::UNIT_REGISTER)
        .di(2)
        .assemble();
    assert!(decode(&vec![plain[0], 99]).is_none());

    // The unassigned unit codes 14 and 15 are no encoding.
    assert!(decode(&vec![14u32]).is_none());
    assert!(decode(&vec![15u32 << 16]).is_none());
}

#[test]
fn test_push_immediate_wide_value_uses_operand() {
    // A value that fits 12 bits travels in the immediate field.
    let small = instr().push_immediate(3, 4095);
    assert_eq!(small.src_unit, Unit::UNIT_ABS_IMMEDIATE);
    assert_eq!(small.si, 4095);
    assert_eq!(small.dst_unit, Unit::UNIT_STACK_PUSH_POP);
    assert_eq!(small.di, 3);
    assert_eq!(small.assemble().len(), 1);

    // A wider value needs the absolute operand word.
    let wide = instr().push_immediate(3, 70000);
    assert_eq!(wide.src_unit, Unit::UNIT_ABS_OPERAND);
    assert_eq!(wide.soperand, Some(70000));
    let words = wide.assemble();
    assert_eq!(words.len(), 2);
    assert_eq!(words[1], 70000);
}

#[test]
fn test_stack_index_packing() {
    // The indexed-stack immediate packs the stack id into bits [11:8]
    // and the offset into bits [7:0].
    let peek = instr().stack_peek(5, 17, 9);
    assert_eq!(peek.src_unit, Unit::UNIT_STACK_INDEX);
    assert_eq!(peek.si, (5 << 8) | 17);
    assert_eq!(peek.dst_unit, Unit::UNIT_REGISTER);
    assert_eq!(peek.di, 9);

    let poke = instr().stack_poke(5, 17, 9);
    assert_eq!(poke.src_unit, Unit::UNIT_REGISTER);
    assert_eq!(poke.si, 9);
    assert_eq!(poke.dst_unit, Unit::UNIT_STACK_INDEX);
    assert_eq!(poke.di, (5 << 8) | 17);
}
