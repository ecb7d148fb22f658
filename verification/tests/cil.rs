use drdotnet::profiling_api::cil::instruction::{
    add, box_, break_, call, ldarg, ldc_i4, ldc_i4_s, ldc_i8, ldc_r4, ldc_r8, ldstr, leave_s, nop,
    ret, sizeof, switch, Instruction, Operand,
};
use drdotnet::profiling_api::cil::{
    il_i32, il_u16, il_u32, il_u64, il_u8, CilError, Opcode, OperandParams,
};

fn decode(bytes: &[u8]) -> Instruction {
    Instruction::from_bytes(bytes).expect("valid instruction")
}

#[test]
fn decodes_single_byte_opcode_without_operand() {
    let ins = decode(&[0x00]);
    assert_eq!(ins.opcode, Opcode { length: 1, byte_1: 0xFF, byte_2: 0x00, operand_params: OperandParams::InlineNone });
    assert!(matches!(ins.operand, Operand::InlineNone));
    assert_eq!(ins.length(), 1);
}

#[test]
fn decodes_inline_i_operand_little_endian() {
    let ins = decode(&[0x20, 0x78, 0x56, 0x34, 0x12, 0x99]);
    assert_eq!(ins.opcode.byte_2, 0x20);
    assert!(matches!(ins.operand, Operand::InlineI(0x1234_5678)));
    assert_eq!(ins.length(), 5);
    assert_eq!(ins.into_bytes(), vec![0x20, 0x78, 0x56, 0x34, 0x12]);
}

#[test]
fn decodes_negative_inline_i() {
    let ins = decode(&[0x20, 0xFE, 0xFF, 0xFF, 0xFF]);
    assert!(matches!(ins.operand, Operand::InlineI(-2)));
}

#[test]
fn decodes_two_byte_opcode_with_inline_var() {
    let ins = decode(&[0xFE, 0x09, 0x01, 0x02]);
    assert_eq!(ins.opcode, Opcode { length: 2, byte_1: 0xFE, byte_2: 0x09, operand_params: OperandParams::InlineVar });
    assert!(matches!(ins.operand, Operand::InlineVar(0x0201)));
    assert_eq!(ins.length(), 4);
}

#[test]
fn decodes_switch_table() {
    let bytes = [0x45, 2, 0, 0, 0, 1, 0, 0, 0, 0xFE, 0xFF, 0xFF, 0xFF, 0x2A];
    let ins = decode(&bytes);
    match &ins.operand {
        Operand::InlineSwitch(n, targets) => {
            assert_eq!(*n, 2);
            assert_eq!(targets, &vec![1, -2]);
        }
        other => panic!("unexpected operand {:?}", other),
    }
    assert_eq!(ins.length(), 13);
    assert_eq!(ins.into_bytes(), bytes[..13].to_vec());
}

#[test]
fn decodes_short_branch_target() {
    let ins = decode(&[0xDE, 0xFB]);
    assert!(matches!(ins.operand, Operand::ShortInlineBrTarget(-5)));
    assert_eq!(ins.into_bytes(), vec![0xDE, 0xFB]);
}

#[test]
fn decodes_float_constants_by_bits() {
    let ins = decode(&[0x23, 0, 0, 0, 0, 0, 0, 0xF8, 0x3F]);
    match ins.operand {
        Operand::InlineR(bits) => assert_eq!(f64::from_bits(bits), 1.5),
        other => panic!("unexpected operand {:?}", other),
    }
    let ins = decode(&[0x22, 0, 0, 0xC0, 0x3F]);
    match ins.operand {
        Operand::ShortInlineR(bits) => assert_eq!(f32::from_bits(bits), 1.5),
        other => panic!("unexpected operand {:?}", other),
    }
}

#[test]
fn rejects_empty_stream() {
    assert!(matches!(Instruction::from_bytes(&[]), Err(CilError::InvalidCil)));
}

#[test]
fn rejects_unknown_single_byte_opcode() {
    assert!(matches!(Instruction::from_bytes(&[0x24]), Err(CilError::InvalidCil)));
    assert!(matches!(Instruction::from_bytes(&[0xA6, 0x00]), Err(CilError::InvalidCil)));
}

#[test]
fn rejects_truncated_two_byte_opcode() {
    assert!(matches!(Instruction::from_bytes(&[0xFE]), Err(CilError::InvalidCil)));
}

#[test]
fn rejects_unknown_two_byte_opcode() {
    assert!(matches!(Instruction::from_bytes(&[0xFE, 0x08]), Err(CilError::InvalidCil)));
    assert!(matches!(Instruction::from_bytes(&[0xFE, 0x19, 0x00]), Err(CilError::InvalidCil)));
}

#[test]
fn rejects_truncated_operand() {
    assert!(matches!(Instruction::from_bytes(&[0x20, 1, 2, 3]), Err(CilError::InvalidCil)));
    assert!(matches!(Instruction::from_bytes(&[0x45, 3, 0, 0, 0, 1, 0, 0, 0]), Err(CilError::InvalidCil)));
}

#[test]
fn encodes_constructed_instructions() {
    assert_eq!(nop().into_bytes(), vec![0x00]);
    assert_eq!(break_().into_bytes(), vec![0x01]);
    assert_eq!(ret().into_bytes(), vec![0x2A]);
    assert_eq!(add().into_bytes(), vec![0x58]);
    assert_eq!(ldc_i4_s(7).into_bytes(), vec![0x1F, 7]);
    assert_eq!(ldc_i4(-1).into_bytes(), vec![0x20, 0xFF, 0xFF, 0xFF, 0xFF]);
    assert_eq!(ldc_i8(0x0102_0304_0506_0708).into_bytes(), vec![0x21, 8, 7, 6, 5, 4, 3, 2, 1]);
    assert_eq!(ldc_r4(2.0f32.to_bits()).into_bytes(), vec![0x22, 0, 0, 0, 0x40]);
    assert_eq!(ldc_r8(2.0f64.to_bits()).into_bytes(), vec![0x23, 0, 0, 0, 0, 0, 0, 0, 0x40]);
    assert_eq!(call(0x0A00_0001).into_bytes(), vec![0x28, 1, 0, 0, 0x0A]);
    assert_eq!(ldstr(0x7000_0010).into_bytes(), vec![0x72, 0x10, 0, 0, 0x70]);
    assert_eq!(box_(0x0200_0003).into_bytes(), vec![0x8C, 3, 0, 0, 2]);
    assert_eq!(leave_s(-3).into_bytes(), vec![0xDE, 0xFD]);
    assert_eq!(ldarg(0x0102).into_bytes(), vec![0xFE, 0x09, 0x02, 0x01]);
    assert_eq!(sizeof(5).into_bytes(), vec![0xFE, 0x1C, 5, 0, 0, 0]);
    assert_eq!(switch(1, vec![4]).into_bytes(), vec![0x45, 1, 0, 0, 0, 4, 0, 0, 0]);
}

#[test]
fn decode_of_encoding_gives_the_instruction_back() {
    let samples = vec![nop(), ldc_i4(123456), ldarg(9), switch(3, vec![-1, 0, 7]), ldc_r8(3.25f64.to_bits()), leave_s(4)];
    for ins in samples {
        let mut bytes = ins.into_bytes();
        bytes.extend_from_slice(&[0x2A, 0x00]);
        let back = Instruction::from_bytes(&bytes).expect("decodes");
        assert_eq!(back.opcode, ins.opcode);
        assert_eq!(back.into_bytes(), ins.into_bytes());
        assert_eq!(back.length(), ins.into_bytes().len());
    }
}

#[test]
fn instruction_length_matches_encoding() {
    for ins in [nop(), ldc_i8(-7), call(1), switch(2, vec![1, 2]), ldarg(3)] {
        assert_eq!(ins.length(), ins.into_bytes().len());
    }
}

#[test]
fn operand_length_of_switch_counts_targets() {
    assert_eq!(Operand::InlineSwitch(3, vec![0, 0, 0]).length(), 16);
    assert_eq!(Operand::InlineNone.length(), 0);
    assert_eq!(Operand::InlineI8(0).length(), 8);
}

#[test]
fn readers_check_bounds() {
    let il = [1u8, 2, 3, 4, 5, 6, 7, 8, 9];
    assert_eq!(il_u8(&il, 8), Ok(9));
    assert_eq!(il_u8(&il, 9), Err(CilError::InvalidCil));
    assert_eq!(il_u16(&il, 0), Ok(0x0201));
    assert_eq!(il_u16(&il, 8), Err(CilError::InvalidCil));
    assert_eq!(il_u32(&il, 1), Ok(0x0504_0302));
    assert_eq!(il_u32(&il, 6), Err(CilError::InvalidCil));
    assert_eq!(il_u64(&il, 1), Ok(0x0908_0706_0504_0302));
    assert_eq!(il_u64(&il, 2), Err(CilError::InvalidCil));
    assert_eq!(il_i32(&[0xFF, 0xFF, 0xFF, 0xFF], 0), Ok(-1));
}

#[test]
fn opcode_table_lookups() {
    assert_eq!(Opcode::from_byte(0x45).operand_params, OperandParams::InlineSwitch);
    assert_eq!(Opcode::from_byte(0xD0).operand_params, OperandParams::InlineTok);
    assert_eq!(Opcode::from_byte_pair((0xFE, 0x12)), Ok(Opcode { length: 2, byte_1: 0xFE, byte_2: 0x12, operand_params: OperandParams::ShortInlineI }));
    assert_eq!(Opcode::from_byte_pair((0xFF, 0x12)), Err(CilError::InvalidCil));
    assert_eq!(Opcode::from_byte_pair((0xFE, 0x1B)), Err(CilError::InvalidCil));
}
