use cairo_core::bigint::BigInt;
use cairo_core::casm::instructions::{
    AssertEqInstruction, Instruction, InstructionBody, JumpInstruction,
};
use cairo_core::casm::operand::{DerefOperand, ImmediateOperand, Register, ResOperand};

#[test]
fn test_jump_format() {
    let abs_jmp_insn = JumpInstruction {
        target: ResOperand::ImmediateOperand(ImmediateOperand { value: BigInt::from_i128(3) }),
        relative: false,
    };

    assert_eq!(abs_jmp_insn.to_string(), "jmp abs 3");

    let rel_jmp_insn: Instruction = Instruction::new(
        InstructionBody::Jump(JumpInstruction {
            target: ResOperand::ImmediateOperand(ImmediateOperand {
                value: BigInt::from_i128(-5),
            }),
            relative: true,
        }),
        false,
    );

    assert_eq!(rel_jmp_insn.to_string(), "jmp rel -5");
}

#[test]
fn test_assert_eq_format() {
    let op1 = DerefOperand { register: Register::AP, offset: 5 };
    let op2 = ResOperand::ImmediateOperand(ImmediateOperand { value: BigInt::from_i128(205) });

    let insn = AssertEqInstruction { a: op1, b: op2 };
    assert_eq!(insn.to_string(), "[ap + 5] = 205");
}
