use cairo_core::bigint::BigInt;
use cairo_core::casm::hints::Hint;
use cairo_core::casm::instructions::{
    program_to_string, AddApInstruction, AssertEqInstruction, CallInstruction, Instruction,
    InstructionBody, JnzInstruction, JumpInstruction,
};
use cairo_core::casm::operand::{
    BinOpOperand, DerefOperand, DerefOrImmediate, DoubleDerefOperand, ImmediateOperand,
    Operation, Register, ResOperand,
};
use cairo_core::text::{ends_with, starts_with};

fn text_cell(register: Register, offset: i16) -> DerefOperand {
    DerefOperand { register, offset }
}

fn text_immediate(value: i128) -> ImmediateOperand {
    ImmediateOperand { value: BigInt::from_i128(value) }
}

#[test]
fn operand_texts() {
    assert_eq!(text_cell(Register::FP, -3).to_string(), "[fp + -3]");
    assert_eq!(text_cell(Register::AP, 0).to_string(), "[ap + 0]");
    assert_eq!(
        DoubleDerefOperand { inner_deref: text_cell(Register::AP, -3), offset: 2 }.to_string(),
        "[[ap + -3] + 2]"
    );
    assert_eq!(
        BinOpOperand {
            op: Operation::Add,
            a: text_cell(Register::FP, -3),
            b: DerefOrImmediate::Deref(text_cell(Register::FP, -2))
        }
        .to_string(),
        "[fp + -3] + [fp + -2]"
    );
    assert_eq!(
        BinOpOperand {
            op: Operation::Mul,
            a: text_cell(Register::AP, 1),
            b: DerefOrImmediate::Immediate(text_immediate(-7))
        }
        .to_string(),
        "[ap + 1] * -7"
    );
    assert_eq!(Register::AP.to_string(), "ap");
    assert_eq!(Operation::Add.to_string(), "+");
}

#[test]
fn instruction_texts() {
    let add = Instruction::new(
        InstructionBody::AssertEq(AssertEqInstruction {
            a: text_cell(Register::AP, 0),
            b: ResOperand::BinOpOperand(BinOpOperand {
                op: Operation::Add,
                a: text_cell(Register::FP, -3),
                b: DerefOrImmediate::Deref(text_cell(Register::FP, -2)),
            }),
        }),
        true,
    );
    assert_eq!(add.to_string(), "[ap + 0] = [fp + -3] + [fp + -2], ap++");
    let call = Instruction::new(
        InstructionBody::Call(CallInstruction {
            target: DerefOrImmediate::Immediate(text_immediate(0)),
            relative: true,
        }),
        false,
    );
    assert_eq!(call.to_string(), "call rel 0");
    let ret = Instruction::new(InstructionBody::Ret, false);
    assert_eq!(ret.to_string(), "ret");
    let jnz = InstructionBody::Jnz(JnzInstruction {
        jump_offset: DerefOrImmediate::Immediate(text_immediate(7)),
        condition: text_cell(Register::AP, -1),
    });
    assert_eq!(jnz.to_string(), "jmp rel 7 if [ap + -1] != 0");
    let add_ap = InstructionBody::AddAp(AddApInstruction {
        operand: ResOperand::ImmediateOperand(text_immediate(2)),
    });
    assert_eq!(add_ap.to_string(), "ap += 2");
    let jump = InstructionBody::Jump(JumpInstruction {
        target: ResOperand::DerefOperand(text_cell(Register::AP, 1)),
        relative: false,
    });
    assert_eq!(jump.to_string(), "jmp abs [ap + 1]");
    assert_eq!(
        program_to_string(&vec![add, call, ret]),
        "[ap + 0] = [fp + -3] + [fp + -2], ap++;\ncall rel 0;\nret;\n"
    );
    assert_eq!(program_to_string(&vec![]), "");
}

#[test]
fn instruction_sizes() {
    let with_immediate = InstructionBody::AssertEq(AssertEqInstruction {
        a: text_cell(Register::AP, 0),
        b: ResOperand::ImmediateOperand(text_immediate(5)),
    });
    assert_eq!(with_immediate.op_size(), 2);
    let with_cell = InstructionBody::AssertEq(AssertEqInstruction {
        a: text_cell(Register::AP, 0),
        b: ResOperand::DerefOperand(text_cell(Register::AP, 1)),
    });
    assert_eq!(with_cell.op_size(), 1);
    assert_eq!(InstructionBody::Ret.op_size(), 1);
    let call = InstructionBody::Call(CallInstruction {
        target: DerefOrImmediate::Immediate(text_immediate(3)),
        relative: true,
    });
    assert_eq!(call.op_size(), 2);
    let bin_op = ResOperand::BinOpOperand(BinOpOperand {
        op: Operation::Add,
        a: text_cell(Register::AP, 0),
        b: DerefOrImmediate::Immediate(text_immediate(3)),
    });
    assert_eq!(bin_op.op_size(), 2);
}

#[test]
fn hint_texts() {
    let alloc = Hint::AllocSegment { dst: text_cell(Register::AP, 0) };
    assert_eq!(alloc.to_string(), "%{ memory[ap + 0] = segments.add() %}");
    let less = Hint::TestLessThan {
        lhs: ResOperand::DerefOperand(text_cell(Register::AP, -1)),
        rhs: ResOperand::ImmediateOperand(text_immediate(16)),
        dst: text_cell(Register::AP, 0),
    };
    assert_eq!(less.to_string(), "%{ memory[ap + 0] = [ap + -1] < 16 %}");
    let system = Hint::SystemCall { system: ResOperand::DerefOperand(text_cell(Register::FP, -3)) };
    assert_eq!(system.to_string(), "%{ syscall_handler.syscall(syscall_ptr=[fp + -3]) %}");
    let insn = Instruction::with_hint(
        InstructionBody::AddAp(AddApInstruction {
            operand: ResOperand::ImmediateOperand(text_immediate(1)),
        }),
        false,
        alloc,
    );
    assert_eq!(insn.to_string(), "%{ memory[ap + 0] = segments.add() %}\nap += 1");
}

#[test]
fn prefixes_and_suffixes() {
    assert!(starts_with("core::PanicResult::<felt>", "core::PanicResult::"));
    assert!(!starts_with("core::Panic", "core::PanicResult::"));
    assert!(starts_with("abc", ""));
    assert!(!starts_with("", "a"));
    assert!(ends_with("test::main", "::main"));
    assert!(!ends_with("test::main2", "::main"));
    assert!(ends_with("main", "main"));
    assert!(!ends_with("ain", "main"));
    assert!(ends_with("héllo::mäin", "mäin"));
}
