use cairo_core::casm::builder::{
    AuxiliaryVars, BuilderHint, BuilderStatement, CellExpression, CellOperand, CellOperator,
    Label, Var,
};
use cairo_core::casm::operand::{DerefOperand, Register};
use cairo_core::compiler::{
    CompilationError, EditStateError, InvocationError, ReferencesError,
};
use cairo_core::felt::Felt252;
use cairo_core::invocations::starknet::{
    build, build_getter, build_storage_base_address_from_felt, build_syscalls, build_testing,
    build_u251_try_from_felt, StarkNetConcreteLibfunc, TestingConcreteLibfunc, SYSTEM_CALL_COST,
};
use cairo_core::invocations::{
    CompiledInvocationBuilder, CostValidationInfo, ReferenceExpression, ReferenceValue,
};
use cairo_core::sierra::ids::{ConcreteLibFuncId, ConcreteTypeId, StatementIdx, VarId};
use cairo_core::sierra::program::{BranchInfo, BranchTarget, Invocation};

fn fp(offset: i16) -> DerefOperand {
    DerefOperand { register: Register::FP, offset }
}

fn ap(offset: i16) -> DerefOperand {
    DerefOperand { register: Register::AP, offset }
}

fn value_of(cells: Vec<CellExpression>) -> ReferenceValue {
    ReferenceValue { expression: ReferenceExpression { cells }, ty: ConcreteTypeId::new(0) }
}

fn in_cell(cell: DerefOperand) -> ReferenceValue {
    value_of(vec![CellExpression::Deref(cell)])
}

fn buffer_of(cell: DerefOperand, offset: u64) -> CellExpression {
    CellExpression::BinOp {
        op: CellOperator::Add,
        a: cell,
        b: CellOperand::Immediate(Felt252::from_u64(offset)),
    }
}

fn branching(refs: Vec<ReferenceValue>, targets: Vec<BranchTarget>) -> CompiledInvocationBuilder {
    CompiledInvocationBuilder {
        invocation: Invocation {
            libfunc_id: ConcreteLibFuncId { id: 0, debug_name: None },
            args: vec![],
            branches: targets
                .into_iter()
                .map(|target| BranchInfo { target, results: vec![] })
                .collect(),
        },
        refs,
    }
}

fn with_failure(refs: Vec<ReferenceValue>) -> CompiledInvocationBuilder {
    branching(refs, vec![BranchTarget::Fallthrough, BranchTarget::Statement(StatementIdx(12))])
}

fn add_var(var: usize, expr: CellExpression) -> BuilderStatement {
    BuilderStatement::AddVar { var: Var(var), expr }
}

fn write(value: usize) -> BuilderStatement {
    BuilderStatement::BufferWriteAndInc { buffer: Var(1), value: Var(value) }
}

fn read(var: usize) -> BuilderStatement {
    BuilderStatement::BufferGetAndInc { var: Var(var), buffer: Var(1) }
}

#[test]
fn storage_read_lowering() {
    let builder = with_failure(vec![
        in_cell(fp(-5)),
        in_cell(fp(-4)),
        in_cell(ap(-2)),
        in_cell(ap(-1)),
    ]);
    let invocation = build(&StarkNetConcreteLibfunc::StorageRead, builder).unwrap();
    assert_eq!(
        invocation.statements,
        vec![
            add_var(0, CellExpression::Deref(fp(-5))),
            add_var(1, buffer_of(fp(-4), 0)),
            BuilderStatement::Duplicate { var: Var(2), src: Var(1) },
            add_var(3, CellExpression::Immediate(Felt252::from_bytes_be(b"StorageRead"))),
            BuilderStatement::AllocVar { var: Var(4), local: false },
            BuilderStatement::AssertVarsEq { dst: Var(4), src: Var(3) },
            write(4),
            write(0),
            add_var(5, CellExpression::Deref(ap(-2))),
            write(5),
            add_var(6, CellExpression::Deref(ap(-1))),
            write(6),
            BuilderStatement::Hint(BuilderHint::SystemCall { system: Var(2) }),
            read(7),
            BuilderStatement::AllocVar { var: Var(8), local: false },
            write(8),
            read(9),
            BuilderStatement::Duplicate { var: Var(10), src: Var(1) },
            read(11),
            BuilderStatement::JumpNz { condition: Var(8), label: Label::Failure },
        ]
    );
    assert_eq!(invocation.branches.len(), 2);
    assert_eq!(invocation.branches[0].label, Label::Fallthrough);
    assert_eq!(invocation.branches[0].vars, vec![vec![Var(7)], vec![Var(10)], vec![Var(9)]]);
    assert_eq!(invocation.branches[0].target, None);
    assert_eq!(invocation.branches[1].label, Label::Failure);
    assert_eq!(
        invocation.branches[1].vars,
        vec![vec![Var(7)], vec![Var(1)], vec![Var(9), Var(11)]]
    );
    assert_eq!(invocation.branches[1].target, Some(StatementIdx(12)));
    assert_eq!(
        invocation.cost_validation,
        CostValidationInfo {
            range_check_info: None,
            extra_costs: Some((SYSTEM_CALL_COST, SYSTEM_CALL_COST))
        }
    );
    assert!(invocation.reference_changes.is_empty());
}

#[test]
fn syscall_with_a_long_response() {
    let builder = with_failure(vec![in_cell(fp(-5)), value_of(vec![buffer_of(fp(-4), 3)])]);
    let invocation = build_syscalls(builder, "Get", &[], &[1, 3]).unwrap();
    assert_eq!(
        invocation.statements[8..].to_vec(),
        vec![
            BuilderStatement::Hint(BuilderHint::SystemCall { system: Var(2) }),
            read(5),
            BuilderStatement::AllocVar { var: Var(6), local: false },
            write(6),
            read(7),
            read(8),
            BuilderStatement::Duplicate { var: Var(9), src: Var(1) },
            read(10),
            read(11),
            BuilderStatement::JumpNz { condition: Var(6), label: Label::Failure },
        ]
    );
    assert_eq!(invocation.statements[1], add_var(1, buffer_of(fp(-4), 3)));
    assert_eq!(
        invocation.branches[0].vars,
        vec![vec![Var(5)], vec![Var(1)], vec![Var(7)], vec![Var(8), Var(10), Var(11)]]
    );
    assert_eq!(
        invocation.branches[1].vars,
        vec![vec![Var(5)], vec![Var(9)], vec![Var(7), Var(8)]]
    );
}

#[test]
fn syscall_without_outputs() {
    let builder = with_failure(vec![
        in_cell(fp(-5)),
        in_cell(fp(-4)),
        value_of(vec![CellExpression::Deref(ap(-4)), CellExpression::Deref(ap(-3))]),
        value_of(vec![CellExpression::Deref(ap(-2)), CellExpression::Deref(ap(-1))]),
    ]);
    let invocation = build(&StarkNetConcreteLibfunc::EmitEvent, builder).unwrap();
    assert_eq!(invocation.statements.len(), 8 + 8 + 4 + 3 + 1);
    assert_eq!(
        invocation.statements[3],
        add_var(3, CellExpression::Immediate(Felt252::from_bytes_be(b"EmitEvent")))
    );
    // The system after the response of a success is the system before the reason of a failure.
    assert_eq!(invocation.branches[0].vars, vec![vec![Var(9)], vec![Var(11)]]);
    assert_eq!(
        invocation.branches[1].vars,
        vec![vec![Var(9)], vec![Var(1)], vec![Var(12), Var(13)]]
    );
}

#[test]
fn syscall_errors() {
    let refs = || vec![in_cell(fp(-5)), in_cell(fp(-4)), in_cell(ap(-2)), in_cell(ap(-1))];
    assert_eq!(
        build(
            &StarkNetConcreteLibfunc::StorageRead,
            branching(refs(), vec![BranchTarget::Fallthrough])
        )
        .err(),
        Some(InvocationError::InvalidBranches)
    );
    assert_eq!(
        build(
            &StarkNetConcreteLibfunc::StorageRead,
            branching(
                refs(),
                vec![BranchTarget::Statement(StatementIdx(1)), BranchTarget::Fallthrough]
            )
        )
        .err(),
        Some(InvocationError::InvalidBranches)
    );
    assert_eq!(
        build(&StarkNetConcreteLibfunc::StorageWrite, with_failure(refs())).err(),
        Some(InvocationError::WrongNumberOfArguments { expected: 5, actual: 4 })
    );
    let invalid = Some(InvocationError::InvalidReferenceExpressionForArgument);
    let mut gas_in_two_cells = refs();
    gas_in_two_cells[0] =
        value_of(vec![CellExpression::Deref(fp(-5)), CellExpression::Deref(fp(-6))]);
    assert_eq!(
        build(&StarkNetConcreteLibfunc::StorageRead, with_failure(gas_in_two_cells)).err(),
        invalid
    );
    let mut constant_gas = refs();
    constant_gas[0] = value_of(vec![CellExpression::Immediate(Felt252::from_u64(1))]);
    assert_eq!(
        build(&StarkNetConcreteLibfunc::StorageRead, with_failure(constant_gas)).err(),
        invalid
    );
    // No room is left for the call at the end of the buffer.
    let mut full_buffer = refs();
    full_buffer[1] = value_of(vec![buffer_of(fp(-4), 32760)]);
    assert_eq!(
        build(&StarkNetConcreteLibfunc::StorageRead, with_failure(full_buffer)).err(),
        invalid
    );
    let mut wide_input = refs();
    wide_input[3] = value_of(vec![CellExpression::Deref(ap(-1)), CellExpression::Deref(ap(-3))]);
    assert_eq!(
        build(&StarkNetConcreteLibfunc::StorageRead, with_failure(wide_input)).err(),
        invalid
    );
    let mut double_deref_input = refs();
    double_deref_input[2] = value_of(vec![CellExpression::DoubleDeref(ap(-1), 0)]);
    assert_eq!(
        build(&StarkNetConcreteLibfunc::StorageRead, with_failure(double_deref_input)).err(),
        invalid
    );
    assert_eq!(
        build_syscalls(with_failure(vec![in_cell(fp(-5)), in_cell(fp(-4))]), "Get", &[], &[-1])
            .err(),
        invalid
    );
}

#[test]
fn getter_lowering() {
    let builder = with_failure(vec![in_cell(fp(-5)), in_cell(fp(-4))]);
    let by_name = build_getter(builder.clone(), "GetExecutionInfo").unwrap();
    let by_libfunc = build(&StarkNetConcreteLibfunc::GetExecutionInfo, builder).unwrap();
    assert_eq!(by_name, by_libfunc);
    assert_eq!(
        by_name.statements[3],
        add_var(3, CellExpression::Immediate(Felt252::from_bytes_be(b"GetExecutionInfo")))
    );
    assert_eq!(by_name.branches[0].vars, vec![vec![Var(5)], vec![Var(8)], vec![Var(7)]]);
}

#[test]
fn address_conversion_lowering() {
    let builder = with_failure(vec![value_of(vec![buffer_of(fp(-4), 1)]), in_cell(ap(-1))]);
    let invocation =
        build(&StarkNetConcreteLibfunc::ContractAddressTryFromFelt, builder.clone()).unwrap();
    let auxiliary_vars =
        AuxiliaryVars { first: Var(2), second: Var(3), third: Var(4), fourth: Var(5) };
    assert_eq!(
        invocation.statements,
        vec![
            add_var(0, buffer_of(fp(-4), 1)),
            add_var(1, CellExpression::Deref(ap(-1))),
            BuilderStatement::AllocVar { var: Var(2), local: false },
            BuilderStatement::AllocVar { var: Var(3), local: false },
            BuilderStatement::AllocVar { var: Var(4), local: false },
            BuilderStatement::AllocVar { var: Var(5), local: false },
            add_var(6, CellExpression::Immediate(Felt252::two_pow_251())),
            BuilderStatement::Duplicate { var: Var(7), src: Var(0) },
            BuilderStatement::AllocVar { var: Var(8), local: false },
            BuilderStatement::Hint(BuilderHint::TestLessThan {
                lhs: Var(1),
                rhs: Var(6),
                dst: Var(8)
            }),
            BuilderStatement::JumpNz { condition: Var(8), label: Label::IsValidAddress },
            BuilderStatement::AllocVar { var: Var(9), local: false },
            BuilderStatement::BinOp {
                var: Var(10),
                op: CellOperator::Add,
                lhs: Var(9),
                rhs: Var(6)
            },
            BuilderStatement::AssertVarsEq { dst: Var(1), src: Var(10) },
            BuilderStatement::ValidateUnderLimit {
                k: 1,
                limit: Felt252::two_pow_251().neg(),
                value: Var(9),
                range_check: Var(0),
                auxiliary_vars
            },
            BuilderStatement::Jump { label: Label::Failure },
            BuilderStatement::Label { label: Label::IsValidAddress },
            BuilderStatement::ValidateUnderLimit {
                k: 1,
                limit: Felt252::two_pow_251(),
                value: Var(1),
                range_check: Var(0),
                auxiliary_vars
            },
        ]
    );
    assert_eq!(invocation.branches[0].vars, vec![vec![Var(0)], vec![Var(1)]]);
    assert_eq!(invocation.branches[0].target, None);
    assert_eq!(invocation.branches[1].vars, vec![vec![Var(0)]]);
    assert_eq!(invocation.branches[1].target, Some(StatementIdx(12)));
    assert_eq!(
        invocation.cost_validation,
        CostValidationInfo { range_check_info: Some((Var(7), Var(0))), extra_costs: None }
    );
    assert_eq!(
        build(&StarkNetConcreteLibfunc::StorageAddressTryFromFelt, builder.clone()).unwrap(),
        invocation
    );
    assert_eq!(build_u251_try_from_felt(builder).unwrap(), invocation);
}

#[test]
fn address_conversion_errors() {
    assert_eq!(
        build_u251_try_from_felt(with_failure(vec![in_cell(fp(-4))])).err(),
        Some(InvocationError::WrongNumberOfArguments { expected: 2, actual: 1 })
    );
    assert_eq!(
        build_u251_try_from_felt(with_failure(vec![in_cell(fp(-4)), value_of(vec![])])).err(),
        Some(InvocationError::InvalidReferenceExpressionForArgument)
    );
    assert_eq!(
        build_u251_try_from_felt(branching(vec![in_cell(fp(-4)), in_cell(ap(-1))], vec![])).err(),
        Some(InvocationError::InvalidBranches)
    );
    assert_eq!(
        build_u251_try_from_felt(with_failure(vec![
            value_of(vec![buffer_of(fp(-4), 32766)]),
            in_cell(ap(-1))
        ]))
        .err(),
        Some(InvocationError::InvalidReferenceExpressionForArgument)
    );
    assert!(build_u251_try_from_felt(with_failure(vec![
        value_of(vec![buffer_of(fp(-4), 32765)]),
        in_cell(ap(-1))
    ]))
    .is_ok());
    assert_eq!(
        build_u251_try_from_felt(with_failure(vec![
            in_cell(fp(-4)),
            value_of(vec![CellExpression::Immediate(Felt252::from_u64(3))])
        ]))
        .err(),
        Some(InvocationError::InvalidReferenceExpressionForArgument)
    );
}

#[test]
fn lowerings_without_code() {
    let refs = vec![
        value_of(vec![CellExpression::Deref(ap(-1)), CellExpression::DoubleDeref(fp(-3), 2)]),
        in_cell(fp(-4)),
    ];
    let identity =
        build(&StarkNetConcreteLibfunc::ContractAddressToFelt, with_failure(refs.clone()))
            .unwrap();
    assert!(identity.statements.is_empty());
    assert_eq!(
        identity.reference_changes,
        refs.iter().map(|value| value.expression.clone()).collect::<Vec<_>>()
    );
    assert_eq!(identity.branches.len(), 1);
    assert_eq!(identity.branches[0].label, Label::Fallthrough);
    assert_eq!(
        build(&StarkNetConcreteLibfunc::StorageAddressFromBase, with_failure(refs)).unwrap(),
        identity
    );
    let constant = Felt252::from_u64(1234);
    let address =
        build(&StarkNetConcreteLibfunc::ContractAddressConst(constant), with_failure(vec![]))
            .unwrap();
    assert_eq!(
        address.reference_changes,
        vec![ReferenceExpression { cells: vec![CellExpression::Immediate(constant)] }]
    );
    assert_eq!(
        build(
            &StarkNetConcreteLibfunc::ContractAddressConst(Felt252::two_pow_251()),
            with_failure(vec![])
        )
        .err(),
        Some(InvocationError::InvalidGenericArg)
    );
    assert!(build(
        &StarkNetConcreteLibfunc::ContractAddressConst(Felt252::storage_base_bound()),
        with_failure(vec![])
    )
    .is_ok());
    assert_eq!(
        build(
            &StarkNetConcreteLibfunc::StorageBaseAddressConst(Felt252::storage_base_bound()),
            with_failure(vec![])
        )
        .err(),
        Some(InvocationError::InvalidGenericArg)
    );
    assert!(build(
        &StarkNetConcreteLibfunc::StorageBaseAddressConst(Felt252::from_u64(0)),
        with_failure(vec![])
    )
    .is_ok());
}

#[test]
fn address_from_base_and_offset() {
    let offset = CellExpression::Immediate(Felt252::from_u64(5));
    let builder = with_failure(vec![in_cell(ap(-1)), value_of(vec![offset])]);
    let invocation =
        build(&StarkNetConcreteLibfunc::StorageAddressFromBaseAndOffset, builder).unwrap();
    assert_eq!(
        invocation.statements,
        vec![
            add_var(0, CellExpression::Deref(ap(-1))),
            add_var(1, offset),
            BuilderStatement::BinOp {
                var: Var(2),
                op: CellOperator::Add,
                lhs: Var(0),
                rhs: Var(1)
            },
        ]
    );
    assert_eq!(invocation.branches[0].vars, vec![vec![Var(2)]]);
    assert_eq!(
        build(
            &StarkNetConcreteLibfunc::StorageAddressFromBaseAndOffset,
            with_failure(vec![in_cell(ap(-1)), value_of(vec![buffer_of(ap(-2), 1)])])
        )
        .err(),
        Some(InvocationError::InvalidReferenceExpressionForArgument)
    );
}

#[test]
fn storage_base_address_lowering() {
    let builder = branching(
        vec![value_of(vec![buffer_of(fp(-4), 1)]), in_cell(ap(-1))],
        vec![BranchTarget::Fallthrough],
    );
    let invocation =
        build(&StarkNetConcreteLibfunc::StorageBaseAddressFromFelt, builder.clone()).unwrap();
    let auxiliary_vars =
        AuxiliaryVars { first: Var(2), second: Var(3), third: Var(4), fourth: Var(5) };
    assert_eq!(
        invocation.statements,
        vec![
            add_var(0, buffer_of(fp(-4), 1)),
            add_var(1, CellExpression::Deref(ap(-1))),
            BuilderStatement::AllocVar { var: Var(2), local: false },
            BuilderStatement::AllocVar { var: Var(3), local: false },
            BuilderStatement::AllocVar { var: Var(4), local: false },
            BuilderStatement::AllocVar { var: Var(5), local: false },
            add_var(6, CellExpression::Immediate(Felt252::storage_base_bound())),
            BuilderStatement::Duplicate { var: Var(7), src: Var(0) },
            BuilderStatement::AllocVar { var: Var(8), local: false },
            BuilderStatement::AllocVar { var: Var(9), local: false },
            BuilderStatement::Hint(BuilderHint::TestLessThan {
                lhs: Var(1),
                rhs: Var(6),
                dst: Var(8)
            }),
            BuilderStatement::JumpNz { condition: Var(8), label: Label::IsSmall },
            BuilderStatement::AllocVar { var: Var(10), local: false },
            BuilderStatement::BinOp {
                var: Var(11),
                op: CellOperator::Add,
                lhs: Var(10),
                rhs: Var(6)
            },
            BuilderStatement::AssertVarsEq { dst: Var(1), src: Var(11) },
            BuilderStatement::ValidateUnderLimit {
                k: 1,
                limit: Felt252::storage_base_bound().neg(),
                value: Var(10),
                range_check: Var(0),
                auxiliary_vars
            },
            BuilderStatement::AssertVarsEq { dst: Var(9), src: Var(10) },
            BuilderStatement::Jump { label: Label::Done },
            BuilderStatement::Label { label: Label::IsSmall },
            BuilderStatement::ValidateUnderLimit {
                k: 1,
                limit: Felt252::storage_base_bound(),
                value: Var(1),
                range_check: Var(0),
                auxiliary_vars
            },
            BuilderStatement::AssertVarsEq { dst: Var(9), src: Var(1) },
            BuilderStatement::Label { label: Label::Done },
        ]
    );
    assert_eq!(invocation.branches.len(), 1);
    assert_eq!(invocation.branches[0].label, Label::Fallthrough);
    assert_eq!(invocation.branches[0].vars, vec![vec![Var(0)], vec![Var(9)]]);
    assert_eq!(invocation.branches[0].target, None);
    assert_eq!(
        invocation.cost_validation,
        CostValidationInfo { range_check_info: Some((Var(7), Var(0))), extra_costs: None }
    );
    assert_eq!(build_storage_base_address_from_felt(builder).unwrap(), invocation);
    assert_eq!(
        Felt252::storage_base_bound().neg().to_string(),
        "106710729501573572985208420194530329073740042555888586719489"
    );
}

#[test]
fn storage_base_address_errors() {
    assert_eq!(
        build_storage_base_address_from_felt(with_failure(vec![in_cell(fp(-4))])).err(),
        Some(InvocationError::WrongNumberOfArguments { expected: 2, actual: 1 })
    );
    assert_eq!(
        build_storage_base_address_from_felt(with_failure(vec![
            in_cell(fp(-4)),
            value_of(vec![CellExpression::Immediate(Felt252::from_u64(5))])
        ]))
        .err(),
        Some(InvocationError::InvalidReferenceExpressionForArgument)
    );
    assert_eq!(
        build_storage_base_address_from_felt(with_failure(vec![
            value_of(vec![CellExpression::Immediate(Felt252::from_u64(5))]),
            in_cell(fp(-4))
        ]))
        .err(),
        Some(InvocationError::InvalidReferenceExpressionForArgument)
    );
    assert_eq!(
        build_storage_base_address_from_felt(with_failure(vec![
            in_cell(fp(-4)),
            value_of(vec![CellExpression::Deref(ap(-1)), CellExpression::Deref(ap(-2))])
        ]))
        .err(),
        Some(InvocationError::InvalidReferenceExpressionForArgument)
    );
}

#[test]
fn testing_libfuncs_lowering() {
    let libfuncs = [
        (TestingConcreteLibfunc::SetBlockNumber, BuilderHint::SetBlockNumber { value: Var(0) }),
        (
            TestingConcreteLibfunc::SetBlockTimestamp,
            BuilderHint::SetBlockTimestamp { value: Var(0) },
        ),
        (
            TestingConcreteLibfunc::SetCallerAddress,
            BuilderHint::SetCallerAddress { value: Var(0) },
        ),
        (
            TestingConcreteLibfunc::SetContractAddress,
            BuilderHint::SetContractAddress { value: Var(0) },
        ),
        (
            TestingConcreteLibfunc::SetSequencerAddress,
            BuilderHint::SetSequencerAddress { value: Var(0) },
        ),
    ];
    for (libfunc, hint) in libfuncs {
        let builder = branching(vec![in_cell(fp(-3))], vec![BranchTarget::Fallthrough]);
        let invocation =
            build(&StarkNetConcreteLibfunc::Testing(libfunc), builder.clone()).unwrap();
        assert_eq!(
            invocation.statements,
            vec![
                add_var(0, CellExpression::Deref(fp(-3))),
                BuilderStatement::Hint(hint),
                BuilderStatement::AddAp { size: 0 },
            ]
        );
        assert_eq!(invocation.branches.len(), 1);
        assert_eq!(invocation.branches[0].label, Label::Fallthrough);
        assert!(invocation.branches[0].vars.is_empty());
        assert_eq!(invocation.branches[0].target, None);
        assert_eq!(
            invocation.cost_validation,
            CostValidationInfo { range_check_info: None, extra_costs: None }
        );
        assert_eq!(build_testing(&libfunc, builder).unwrap(), invocation);
    }
}

#[test]
fn testing_libfuncs_errors() {
    assert_eq!(
        build_testing(&TestingConcreteLibfunc::SetBlockNumber, with_failure(vec![])).err(),
        Some(InvocationError::WrongNumberOfArguments { expected: 1, actual: 0 })
    );
    assert_eq!(
        build_testing(
            &TestingConcreteLibfunc::SetCallerAddress,
            with_failure(vec![value_of(vec![buffer_of(fp(-4), 1)])])
        )
        .err(),
        Some(InvocationError::InvalidReferenceExpressionForArgument)
    );
}

#[test]
fn lowering_error_texts() {
    assert_eq!(
        CompilationError::ReferencesError(ReferencesError::EditStateError(
            EditStateError::MissingReference(VarId { id: 2 })
        ))
        .to_string(),
        "missing reference 2"
    );
    assert_eq!(
        InvocationError::WrongNumberOfArguments { expected: 5, actual: 4 }.to_string(),
        "Expected 5 arguments, got 4."
    );
    assert_eq!(
        CompilationError::InvocationError(InvocationError::NotImplemented).to_string(),
        "The libfunc has no lowering rule."
    );
    assert_eq!(
        ReferencesError::MissingReferencesForStatement.to_string(),
        "Missing references for statement."
    );
}

#[test]
fn cell_expression_forms() {
    assert_eq!(CellExpression::Deref(ap(3)).to_deref(), Some(ap(3)));
    assert_eq!(CellExpression::Immediate(Felt252::from_u64(3)).to_deref(), None);
    assert_eq!(CellExpression::Deref(ap(3)).to_buffer(4), Some(buffer_of(ap(3), 0)));
    assert_eq!(buffer_of(ap(3), 100).to_buffer(32667), Some(buffer_of(ap(3), 100)));
    assert_eq!(buffer_of(ap(3), 100).to_buffer(32668), None);
    assert_eq!(CellExpression::Deref(ap(3)).to_buffer(-1), None);
    assert_eq!(CellExpression::DoubleDeref(ap(3), 1).to_buffer(1), None);
    assert_eq!(
        CellExpression::BinOp {
            op: CellOperator::Mul,
            a: ap(3),
            b: CellOperand::Immediate(Felt252::from_u64(1))
        }
        .to_buffer(1),
        None
    );
}
