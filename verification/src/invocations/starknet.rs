//! The lowering rules of the libfuncs of Starknet.

use vstd::prelude::*;
use vstd::string::*;
use crate::bigint::be_bytes_value;
use crate::casm::builder::{
    AuxiliaryVars,
    BuilderHint,
    BuilderStatement,
    CasmBuilder,
    CellExpression,
    CellOperator,
    Label,
    Var,
};
use crate::casm::operand::DerefOperand;
use crate::compiler::InvocationError;
use crate::felt::{field_neg, prime, Felt252};
use crate::invocations::{
    all_single,
    expressions_view,
    is_reference_change,
    non_fallthrough,
    refs_view,
    ReferenceExpression,
    single_cell,
    vars_view,
    BranchOutput,
    CompiledInvocation,
    CompiledInvocationBuilder,
    CostValidationInfo,
    ReferenceValue,
};
use crate::sierra::ids::StatementIdx;

verus! {

/// The cost of a call of the system, beside the cost of the code that makes
/// it.
pub const SYSTEM_CALL_COST: i32 = 10000;

/// 2^251, the bound of the addresses of Starknet.
pub open spec fn address_bound() -> nat {
    0x800000000000000000000000000000000000000000000000000000000000000nat
}

fn one_var(var: Var) -> (vars: Vec<Var>)
    ensures
        vars@ == seq![var],
{
    let mut vars: Vec<Var> = Vec::new();
    vars.push(var);
    vars
}

/// What the rule for the conversion of a felt to an address is given, if it
/// is given what it takes: two arguments of one cell each, an invocation that
/// branches to a failure, the range check as a buffer with room for two
/// writes, and the value in a cell.
pub open spec fn u251_inputs(builder: CompiledInvocationBuilder) -> Result<
    (CellExpression, DerefOperand, StatementIdx),
    InvocationError,
> {
    let refs = builder.refs@;
    if refs.len() != 2 {
        Err(InvocationError::WrongNumberOfArguments { expected: 2, actual: refs.len() as usize })
    } else if !all_single(refs) {
        Err(InvocationError::InvalidReferenceExpressionForArgument)
    } else {
        match non_fallthrough(builder.invocation) {
            None => Err(InvocationError::InvalidBranches),
            Some(failure) => match single_cell(refs[0]).unwrap().spec_to_buffer(2) {
                None => Err(InvocationError::InvalidReferenceExpressionForArgument),
                Some(range_check) => match single_cell(refs[1]).unwrap().spec_to_deref() {
                    None => Err(InvocationError::InvalidReferenceExpressionForArgument),
                    Some(value) => Ok((range_check, value, failure)),
                },
            },
        }
    }
}

/// The steps of the conversion of a felt to an address. A hint tells whether
/// the value is below the bound. If it is, the value is checked to be below
/// the bound. If it is not, the value less the bound is checked to be below
/// the prime less the bound, and the code goes on to the failure.
pub open spec fn u251_statements(range_check: CellExpression, value: DerefOperand) -> Seq<
    BuilderStatement,
> {
    let aux = AuxiliaryVars { first: Var(2), second: Var(3), third: Var(4), fourth: Var(5) };
    seq![
        BuilderStatement::AddVar { var: Var(0), expr: range_check },
        BuilderStatement::AddVar { var: Var(1), expr: CellExpression::Deref(value) },
        BuilderStatement::AllocVar { var: Var(2), local: false },
        BuilderStatement::AllocVar { var: Var(3), local: false },
        BuilderStatement::AllocVar { var: Var(4), local: false },
        BuilderStatement::AllocVar { var: Var(5), local: false },
        BuilderStatement::AddVar {
            var: Var(6),
            expr: CellExpression::Immediate(Felt252::spec_from_nat(address_bound())),
        },
        BuilderStatement::Duplicate { var: Var(7), src: Var(0) },
        BuilderStatement::AllocVar { var: Var(8), local: false },
        BuilderStatement::Hint(
            BuilderHint::TestLessThan { lhs: Var(1), rhs: Var(6), dst: Var(8) },
        ),
        BuilderStatement::JumpNz { condition: Var(8), label: Label::IsValidAddress },
        BuilderStatement::AllocVar { var: Var(9), local: false },
        BuilderStatement::BinOp { var: Var(10), op: CellOperator::Add, lhs: Var(9), rhs: Var(6) },
        BuilderStatement::AssertVarsEq { dst: Var(1), src: Var(10) },
        BuilderStatement::ValidateUnderLimit {
            k: 1,
            limit: Felt252::spec_from_nat((prime() - address_bound()) as nat),
            value: Var(9),
            range_check: Var(0),
            auxiliary_vars: aux,
        },
        BuilderStatement::Jump { label: Label::Failure },
        BuilderStatement::Label { label: Label::IsValidAddress },
        BuilderStatement::ValidateUnderLimit {
            k: 1,
            limit: Felt252::spec_from_nat(address_bound()),
            value: Var(1),
            range_check: Var(0),
            auxiliary_vars: aux,
        },
    ]
}

/// Whether an invocation is the lowered conversion of a felt to an address:
/// the steps above; a branch that falls through with the range check and the
/// value, and a branch to the failure with the range check; and the range
/// check before and after the code for the check of the costs.
pub open spec fn is_u251_invocation(
    invocation: CompiledInvocation,
    range_check: CellExpression,
    value: DerefOperand,
    failure: StatementIdx,
) -> bool {
    &&& invocation.statements@ == u251_statements(range_check, value)
    &&& invocation.branches@.len() == 2
    &&& invocation.branches@[0].label == Label::Fallthrough
    &&& vars_view(invocation.branches@[0].vars@) == seq![seq![Var(0)], seq![Var(1)]]
    &&& invocation.branches@[0].target is None
    &&& invocation.branches@[1].label == Label::Failure
    &&& vars_view(invocation.branches@[1].vars@) == seq![seq![Var(0)]]
    &&& invocation.branches@[1].target == Some(failure)
    &&& invocation.cost_validation == (CostValidationInfo {
        range_check_info: Some((Var(7), Var(0))),
        extra_costs: None,
    })
    &&& invocation.reference_changes@.len() == 0
}

/// What the rule for the conversion of a felt to an address returns: the
/// error of what it is given, or the lowered conversion.
pub open spec fn u251_post(
    builder: CompiledInvocationBuilder,
    res: Result<CompiledInvocation, InvocationError>,
) -> bool {
    match u251_inputs(builder) {
        Err(error) => res == Err::<CompiledInvocation, InvocationError>(error),
        Ok((range_check, value, failure)) => res matches Ok(invocation) && is_u251_invocation(
            invocation,
            range_check,
            value,
            failure,
        ),
    }
}

/// Builds a libfunc that tries to convert a felt to a type with values in the
/// range [0, 2**251).
pub fn build_u251_try_from_felt(builder: CompiledInvocationBuilder) -> (res: Result<
    CompiledInvocation,
    InvocationError,
>)
    ensures
        u251_post(builder, res),
{
    let cells = match builder.try_get_single_cells(2) {
        Ok(cells) => cells,
        Err(error) => {
            return Err(error);
        },
    };
    let failure_handle_statement_id = match builder.get_non_fallthrough_statement_id() {
        Ok(id) => id,
        Err(error) => {
            return Err(error);
        },
    };
    let range_check_buffer = match cells[0].to_buffer(2) {
        Some(buffer) => buffer,
        None => {
            return Err(InvocationError::InvalidReferenceExpressionForArgument);
        },
    };
    let value_cell = match cells[1].to_deref() {
        Some(cell) => cell,
        None => {
            return Err(InvocationError::InvalidReferenceExpressionForArgument);
        },
    };
    let addr_bound = Felt252::two_pow_251();
    let shifted_bound = addr_bound.neg();
    proof {
        Felt252::lemma_spec_from_nat(address_bound());
        Felt252::lemma_spec_from_nat((prime() - address_bound()) as nat);
    }
    let mut casm_builder = CasmBuilder::new();
    let range_check = casm_builder.add_var(range_check_buffer);
    let value = casm_builder.add_var(CellExpression::Deref(value_cell));
    let first = casm_builder.alloc_var(false);
    let second = casm_builder.alloc_var(false);
    let third = casm_builder.alloc_var(false);
    let fourth = casm_builder.alloc_var(false);
    let auxiliary_vars = AuxiliaryVars { first, second, third, fourth };
    let limit = casm_builder.add_var(CellExpression::Immediate(addr_bound));
    let orig_range_check = casm_builder.duplicate_var(range_check);
    let is_valid_address = casm_builder.alloc_var(false);
    casm_builder.add_statement(
        BuilderStatement::Hint(
            BuilderHint::TestLessThan { lhs: value, rhs: limit, dst: is_valid_address },
        ),
    );
    casm_builder.add_statement(
        BuilderStatement::JumpNz { condition: is_valid_address, label: Label::IsValidAddress },
    );
    let shifted_value = casm_builder.alloc_var(false);
    let sum = casm_builder.bin_op(CellOperator::Add, shifted_value, limit);
    casm_builder.assert_vars_eq(value, sum);
    casm_builder.add_statement(
        BuilderStatement::ValidateUnderLimit {
            k: 1,
            limit: shifted_bound,
            value: shifted_value,
            range_check,
            auxiliary_vars,
        },
    );
    casm_builder.add_statement(BuilderStatement::Jump { label: Label::Failure });
    casm_builder.add_statement(BuilderStatement::Label { label: Label::IsValidAddress });
    casm_builder.add_statement(
        BuilderStatement::ValidateUnderLimit {
            k: 1,
            limit: addr_bound,
            value,
            range_check,
            auxiliary_vars,
        },
    );
    assert(casm_builder.statements@ =~= u251_statements(range_check_buffer, value_cell));
    let mut fallthrough_vars: Vec<Vec<Var>> = Vec::new();
    fallthrough_vars.push(one_var(range_check));
    fallthrough_vars.push(one_var(value));
    let mut failure_vars: Vec<Vec<Var>> = Vec::new();
    failure_vars.push(one_var(range_check));
    let mut branches: Vec<BranchOutput> = Vec::new();
    branches.push(BranchOutput { label: Label::Fallthrough, vars: fallthrough_vars, target: None });
    branches.push(
        BranchOutput {
            label: Label::Failure,
            vars: failure_vars,
            target: Some(failure_handle_statement_id),
        },
    );
    proof {
        assert(vars_view(branches@[0].vars@) =~= seq![seq![Var(0)], seq![Var(1)]]);
        assert(vars_view(branches@[1].vars@) =~= seq![seq![Var(0)]]);
    }
    Ok(
        builder.build_from_casm_builder(
            casm_builder,
            branches,
            CostValidationInfo {
                range_check_info: Some((orig_range_check, range_check)),
                extra_costs: None,
            },
        ),
    )
}

/// The sum of the first `n` sizes.
pub open spec fn sizes_total(sizes: Seq<i16>, n: int) -> int
    decreases n,
{
    if n <= 0 {
        0
    } else {
        sizes_total(sizes, n - 1) + sizes[n - 1]
    }
}

/// No size is below zero.
pub open spec fn sizes_not_negative(sizes: Seq<i16>) -> bool {
    forall|i: int| 0 <= i < sizes.len() ==> (#[trigger] sizes[i]) >= 0
}

/// The sum of more sizes is no smaller, where no size is below zero.
pub proof fn lemma_sizes_total_monotonic(sizes: Seq<i16>, a: int, b: int)
    requires
        0 <= a <= b <= sizes.len(),
        sizes_not_negative(sizes),
    ensures
        0 <= sizes_total(sizes, a) <= sizes_total(sizes, b),
    decreases b,
{
    if b > 0 {
        if a < b {
            lemma_sizes_total_monotonic(sizes, a, b - 1);
        } else {
            lemma_sizes_total_monotonic(sizes, a - 1, b - 1);
        }
    }
}

/// The larger of two numbers.
pub open spec fn larger(a: int, b: int) -> int {
    if a >= b {
        a
    } else {
        b
    }
}

/// The number of cells of the system's buffer that a call of the system
/// takes: the selector, the gas, the inputs, the gas that is left, the flag of
/// a failure, and the response, which for a failure is the start and the end of
/// the reason.
pub open spec fn syscall_buffer_size(input_sizes: Seq<i16>, output_sizes: Seq<i16>) -> int {
    sizes_total(input_sizes, input_sizes.len() as int) + 2 + larger(
        sizes_total(output_sizes, output_sizes.len() as int),
        2,
    ) + 2
}

/// The cells of a value, where each of them is a cell of the memory.
pub open spec fn value_cells(value: ReferenceValue) -> Seq<DerefOperand> {
    Seq::new(
        value.expression.cells@.len(),
        |j: int| value.expression.cells@[j].spec_to_deref().unwrap(),
    )
}

/// Whether the `i`-th input is held as the rule needs it: in as many cells as
/// its size says, each a cell of the memory.
pub open spec fn input_ok(refs: Seq<ReferenceValue>, input_sizes: Seq<i16>, i: int) -> bool {
    let cells = refs[i + 2].expression.cells@;
    &&& input_sizes[i] == cells.len()
    &&& forall|j: int| 0 <= j < cells.len() ==> (#[trigger] cells[j]).spec_to_deref() is Some
}

/// Whether every input is held as the rule needs it.
pub open spec fn inputs_ok(refs: Seq<ReferenceValue>, input_sizes: Seq<i16>) -> bool {
    forall|i: int| 0 <= i < input_sizes.len() ==> #[trigger] input_ok(refs, input_sizes, i)
}

/// The cells of the first `n` inputs, in their order.
pub open spec fn input_cells(refs: Seq<ReferenceValue>, n: int) -> Seq<DerefOperand>
    decreases n,
{
    if n <= 0 {
        Seq::<DerefOperand>::empty()
    } else {
        input_cells(refs, n - 1) + value_cells(refs[n + 1])
    }
}

/// What the rule for a call of the system is given, if it is given what it
/// takes.
pub struct SyscallInputs {
    /// The cell of the gas builtin.
    pub gas_builtin: DerefOperand,
    /// The system, as a buffer.
    pub system: CellExpression,
    /// The cells of the inputs.
    pub cells: Seq<DerefOperand>,
    /// The statement that a failure goes on to.
    pub failure: StatementIdx,
}

/// What the rule for a call of the system is given. In this order: the
/// invocation has to branch to a failure; there have to be two arguments more
/// than inputs, the gas builtin and the system; each of these two has to be held
/// in one cell, the gas builtin in a cell of the memory and the system as a
/// buffer with room for the call; each input has to be held in as many cells of
/// the memory as its size says; and no size of an output may be below zero.
pub open spec fn syscall_inputs(
    builder: CompiledInvocationBuilder,
    input_sizes: Seq<i16>,
    output_sizes: Seq<i16>,
) -> Result<SyscallInputs, InvocationError> {
    let refs = builder.refs@;
    match non_fallthrough(builder.invocation) {
        None => Err(InvocationError::InvalidBranches),
        Some(failure) => if refs.len() != input_sizes.len() + 2 {
            Err(
                InvocationError::WrongNumberOfArguments {
                    expected: (input_sizes.len() + 2) as usize,
                    actual: refs.len() as usize,
                },
            )
        } else if single_cell(refs[0]) is None || single_cell(refs[1]) is None {
            Err(InvocationError::InvalidReferenceExpressionForArgument)
        } else {
            match (
                single_cell(refs[0]).unwrap().spec_to_deref(),
                single_cell(refs[1]).unwrap().spec_to_buffer(
                    syscall_buffer_size(input_sizes, output_sizes),
                ),
            ) {
                (Some(gas_builtin), Some(system)) => if inputs_ok(refs, input_sizes)
                    && sizes_not_negative(output_sizes) {
                    Ok(
                        SyscallInputs {
                            gas_builtin,
                            system,
                            cells: input_cells(refs, input_sizes.len() as int),
                            failure,
                        },
                    )
                } else {
                    Err(InvocationError::InvalidReferenceExpressionForArgument)
                },
                _ => Err(InvocationError::InvalidReferenceExpressionForArgument),
            }
        },
    }
}

/// The steps that write the first `n` cells of the inputs to the system's
/// buffer: each cell gets a variable, the next one after `first_var`, and is
/// asserted to be the next cell of the buffer.
pub open spec fn input_statements(cells: Seq<DerefOperand>, first_var: int, n: int) -> Seq<
    BuilderStatement,
>
    decreases n,
{
    if n <= 0 {
        Seq::<BuilderStatement>::empty()
    } else {
        input_statements(cells, first_var, n - 1) + seq![
            BuilderStatement::AddVar {
                var: Var((first_var + n - 1) as usize),
                expr: CellExpression::Deref(cells[n - 1]),
            },
            BuilderStatement::BufferWriteAndInc {
                buffer: Var(1),
                value: Var((first_var + n - 1) as usize),
            },
        ]
    }
}

/// How far the reading of the response has come.
pub struct ResponseState {
    /// The steps so far.
    pub statements: Seq<BuilderStatement>,
    /// The number of the next variable.
    pub next_var: int,
    /// The variables of the cells of the response so far.
    pub responses: Seq<Var>,
    /// The system after the response of a success, once it was passed.
    pub success_final: Option<Var>,
    /// The system after the reason of a failure, once it was passed.
    pub failure_final: Option<Var>,
}

/// The reading of the first `n` cells of the response. Before the cell at
/// which the response of a success ends, and before the one at which the
/// reason of a failure ends, the system as it is then gets a variable.
pub open spec fn responses_upto(success_size: int, first_var: int, n: int) -> ResponseState
    decreases n,
{
    if n <= 0 {
        ResponseState {
            statements: Seq::<BuilderStatement>::empty(),
            next_var: first_var,
            responses: Seq::<Var>::empty(),
            success_final: None,
            failure_final: None,
        }
    } else {
        let prev = responses_upto(success_size, first_var, n - 1);
        let i = n - 1;
        let at_success = i == success_size;
        let at_failure = i == 2;
        let success_var = prev.next_var;
        let failure_var = prev.next_var + (if at_success {
            1int
        } else {
            0int
        });
        let response_var = failure_var + (if at_failure {
            1int
        } else {
            0int
        });
        ResponseState {
            statements: prev.statements + (if at_success {
                seq![BuilderStatement::Duplicate { var: Var(success_var as usize), src: Var(1) }]
            } else {
                Seq::<BuilderStatement>::empty()
            }) + (if at_failure {
                seq![BuilderStatement::Duplicate { var: Var(failure_var as usize), src: Var(1) }]
            } else {
                Seq::<BuilderStatement>::empty()
            }) + seq![
                BuilderStatement::BufferGetAndInc {
                    var: Var(response_var as usize),
                    buffer: Var(1),
                },
            ],
            next_var: response_var + 1,
            responses: prev.responses.push(Var(response_var as usize)),
            success_final: if at_success {
                Some(Var(success_var as usize))
            } else {
                prev.success_final
            },
            failure_final: if at_failure {
                Some(Var(failure_var as usize))
            } else {
                prev.failure_final
            },
        }
    }
}

/// The variables of the first `n` outputs: for each output, as many of the
/// response's variables as its size says, in their order.
pub open spec fn output_slices(responses: Seq<Var>, output_sizes: Seq<i16>, n: int) -> Seq<
    Seq<Var>,
>
    decreases n,
{
    if n <= 0 {
        Seq::<Seq<Var>>::empty()
    } else {
        output_slices(responses, output_sizes, n - 1).push(
            responses.subrange(sizes_total(output_sizes, n - 1), sizes_total(output_sizes, n)),
        )
    }
}

/// The steps of a call of the system. The selector and the gas builtin are
/// written to the system's buffer, then the inputs. After the hint that makes
/// the call, the gas that is left and the flag of a failure are read, then the
/// response. At the end the code jumps to the failure if the flag is set.
pub open spec fn syscall_statements(
    inputs: SyscallInputs,
    selector: Felt252,
    success_size: int,
) -> Seq<BuilderStatement> {
    let m = inputs.cells.len() as int;
    let response_count = larger(success_size, 2);
    seq![
        BuilderStatement::AddVar { var: Var(0), expr: CellExpression::Deref(inputs.gas_builtin) },
        BuilderStatement::AddVar { var: Var(1), expr: inputs.system },
        BuilderStatement::Duplicate { var: Var(2), src: Var(1) },
        BuilderStatement::AddVar { var: Var(3), expr: CellExpression::Immediate(selector) },
        BuilderStatement::AllocVar { var: Var(4), local: false },
        BuilderStatement::AssertVarsEq { dst: Var(4), src: Var(3) },
        BuilderStatement::BufferWriteAndInc { buffer: Var(1), value: Var(4) },
        BuilderStatement::BufferWriteAndInc { buffer: Var(1), value: Var(0) },
    ] + input_statements(inputs.cells, 5, m) + seq![
        BuilderStatement::Hint(BuilderHint::SystemCall { system: Var(2) }),
        BuilderStatement::BufferGetAndInc { var: Var((5 + m) as usize), buffer: Var(1) },
        BuilderStatement::AllocVar { var: Var((6 + m) as usize), local: false },
        BuilderStatement::BufferWriteAndInc { buffer: Var(1), value: Var((6 + m) as usize) },
    ] + responses_upto(success_size, 7 + m, response_count).statements + seq![
        BuilderStatement::JumpNz { condition: Var((6 + m) as usize), label: Label::Failure },
    ]
}

/// The variable of the option, or the system.
pub open spec fn or_system(var: Option<Var>) -> Var {
    match var {
        Some(var) => var,
        None => Var(1),
    }
}

/// Whether an invocation is the lowered call of the system. Its success
/// falls through with the gas that is left, the system after the response and
/// the outputs; its failure goes on to the failure's statement with the gas
/// that is left, the system after the reason and the start and the end of the
/// reason. Both branches cost a call of the system beside their code.
pub open spec fn is_syscall_invocation(
    invocation: CompiledInvocation,
    inputs: SyscallInputs,
    selector: Felt252,
    output_sizes: Seq<i16>,
) -> bool {
    let m = inputs.cells.len() as int;
    let success_size = sizes_total(output_sizes, output_sizes.len() as int);
    let state = responses_upto(success_size, 7 + m, larger(success_size, 2));
    let updated_gas = Var((5 + m) as usize);
    &&& invocation.statements@ == syscall_statements(inputs, selector, success_size)
    &&& invocation.branches@.len() == 2
    &&& invocation.branches@[0].label == Label::Fallthrough
    &&& vars_view(invocation.branches@[0].vars@) == seq![
        seq![updated_gas],
        seq![or_system(state.success_final)],
    ] + output_slices(state.responses, output_sizes, output_sizes.len() as int)
    &&& invocation.branches@[0].target is None
    &&& invocation.branches@[1].label == Label::Failure
    &&& vars_view(invocation.branches@[1].vars@) == seq![
        seq![updated_gas],
        seq![or_system(state.failure_final)],
        seq![state.responses[0], state.responses[1]],
    ]
    &&& invocation.branches@[1].target == Some(inputs.failure)
    &&& invocation.cost_validation == (CostValidationInfo {
        range_check_info: None,
        extra_costs: Some((SYSTEM_CALL_COST, SYSTEM_CALL_COST)),
    })
    &&& invocation.reference_changes@.len() == 0
}

/// The selector of a call of the system: the bytes of its name, as a number
/// with the most significant byte first, in the field.
pub open spec fn selector_value(selector: Seq<u8>) -> nat {
    be_bytes_value(selector) % prime()
}

/// 256 to the power `n`: the number of the texts of `n` bytes.
pub open spec fn byte_texts(n: nat) -> nat
    decreases n,
{
    if n == 0 {
        1
    } else {
        256 * byte_texts((n - 1) as nat)
    }
}

/// The number that bytes stand for is below the number of the texts of
/// their length.
pub proof fn lemma_bytes_value_bound(bytes: Seq<u8>)
    ensures
        be_bytes_value(bytes) < byte_texts(bytes.len()),
    decreases bytes.len(),
{
    if bytes.len() > 0 {
        lemma_bytes_value_bound(bytes.drop_last());
    }
}

/// There are no fewer texts of more bytes.
pub proof fn lemma_byte_texts_monotonic(a: nat, b: nat)
    requires
        a <= b,
    ensures
        byte_texts(a) <= byte_texts(b),
    decreases b,
{
    if a < b {
        lemma_byte_texts_monotonic(a, (b - 1) as nat);
    }
}

/// The selector of a name of fewer than 32 bytes is the integer that the
/// bytes of the name stand for: it is below the prime. Only the integer of a
/// longer name is reduced to an element of the field, as the machine reduces
/// every immediate.
pub proof fn lemma_short_selector(selector: Seq<u8>)
    requires
        selector.len() <= 31,
    ensures
        selector_value(selector) == be_bytes_value(selector),
{
    lemma_bytes_value_bound(selector);
    lemma_byte_texts_monotonic(selector.len(), 31);
    reveal_with_fuel(byte_texts, 32);
    assert(byte_texts(31) == 0x100000000000000000000000000000000000000000000000000000000000000nat);
    vstd::arithmetic::div_mod::lemma_small_mod(be_bytes_value(selector), prime());
}

/// The sum of the sizes.
fn sum_sizes(sizes: &[i16]) -> (total: i128)
    ensures
        total == sizes_total(sizes@, sizes@.len() as int),
        -0x8000_0000_0000_0000_0000 <= total <= 0x8000_0000_0000_0000_0000,
{
    let mut total: i128 = 0;
    let mut i: usize = 0;
    while i < sizes.len()
        invariant
            i <= sizes.len(),
            total == sizes_total(sizes@, i as int),
            -32768 * i <= total <= 32768 * i,
        decreases sizes.len() - i,
    {
        total = total + sizes[i] as i128;
        i = i + 1;
    }
    total
}

/// Whether no size is below zero.
fn check_not_negative(sizes: &[i16]) -> (res: bool)
    ensures
        res == sizes_not_negative(sizes@),
{
    let mut i: usize = 0;
    while i < sizes.len()
        invariant
            i <= sizes.len(),
            forall|k: int| 0 <= k < i ==> (#[trigger] sizes@[k]) >= 0,
        decreases sizes.len() - i,
    {
        if sizes[i] < 0 {
            return false;
        }
        i = i + 1;
    }
    true
}

/// The cells of the inputs, if every input is held as the rule needs it.
fn flatten_inputs(refs: &Vec<ReferenceValue>, input_sizes: &[i16]) -> (res: Option<
    Vec<DerefOperand>,
>)
    requires
        refs@.len() == input_sizes@.len() + 2,
    ensures
        match res {
            Some(cells) => inputs_ok(refs@, input_sizes@) && cells@ == input_cells(
                refs@,
                input_sizes@.len() as int,
            ) && cells@.len() == sizes_total(input_sizes@, input_sizes@.len() as int),
            None => !inputs_ok(refs@, input_sizes@),
        },
{
    let mut out: Vec<DerefOperand> = Vec::new();
    let count = refs.len();
    let mut i: usize = 0;
    while i < input_sizes.len()
        invariant
            i <= input_sizes.len(),
            count == refs@.len(),
            refs@.len() == input_sizes@.len() + 2,
            forall|k: int| 0 <= k < i ==> #[trigger] input_ok(refs@, input_sizes@, k),
            out@ == input_cells(refs@, i as int),
            out@.len() == sizes_total(input_sizes@, i as int),
        decreases input_sizes.len() - i,
    {
        let cells = &refs[i + 2].expression.cells;
        let size = input_sizes[i];
        if size < 0 || size as usize != cells.len() {
            assert(!input_ok(refs@, input_sizes@, i as int));
            return None;
        }
        let ghost before = out@;
        let mut j: usize = 0;
        while j < cells.len()
            invariant
                j <= cells.len(),
                forall|k: int| 0 <= k < j ==> (#[trigger] cells@[k]).spec_to_deref() is Some,
                out@.len() == before.len() + j,
                forall|k: int| 0 <= k < before.len() ==> out@[k] == before[k],
                forall|k: int|
                    0 <= k < j ==> out@[before.len() + k] == (
                    #[trigger] cells@[k]).spec_to_deref().unwrap(),
                i < input_sizes.len(),
                refs@.len() == input_sizes@.len() + 2,
                *cells == refs@[i + 2].expression.cells,
            decreases cells.len() - j,
        {
            match cells[j].to_deref() {
                Some(cell) => {
                    out.push(cell);
                },
                None => {
                    assert(!input_ok(refs@, input_sizes@, i as int));
                    return None;
                },
            }
            j = j + 1;
        }
        i = i + 1;
    }
    Some(out)
}

/// Writes the steps that write the cells of the inputs to the system's
/// buffer.
fn write_inputs(casm_builder: &mut CasmBuilder, cells: &Vec<DerefOperand>)
    requires
        old(casm_builder).var_count + cells@.len() < usize::MAX,
    ensures
        final(casm_builder).statements@ == old(casm_builder).statements@ + input_statements(
            cells@,
            old(casm_builder).var_count as int,
            cells@.len() as int,
        ),
        final(casm_builder).var_count == old(casm_builder).var_count + cells@.len(),
{
    let ghost before = casm_builder.statements@;
    let ghost first_var = casm_builder.var_count as int;
    let mut t: usize = 0;
    while t < cells.len()
        invariant
            t <= cells.len(),
            first_var + cells@.len() < usize::MAX,
            casm_builder.var_count == first_var + t,
            casm_builder.statements@ == before + input_statements(cells@, first_var, t as int),
        decreases cells.len() - t,
    {
        let cell = casm_builder.add_var(CellExpression::Deref(cells[t]));
        casm_builder.buffer_write_and_inc(Var(1), cell);
        t = t + 1;
    }
}

/// The variables that the reading of a response made.
struct ResponseVars {
    responses: Vec<Var>,
    success_final: Option<Var>,
    failure_final: Option<Var>,
}

/// Writes the steps that read `count` cells of the response.
fn read_responses(casm_builder: &mut CasmBuilder, success_size: usize, count: usize) -> (vars:
    ResponseVars)
    requires
        old(casm_builder).var_count + count + 2 < usize::MAX,
    ensures
        final(casm_builder).statements@ == old(casm_builder).statements@ + responses_upto(
            success_size as int,
            old(casm_builder).var_count as int,
            count as int,
        ).statements,
        vars.responses@ == responses_upto(
            success_size as int,
            old(casm_builder).var_count as int,
            count as int,
        ).responses,
        vars.success_final == responses_upto(
            success_size as int,
            old(casm_builder).var_count as int,
            count as int,
        ).success_final,
        vars.failure_final == responses_upto(
            success_size as int,
            old(casm_builder).var_count as int,
            count as int,
        ).failure_final,
        vars.responses@.len() == count,
{
    let ghost before = casm_builder.statements@;
    let ghost first_var = casm_builder.var_count as int;
    let mut responses: Vec<Var> = Vec::new();
    let mut success_final: Option<Var> = None;
    let mut failure_final: Option<Var> = None;
    let mut i: usize = 0;
    while i < count
        invariant
            i <= count,
            first_var + count + 2 < usize::MAX,
            casm_builder.statements@ == before + responses_upto(
                success_size as int,
                first_var,
                i as int,
            ).statements,
            casm_builder.var_count == responses_upto(
                success_size as int,
                first_var,
                i as int,
            ).next_var,
            casm_builder.var_count == first_var + i + (if success_final is Some {
                1int
            } else {
                0int
            }) + (if failure_final is Some {
                1int
            } else {
                0int
            }),
            success_final is Some ==> success_size < i,
            failure_final is Some ==> 2 < i,
            responses@ == responses_upto(success_size as int, first_var, i as int).responses,
            responses@.len() == i,
            success_final == responses_upto(
                success_size as int,
                first_var,
                i as int,
            ).success_final,
            failure_final == responses_upto(
                success_size as int,
                first_var,
                i as int,
            ).failure_final,
        decreases count - i,
    {
        if i == success_size {
            let curr_system = casm_builder.duplicate_var(Var(1));
            success_final = Some(curr_system);
        }
        if i == 2 {
            let curr_system = casm_builder.duplicate_var(Var(1));
            failure_final = Some(curr_system);
        }
        let response = casm_builder.buffer_get_and_inc(Var(1));
        responses.push(response);
        i = i + 1;
    }
    ResponseVars { responses, success_final, failure_final }
}

/// Adds the variables of the outputs to the lists of variables.
fn push_output_slices(vars: &mut Vec<Vec<Var>>, responses: &Vec<Var>, output_sizes: &[i16])
    requires
        sizes_not_negative(output_sizes@),
        sizes_total(output_sizes@, output_sizes@.len() as int) <= responses@.len(),
    ensures
        vars_view(final(vars)@) == vars_view(old(vars)@) + output_slices(
            responses@,
            output_sizes@,
            output_sizes@.len() as int,
        ),
{
    let ghost before = vars_view(vars@);
    let len = responses.len();
    let mut offset: usize = 0;
    let mut n: usize = 0;
    while n < output_sizes.len()
        invariant
            n <= output_sizes.len(),
            len == responses@.len(),
            sizes_not_negative(output_sizes@),
            sizes_total(output_sizes@, output_sizes@.len() as int) <= responses@.len(),
            offset == sizes_total(output_sizes@, n as int),
            vars_view(vars@) == before + output_slices(responses@, output_sizes@, n as int),
        decreases output_sizes.len() - n,
    {
        proof {
            lemma_sizes_total_monotonic(output_sizes@, n as int + 1, output_sizes@.len() as int);
            lemma_sizes_total_monotonic(output_sizes@, n as int, n as int + 1);
        }
        let size = output_sizes[n] as usize;
        let mut slice: Vec<Var> = Vec::new();
        let mut k: usize = 0;
        while k < size
            invariant
                k <= size,
                len == responses@.len(),
                offset + size <= len,
                slice@ == responses@.subrange(offset as int, offset + k),
            decreases size - k,
        {
            slice.push(responses[offset + k]);
            k = k + 1;
        }
        let ghost prev = vars_view(vars@);
        vars.push(slice);
        assert(vars_view(vars@) =~= prev.push(slice@));
        offset = offset + size;
        n = n + 1;
    }
}

/// What a call of the system was found to be given.
struct CheckedInputs {
    gas_builtin: DerefOperand,
    system: CellExpression,
    cells: Vec<DerefOperand>,
    failure: StatementIdx,
    success_size: usize,
    response_size: usize,
}

/// Checks what the rule for a call of the system is given.
fn check_syscall_inputs(
    builder: &CompiledInvocationBuilder,
    input_sizes: &[i16],
    output_sizes: &[i16],
) -> (res: Result<CheckedInputs, InvocationError>)
    requires
        input_sizes@.len() + 2 <= usize::MAX,
    ensures
        match syscall_inputs(*builder, input_sizes@, output_sizes@) {
            Err(error) => res == Err::<CheckedInputs, InvocationError>(error),
            Ok(inputs) => res matches Ok(checked) && inputs == (SyscallInputs {
                gas_builtin: checked.gas_builtin,
                system: checked.system,
                cells: checked.cells@,
                failure: checked.failure,
            }) && checked.success_size == sizes_total(output_sizes@, output_sizes@.len() as int)
                && checked.response_size == larger(checked.success_size as int, 2)
                && sizes_not_negative(output_sizes@) && checked.cells@.len()
                + checked.response_size <= i16::MAX,
        },
{
    let failure = match builder.get_non_fallthrough_statement_id() {
        Ok(id) => id,
        Err(error) => {
            return Err(error);
        },
    };
    // +2 for Gas and System builtins.
    if builder.refs.len() != input_sizes.len() + 2 {
        return Err(
            InvocationError::WrongNumberOfArguments {
                expected: input_sizes.len() + 2,
                actual: builder.refs.len(),
            },
        );
    }
    if builder.refs[0].expression.cells.len() != 1 || builder.refs[1].expression.cells.len() != 1 {
        return Err(InvocationError::InvalidReferenceExpressionForArgument);
    }
    let gas_builtin_cell = builder.refs[0].expression.cells[0];
    let system_cell = builder.refs[1].expression.cells[0];
    // +2 for Gas and Selector cells.
    let total_input_size: i128 = sum_sizes(input_sizes) + 2;
    let success_output_size: i128 = sum_sizes(output_sizes);
    // Start and end of revert reason array.
    let failure_output_size: i128 = 2;
    let response_size: i128 = if success_output_size >= failure_output_size {
        success_output_size
    } else {
        failure_output_size
    };
    // +2 for Gas and failure flag.
    let buffer_size: i128 = total_input_size + response_size + 2;
    let gas_builtin_deref = gas_builtin_cell.to_deref();
    let system_buffer = if buffer_size < 0 || buffer_size > i16::MAX as i128 {
        None
    } else {
        system_cell.to_buffer(buffer_size as i64)
    };
    let (gas_builtin, system) = match (gas_builtin_deref, system_buffer) {
        (Some(gas_builtin), Some(system)) => (gas_builtin, system),
        _ => {
            return Err(InvocationError::InvalidReferenceExpressionForArgument);
        },
    };
    let cells = match flatten_inputs(&builder.refs, input_sizes) {
        Some(cells) => cells,
        None => {
            return Err(InvocationError::InvalidReferenceExpressionForArgument);
        },
    };
    if !check_not_negative(output_sizes) {
        return Err(InvocationError::InvalidReferenceExpressionForArgument);
    }
    proof {
        lemma_sizes_total_monotonic(output_sizes@, 0, output_sizes@.len() as int);
    }
    Ok(
        CheckedInputs {
            gas_builtin,
            system,
            cells,
            failure,
            success_size: success_output_size as usize,
            response_size: response_size as usize,
        },
    )
}

/// Writes the steps of a call of the system.
fn write_syscall(checked: &CheckedInputs, selector: Felt252) -> (res: (CasmBuilder, ResponseVars))
    requires
        checked.cells@.len() + checked.response_size <= i16::MAX,
        checked.response_size == larger(checked.success_size as int, 2),
    ensures
        res.0.statements@ == syscall_statements(
            SyscallInputs {
                gas_builtin: checked.gas_builtin,
                system: checked.system,
                cells: checked.cells@,
                failure: checked.failure,
            },
            selector,
            checked.success_size as int,
        ),
        res.1.responses@ == responses_upto(
            checked.success_size as int,
            7 + checked.cells@.len() as int,
            checked.response_size as int,
        ).responses,
        res.1.success_final == responses_upto(
            checked.success_size as int,
            7 + checked.cells@.len() as int,
            checked.response_size as int,
        ).success_final,
        res.1.failure_final == responses_upto(
            checked.success_size as int,
            7 + checked.cells@.len() as int,
            checked.response_size as int,
        ).failure_final,
        res.1.responses@.len() == checked.response_size,
{
    let mut casm_builder = CasmBuilder::new();
    let gas_builtin = casm_builder.add_var(CellExpression::Deref(checked.gas_builtin));
    let system = casm_builder.add_var(checked.system);
    let system_start = casm_builder.duplicate_var(system);
    let selector_const = casm_builder.add_var(CellExpression::Immediate(selector));
    let selector_var = casm_builder.alloc_var(false);
    casm_builder.assert_vars_eq(selector_var, selector_const);
    casm_builder.buffer_write_and_inc(system, selector_var);
    casm_builder.buffer_write_and_inc(system, gas_builtin);
    write_inputs(&mut casm_builder, &checked.cells);
    casm_builder.add_statement(
        BuilderStatement::Hint(BuilderHint::SystemCall { system: system_start }),
    );
    let updated_gas_builtin = casm_builder.buffer_get_and_inc(system);
    let failure_flag = casm_builder.alloc_var(false);
    casm_builder.buffer_write_and_inc(system, failure_flag);
    let response_vars = read_responses(
        &mut casm_builder,
        checked.success_size,
        checked.response_size,
    );
    casm_builder.add_statement(
        BuilderStatement::JumpNz { condition: failure_flag, label: Label::Failure },
    );
    (casm_builder, response_vars)
}

/// The branches of a call of the system.
fn syscall_branches(
    response_vars: &ResponseVars,
    updated_gas_builtin: Var,
    output_sizes: &[i16],
    failure: StatementIdx,
) -> (branches: Vec<BranchOutput>)
    requires
        sizes_not_negative(output_sizes@),
        sizes_total(output_sizes@, output_sizes@.len() as int) <= response_vars.responses@.len(),
        response_vars.responses@.len() >= 2,
    ensures
        branches@.len() == 2,
        branches@[0].label == Label::Fallthrough,
        vars_view(branches@[0].vars@) == seq![
            seq![updated_gas_builtin],
            seq![or_system(response_vars.success_final)],
        ] + output_slices(response_vars.responses@, output_sizes@, output_sizes@.len() as int),
        branches@[0].target is None,
        branches@[1].label == Label::Failure,
        vars_view(branches@[1].vars@) == seq![
            seq![updated_gas_builtin],
            seq![or_system(response_vars.failure_final)],
            seq![response_vars.responses@[0], response_vars.responses@[1]],
        ],
        branches@[1].target == Some(failure),
{
    let success_final_system = match response_vars.success_final {
        Some(var) => var,
        None => Var(1),
    };
    let failure_final_system = match response_vars.failure_final {
        Some(var) => var,
        None => Var(1),
    };
    let mut success_vars: Vec<Vec<Var>> = Vec::new();
    success_vars.push(one_var(updated_gas_builtin));
    success_vars.push(one_var(success_final_system));
    push_output_slices(&mut success_vars, &response_vars.responses, output_sizes);
    let mut reason: Vec<Var> = Vec::new();
    reason.push(response_vars.responses[0]);
    reason.push(response_vars.responses[1]);
    assert(reason@ =~= seq![response_vars.responses@[0], response_vars.responses@[1]]);
    let mut failure_vars: Vec<Vec<Var>> = Vec::new();
    failure_vars.push(one_var(updated_gas_builtin));
    failure_vars.push(one_var(failure_final_system));
    failure_vars.push(reason);
    let mut branches: Vec<BranchOutput> = Vec::new();
    branches.push(BranchOutput { label: Label::Fallthrough, vars: success_vars, target: None });
    branches.push(
        BranchOutput { label: Label::Failure, vars: failure_vars, target: Some(failure) },
    );
    branches
}

/// What the rule for a call of the system returns: the error of what it is
/// given, or the lowered call with the selector of the given bytes.
pub open spec fn syscall_post(
    builder: CompiledInvocationBuilder,
    selector: Seq<u8>,
    input_sizes: Seq<i16>,
    output_sizes: Seq<i16>,
    res: Result<CompiledInvocation, InvocationError>,
) -> bool {
    match syscall_inputs(builder, input_sizes, output_sizes) {
        Err(error) => res == Err::<CompiledInvocation, InvocationError>(error),
        Ok(inputs) => res matches Ok(invocation) && is_syscall_invocation(
            invocation,
            inputs,
            Felt252::spec_from_nat(selector_value(selector)),
            output_sizes,
        ),
    }
}

/// Builds instructions for Starknet system calls. The selector is the
/// immediate that the machine sees: the integer of the bytes of the name, as
/// an element of the field.
pub fn build_syscalls(
    builder: CompiledInvocationBuilder,
    selector: &str,
    input_sizes: &[i16],
    output_sizes: &[i16],
) -> (res: Result<CompiledInvocation, InvocationError>)
    requires
        input_sizes@.len() + 2 <= usize::MAX,
    ensures
        syscall_post(builder, selector.spec_bytes(), input_sizes@, output_sizes@, res),
{
    let checked = match check_syscall_inputs(&builder, input_sizes, output_sizes) {
        Ok(checked) => checked,
        Err(error) => {
            return Err(error);
        },
    };
    let selector_imm = Felt252::from_bytes_be(selector.as_bytes());
    proof {
        Felt252::lemma_spec_from_nat(selector_value(selector.spec_bytes()));
    }
    let (casm_builder, response_vars) = write_syscall(&checked, selector_imm);
    let updated_gas_builtin = Var(5 + checked.cells.len());
    let branches = syscall_branches(
        &response_vars,
        updated_gas_builtin,
        output_sizes,
        checked.failure,
    );
    Ok(
        builder.build_from_casm_builder(
            casm_builder,
            branches,
            CostValidationInfo {
                range_check_info: None,
                extra_costs: Some((SYSTEM_CALL_COST, SYSTEM_CALL_COST)),
            },
        ),
    )
}

/// The libfuncs that set up the state that a test of a contract runs in.
#[derive(Copy, Clone, Debug, PartialEq, Eq, Structural)]
pub enum TestingConcreteLibfunc {
    SetBlockNumber,
    SetBlockTimestamp,
    SetCallerAddress,
    SetContractAddress,
    SetSequencerAddress,
}

/// The libfuncs of Starknet, with their generic arguments filled in.
#[derive(Copy, Clone, Debug, PartialEq, Eq, Structural)]
pub enum StarkNetConcreteLibfunc {
    CallContract,
    /// The constant address of a contract.
    ContractAddressConst(Felt252),
    ContractAddressTryFromFelt,
    ContractAddressToFelt,
    StorageRead,
    StorageWrite,
    /// The constant base address of a variable of the storage.
    StorageBaseAddressConst(Felt252),
    StorageBaseAddressFromFelt,
    StorageAddressFromBase,
    StorageAddressFromBaseAndOffset,
    StorageAddressTryFromFelt,
    EmitEvent,
    GetExecutionInfo,
    /// A libfunc that sets up the state of a test.
    Testing(TestingConcreteLibfunc),
}

fn copy_cells(cells: &Vec<CellExpression>) -> (res: Vec<CellExpression>)
    ensures
        res@ == cells@,
{
    let mut res: Vec<CellExpression> = Vec::new();
    let mut i: usize = 0;
    while i < cells.len()
        invariant
            i <= cells.len(),
            res@ == cells@.take(i as int),
        decreases cells.len() - i,
    {
        res.push(cells[i]);
        i = i + 1;
    }
    res
}

/// Hands on the arguments as they are held, without code.
pub fn build_identity(builder: CompiledInvocationBuilder) -> (res: Result<
    CompiledInvocation,
    InvocationError,
>)
    ensures
        res matches Ok(invocation) && is_reference_change(invocation, refs_view(builder.refs@)),
{
    let mut outputs: Vec<ReferenceExpression> = Vec::new();
    let mut i: usize = 0;
    while i < builder.refs.len()
        invariant
            i <= builder.refs.len(),
            outputs@.len() == i,
            forall|k: int|
                0 <= k < i ==> (#[trigger] outputs@[k]).cells@
                    == builder.refs@[k].expression.cells@,
        decreases builder.refs.len() - i,
    {
        let cells = copy_cells(&builder.refs[i].expression.cells);
        outputs.push(ReferenceExpression { cells });
        i = i + 1;
    }
    assert(expressions_view(outputs@) =~= refs_view(builder.refs@));
    Ok(builder.build_only_reference_changes(outputs))
}

/// What the rule for a constant returns: the constant as the one output,
/// without code, if the constant is below the bound; an error otherwise.
pub open spec fn const_post(
    value: Felt252,
    bound: nat,
    res: Result<CompiledInvocation, InvocationError>,
) -> bool {
    if value@ < bound {
        res matches Ok(invocation) && is_reference_change(
            invocation,
            seq![seq![CellExpression::Immediate(value)]],
        )
    } else {
        res == Err::<CompiledInvocation, InvocationError>(InvocationError::InvalidGenericArg)
    }
}

fn build_const(builder: CompiledInvocationBuilder, value: Felt252, bound: Felt252) -> (res: Result<
    CompiledInvocation,
    InvocationError,
>)
    ensures
        const_post(value, bound@, res),
{
    if !value.less_than(&bound) {
        return Err(InvocationError::InvalidGenericArg);
    }
    let mut cells: Vec<CellExpression> = Vec::new();
    cells.push(CellExpression::Immediate(value));
    let mut outputs: Vec<ReferenceExpression> = Vec::new();
    outputs.push(ReferenceExpression { cells });
    assert(expressions_view(outputs@) =~= seq![seq![CellExpression::Immediate(value)]]);
    Ok(builder.build_only_reference_changes(outputs))
}

/// Hands on the constant address of a contract, which has to be below 2^251.
pub fn build_contract_address_const(builder: CompiledInvocationBuilder, value: Felt252) -> (res:
    Result<CompiledInvocation, InvocationError>)
    ensures
        const_post(value, address_bound(), res),
{
    build_const(builder, value, Felt252::two_pow_251())
}

/// Hands on the constant base address of a variable of the storage, which
/// has to be below 2^251 - 256.
pub fn build_storage_base_address_const(builder: CompiledInvocationBuilder, value: Felt252) -> (res:
    Result<CompiledInvocation, InvocationError>)
    ensures
        const_post(value, (address_bound() - 256) as nat, res),
{
    build_const(builder, value, Felt252::storage_base_bound())
}

/// What the rule for the address at an offset from a base address is given,
/// if it is given what it takes: two arguments of one cell each, the base in a
/// cell of the memory, and the offset in a cell of the memory or as a constant.
pub open spec fn base_and_offset_inputs(builder: CompiledInvocationBuilder) -> Result<
    (DerefOperand, CellExpression),
    InvocationError,
> {
    let refs = builder.refs@;
    if refs.len() != 2 {
        Err(InvocationError::WrongNumberOfArguments { expected: 2, actual: refs.len() as usize })
    } else if !all_single(refs) {
        Err(InvocationError::InvalidReferenceExpressionForArgument)
    } else {
        let offset = single_cell(refs[1]).unwrap();
        match single_cell(refs[0]).unwrap().spec_to_deref() {
            None => Err(InvocationError::InvalidReferenceExpressionForArgument),
            Some(base) => if offset is Deref || offset is Immediate {
                Ok((base, offset))
            } else {
                Err(InvocationError::InvalidReferenceExpressionForArgument)
            },
        }
    }
}

/// What the rule for the address at an offset from a base address returns:
/// the error of what it is given, or code of three steps, whose one output is
/// the sum of the base and the offset.
pub open spec fn base_and_offset_post(
    builder: CompiledInvocationBuilder,
    res: Result<CompiledInvocation, InvocationError>,
) -> bool {
    match base_and_offset_inputs(builder) {
        Err(error) => res == Err::<CompiledInvocation, InvocationError>(error),
        Ok((base, offset)) => res matches Ok(invocation) && invocation.statements@ == seq![
            BuilderStatement::AddVar { var: Var(0), expr: CellExpression::Deref(base) },
            BuilderStatement::AddVar { var: Var(1), expr: offset },
            BuilderStatement::BinOp {
                var: Var(2),
                op: CellOperator::Add,
                lhs: Var(0),
                rhs: Var(1),
            },
        ] && invocation.branches@.len() == 1 && invocation.branches@[0].label
            == Label::Fallthrough && vars_view(invocation.branches@[0].vars@) == seq![
            seq![Var(2)],
        ] && invocation.branches@[0].target is None && invocation.cost_validation == (
        CostValidationInfo { range_check_info: None, extra_costs: None })
            && invocation.reference_changes@.len() == 0,
    }
}

/// Builds the address at an offset from a base address of the storage.
pub fn build_storage_address_from_base_and_offset(builder: CompiledInvocationBuilder) -> (res:
    Result<CompiledInvocation, InvocationError>)
    ensures
        base_and_offset_post(builder, res),
{
    let cells = match builder.try_get_single_cells(2) {
        Ok(cells) => cells,
        Err(error) => {
            return Err(error);
        },
    };
    let base_cell = match cells[0].to_deref() {
        Some(cell) => cell,
        None => {
            return Err(InvocationError::InvalidReferenceExpressionForArgument);
        },
    };
    let offset_cell = cells[1];
    match offset_cell {
        CellExpression::Deref(_) => {},
        CellExpression::Immediate(_) => {},
        _ => {
            return Err(InvocationError::InvalidReferenceExpressionForArgument);
        },
    }
    let mut casm_builder = CasmBuilder::new();
    let base = casm_builder.add_var(CellExpression::Deref(base_cell));
    let offset = casm_builder.add_var(offset_cell);
    let res = casm_builder.bin_op(CellOperator::Add, base, offset);
    let mut vars: Vec<Vec<Var>> = Vec::new();
    vars.push(one_var(res));
    let mut branches: Vec<BranchOutput> = Vec::new();
    branches.push(BranchOutput { label: Label::Fallthrough, vars, target: None });
    proof {
        assert(vars_view(branches@[0].vars@) =~= seq![seq![Var(2)]]);
        assert(casm_builder.statements@ =~= seq![
            BuilderStatement::AddVar { var: Var(0), expr: CellExpression::Deref(base_cell) },
            BuilderStatement::AddVar { var: Var(1), expr: offset_cell },
            BuilderStatement::BinOp {
                var: Var(2),
                op: CellOperator::Add,
                lhs: Var(0),
                rhs: Var(1),
            },
        ]);
    }
    Ok(
        builder.build_from_casm_builder(
            casm_builder,
            branches,
            CostValidationInfo { range_check_info: None, extra_costs: None },
        ),
    )
}

/// Builds the call of a contract: the address, the selector of the entry
/// point and the call data go in, the data that the call returned come out.
pub fn build_call_contract(builder: CompiledInvocationBuilder) -> (res: Result<
    CompiledInvocation,
    InvocationError,
>)
    ensures
        syscall_post(builder, "CallContract".spec_bytes(), seq![1i16, 1i16, 2i16], seq![2i16], res),
{
    let input_sizes: [i16; 3] = [1, 1, 2];
    let output_sizes: [i16; 1] = [2];
    assert(output_sizes@ =~= seq![2i16]);
    build_syscalls(builder, "CallContract", input_sizes.as_slice(), output_sizes.as_slice())
}

/// Builds the reading of the storage: the domain and the address go in, the
/// value comes out.
pub fn build_storage_read(builder: CompiledInvocationBuilder) -> (res: Result<
    CompiledInvocation,
    InvocationError,
>)
    ensures
        syscall_post(builder, "StorageRead".spec_bytes(), seq![1i16, 1i16], seq![1i16], res),
{
    let input_sizes: [i16; 2] = [1, 1];
    let output_sizes: [i16; 1] = [1];
    assert(output_sizes@ =~= seq![1i16]);
    build_syscalls(builder, "StorageRead", input_sizes.as_slice(), output_sizes.as_slice())
}

/// Builds the writing of the storage: the domain, the address and the value
/// go in.
pub fn build_storage_write(builder: CompiledInvocationBuilder) -> (res: Result<
    CompiledInvocation,
    InvocationError,
>)
    ensures
        syscall_post(
            builder,
            "StorageWrite".spec_bytes(),
            seq![1i16, 1i16, 1i16],
            Seq::<i16>::empty(),
            res,
        ),
{
    let input_sizes: [i16; 3] = [1, 1, 1];
    let output_sizes: [i16; 0] = [];
    build_syscalls(builder, "StorageWrite", input_sizes.as_slice(), output_sizes.as_slice())
}

/// Builds the emitting of an event: the keys and the data go in.
pub fn build_emit_event(builder: CompiledInvocationBuilder) -> (res: Result<
    CompiledInvocation,
    InvocationError,
>)
    ensures
        syscall_post(
            builder,
            "EmitEvent".spec_bytes(),
            seq![2i16, 2i16],
            Seq::<i16>::empty(),
            res,
        ),
{
    let input_sizes: [i16; 2] = [2, 2];
    let output_sizes: [i16; 0] = [];
    build_syscalls(builder, "EmitEvent", input_sizes.as_slice(), output_sizes.as_slice())
}

/// Builds a call of the system that takes nothing and hands out one value.
pub fn build_getter(builder: CompiledInvocationBuilder, selector: &str) -> (res: Result<
    CompiledInvocation,
    InvocationError,
>)
    ensures
        syscall_post(builder, selector.spec_bytes(), Seq::<i16>::empty(), seq![1i16], res),
{
    let input_sizes: [i16; 0] = [];
    let output_sizes: [i16; 1] = [1];
    assert(output_sizes@ =~= seq![1i16]);
    build_syscalls(builder, selector, input_sizes.as_slice(), output_sizes.as_slice())
}

/// The bound of the base addresses of the storage: 2^251 - 256.
pub open spec fn storage_base_bound() -> nat {
    (address_bound() - 256) as nat
}

/// What the rule for the base address of a felt is given, or the error of
/// what it is given: the range check as a buffer with room for two writes,
/// and the value as a cell.
pub open spec fn storage_base_inputs(builder: CompiledInvocationBuilder) -> Result<
    (CellExpression, DerefOperand),
    InvocationError,
> {
    let refs = builder.refs@;
    if refs.len() != 2 {
        Err(InvocationError::WrongNumberOfArguments { expected: 2, actual: refs.len() as usize })
    } else if !all_single(refs) {
        Err(InvocationError::InvalidReferenceExpressionForArgument)
    } else {
        match single_cell(refs[0]).unwrap().spec_to_buffer(2) {
            None => Err(InvocationError::InvalidReferenceExpressionForArgument),
            Some(range_check) => match single_cell(refs[1]).unwrap().spec_to_deref() {
                None => Err(InvocationError::InvalidReferenceExpressionForArgument),
                Some(value) => Ok((range_check, value)),
            },
        }
    }
}

/// The steps of the conversion of a felt to a base address of the storage.
/// A hint tells whether the value is below the bound. If it is, the value is
/// checked to be below the bound and is the result. If it is not, the value
/// less the bound is checked to be below the prime less the bound and is the
/// result. Both ways meet at the end.
pub open spec fn storage_base_statements(range_check: CellExpression, value: DerefOperand) -> Seq<
    BuilderStatement,
> {
    let aux = AuxiliaryVars { first: Var(2), second: Var(3), third: Var(4), fourth: Var(5) };
    seq![
        BuilderStatement::AddVar { var: Var(0), expr: range_check },
        BuilderStatement::AddVar { var: Var(1), expr: CellExpression::Deref(value) },
        BuilderStatement::AllocVar { var: Var(2), local: false },
        BuilderStatement::AllocVar { var: Var(3), local: false },
        BuilderStatement::AllocVar { var: Var(4), local: false },
        BuilderStatement::AllocVar { var: Var(5), local: false },
        BuilderStatement::AddVar {
            var: Var(6),
            expr: CellExpression::Immediate(Felt252::spec_from_nat(storage_base_bound())),
        },
        BuilderStatement::Duplicate { var: Var(7), src: Var(0) },
        BuilderStatement::AllocVar { var: Var(8), local: false },
        BuilderStatement::AllocVar { var: Var(9), local: false },
        BuilderStatement::Hint(
            BuilderHint::TestLessThan { lhs: Var(1), rhs: Var(6), dst: Var(8) },
        ),
        BuilderStatement::JumpNz { condition: Var(8), label: Label::IsSmall },
        BuilderStatement::AllocVar { var: Var(10), local: false },
        BuilderStatement::BinOp { var: Var(11), op: CellOperator::Add, lhs: Var(10), rhs: Var(6) },
        BuilderStatement::AssertVarsEq { dst: Var(1), src: Var(11) },
        BuilderStatement::ValidateUnderLimit {
            k: 1,
            limit: Felt252::spec_from_nat((prime() - storage_base_bound()) as nat),
            value: Var(10),
            range_check: Var(0),
            auxiliary_vars: aux,
        },
        BuilderStatement::AssertVarsEq { dst: Var(9), src: Var(10) },
        BuilderStatement::Jump { label: Label::Done },
        BuilderStatement::Label { label: Label::IsSmall },
        BuilderStatement::ValidateUnderLimit {
            k: 1,
            limit: Felt252::spec_from_nat(storage_base_bound()),
            value: Var(1),
            range_check: Var(0),
            auxiliary_vars: aux,
        },
        BuilderStatement::AssertVarsEq { dst: Var(9), src: Var(1) },
        BuilderStatement::Label { label: Label::Done },
    ]
}

/// Whether an invocation is the lowered conversion of a felt to a base
/// address: the steps above; one branch, which falls through with the range
/// check and the result; and the range check before and after the code for
/// the check of the costs.
pub open spec fn is_storage_base_invocation(
    invocation: CompiledInvocation,
    range_check: CellExpression,
    value: DerefOperand,
) -> bool {
    &&& invocation.statements@ == storage_base_statements(range_check, value)
    &&& invocation.branches@.len() == 1
    &&& invocation.branches@[0].label == Label::Fallthrough
    &&& vars_view(invocation.branches@[0].vars@) == seq![seq![Var(0)], seq![Var(9)]]
    &&& invocation.branches@[0].target is None
    &&& invocation.cost_validation == (CostValidationInfo {
        range_check_info: Some((Var(7), Var(0))),
        extra_costs: None,
    })
    &&& invocation.reference_changes@.len() == 0
}

/// What the rule for the base address of a felt returns: the error of what
/// it is given, or the lowered conversion.
pub open spec fn storage_base_post(
    builder: CompiledInvocationBuilder,
    res: Result<CompiledInvocation, InvocationError>,
) -> bool {
    match storage_base_inputs(builder) {
        Err(error) => res == Err::<CompiledInvocation, InvocationError>(error),
        Ok((range_check, value)) => res matches Ok(invocation) && is_storage_base_invocation(
            invocation,
            range_check,
            value,
        ),
    }
}

/// Builds the libfunc that converts a felt to a base address of the storage:
/// the value itself if it is below 2**251 - 256, the value less that bound
/// otherwise.
pub fn build_storage_base_address_from_felt(builder: CompiledInvocationBuilder) -> (res: Result<
    CompiledInvocation,
    InvocationError,
>)
    ensures
        storage_base_post(builder, res),
{
    let cells = match builder.try_get_single_cells(2) {
        Ok(cells) => cells,
        Err(error) => {
            return Err(error);
        },
    };
    let range_check_buffer = match cells[0].to_buffer(2) {
        Some(buffer) => buffer,
        None => {
            return Err(InvocationError::InvalidReferenceExpressionForArgument);
        },
    };
    let value_cell = match cells[1].to_deref() {
        Some(cell) => cell,
        None => {
            return Err(InvocationError::InvalidReferenceExpressionForArgument);
        },
    };
    let addr_bound = Felt252::storage_base_bound();
    let shifted_bound = addr_bound.neg();
    proof {
        Felt252::lemma_spec_from_nat(storage_base_bound());
        Felt252::lemma_spec_from_nat((prime() - storage_base_bound()) as nat);
    }
    let mut casm_builder = CasmBuilder::new();
    let range_check = casm_builder.add_var(range_check_buffer);
    let value = casm_builder.add_var(CellExpression::Deref(value_cell));
    let first = casm_builder.alloc_var(false);
    let second = casm_builder.alloc_var(false);
    let third = casm_builder.alloc_var(false);
    let fourth = casm_builder.alloc_var(false);
    let auxiliary_vars = AuxiliaryVars { first, second, third, fourth };
    let limit = casm_builder.add_var(CellExpression::Immediate(addr_bound));
    let orig_range_check = casm_builder.duplicate_var(range_check);
    let is_small = casm_builder.alloc_var(false);
    let res = casm_builder.alloc_var(false);
    casm_builder.add_statement(
        BuilderStatement::Hint(BuilderHint::TestLessThan { lhs: value, rhs: limit, dst: is_small }),
    );
    casm_builder.add_statement(
        BuilderStatement::JumpNz { condition: is_small, label: Label::IsSmall },
    );
    let shifted_value = casm_builder.alloc_var(false);
    let sum = casm_builder.bin_op(CellOperator::Add, shifted_value, limit);
    casm_builder.assert_vars_eq(value, sum);
    casm_builder.add_statement(
        BuilderStatement::ValidateUnderLimit {
            k: 1,
            limit: shifted_bound,
            value: shifted_value,
            range_check,
            auxiliary_vars,
        },
    );
    casm_builder.assert_vars_eq(res, shifted_value);
    casm_builder.add_statement(BuilderStatement::Jump { label: Label::Done });
    casm_builder.add_statement(BuilderStatement::Label { label: Label::IsSmall });
    casm_builder.add_statement(
        BuilderStatement::ValidateUnderLimit {
            k: 1,
            limit: addr_bound,
            value,
            range_check,
            auxiliary_vars,
        },
    );
    casm_builder.assert_vars_eq(res, value);
    casm_builder.add_statement(BuilderStatement::Label { label: Label::Done });
    assert(casm_builder.statements@ =~= storage_base_statements(range_check_buffer, value_cell));
    let mut fallthrough_vars: Vec<Vec<Var>> = Vec::new();
    fallthrough_vars.push(one_var(range_check));
    fallthrough_vars.push(one_var(res));
    let mut branches: Vec<BranchOutput> = Vec::new();
    branches.push(BranchOutput { label: Label::Fallthrough, vars: fallthrough_vars, target: None });
    proof {
        assert(vars_view(branches@[0].vars@) =~= seq![seq![Var(0)], seq![Var(9)]]);
    }
    Ok(
        builder.build_from_casm_builder(
            casm_builder,
            branches,
            CostValidationInfo {
                range_check_info: Some((orig_range_check, range_check)),
                extra_costs: None,
            },
        ),
    )
}

/// The hint of a libfunc that sets up the state of a test.
pub open spec fn testing_hint(libfunc: TestingConcreteLibfunc, value: Var) -> BuilderHint {
    match libfunc {
        TestingConcreteLibfunc::SetBlockNumber => BuilderHint::SetBlockNumber { value },
        TestingConcreteLibfunc::SetBlockTimestamp => BuilderHint::SetBlockTimestamp { value },
        TestingConcreteLibfunc::SetCallerAddress => BuilderHint::SetCallerAddress { value },
        TestingConcreteLibfunc::SetContractAddress => BuilderHint::SetContractAddress { value },
        TestingConcreteLibfunc::SetSequencerAddress => BuilderHint::SetSequencerAddress { value },
    }
}

/// What a rule that sets up the state of a test is given, or the error of
/// what it is given: the value as a cell.
pub open spec fn testing_inputs(builder: CompiledInvocationBuilder) -> Result<
    DerefOperand,
    InvocationError,
> {
    let refs = builder.refs@;
    if refs.len() != 1 {
        Err(InvocationError::WrongNumberOfArguments { expected: 1, actual: refs.len() as usize })
    } else if !all_single(refs) {
        Err(InvocationError::InvalidReferenceExpressionForArgument)
    } else {
        match single_cell(refs[0]).unwrap().spec_to_deref() {
            None => Err(InvocationError::InvalidReferenceExpressionForArgument),
            Some(value) => Ok(value),
        }
    }
}

/// Whether an invocation is the lowered setting of the state of a test: the
/// hint of the libfunc with the value, before an instruction that moves `ap`
/// by nothing; one branch, which falls through without outputs; and nothing
/// to check the costs against.
pub open spec fn is_testing_invocation(
    invocation: CompiledInvocation,
    libfunc: TestingConcreteLibfunc,
    value: DerefOperand,
) -> bool {
    &&& invocation.statements@ == seq![
        BuilderStatement::AddVar { var: Var(0), expr: CellExpression::Deref(value) },
        BuilderStatement::Hint(testing_hint(libfunc, Var(0))),
        BuilderStatement::AddAp { size: 0 },
    ]
    &&& invocation.branches@.len() == 1
    &&& invocation.branches@[0].label == Label::Fallthrough
    &&& invocation.branches@[0].vars@.len() == 0
    &&& invocation.branches@[0].target is None
    &&& invocation.cost_validation == (CostValidationInfo {
        range_check_info: None,
        extra_costs: None,
    })
    &&& invocation.reference_changes@.len() == 0
}

/// What a rule that sets up the state of a test returns: the error of what
/// it is given, or the lowered setting.
pub open spec fn testing_post(
    libfunc: TestingConcreteLibfunc,
    builder: CompiledInvocationBuilder,
    res: Result<CompiledInvocation, InvocationError>,
) -> bool {
    match testing_inputs(builder) {
        Err(error) => res == Err::<CompiledInvocation, InvocationError>(error),
        Ok(value) => res matches Ok(invocation) && is_testing_invocation(
            invocation,
            libfunc,
            value,
        ),
    }
}

/// Builds the libfuncs that set up the state of a test.
pub fn build_testing(libfunc: &TestingConcreteLibfunc, builder: CompiledInvocationBuilder) -> (res:
    Result<CompiledInvocation, InvocationError>)
    ensures
        testing_post(*libfunc, builder, res),
{
    let cells = match builder.try_get_single_cells(1) {
        Ok(cells) => cells,
        Err(error) => {
            return Err(error);
        },
    };
    let value_cell = match cells[0].to_deref() {
        Some(cell) => cell,
        None => {
            return Err(InvocationError::InvalidReferenceExpressionForArgument);
        },
    };
    let mut casm_builder = CasmBuilder::new();
    let value = casm_builder.add_var(CellExpression::Deref(value_cell));
    let hint = match libfunc {
        TestingConcreteLibfunc::SetBlockNumber => BuilderHint::SetBlockNumber { value },
        TestingConcreteLibfunc::SetBlockTimestamp => BuilderHint::SetBlockTimestamp { value },
        TestingConcreteLibfunc::SetCallerAddress => BuilderHint::SetCallerAddress { value },
        TestingConcreteLibfunc::SetContractAddress => BuilderHint::SetContractAddress { value },
        TestingConcreteLibfunc::SetSequencerAddress => BuilderHint::SetSequencerAddress { value },
    };
    casm_builder.add_statement(BuilderStatement::Hint(hint));
    casm_builder.add_statement(BuilderStatement::AddAp { size: 0 });
    assert(casm_builder.statements@ =~= seq![
        BuilderStatement::AddVar { var: Var(0), expr: CellExpression::Deref(value_cell) },
        BuilderStatement::Hint(testing_hint(*libfunc, Var(0))),
        BuilderStatement::AddAp { size: 0 },
    ]);
    let mut branches: Vec<BranchOutput> = Vec::new();
    branches.push(BranchOutput { label: Label::Fallthrough, vars: Vec::new(), target: None });
    Ok(
        builder.build_from_casm_builder(
            casm_builder,
            branches,
            CostValidationInfo { range_check_info: None, extra_costs: None },
        ),
    )
}

/// What `build` returns for each libfunc.
pub open spec fn build_post(
    libfunc: StarkNetConcreteLibfunc,
    builder: CompiledInvocationBuilder,
    res: Result<CompiledInvocation, InvocationError>,
) -> bool {
    match libfunc {
        StarkNetConcreteLibfunc::CallContract => syscall_post(
            builder,
            "CallContract".spec_bytes(),
            seq![1i16, 1i16, 2i16],
            seq![2i16],
            res,
        ),
        StarkNetConcreteLibfunc::ContractAddressConst(value) => const_post(
            value,
            address_bound(),
            res,
        ),
        StarkNetConcreteLibfunc::ContractAddressTryFromFelt
        | StarkNetConcreteLibfunc::StorageAddressTryFromFelt => u251_post(builder, res),
        StarkNetConcreteLibfunc::ContractAddressToFelt
        | StarkNetConcreteLibfunc::StorageAddressFromBase => res matches Ok(invocation)
            && is_reference_change(invocation, refs_view(builder.refs@)),
        StarkNetConcreteLibfunc::StorageRead => syscall_post(
            builder,
            "StorageRead".spec_bytes(),
            seq![1i16, 1i16],
            seq![1i16],
            res,
        ),
        StarkNetConcreteLibfunc::StorageWrite => syscall_post(
            builder,
            "StorageWrite".spec_bytes(),
            seq![1i16, 1i16, 1i16],
            Seq::<i16>::empty(),
            res,
        ),
        StarkNetConcreteLibfunc::StorageBaseAddressConst(value) => const_post(
            value,
            (address_bound() - 256) as nat,
            res,
        ),
        StarkNetConcreteLibfunc::StorageAddressFromBaseAndOffset => base_and_offset_post(
            builder,
            res,
        ),
        StarkNetConcreteLibfunc::EmitEvent => syscall_post(
            builder,
            "EmitEvent".spec_bytes(),
            seq![2i16, 2i16],
            Seq::<i16>::empty(),
            res,
        ),
        StarkNetConcreteLibfunc::GetExecutionInfo => syscall_post(
            builder,
            "GetExecutionInfo".spec_bytes(),
            Seq::<i16>::empty(),
            seq![1i16],
            res,
        ),
        StarkNetConcreteLibfunc::StorageBaseAddressFromFelt => storage_base_post(builder, res),
        StarkNetConcreteLibfunc::Testing(libfunc) => testing_post(libfunc, builder, res),
    }
}

/// Builds instructions for Sierra starknet operations.
pub fn build(libfunc: &StarkNetConcreteLibfunc, builder: CompiledInvocationBuilder) -> (res: Result<
    CompiledInvocation,
    InvocationError,
>)
    ensures
        build_post(*libfunc, builder, res),
{
    match libfunc {
        StarkNetConcreteLibfunc::CallContract => build_call_contract(builder),
        StarkNetConcreteLibfunc::ContractAddressConst(value) => build_contract_address_const(
            builder,
            *value,
        ),
        StarkNetConcreteLibfunc::ContractAddressTryFromFelt
        | StarkNetConcreteLibfunc::StorageAddressTryFromFelt => build_u251_try_from_felt(builder),
        StarkNetConcreteLibfunc::ContractAddressToFelt => build_identity(builder),
        StarkNetConcreteLibfunc::StorageRead => build_storage_read(builder),
        StarkNetConcreteLibfunc::StorageWrite => build_storage_write(builder),
        StarkNetConcreteLibfunc::StorageBaseAddressConst(value) => build_storage_base_address_const(
            builder,
            *value,
        ),
        StarkNetConcreteLibfunc::StorageBaseAddressFromFelt => {
            build_storage_base_address_from_felt(builder)
        },
        StarkNetConcreteLibfunc::StorageAddressFromBase => build_identity(builder),
        StarkNetConcreteLibfunc::StorageAddressFromBaseAndOffset => {
            build_storage_address_from_base_and_offset(builder)
        },
        StarkNetConcreteLibfunc::EmitEvent => build_emit_event(builder),
        StarkNetConcreteLibfunc::GetExecutionInfo => build_getter(builder, "GetExecutionInfo"),
        StarkNetConcreteLibfunc::Testing(libfunc) => build_testing(libfunc, builder),
    }
}

} // verus!
