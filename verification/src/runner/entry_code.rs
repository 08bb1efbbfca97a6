//! The code that stands before a compiled program and calls one of its
//! functions: it writes the array arguments to segments of their own, hands
//! the function its builtins, its gas and its arguments, calls it and returns.

use vstd::prelude::*;
use crate::bigint::BigInt;
use crate::casm::hints::{Hint, HintView};
use crate::casm::instructions::{
    instructions_view,
    AddApInstruction,
    AddApInstructionView,
    AssertEqInstruction,
    AssertEqInstructionView,
    CallInstruction,
    CallInstructionView,
    Instruction,
    InstructionBody,
    InstructionBodyView,
    InstructionView,
};
use crate::casm::operand::{
    BinOpOperand,
    BinOpOperandView,
    DerefOperand,
    DerefOrImmediate,
    DerefOrImmediateView,
    DoubleDerefOperand,
    ImmediateOperand,
    Operation,
    Register,
    ResOperand,
    ResOperandView,
};
use crate::compiler::{CompilationError, ReferencesError};
use crate::runner::{Arg, BuiltinName, RunnerError};
use crate::sierra::ids::{ConcreteTypeId, GenericTypeId};
use crate::sierra::program::TypeInfo;
use crate::sierra::registry::{ProgramRegistry, ProgramRegistryError};
use vstd::string::*;

verus! {

/// The cell `[ap + offset]`.
pub open spec fn ap_cell(offset: int) -> DerefOperand {
    DerefOperand { register: Register::AP, offset: offset as i16 }
}

/// The cell `[fp + offset]`.
pub open spec fn fp_cell(offset: int) -> DerefOperand {
    DerefOperand { register: Register::FP, offset: offset as i16 }
}

/// The instruction `a = b`, with `, ap++` where `inc_ap` holds.
pub open spec fn assert_eq_view(a: DerefOperand, b: ResOperandView, inc_ap: bool)
    -> InstructionView {
    InstructionView {
        body: InstructionBodyView::AssertEq(AssertEqInstructionView { a, b }),
        inc_ap,
        hints: Seq::<HintView>::empty(),
    }
}

/// The instruction `ap += 1` with the hint that writes the start of a new
/// segment to `[ap + 0]`.
pub open spec fn alloc_segment_view() -> InstructionView {
    InstructionView {
        body: InstructionBodyView::AddAp(
            AddApInstructionView { operand: ResOperandView::Immediate(1) },
        ),
        inc_ap: false,
        hints: seq![HintView::AllocSegment { dst: ap_cell(0) }],
    }
}

/// The instruction `call rel offset`.
pub open spec fn call_rel_view(offset: int) -> InstructionView {
    InstructionView {
        body: InstructionBodyView::Call(
            CallInstructionView { target: DerefOrImmediateView::Immediate(offset), relative: true },
        ),
        inc_ap: false,
        hints: Seq::<HintView>::empty(),
    }
}

/// The instruction `ret`.
pub open spec fn ret_view() -> InstructionView {
    InstructionView {
        body: InstructionBodyView::Ret,
        inc_ap: false,
        hints: Seq::<HintView>::empty(),
    }
}

/// The instruction that asserts that a cell equals an operand.
pub fn assert_eq(a: DerefOperand, b: ResOperand, inc_ap: bool) -> (insn: Instruction)
    ensures
        insn@ == assert_eq_view(a, b@, inc_ap),
{
    Instruction::new(InstructionBody::AssertEq(AssertEqInstruction { a, b }), inc_ap)
}

/// The operand that is a constant.
pub fn immediate(value: BigInt) -> (operand: ResOperand)
    ensures
        operand@ == ResOperandView::Immediate(value@),
{
    ResOperand::ImmediateOperand(ImmediateOperand { value })
}

/// The instruction that leaves the start of a new segment in the cell at
/// `ap`.
pub fn alloc_segment() -> (insn: Instruction)
    ensures
        insn@ == alloc_segment_view(),
{
    Instruction::with_hint(
        InstructionBody::AddAp(AddApInstruction { operand: immediate(BigInt::from_i16(1)) }),
        false,
        Hint::AllocSegment { dst: DerefOperand { register: Register::AP, offset: 0 } },
    )
}

/// Adds an instruction to the end of the code.
pub fn push_instruction(code: &mut Vec<Instruction>, insn: Instruction)
    ensures
        instructions_view(final(code)@) == instructions_view(old(code)@).push(insn@),
        final(code)@.len() == old(code)@.len() + 1,
{
    code.push(insn);
}

/// The code that writes the first `n` values of an array to its segment, whose
/// start is in the cell that `ap` pointed to before the first value: each
/// value is written to `[ap + 0]`, and the same cell is asserted to be the
/// next cell of the segment.
pub open spec fn array_values_code(values: Seq<crate::felt::Felt252>, n: int) -> Seq<
    InstructionView,
>
    decreases n,
{
    if n <= 0 {
        Seq::<InstructionView>::empty()
    } else {
        array_values_code(values, n - 1) + seq![
            assert_eq_view(ap_cell(0), ResOperandView::Immediate(values[n - 1]@ as int), false),
            assert_eq_view(
                ap_cell(0),
                ResOperandView::DoubleDeref(
                    DoubleDerefOperand { inner_deref: ap_cell(-n), offset: (n - 1) as i16 },
                ),
                true,
            ),
        ]
    }
}

/// The code that loads one array to memory: a new segment, then its values.
pub open spec fn array_code(values: Seq<crate::felt::Felt252>) -> Seq<InstructionView> {
    seq![alloc_segment_view()] + array_values_code(values, values.len() as int)
}

/// The code that loads the arrays among the first `n` arguments to memory.
pub open spec fn preload_code(args: Seq<Arg>, n: int) -> Seq<InstructionView>
    decreases n,
{
    if n <= 0 {
        Seq::<InstructionView>::empty()
    } else {
        preload_code(args, n - 1) + (match args[n - 1] {
            Arg::Array(values) => array_code(values@),
            Arg::Value(_) => Seq::<InstructionView>::empty(),
        })
    }
}

/// The number of cells that the arrays among the first `n` arguments take:
/// for each, one for the start of its segment and one for each value.
pub open spec fn preload_cells(args: Seq<Arg>, n: int) -> int
    decreases n,
{
    if n <= 0 {
        0
    } else {
        preload_cells(args, n - 1) + (match args[n - 1] {
            Arg::Array(values) => 1 + values@.len(),
            Arg::Value(_) => 0,
        })
    }
}

/// The arrays among more arguments take no fewer cells.
pub proof fn lemma_preload_cells_monotonic(args: Seq<Arg>, a: int, b: int)
    requires
        0 <= a <= b,
    ensures
        0 <= preload_cells(args, a) <= preload_cells(args, b),
    decreases b,
{
    if b > 0 {
        if a < b {
            lemma_preload_cells_monotonic(args, a, b - 1);
        } else {
            lemma_preload_cells_monotonic(args, a - 1, b - 1);
        }
    }
}

/// Writes the code that loads the arrays among the arguments to memory.
/// Returns the number of cells that they take.
fn preload_arrays(args: &[Arg], code: &mut Vec<Instruction>) -> (ap_offset: i16)
    requires
        preload_cells(args@, args@.len() as int) <= i16::MAX,
    ensures
        instructions_view(final(code)@) == instructions_view(old(code)@) + preload_code(
            args@,
            args@.len() as int,
        ),
        ap_offset == preload_cells(args@, args@.len() as int),
{
    let ghost before = instructions_view(code@);
    let mut ap_offset: i16 = 0;
    let mut idx: usize = 0;
    while idx < args.len()
        invariant
            idx <= args.len(),
            preload_cells(args@, args@.len() as int) <= i16::MAX,
            instructions_view(code@) == before + preload_code(args@, idx as int),
            ap_offset == preload_cells(args@, idx as int),
        decreases args.len() - idx,
    {
        proof {
            lemma_preload_cells_monotonic(args@, idx as int + 1, args@.len() as int);
            lemma_preload_cells_monotonic(args@, idx as int, idx as int + 1);
        }
        match &args[idx] {
            Arg::Array(values) => {
                let ghost start = instructions_view(code@);
                push_instruction(code, alloc_segment());
                let mut i: usize = 0;
                while i < values.len()
                    invariant
                        i <= values.len(),
                        values@.len() < i16::MAX,
                        instructions_view(code@) == start + seq![alloc_segment_view()]
                            + array_values_code(values@, i as int),
                    decreases values.len() - i,
                {
                    let arr_at: i16 = (i + 1) as i16;
                    let first = assert_eq(
                        DerefOperand { register: Register::AP, offset: 0 },
                        immediate(values[i].to_bigint()),
                        false,
                    );
                    let second = assert_eq(
                        DerefOperand { register: Register::AP, offset: 0 },
                        ResOperand::DoubleDerefOperand(
                            DoubleDerefOperand {
                                inner_deref: DerefOperand {
                                    register: Register::AP,
                                    offset: -arr_at,
                                },
                                offset: i as i16,
                            },
                        ),
                        true,
                    );
                    push_instruction(code, first);
                    push_instruction(code, second);
                    i = i + 1;
                }
                ap_offset = ap_offset + (1 + values.len()) as i16;
            },
            Arg::Value(_) => {
            },
        }
        idx = idx + 1;
    }
    ap_offset
}

/// The code that sets up the segment arena: a segment for the arena and one
/// for its infos, then the start of the infos and two counts of zero, written
/// to the arena's segment.
pub open spec fn arena_code() -> Seq<InstructionView> {
    seq![
        InstructionView {
            body: InstructionBodyView::AddAp(
                AddApInstructionView { operand: ResOperandView::Immediate(2) },
            ),
            inc_ap: false,
            hints: seq![
                HintView::AllocSegment { dst: ap_cell(0) },
                HintView::AllocSegment { dst: ap_cell(1) },
            ],
        },
        assert_eq_view(ap_cell(0), ResOperandView::Immediate(0), true),
        assert_eq_view(
            ap_cell(-2),
            ResOperandView::DoubleDeref(DoubleDerefOperand { inner_deref: ap_cell(-3), offset: 0 }),
            false,
        ),
        assert_eq_view(
            ap_cell(-1),
            ResOperandView::DoubleDeref(DoubleDerefOperand { inner_deref: ap_cell(-3), offset: 1 }),
            false,
        ),
        assert_eq_view(
            ap_cell(-1),
            ResOperandView::DoubleDeref(DoubleDerefOperand { inner_deref: ap_cell(-3), offset: 2 }),
            false,
        ),
    ]
}

fn arena_double_deref(offset: i16) -> (operand: ResOperand)
    ensures
        operand@ == ResOperandView::DoubleDeref(
            DoubleDerefOperand { inner_deref: ap_cell(-3), offset },
        ),
{
    ResOperand::DoubleDerefOperand(
        DoubleDerefOperand {
            inner_deref: DerefOperand { register: Register::AP, offset: -3 },
            offset,
        },
    )
}

/// Writes the code that sets up the segment arena.
fn allocate_arena(code: &mut Vec<Instruction>)
    ensures
        instructions_view(final(code)@) == instructions_view(old(code)@) + arena_code(),
{
    let mut hints: Vec<Hint> = Vec::new();
    hints.push(Hint::AllocSegment { dst: DerefOperand { register: Register::AP, offset: 0 } });
    hints.push(Hint::AllocSegment { dst: DerefOperand { register: Register::AP, offset: 1 } });
    let first = Instruction {
        body: InstructionBody::AddAp(AddApInstruction { operand: immediate(BigInt::from_i16(2)) }),
        inc_ap: false,
        hints,
    };
    assert(first@.hints =~= seq![
        HintView::AllocSegment { dst: ap_cell(0) },
        HintView::AllocSegment { dst: ap_cell(1) },
    ]);
    push_instruction(code, first);
    push_instruction(
        code,
        assert_eq(
            DerefOperand { register: Register::AP, offset: 0 },
            immediate(BigInt::from_i16(0)),
            true,
        ),
    );
    push_instruction(
        code,
        assert_eq(DerefOperand { register: Register::AP, offset: -2 }, arena_double_deref(0), false),
    );
    push_instruction(
        code,
        assert_eq(DerefOperand { register: Register::AP, offset: -1 }, arena_double_deref(1), false),
    );
    push_instruction(
        code,
        assert_eq(DerefOperand { register: Register::AP, offset: -1 }, arena_double_deref(2), false),
    );
}

/// The offset below `fp` at which the entry code finds a builtin: the
/// builtins lie at `[fp - 7]` to `[fp - 3]`, in the order Pedersen, RangeCheck,
/// Bitwise, EcOp, Poseidon.
pub open spec fn builtin_offset(name: Seq<char>) -> Option<i16> {
    if name == "Pedersen"@ {
        Some(7i16)
    } else if name == "RangeCheck"@ {
        Some(6i16)
    } else if name == "Bitwise"@ {
        Some(5i16)
    } else if name == "EcOp"@ {
        Some(4i16)
    } else if name == "Poseidon"@ {
        Some(3i16)
    } else {
        None
    }
}

/// The offset below `fp` at which the entry code finds a builtin.
pub fn find_builtin_offset(id: &GenericTypeId) -> (offset: Option<i16>)
    ensures
        offset == builtin_offset(id.name@),
{
    if id.is("Pedersen") {
        Some(7)
    } else if id.is("RangeCheck") {
        Some(6)
    } else if id.is("Bitwise") {
        Some(5)
    } else if id.is("EcOp") {
        Some(4)
    } else if id.is("Poseidon") {
        Some(3)
    } else {
        None
    }
}

/// The builtins that the runner asks the machine for, in their order.
pub open spec fn runner_builtins() -> Seq<BuiltinName> {
    seq![
        BuiltinName::pedersen,
        BuiltinName::range_check,
        BuiltinName::bitwise,
        BuiltinName::ec_op,
        BuiltinName::poseidon,
    ]
}

/// Every one of the types is declared.
pub open spec fn all_resolved(registry: ProgramRegistry, types: Seq<ConcreteTypeId>) -> bool {
    forall|i: int| 0 <= i < types.len() ==> registry.spec_get_type((#[trigger] types[i]).id) is Some
}

/// The place `j` holds the first of the types that is not declared.
pub open spec fn first_unresolved_at(
    registry: ProgramRegistry,
    types: Seq<ConcreteTypeId>,
    j: int,
) -> bool {
    &&& 0 <= j < types.len()
    &&& all_resolved(registry, types.take(j))
    &&& registry.spec_get_type(types[j].id) is None
}

/// What is declared of each of the types.
pub open spec fn type_infos(registry: ProgramRegistry, types: Seq<ConcreteTypeId>) -> Seq<
    TypeInfo,
> {
    Seq::new(types.len(), |i: int| registry.spec_get_type(types[i].id).unwrap())
}

/// The number of cells that values of the first `n` types take.
pub open spec fn sizes_sum(infos: Seq<TypeInfo>, n: int) -> int
    decreases n,
{
    if n <= 0 {
        0
    } else {
        sizes_sum(infos, n - 1) + infos[n - 1].size
    }
}

/// Whether one of the types is the segment arena.
pub open spec fn has_arena(infos: Seq<TypeInfo>) -> bool {
    exists|i: int| 0 <= i < infos.len() && (#[trigger] infos[i]).long_id.generic_id.name@
        == "SegmentArena"@
}

/// The number of cells that the entry code writes before it calls the
/// function: those of the arrays, three for the segment arena where the
/// function takes one, and those of the parameters.
pub open spec fn entry_cells(args: Seq<Arg>, infos: Seq<TypeInfo>) -> int {
    preload_cells(args, args.len() as int) + (if has_arena(infos) {
        3int
    } else {
        0int
    }) + sizes_sum(infos, infos.len() as int)
}

/// How far the entry code has come with the parameters.
pub struct MarshalState {
    /// The code for the parameters so far.
    pub code: Seq<InstructionView>,
    /// The number of cells written since the entry.
    pub ap_offset: int,
    /// The place of the next argument to hand over.
    pub next_arg: int,
    /// The number of arguments that the parameters so far ask for.
    pub expected: int,
}

/// The number that a value argument holds.
pub open spec fn arg_value(arg: Arg) -> int {
    match arg {
        Arg::Value(value) => value@ as int,
        Arg::Array(_) => 0,
    }
}

/// The code that writes `n` value arguments, from the place `from` on, to the
/// cells that `ap` points to in turn.
pub open spec fn plain_code(args: Seq<Arg>, from: int, n: int) -> Seq<InstructionView>
    decreases n,
{
    if n <= 0 {
        Seq::<InstructionView>::empty()
    } else {
        plain_code(args, from, n - 1).push(
            assert_eq_view(
                ap_cell(0),
                ResOperandView::Immediate(arg_value(args[from + n - 1])),
                true,
            ),
        )
    }
}

/// Whether one of the `n` arguments from the place `from` on is an array.
pub open spec fn has_array(args: Seq<Arg>, from: int, n: int) -> bool {
    exists|k: int| from <= k < from + n && (#[trigger] args[k]) is Array
}

/// The number of arguments that a parameter of `size` cells takes when
/// `remaining` are left.
pub open spec fn plain_count(size: int, remaining: int) -> int {
    if size <= remaining {
        size
    } else {
        remaining
    }
}

/// The entry code's step for one parameter. A builtin is copied from its
/// place below `fp`; the system gets a new segment; the gas builtin gets the
/// initial gas; the segment arena is the arena set up before, three cells in.
/// Any other parameter takes an array, where the next argument is one: the
/// start of the array's segment and its end. Otherwise it takes as many value
/// arguments as it has cells, as far as there are arguments left. There is no
/// next state where one of those is an array.
pub open spec fn marshal_param(
    state: MarshalState,
    info: TypeInfo,
    args: Seq<Arg>,
    after_vecs: int,
    initial_gas: usize,
) -> Option<MarshalState> {
    let name = info.long_id.generic_id.name@;
    let size = info.size as int;
    let ap_offset = state.ap_offset + size;
    if builtin_offset(name) is Some {
        Some(
            MarshalState {
                code: state.code.push(
                    assert_eq_view(
                        ap_cell(0),
                        ResOperandView::Deref(fp_cell(-(builtin_offset(name).unwrap() as int))),
                        true,
                    ),
                ),
                ap_offset,
                ..state
            },
        )
    } else if name == "System"@ {
        Some(MarshalState { code: state.code.push(alloc_segment_view()), ap_offset, ..state })
    } else if name == "GasBuiltin"@ {
        Some(
            MarshalState {
                code: state.code.push(
                    assert_eq_view(ap_cell(0), ResOperandView::Immediate(initial_gas as int), true),
                ),
                ap_offset,
                ..state
            },
        )
    } else if name == "SegmentArena"@ {
        Some(
            MarshalState {
                code: state.code.push(
                    assert_eq_view(
                        ap_cell(0),
                        ResOperandView::BinOp(
                            BinOpOperandView {
                                op: Operation::Add,
                                a: ap_cell(after_vecs - state.ap_offset),
                                b: DerefOrImmediateView::Immediate(3),
                            },
                        ),
                        true,
                    ),
                ),
                ap_offset,
                ..state
            },
        )
    } else if state.next_arg < args.len() && args[state.next_arg] is Array {
        let values = args[state.next_arg]->Array_0;
        Some(
            MarshalState {
                code: state.code + seq![
                    assert_eq_view(
                        ap_cell(0),
                        ResOperandView::Deref(
                            ap_cell(preload_cells(args, state.next_arg) - state.ap_offset),
                        ),
                        true,
                    ),
                    assert_eq_view(
                        ap_cell(0),
                        ResOperandView::BinOp(
                            BinOpOperandView {
                                op: Operation::Add,
                                a: ap_cell(-1),
                                b: DerefOrImmediateView::Immediate(values@.len() as int),
                            },
                        ),
                        true,
                    ),
                ],
                ap_offset,
                next_arg: state.next_arg + 1,
                expected: state.expected + 1,
            },
        )
    } else {
        let count = plain_count(size, args.len() - state.next_arg);
        if has_array(args, state.next_arg, count) {
            None
        } else {
            Some(
                MarshalState {
                    code: state.code + plain_code(args, state.next_arg, count),
                    ap_offset,
                    next_arg: state.next_arg + (if count > 0 {
                        count
                    } else {
                        0
                    }),
                    expected: state.expected + size,
                },
            )
        }
    }
}

/// The entry code's state after the first `n` parameters, if no parameter
/// among them met an array where it takes a value.
pub open spec fn marshal(
    infos: Seq<TypeInfo>,
    n: int,
    args: Seq<Arg>,
    after_vecs: int,
    start: int,
    initial_gas: usize,
) -> Option<MarshalState>
    decreases n,
{
    if n <= 0 {
        Some(
            MarshalState {
                code: Seq::<InstructionView>::empty(),
                ap_offset: start,
                next_arg: 0,
                expected: 0,
            },
        )
    } else {
        match marshal(infos, n - 1, args, after_vecs, start, initial_gas) {
            Some(state) => marshal_param(state, infos[n - 1], args, after_vecs, initial_gas),
            None => None,
        }
    }
}

/// Once a parameter met an array where it takes a value, there is no state
/// after any later parameter.
pub proof fn lemma_marshal_stays_none(
    infos: Seq<TypeInfo>,
    n: int,
    m: int,
    args: Seq<Arg>,
    after_vecs: int,
    start: int,
    initial_gas: usize,
)
    requires
        0 <= n <= m,
        marshal(infos, n, args, after_vecs, start, initial_gas) is None,
    ensures
        marshal(infos, m, args, after_vecs, start, initial_gas) is None,
    decreases m,
{
    if n < m {
        lemma_marshal_stays_none(infos, n, m - 1, args, after_vecs, start, initial_gas);
    }
}

/// The text of the error for arguments that take more cells than an offset
/// of an instruction can reach.
pub open spec fn too_large_text() -> Seq<char> {
    "The arguments take more cells than the entry code can address."@
}

/// The text of the error for an array that is given where a value is taken.
pub open spec fn array_for_value_text() -> Seq<char> {
    "An array was given where the function takes a value."@
}

/// What `create_entry_code` returns. In this order: the first parameter type
/// that is not declared is an error; so are arguments and parameters that take
/// more than `i16::MAX` cells; an array where a value is taken; another number
/// of arguments than the parameters ask for; and an entry point outside the
/// program. Otherwise the code is the loading of the arrays, the setting up of
/// the segment arena where a parameter is one, the code for the parameters,
/// the call of the function and a return.
pub open spec fn entry_code_post(
    registry: ProgramRegistry,
    types: Seq<ConcreteTypeId>,
    args: Seq<Arg>,
    initial_gas: usize,
    entry_offset: Option<usize>,
    res: Result<(Vec<Instruction>, Vec<BuiltinName>), RunnerError>,
) -> bool {
    if !all_resolved(registry, types) {
        res matches Err(RunnerError::ProgramRegistryError(ProgramRegistryError::MissingType(id)))
            && exists|j: int| first_unresolved_at(registry, types, j) && #[trigger] types[j] == id
    } else {
        let infos = type_infos(registry, types);
        let after_vecs = preload_cells(args, args.len() as int);
        let start = after_vecs + (if has_arena(infos) {
            3int
        } else {
            0int
        });
        if entry_cells(args, infos) > i16::MAX {
            res matches Err(RunnerError::Other(text)) && text@ == too_large_text()
        } else {
            match marshal(infos, infos.len() as int, args, after_vecs, start, initial_gas) {
                None => res matches Err(RunnerError::Other(text)) && text@
                    == array_for_value_text(),
                Some(state) => if state.expected != args.len() {
                    res matches Err(RunnerError::ArgumentsSizeMismatch { expected, actual })
                        && expected == state.expected && actual == args.len()
                } else {
                    match entry_offset {
                        None => res == Err::<(Vec<Instruction>, Vec<BuiltinName>), RunnerError>(
                            RunnerError::SierraCompilationError(
                                CompilationError::ReferencesError(
                                    ReferencesError::InvalidStatementIdx,
                                ),
                            ),
                        ),
                        Some(offset) => res matches Ok((code, builtins)) && builtins@
                            == runner_builtins() && instructions_view(code@) == preload_code(
                            args,
                            args.len() as int,
                        ) + (if has_arena(infos) {
                            arena_code()
                        } else {
                            Seq::<InstructionView>::empty()
                        }) + state.code + seq![call_rel_view(3 + offset), ret_view()],
                    }
                },
            }
        }
    }
}

/// No type takes a cell count below zero.
pub open spec fn sizes_non_negative(infos: Seq<TypeInfo>) -> bool {
    forall|i: int| 0 <= i < infos.len() ==> (#[trigger] infos[i]).size >= 0
}

/// More types take no fewer cells, where no type takes a cell count below
/// zero.
pub proof fn lemma_sizes_sum_monotonic(infos: Seq<TypeInfo>, a: int, b: int)
    requires
        0 <= a <= b <= infos.len(),
        sizes_non_negative(infos),
    ensures
        0 <= sizes_sum(infos, a) <= sizes_sum(infos, b),
    decreases b,
{
    if b > 0 {
        if a < b {
            lemma_sizes_sum_monotonic(infos, a, b - 1);
        } else {
            lemma_sizes_sum_monotonic(infos, a - 1, b - 1);
        }
    }
}

/// The number of cells that the arrays among the arguments take, if it is at
/// most `i16::MAX`.
fn count_preload_cells(args: &[Arg]) -> (cells: Option<i16>)
    ensures
        match cells {
            Some(cells) => cells == preload_cells(args@, args@.len() as int),
            None => preload_cells(args@, args@.len() as int) > i16::MAX,
        },
{
    let mut cells: i16 = 0;
    let mut idx: usize = 0;
    while idx < args.len()
        invariant
            idx <= args.len(),
            cells == preload_cells(args@, idx as int),
            0 <= cells,
        decreases args.len() - idx,
    {
        match &args[idx] {
            Arg::Array(values) => {
                if values.len() >= (i16::MAX - cells) as usize {
                    proof {
                        lemma_preload_cells_monotonic(args@, idx as int + 1, args@.len() as int);
                    }
                    return None;
                }
                cells = cells + 1 + values.len() as i16;
            },
            Arg::Value(_) => {},
        }
        idx = idx + 1;
    }
    Some(cells)
}

/// Builds the code that calls a function with the given arguments and
/// initial gas: the function takes parameters of the types `param_types`, and
/// its code starts `entry_offset` words into the compiled program, if its
/// entry point is a statement of the program.
pub fn create_entry_code(
    registry: &ProgramRegistry,
    param_types: &Vec<ConcreteTypeId>,
    args: &[Arg],
    initial_gas: usize,
    entry_offset: Option<usize>,
) -> (res: Result<(Vec<Instruction>, Vec<BuiltinName>), RunnerError>)
    ensures
        entry_code_post(*registry, param_types@, args@, initial_gas, entry_offset, res),
{
    let ghost infos = type_infos(*registry, param_types@);
    // The parameters' types, the cells that they take, and whether one of them
    // is the segment arena.
    let mut sizes: i16 = 0;
    let mut sizes_fit = true;
    let mut arena = false;
    let mut p: usize = 0;
    while p < param_types.len()
        invariant
            p <= param_types.len(),
            infos == type_infos(*registry, param_types@),
            all_resolved(*registry, param_types@.take(p as int)),
            sizes_non_negative(infos.take(p as int)),
            sizes_fit ==> sizes == sizes_sum(infos, p as int),
            !sizes_fit ==> sizes_sum(infos, p as int) > i16::MAX,
            sizes_sum(infos, p as int) >= 0,
            arena == has_arena(infos.take(p as int)),
        decreases param_types.len() - p,
    {
        match registry.get_type(&param_types[p]) {
            Err(error) => {
                return Err(RunnerError::ProgramRegistryError(error));
            },
            Ok(info) => {
                if info.long_id.generic_id.is("SegmentArena") {
                    arena = true;
                }
                if sizes_fit {
                    if info.size > i16::MAX - sizes {
                        sizes_fit = false;
                    } else {
                        sizes = sizes + info.size;
                    }
                }
                proof {
                    let next = param_types@.take(p as int + 1);
                    let prev = param_types@.take(p as int);
                    let next_infos = infos.take(p as int + 1);
                    let prev_infos = infos.take(p as int);
                    if has_arena(prev_infos) {
                        let w = choose|i: int|
                            0 <= i < prev_infos.len() && (
                            #[trigger] prev_infos[i]).long_id.generic_id.name@ == "SegmentArena"@;
                    }
                    if info.long_id.generic_id.name@ == "SegmentArena"@ {
                        assert(next_infos[p as int] == *info);
                    }
                    if has_arena(next_infos) {
                        let w = choose|i: int|
                            0 <= i < next_infos.len() && (
                            #[trigger] next_infos[i]).long_id.generic_id.name@ == "SegmentArena"@;
                    }
                }
            },
        }
        p = p + 1;
    }
    proof {
        assert(param_types@.take(p as int) =~= param_types@);
        assert(infos.take(p as int) =~= infos);
    }
    let preload = count_preload_cells(args);
    let after_vecs: i16 = match preload {
        Some(cells) => cells,
        None => {
            return Err(
                RunnerError::Other(
                    String::from_str(
                        "The arguments take more cells than the entry code can address.",
                    ),
                ),
            );
        },
    };
    proof {
        lemma_preload_cells_monotonic(args@, 0, args@.len() as int);
    }
    let arena_cells: i16 = if arena {
        3
    } else {
        0
    };
    if !sizes_fit || sizes > i16::MAX - after_vecs || arena_cells > i16::MAX - after_vecs - sizes {
        return Err(
            RunnerError::Other(
                String::from_str("The arguments take more cells than the entry code can address."),
            ),
        );
    }
    let mut code: Vec<Instruction> = Vec::new();
    preload_arrays(args, &mut code);
    if arena {
        allocate_arena(&mut code);
    }
    let start: i16 = after_vecs + arena_cells;
    let ghost base_code = instructions_view(code@);
    let ghost mut mcode: Seq<InstructionView> = Seq::<InstructionView>::empty();
    let mut ap_offset: i16 = start;
    let mut next_arg: usize = 0;
    let mut arg_base: i16 = 0;
    let mut expected: usize = 0;
    let mut i: usize = 0;
    while i < param_types.len()
        invariant
            i <= param_types.len(),
            infos == type_infos(*registry, param_types@),
            infos.len() == param_types@.len(),
            all_resolved(*registry, param_types@),
            sizes_non_negative(infos),
            entry_cells(args@, infos) <= i16::MAX,
            after_vecs == preload_cells(args@, args@.len() as int),
            start == after_vecs + (if has_arena(infos) {
                3int
            } else {
                0int
            }),
            marshal(infos, i as int, args@, after_vecs as int, start as int, initial_gas) == Some(
                MarshalState {
                    code: mcode,
                    ap_offset: ap_offset as int,
                    next_arg: next_arg as int,
                    expected: expected as int,
                },
            ),
            instructions_view(code@) == base_code + mcode,
            next_arg <= args.len(),
            arg_base == preload_cells(args@, next_arg as int),
            ap_offset == start + sizes_sum(infos, i as int),
            expected <= arg_base + sizes_sum(infos, i as int),
        decreases param_types.len() - i,
    {
        proof {
            lemma_sizes_sum_monotonic(infos, i as int, i as int + 1);
            lemma_sizes_sum_monotonic(infos, i as int + 1, infos.len() as int);
            lemma_preload_cells_monotonic(args@, next_arg as int, args@.len() as int);
        }
        let ghost state = MarshalState {
            code: mcode,
            ap_offset: ap_offset as int,
            next_arg: next_arg as int,
            expected: expected as int,
        };
        match registry.get_type(&param_types[i]) {
            Err(error) => {
                assert(false);
                return Err(RunnerError::ProgramRegistryError(error));
            },
            Ok(info) => {
                let generic_ty = &info.long_id.generic_id;
                let ap0 = DerefOperand { register: Register::AP, offset: 0 };
                let builtin = find_builtin_offset(generic_ty);
                if let Some(offset) = builtin {
                    push_instruction(
                        &mut code,
                        assert_eq(
                            ap0,
                            ResOperand::DerefOperand(
                                DerefOperand { register: Register::FP, offset: -offset },
                            ),
                            true,
                        ),
                    );
                    proof {
                        mcode = mcode.push(
                            assert_eq_view(
                                ap_cell(0),
                                ResOperandView::Deref(fp_cell(-(offset as int))),
                                true,
                            ),
                        );
                    }
                } else if generic_ty.is("System") {
                    push_instruction(&mut code, alloc_segment());
                    proof {
                        mcode = mcode.push(alloc_segment_view());
                    }
                } else if generic_ty.is("GasBuiltin") {
                    push_instruction(
                        &mut code,
                        assert_eq(ap0, immediate(BigInt::from_usize(initial_gas)), true),
                    );
                    proof {
                        mcode = mcode.push(
                            assert_eq_view(
                                ap_cell(0),
                                ResOperandView::Immediate(initial_gas as int),
                                true,
                            ),
                        );
                    }
                } else if generic_ty.is("SegmentArena") {
                    let offset: i16 = after_vecs - ap_offset;
                    push_instruction(
                        &mut code,
                        assert_eq(
                            ap0,
                            ResOperand::BinOpOperand(
                                BinOpOperand {
                                    op: Operation::Add,
                                    a: DerefOperand { register: Register::AP, offset },
                                    b: DerefOrImmediate::Immediate(
                                        ImmediateOperand { value: BigInt::from_i16(3) },
                                    ),
                                },
                            ),
                            true,
                        ),
                    );
                    proof {
                        mcode = mcode.push(
                            assert_eq_view(
                                ap_cell(0),
                                ResOperandView::BinOp(
                                    BinOpOperandView {
                                        op: Operation::Add,
                                        a: ap_cell(after_vecs - ap_offset),
                                        b: DerefOrImmediateView::Immediate(3),
                                    },
                                ),
                                true,
                            ),
                        );
                    }
                } else {
                    let next_is_array = if next_arg < args.len() {
                        match &args[next_arg] {
                            Arg::Array(_) => true,
                            Arg::Value(_) => false,
                        }
                    } else {
                        false
                    };
                    if next_is_array {
                        proof {
                            lemma_preload_cells_monotonic(
                                args@,
                                next_arg as int + 1,
                                args@.len() as int,
                            );
                        }
                        match &args[next_arg] {
                            Arg::Array(values) => {
                                let offset: i16 = arg_base - ap_offset;
                                push_instruction(
                                    &mut code,
                                    assert_eq(
                                        ap0,
                                        ResOperand::DerefOperand(
                                            DerefOperand { register: Register::AP, offset },
                                        ),
                                        true,
                                    ),
                                );
                                push_instruction(
                                    &mut code,
                                    assert_eq(
                                        ap0,
                                        ResOperand::BinOpOperand(
                                            BinOpOperand {
                                                op: Operation::Add,
                                                a: DerefOperand {
                                                    register: Register::AP,
                                                    offset: -1,
                                                },
                                                b: DerefOrImmediate::Immediate(
                                                    ImmediateOperand {
                                                        value: BigInt::from_usize(values.len()),
                                                    },
                                                ),
                                            },
                                        ),
                                        true,
                                    ),
                                );
                                proof {
                                    mcode = mcode + seq![
                                        assert_eq_view(
                                            ap_cell(0),
                                            ResOperandView::Deref(ap_cell(arg_base - ap_offset)),
                                            true,
                                        ),
                                        assert_eq_view(
                                            ap_cell(0),
                                            ResOperandView::BinOp(
                                                BinOpOperandView {
                                                    op: Operation::Add,
                                                    a: ap_cell(-1),
                                                    b: DerefOrImmediateView::Immediate(
                                                        values@.len() as int,
                                                    ),
                                                },
                                            ),
                                            true,
                                        ),
                                    ];
                                }
                                arg_base = arg_base + 1 + values.len() as i16;
                                next_arg = next_arg + 1;
                                expected = expected + 1;
                            },
                            Arg::Value(_) => {
                                assert(false);
                            },
                        }
                    } else {
                        let size: i16 = info.size;
                        let ghost from = next_arg as int;
                        let ghost before = instructions_view(code@);
                        let ghost count = plain_count(size as int, args@.len() - from);
                        let mut k: i16 = 0;
                        while k < size && next_arg < args.len()
                            invariant
                                0 <= k <= size,
                                next_arg == from + k,
                                next_arg <= args.len(),
                                count == plain_count(size as int, args@.len() - from),
                                instructions_view(code@) == before + plain_code(
                                    args@,
                                    from,
                                    k as int,
                                ),
                                forall|j: int| from <= j < next_arg ==> (#[trigger] args@[j]) is Value,
                                arg_base == preload_cells(args@, next_arg as int),
                                marshal(
                                    infos,
                                    i as int,
                                    args@,
                                    after_vecs as int,
                                    start as int,
                                    initial_gas,
                                ) == Some(state),
                                infos[i as int] == *info,
                                state.next_arg == from,
                                size == info.size,
                                builtin_offset(info.long_id.generic_id.name@) is None,
                                info.long_id.generic_id.name@ != "System"@,
                                info.long_id.generic_id.name@ != "GasBuiltin"@,
                                info.long_id.generic_id.name@ != "SegmentArena"@,
                                !(from < args@.len() && args@[from] is Array),
                                i < param_types.len(),
                                infos.len() == param_types@.len(),
                                infos == type_infos(*registry, param_types@),
                                all_resolved(*registry, param_types@),
                                entry_cells(args@, infos) <= i16::MAX,
                                after_vecs == preload_cells(args@, args@.len() as int),
                                start == after_vecs + (if has_arena(infos) {
                                    3int
                                } else {
                                    0int
                                }),
                                ap0 == ap_cell(0),
                            decreases size - k,
                        {
                            match &args[next_arg] {
                                Arg::Value(value) => {
                                    push_instruction(
                                        &mut code,
                                        assert_eq(ap0, immediate(value.to_bigint()), true),
                                    );
                                    next_arg = next_arg + 1;
                                    k = k + 1;
                                },
                                Arg::Array(_) => {
                                    proof {
                                        lemma_marshal_stays_none(
                                            infos,
                                            i as int + 1,
                                            infos.len() as int,
                                            args@,
                                            after_vecs as int,
                                            start as int,
                                            initial_gas,
                                        );
                                    }
                                    return Err(
                                        RunnerError::Other(
                                            String::from_str(
                                                "An array was given where the function takes a value.",
                                            ),
                                        ),
                                    );
                                },
                            }
                        }
                        proof {
                            mcode = mcode + plain_code(args@, from, count);
                        }
                        expected = expected + size as usize;
                    }
                }
                ap_offset = ap_offset + info.size;
            },
        }
        i = i + 1;
    }
    if expected != args.len() {
        return Err(RunnerError::ArgumentsSizeMismatch { expected, actual: args.len() });
    }
    let offset = match entry_offset {
        Some(offset) => offset,
        None => {
            return Err(
                RunnerError::SierraCompilationError(
                    CompilationError::ReferencesError(ReferencesError::InvalidStatementIdx),
                ),
            );
        },
    };
    push_instruction(
        &mut code,
        Instruction::new(
            InstructionBody::Call(
                CallInstruction {
                    target: DerefOrImmediate::Immediate(
                        ImmediateOperand { value: BigInt::from_u128(3 + offset as u128) },
                    ),
                    relative: true,
                },
            ),
            false,
        ),
    );
    push_instruction(&mut code, Instruction::new(InstructionBody::Ret, false));
    let builtins = vec![
        BuiltinName::pedersen,
        BuiltinName::range_check,
        BuiltinName::bitwise,
        BuiltinName::ec_op,
        BuiltinName::poseidon,
    ];
    proof {
        assert(instructions_view(code@) =~= base_code + mcode + seq![
            call_rel_view(3 + offset),
            ret_view(),
        ]);
    }
    Ok((code, builtins))
}

} // verus!
