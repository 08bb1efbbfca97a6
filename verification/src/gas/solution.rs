//! Solutions of the equations of the gas analysis. A solution gives each
//! gas variable a value. The library does not look for solutions; it checks
//! the one that it is handed: no value is below zero, and every equation holds.
//! From the solutions of the two passes it computes the metadata of a program.

use vstd::prelude::*;
use crate::cost_token::CostTokenType;
use crate::gas::core_libfunc_cost_expr::{
    cost_at,
    CoreConcreteLibfunc,
    CostExprMap,
    FutureCostVariables,
};
use crate::gas::cost_expr::{CostExpr, LinearForm, Var};
use crate::gas::generate_equations::{
    covers,
    equation_at,
    equations_post,
    future_form,
    generate_equations,
    generate_postcost_equations,
    is_classified,
    is_equations_of,
    libfunc_form,
    next_statement,
    statement_error,
    StatementEquations,
};
use crate::metadata::{
    function_keys,
    non_negative,
    statement_keys,
    valid_gas_entries,
    ApChangeError,
    ApChangeInfo,
    CostError,
    FunctionCost,
    GasInfo,
    Metadata,
    MetadataError,
    StatementVariables,
};
use crate::sierra::ids::StatementIdx;
use crate::sierra::program::{Function, Program, Statement};
use crate::sierra::registry::{
    distinct,
    function_ids,
    index_of,
    lemma_index_of,
    ProgramRegistry,
};
use crate::token_map::{tokens, TokenMap};

verus! {

/// The value of one gas variable.
#[derive(Copy, Clone, Debug, Hash, PartialEq, Eq, Structural)]
pub struct VariableValue {
    pub var: Var,
    pub value: i64,
}

/// No variable has two values.
pub open spec fn distinct_vars(values: Seq<VariableValue>) -> bool {
    forall|i: int, j: int| 0 <= i < j < values.len() ==> values[i].var != values[j].var
}

/// No value is below zero.
pub open spec fn no_negative_value(values: Seq<VariableValue>) -> bool {
    forall|i: int| 0 <= i < values.len() ==> (#[trigger] values[i]).value >= 0
}

/// The value that the first `n` entries give to a variable; zero where they
/// give none.
pub open spec fn value_of(values: Seq<VariableValue>, var: Var, n: int) -> int
    decreases n,
{
    if n <= 0 {
        0
    } else if values[n - 1].var == var {
        values[n - 1].value as int
    } else {
        value_of(values, var, n - 1)
    }
}

/// What the variables of the first `n` entries add to the value of a form:
/// for each, its coefficient times its value.
pub open spec fn weighted_sum(form: LinearForm, values: Seq<VariableValue>, n: int) -> int
    decreases n,
{
    if n <= 0 {
        0
    } else {
        weighted_sum(form, values, n - 1) + form.coefficient(values[n - 1].var) * values[n
            - 1].value
    }
}

/// The value of a form where the variables have the given values, and the
/// others the value zero.
pub open spec fn evaluate(form: LinearForm, values: Seq<VariableValue>) -> int {
    form.constant + weighted_sum(form, values, values.len() as int)
}

/// Whether a number can be held in 128 bits.
pub open spec fn fits_i128(v: int) -> bool {
    i128::MIN <= v <= i128::MAX
}

/// Whether the value of a form can be computed in 128 bits, term by term
/// over the first `n` entries.
pub open spec fn evaluation_fits(form: LinearForm, values: Seq<VariableValue>, n: int) -> bool
    decreases n,
{
    if n <= 0 {
        fits_i128(form.constant)
    } else {
        evaluation_fits(form, values, n - 1) && fits_i128(form.coefficient(values[n - 1].var))
            && fits_i128(form.coefficient(values[n - 1].var) * values[n - 1].value) && fits_i128(
            form.constant + weighted_sum(form, values, n),
        )
    }
}

/// Forms that are the same have the same sums.
pub proof fn lemma_weighted_sum_same(a: LinearForm, b: LinearForm, values: Seq<VariableValue>, n: int)
    requires
        a.same(b),
    ensures
        weighted_sum(a, values, n) == weighted_sum(b, values, n),
    decreases n,
{
    if n > 0 {
        lemma_weighted_sum_same(a, b, values, n - 1);
    }
}

/// Forms that are the same have the same value.
pub proof fn lemma_evaluate_same(a: LinearForm, b: LinearForm, values: Seq<VariableValue>)
    requires
        a.same(b),
    ensures
        evaluate(a, values) == evaluate(b, values),
{
    lemma_weighted_sum_same(a, b, values, values.len() as int);
}

/// The sum of a difference is the difference of the sums.
pub proof fn lemma_weighted_sum_sub(a: LinearForm, b: LinearForm, values: Seq<VariableValue>, n: int)
    ensures
        weighted_sum(a.sub(b), values, n) == weighted_sum(a, values, n) - weighted_sum(
            b,
            values,
            n,
        ),
    decreases n,
{
    if n > 0 {
        lemma_weighted_sum_sub(a, b, values, n - 1);
        let var = values[n - 1].var;
        let value = values[n - 1].value as int;
        let x = a.coefficient(var);
        let y = b.coefficient(var);
        assert((x - y) * value == x * value - y * value) by (nonlinear_arith);
    }
}

/// The value of a difference is the difference of the values.
pub proof fn lemma_evaluate_sub(a: LinearForm, b: LinearForm, values: Seq<VariableValue>)
    ensures
        evaluate(a.sub(b), values) == evaluate(a, values) - evaluate(b, values),
{
    lemma_weighted_sum_sub(a, b, values, values.len() as int);
}

/// The sum of the form of one variable is the value of the variable, where
/// no variable has two values.
pub proof fn lemma_weighted_sum_var(var: Var, values: Seq<VariableValue>, n: int)
    requires
        distinct_vars(values),
        0 <= n <= values.len(),
    ensures
        weighted_sum(LinearForm::from_var(var), values, n) == value_of(values, var, n),
        (forall|k: int| 0 <= k < n ==> values[k].var != var) ==> value_of(values, var, n) == 0,
    decreases n,
{
    if n > 0 {
        lemma_weighted_sum_var(var, values, n - 1);
    }
}

/// The value of the form of one variable is the value of the variable.
pub proof fn lemma_evaluate_var(var: Var, values: Seq<VariableValue>)
    requires
        distinct_vars(values),
    ensures
        evaluate(LinearForm::from_var(var), values) == value_of(
            values,
            var,
            values.len() as int,
        ),
{
    lemma_weighted_sum_var(var, values, values.len() as int);
}

/// Values for the gas variables of a program: at most one for each variable,
/// and none below zero.
#[derive(Debug, PartialEq, Eq)]
pub struct Assignment {
    values: Vec<VariableValue>,
}

impl View for Assignment {
    type V = Seq<VariableValue>;

    closed spec fn view(&self) -> Seq<VariableValue> {
        self.values@
    }
}

impl Assignment {
    #[verifier::type_invariant]
    spec fn well_formed(self) -> bool {
        distinct_vars(self.values@) && no_negative_value(self.values@)
    }

    /// The value of a variable; zero for a variable without one.
    pub open spec fn spec_value(self, var: Var) -> int {
        value_of(self@, var, self@.len() as int)
    }

    /// The assignment of the given values, if no variable has two of them and
    /// none is below zero.
    pub fn new(values: Vec<VariableValue>) -> (res: Option<Assignment>)
        ensures
            res is Some <==> distinct_vars(values@) && no_negative_value(values@),
            res matches Some(assignment) ==> assignment@ == values@,
    {
        let mut j: usize = 0;
        while j < values.len()
            invariant
                j <= values.len(),
                distinct_vars(values@.take(j as int)),
                no_negative_value(values@.take(j as int)),
            decreases values.len() - j,
        {
            if values[j].value < 0 {
                return None;
            }
            let mut i: usize = 0;
            while i < j
                invariant
                    i <= j < values.len(),
                    forall|k: int| 0 <= k < i ==> values@[k].var != values@[j as int].var,
                decreases j - i,
            {
                if values[i].var == values[j].var {
                    return None;
                }
                i = i + 1;
            }
            j = j + 1;
        }
        assert(values@.take(j as int) =~= values@);
        Some(Assignment { values })
    }

    /// What holds of every assignment.
    pub fn values(&self) -> (values: &Vec<VariableValue>)
        ensures
            values@ == self@,
            distinct_vars(self@),
            no_negative_value(self@),
    {
        proof {
            use_type_invariant(self);
        }
        &self.values
    }

    /// The value of a variable; zero for a variable without one. It is not
    /// below zero.
    pub fn value(&self, var: Var) -> (value: i64)
        ensures
            value == self.spec_value(var),
            value >= 0,
    {
        proof {
            use_type_invariant(self);
        }
        let mut n: usize = self.values.len();
        while n > 0
            invariant
                n <= self.values.len(),
                no_negative_value(self.values@),
                value_of(self.values@, var, self.values@.len() as int) == value_of(
                    self.values@,
                    var,
                    n as int,
                ),
            decreases n,
        {
            n = n - 1;
            if self.values[n].var == var {
                return self.values[n].value;
            }
        }
        0
    }

    /// The value of an expression under the assignment, if it can be computed
    /// in 128 bits.
    pub fn evaluate(&self, expr: &CostExpr) -> (res: Option<i128>)
        ensures
            res is Some <==> evaluation_fits(expr@, self@, self@.len() as int),
            res matches Some(value) ==> value == evaluate(expr@, self@),
    {
        let mut sum: i128 = expr.coefficient_of(None);
        let mut n: usize = 0;
        while n < self.values.len()
            invariant
                n <= self.values.len(),
                evaluation_fits(expr@, self.values@, n as int),
                sum == expr@.constant + weighted_sum(expr@, self.values@, n as int),
            decreases self.values.len() - n,
        {
            let entry = self.values[n];
            let coefficient = expr.coefficient_of(Some(entry.var));
            let product = match coefficient.checked_mul(entry.value as i128) {
                Some(product) => product,
                None => {
                    proof {
                        lemma_fits_stays_false(expr@, self.values@, n as int + 1, self.values@.len() as int);
                    }
                    return None;
                },
            };
            sum = match sum.checked_add(product) {
                Some(sum) => sum,
                None => {
                    proof {
                        lemma_fits_stays_false(expr@, self.values@, n as int + 1, self.values@.len() as int);
                    }
                    return None;
                },
            };
            n = n + 1;
        }
        Some(sum)
    }
}

/// An evaluation that does not fit over some entries does not fit over more.
pub proof fn lemma_fits_stays_false(form: LinearForm, values: Seq<VariableValue>, n: int, m: int)
    requires
        0 <= n <= m,
        !evaluation_fits(form, values, n),
    ensures
        !evaluation_fits(form, values, m),
    decreases m,
{
    if n < m {
        lemma_fits_stays_false(form, values, n, m - 1);
    }
}

/// Whether an assignment makes the expression of a token zero, and its value
/// can be computed in 128 bits.
pub open spec fn satisfies(values: Seq<VariableValue>, map: CostExprMap, token: CostTokenType)
    -> bool {
    evaluation_fits(cost_at(map, token), values, values.len() as int) && evaluate(
        cost_at(map, token),
        values,
    ) == 0
}

/// Whether an assignment solves the equations: it makes every expression
/// of every branch of every statement zero.
pub open spec fn solves(values: Seq<VariableValue>, equations: Seq<StatementEquations>) -> bool {
    forall|idx: int, branch: int, token: CostTokenType|
        0 <= idx < equations.len() && 0 <= branch < equations[idx].branches@.len()
            ==> #[trigger] satisfies(values, equations[idx].branches@[branch], token)
}

/// Whether an assignment makes every expression of a map zero.
fn check_map(assignment: &Assignment, map: &CostExprMap) -> (ok: bool)
    ensures
        ok == forall|token: CostTokenType| #[trigger] satisfies(assignment@, *map, token),
{
    let all = tokens();
    let mut i: usize = 0;
    while i < all.len()
        invariant
            i <= all.len(),
            forall|token: CostTokenType| all@.contains(token),
            forall|k: int| 0 <= k < i ==> #[trigger] satisfies(assignment@, *map, all@[k]),
        decreases all.len() - i,
    {
        match map.get(all[i]) {
            Some(expr) => {
                match assignment.evaluate(expr) {
                    Some(value) => {
                        if value != 0 {
                            assert(!satisfies(assignment@, *map, all@[i as int]));
                            return false;
                        }
                    },
                    None => {
                        assert(!satisfies(assignment@, *map, all@[i as int]));
                        return false;
                    },
                }
            },
            None => {
                proof {
                    lemma_zero_evaluates_to_zero(assignment@, assignment@.len() as int);
                }
            },
        }
        i = i + 1;
    }
    true
}

/// The form zero has the value zero.
pub proof fn lemma_zero_evaluates_to_zero(values: Seq<VariableValue>, n: int)
    requires
        0 <= n <= values.len(),
    ensures
        weighted_sum(LinearForm::zero(), values, n) == 0,
        evaluation_fits(LinearForm::zero(), values, n),
    decreases n,
{
    if n > 0 {
        lemma_zero_evaluates_to_zero(values, n - 1);
    }
}

/// Checks a solution: whether the assignment makes every equation hold.
pub fn check_solution(equations: &Vec<StatementEquations>, assignment: &Assignment) -> (ok: bool)
    ensures
        ok == solves(assignment@, equations@),
{
    let mut idx: usize = 0;
    while idx < equations.len()
        invariant
            idx <= equations.len(),
            forall|i: int, branch: int, token: CostTokenType|
                0 <= i < idx && 0 <= branch < equations@[i].branches@.len() ==> #[trigger] satisfies(
                    assignment@,
                    equations@[i].branches@[branch],
                    token,
                ),
        decreases equations.len() - idx,
    {
        let branches = &equations[idx].branches;
        let mut branch: usize = 0;
        while branch < branches.len()
            invariant
                branch <= branches.len(),
                idx < equations.len(),
                *branches == equations@[idx as int].branches,
                forall|b: int, token: CostTokenType|
                    0 <= b < branch ==> #[trigger] satisfies(assignment@, branches@[b], token),
            decreases branches.len() - branch,
        {
            if !check_map(assignment, &branches[branch]) {
                return false;
            }
            branch = branch + 1;
        }
        idx = idx + 1;
    }
    true
}

/// The value that a solution gives to the future cost of a statement for a
/// token.
pub open spec fn future_value(values: Seq<VariableValue>, idx: int, token: CostTokenType) -> int {
    value_of(values, Var::StatementFuture(StatementIdx(idx as usize), token), values.len() as int)
}

/// Whether the value of a form is zero, and can be computed in 128 bits.
pub open spec fn is_zero_under(form: LinearForm, values: Seq<VariableValue>) -> bool {
    evaluation_fits(form, values, values.len() as int) && evaluate(form, values) == 0
}

/// Whether values make the equations of the statement `idx` hold in a pass:
/// the future cost of a return is zero; for an invocation, on every branch,
/// the future cost of the statement less the cost of its libfunc on the branch
/// less the future cost of the statement that the branch goes on to is zero.
/// This is asked of each token of the pass.
pub open spec fn statement_solved(
    precost: Option<&GasInfo>,
    program: Program,
    registry: ProgramRegistry,
    future: FutureCostVariables,
    values: Seq<VariableValue>,
    idx: int,
) -> bool {
    match program.statements@[idx] {
        Statement::Return(_) => forall|token: CostTokenType|
            covers(precost, token) ==> #[trigger] is_zero_under(future_form(idx, token), values),
        Statement::Invocation(invocation) => registry.spec_get_libfunc(
            invocation.libfunc_id.id,
        ) matches Some(decl) && forall|
            libfunc: CoreConcreteLibfunc<'_>,
            branch: int,
            token: CostTokenType,
        |
            #![trigger libfunc_form(precost, registry, future, idx, libfunc, branch, token)]
            is_classified(registry, decl, invocation.branches@.len() as usize, libfunc) && 0
                <= branch < invocation.branches@.len() && covers(precost, token) ==> is_zero_under(
                future_form(idx, token).sub(
                    libfunc_form(precost, registry, future, idx, libfunc, branch, token),
                ).sub(future_form(next_statement(idx, invocation.branches@[branch].target), token)),
                values,
            ),
    }
}

/// Whether values solve the equations of a program in a pass: they make the
/// equations of each of its statements hold.
pub open spec fn solves_program(
    precost: Option<&GasInfo>,
    program: Program,
    registry: ProgramRegistry,
    future: FutureCostVariables,
    values: Seq<VariableValue>,
) -> bool {
    forall|idx: int|
        0 <= idx < program.statements@.len() ==> #[trigger] statement_solved(
            precost,
            program,
            registry,
            future,
            values,
            idx,
        )
}

/// Under values that solve the equations of a program in a pass, the future
/// cost of a return is zero, in each token of the pass.
pub proof fn lemma_solved_return(
    precost: Option<&GasInfo>,
    program: Program,
    registry: ProgramRegistry,
    future: FutureCostVariables,
    values: Seq<VariableValue>,
    idx: int,
    token: CostTokenType,
)
    requires
        distinct_vars(values),
        solves_program(precost, program, registry, future, values),
        0 <= idx < program.statements@.len(),
        program.statements@[idx] is Return,
        covers(precost, token),
    ensures
        future_value(values, idx, token) == 0,
{
    assert(statement_solved(precost, program, registry, future, values, idx));
    assert(is_zero_under(future_form(idx, token), values));
    lemma_evaluate_var(Var::StatementFuture(StatementIdx(idx as usize), token), values);
}

/// Under values that solve the equations of a program in a pass, for every statement
/// that invokes a libfunc and every branch that it may take, the future cost of
/// the statement less the cost of the libfunc on the branch less the future
/// cost of the statement that the branch goes on to is zero, in each token of
/// the pass.
pub proof fn lemma_solved_invocation(
    precost: Option<&GasInfo>,
    program: Program,
    registry: ProgramRegistry,
    future: FutureCostVariables,
    values: Seq<VariableValue>,
    idx: int,
    libfunc: CoreConcreteLibfunc<'_>,
    branch: int,
    token: CostTokenType,
)
    requires
        distinct_vars(values),
        solves_program(precost, program, registry, future, values),
        0 <= idx < program.statements@.len(),
        program.statements@[idx] matches Statement::Invocation(invocation) && 0 <= branch
            < invocation.branches@.len() && (registry.spec_get_libfunc(
            invocation.libfunc_id.id,
        ) matches Some(decl) && is_classified(
            registry,
            decl,
            invocation.branches@.len() as usize,
            libfunc,
        )),
        covers(precost, token),
    ensures
        program.statements@[idx] matches Statement::Invocation(invocation) && future_value(
            values,
            idx,
            token,
        ) - evaluate(
            libfunc_form(precost, registry, future, idx, libfunc, branch, token),
            values,
        ) - future_value(values, next_statement(idx, invocation.branches@[branch].target), token)
            == 0,
{
    let invocation = program.statements@[idx]->Invocation_0;
    let next = next_statement(idx, invocation.branches@[branch].target);
    let cost = libfunc_form(precost, registry, future, idx, libfunc, branch, token);
    let form = future_form(idx, token).sub(cost).sub(future_form(next, token));
    assert(statement_solved(precost, program, registry, future, values, idx));
    lemma_evaluate_sub(future_form(idx, token).sub(cost), future_form(next, token), values);
    lemma_evaluate_sub(future_form(idx, token), cost, values);
    lemma_evaluate_var(Var::StatementFuture(StatementIdx(idx as usize), token), values);
    lemma_evaluate_var(Var::StatementFuture(StatementIdx(next as usize), token), values);
}

/// The values that a solution gives to the variables of a kind for the
/// tokens of a pass, token by token; nothing for the other tokens.
pub open spec fn is_pass_values(
    precost: Option<&GasInfo>,
    map: TokenMap<i64>,
    values: Seq<VariableValue>,
    var: spec_fn(CostTokenType) -> Var,
) -> bool {
    forall|token: CostTokenType|
        #[trigger] map.spec_get(token) == (if covers(precost, token) {
            Some(value_of(values, var(token), values.len() as int) as i64)
        } else {
            None::<i64>
        })
}

/// The variable of a statement for a token: the amount that its libfunc
/// deducts, or its future cost.
pub open spec fn pass_var(implicit: bool, statement: StatementIdx, token: CostTokenType) -> Var {
    if implicit {
        Var::LibfuncImplicitGasVariable(statement, token)
    } else {
        Var::StatementFuture(statement, token)
    }
}

fn value_of_var(
    assignment: &Assignment,
    implicit: bool,
    statement: StatementIdx,
    token: CostTokenType,
) -> (value: Option<i64>)
    ensures
        value == Some(
            value_of(assignment@, pass_var(implicit, statement, token), assignment@.len() as int) as i64,
        ),
        value matches Some(v) && v >= 0,
{
    if implicit {
        Some(assignment.value(Var::LibfuncImplicitGasVariable(statement, token)))
    } else {
        Some(assignment.value(Var::StatementFuture(statement, token)))
    }
}

fn pass_values(
    precost: Option<&GasInfo>,
    assignment: &Assignment,
    implicit: bool,
    statement: StatementIdx,
) -> (map: TokenMap<i64>)
    ensures
        is_pass_values(
            precost,
            map,
            assignment@,
            |token: CostTokenType| pass_var(implicit, statement, token),
        ),
        non_negative(map),
{
    match precost {
        None => TokenMap {
            const_cost: None,
            step: None,
            hole: None,
            range_check: None,
            pedersen: value_of_var(assignment, implicit, statement, CostTokenType::Pedersen),
            bitwise: value_of_var(assignment, implicit, statement, CostTokenType::Bitwise),
            ec_op: value_of_var(assignment, implicit, statement, CostTokenType::EcOp),
        },
        Some(_) => TokenMap {
            const_cost: None,
            step: value_of_var(assignment, implicit, statement, CostTokenType::Step),
            hole: value_of_var(assignment, implicit, statement, CostTokenType::Hole),
            range_check: value_of_var(assignment, implicit, statement, CostTokenType::RangeCheck),
            pedersen: None,
            bitwise: None,
            ec_op: None,
        },
    }
}

/// Whether gas costs are those of a solution of a pass: for each statement
/// of the program, in their order, the values of its gas variables; for each
/// function of the program, in their order, the values of the future costs of
/// its entry point.
pub open spec fn is_gas_info_of(
    precost: Option<&GasInfo>,
    info: GasInfo,
    program: Program,
    values: Seq<VariableValue>,
) -> bool {
    &&& info.spec_variable_values().len() == program.statements@.len()
    &&& forall|idx: int|
        0 <= idx < program.statements@.len() ==> (#[trigger] info.spec_variable_values()[idx]).statement
            == StatementIdx(idx as usize) && is_pass_values(
            precost,
            info.spec_variable_values()[idx].values,
            values,
            |token: CostTokenType| pass_var(true, StatementIdx(idx as usize), token),
        )
    &&& info.spec_function_costs().len() == program.funcs@.len()
    &&& forall|i: int|
        0 <= i < program.funcs@.len() ==> (#[trigger] info.spec_function_costs()[i]).function
            == program.funcs@[i].id && is_pass_values(
            precost,
            info.spec_function_costs()[i].costs,
            values,
            |token: CostTokenType| pass_var(false, program.funcs@[i].entry_point, token),
        )
}

/// The pre-costs of a program under a solution of the first pass.
pub fn gas_info_of(registry: &ProgramRegistry, assignment: &Assignment) -> (info: GasInfo)
    ensures
        is_gas_info_of(None, info, registry.spec_program(), assignment@),
{
    gas_info_of_pass(None, registry, assignment)
}

/// The gas costs of a program under a solution of a pass.
fn gas_info_of_pass(precost: Option<&GasInfo>, registry: &ProgramRegistry, assignment: &Assignment) -> (info:
    GasInfo)
    ensures
        is_gas_info_of(precost, info, registry.spec_program(), assignment@),
{
    let program = registry.program();
    let mut variable_values: Vec<StatementVariables> = Vec::new();
    let mut idx: usize = 0;
    while idx < program.statements.len()
        invariant
            idx <= program.statements.len(),
            variable_values@.len() == idx,
            forall|k: int|
                0 <= k < idx ==> (#[trigger] variable_values@[k]).statement == StatementIdx(
                    k as usize,
                ) && non_negative(variable_values@[k].values) && is_pass_values(
                    precost,
                    variable_values@[k].values,
                    assignment@,
                    |token: CostTokenType| pass_var(true, StatementIdx(k as usize), token),
                ),
        decreases program.statements.len() - idx,
    {
        let statement = StatementIdx(idx);
        let values = pass_values(precost, assignment, true, statement);
        variable_values.push(StatementVariables { statement, values });
        idx = idx + 1;
    }
    let mut function_costs: Vec<FunctionCost> = Vec::new();
    let mut i: usize = 0;
    while i < program.funcs.len()
        invariant
            i <= program.funcs.len(),
            function_costs@.len() == i,
            forall|k: int|
                0 <= k < i ==> (#[trigger] function_costs@[k]).function == program.funcs@[k].id
                    && non_negative(function_costs@[k].costs) && is_pass_values(
                    precost,
                    function_costs@[k].costs,
                    assignment@,
                    |token: CostTokenType| pass_var(false, program.funcs@[k].entry_point, token),
                ),
        decreases program.funcs.len() - i,
    {
        let entry = program.funcs[i].entry_point;
        let costs = pass_values(precost, assignment, false, entry);
        function_costs.push(FunctionCost { function: program.funcs[i].id.duplicate(), costs });
        i = i + 1;
    }
    proof {
        assert(function_keys(function_costs@) =~= function_ids(program.funcs@));
    }
    match GasInfo::new(variable_values, function_costs) {
        Some(info) => info,
        None => {
            assert(false);
            GasInfo::empty()
        },
    }
}

/// Forms that are the same can be evaluated in 128 bits alike.
pub proof fn lemma_fits_same(a: LinearForm, b: LinearForm, values: Seq<VariableValue>, n: int)
    requires
        a.same(b),
    ensures
        evaluation_fits(a, values, n) == evaluation_fits(b, values, n),
    decreases n,
{
    if n > 0 {
        lemma_fits_same(a, b, values, n - 1);
        lemma_weighted_sum_same(a, b, values, n);
    }
}

/// Forms that are the same are zero alike.
pub proof fn lemma_is_zero_same(a: LinearForm, b: LinearForm, values: Seq<VariableValue>)
    requires
        a.same(b),
    ensures
        is_zero_under(a, values) == is_zero_under(b, values),
{
    lemma_fits_same(a, b, values, values.len() as int);
    lemma_evaluate_same(a, b, values);
}

/// Whatever a declaration declares has the same costs.
pub proof fn lemma_classified_unique<'a, 'b>(
    precost: Option<&GasInfo>,
    registry: ProgramRegistry,
    future: FutureCostVariables,
    idx: int,
    decl: crate::sierra::program::LibFuncDeclaration,
    branches: usize,
    first: CoreConcreteLibfunc<'a>,
    second: CoreConcreteLibfunc<'b>,
    branch: int,
    token: CostTokenType,
)
    requires
        is_classified(registry, decl, branches, first),
        is_classified(registry, decl, branches, second),
    ensures
        libfunc_form(precost, registry, future, idx, first, branch, token) == libfunc_form(
            precost,
            registry,
            future,
            idx,
            second,
            branch,
            token,
        ),
{
}

/// Values solve the equations that were written down for a program in a
/// pass exactly if they solve the equations of the program in that pass.
pub proof fn lemma_solves_program(
    precost: Option<&GasInfo>,
    program: Program,
    registry: ProgramRegistry,
    future: FutureCostVariables,
    equations: Seq<StatementEquations>,
    values: Seq<VariableValue>,
)
    requires
        equations.len() == program.statements@.len(),
        forall|idx: int|
            0 <= idx < equations.len() ==> is_equations_of(
                precost,
                program,
                registry,
                future,
                idx,
                #[trigger] equations[idx],
            ),
    ensures
        solves(values, equations) <==> solves_program(precost, program, registry, future, values),
{
    if solves(values, equations) {
        assert forall|idx: int| 0 <= idx < program.statements@.len() implies #[trigger] statement_solved(
            precost,
            program,
            registry,
            future,
            values,
            idx,
        ) by {
            match program.statements@[idx] {
                Statement::Return(_) => {
                    assert forall|token: CostTokenType| covers(precost, token) implies #[trigger] is_zero_under(
                        future_form(idx, token),
                        values,
                    ) by {
                        let map = equations[idx].branches@[0];
                        assert(satisfies(values, map, token));
                        assert(equation_at(precost, map, token, future_form(idx, token)));
                        lemma_is_zero_same(cost_at(map, token), future_form(idx, token), values);
                    }
                },
                Statement::Invocation(invocation) => {
                    let decl = registry.spec_get_libfunc(invocation.libfunc_id.id).unwrap();
                    let n = invocation.branches@.len() as usize;
                    let witness = choose|libfunc: CoreConcreteLibfunc<'_>|
                        #![trigger is_classified(registry, decl, n, libfunc)]
                        is_classified(registry, decl, n, libfunc) && equations[idx].branches@.len()
                            == invocation.branches@.len() && forall|b: int, t: CostTokenType|
                            0 <= b < invocation.branches@.len() ==> #[trigger] equation_at(
                                precost,
                                equations[idx].branches@[b],
                                t,
                                future_form(idx, t).sub(libfunc_form(precost, registry, future, idx, libfunc, b, t)).sub(
                                    future_form(
                                        next_statement(idx, invocation.branches@[b].target),
                                        t,
                                    ),
                                ),
                            );
                    assert forall|
                        libfunc: CoreConcreteLibfunc<'_>,
                        branch: int,
                        token: CostTokenType,
                    |
                        #![trigger libfunc_form(precost, registry, future, idx, libfunc, branch, token)]
                        is_classified(registry, decl, n, libfunc) && 0 <= branch
                            < invocation.branches@.len() && covers(precost, token) implies is_zero_under(
                        future_form(idx, token).sub(libfunc_form(precost, registry, future, idx, libfunc, branch, token)).sub(
                            future_form(
                                next_statement(idx, invocation.branches@[branch].target),
                                token,
                            ),
                        ),
                        values,
                    ) by {
                        lemma_classified_unique(
                            precost,
                            registry,
                            future,
                            idx,
                            decl,
                            n,
                            libfunc,
                            witness,
                            branch,
                            token,
                        );
                        let map = equations[idx].branches@[branch];
                        let form = future_form(idx, token).sub(
                            libfunc_form(precost, registry, future, idx, witness, branch, token),
                        ).sub(
                            future_form(
                                next_statement(idx, invocation.branches@[branch].target),
                                token,
                            ),
                        );
                        assert(satisfies(values, map, token));
                        assert(equation_at(precost, map, token, form));
                        lemma_is_zero_same(cost_at(map, token), form, values);
                    }
                },
            }
        }
    }
    if solves_program(precost, program, registry, future, values) {
        assert forall|idx: int, branch: int, token: CostTokenType|
            0 <= idx < equations.len() && 0 <= branch
                < equations[idx].branches@.len() implies #[trigger] satisfies(
            values,
            equations[idx].branches@[branch],
            token,
        ) by {
            assert(statement_solved(precost, program, registry, future, values, idx));
            let map = equations[idx].branches@[branch];
            match program.statements@[idx] {
                Statement::Return(_) => {
                    assert(equation_at(precost, map, token, future_form(idx, token)));
                    if covers(precost, token) {
                        lemma_is_zero_same(cost_at(map, token), future_form(idx, token), values);
                    } else {
                        lemma_zero_evaluates_to_zero(values, values.len() as int);
                    }
                },
                Statement::Invocation(invocation) => {
                    let decl = registry.spec_get_libfunc(invocation.libfunc_id.id).unwrap();
                    let n = invocation.branches@.len() as usize;
                    let witness = choose|libfunc: CoreConcreteLibfunc<'_>|
                        #![trigger is_classified(registry, decl, n, libfunc)]
                        is_classified(registry, decl, n, libfunc) && equations[idx].branches@.len()
                            == invocation.branches@.len() && forall|b: int, t: CostTokenType|
                            0 <= b < invocation.branches@.len() ==> #[trigger] equation_at(
                                precost,
                                equations[idx].branches@[b],
                                t,
                                future_form(idx, t).sub(libfunc_form(precost, registry, future, idx, libfunc, b, t)).sub(
                                    future_form(
                                        next_statement(idx, invocation.branches@[b].target),
                                        t,
                                    ),
                                ),
                            );
                    let form = future_form(idx, token).sub(
                        libfunc_form(precost, registry, future, idx, witness, branch, token),
                    ).sub(
                        future_form(
                            next_statement(idx, invocation.branches@[branch].target),
                            token,
                        ),
                    );
                    assert(equation_at(precost, map, token, form));
                    if covers(precost, token) {
                        lemma_is_zero_same(cost_at(map, token), form, values);
                    } else {
                        lemma_zero_evaluates_to_zero(values, values.len() as int);
                    }
                },
            }
        }
    }
}

/// Whether the equations of every statement of the registry's program can be
/// written down.
pub open spec fn no_statement_error(registry: &ProgramRegistry) -> bool {
    forall|idx: int|
        0 <= idx < registry.spec_program().statements@.len() ==> (#[trigger] statement_error(
            registry.spec_program(),
            *registry,
            idx,
        )) is None
}

/// Whether values are a solution of a pass: the equations of every statement
/// can be written down, no two values are for one variable, no value is below
/// zero, and the values solve the equations of the program.
pub open spec fn is_solution(
    precost: Option<&GasInfo>,
    registry: &ProgramRegistry,
    future: &FutureCostVariables,
    solution: Seq<VariableValue>,
) -> bool {
    no_statement_error(registry) && distinct_vars(solution) && no_negative_value(solution)
        && solves_program(precost, registry.spec_program(), *registry, *future, solution)
}

/// Whether an error is the one for values that are no solution: the error
/// of the first statement whose equations cannot be written down, or, where
/// all can, that the solving failed.
pub open spec fn is_solution_error(registry: &ProgramRegistry, error: CostError) -> bool {
    if exists|idx: int|
        0 <= idx < registry.spec_program().statements@.len() && (#[trigger] statement_error(
            registry.spec_program(),
            *registry,
            idx,
        )) is Some {
        exists|idx: int|
            0 <= idx < registry.spec_program().statements@.len() && #[trigger] statement_error(
                registry.spec_program(),
                *registry,
                idx,
            ) == Some(error) && forall|k: int|
                0 <= k < idx ==> (#[trigger] statement_error(
                    registry.spec_program(),
                    *registry,
                    k,
                )) is None
    } else {
        error == CostError::SolvingGasEquationFailed
    }
}

/// What the computing of the gas costs of a pass from a solution returns:
/// the gas costs exactly if the values are a solution; else the error for
/// values that are none.
pub open spec fn gas_info_post(
    precost: Option<&GasInfo>,
    registry: &ProgramRegistry,
    future: &FutureCostVariables,
    solution: Seq<VariableValue>,
    res: Result<GasInfo, CostError>,
) -> bool {
    &&& match res {
        Ok(info) => is_gas_info_of(precost, info, registry.spec_program(), solution),
        Err(error) => is_solution_error(registry, error),
    }
    &&& res is Ok <==> is_solution(precost, registry, future, solution)
}

/// Computes the pre-costs of the registry's program from a solution of its
/// equations that was found elsewhere. The solution is checked. The error of
/// the first statement whose equations cannot be written down is handed on.
/// Values of which one is below zero, or two are for one variable, or which do
/// not make every equation hold, are no solution.
pub fn calc_gas_precost_info(
    registry: &ProgramRegistry,
    future: &FutureCostVariables,
    solution: Vec<VariableValue>,
) -> (res: Result<GasInfo, CostError>)
    ensures
        gas_info_post(None, registry, future, solution@, res),
{
    calc_gas_info(None, registry, future, solution)
}

/// Computes the post-costs of the registry's program, given its pre-costs,
/// from a solution of its equations that was found elsewhere. The solution
/// is checked as that of the pre-costs is.
pub fn calc_gas_postcost_info(
    registry: &ProgramRegistry,
    future: &FutureCostVariables,
    precost_gas_info: &GasInfo,
    solution: Vec<VariableValue>,
) -> (res: Result<GasInfo, CostError>)
    ensures
        gas_info_post(Some(precost_gas_info), registry, future, solution@, res),
{
    calc_gas_info(Some(precost_gas_info), registry, future, solution)
}

/// Checks that values are a solution of a pass.
fn checked_assignment(
    precost: Option<&GasInfo>,
    registry: &ProgramRegistry,
    future: &FutureCostVariables,
    solution: Vec<VariableValue>,
) -> (res: Result<Assignment, CostError>)
    ensures
        match res {
            Ok(assignment) => assignment@ == solution@,
            Err(error) => is_solution_error(registry, error),
        },
        res is Ok <==> is_solution(precost, registry, future, solution@),
{
    let equations = match precost {
        None => generate_equations(registry, future),
        Some(gas_info) => generate_postcost_equations(registry, future, gas_info),
    };
    assert(equations_post(precost, registry, future, equations));
    let equations = match equations {
        Ok(equations) => equations,
        Err(error) => {
            return Err(error);
        },
    };
    assert forall|idx: int|
        0 <= idx < registry.spec_program().statements@.len() implies (#[trigger] statement_error(
        registry.spec_program(),
        *registry,
        idx,
    )) is None by {
        assert(is_equations_of(
            precost,
            registry.spec_program(),
            *registry,
            *future,
            idx,
            equations@[idx],
        ));
    }
    proof {
        lemma_solves_program(
            precost,
            registry.spec_program(),
            *registry,
            *future,
            equations@,
            solution@,
        );
    }
    let assignment = match Assignment::new(solution) {
        Some(assignment) => assignment,
        None => {
            return Err(CostError::SolvingGasEquationFailed);
        },
    };
    if !check_solution(&equations, &assignment) {
        return Err(CostError::SolvingGasEquationFailed);
    }
    Ok(assignment)
}

fn calc_gas_info(
    precost: Option<&GasInfo>,
    registry: &ProgramRegistry,
    future: &FutureCostVariables,
    solution: Vec<VariableValue>,
) -> (res: Result<GasInfo, CostError>)
    ensures
        gas_info_post(precost, registry, future, solution@, res),
{
    match checked_assignment(precost, registry, future, solution) {
        Ok(assignment) => Ok(gas_info_of_pass(precost, registry, &assignment)),
        Err(error) => Err(error),
    }
}

/// The values that the solutions of the two passes give to the variables
/// of a kind, token by token: the pre-cost tokens from the first, the
/// post-cost tokens from the second; nothing for any other token.
pub open spec fn is_both_values(
    map: TokenMap<i64>,
    precost: Seq<VariableValue>,
    postcost: Seq<VariableValue>,
    var: spec_fn(CostTokenType) -> Var,
) -> bool {
    forall|token: CostTokenType|
        #[trigger] map.spec_get(token) == (if token.is_precost() {
            Some(value_of(precost, var(token), precost.len() as int) as i64)
        } else if token.is_postcost() {
            Some(value_of(postcost, var(token), postcost.len() as int) as i64)
        } else {
            None::<i64>
        })
}

/// Whether gas costs are those of the solutions of the two passes: for each
/// statement of the program, in their order, the values of its gas
/// variables; for each function of the program, in their order, the values of
/// the future costs of its entry point.
pub open spec fn is_metadata_gas_info(
    info: GasInfo,
    program: Program,
    precost: Seq<VariableValue>,
    postcost: Seq<VariableValue>,
) -> bool {
    &&& info.spec_variable_values().len() == program.statements@.len()
    &&& forall|idx: int|
        0 <= idx < program.statements@.len() ==> (#[trigger] info.spec_variable_values()[idx]).statement
            == StatementIdx(idx as usize) && is_both_values(
            info.spec_variable_values()[idx].values,
            precost,
            postcost,
            |token: CostTokenType| pass_var(true, StatementIdx(idx as usize), token),
        )
    &&& info.spec_function_costs().len() == program.funcs@.len()
    &&& forall|i: int|
        0 <= i < program.funcs@.len() ==> (#[trigger] info.spec_function_costs()[i]).function
            == program.funcs@[i].id && is_both_values(
            info.spec_function_costs()[i].costs,
            precost,
            postcost,
            |token: CostTokenType| pass_var(false, program.funcs@[i].entry_point, token),
        )
}

fn both_values(
    precost: &Assignment,
    postcost: &Assignment,
    implicit: bool,
    statement: StatementIdx,
) -> (map: TokenMap<i64>)
    ensures
        is_both_values(
            map,
            precost@,
            postcost@,
            |token: CostTokenType| pass_var(implicit, statement, token),
        ),
        non_negative(map),
{
    TokenMap {
        const_cost: None,
        step: value_of_var(postcost, implicit, statement, CostTokenType::Step),
        hole: value_of_var(postcost, implicit, statement, CostTokenType::Hole),
        range_check: value_of_var(postcost, implicit, statement, CostTokenType::RangeCheck),
        pedersen: value_of_var(precost, implicit, statement, CostTokenType::Pedersen),
        bitwise: value_of_var(precost, implicit, statement, CostTokenType::Bitwise),
        ec_op: value_of_var(precost, implicit, statement, CostTokenType::EcOp),
    }
}

/// The gas costs of a program under the solutions of the two passes.
fn both_info_of(registry: &ProgramRegistry, precost: &Assignment, postcost: &Assignment) -> (info:
    GasInfo)
    ensures
        is_metadata_gas_info(info, registry.spec_program(), precost@, postcost@),
{
    let program = registry.program();
    let mut variable_values: Vec<StatementVariables> = Vec::new();
    let mut idx: usize = 0;
    while idx < program.statements.len()
        invariant
            idx <= program.statements.len(),
            variable_values@.len() == idx,
            forall|k: int|
                0 <= k < idx ==> (#[trigger] variable_values@[k]).statement == StatementIdx(
                    k as usize,
                ) && non_negative(variable_values@[k].values) && is_both_values(
                    variable_values@[k].values,
                    precost@,
                    postcost@,
                    |token: CostTokenType| pass_var(true, StatementIdx(k as usize), token),
                ),
        decreases program.statements.len() - idx,
    {
        let statement = StatementIdx(idx);
        let values = both_values(precost, postcost, true, statement);
        variable_values.push(StatementVariables { statement, values });
        idx = idx + 1;
    }
    let mut function_costs: Vec<FunctionCost> = Vec::new();
    let mut i: usize = 0;
    while i < program.funcs.len()
        invariant
            i <= program.funcs.len(),
            function_costs@.len() == i,
            forall|k: int|
                0 <= k < i ==> (#[trigger] function_costs@[k]).function == program.funcs@[k].id
                    && non_negative(function_costs@[k].costs) && is_both_values(
                    function_costs@[k].costs,
                    precost@,
                    postcost@,
                    |token: CostTokenType| pass_var(false, program.funcs@[k].entry_point, token),
                ),
        decreases program.funcs.len() - i,
    {
        let entry = program.funcs[i].entry_point;
        let costs = both_values(precost, postcost, false, entry);
        function_costs.push(FunctionCost { function: program.funcs[i].id.duplicate(), costs });
        i = i + 1;
    }
    proof {
        assert(function_keys(function_costs@) =~= function_ids(program.funcs@));
    }
    match GasInfo::new(variable_values, function_costs) {
        Some(info) => info,
        None => {
            assert(false);
            GasInfo::empty()
        },
    }
}

/// Gas costs that hold the statements of a program in their order hold the
/// value of a variable of a statement in the entry of the statement.
pub proof fn lemma_value_at(info: GasInfo, statements: int, idx: int, token: CostTokenType)
    requires
        info.spec_variable_values().len() == statements,
        statements <= usize::MAX,
        forall|k: int|
            0 <= k < statements ==> (#[trigger] info.spec_variable_values()[k]).statement
                == StatementIdx(k as usize),
        0 <= idx < statements,
    ensures
        info.spec_variable_value(StatementIdx(idx as usize), token)
            == info.spec_variable_values()[idx].values.spec_get(token),
{
    let entries = info.spec_variable_values();
    let keys = statement_keys(entries);
    lemma_index_of(keys, idx as usize as u64);
    assert(keys[idx] == entries[idx].statement.0 as u64);
    match index_of(keys, idx as usize as u64) {
        Some(i) => {
            assert(keys[i] == entries[i].statement.0 as u64);
        },
        None => {},
    }
}

/// Whether two gas costs give the pre-cost variables of the statements of a
/// program the same values.
pub open spec fn same_precosts(a: &GasInfo, b: &GasInfo, program: Program) -> bool {
    forall|idx: int, token: CostTokenType|
        0 <= idx < program.statements@.len() && token.is_precost() ==> #[trigger] a.spec_variable_value(
            StatementIdx(idx as usize),
            token,
        ) == b.spec_variable_value(StatementIdx(idx as usize), token)
}

/// The second pass depends on the pre-costs only: under gas costs with the
/// same pre-costs the same values solve its equations.
pub proof fn lemma_same_precosts(
    a: &GasInfo,
    b: &GasInfo,
    program: Program,
    registry: ProgramRegistry,
    future: FutureCostVariables,
    values: Seq<VariableValue>,
)
    requires
        same_precosts(a, b, program),
    ensures
        solves_program(Some(a), program, registry, future, values) == solves_program(
            Some(b),
            program,
            registry,
            future,
            values,
        ),
{
    assert forall|idx: int| 0 <= idx < program.statements@.len() implies statement_solved(
        Some(a),
        program,
        registry,
        future,
        values,
        idx,
    ) == statement_solved(Some(b), program, registry, future, values, idx) by {
        assert(a.spec_variable_value(StatementIdx(idx as usize), CostTokenType::Pedersen)
            == b.spec_variable_value(StatementIdx(idx as usize), CostTokenType::Pedersen));
        assert(a.spec_variable_value(StatementIdx(idx as usize), CostTokenType::Bitwise)
            == b.spec_variable_value(StatementIdx(idx as usize), CostTokenType::Bitwise));
        assert(a.spec_variable_value(StatementIdx(idx as usize), CostTokenType::EcOp)
            == b.spec_variable_value(StatementIdx(idx as usize), CostTokenType::EcOp));
        assert forall|libfunc: CoreConcreteLibfunc<'_>, branch: int, token: CostTokenType|
            libfunc_form(Some(a), registry, future, idx, libfunc, branch, token) == libfunc_form(
                Some(b),
                registry,
                future,
                idx,
                libfunc,
                branch,
                token,
            ) by {}
    }
}

/// Gas costs of the first pass and gas costs of both passes under the same
/// solution of the first give the pre-cost variables the same values.
proof fn lemma_precosts_kept(
    first: &GasInfo,
    both: &GasInfo,
    program: Program,
    precost: Seq<VariableValue>,
    postcost: Seq<VariableValue>,
)
    requires
        is_gas_info_of(None, *first, program, precost),
        is_metadata_gas_info(*both, program, precost, postcost),
        program.statements@.len() <= usize::MAX,
    ensures
        same_precosts(first, both, program),
{
    assert forall|idx: int, token: CostTokenType|
        0 <= idx < program.statements@.len() && token.is_precost() implies #[trigger] first.spec_variable_value(
        StatementIdx(idx as usize),
        token,
    ) == both.spec_variable_value(StatementIdx(idx as usize), token) by {
        lemma_value_at(*first, program.statements@.len() as int, idx, token);
        lemma_value_at(*both, program.statements@.len() as int, idx, token);
    }
}

/// Gas costs of the first pass under the same solution give the pre-cost
/// variables the same values.
proof fn lemma_precosts_unique(
    a: &GasInfo,
    b: &GasInfo,
    program: Program,
    precost: Seq<VariableValue>,
)
    requires
        is_gas_info_of(None, *a, program, precost),
        is_gas_info_of(None, *b, program, precost),
        program.statements@.len() <= usize::MAX,
    ensures
        same_precosts(a, b, program),
{
    assert forall|idx: int, token: CostTokenType|
        0 <= idx < program.statements@.len() && token.is_precost() implies #[trigger] a.spec_variable_value(
        StatementIdx(idx as usize),
        token,
    ) == b.spec_variable_value(StatementIdx(idx as usize), token) by {
        lemma_value_at(*a, program.statements@.len() as int, idx, token);
        lemma_value_at(*b, program.statements@.len() as int, idx, token);
    }
}

/// What the computing of the metadata of a program returns. The metadata
/// hold the changes of `ap` that were found and the gas costs of the
/// solutions of the two passes exactly if the values of the first pass are a
/// solution of it, the changes of `ap` were found, and the values of the
/// second pass are a solution of it, given the pre-costs. Else the error is
/// that of the first of the three that fails.
pub open spec fn metadata_post(
    registry: &ProgramRegistry,
    future: &FutureCostVariables,
    ap_changes: Result<ApChangeInfo, ApChangeError>,
    precost: Seq<VariableValue>,
    postcost: Seq<VariableValue>,
    res: Result<Metadata, MetadataError>,
) -> bool {
    match res {
        Ok(metadata) => ap_changes == Ok::<ApChangeInfo, ApChangeError>(metadata.ap_change_info)
            && is_metadata_gas_info(metadata.gas_info, registry.spec_program(), precost, postcost)
            && is_solution(None, registry, future, precost) && is_solution(
            Some(&metadata.gas_info),
            registry,
            future,
            postcost,
        ),
        Err(MetadataError::ApChangeError(error)) => is_solution(None, registry, future, precost)
            && ap_changes == Err::<ApChangeInfo, ApChangeError>(error),
        Err(MetadataError::CostError(error)) => is_solution_error(registry, error) && (!is_solution(
            None,
            registry,
            future,
            precost,
        ) || (ap_changes is Ok && forall|info: GasInfo|
            is_gas_info_of(None, info, registry.spec_program(), precost) ==> !#[trigger] is_solution(
                Some(&info),
                registry,
                future,
                postcost,
            ))),
    }
}

/// Computes the metadata of the registry's program from the changes of `ap`
/// and the solutions of the two passes of the gas analysis, which were found
/// elsewhere. The solutions are checked: the second against the pre-costs of
/// the first.
pub fn calc_metadata(
    registry: &ProgramRegistry,
    future: &FutureCostVariables,
    ap_changes: Result<ApChangeInfo, ApChangeError>,
    precost_solution: Vec<VariableValue>,
    postcost_solution: Vec<VariableValue>,
) -> (res: Result<Metadata, MetadataError>)
    ensures
        metadata_post(registry, future, ap_changes, precost_solution@, postcost_solution@, res),
{
    let precost = match checked_assignment(None, registry, future, precost_solution) {
        Ok(assignment) => assignment,
        Err(error) => {
            return Err(MetadataError::CostError(error));
        },
    };
    let ap_change_info = match ap_changes {
        Ok(info) => info,
        Err(error) => {
            return Err(MetadataError::ApChangeError(error));
        },
    };
    let precost_info = gas_info_of_pass(None, registry, &precost);
    let ghost program = registry.spec_program();
    let statements = registry.program().statements.len();
    assert(program.statements@.len() == statements);
    let postcost = match checked_assignment(
        Some(&precost_info),
        registry,
        future,
        postcost_solution,
    ) {
        Ok(assignment) => assignment,
        Err(error) => {
            proof {
                assert forall|info: GasInfo|
                    is_gas_info_of(None, info, program, precost_solution@) implies !#[trigger] is_solution(
                    Some(&info),
                    registry,
                    future,
                    postcost_solution@,
                ) by {
                    lemma_precosts_unique(&precost_info, &info, program, precost_solution@);
                    lemma_same_precosts(
                        &precost_info,
                        &info,
                        program,
                        *registry,
                        *future,
                        postcost_solution@,
                    );
                }
            }
            return Err(MetadataError::CostError(error));
        },
    };
    let gas_info = both_info_of(registry, &precost, &postcost);
    proof {
        lemma_precosts_kept(&precost_info, &gas_info, program, precost_solution@, postcost_solution@);
        lemma_same_precosts(
            &precost_info,
            &gas_info,
            program,
            *registry,
            *future,
            postcost_solution@,
        );
    }
    Ok(Metadata { ap_change_info, gas_info })
}

} // verus!
