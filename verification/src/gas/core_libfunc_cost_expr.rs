//! The costs of libfuncs as maps from cost tokens to cost expressions.

use vstd::prelude::*;
use crate::cost_token::CostTokenType;
use crate::gas::cost_expr::{CostExpr, LinearForm, Var};
use crate::metadata::GasInfo;
use crate::sierra::ids::{ConcreteTypeId, StatementIdx};
use crate::sierra::program::Function;
use crate::sierra::registry::ProgramRegistry;
use crate::token_map::{tokens, TokenMap};

verus! {

/// A map from cost tokens to cost expressions. A token without an expression
/// costs nothing.
pub type CostExprMap = TokenMap<CostExpr>;

/// The linear form of an expression, or zero where there is none.
pub open spec fn form_or_zero(expr: Option<CostExpr>) -> LinearForm {
    match expr {
        Some(expr) => expr@,
        None => LinearForm::zero(),
    }
}

/// The cost of a token in a map: the linear form of the token's expression,
/// zero for a token without one.
pub open spec fn cost_at(map: CostExprMap, token: CostTokenType) -> LinearForm {
    form_or_zero(map.spec_get(token))
}

/// Whether a map is the sum of two maps: it has an expression for the tokens
/// for which one of them has, and each token costs the sum of its costs in
/// both.
pub open spec fn is_sum(res: CostExprMap, lhs: CostExprMap, rhs: CostExprMap) -> bool {
    forall|token: CostTokenType|
        (#[trigger] res.spec_get(token) is Some <==> lhs.spec_get(token) is Some || rhs.spec_get(
            token,
        ) is Some) && cost_at(res, token).same(cost_at(lhs, token).add(cost_at(rhs, token)))
}

/// Whether a map is the difference of two maps: it has an expression for the
/// tokens for which one of them has, and each token costs its cost in the
/// first less its cost in the second.
pub open spec fn is_difference(res: CostExprMap, lhs: CostExprMap, rhs: CostExprMap) -> bool {
    forall|token: CostTokenType|
        (#[trigger] res.spec_get(token) is Some <==> lhs.spec_get(token) is Some || rhs.spec_get(
            token,
        ) is Some) && cost_at(res, token).same(cost_at(lhs, token).sub(cost_at(rhs, token)))
}

fn add_entries(lhs: Option<CostExpr>, rhs: Option<CostExpr>) -> (res: Option<CostExpr>)
    ensures
        res is Some <==> lhs is Some || rhs is Some,
        form_or_zero(res).same(form_or_zero(lhs).add(form_or_zero(rhs))),
{
    match (lhs, rhs) {
        (Some(a), Some(b)) => Some(a.add(b)),
        (Some(a), None) => Some(a.add(CostExpr::zero())),
        (None, Some(b)) => Some(CostExpr::zero().add(b)),
        (None, None) => None,
    }
}

fn sub_entries(lhs: Option<CostExpr>, rhs: Option<CostExpr>) -> (res: Option<CostExpr>)
    ensures
        res is Some <==> lhs is Some || rhs is Some,
        form_or_zero(res).same(form_or_zero(lhs).sub(form_or_zero(rhs))),
{
    match (lhs, rhs) {
        (Some(a), Some(b)) => Some(a.sub(b)),
        (Some(a), None) => Some(a.sub(CostExpr::zero())),
        (None, Some(b)) => Some(CostExpr::zero().sub(b)),
        (None, None) => None,
    }
}

/// The sum of two maps, token by token.
pub fn add_maps(lhs: CostExprMap, rhs: CostExprMap) -> (res: CostExprMap)
    ensures
        is_sum(res, lhs, rhs),
{
    TokenMap {
        const_cost: add_entries(lhs.const_cost, rhs.const_cost),
        step: add_entries(lhs.step, rhs.step),
        hole: add_entries(lhs.hole, rhs.hole),
        range_check: add_entries(lhs.range_check, rhs.range_check),
        pedersen: add_entries(lhs.pedersen, rhs.pedersen),
        bitwise: add_entries(lhs.bitwise, rhs.bitwise),
        ec_op: add_entries(lhs.ec_op, rhs.ec_op),
    }
}

/// The difference of two maps, token by token. A token that only the second
/// map has an expression for costs zero less that expression.
pub fn sub_maps(lhs: CostExprMap, rhs: CostExprMap) -> (res: CostExprMap)
    ensures
        is_difference(res, lhs, rhs),
{
    TokenMap {
        const_cost: sub_entries(lhs.const_cost, rhs.const_cost),
        step: sub_entries(lhs.step, rhs.step),
        hole: sub_entries(lhs.hole, rhs.hole),
        range_check: sub_entries(lhs.range_check, rhs.range_check),
        pedersen: sub_entries(lhs.pedersen, rhs.pedersen),
        bitwise: sub_entries(lhs.bitwise, rhs.bitwise),
        ec_op: sub_entries(lhs.ec_op, rhs.ec_op),
    }
}

/// Whether two maps are the same costs: every token costs the same in
/// both, once like variables are combined and terms with the coefficient zero
/// are dropped. A token without an expression costs nothing.
pub open spec fn same_costs(a: CostExprMap, b: CostExprMap) -> bool {
    forall|token: CostTokenType| #[trigger] cost_at(a, token).same(cost_at(b, token))
}

/// Whether two maps are the same costs.
pub fn same_maps(a: &CostExprMap, b: &CostExprMap) -> (res: bool)
    ensures
        res == same_costs(*a, *b),
{
    let all = tokens();
    let zero = CostExpr::zero();
    let mut i: usize = 0;
    while i < all.len()
        invariant
            i <= all.len(),
            zero@.same(LinearForm::zero()),
            forall|token: CostTokenType| all@.contains(token),
            forall|k: int|
                0 <= k < i ==> #[trigger] cost_at(*a, all@[k]).same(cost_at(*b, all@[k])),
        decreases all.len() - i,
    {
        let token = all[i];
        let same = match (a.get(token), b.get(token)) {
            (Some(x), Some(y)) => x.same(y),
            (Some(x), None) => x.same(&zero),
            (None, Some(y)) => zero.same(y),
            (None, None) => true,
        };
        if !same {
            assert(!cost_at(*a, token).same(cost_at(*b, token)));
            return false;
        }
        i = i + 1;
    }
    assert forall|token: CostTokenType| #[trigger] cost_at(*a, token).same(cost_at(*b, token)) by {
        let k = choose|k: int| 0 <= k < all@.len() && all@[k] == token;
    }
    true
}

/// A map less itself costs nothing for any token.
pub proof fn lemma_sub_maps_self(a: CostExprMap, difference: CostExprMap)
    requires
        is_difference(difference, a, a),
    ensures
        forall|token: CostTokenType| cost_at(difference, token).same(LinearForm::zero()),
{
    assert forall|token: CostTokenType| cost_at(difference, token).same(LinearForm::zero()) by {
        assert(difference.spec_get(token) is Some <==> a.spec_get(token) is Some);
        LinearForm::lemma_sub_self(cost_at(a, token));
    }
}

/// A map to which the difference of another map and itself is added costs
/// what the other map costs, for every token.
pub proof fn lemma_add_sub_maps_cancel(
    a: CostExprMap,
    b: CostExprMap,
    difference: CostExprMap,
    sum: CostExprMap,
)
    requires
        is_difference(difference, a, b),
        is_sum(sum, b, difference),
    ensures
        forall|token: CostTokenType| cost_at(sum, token).same(cost_at(a, token)),
{
    assert forall|token: CostTokenType| cost_at(sum, token).same(cost_at(a, token)) by {
        assert(difference.spec_get(token) is Some <==> a.spec_get(token) is Some || b.spec_get(
            token,
        ) is Some);
        assert(sum.spec_get(token) is Some <==> b.spec_get(token) is Some || difference.spec_get(
            token,
        ) is Some);
        LinearForm::lemma_add_sub_cancel(cost_at(a, token), cost_at(b, token));
        LinearForm::lemma_same_congruence(
            cost_at(b, token),
            cost_at(difference, token),
            cost_at(b, token),
            cost_at(a, token).sub(cost_at(b, token)),
        );
    }
}

/// A map to which the difference of itself and another map is added costs
/// what it costs itself, where the two maps cost the same for every token.
pub proof fn lemma_add_sub_maps_same(
    a: CostExprMap,
    b: CostExprMap,
    difference: CostExprMap,
    sum: CostExprMap,
)
    requires
        forall|token: CostTokenType| cost_at(a, token).same(cost_at(b, token)),
        is_difference(difference, a, b),
        is_sum(sum, a, difference),
    ensures
        forall|token: CostTokenType| cost_at(sum, token).same(cost_at(a, token)),
{
    assert forall|token: CostTokenType| cost_at(sum, token).same(cost_at(a, token)) by {
        assert(difference.spec_get(token) is Some <==> a.spec_get(token) is Some || b.spec_get(
            token,
        ) is Some);
        assert(sum.spec_get(token) is Some <==> a.spec_get(token) is Some || difference.spec_get(
            token,
        ) is Some);
        LinearForm::lemma_add_sub_same(cost_at(a, token), cost_at(b, token));
        LinearForm::lemma_same_congruence(
            cost_at(a, token),
            cost_at(difference, token),
            cost_at(a, token),
            cost_at(a, token).sub(cost_at(b, token)),
        );
    }
}

/// The single cost: `form` for the token `token`, nothing for any other.
pub open spec fn is_single(
    cost: LinearForm,
    token: CostTokenType,
    only: CostTokenType,
    form: LinearForm,
) -> bool {
    if token == only {
        cost.same(form)
    } else {
        cost.same(LinearForm::zero())
    }
}

/// The future costs of the statements of a program: what it costs, token by
/// token, to go on from a statement to the end of its function.
pub trait StatementFutureCost {
    /// The future cost of a statement for a token.
    spec fn spec_future_cost(&self, idx: StatementIdx, token: CostTokenType) -> LinearForm;

    /// Returns the future cost of a statement, token by token.
    fn get_future_cost(&self, idx: &StatementIdx) -> (res: CostExprMap)
        ensures
            forall|token: CostTokenType|
                cost_at(res, token).same(#[trigger] self.spec_future_cost(*idx, token)),
    ;
}

/// The future costs while the equations are written down: the future cost
/// of a statement for a token is a variable of its own.
pub struct FutureCostVariables {}

impl StatementFutureCost for FutureCostVariables {
    open spec fn spec_future_cost(&self, idx: StatementIdx, token: CostTokenType) -> LinearForm {
        LinearForm::from_var(Var::StatementFuture(idx, token))
    }

    fn get_future_cost(&self, idx: &StatementIdx) -> (res: CostExprMap) {
        TokenMap {
            const_cost: Some(
                CostExpr::from_var(Var::StatementFuture(*idx, CostTokenType::Const)),
            ),
            step: Some(CostExpr::from_var(Var::StatementFuture(*idx, CostTokenType::Step))),
            hole: Some(CostExpr::from_var(Var::StatementFuture(*idx, CostTokenType::Hole))),
            range_check: Some(
                CostExpr::from_var(Var::StatementFuture(*idx, CostTokenType::RangeCheck)),
            ),
            pedersen: Some(
                CostExpr::from_var(Var::StatementFuture(*idx, CostTokenType::Pedersen)),
            ),
            bitwise: Some(CostExpr::from_var(Var::StatementFuture(*idx, CostTokenType::Bitwise))),
            ec_op: Some(CostExpr::from_var(Var::StatementFuture(*idx, CostTokenType::EcOp))),
        }
    }
}

/// The operations that the costs of libfuncs are written with. They are the
/// same whether the costs are numbers or expressions.
pub trait CostOperations {
    /// The costs.
    type CostType;

    /// The cost of a token in a cost.
    spec fn cost_of(cost: Self::CostType, token: CostTokenType) -> LinearForm;

    /// The cost of a token for calling a function.
    spec fn spec_function_cost(&self, function: Function, token: CostTokenType) -> LinearForm;

    /// The amount that the current statement deducts for a token.
    spec fn spec_statement_var(&self, token: CostTokenType) -> LinearForm;

    /// Gets a cost from a constant value of steps.
    fn const_cost(&self, value: i32) -> (res: Self::CostType)
        ensures
            forall|token: CostTokenType|
                is_single(
                    #[trigger] Self::cost_of(res, token),
                    token,
                    CostTokenType::Step,
                    LinearForm::from_const(value as int),
                ),
    ;

    /// Gets a cost from a constant value of the given token type.
    fn const_cost_token(&self, value: i32, token_type: CostTokenType) -> (res: Self::CostType)
        ensures
            forall|token: CostTokenType|
                is_single(
                    #[trigger] Self::cost_of(res, token),
                    token,
                    token_type,
                    LinearForm::from_const(value as int),
                ),
    ;

    /// Gets the cost of the given token type for the content of a function.
    fn function_token_cost(&self, function: &Function, token_type: CostTokenType) -> (res:
        Self::CostType)
        ensures
            forall|token: CostTokenType|
                is_single(
                    #[trigger] Self::cost_of(res, token),
                    token,
                    token_type,
                    self.spec_function_cost(*function, token_type),
                ),
    ;

    /// Gets the cost of the variable of the current statement.
    fn statement_var_cost(&self, token_type: CostTokenType) -> (res: Self::CostType)
        ensures
            forall|token: CostTokenType|
                is_single(
                    #[trigger] Self::cost_of(res, token),
                    token,
                    token_type,
                    self.spec_statement_var(token_type),
                ),
    ;

    /// Adds costs.
    fn add(&self, lhs: Self::CostType, rhs: Self::CostType) -> (res: Self::CostType)
        ensures
            forall|token: CostTokenType|
                (#[trigger] Self::cost_of(res, token)).same(
                    Self::cost_of(lhs, token).add(Self::cost_of(rhs, token)),
                ),
    ;

    /// Subtracts costs.
    fn sub(&self, lhs: Self::CostType, rhs: Self::CostType) -> (res: Self::CostType)
        ensures
            forall|token: CostTokenType|
                (#[trigger] Self::cost_of(res, token)).same(
                    Self::cost_of(lhs, token).sub(Self::cost_of(rhs, token)),
                ),
    ;
}

/// Cost operations for getting `CostExpr` costs values.
pub struct Ops<'a, F: StatementFutureCost> {
    pub statement_future_cost: &'a F,
    pub idx: StatementIdx,
}

impl<'a, F: StatementFutureCost> CostOperations for Ops<'a, F> {
    type CostType = CostExprMap;

    open spec fn cost_of(cost: CostExprMap, token: CostTokenType) -> LinearForm {
        cost_at(cost, token)
    }

    open spec fn spec_function_cost(&self, function: Function, token: CostTokenType) -> LinearForm {
        self.statement_future_cost.spec_future_cost(function.entry_point, token)
    }

    open spec fn spec_statement_var(&self, token: CostTokenType) -> LinearForm {
        LinearForm::from_var(Var::LibfuncImplicitGasVariable(self.idx, token))
    }

    fn const_cost(&self, value: i32) -> (res: CostExprMap) {
        self.const_cost_token(value, CostTokenType::Step)
    }

    fn const_cost_token(&self, value: i32, token_type: CostTokenType) -> (res: CostExprMap) {
        TokenMap::single(token_type, CostExpr::from_const(value))
    }

    fn function_token_cost(&self, function: &Function, token_type: CostTokenType) -> (res:
        CostExprMap) {
        let mut future = self.statement_future_cost.get_future_cost(&function.entry_point);
        let ghost before = future;
        assert(cost_at(before, token_type).same(
            self.statement_future_cost.spec_future_cost(function.entry_point, token_type),
        ));
        let cost = match future.remove(token_type) {
            Some(cost) => cost,
            None => CostExpr::zero(),
        };
        TokenMap::single(token_type, cost)
    }

    fn statement_var_cost(&self, token_type: CostTokenType) -> (res: CostExprMap) {
        TokenMap::single(
            token_type,
            CostExpr::from_var(Var::LibfuncImplicitGasVariable(self.idx, token_type)),
        )
    }

    fn add(&self, lhs: CostExprMap, rhs: CostExprMap) -> (res: CostExprMap) {
        let res = add_maps(lhs, rhs);
        assert forall|token: CostTokenType| (#[trigger] cost_at(res, token)).same(
            cost_at(lhs, token).add(cost_at(rhs, token)),
        ) by {
            assert(res.spec_get(token) is Some <==> lhs.spec_get(token) is Some || rhs.spec_get(
                token,
            ) is Some);
        }
        res
    }

    fn sub(&self, lhs: CostExprMap, rhs: CostExprMap) -> (res: CostExprMap) {
        let res = sub_maps(lhs, rhs);
        assert forall|token: CostTokenType| (#[trigger] cost_at(res, token)).same(
            cost_at(lhs, token).sub(cost_at(rhs, token)),
        ) by {
            assert(res.spec_get(token) is Some <==> lhs.spec_get(token) is Some || rhs.spec_get(
                token,
            ) is Some);
        }
        res
    }
}

/// What the costs of libfuncs can ask of the program.
pub trait InvocationCostInfoProvider {
    /// The number of cells that a value of a type takes.
    spec fn spec_type_size(&self, ty: ConcreteTypeId) -> usize;

    /// Provides the sizes of types.
    fn type_size(&self, ty: &ConcreteTypeId) -> (size: usize)
        ensures
            size == self.spec_type_size(*ty),
    ;
}

/// What the changes of `ap` of libfuncs can ask of the program.
pub trait InvocationApChangeInfoProvider {
    /// The number of cells that a value of a type takes.
    spec fn spec_type_size(&self, ty: ConcreteTypeId) -> usize;

    /// The number of tokens of a type that the current statement uses.
    spec fn spec_token_usages(&self, token_type: CostTokenType) -> usize;

    /// Provides the sizes of types.
    fn type_size(&self, ty: &ConcreteTypeId) -> (size: usize)
        ensures
            size == self.spec_type_size(*ty),
    ;

    /// Number of tokens provided by the libfunc invocation.
    fn token_usages(&self, token_type: CostTokenType) -> (usages: usize)
        ensures
            usages == self.spec_token_usages(token_type),
    ;
}

/// Tells the changes of `ap` what the gas analysis found: the sizes of types
/// as the program has them, and the uses of tokens as the gas variables of the
/// statement say.
pub struct GasApInfoProvider<'a, InfoProvider: InvocationCostInfoProvider> {
    pub info_provider: &'a InfoProvider,
    pub gas_info: &'a GasInfo,
    pub idx: StatementIdx,
}

impl<'a, InfoProvider: InvocationCostInfoProvider> InvocationApChangeInfoProvider for GasApInfoProvider<
    'a,
    InfoProvider,
> {
    open spec fn spec_type_size(&self, ty: ConcreteTypeId) -> usize {
        self.info_provider.spec_type_size(ty)
    }

    open spec fn spec_token_usages(&self, token_type: CostTokenType) -> usize {
        match self.gas_info.spec_variable_value(self.idx, token_type) {
            Some(value) => value as usize,
            None => 0,
        }
    }

    fn type_size(&self, ty: &ConcreteTypeId) -> (size: usize) {
        self.info_provider.type_size(ty)
    }

    fn token_usages(&self, token_type: CostTokenType) -> (usages: usize) {
        match self.gas_info.variable_value(self.idx, token_type) {
            Some(value) => {
                #[verifier::truncate]
                (value as usize)
            },
            None => 0,
        }
    }
}

/// The libfuncs, as far as their costs tell them apart.
#[derive(Debug, PartialEq, Eq)]
pub enum CoreConcreteLibfunc<'a> {
    /// The call of a function.
    FunctionCall(&'a Function),
    /// One invocation of the bitwise builtin.
    Bitwise,
    /// One invocation of the EC op builtin.
    EcOp,
    /// One invocation of the pedersen hash function.
    Pedersen,
    /// The alignment of a branch with its siblings.
    BranchAlign,
    /// The getting of gas for the builtins.
    BuiltinGetGas,
    /// Any other libfunc, with the number of its branches.
    Other { branch_count: usize },
}

/// The pre-cost of a token on a branch of a libfunc: the number of
/// invocations of the token's builtin. A call of a function costs what the
/// function costs. The alignment of a branch costs the amount that the
/// statement deducts. The getting of gas gives that amount back where it
/// succeeds. Only the tokens of builtins have a pre-cost.
pub open spec fn precost_form<O: CostOperations>(
    ops: O,
    libfunc: CoreConcreteLibfunc<'_>,
    branch: int,
    token: CostTokenType,
) -> LinearForm {
    match libfunc {
        CoreConcreteLibfunc::FunctionCall(function) => if token.is_precost() {
            ops.spec_function_cost(*function, token)
        } else {
            LinearForm::zero()
        },
        CoreConcreteLibfunc::Bitwise => if token == CostTokenType::Bitwise {
            LinearForm::from_const(1)
        } else {
            LinearForm::zero()
        },
        CoreConcreteLibfunc::EcOp => if token == CostTokenType::EcOp {
            LinearForm::from_const(1)
        } else {
            LinearForm::zero()
        },
        CoreConcreteLibfunc::Pedersen => if token == CostTokenType::Pedersen {
            LinearForm::from_const(1)
        } else {
            LinearForm::zero()
        },
        CoreConcreteLibfunc::BranchAlign => if token.is_precost() {
            ops.spec_statement_var(token)
        } else {
            LinearForm::zero()
        },
        CoreConcreteLibfunc::BuiltinGetGas => if branch == 0 && token.is_precost() {
            LinearForm::zero().sub(ops.spec_statement_var(token))
        } else {
            LinearForm::zero()
        },
        CoreConcreteLibfunc::Other { .. } => LinearForm::zero(),
    }
}

/// The number of branches of a libfunc.
pub open spec fn branch_count(libfunc: CoreConcreteLibfunc<'_>) -> int {
    match libfunc {
        CoreConcreteLibfunc::BuiltinGetGas => 2,
        CoreConcreteLibfunc::Other { branch_count } => branch_count as int,
        _ => 1,
    }
}

/// The amounts that the current statement deducts for the pre-cost tokens.
fn statement_vars_cost<O: CostOperations>(ops: &O) -> (res: O::CostType)
    ensures
        forall|token: CostTokenType|
            (#[trigger] O::cost_of(res, token)).same(
                if token.is_precost() {
                    ops.spec_statement_var(token)
                } else {
                    LinearForm::zero()
                },
            ),
{
    let pedersen = ops.statement_var_cost(CostTokenType::Pedersen);
    let bitwise = ops.statement_var_cost(CostTokenType::Bitwise);
    let ec_op = ops.statement_var_cost(CostTokenType::EcOp);
    let first = ops.add(pedersen, bitwise);
    let res = ops.add(first, ec_op);
    assert forall|token: CostTokenType| (#[trigger] O::cost_of(res, token)).same(
        if token.is_precost() {
            ops.spec_statement_var(token)
        } else {
            LinearForm::zero()
        },
    ) by {
        lemma_sum_of_three(
            O::cost_of(pedersen, token),
            O::cost_of(bitwise, token),
            O::cost_of(ec_op, token),
            O::cost_of(first, token),
            O::cost_of(res, token),
        );
    }
    res
}

/// What a function costs for the pre-cost tokens.
fn function_precost<O: CostOperations>(ops: &O, function: &Function) -> (res: O::CostType)
    ensures
        forall|token: CostTokenType|
            (#[trigger] O::cost_of(res, token)).same(
                if token.is_precost() {
                    ops.spec_function_cost(*function, token)
                } else {
                    LinearForm::zero()
                },
            ),
{
    let pedersen = ops.function_token_cost(function, CostTokenType::Pedersen);
    let bitwise = ops.function_token_cost(function, CostTokenType::Bitwise);
    let ec_op = ops.function_token_cost(function, CostTokenType::EcOp);
    let first = ops.add(pedersen, bitwise);
    let res = ops.add(first, ec_op);
    assert forall|token: CostTokenType| (#[trigger] O::cost_of(res, token)).same(
        if token.is_precost() {
            ops.spec_function_cost(*function, token)
        } else {
            LinearForm::zero()
        },
    ) by {
        lemma_sum_of_three(
            O::cost_of(pedersen, token),
            O::cost_of(bitwise, token),
            O::cost_of(ec_op, token),
            O::cost_of(first, token),
            O::cost_of(res, token),
        );
    }
    res
}

/// The sum of three forms of which at most one is not zero is that one.
proof fn lemma_sum_of_three(
    p: LinearForm,
    b: LinearForm,
    e: LinearForm,
    f: LinearForm,
    r: LinearForm,
)
    requires
        f.same(p.add(b)),
        r.same(f.add(e)),
    ensures
        b.same(LinearForm::zero()) && e.same(LinearForm::zero()) ==> r.same(p),
        p.same(LinearForm::zero()) && e.same(LinearForm::zero()) ==> r.same(b),
        p.same(LinearForm::zero()) && b.same(LinearForm::zero()) ==> r.same(e),
{
    assert forall|var: Var| r.coefficient(var) == p.coefficient(var) + b.coefficient(var)
        + e.coefficient(var) by {
    }
    if b.same(LinearForm::zero()) && e.same(LinearForm::zero()) {
        assert forall|var: Var| r.coefficient(var) == p.coefficient(var) by {
        }
    }
    if p.same(LinearForm::zero()) && e.same(LinearForm::zero()) {
        assert forall|var: Var| r.coefficient(var) == b.coefficient(var) by {
        }
    }
    if p.same(LinearForm::zero()) && b.same(LinearForm::zero()) {
        assert forall|var: Var| r.coefficient(var) == e.coefficient(var) by {
        }
    }
}

/// The vector of one cost.
fn one_cost<O: CostOperations>(cost: O::CostType) -> (res: Vec<O::CostType>)
    ensures
        res@ == seq![cost],
{
    let mut res: Vec<O::CostType> = Vec::new();
    res.push(cost);
    res
}

/// What `core_libfunc_precost` returns: one cost for each branch of the
/// libfunc, in which each token costs its pre-cost on the branch.
pub open spec fn is_precost<O: CostOperations>(
    ops: O,
    libfunc: CoreConcreteLibfunc<'_>,
    res: Seq<O::CostType>,
) -> bool {
    &&& res.len() == branch_count(libfunc)
    &&& forall|branch: int, token: CostTokenType|
        0 <= branch < res.len() ==> (#[trigger] O::cost_of(res[branch], token)).same(
            precost_form(ops, libfunc, branch, token),
        )
}

/// Returns the pre-costs of a libfunc, branch by branch.
pub fn core_libfunc_precost<O: CostOperations, InfoProvider: InvocationCostInfoProvider>(
    ops: &O,
    libfunc: &CoreConcreteLibfunc<'_>,
    info_provider: &InfoProvider,
) -> (res: Vec<O::CostType>)
    ensures
        is_precost(*ops, *libfunc, res@),
{
    match libfunc {
        CoreConcreteLibfunc::FunctionCall(function) => {
            let cost = function_precost(ops, function);
            one_cost::<O>(cost)
        },
        CoreConcreteLibfunc::Bitwise => {
            let cost = ops.const_cost_token(1, CostTokenType::Bitwise);
            one_cost::<O>(cost)
        },
        CoreConcreteLibfunc::EcOp => {
            let cost = ops.const_cost_token(1, CostTokenType::EcOp);
            one_cost::<O>(cost)
        },
        CoreConcreteLibfunc::Pedersen => {
            let cost = ops.const_cost_token(1, CostTokenType::Pedersen);
            one_cost::<O>(cost)
        },
        CoreConcreteLibfunc::BranchAlign => {
            let cost = statement_vars_cost(ops);
            one_cost::<O>(cost)
        },
        CoreConcreteLibfunc::BuiltinGetGas => {
            let zero = ops.const_cost(0);
            let vars = statement_vars_cost(ops);
            let success = ops.sub(zero, vars);
            let failure = ops.const_cost(0);
            let mut res: Vec<O::CostType> = Vec::new();
            res.push(success);
            res.push(failure);
            assert forall|branch: int, token: CostTokenType| 0 <= branch < res@.len() implies (
            #[trigger] O::cost_of(res@[branch], token)).same(
                precost_form(*ops, *libfunc, branch, token),
            ) by {
                if branch == 0 {
                    LinearForm::lemma_same_congruence(
                        O::cost_of(zero, token),
                        O::cost_of(vars, token),
                        LinearForm::zero(),
                        if token.is_precost() {
                            ops.spec_statement_var(token)
                        } else {
                            LinearForm::zero()
                        },
                    );
                }
            }
            res
        },
        CoreConcreteLibfunc::Other { branch_count } => {
            let mut res: Vec<O::CostType> = Vec::new();
            let mut i: usize = 0;
            while i < *branch_count
                invariant
                    i <= *branch_count,
                    res@.len() == i,
                    forall|branch: int, token: CostTokenType|
                        0 <= branch < res@.len() ==> (#[trigger] O::cost_of(
                            res@[branch],
                            token,
                        )).same(LinearForm::zero()),
                decreases *branch_count - i,
            {
                let cost = ops.const_cost(0);
                res.push(cost);
                i = i + 1;
            }
            res
        },
    }
}

/// Returns an expression for the gas cost for core libfuncs.
pub fn core_libfunc_precost_expr<F: StatementFutureCost, InfoProvider: InvocationCostInfoProvider>(
    statement_future_cost: &F,
    idx: &StatementIdx,
    libfunc: &CoreConcreteLibfunc<'_>,
    info_provider: &InfoProvider,
) -> (res: Vec<CostExprMap>)
    ensures
        is_precost(Ops { statement_future_cost, idx: *idx }, *libfunc, res@),
{
    let ops = Ops { statement_future_cost, idx: *idx };
    core_libfunc_precost(&ops, libfunc, info_provider)
}

/// The number of steps that it takes to add up what the uses of one builtin
/// cost: none where the builtin is not used, two where it is used once,
/// three where it is used more often.
pub open spec fn computation_steps(usages: usize) -> int {
    if usages == 0 {
        0
    } else if usages == 1 {
        2
    } else {
        3
    }
}

/// The number of steps that it takes to add up what the builtins cost that
/// the current statement gets gas for.
pub open spec fn cost_computation<A: InvocationApChangeInfoProvider>(ap_info: A) -> int {
    computation_steps(ap_info.spec_token_usages(CostTokenType::Pedersen)) + computation_steps(
        ap_info.spec_token_usages(CostTokenType::Bitwise),
    ) + computation_steps(ap_info.spec_token_usages(CostTokenType::EcOp))
}

fn steps_for(usages: usize) -> (steps: i32)
    ensures
        steps == computation_steps(usages),
{
    if usages == 0 {
        0
    } else if usages == 1 {
        2
    } else {
        3
    }
}

/// Returns the number of steps that it takes to add up what the builtins
/// cost that the current statement gets gas for.
pub fn cost_computation_max<A: InvocationApChangeInfoProvider>(ap_info: &A) -> (steps: i32)
    ensures
        steps == cost_computation(*ap_info),
{
    steps_for(ap_info.token_usages(CostTokenType::Pedersen)) + steps_for(
        ap_info.token_usages(CostTokenType::Bitwise),
    ) + steps_for(ap_info.token_usages(CostTokenType::EcOp))
}

/// The post-cost of a token on a branch of a libfunc: the steps, holes and
/// range checks that the libfunc causes. A call of a function takes two
/// steps and costs what the function costs. An invocation of the bitwise
/// builtin or of the pedersen hash takes two steps, one of the EC op builtin
/// five. The alignment of a branch costs the amount that the statement
/// deducts. The getting of gas for the builtins takes the steps of adding up
/// their costs and three more where it succeeds, less the amount that the
/// statement deducts, and five more where it fails. Any other libfunc is
/// taken to cost nothing. Only steps, holes and range checks have a
/// post-cost.
pub open spec fn postcost_form<O: CostOperations>(
    ops: O,
    libfunc: CoreConcreteLibfunc<'_>,
    computation: int,
    branch: int,
    token: CostTokenType,
) -> LinearForm {
    match libfunc {
        CoreConcreteLibfunc::FunctionCall(function) => if token == CostTokenType::Step {
            LinearForm::from_const(2).add(ops.spec_function_cost(*function, token))
        } else if token.is_postcost() {
            ops.spec_function_cost(*function, token)
        } else {
            LinearForm::zero()
        },
        CoreConcreteLibfunc::Bitwise | CoreConcreteLibfunc::Pedersen => if token
            == CostTokenType::Step {
            LinearForm::from_const(2)
        } else {
            LinearForm::zero()
        },
        CoreConcreteLibfunc::EcOp => if token == CostTokenType::Step {
            LinearForm::from_const(5)
        } else {
            LinearForm::zero()
        },
        CoreConcreteLibfunc::BranchAlign => if token.is_postcost() {
            ops.spec_statement_var(token)
        } else {
            LinearForm::zero()
        },
        CoreConcreteLibfunc::BuiltinGetGas => if token == CostTokenType::Step {
            if branch == 0 {
                LinearForm::from_const(computation + 3).sub(ops.spec_statement_var(token))
            } else {
                LinearForm::from_const(computation + 5)
            }
        } else {
            LinearForm::zero()
        },
        CoreConcreteLibfunc::Other { .. } => LinearForm::zero(),
    }
}

/// What `core_libfunc_postcost` returns: one cost for each branch of the
/// libfunc, in which each token costs its post-cost on the branch.
pub open spec fn is_postcost<O: CostOperations>(
    ops: O,
    libfunc: CoreConcreteLibfunc<'_>,
    computation: int,
    res: Seq<O::CostType>,
) -> bool {
    &&& res.len() == branch_count(libfunc)
    &&& forall|branch: int, token: CostTokenType|
        0 <= branch < res.len() ==> (#[trigger] O::cost_of(res[branch], token)).same(
            postcost_form(ops, libfunc, computation, branch, token),
        )
}

/// A sum or a difference of forms is the same as that of forms that are the
/// same as they are.
proof fn lemma_same_as(r: LinearForm, a: LinearForm, b: LinearForm, c: LinearForm, d: LinearForm)
    requires
        a.same(c),
        b.same(d),
    ensures
        r.same(a.add(b)) ==> r.same(c.add(d)),
        r.same(a.sub(b)) ==> r.same(c.sub(d)),
        r.same(a.add(b)) && c.same(LinearForm::zero()) ==> r.same(d),
        r.same(a.add(b)) && d.same(LinearForm::zero()) ==> r.same(c),
{
    LinearForm::lemma_same_congruence(a, b, c, d);
    assert forall|var: Var| a.add(b).coefficient(var) == c.add(d).coefficient(var) by {}
    assert forall|var: Var| a.sub(b).coefficient(var) == c.sub(d).coefficient(var) by {}
    assert forall|var: Var| c.add(d).coefficient(var) == c.coefficient(var) + d.coefficient(var) by {}
}

/// The amounts that the current statement deducts for the post-cost tokens.
fn statement_vars_postcost<O: CostOperations>(ops: &O) -> (res: O::CostType)
    ensures
        forall|token: CostTokenType|
            (#[trigger] O::cost_of(res, token)).same(
                if token.is_postcost() {
                    ops.spec_statement_var(token)
                } else {
                    LinearForm::zero()
                },
            ),
{
    let step = ops.statement_var_cost(CostTokenType::Step);
    let hole = ops.statement_var_cost(CostTokenType::Hole);
    let range_check = ops.statement_var_cost(CostTokenType::RangeCheck);
    let first = ops.add(step, hole);
    let res = ops.add(first, range_check);
    assert forall|token: CostTokenType| (#[trigger] O::cost_of(res, token)).same(
        if token.is_postcost() {
            ops.spec_statement_var(token)
        } else {
            LinearForm::zero()
        },
    ) by {
        lemma_sum_of_three(
            O::cost_of(step, token),
            O::cost_of(hole, token),
            O::cost_of(range_check, token),
            O::cost_of(first, token),
            O::cost_of(res, token),
        );
    }
    res
}

/// What a function costs for the post-cost tokens.
fn function_postcost<O: CostOperations>(ops: &O, function: &Function) -> (res: O::CostType)
    ensures
        forall|token: CostTokenType|
            (#[trigger] O::cost_of(res, token)).same(
                if token.is_postcost() {
                    ops.spec_function_cost(*function, token)
                } else {
                    LinearForm::zero()
                },
            ),
{
    let step = ops.function_token_cost(function, CostTokenType::Step);
    let hole = ops.function_token_cost(function, CostTokenType::Hole);
    let range_check = ops.function_token_cost(function, CostTokenType::RangeCheck);
    let first = ops.add(step, hole);
    let res = ops.add(first, range_check);
    assert forall|token: CostTokenType| (#[trigger] O::cost_of(res, token)).same(
        if token.is_postcost() {
            ops.spec_function_cost(*function, token)
        } else {
            LinearForm::zero()
        },
    ) by {
        lemma_sum_of_three(
            O::cost_of(step, token),
            O::cost_of(hole, token),
            O::cost_of(range_check, token),
            O::cost_of(first, token),
            O::cost_of(res, token),
        );
    }
    res
}

/// Returns the post-costs of a libfunc, branch by branch.
pub fn core_libfunc_postcost<
    O: CostOperations,
    InfoProvider: InvocationCostInfoProvider,
    ApInfo: InvocationApChangeInfoProvider,
>(ops: &O, libfunc: &CoreConcreteLibfunc<'_>, info_provider: &InfoProvider, ap_info: &ApInfo) -> (res:
    Vec<O::CostType>)
    ensures
        is_postcost(*ops, *libfunc, cost_computation(*ap_info), res@),
{
    let ghost computation = cost_computation(*ap_info);
    match libfunc {
        CoreConcreteLibfunc::FunctionCall(function) => {
            let call = ops.const_cost(2);
            let content = function_postcost(ops, function);
            let cost = ops.add(call, content);
            assert forall|token: CostTokenType| (#[trigger] O::cost_of(cost, token)).same(
                postcost_form(*ops, *libfunc, computation, 0, token),
            ) by {
                lemma_same_as(
                    O::cost_of(cost, token),
                    O::cost_of(call, token),
                    O::cost_of(content, token),
                    if token == CostTokenType::Step {
                        LinearForm::from_const(2)
                    } else {
                        LinearForm::zero()
                    },
                    if token.is_postcost() {
                        ops.spec_function_cost(**function, token)
                    } else {
                        LinearForm::zero()
                    },
                );
            }
            one_cost::<O>(cost)
        },
        CoreConcreteLibfunc::Bitwise | CoreConcreteLibfunc::Pedersen => {
            let cost = ops.const_cost(2);
            one_cost::<O>(cost)
        },
        CoreConcreteLibfunc::EcOp => {
            let cost = ops.const_cost(5);
            one_cost::<O>(cost)
        },
        CoreConcreteLibfunc::BranchAlign => {
            let cost = statement_vars_postcost(ops);
            one_cost::<O>(cost)
        },
        CoreConcreteLibfunc::BuiltinGetGas => {
            let steps = cost_computation_max(ap_info);
            let taken = ops.const_cost(steps + 3);
            let deducted = ops.statement_var_cost(CostTokenType::Step);
            let success = ops.sub(taken, deducted);
            let failure = ops.const_cost(steps + 5);
            let mut res: Vec<O::CostType> = Vec::new();
            res.push(success);
            res.push(failure);
            assert forall|branch: int, token: CostTokenType| 0 <= branch < res@.len() implies (
            #[trigger] O::cost_of(res@[branch], token)).same(
                postcost_form(*ops, *libfunc, computation, branch, token),
            ) by {
                if branch == 0 {
                    lemma_same_as(
                        O::cost_of(success, token),
                        O::cost_of(taken, token),
                        O::cost_of(deducted, token),
                        if token == CostTokenType::Step {
                            LinearForm::from_const(computation + 3)
                        } else {
                            LinearForm::zero()
                        },
                        if token == CostTokenType::Step {
                            ops.spec_statement_var(token)
                        } else {
                            LinearForm::zero()
                        },
                    );
                }
            }
            res
        },
        CoreConcreteLibfunc::Other { branch_count } => {
            let mut res: Vec<O::CostType> = Vec::new();
            let mut i: usize = 0;
            while i < *branch_count
                invariant
                    i <= *branch_count,
                    res@.len() == i,
                    forall|branch: int, token: CostTokenType|
                        0 <= branch < res@.len() ==> (#[trigger] O::cost_of(
                            res@[branch],
                            token,
                        )).same(LinearForm::zero()),
                decreases *branch_count - i,
            {
                let cost = ops.const_cost(0);
                res.push(cost);
                i = i + 1;
            }
            res
        },
    }
}

/// Returns an expression for the post-cost of core libfuncs, given what the
/// pre-costs were found to be.
pub fn core_libfunc_postcost_expr<F: StatementFutureCost, InfoProvider: InvocationCostInfoProvider>(
    statement_future_cost: &F,
    idx: &StatementIdx,
    libfunc: &CoreConcreteLibfunc<'_>,
    info_provider: &InfoProvider,
    precost_gas_info: &GasInfo,
) -> (res: Vec<CostExprMap>)
    ensures
        is_postcost(
            Ops { statement_future_cost, idx: *idx },
            *libfunc,
            cost_computation(
                GasApInfoProvider { info_provider, gas_info: precost_gas_info, idx: *idx },
            ),
            res@,
        ),
{
    let ops = Ops { statement_future_cost, idx: *idx };
    let ap_info = GasApInfoProvider { info_provider, gas_info: precost_gas_info, idx: *idx };
    core_libfunc_postcost(&ops, libfunc, info_provider, &ap_info)
}

impl InvocationCostInfoProvider for ProgramRegistry {
    /// The number of cells that the program declares for the type; zero for
    /// a type that it does not declare.
    open spec fn spec_type_size(&self, ty: ConcreteTypeId) -> usize {
        match self.spec_get_type(ty.id) {
            Some(info) => if info.size >= 0 {
                info.size as usize
            } else {
                0
            },
            None => 0,
        }
    }

    fn type_size(&self, ty: &ConcreteTypeId) -> (size: usize) {
        match self.get_type(ty) {
            Ok(info) => info.size as usize,
            Err(_) => 0,
        }
    }
}

} // verus!
