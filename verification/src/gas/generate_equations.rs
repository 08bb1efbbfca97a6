//! The equations of the gas analysis: for every statement and every branch
//! that it may take, the future cost of the statement is the cost of the
//! libfunc on that branch and the future cost of the statement that the
//! branch goes on to. A return has the future cost zero.
//!
//! The analysis has two passes. The first knows no gas costs and deals with
//! the pre-cost tokens. The second knows the pre-costs that the first found
//! and deals with the post-cost tokens. A pass is told apart by the pre-costs
//! that it knows: none, or those of the first pass.

use vstd::prelude::*;
use crate::cost_token::CostTokenType;
use crate::gas::core_libfunc_cost_expr::{
    branch_count,
    core_libfunc_postcost_expr,
    core_libfunc_precost_expr,
    cost_at,
    cost_computation,
    postcost_form,
    precost_form,
    sub_maps,
    CoreConcreteLibfunc,
    CostExprMap,
    CostOperations,
    FutureCostVariables,
    GasApInfoProvider,
    Ops,
    StatementFutureCost,
};
use crate::gas::cost_expr::{LinearForm, Var};
use crate::metadata::{CostError, GasInfo};
use crate::sierra::ids::StatementIdx;
use crate::sierra::program::{
    BranchTarget,
    GenericArg,
    Invocation,
    LibFuncDeclaration,
    Program,
    Statement,
};
use crate::sierra::registry::ProgramRegistry;
use crate::token_map::TokenMap;

verus! {

/// The equations of one statement: for each of its branches, and for each
/// token of the pass, an expression that a solution makes zero.
#[derive(Debug, PartialEq, Eq)]
pub struct StatementEquations {
    pub statement: StatementIdx,
    pub branches: Vec<CostExprMap>,
}

/// Whether `libfunc` is what the declaration declares, as far as the costs
/// tell libfuncs apart. The call of a function names the function in
/// its first generic argument.
pub open spec fn is_classified(
    registry: ProgramRegistry,
    decl: LibFuncDeclaration,
    branches: usize,
    libfunc: CoreConcreteLibfunc<'_>,
) -> bool {
    let name = decl.long_id.generic_id.name@;
    if name == "function_call"@ {
        libfunc matches CoreConcreteLibfunc::FunctionCall(function)
            && decl.long_id.generic_args@.len() > 0 && (
        decl.long_id.generic_args@[0] matches GenericArg::UserFunc(id)
            && registry.spec_get_function(id.id) == Some(*function))
    } else if name == "bitwise"@ {
        libfunc == CoreConcreteLibfunc::Bitwise
    } else if name == "ec_op"@ {
        libfunc == CoreConcreteLibfunc::EcOp
    } else if name == "pedersen"@ {
        libfunc == CoreConcreteLibfunc::Pedersen
    } else if name == "branch_align"@ {
        libfunc == CoreConcreteLibfunc::BranchAlign
    } else if name == "get_gas_all"@ {
        libfunc == CoreConcreteLibfunc::BuiltinGetGas
    } else {
        libfunc == (CoreConcreteLibfunc::Other { branch_count: branches })
    }
}

/// Whether the declaration declares the call of a function that it does not
/// name, or that the program does not have.
pub open spec fn calls_no_function(registry: ProgramRegistry, decl: LibFuncDeclaration) -> bool {
    decl.long_id.generic_id.name@ == "function_call"@ && (decl.long_id.generic_args@.len() == 0
        || match decl.long_id.generic_args@[0] {
        GenericArg::UserFunc(id) => registry.spec_get_function(id.id) is None,
        _ => true,
    })
}

/// The number of branches of the libfunc that a declaration declares, where
/// its invocation has `branches`.
pub open spec fn declared_branches(decl: LibFuncDeclaration, branches: usize) -> int {
    let name = decl.long_id.generic_id.name@;
    if name == "function_call"@ || name == "bitwise"@ || name == "ec_op"@ || name == "pedersen"@
        || name == "branch_align"@ {
        1
    } else if name == "get_gas_all"@ {
        2
    } else {
        branches as int
    }
}

/// Tells what a declaration declares.
pub fn classify<'a>(registry: &'a ProgramRegistry, decl: &LibFuncDeclaration, branches: usize) -> (res:
    Result<CoreConcreteLibfunc<'a>, CostError>)
    ensures
        match res {
            Ok(libfunc) => is_classified(*registry, *decl, branches, libfunc)
                && !calls_no_function(*registry, *decl)
                && crate::gas::core_libfunc_cost_expr::branch_count(libfunc) == declared_branches(
                *decl,
                branches,
            ),
            Err(error) => calls_no_function(*registry, *decl) && error
                == CostError::ProgramRegistryError,
        },
{
    let name = &decl.long_id.generic_id.name;
    if *name == "function_call".to_owned() {
        if decl.long_id.generic_args.len() == 0 {
            return Err(CostError::ProgramRegistryError);
        }
        match &decl.long_id.generic_args[0] {
            GenericArg::UserFunc(id) => match registry.get_function(id) {
                Ok(function) => Ok(CoreConcreteLibfunc::FunctionCall(function)),
                Err(_) => Err(CostError::ProgramRegistryError),
            },
            _ => Err(CostError::ProgramRegistryError),
        }
    } else if *name == "bitwise".to_owned() {
        Ok(CoreConcreteLibfunc::Bitwise)
    } else if *name == "ec_op".to_owned() {
        Ok(CoreConcreteLibfunc::EcOp)
    } else if *name == "pedersen".to_owned() {
        Ok(CoreConcreteLibfunc::Pedersen)
    } else if *name == "branch_align".to_owned() {
        Ok(CoreConcreteLibfunc::BranchAlign)
    } else if *name == "get_gas_all".to_owned() {
        Ok(CoreConcreteLibfunc::BuiltinGetGas)
    } else {
        Ok(CoreConcreteLibfunc::Other { branch_count: branches })
    }
}

/// The statement that a branch of the statement `idx` goes on to.
pub open spec fn next_statement(idx: int, target: BranchTarget) -> int {
    match target {
        BranchTarget::Fallthrough => idx + 1,
        BranchTarget::Statement(next) => next.0 as int,
    }
}

/// The future cost of a statement for a token, as long as it is not known: a
/// variable of its own.
pub open spec fn future_form(idx: int, token: CostTokenType) -> LinearForm {
    LinearForm::from_var(Var::StatementFuture(StatementIdx(idx as usize), token))
}

/// Whether a pass deals with a token: the first pass with the pre-cost
/// tokens, the second with the post-cost tokens.
pub open spec fn covers(precost: Option<&GasInfo>, token: CostTokenType) -> bool {
    match precost {
        None => token.is_precost(),
        Some(_) => token.is_postcost(),
    }
}

/// The cost of a token on a branch of the libfunc of the statement `idx` in a
/// pass: its pre-cost in the first pass, its post-cost in the second.
pub open spec fn libfunc_form(
    precost: Option<&GasInfo>,
    registry: ProgramRegistry,
    future: FutureCostVariables,
    idx: int,
    libfunc: CoreConcreteLibfunc<'_>,
    branch: int,
    token: CostTokenType,
) -> LinearForm {
    let ops = Ops { statement_future_cost: &future, idx: StatementIdx(idx as usize) };
    match precost {
        None => precost_form(ops, libfunc, branch, token),
        Some(gas_info) => postcost_form(
            ops,
            libfunc,
            cost_computation(
                GasApInfoProvider {
                    info_provider: &registry,
                    gas_info,
                    idx: StatementIdx(idx as usize),
                },
            ),
            branch,
            token,
        ),
    }
}

/// The costs of the libfunc of the statement `idx` in a pass, branch by
/// branch.
fn libfunc_costs(
    precost: Option<&GasInfo>,
    registry: &ProgramRegistry,
    future: &FutureCostVariables,
    idx: usize,
    libfunc: &CoreConcreteLibfunc<'_>,
) -> (res: Vec<CostExprMap>)
    ensures
        res@.len() == branch_count(*libfunc),
        forall|branch: int, token: CostTokenType|
            0 <= branch < res@.len() ==> (#[trigger] cost_at(res@[branch], token)).same(
                libfunc_form(precost, *registry, *future, idx as int, *libfunc, branch, token),
            ),
{
    let res = match precost {
        None => core_libfunc_precost_expr(future, &StatementIdx(idx), libfunc, registry),
        Some(gas_info) => core_libfunc_postcost_expr(
            future,
            &StatementIdx(idx),
            libfunc,
            registry,
            gas_info,
        ),
    };
    assert forall|branch: int, token: CostTokenType| 0 <= branch < res@.len() implies (
    #[trigger] cost_at(res@[branch], token)).same(
        libfunc_form(precost, *registry, *future, idx as int, *libfunc, branch, token),
    ) by {
        assert(Ops::<FutureCostVariables>::cost_of(res@[branch], token) == cost_at(
            res@[branch],
            token,
        ));
    }
    res
}

/// Whether a map holds the equation `form` for a token of the pass, and
/// nothing for any other token.
pub open spec fn equation_at(
    precost: Option<&GasInfo>,
    map: CostExprMap,
    token: CostTokenType,
    form: LinearForm,
) -> bool {
    if covers(precost, token) {
        map.spec_get(token) is Some && cost_at(map, token).same(form)
    } else {
        map.spec_get(token) is None
    }
}

/// The place of the first of the first `n` branches that goes on to a
/// statement outside the program.
pub open spec fn first_outside(invocation: Invocation, idx: int, statements: int, n: int) -> Option<
    int,
>
    decreases n,
{
    if n <= 0 {
        None
    } else {
        match first_outside(invocation, idx, statements, n - 1) {
            Some(found) => Some(found),
            None => if next_statement(idx, invocation.branches@[n - 1].target) >= statements {
                Some(n - 1)
            } else {
                None
            },
        }
    }
}

/// Why the equations of a statement cannot be written down, if they cannot:
/// its libfunc is not declared, or calls a function that the program does not
/// have; its invocation has another number of branches than its libfunc; or one
/// of its branches goes on to a statement outside the program.
pub open spec fn statement_error(program: Program, registry: ProgramRegistry, idx: int) -> Option<
    CostError,
> {
    match program.statements@[idx] {
        Statement::Return(_) => None,
        Statement::Invocation(invocation) => match registry.spec_get_libfunc(
            invocation.libfunc_id.id,
        ) {
            None => Some(CostError::ProgramRegistryError),
            Some(decl) => if calls_no_function(registry, decl) {
                Some(CostError::ProgramRegistryError)
            } else if declared_branches(decl, invocation.branches@.len() as usize)
                != invocation.branches@.len() {
                Some(CostError::IllegalInvocation(StatementIdx(idx as usize)))
            } else {
                match first_outside(
                    invocation,
                    idx,
                    program.statements@.len() as int,
                    invocation.branches@.len() as int,
                ) {
                    Some(branch) => Some(
                        CostError::StatementOutOfBounds(
                            StatementIdx(
                                next_statement(idx, invocation.branches@[branch].target) as usize,
                            ),
                        ),
                    ),
                    None => None,
                }
            },
        },
    }
}

/// Whether `equations` are the equations of the statement `idx` in a pass. A
/// return has one equation for each token of the pass: its future cost is
/// zero. An invocation has one for each branch and token of the pass: its
/// future cost less the cost of its libfunc on the branch less the future cost
/// of the statement that the branch goes on to is zero.
pub open spec fn is_equations_of(
    precost: Option<&GasInfo>,
    program: Program,
    registry: ProgramRegistry,
    future: FutureCostVariables,
    idx: int,
    equations: StatementEquations,
) -> bool {
    &&& equations.statement == StatementIdx(idx as usize)
    &&& match program.statements@[idx] {
        Statement::Return(_) => equations.branches@.len() == 1 && forall|token: CostTokenType|
            #[trigger] equation_at(precost, equations.branches@[0], token, future_form(idx, token)),
        Statement::Invocation(invocation) => registry.spec_get_libfunc(
            invocation.libfunc_id.id,
        ) matches Some(decl) && exists|libfunc: CoreConcreteLibfunc<'_>|
            #![trigger is_classified(
                registry,
                decl,
                invocation.branches@.len() as usize,
                libfunc,
            )]
            is_classified(registry, decl, invocation.branches@.len() as usize, libfunc)
                && equations.branches@.len() == invocation.branches@.len() && forall|
                branch: int,
                token: CostTokenType,
            |
                0 <= branch < invocation.branches@.len() ==> #[trigger] equation_at(
                    precost,
                    equations.branches@[branch],
                    token,
                    future_form(idx, token).sub(
                        libfunc_form(precost, registry, future, idx, libfunc, branch, token),
                    ).sub(future_form(next_statement(idx, invocation.branches@[branch].target), token)),
                ),
    }
}

/// The expressions of a map for the tokens of a pass.
fn keep_covered(precost: Option<&GasInfo>, map: CostExprMap) -> (res: CostExprMap)
    ensures
        forall|token: CostTokenType|
            if covers(precost, token) {
                res.spec_get(token) == map.spec_get(token)
            } else {
                res.spec_get(token) is None
            },
{
    match precost {
        None => TokenMap {
            const_cost: None,
            step: None,
            hole: None,
            range_check: None,
            pedersen: map.pedersen,
            bitwise: map.bitwise,
            ec_op: map.ec_op,
        },
        Some(_) => TokenMap {
            const_cost: None,
            step: map.step,
            hole: map.hole,
            range_check: map.range_check,
            pedersen: None,
            bitwise: None,
            ec_op: None,
        },
    }
}

/// The difference of three forms is the same as the difference of forms
/// that are the same.
proof fn lemma_equation(
    a: LinearForm,
    b: LinearForm,
    c: LinearForm,
    x: LinearForm,
    y: LinearForm,
    z: LinearForm,
    first: LinearForm,
    second: LinearForm,
)
    requires
        first.same(a.sub(b)),
        second.same(first.sub(c)),
        a.same(x),
        b.same(y),
        c.same(z),
    ensures
        second.same(x.sub(y).sub(z)),
{
    LinearForm::lemma_same_congruence(a, b, x, y);
    LinearForm::lemma_same_congruence(first, c, x.sub(y), z);
}

/// The equation of one branch: the future cost of the statement less the
/// cost of the branch less the future cost of the next statement, for the
/// tokens of the pass.
fn branch_equation(
    precost: Option<&GasInfo>,
    future: &FutureCostVariables,
    idx: usize,
    cost: CostExprMap,
    next: usize,
    Ghost(forms): Ghost<spec_fn(CostTokenType) -> LinearForm>,
) -> (res: CostExprMap)
    requires
        forall|token: CostTokenType| cost_at(cost, token).same(#[trigger] forms(token)),
    ensures
        forall|token: CostTokenType|
            #[trigger] equation_at(
                precost,
                res,
                token,
                future_form(idx as int, token).sub(forms(token)).sub(
                    future_form(next as int, token),
                ),
            ),
{
    let here = future.get_future_cost(&StatementIdx(idx));
    let there = future.get_future_cost(&StatementIdx(next));
    let first = sub_maps(here, cost);
    let second = sub_maps(first, there);
    let res = keep_covered(precost, second);
    assert forall|token: CostTokenType| #[trigger]
        equation_at(
            precost,
            res,
            token,
            future_form(idx as int, token).sub(forms(token)).sub(future_form(next as int, token)),
        ) by {
        assert(cost_at(here, token).same(future.spec_future_cost(StatementIdx(idx), token)));
        assert(cost_at(there, token).same(future.spec_future_cost(StatementIdx(next), token)));
        assert(cost_at(there, token).coefficient(Var::StatementFuture(StatementIdx(next), token))
            == 1);
        if covers(precost, token) {
            lemma_equation(
                cost_at(here, token),
                cost_at(cost, token),
                cost_at(there, token),
                future_form(idx as int, token),
                forms(token),
                future_form(next as int, token),
                cost_at(first, token),
                cost_at(second, token),
            );
        }
    }
    res
}

/// The equation of a return: its future cost, for the tokens of the pass.
fn return_equation(precost: Option<&GasInfo>, future: &FutureCostVariables, idx: usize) -> (res:
    CostExprMap)
    ensures
        forall|token: CostTokenType| #[trigger]
            equation_at(precost, res, token, future_form(idx as int, token)),
{
    let here = future.get_future_cost(&StatementIdx(idx));
    let res = keep_covered(precost, here);
    assert forall|token: CostTokenType| #[trigger]
        equation_at(precost, res, token, future_form(idx as int, token)) by {
        assert(cost_at(here, token).same(future.spec_future_cost(StatementIdx(idx), token)));
        assert(cost_at(here, token).coefficient(Var::StatementFuture(StatementIdx(idx), token))
            == 1);
    }
    res
}

/// The statement that a branch of the statement `idx` goes on to.
fn next_of(idx: usize, target: BranchTarget) -> (next: usize)
    requires
        idx < usize::MAX,
    ensures
        next == next_statement(idx as int, target),
{
    match target {
        BranchTarget::Fallthrough => idx + 1,
        BranchTarget::Statement(next) => next.0,
    }
}

/// Writes down the equations of the statement `idx` of the registry's
/// program in a pass.
fn statement_equations(
    precost: Option<&GasInfo>,
    registry: &ProgramRegistry,
    future: &FutureCostVariables,
    idx: usize,
) -> (res: Result<StatementEquations, CostError>)
    requires
        idx < registry.spec_program().statements@.len(),
    ensures
        match res {
            Ok(equations) => statement_error(registry.spec_program(), *registry, idx as int)
                is None && is_equations_of(
                precost,
                registry.spec_program(),
                *registry,
                *future,
                idx as int,
                equations,
            ),
            Err(error) => statement_error(registry.spec_program(), *registry, idx as int) == Some(
                error,
            ),
        },
{
    let program = registry.program();
    let count = program.statements.len();
    match &program.statements[idx] {
        Statement::Return(_) => {
            let mut branches: Vec<CostExprMap> = Vec::new();
            branches.push(return_equation(precost, future, idx));
            Ok(StatementEquations { statement: StatementIdx(idx), branches })
        },
        Statement::Invocation(invocation) => {
            let decl = match registry.get_libfunc(&invocation.libfunc_id) {
                Ok(decl) => decl,
                Err(_) => {
                    return Err(CostError::ProgramRegistryError);
                },
            };
            let n = invocation.branches.len();
            let libfunc = match classify(registry, decl, n) {
                Ok(libfunc) => libfunc,
                Err(error) => {
                    return Err(error);
                },
            };
            let mut costs = libfunc_costs(precost, registry, future, idx, &libfunc);
            if costs.len() != n {
                return Err(CostError::IllegalInvocation(StatementIdx(idx)));
            }
            let mut b: usize = 0;
            while b < n
                invariant
                    b <= n,
                    n == invocation.branches@.len(),
                    idx < count,
                    count == registry.spec_program().statements@.len(),
                    registry.spec_program().statements@[idx as int] == Statement::Invocation(
                        *invocation,
                    ),
                    registry.spec_get_libfunc(invocation.libfunc_id.id) == Some(*decl),
                    !calls_no_function(*registry, *decl),
                    declared_branches(*decl, n) == n,
                    first_outside(*invocation, idx as int, count as int, b as int) is None,
                decreases n - b,
            {
                let next = next_of(idx, invocation.branches[b].target);
                if next >= count {
                    proof {
                        lemma_first_outside(*invocation, idx as int, count as int, b as int, n as int);
                    }
                    return Err(CostError::StatementOutOfBounds(StatementIdx(next)));
                }
                b = b + 1;
            }
            let ghost all_costs = costs@;
            // The equations, from the last branch to the first.
            let mut reversed: Vec<CostExprMap> = Vec::new();
            let mut left: usize = n;
            while left > 0
                invariant
                    left <= n,
                    n == invocation.branches@.len(),
                    all_costs.len() == n,
                    idx < count,
                    costs@ == all_costs.take(left as int),
                    reversed@.len() == n - left,
                    forall|branch: int, token: CostTokenType|
                        0 <= branch < all_costs.len() ==> (#[trigger] cost_at(
                            all_costs[branch],
                            token,
                        )).same(
                            libfunc_form(
                                precost,
                                *registry,
                                *future,
                                idx as int,
                                libfunc,
                                branch,
                                token,
                            ),
                        ),
                    forall|k: int, token: CostTokenType|
                        0 <= k < reversed@.len() ==> #[trigger] equation_at(
                            precost,
                            reversed@[k],
                            token,
                            future_form(idx as int, token).sub(
                                libfunc_form(precost, *registry, *future, idx as int, libfunc, n - 1 - k, token),
                            ).sub(
                                future_form(
                                    next_statement(
                                        idx as int,
                                        invocation.branches@[n - 1 - k].target,
                                    ),
                                    token,
                                ),
                            ),
                        ),
                decreases left,
            {
                left = left - 1;
                let cost = costs.pop().unwrap();
                let next = next_of(idx, invocation.branches[left].target);
                let ghost forms = |token: CostTokenType|
                    libfunc_form(precost, *registry, *future, idx as int, libfunc, left as int, token);
                assert forall|token: CostTokenType| cost_at(cost, token).same(
                    #[trigger] forms(token),
                ) by {
                    assert(cost_at(all_costs[left as int], token).same(
                        libfunc_form(
                            precost,
                            *registry,
                            *future,
                            idx as int,
                            libfunc,
                            left as int,
                            token,
                        ),
                    ));
                }
                let equation = branch_equation(precost, future, idx, cost, next, Ghost(forms));
                assert forall|token: CostTokenType| #[trigger]
                    equation_at(
                        precost,
                        equation,
                        token,
                        future_form(idx as int, token).sub(
                            libfunc_form(precost, *registry, *future, idx as int, libfunc, left as int, token),
                        ).sub(future_form(next as int, token)),
                    ) by {
                    assert(equation_at(
                        precost,
                        equation,
                        token,
                        future_form(idx as int, token).sub(forms(token)).sub(
                            future_form(next as int, token),
                        ),
                    ));
                }
                reversed.push(equation);
            }
            let ghost all_reversed = reversed@;
            let mut branches: Vec<CostExprMap> = Vec::new();
            let mut rest: usize = n;
            while rest > 0
                invariant
                    rest <= n,
                    all_reversed.len() == n,
                    reversed@ == all_reversed.take(rest as int),
                    branches@.len() == n - rest,
                    forall|k: int| 0 <= k < branches@.len() ==> branches@[k] == all_reversed[n - 1 - k],
                decreases rest,
            {
                rest = rest - 1;
                let equation = reversed.pop().unwrap();
                branches.push(equation);
            }
            let equations = StatementEquations { statement: StatementIdx(idx), branches };
            proof {
                assert forall|branch: int, token: CostTokenType|
                    0 <= branch < n implies #[trigger] equation_at(
                    precost,
                    equations.branches@[branch],
                    token,
                    future_form(idx as int, token).sub(
                        libfunc_form(precost, *registry, *future, idx as int, libfunc, branch, token),
                    ).sub(
                        future_form(
                            next_statement(idx as int, invocation.branches@[branch].target),
                            token,
                        ),
                    ),
                ) by {
                    assert(equation_at(
                        precost,
                        all_reversed[n - 1 - branch],
                        token,
                        future_form(idx as int, token).sub(
                            libfunc_form(precost, *registry, *future, idx as int, libfunc, n - 1 - (n - 1 - branch), token),
                        ).sub(
                            future_form(
                                next_statement(
                                    idx as int,
                                    invocation.branches@[n - 1 - (n - 1 - branch)].target,
                                ),
                                token,
                            ),
                        ),
                    ));
                }
            }
            Ok(equations)
        },
    }
}

/// A branch that goes on to a statement outside the program, before which
/// no branch does, is the first that does among any number of branches beyond
/// it.
proof fn lemma_first_outside(invocation: Invocation, idx: int, statements: int, b: int, n: int)
    requires
        0 <= b < n,
        first_outside(invocation, idx, statements, b) is None,
        next_statement(idx, invocation.branches@[b].target) >= statements,
    ensures
        first_outside(invocation, idx, statements, n) == Some(b),
    decreases n,
{
    if n > b + 1 {
        lemma_first_outside(invocation, idx, statements, b, n - 1);
    }
}

/// What the writing down of the equations of a program in a pass returns:
/// the equations of each of its statements, in their order, or the error of
/// the first statement whose equations cannot be written down.
pub open spec fn equations_post(
    precost: Option<&GasInfo>,
    registry: &ProgramRegistry,
    future: &FutureCostVariables,
    res: Result<Vec<StatementEquations>, CostError>,
) -> bool {
        match res {
            Ok(equations) => equations@.len() == registry.spec_program().statements@.len()
                && forall|idx: int|
                0 <= idx < equations@.len() ==> statement_error(
                    registry.spec_program(),
                    *registry,
                    idx,
                ) is None && is_equations_of(
                    precost,
                    registry.spec_program(),
                    *registry,
                    *future,
                    idx,
                    #[trigger] equations@[idx],
                ),
            Err(error) => exists|idx: int|
                0 <= idx < registry.spec_program().statements@.len() && #[trigger] statement_error(
                    registry.spec_program(),
                    *registry,
                    idx,
                ) == Some(error) && forall|k: int|
                    0 <= k < idx ==> (#[trigger] statement_error(
                        registry.spec_program(),
                        *registry,
                        k,
                    )) is None,
        }
}

/// Writes down the equations of the registry's program for the pre-cost
/// tokens: those of each of its statements, in their order. The error is that
/// of the first statement whose equations cannot be written down.
pub fn generate_equations(registry: &ProgramRegistry, future: &FutureCostVariables) -> (res: Result<
    Vec<StatementEquations>,
    CostError,
>)
    ensures
        equations_post(None, registry, future, res),
{
    equations_of_pass(None, registry, future)
}

/// Writes down the equations of the registry's program for the post-cost
/// tokens, given the pre-costs that were found: those of each of its
/// statements, in their order. The error is that of the first statement whose
/// equations cannot be written down.
pub fn generate_postcost_equations(
    registry: &ProgramRegistry,
    future: &FutureCostVariables,
    precost_gas_info: &GasInfo,
) -> (res: Result<Vec<StatementEquations>, CostError>)
    ensures
        equations_post(Some(precost_gas_info), registry, future, res),
{
    equations_of_pass(Some(precost_gas_info), registry, future)
}

fn equations_of_pass(
    precost: Option<&GasInfo>,
    registry: &ProgramRegistry,
    future: &FutureCostVariables,
) -> (res: Result<Vec<StatementEquations>, CostError>)
    ensures
        equations_post(precost, registry, future, res),
{
    let count = registry.program().statements.len();
    let mut equations: Vec<StatementEquations> = Vec::new();
    let mut idx: usize = 0;
    while idx < count
        invariant
            idx <= count,
            count == registry.spec_program().statements@.len(),
            equations@.len() == idx,
            forall|k: int|
                0 <= k < idx ==> (#[trigger] statement_error(
                    registry.spec_program(),
                    *registry,
                    k,
                )) is None,
            forall|k: int|
                0 <= k < idx ==> is_equations_of(
                    precost,
                    registry.spec_program(),
                    *registry,
                    *future,
                    k,
                    #[trigger] equations@[k],
                ),
        decreases count - idx,
    {
        match statement_equations(precost, registry, future, idx) {
            Ok(statement) => {
                equations.push(statement);
            },
            Err(error) => {
                return Err(error);
            },
        }
        idx = idx + 1;
    }
    Ok(equations)
}

} // verus!
