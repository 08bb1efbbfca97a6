use cairo_core::cost_token::CostTokenType;
use cairo_core::gas::core_libfunc_cost_expr::{CostExprMap, FutureCostVariables};
use cairo_core::gas::cost_expr::{CostExpr, Var};
use cairo_core::gas::generate_equations::{
    classify, generate_equations, generate_postcost_equations,
};
use cairo_core::gas::solution::{
    calc_gas_postcost_info, calc_gas_precost_info, calc_metadata, check_solution, gas_info_of,
    Assignment, VariableValue,
};
use cairo_core::metadata::{ApChangeError, ApChangeInfo, MetadataError, StatementApChange};
use cairo_core::gas::core_libfunc_cost_expr::CoreConcreteLibfunc;
use cairo_core::metadata::CostError;
use cairo_core::sierra::ids::{
    ConcreteLibFuncId, FunctionId, GenericLibFuncId, StatementIdx, VarId,
};
use cairo_core::sierra::program::{
    BranchInfo, BranchTarget, ConcreteLibFuncLongId, Function, FunctionSignature, GenericArg,
    Invocation, LibFuncDeclaration, Program, Statement,
};
use cairo_core::sierra::registry::ProgramRegistry;

const GET_GAS: u64 = 0;
const PEDERSEN: u64 = 1;
const CALL_MAIN: u64 = 2;
const FELT_ADD: u64 = 3;
const CALL_NOTHING: u64 = 4;

fn solution_libfunc(id: u64, generic: &str, args: Vec<GenericArg>) -> LibFuncDeclaration {
    LibFuncDeclaration {
        id: ConcreteLibFuncId { id, debug_name: None },
        long_id: ConcreteLibFuncLongId {
            generic_id: GenericLibFuncId { name: generic.to_string() },
            generic_args: args,
        },
    }
}

fn invoke(libfunc: u64, targets: &[BranchTarget]) -> Statement {
    Statement::Invocation(Invocation {
        libfunc_id: ConcreteLibFuncId { id: libfunc, debug_name: None },
        args: vec![],
        branches: targets
            .iter()
            .map(|target| BranchInfo { target: *target, results: vec![] })
            .collect(),
    })
}

fn returning() -> Statement {
    Statement::Return(Vec::<VarId>::new())
}

fn solution_registry(statements: Vec<Statement>) -> ProgramRegistry {
    let main = FunctionId { id: 0, debug_name: Some("main".to_string()) };
    ProgramRegistry::new(Program {
        type_declarations: vec![],
        libfunc_declarations: vec![
            solution_libfunc(GET_GAS, "get_gas_all", vec![]),
            solution_libfunc(PEDERSEN, "pedersen", vec![]),
            solution_libfunc(CALL_MAIN, "function_call", vec![GenericArg::UserFunc(main.clone())]),
            solution_libfunc(FELT_ADD, "felt_add", vec![]),
            solution_libfunc(
                CALL_NOTHING,
                "function_call",
                vec![GenericArg::UserFunc(FunctionId { id: 9, debug_name: None })],
            ),
        ],
        statements,
        funcs: vec![Function {
            id: main,
            signature: FunctionSignature { param_types: vec![], ret_types: vec![] },
            params: vec![],
            entry_point: StatementIdx(0),
        }],
    })
    .unwrap()
}

/// A function that gets gas for a hash, hashes and returns; without gas it returns at once.
fn hashing_program() -> ProgramRegistry {
    solution_registry(vec![
        invoke(GET_GAS, &[BranchTarget::Fallthrough, BranchTarget::Statement(StatementIdx(3))]),
        invoke(PEDERSEN, &[BranchTarget::Fallthrough]),
        returning(),
        returning(),
    ])
}

fn future(statement: usize, token: CostTokenType) -> Var {
    Var::StatementFuture(StatementIdx(statement), token)
}

fn deducted(statement: usize, token: CostTokenType) -> Var {
    Var::LibfuncImplicitGasVariable(StatementIdx(statement), token)
}

fn value(var: Var, value: i64) -> VariableValue {
    VariableValue { var, value }
}

fn coefficients(map: &CostExprMap, token: CostTokenType, vars: &[Var]) -> Vec<i128> {
    let expr: &CostExpr = map.get(token).unwrap();
    std::iter::once(expr.coefficient_of(None))
        .chain(vars.iter().map(|var| expr.coefficient_of(Some(*var))))
        .collect()
}

#[test]
fn equations_of_a_program() {
    let registry = hashing_program();
    let equations = generate_equations(&registry, &FutureCostVariables {}).unwrap();
    assert_eq!(equations.len(), 4);
    let token = CostTokenType::Pedersen;
    let vars =
        [future(0, token), future(1, token), future(2, token), future(3, token), deducted(0, token)];
    assert_eq!(equations[0].statement, StatementIdx(0));
    assert_eq!(equations[0].branches.len(), 2);
    // future(0) + deducted(0) - future(1) = 0
    assert_eq!(coefficients(&equations[0].branches[0], token, &vars), vec![0, 1, -1, 0, 0, 1]);
    // future(0) - future(3) = 0
    assert_eq!(coefficients(&equations[0].branches[1], token, &vars), vec![0, 1, 0, 0, -1, 0]);
    // future(1) - 1 - future(2) = 0
    assert_eq!(equations[1].branches.len(), 1);
    assert_eq!(coefficients(&equations[1].branches[0], token, &vars), vec![-1, 0, 1, -1, 0, 0]);
    // future(2) = 0
    assert_eq!(coefficients(&equations[2].branches[0], token, &vars), vec![0, 0, 0, 1, 0, 0]);
    assert_eq!(coefficients(&equations[3].branches[0], token, &vars), vec![0, 0, 0, 0, 1, 0]);
    // The other builtins are not used: their equations have no constant.
    let bitwise = CostTokenType::Bitwise;
    assert_eq!(
        coefficients(&equations[1].branches[0], bitwise, &[future(1, bitwise), future(2, bitwise)]),
        vec![0, 1, -1]
    );
    // Only the pre-cost tokens have equations.
    assert!(equations[1].branches[0].get(CostTokenType::Step).is_none());
    assert!(equations[2].branches[0].get(CostTokenType::Const).is_none());
}

#[test]
fn equations_of_a_function_call() {
    let registry = solution_registry(vec![invoke(CALL_MAIN, &[BranchTarget::Fallthrough]), returning()]);
    let equations = generate_equations(&registry, &FutureCostVariables {}).unwrap();
    let token = CostTokenType::EcOp;
    // future(0) - future(entry of main) - future(1) = -future(1), since main starts at 0.
    assert_eq!(
        coefficients(&equations[0].branches[0], token, &[future(0, token), future(1, token)]),
        vec![0, 0, -1]
    );
    let decl = registry.get_libfunc(&ConcreteLibFuncId { id: CALL_MAIN, debug_name: None }).unwrap();
    assert!(matches!(classify(&registry, decl, 1), Ok(CoreConcreteLibfunc::FunctionCall(_))));
}

#[test]
fn equations_that_cannot_be_written_down() {
    let future_costs = FutureCostVariables {};
    let undeclared = solution_registry(vec![invoke(77, &[BranchTarget::Fallthrough]), returning()]);
    assert_eq!(
        generate_equations(&undeclared, &future_costs).err(),
        Some(CostError::ProgramRegistryError)
    );
    let no_function =
        solution_registry(vec![invoke(CALL_NOTHING, &[BranchTarget::Fallthrough]), returning()]);
    assert_eq!(
        generate_equations(&no_function, &future_costs).err(),
        Some(CostError::ProgramRegistryError)
    );
    let two_branches = solution_registry(vec![
        returning(),
        invoke(PEDERSEN, &[BranchTarget::Fallthrough, BranchTarget::Statement(StatementIdx(0))]),
        returning(),
    ]);
    assert_eq!(
        generate_equations(&two_branches, &future_costs).err(),
        Some(CostError::IllegalInvocation(StatementIdx(1)))
    );
    let falls_off = solution_registry(vec![returning(), invoke(FELT_ADD, &[BranchTarget::Fallthrough])]);
    assert_eq!(
        generate_equations(&falls_off, &future_costs).err(),
        Some(CostError::StatementOutOfBounds(StatementIdx(2)))
    );
    let jumps_out = solution_registry(vec![
        invoke(
            GET_GAS,
            &[BranchTarget::Statement(StatementIdx(1)), BranchTarget::Statement(StatementIdx(5))],
        ),
        returning(),
    ]);
    assert_eq!(
        generate_equations(&jumps_out, &future_costs).err(),
        Some(CostError::StatementOutOfBounds(StatementIdx(5)))
    );
}

#[test]
fn solved_program_satisfies_every_equation() {
    let registry = hashing_program();
    let future_costs = FutureCostVariables {};
    let token = CostTokenType::Pedersen;
    let solution = vec![value(future(1, token), 1), value(deducted(0, token), 1)];
    let info = calc_gas_precost_info(&registry, &future_costs, solution.clone()).unwrap();
    assert_eq!(info.variable_value(StatementIdx(0), token), Some(1));
    assert_eq!(info.variable_value(StatementIdx(0), CostTokenType::Bitwise), Some(0));
    assert_eq!(info.variable_value(StatementIdx(1), token), Some(0));
    assert_eq!(info.variable_value(StatementIdx(0), CostTokenType::Step), None);
    let main = FunctionId { id: 0, debug_name: None };
    assert_eq!(info.costs_of(&main).unwrap().get(token), Some(&0));
    assert_eq!(info.costs_of(&main).unwrap().get(CostTokenType::Const), None);

    // The equations hold under the solution: the future cost of a statement is the cost of
    // its libfunc and the future cost of the next statement.
    let assignment = Assignment::new(solution).unwrap();
    let equations = generate_equations(&registry, &future_costs).unwrap();
    assert!(check_solution(&equations, &assignment));
    for statement in &equations {
        for branch in &statement.branches {
            for expr_token in CostTokenType::iter_precost() {
                assert_eq!(assignment.evaluate(branch.get(expr_token).unwrap()), Some(0));
            }
        }
    }
    assert_eq!(assignment.value(future(1, token)), 1);
    assert_eq!(assignment.value(future(0, token)), 0);
    assert_eq!(gas_info_of(&registry, &assignment), info);
}

#[test]
fn values_that_are_no_solution_are_refused() {
    let registry = hashing_program();
    let future_costs = FutureCostVariables {};
    let token = CostTokenType::Pedersen;
    let failed = Some(CostError::SolvingGasEquationFailed);
    // Too much is deducted.
    assert_eq!(
        calc_gas_precost_info(
            &registry,
            &future_costs,
            vec![value(future(1, token), 1), value(deducted(0, token), 2)]
        )
        .err(),
        failed
    );
    // Nothing is deducted for the hash.
    assert_eq!(calc_gas_precost_info(&registry, &future_costs, vec![]).err(), failed);
    // A value below zero.
    assert_eq!(
        calc_gas_precost_info(
            &registry,
            &future_costs,
            vec![
                value(future(1, token), 1),
                value(deducted(0, token), 1),
                value(deducted(3, token), -1)
            ]
        )
        .err(),
        failed
    );
    // Two values for one variable.
    assert_eq!(
        calc_gas_precost_info(
            &registry,
            &future_costs,
            vec![
                value(future(1, token), 1),
                value(deducted(0, token), 1),
                value(future(1, token), 1)
            ]
        )
        .err(),
        failed
    );
    assert!(Assignment::new(vec![value(future(1, token), -1)]).is_none());
    assert!(Assignment::new(vec![value(future(1, token), 0), value(future(1, token), 0)])
        .is_none());
}

#[test]
fn evaluation_of_expressions() {
    let v = deducted(0, CostTokenType::Bitwise);
    let w = future(2, CostTokenType::Bitwise);
    let assignment = Assignment::new(vec![value(v, 3), value(w, 10)]).unwrap();
    let expr = CostExpr::from_const(4)
        .add(CostExpr::from_var(v))
        .add(CostExpr::from_var(v))
        .sub(CostExpr::from_var(w))
        .add(CostExpr::from_var(future(5, CostTokenType::Bitwise)));
    // 4 + 2 * 3 - 10 + 0
    assert_eq!(assignment.evaluate(&expr), Some(0));
    assert_eq!(assignment.evaluate(&CostExpr::from_const(-7)), Some(-7));
    assert_eq!(assignment.value(w), 10);
    assert_eq!(assignment.value(future(5, CostTokenType::Bitwise)), 0);
    assert_eq!(assignment.values().len(), 2);
}

fn hashing_precosts(registry: &ProgramRegistry) -> cairo_core::metadata::GasInfo {
    let token = CostTokenType::Pedersen;
    calc_gas_precost_info(
        registry,
        &FutureCostVariables {},
        vec![value(future(1, token), 1), value(deducted(0, token), 1)],
    )
    .unwrap()
}

#[test]
fn postcost_equations_of_a_program() {
    let registry = hashing_program();
    let precosts = hashing_precosts(&registry);
    let equations =
        generate_postcost_equations(&registry, &FutureCostVariables {}, &precosts).unwrap();
    assert_eq!(equations.len(), 4);
    let token = CostTokenType::Step;
    let vars =
        [future(0, token), future(1, token), future(2, token), future(3, token), deducted(0, token)];
    // One hash is paid for: adding up its cost takes two steps.
    // future(0) - (2 + 3 - deducted(0)) - future(1) = 0
    assert_eq!(coefficients(&equations[0].branches[0], token, &vars), vec![-5, 1, -1, 0, 0, 1]);
    // future(0) - (2 + 5) - future(3) = 0
    assert_eq!(coefficients(&equations[0].branches[1], token, &vars), vec![-7, 1, 0, 0, -1, 0]);
    // future(1) - 2 - future(2) = 0
    assert_eq!(coefficients(&equations[1].branches[0], token, &vars), vec![-2, 0, 1, -1, 0, 0]);
    // future(2) = 0
    assert_eq!(coefficients(&equations[2].branches[0], token, &vars), vec![0, 0, 0, 1, 0, 0]);
    assert_eq!(coefficients(&equations[3].branches[0], token, &vars), vec![0, 0, 0, 0, 1, 0]);
    let hole = CostTokenType::Hole;
    assert_eq!(
        coefficients(&equations[1].branches[0], hole, &[future(1, hole), future(2, hole)]),
        vec![0, 1, -1]
    );
    // Only the post-cost tokens have equations.
    assert!(equations[1].branches[0].get(CostTokenType::Pedersen).is_none());
    assert!(equations[2].branches[0].get(CostTokenType::Const).is_none());
}

#[test]
fn solved_postcosts_satisfy_every_equation() {
    let registry = hashing_program();
    let future_costs = FutureCostVariables {};
    let precosts = hashing_precosts(&registry);
    let token = CostTokenType::Step;
    let solution = vec![value(future(0, token), 7), value(future(1, token), 2)];
    let info =
        calc_gas_postcost_info(&registry, &future_costs, &precosts, solution.clone()).unwrap();
    assert_eq!(info.variable_value(StatementIdx(0), token), Some(0));
    assert_eq!(info.variable_value(StatementIdx(0), CostTokenType::Hole), Some(0));
    assert_eq!(info.variable_value(StatementIdx(0), CostTokenType::Pedersen), None);
    let main = FunctionId { id: 0, debug_name: None };
    assert_eq!(info.costs_of(&main).unwrap().get(token), Some(&7));
    assert_eq!(info.costs_of(&main).unwrap().get(CostTokenType::RangeCheck), Some(&0));
    assert_eq!(info.costs_of(&main).unwrap().get(CostTokenType::Pedersen), None);

    let assignment = Assignment::new(solution).unwrap();
    let equations = generate_postcost_equations(&registry, &future_costs, &precosts).unwrap();
    assert!(check_solution(&equations, &assignment));
    for statement in &equations {
        for branch in &statement.branches {
            for expr_token in CostTokenType::iter_postcost() {
                assert_eq!(assignment.evaluate(branch.get(expr_token).unwrap()), Some(0));
            }
        }
    }

    // Values under which the return has a future cost are no solution.
    let roomy = vec![
        value(future(0, token), 7),
        value(future(1, token), 5),
        value(future(2, token), 3),
        value(deducted(0, token), 3),
    ];
    assert_eq!(
        calc_gas_postcost_info(&registry, &future_costs, &precosts, roomy).err(),
        Some(CostError::SolvingGasEquationFailed)
    );
}

#[test]
fn postcosts_that_are_no_solution_are_refused() {
    let registry = hashing_program();
    let future_costs = FutureCostVariables {};
    let precosts = hashing_precosts(&registry);
    let token = CostTokenType::Step;
    let failed = Some(CostError::SolvingGasEquationFailed);
    assert_eq!(calc_gas_postcost_info(&registry, &future_costs, &precosts, vec![]).err(), failed);
    // The steps of the hash are not counted.
    assert_eq!(
        calc_gas_postcost_info(
            &registry,
            &future_costs,
            &precosts,
            vec![value(future(0, token), 7), value(future(1, token), 1)]
        )
        .err(),
        failed
    );
    // A solution of the pre-costs is none of the post-costs.
    assert_eq!(
        calc_gas_postcost_info(
            &registry,
            &future_costs,
            &precosts,
            vec![
                value(future(1, CostTokenType::Pedersen), 1),
                value(deducted(0, CostTokenType::Pedersen), 1)
            ]
        )
        .err(),
        failed
    );
    // A value below zero.
    assert_eq!(
        calc_gas_postcost_info(
            &registry,
            &future_costs,
            &precosts,
            vec![
                value(future(0, token), 7),
                value(future(1, token), 2),
                value(deducted(3, token), -1)
            ]
        )
        .err(),
        failed
    );
}

fn hashing_ap_changes() -> ApChangeInfo {
    ApChangeInfo {
        variable_values: vec![StatementApChange { statement: StatementIdx(0), ap_change: 2 }],
        function_ap_change: vec![],
    }
}

#[test]
fn metadata_of_the_solutions_of_both_passes() {
    let registry = hashing_program();
    let future_costs = FutureCostVariables {};
    let pedersen = CostTokenType::Pedersen;
    let step = CostTokenType::Step;
    let precost = vec![value(future(1, pedersen), 1), value(deducted(0, pedersen), 1)];
    let postcost = vec![value(future(0, step), 7), value(future(1, step), 2)];
    let metadata = calc_metadata(
        &registry,
        &future_costs,
        Ok(hashing_ap_changes()),
        precost.clone(),
        postcost.clone(),
    )
    .unwrap();
    assert_eq!(metadata.ap_change_info, hashing_ap_changes());
    let info = &metadata.gas_info;
    assert_eq!(info.variable_value(StatementIdx(0), pedersen), Some(1));
    assert_eq!(info.variable_value(StatementIdx(0), step), Some(0));
    assert_eq!(info.variable_value(StatementIdx(1), pedersen), Some(0));
    assert_eq!(info.variable_value(StatementIdx(0), CostTokenType::Const), None);
    let main = FunctionId { id: 0, debug_name: None };
    let costs = info.costs_of(&main).unwrap();
    assert_eq!(costs.get(step), Some(&7));
    assert_eq!(costs.get(pedersen), Some(&0));
    assert_eq!(costs.get(CostTokenType::Hole), Some(&0));
    assert_eq!(costs.get(CostTokenType::Const), None);

    // Every equation of both passes holds under the solutions.
    let first = Assignment::new(precost).unwrap();
    let second = Assignment::new(postcost).unwrap();
    assert!(check_solution(&generate_equations(&registry, &future_costs).unwrap(), &first));
    let equations = generate_postcost_equations(&registry, &future_costs, info).unwrap();
    assert!(check_solution(&equations, &second));
}

#[test]
fn metadata_errors_come_in_the_order_of_the_analyses() {
    let registry = hashing_program();
    let future_costs = FutureCostVariables {};
    let pedersen = CostTokenType::Pedersen;
    let step = CostTokenType::Step;
    let precost = vec![value(future(1, pedersen), 1), value(deducted(0, pedersen), 1)];
    let postcost = vec![value(future(0, step), 7), value(future(1, step), 2)];
    let failed = Some(MetadataError::CostError(CostError::SolvingGasEquationFailed));
    let no_ap_changes = ApChangeError::StatementOutOfBounds(StatementIdx(9));
    // The pre-costs fail before anything else is looked at.
    assert_eq!(
        calc_metadata(&registry, &future_costs, Err(no_ap_changes), vec![], postcost.clone())
            .err(),
        failed
    );
    assert_eq!(
        calc_metadata(&registry, &future_costs, Err(no_ap_changes), precost.clone(), vec![]).err(),
        Some(MetadataError::ApChangeError(no_ap_changes))
    );
    assert_eq!(
        calc_metadata(&registry, &future_costs, Ok(hashing_ap_changes()), precost.clone(), vec![])
            .err(),
        failed
    );
    // Without a hash to pay for, getting gas takes three steps where it succeeds and five
    // where it fails: nothing that is deducted makes the two branches cost the same.
    let free = solution_registry(vec![
        invoke(GET_GAS, &[BranchTarget::Fallthrough, BranchTarget::Statement(StatementIdx(2))]),
        returning(),
        returning(),
    ]);
    assert_eq!(
        calc_metadata(&free, &future_costs, Ok(hashing_ap_changes()), vec![], postcost).err(),
        failed
    );
    assert_eq!(
        calc_metadata(
            &free,
            &future_costs,
            Ok(hashing_ap_changes()),
            vec![],
            vec![value(future(0, step), 5), value(deducted(0, step), 2)],
        )
        .err(),
        failed
    );
    let unknown = solution_registry(vec![invoke(77, &[BranchTarget::Fallthrough]), returning()]);
    assert_eq!(
        calc_metadata(&unknown, &future_costs, Ok(hashing_ap_changes()), vec![], vec![]).err(),
        Some(MetadataError::CostError(CostError::ProgramRegistryError))
    );
}
