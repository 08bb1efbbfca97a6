use cairo_core::cost_token::CostTokenType;
use cairo_core::gas::core_libfunc_cost_expr::{
    add_maps, core_libfunc_postcost_expr, core_libfunc_precost_expr, cost_computation_max,
    same_maps, sub_maps, CoreConcreteLibfunc, CostExprMap, CostOperations, FutureCostVariables,
    GasApInfoProvider, InvocationApChangeInfoProvider, Ops,
};
use cairo_core::gas::cost_expr::{CostExpr, Var};
use cairo_core::metadata::{FunctionCost, GasInfo, StatementVariables};
use cairo_core::sierra::ids::{ConcreteTypeId, FunctionId, GenericTypeId, StatementIdx};
use cairo_core::sierra::program::{
    ConcreteTypeLongId, Function, FunctionSignature, Program, TypeDeclaration, TypeInfo,
};
use cairo_core::sierra::registry::ProgramRegistry;
use cairo_core::token_map::{tokens, TokenMap};

fn gas_var(statement: usize, token: CostTokenType) -> Var {
    Var::LibfuncImplicitGasVariable(StatementIdx(statement), token)
}

fn future_var(statement: usize, token: CostTokenType) -> Var {
    Var::StatementFuture(StatementIdx(statement), token)
}

/// The constant and the coefficients of the variables of a token's cost.
fn cost_of(map: &CostExprMap, token: CostTokenType, vars: &[Var]) -> Vec<i128> {
    match map.get(token) {
        Some(expr) => std::iter::once(expr.coefficient_of(None))
            .chain(vars.iter().map(|var| expr.coefficient_of(Some(*var))))
            .collect(),
        None => vec![0; vars.len() + 1],
    }
}

fn gas_function(entry: usize) -> Function {
    Function {
        id: FunctionId { id: 0, debug_name: None },
        signature: FunctionSignature { param_types: vec![], ret_types: vec![] },
        params: vec![],
        entry_point: StatementIdx(entry),
    }
}

fn gas_values(entries: &[(CostTokenType, i64)]) -> TokenMap<i64> {
    let mut map = TokenMap::new();
    for (token, value) in entries {
        map.insert(*token, *value);
    }
    map
}

fn gas_registry() -> ProgramRegistry {
    ProgramRegistry::new(Program {
        type_declarations: vec![TypeDeclaration {
            id: ConcreteTypeId::new(4),
            info: TypeInfo {
                long_id: ConcreteTypeLongId {
                    generic_id: GenericTypeId::new_inline("Array"),
                    generic_args: vec![],
                },
                storable: true,
                droppable: true,
                duplicatable: false,
                size: 2,
            },
        }],
        libfunc_declarations: vec![],
        statements: vec![],
        funcs: vec![],
    })
    .unwrap()
}

#[test]
fn cost_expressions_combine_like_terms() {
    let v = gas_var(1, CostTokenType::Step);
    let w = gas_var(2, CostTokenType::Step);
    let expr = CostExpr::from_const(3)
        .add(CostExpr::from_var(v))
        .add(CostExpr::from_var(v))
        .sub(CostExpr::from_const(1))
        .sub(CostExpr::from_var(w));
    assert_eq!(expr.coefficient_of(None), 2);
    assert_eq!(expr.coefficient_of(Some(v)), 2);
    assert_eq!(expr.coefficient_of(Some(w)), -1);
    assert_eq!(expr.coefficient_of(Some(gas_var(1, CostTokenType::Hole))), 0);
    let zero = expr.clone().sub(expr);
    assert_eq!(zero.coefficient_of(None), 0);
    assert_eq!(zero.coefficient_of(Some(v)), 0);
    assert_eq!(zero.coefficient_of(Some(w)), 0);
    assert_eq!(CostExpr::zero().coefficient_of(None), 0);
    assert_eq!(CostExpr::from_const(i32::MIN).coefficient_of(None), -2147483648);
    assert_eq!(
        CostExpr::zero().sub(CostExpr::from_const(i32::MIN)).coefficient_of(None),
        2147483648
    );
}

#[test]
fn cost_map_less_itself_is_zero() {
    let v = gas_var(1, CostTokenType::Step);
    let a = || {
        let mut map: CostExprMap = TokenMap::new();
        map.insert(CostTokenType::Step, CostExpr::from_const(3).add(CostExpr::from_var(v)));
        map.insert(CostTokenType::Pedersen, CostExpr::from_const(1));
        map
    };
    let difference = sub_maps(a(), a());
    for token in tokens() {
        assert_eq!(cost_of(&difference, token, &[v]), vec![0, 0]);
    }
}

#[test]
fn cost_map_algebra_identities() {
    let v = gas_var(1, CostTokenType::Step);
    let w = future_var(2, CostTokenType::Pedersen);
    let a = || {
        let mut map: CostExprMap = TokenMap::new();
        map.insert(CostTokenType::Step, CostExpr::from_const(3).add(CostExpr::from_var(v)));
        map.insert(CostTokenType::Pedersen, CostExpr::from_var(w));
        map
    };
    let b = || {
        let mut map: CostExprMap = TokenMap::new();
        map.insert(CostTokenType::Step, CostExpr::from_const(1));
        map.insert(CostTokenType::Hole, CostExpr::from_const(2).sub(CostExpr::from_var(v)));
        map
    };
    // What is left of `a` less `b`, added to `b`, is `a`.
    let sum = add_maps(b(), sub_maps(a(), b()));
    for token in tokens() {
        assert_eq!(cost_of(&sum, token, &[v, w]), cost_of(&a(), token, &[v, w]));
    }
    // `a` with what is left of itself less an equal map is `a`.
    let same = add_maps(a(), sub_maps(a(), a()));
    for token in tokens() {
        assert_eq!(cost_of(&same, token, &[v, w]), cost_of(&a(), token, &[v, w]));
    }
    // With a map that is not equal it is not: here `b` has no costs at all.
    let other = add_maps(a(), sub_maps(a(), TokenMap::new()));
    assert_eq!(cost_of(&other, CostTokenType::Step, &[v, w]), vec![6, 2, 0]);
    // A token that only the second map has costs zero less its cost there.
    let difference = sub_maps(a(), b());
    assert_eq!(cost_of(&difference, CostTokenType::Hole, &[v, w]), vec![-2, 1, 0]);
    assert_eq!(cost_of(&difference, CostTokenType::Step, &[v, w]), vec![2, 1, 0]);
    assert_eq!(cost_of(&difference, CostTokenType::Pedersen, &[v, w]), vec![0, 0, 1]);
    assert!(difference.get(CostTokenType::Bitwise).is_none());
}

#[test]
fn cost_operations_for_expressions() {
    let future = FutureCostVariables {};
    let ops = Ops { statement_future_cost: &future, idx: StatementIdx(7) };
    let v = gas_var(7, CostTokenType::Bitwise);
    let f = future_var(3, CostTokenType::EcOp);
    let constant = ops.const_cost(5);
    assert_eq!(cost_of(&constant, CostTokenType::Step, &[]), vec![5]);
    assert!(constant.get(CostTokenType::Hole).is_none());
    let token = ops.const_cost_token(2, CostTokenType::Pedersen);
    assert_eq!(cost_of(&token, CostTokenType::Pedersen, &[]), vec![2]);
    assert_eq!(cost_of(&token, CostTokenType::Step, &[]), vec![0]);
    let var = ops.statement_var_cost(CostTokenType::Bitwise);
    assert_eq!(cost_of(&var, CostTokenType::Bitwise, &[v]), vec![0, 1]);
    let function = ops.function_token_cost(&gas_function(3), CostTokenType::EcOp);
    assert_eq!(cost_of(&function, CostTokenType::EcOp, &[f, v]), vec![0, 1, 0]);
    assert!(function.get(CostTokenType::Pedersen).is_none());
    let sum = ops.add(ops.const_cost_token(1, CostTokenType::Bitwise), var);
    assert_eq!(cost_of(&sum, CostTokenType::Bitwise, &[v]), vec![1, 1]);
    let difference = ops.sub(ops.const_cost(0), ops.statement_var_cost(CostTokenType::Bitwise));
    assert_eq!(cost_of(&difference, CostTokenType::Bitwise, &[v]), vec![0, -1]);
    assert_eq!(cost_of(&difference, CostTokenType::Step, &[v]), vec![0, 0]);
}

#[test]
fn precosts_of_libfuncs() {
    let future = FutureCostVariables {};
    let registry = gas_registry();
    let idx = StatementIdx(4);
    let vars: Vec<Var> = CostTokenType::iter_precost()
        .into_iter()
        .flat_map(|token| [gas_var(4, token), future_var(9, token)])
        .collect();
    let precost = |libfunc: CoreConcreteLibfunc<'_>| {
        core_libfunc_precost_expr(&future, &idx, &libfunc, &registry)
    };

    let pedersen = precost(CoreConcreteLibfunc::Pedersen);
    assert_eq!(pedersen.len(), 1);
    assert_eq!(cost_of(&pedersen[0], CostTokenType::Pedersen, &[]), vec![1]);
    assert_eq!(cost_of(&pedersen[0], CostTokenType::Bitwise, &[]), vec![0]);
    assert_eq!(cost_of(&precost(CoreConcreteLibfunc::Bitwise)[0], CostTokenType::Bitwise, &[]), vec![1]);
    assert_eq!(cost_of(&precost(CoreConcreteLibfunc::EcOp)[0], CostTokenType::EcOp, &[]), vec![1]);

    let get_gas = precost(CoreConcreteLibfunc::BuiltinGetGas);
    assert_eq!(get_gas.len(), 2);
    assert_eq!(
        cost_of(&get_gas[0], CostTokenType::Pedersen, &vars),
        vec![0, -1, 0, 0, 0, 0, 0]
    );
    assert_eq!(
        cost_of(&get_gas[0], CostTokenType::EcOp, &vars),
        vec![0, 0, 0, 0, 0, -1, 0]
    );
    assert_eq!(cost_of(&get_gas[0], CostTokenType::Step, &vars), vec![0; 7]);
    for token in tokens() {
        assert_eq!(cost_of(&get_gas[1], token, &vars), vec![0; 7]);
    }

    let align = precost(CoreConcreteLibfunc::BranchAlign);
    assert_eq!(align.len(), 1);
    assert_eq!(cost_of(&align[0], CostTokenType::Bitwise, &vars), vec![0, 0, 0, 1, 0, 0, 0]);
    assert_eq!(cost_of(&align[0], CostTokenType::Hole, &vars), vec![0; 7]);

    let callee = gas_function(9);
    let call = precost(CoreConcreteLibfunc::FunctionCall(&callee));
    assert_eq!(call.len(), 1);
    assert_eq!(cost_of(&call[0], CostTokenType::Pedersen, &vars), vec![0, 0, 1, 0, 0, 0, 0]);
    assert_eq!(cost_of(&call[0], CostTokenType::EcOp, &vars), vec![0, 0, 0, 0, 0, 0, 1]);
    assert_eq!(cost_of(&call[0], CostTokenType::Step, &vars), vec![0; 7]);

    let other = precost(CoreConcreteLibfunc::Other { branch_count: 3 });
    assert_eq!(other.len(), 3);
    for branch in &other {
        for token in tokens() {
            assert_eq!(cost_of(branch, token, &vars), vec![0; 7]);
        }
    }
    assert!(precost(CoreConcreteLibfunc::Other { branch_count: 0 }).is_empty());
}

#[test]
fn gas_info_holds_no_value_below_zero() {
    let statement = |idx, entries: &[(CostTokenType, i64)]| StatementVariables {
        statement: StatementIdx(idx),
        values: gas_values(entries),
    };
    let function = |id, entries: &[(CostTokenType, i64)]| FunctionCost {
        function: FunctionId { id, debug_name: None },
        costs: gas_values(entries),
    };
    assert!(GasInfo::new(
        vec![statement(1, &[(CostTokenType::Step, 0)]), statement(2, &[])],
        vec![function(0, &[(CostTokenType::Const, 7)])]
    )
    .is_some());
    assert!(GasInfo::new(vec![statement(1, &[(CostTokenType::EcOp, -1)])], vec![]).is_none());
    assert!(GasInfo::new(vec![], vec![function(0, &[(CostTokenType::Const, -7)])]).is_none());
    assert!(GasInfo::new(vec![statement(1, &[]), statement(1, &[])], vec![]).is_none());
    assert!(GasInfo::new(vec![], vec![function(3, &[]), function(3, &[])]).is_none());
    let info = GasInfo::new(
        vec![statement(1, &[(CostTokenType::Step, 4), (CostTokenType::Pedersen, 0)])],
        vec![function(0, &[(CostTokenType::Const, 7)])],
    )
    .unwrap();
    assert_eq!(info.variable_value(StatementIdx(1), CostTokenType::Step), Some(4));
    assert_eq!(info.variable_value(StatementIdx(1), CostTokenType::Pedersen), Some(0));
    assert_eq!(info.variable_value(StatementIdx(1), CostTokenType::Hole), None);
    assert_eq!(info.variable_value(StatementIdx(2), CostTokenType::Step), None);
    let id = FunctionId { id: 0, debug_name: Some("main".to_string()) };
    assert_eq!(info.costs_of(&id).unwrap().get(CostTokenType::Const), Some(&7));
    assert!(info.costs_of(&FunctionId { id: 1, debug_name: None }).is_none());
    assert!(!info.has_no_function_costs());
    assert!(GasInfo::empty().has_no_function_costs());
}

#[test]
fn ap_change_info_from_the_gas_variables() {
    let info = GasInfo::new(
        vec![StatementVariables {
            statement: StatementIdx(5),
            values: gas_values(&[(CostTokenType::Pedersen, 3)]),
        }],
        vec![],
    )
    .unwrap();
    let registry = gas_registry();
    let provider =
        GasApInfoProvider { info_provider: &registry, gas_info: &info, idx: StatementIdx(5) };
    assert_eq!(provider.token_usages(CostTokenType::Pedersen), 3);
    assert_eq!(provider.token_usages(CostTokenType::Bitwise), 0);
    assert_eq!(provider.type_size(&ConcreteTypeId::new(4)), 2);
    assert_eq!(provider.type_size(&ConcreteTypeId::new(5)), 0);
    let elsewhere =
        GasApInfoProvider { info_provider: &registry, gas_info: &info, idx: StatementIdx(6) };
    assert_eq!(elsewhere.token_usages(CostTokenType::Pedersen), 0);
}

#[test]
fn token_maps_keep_the_values_of_the_other_tokens() {
    let mut map: TokenMap<i64> = TokenMap::single(CostTokenType::Hole, 1);
    map.insert(CostTokenType::Step, 2);
    map.insert(CostTokenType::Hole, 3);
    assert_eq!(map.get(CostTokenType::Hole), Some(&3));
    assert_eq!(map.get(CostTokenType::Step), Some(&2));
    assert_eq!(map.remove(CostTokenType::Hole), Some(3));
    assert_eq!(map.remove(CostTokenType::Hole), None);
    assert_eq!(map.get(CostTokenType::Step), Some(&2));
    assert_eq!(
        tokens(),
        vec![
            CostTokenType::Const,
            CostTokenType::Step,
            CostTokenType::Hole,
            CostTokenType::RangeCheck,
            CostTokenType::Pedersen,
            CostTokenType::Bitwise,
            CostTokenType::EcOp
        ]
    );
}

#[test]
fn cost_expressions_are_the_same_after_normalization() {
    let three = CostExpr::from_const(1).add(CostExpr::from_const(2));
    assert!(three.same(&CostExpr::from_const(3)));
    assert!(CostExpr::from_const(3).same(&three));
    assert!(!three.same(&CostExpr::from_const(4)));

    let x = gas_var(1, CostTokenType::Step);
    let y = gas_var(2, CostTokenType::Step);
    let sum = CostExpr::from_var(x).add(CostExpr::from_var(y)).add(CostExpr::from_const(5));
    let other = CostExpr::from_const(5).add(CostExpr::from_var(y)).add(CostExpr::from_var(x));
    assert!(sum.same(&other));
    assert!(!sum.same(&CostExpr::from_var(x).add(CostExpr::from_const(5))));
    assert!(!CostExpr::from_var(x).add(CostExpr::from_const(5)).same(&sum));
    assert!(!CostExpr::from_var(x).same(&CostExpr::from_var(y)));

    let cancelled = CostExpr::from_var(x).add(CostExpr::from_var(y)).sub(CostExpr::from_var(y));
    assert!(cancelled.same(&CostExpr::from_var(x)));
    assert!(CostExpr::from_var(x).sub(CostExpr::from_var(x)).same(&CostExpr::zero()));
    assert!(CostExpr::zero().same(&CostExpr::from_const(0)));
    let twice = CostExpr::from_var(x).add(CostExpr::from_var(x));
    assert!(!twice.same(&CostExpr::from_var(x)));
}

fn precost_info(entries: &[(CostTokenType, i64)]) -> GasInfo {
    GasInfo::new(
        vec![StatementVariables { statement: StatementIdx(4), values: gas_values(entries) }],
        vec![],
    )
    .unwrap()
}

#[test]
fn steps_of_adding_up_the_costs_of_builtins() {
    let registry = gas_registry();
    let steps = |entries: &[(CostTokenType, i64)]| {
        let gas_info = precost_info(entries);
        cost_computation_max(&GasApInfoProvider {
            info_provider: &registry,
            gas_info: &gas_info,
            idx: StatementIdx(4),
        })
    };
    assert_eq!(steps(&[]), 0);
    assert_eq!(steps(&[(CostTokenType::Pedersen, 1)]), 2);
    assert_eq!(steps(&[(CostTokenType::Pedersen, 4)]), 3);
    assert_eq!(steps(&[(CostTokenType::Pedersen, 1), (CostTokenType::Bitwise, 2)]), 5);
    assert_eq!(
        steps(&[
            (CostTokenType::Pedersen, 2),
            (CostTokenType::Bitwise, 2),
            (CostTokenType::EcOp, 7)
        ]),
        9
    );
    assert_eq!(steps(&[(CostTokenType::Step, 3)]), 0);
}

#[test]
fn postcosts_of_libfuncs() {
    let future = FutureCostVariables {};
    let registry = gas_registry();
    let idx = StatementIdx(4);
    let gas_info = precost_info(&[(CostTokenType::Pedersen, 1), (CostTokenType::Bitwise, 2)]);
    let vars: Vec<Var> = CostTokenType::iter_postcost()
        .into_iter()
        .flat_map(|token| [gas_var(4, token), future_var(9, token)])
        .collect();
    let postcost = |libfunc: CoreConcreteLibfunc<'_>| {
        core_libfunc_postcost_expr(&future, &idx, &libfunc, &registry, &gas_info)
    };

    for libfunc in [CoreConcreteLibfunc::Pedersen, CoreConcreteLibfunc::Bitwise] {
        let cost = postcost(libfunc);
        assert_eq!(cost.len(), 1);
        assert_eq!(cost_of(&cost[0], CostTokenType::Step, &vars), vec![2, 0, 0, 0, 0, 0, 0]);
        assert_eq!(cost_of(&cost[0], CostTokenType::Hole, &vars), vec![0; 7]);
        assert_eq!(cost_of(&cost[0], CostTokenType::Pedersen, &vars), vec![0; 7]);
    }
    let ec_op = postcost(CoreConcreteLibfunc::EcOp);
    assert_eq!(cost_of(&ec_op[0], CostTokenType::Step, &vars), vec![5, 0, 0, 0, 0, 0, 0]);

    let get_gas = postcost(CoreConcreteLibfunc::BuiltinGetGas);
    assert_eq!(get_gas.len(), 2);
    assert_eq!(cost_of(&get_gas[0], CostTokenType::Step, &vars), vec![8, -1, 0, 0, 0, 0, 0]);
    assert_eq!(cost_of(&get_gas[1], CostTokenType::Step, &vars), vec![10, 0, 0, 0, 0, 0, 0]);
    for branch in &get_gas {
        assert_eq!(cost_of(branch, CostTokenType::Hole, &vars), vec![0; 7]);
        assert_eq!(cost_of(branch, CostTokenType::RangeCheck, &vars), vec![0; 7]);
        assert_eq!(cost_of(branch, CostTokenType::Pedersen, &vars), vec![0; 7]);
    }
    let unused = precost_info(&[]);
    let without = core_libfunc_postcost_expr(
        &future,
        &idx,
        &CoreConcreteLibfunc::BuiltinGetGas,
        &registry,
        &unused,
    );
    assert_eq!(cost_of(&without[0], CostTokenType::Step, &vars), vec![3, -1, 0, 0, 0, 0, 0]);
    assert_eq!(cost_of(&without[1], CostTokenType::Step, &vars), vec![5, 0, 0, 0, 0, 0, 0]);

    let align = postcost(CoreConcreteLibfunc::BranchAlign);
    assert_eq!(align.len(), 1);
    assert_eq!(cost_of(&align[0], CostTokenType::Step, &vars), vec![0, 1, 0, 0, 0, 0, 0]);
    assert_eq!(cost_of(&align[0], CostTokenType::Hole, &vars), vec![0, 0, 0, 1, 0, 0, 0]);
    assert_eq!(cost_of(&align[0], CostTokenType::RangeCheck, &vars), vec![0, 0, 0, 0, 0, 1, 0]);
    assert_eq!(cost_of(&align[0], CostTokenType::Bitwise, &vars), vec![0; 7]);

    let callee = gas_function(9);
    let call = postcost(CoreConcreteLibfunc::FunctionCall(&callee));
    assert_eq!(call.len(), 1);
    assert_eq!(cost_of(&call[0], CostTokenType::Step, &vars), vec![2, 0, 1, 0, 0, 0, 0]);
    assert_eq!(cost_of(&call[0], CostTokenType::Hole, &vars), vec![0, 0, 0, 0, 1, 0, 0]);
    assert_eq!(cost_of(&call[0], CostTokenType::RangeCheck, &vars), vec![0, 0, 0, 0, 0, 0, 1]);
    assert_eq!(cost_of(&call[0], CostTokenType::EcOp, &vars), vec![0; 7]);

    let other = postcost(CoreConcreteLibfunc::Other { branch_count: 2 });
    assert_eq!(other.len(), 2);
    for branch in &other {
        for token in tokens() {
            assert_eq!(cost_of(branch, token, &vars), vec![0; 7]);
        }
    }
}

fn map_of(entries: Vec<(CostTokenType, CostExpr)>) -> CostExprMap {
    let mut map = TokenMap::new();
    for (token, expr) in entries {
        map.insert(token, expr);
    }
    map
}

#[test]
fn cost_maps_are_the_same_after_normalization() {
    let x = gas_var(1, CostTokenType::Step);
    let a = || {
        map_of(vec![
            (CostTokenType::Step, CostExpr::from_var(x).add(CostExpr::from_const(2))),
            (CostTokenType::Pedersen, CostExpr::from_const(1)),
        ])
    };
    let b = || map_of(vec![(CostTokenType::Step, CostExpr::from_const(1))]);
    assert!(same_maps(&a(), &a()));
    assert!(!same_maps(&a(), &b()));
    // A map less itself is the zero map: a token without an expression costs nothing.
    assert!(same_maps(&sub_maps(a(), a()), &TokenMap::new()));
    assert!(same_maps(&sub_maps(b(), b()), &map_of(vec![(CostTokenType::Hole, CostExpr::zero())])));
    // A map and what is left of another less it give the other.
    assert!(same_maps(&add_maps(b(), sub_maps(a(), b())), &a()));
    assert!(same_maps(&add_maps(a(), sub_maps(b(), a())), &b()));
    // A map and what is left of itself less another is the map only where the other is
    // the same.
    assert!(same_maps(&add_maps(a(), sub_maps(a(), a())), &a()));
    assert!(!same_maps(&add_maps(a(), sub_maps(a(), b())), &a()));
}
