use cairo_core::cost_token::CostTokenType;

#[test]
fn token_names_are_snake_case() {
    assert_eq!(CostTokenType::Const.name(), "const");
    assert_eq!(CostTokenType::Step.name(), "step");
    assert_eq!(CostTokenType::Hole.name(), "hole");
    assert_eq!(CostTokenType::RangeCheck.name(), "range_check");
    assert_eq!(CostTokenType::Pedersen.name(), "pedersen");
    assert_eq!(CostTokenType::Bitwise.name(), "bitwise");
    assert_eq!(CostTokenType::EcOp.name(), "ec_op");
}

#[test]
fn token_camel_case_names() {
    assert_eq!(CostTokenType::RangeCheck.camel_case_name(), "RangeCheck");
    assert_eq!(CostTokenType::EcOp.camel_case_name(), "EcOp");
    assert_eq!(CostTokenType::Step.camel_case_name(), "Step");
    assert_eq!(CostTokenType::Pedersen.camel_case_name(), "Pedersen");
}

#[test]
fn precost_tokens_have_offsets_in_builtin_costs() {
    assert_eq!(CostTokenType::Pedersen.offset_in_builtin_costs(), 0);
    assert_eq!(CostTokenType::Bitwise.offset_in_builtin_costs(), 1);
    assert_eq!(CostTokenType::EcOp.offset_in_builtin_costs(), 2);
}

#[test]
fn token_iteration_order() {
    assert_eq!(
        CostTokenType::iter_precost(),
        vec![CostTokenType::Pedersen, CostTokenType::Bitwise, CostTokenType::EcOp]
    );
    assert_eq!(
        CostTokenType::iter_postcost(),
        vec![CostTokenType::Step, CostTokenType::Hole, CostTokenType::RangeCheck]
    );
    assert_eq!(
        CostTokenType::iter(),
        vec![
            CostTokenType::Pedersen,
            CostTokenType::Bitwise,
            CostTokenType::EcOp,
            CostTokenType::Step,
            CostTokenType::Hole,
            CostTokenType::RangeCheck
        ]
    );
}

#[test]
fn every_precost_token_has_its_own_offset() {
    let tokens = CostTokenType::iter_precost();
    for (i, a) in tokens.iter().enumerate() {
        for b in tokens.iter().skip(i + 1) {
            assert_ne!(a.offset_in_builtin_costs(), b.offset_in_builtin_costs());
        }
    }
}
