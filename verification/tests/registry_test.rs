use cairo_core::extensions::builtin_cost::{
    BuiltinCostGetBuiltinCostsLibfunc, BuiltinCostGetGasLibfunc, BuiltinCostLibfunc,
    BuiltinCostsType,
};
use cairo_core::extensions::lib_func::{
    DeferredOutputKind, OutputVarInfo, OutputVarReferenceInfo, ParamSignature, SierraApChange,
    SignatureSpecializationContext,
};
use cairo_core::sierra::ids::{
    ConcreteLibFuncId, ConcreteTypeId, FunctionId, GenericLibFuncId, GenericTypeId, StatementIdx,
};
use cairo_core::sierra::program::{
    ConcreteLibFuncLongId, ConcreteTypeLongId, Function, FunctionSignature, GenericArg,
    LibFuncDeclaration, Program, TypeDeclaration, TypeInfo,
};
use cairo_core::sierra::registry::{ProgramRegistry, ProgramRegistryError, SpecializationError};

fn registry_type(id: u64, name: &str, args: Vec<GenericArg>, size: i16) -> TypeDeclaration {
    TypeDeclaration {
        id: ConcreteTypeId { id, debug_name: Some(name.to_string()) },
        info: TypeInfo {
            long_id: ConcreteTypeLongId {
                generic_id: GenericTypeId::new_inline(name),
                generic_args: args,
            },
            storable: true,
            droppable: true,
            duplicatable: true,
            size,
        },
    }
}

fn registry_libfunc(id: u64, name: &str, generic: &str) -> LibFuncDeclaration {
    LibFuncDeclaration {
        id: ConcreteLibFuncId { id, debug_name: Some(name.to_string()) },
        long_id: ConcreteLibFuncLongId {
            generic_id: GenericLibFuncId { name: generic.to_string() },
            generic_args: vec![],
        },
    }
}

fn registry_function(id: u64, name: &str) -> Function {
    Function {
        id: FunctionId { id, debug_name: Some(name.to_string()) },
        signature: FunctionSignature { param_types: vec![], ret_types: vec![] },
        params: vec![],
        entry_point: StatementIdx(0),
    }
}

fn registry_program(
    types: Vec<TypeDeclaration>,
    libfuncs: Vec<LibFuncDeclaration>,
    funcs: Vec<Function>,
) -> Program {
    Program { type_declarations: types, libfunc_declarations: libfuncs, statements: vec![], funcs }
}

#[test]
fn concrete_libfunc_id_used_twice() {
    let program = registry_program(
        vec![registry_type(0, "felt", vec![], 1)],
        vec![
            registry_libfunc(7, "store_temp_felt", "store_temp"),
            registry_libfunc(7, "store_temp_felt", "store_temp"),
        ],
        vec![],
    );
    assert_eq!(
        ProgramRegistry::new(program).err(),
        Some(ProgramRegistryError::LibFuncConcreteIdAlreadyExists(ConcreteLibFuncId {
            id: 7,
            debug_name: Some("store_temp_felt".to_string())
        }))
    );
}

#[test]
fn registry_error_texts() {
    let named = ConcreteLibFuncId { id: 7, debug_name: Some("store_temp_felt".to_string()) };
    assert_eq!(
        ProgramRegistryError::LibFuncConcreteIdAlreadyExists(named.clone()).to_string(),
        "used the same concrete libfunc id twice `store_temp_felt`."
    );
    assert_eq!(
        ProgramRegistryError::MissingLibFunc(named).to_string(),
        "Could not find the requested libfunc `store_temp_felt`."
    );
    assert_eq!(
        ProgramRegistryError::MissingFunction(FunctionId { id: 12, debug_name: None }).to_string(),
        "Could not find the requested function `[12]`."
    );
    assert_eq!(
        ProgramRegistryError::TypeSpecialization {
            concrete_id: ConcreteTypeId::new(0),
            error: SpecializationError::UnsupportedGenericArg
        }
        .to_string(),
        "Error during type specialization of `[0]`."
    );
}

#[test]
fn concrete_type_id_used_twice() {
    let program = registry_program(
        vec![
            registry_type(0, "felt", vec![], 1),
            registry_type(1, "RangeCheck", vec![], 1),
            registry_type(0, "GasBuiltin", vec![], 1),
        ],
        vec![],
        vec![],
    );
    assert_eq!(
        ProgramRegistry::new(program).err(),
        Some(ProgramRegistryError::TypeConcreteIdAlreadyExists(ConcreteTypeId {
            id: 0,
            debug_name: Some("GasBuiltin".to_string())
        }))
    );
}

#[test]
fn function_id_used_twice_is_reported_first() {
    let program = registry_program(
        vec![registry_type(0, "felt", vec![], 1), registry_type(0, "felt", vec![], 1)],
        vec![],
        vec![registry_function(3, "foo"), registry_function(4, "bar"), registry_function(3, "baz")],
    );
    assert_eq!(
        ProgramRegistry::new(program).err(),
        Some(ProgramRegistryError::FunctionIdAlreadyExists(FunctionId {
            id: 3,
            debug_name: Some("baz".to_string())
        }))
    );
}

#[test]
fn type_with_a_size_below_zero_is_refused() {
    let program = registry_program(
        vec![registry_type(0, "felt", vec![], 1), registry_type(1, "Odd", vec![], -1)],
        vec![],
        vec![],
    );
    assert_eq!(
        ProgramRegistry::new(program).err(),
        Some(ProgramRegistryError::TypeSpecialization {
            concrete_id: ConcreteTypeId { id: 1, debug_name: Some("Odd".to_string()) },
            error: SpecializationError::UnsupportedGenericArg
        })
    );
}

#[test]
fn registry_resolves_declared_identifiers() {
    let program = registry_program(
        vec![registry_type(0, "felt", vec![], 1), registry_type(5, "Array", vec![], 2)],
        vec![registry_libfunc(7, "felt_add", "felt_add")],
        vec![registry_function(3, "foo")],
    );
    let registry = ProgramRegistry::new(program).unwrap();
    assert_eq!(registry.get_type(&ConcreteTypeId::new(5)).unwrap().size, 2);
    assert_eq!(
        registry.get_type(&ConcreteTypeId::new(9)).err(),
        Some(ProgramRegistryError::MissingType(ConcreteTypeId::new(9)))
    );
    let libfunc = ConcreteLibFuncId { id: 7, debug_name: None };
    assert_eq!(registry.get_libfunc(&libfunc).unwrap().long_id.generic_id.name, "felt_add");
    let missing = ConcreteLibFuncId { id: 8, debug_name: Some("store_temp_felt".to_string()) };
    assert_eq!(
        registry.get_libfunc(&missing).err(),
        Some(ProgramRegistryError::MissingLibFunc(missing.clone()))
    );
    let function = FunctionId { id: 3, debug_name: None };
    assert_eq!(
        registry.get_function(&function).unwrap().id.debug_name,
        Some("foo".to_string())
    );
    let unknown = FunctionId { id: 4, debug_name: None };
    assert_eq!(
        registry.get_function(&unknown).err(),
        Some(ProgramRegistryError::MissingFunction(unknown.clone()))
    );
    assert_eq!(registry.program().funcs.len(), 1);
}

#[test]
fn registry_finds_concrete_types_by_generic_name_and_arguments() {
    let felt = ConcreteTypeId::new(0);
    let program = registry_program(
        vec![
            registry_type(0, "felt", vec![], 1),
            registry_type(1, "Array", vec![GenericArg::Type(felt.clone())], 2),
            registry_type(2, "Array", vec![GenericArg::Type(ConcreteTypeId::new(1))], 2),
        ],
        vec![],
        vec![],
    );
    let registry = ProgramRegistry::new(program).unwrap();
    assert_eq!(
        registry
            .get_concrete_type(GenericTypeId::new_inline("Array"), &[GenericArg::Type(felt)])
            .unwrap()
            .id,
        1
    );
    assert_eq!(
        registry
            .get_concrete_type(
                GenericTypeId::new_inline("Array"),
                &[GenericArg::Type(ConcreteTypeId::new(1))]
            )
            .unwrap()
            .id,
        2
    );
    assert_eq!(
        registry.get_concrete_type(GenericTypeId::new_inline("Array"), &[]).err(),
        Some(SpecializationError::TypeWasNotDeclared)
    );
    assert_eq!(
        registry.get_concrete_type(GenericTypeId::new_inline("u128"), &[]).err(),
        Some(SpecializationError::TypeWasNotDeclared)
    );
}

#[test]
fn get_gas_signature() {
    let program = registry_program(
        vec![
            registry_type(10, "RangeCheck", vec![], 1),
            registry_type(11, "GasBuiltin", vec![], 1),
            registry_type(12, "BuiltinCosts", vec![], 1),
        ],
        vec![],
        vec![],
    );
    let registry = ProgramRegistry::new(program).unwrap();
    let signature = BuiltinCostGetGasLibfunc {}.specialize_signature(&registry).unwrap();
    let range_check = ConcreteTypeId { id: 10, debug_name: Some("RangeCheck".to_string()) };
    let gas_builtin = ConcreteTypeId { id: 11, debug_name: Some("GasBuiltin".to_string()) };
    let builtin_costs = ConcreteTypeId { id: 12, debug_name: Some("BuiltinCosts".to_string()) };
    assert_eq!(
        signature.param_signatures,
        vec![
            ParamSignature {
                ty: range_check.clone(),
                allow_deferred: false,
                allow_add_const: true,
                allow_const: false
            },
            ParamSignature::new(gas_builtin.clone()),
            ParamSignature::new(builtin_costs),
        ]
    );
    assert_eq!(signature.branch_signatures.len(), 2);
    let range_check_output = OutputVarInfo {
        ty: range_check,
        ref_info: OutputVarReferenceInfo::Deferred(DeferredOutputKind::AddConst { param_idx: 0 }),
    };
    assert_eq!(
        signature.branch_signatures[0].vars,
        vec![
            range_check_output.clone(),
            OutputVarInfo {
                ty: gas_builtin.clone(),
                ref_info: OutputVarReferenceInfo::NewTempVar { idx: Some(0) }
            }
        ]
    );
    assert_eq!(
        signature.branch_signatures[1].vars,
        vec![
            range_check_output,
            OutputVarInfo {
                ty: gas_builtin,
                ref_info: OutputVarReferenceInfo::SameAsParam { param_idx: 1 }
            }
        ]
    );
    assert_eq!(
        signature.branch_signatures[0].ap_change,
        SierraApChange::Known { new_vars_only: false }
    );
    assert_eq!(
        signature.branch_signatures[1].ap_change,
        SierraApChange::Known { new_vars_only: false }
    );
    assert_eq!(signature.fallthrough, Some(0));
}

#[test]
fn get_gas_signature_needs_its_types() {
    let program = registry_program(
        vec![registry_type(10, "RangeCheck", vec![], 1), registry_type(11, "GasBuiltin", vec![], 1)],
        vec![],
        vec![],
    );
    let registry = ProgramRegistry::new(program).unwrap();
    assert_eq!(
        BuiltinCostGetGasLibfunc {}.specialize_signature(&registry).err(),
        Some(SpecializationError::TypeWasNotDeclared)
    );
    assert_eq!(
        BuiltinCostGetBuiltinCostsLibfunc {}.specialize_signature(&registry).err(),
        Some(SpecializationError::TypeWasNotDeclared)
    );
}

#[test]
fn get_builtin_costs_signature() {
    let program =
        registry_program(vec![registry_type(12, "BuiltinCosts", vec![], 1)], vec![], vec![]);
    let registry = ProgramRegistry::new(program).unwrap();
    let signature = BuiltinCostGetBuiltinCostsLibfunc {}.specialize_signature(&registry).unwrap();
    assert!(signature.param_signatures.is_empty());
    assert_eq!(signature.branch_signatures.len(), 1);
    assert_eq!(
        signature.branch_signatures[0].vars,
        vec![OutputVarInfo {
            ty: ConcreteTypeId { id: 12, debug_name: Some("BuiltinCosts".to_string()) },
            ref_info: OutputVarReferenceInfo::Deferred(DeferredOutputKind::Generic)
        }]
    );
    assert_eq!(
        signature.branch_signatures[0].ap_change,
        SierraApChange::Known { new_vars_only: false }
    );
    assert_eq!(signature.fallthrough, Some(0));
}

#[test]
fn builtin_costs_type_and_libfunc_names() {
    assert_eq!(BuiltinCostsType::id().name, "BuiltinCosts");
    let info = BuiltinCostsType::info();
    assert_eq!(info.size, 1);
    assert_eq!(info.size, BuiltinCostsType::SIZE);
    assert!(info.storable && info.duplicatable && info.droppable);
    assert!(BuiltinCostsType::STORABLE && BuiltinCostsType::DUPLICATABLE);
    assert!(BuiltinCostsType::DROPPABLE);
    assert_eq!(BuiltinCostGetGasLibfunc::str_id(), "get_gas_all");
    assert_eq!(BuiltinCostGetBuiltinCostsLibfunc::str_id(), "get_builtin_costs");
    assert!(matches!(
        BuiltinCostLibfunc::by_id(&GenericLibFuncId { name: "get_gas_all".to_string() }),
        Some(BuiltinCostLibfunc::BuiltinGetGas(_))
    ));
    assert!(matches!(
        BuiltinCostLibfunc::by_id(&GenericLibFuncId { name: "get_builtin_costs".to_string() }),
        Some(BuiltinCostLibfunc::GetBuiltinCosts(_))
    ));
    assert!(BuiltinCostLibfunc::by_id(&GenericLibFuncId { name: "felt_add".to_string() })
        .is_none());
}
