//! The libfuncs that pay for the use of builtins: one that takes gas for the
//! builtins that a function uses, and one that hands out the pointer to the
//! array of builtin costs.

use vstd::prelude::*;
use vstd::string::*;
use crate::extensions::lib_func::{
    BranchSignature,
    DeferredOutputKind,
    LibfuncSignature,
    OutputVarInfo,
    OutputVarReferenceInfo,
    ParamSignature,
    SierraApChange,
    SignatureSpecializationContext,
};
use crate::sierra::ids::{ConcreteTypeId, GenericLibFuncId, GenericTypeId};
use crate::sierra::program::{ConcreteTypeLongId, GenericArg, TypeInfo};
use crate::sierra::registry::SpecializationError;

verus! {

/// The type of the gas counter.
#[derive(Default)]
pub struct GasBuiltinType {}

impl GasBuiltinType {
    /// The name of the generic type.
    pub fn id() -> (id: GenericTypeId)
        ensures
            id.name@ == "GasBuiltin"@,
    {
        GenericTypeId::new_inline("GasBuiltin")
    }
}

/// The type of the range check builtin.
#[derive(Default)]
pub struct RangeCheckType {}

impl RangeCheckType {
    /// The name of the generic type.
    pub fn id() -> (id: GenericTypeId)
        ensures
            id.name@ == "RangeCheck"@,
    {
        GenericTypeId::new_inline("RangeCheck")
    }
}

/// Represents a pointer to an array with the builtin costs.
/// Every element in the array is the cost of a single invocation of a builtin.
///
/// Offsets to the array are given by `CostTokenType::offset_in_builtin_costs`.
#[derive(Default)]
pub struct BuiltinCostsType {}

impl BuiltinCostsType {
    pub const STORABLE: bool = true;

    pub const DUPLICATABLE: bool = true;

    pub const DROPPABLE: bool = true;

    pub const SIZE: i16 = 1;

    /// The name of the generic type.
    pub fn id() -> (id: GenericTypeId)
        ensures
            id.name@ == "BuiltinCosts"@,
    {
        GenericTypeId::new_inline("BuiltinCosts")
    }

    /// What the lowering has to know of the type: a pointer takes one cell,
    /// and can be stored, duplicated and dropped.
    pub fn info() -> (info: TypeInfo)
        ensures
            info.long_id.generic_id.name@ == "BuiltinCosts"@,
            info.long_id.generic_args@.len() == 0,
            info.storable && info.duplicatable && info.droppable,
            info.size == 1,
    {
        TypeInfo {
            long_id: ConcreteTypeLongId { generic_id: Self::id(), generic_args: Vec::new() },
            storable: true,
            droppable: true,
            duplicatable: true,
            size: 1,
        }
    }
}

/// No generic arguments.
pub open spec fn no_args() -> Seq<GenericArg> {
    Seq::<GenericArg>::empty()
}

fn concrete_type_without_args<C: SignatureSpecializationContext>(context: &C, id: GenericTypeId)
    -> (res: Result<ConcreteTypeId, SpecializationError>)
    ensures
        match res {
            Ok(ty) => context.spec_concrete_type(id.name@, no_args()) == Some(ty),
            Err(error) => context.spec_concrete_type(id.name@, no_args()) is None && error
                == SpecializationError::TypeWasNotDeclared,
        },
{
    let args: Vec<GenericArg> = Vec::new();
    context.get_concrete_type(id, args.as_slice())
}

/// Libfunc for getting gas to be used by a builtin.
#[derive(Default)]
pub struct BuiltinCostGetGasLibfunc {}

/// The signature of the libfunc that takes gas for builtins. It takes the
/// range check, which may be a cell with a constant added, the gas counter and
/// the builtin costs. Both of its branches hand on the range check with a
/// constant added. Where there is enough gas, the first branch goes on with the
/// new gas counter in a new temporary variable; the second goes on with the
/// gas counter as it was.
pub open spec fn is_get_gas_signature(
    signature: LibfuncSignature,
    gas_builtin: ConcreteTypeId,
    range_check: ConcreteTypeId,
    builtin_costs: ConcreteTypeId,
) -> bool {
    let range_check_output = OutputVarInfo {
        ty: range_check,
        ref_info: OutputVarReferenceInfo::Deferred(DeferredOutputKind::AddConst { param_idx: 0 }),
    };
    &&& signature.param_signatures@ == seq![
        ParamSignature {
            ty: range_check,
            allow_deferred: false,
            allow_add_const: true,
            allow_const: false,
        },
        ParamSignature {
            ty: gas_builtin,
            allow_deferred: false,
            allow_add_const: false,
            allow_const: false,
        },
        ParamSignature {
            ty: builtin_costs,
            allow_deferred: false,
            allow_add_const: false,
            allow_const: false,
        },
    ]
    &&& signature.branch_signatures@.len() == 2
    &&& signature.branch_signatures@[0].vars@ == seq![
        range_check_output,
        OutputVarInfo {
            ty: gas_builtin,
            ref_info: OutputVarReferenceInfo::NewTempVar { idx: Some(0usize) },
        },
    ]
    &&& signature.branch_signatures@[0].ap_change == (SierraApChange::Known {
        new_vars_only: false,
    })
    &&& signature.branch_signatures@[1].vars@ == seq![
        range_check_output,
        OutputVarInfo {
            ty: gas_builtin,
            ref_info: OutputVarReferenceInfo::SameAsParam { param_idx: 1 },
        },
    ]
    &&& signature.branch_signatures@[1].ap_change == (SierraApChange::Known {
        new_vars_only: false,
    })
    &&& signature.fallthrough == Some(0usize)
}

impl BuiltinCostGetGasLibfunc {
    /// The name of the generic libfunc.
    pub open spec fn spec_str_id() -> Seq<char> {
        "get_gas_all"@
    }

    /// The name of the generic libfunc.
    pub fn str_id() -> (id: &'static str)
        ensures
            id@ == Self::spec_str_id(),
    {
        "get_gas_all"
    }

    /// The signature of the libfunc in a program that declares the gas
    /// counter, the range check and the builtin costs. The first of these, in
    /// this order, that the program does not declare is the error.
    pub fn specialize_signature<C: SignatureSpecializationContext>(&self, context: &C) -> (res:
        Result<LibfuncSignature, SpecializationError>)
        ensures
            match (
                context.spec_concrete_type("GasBuiltin"@, no_args()),
                context.spec_concrete_type("RangeCheck"@, no_args()),
                context.spec_concrete_type("BuiltinCosts"@, no_args()),
            ) {
                (Some(gas_builtin), Some(range_check), Some(builtin_costs)) => res matches Ok(
                    signature,
                ) && is_get_gas_signature(signature, gas_builtin, range_check, builtin_costs),
                _ => res == Err::<LibfuncSignature, SpecializationError>(
                    SpecializationError::TypeWasNotDeclared,
                ),
            },
    {
        let gas_builtin_type = match concrete_type_without_args(context, GasBuiltinType::id()) {
            Ok(ty) => ty,
            Err(error) => {
                return Err(error);
            },
        };
        let range_check_type = match concrete_type_without_args(context, RangeCheckType::id()) {
            Ok(ty) => ty,
            Err(error) => {
                return Err(error);
            },
        };
        let builtin_costs_type = match concrete_type_without_args(context, BuiltinCostsType::id()) {
            Ok(ty) => ty,
            Err(error) => {
                return Err(error);
            },
        };
        let ghost gas_builtin = gas_builtin_type;
        let ghost range_check = range_check_type;
        let ghost builtin_costs = builtin_costs_type;
        let mut param_signatures: Vec<ParamSignature> = Vec::new();
        param_signatures.push(
            ParamSignature {
                ty: range_check_type.duplicate(),
                allow_deferred: false,
                allow_add_const: true,
                allow_const: false,
            },
        );
        param_signatures.push(ParamSignature::new(gas_builtin_type.duplicate()));
        param_signatures.push(ParamSignature::new(builtin_costs_type));
        // Success:
        let mut success_vars: Vec<OutputVarInfo> = Vec::new();
        success_vars.push(
            OutputVarInfo {
                ty: range_check_type.duplicate(),
                ref_info: OutputVarReferenceInfo::Deferred(
                    DeferredOutputKind::AddConst { param_idx: 0 },
                ),
            },
        );
        success_vars.push(
            OutputVarInfo {
                ty: gas_builtin_type.duplicate(),
                ref_info: OutputVarReferenceInfo::NewTempVar { idx: Some(0) },
            },
        );
        // Failure:
        let mut failure_vars: Vec<OutputVarInfo> = Vec::new();
        failure_vars.push(
            OutputVarInfo {
                ty: range_check_type,
                ref_info: OutputVarReferenceInfo::Deferred(
                    DeferredOutputKind::AddConst { param_idx: 0 },
                ),
            },
        );
        failure_vars.push(
            OutputVarInfo {
                ty: gas_builtin_type,
                ref_info: OutputVarReferenceInfo::SameAsParam { param_idx: 1 },
            },
        );
        let mut branch_signatures: Vec<BranchSignature> = Vec::new();
        branch_signatures.push(
            BranchSignature {
                vars: success_vars,
                ap_change: SierraApChange::Known { new_vars_only: false },
            },
        );
        branch_signatures.push(
            BranchSignature {
                vars: failure_vars,
                ap_change: SierraApChange::Known { new_vars_only: false },
            },
        );
        let signature = LibfuncSignature {
            param_signatures,
            branch_signatures,
            fallthrough: Some(0),
        };
        proof {
            let range_check_output = OutputVarInfo {
                ty: range_check,
                ref_info: OutputVarReferenceInfo::Deferred(
                    DeferredOutputKind::AddConst { param_idx: 0 },
                ),
            };
            assert(signature.param_signatures@ =~= seq![
                ParamSignature {
                    ty: range_check,
                    allow_deferred: false,
                    allow_add_const: true,
                    allow_const: false,
                },
                ParamSignature {
                    ty: gas_builtin,
                    allow_deferred: false,
                    allow_add_const: false,
                    allow_const: false,
                },
                ParamSignature {
                    ty: builtin_costs,
                    allow_deferred: false,
                    allow_add_const: false,
                    allow_const: false,
                },
            ]);
            assert(signature.branch_signatures@[0].vars@ =~= seq![
                range_check_output,
                OutputVarInfo {
                    ty: gas_builtin,
                    ref_info: OutputVarReferenceInfo::NewTempVar { idx: Some(0usize) },
                },
            ]);
            assert(signature.branch_signatures@[1].vars@ =~= seq![
                range_check_output,
                OutputVarInfo {
                    ty: gas_builtin,
                    ref_info: OutputVarReferenceInfo::SameAsParam { param_idx: 1 },
                },
            ]);
        }
        Ok(signature)
    }
}

/// Libfunc for getting the pointer to the gas cost array.
/// See `BuiltinCostsType`.
#[derive(Default)]
pub struct BuiltinCostGetBuiltinCostsLibfunc {}

impl BuiltinCostGetBuiltinCostsLibfunc {
    /// The name of the generic libfunc.
    pub open spec fn spec_str_id() -> Seq<char> {
        "get_builtin_costs"@
    }

    /// The name of the generic libfunc.
    pub fn str_id() -> (id: &'static str)
        ensures
            id@ == Self::spec_str_id(),
    {
        "get_builtin_costs"
    }

    /// The signature of the libfunc in a program that declares the builtin
    /// costs: it takes nothing and hands on the pointer, which is not stored
    /// yet.
    pub fn specialize_signature<C: SignatureSpecializationContext>(&self, context: &C) -> (res:
        Result<LibfuncSignature, SpecializationError>)
        ensures
            match context.spec_concrete_type("BuiltinCosts"@, no_args()) {
                Some(builtin_costs) => res matches Ok(signature) && signature.is_non_branch(
                    seq![
                        OutputVarInfo {
                            ty: builtin_costs,
                            ref_info: OutputVarReferenceInfo::Deferred(DeferredOutputKind::Generic),
                        },
                    ],
                    SierraApChange::Known { new_vars_only: false },
                ),
                None => res == Err::<LibfuncSignature, SpecializationError>(
                    SpecializationError::TypeWasNotDeclared,
                ),
            },
    {
        let builtin_costs_type = match concrete_type_without_args(context, BuiltinCostsType::id()) {
            Ok(ty) => ty,
            Err(error) => {
                return Err(error);
            },
        };
        let mut output_info: Vec<OutputVarInfo> = Vec::new();
        output_info.push(
            OutputVarInfo {
                ty: builtin_costs_type,
                ref_info: OutputVarReferenceInfo::Deferred(DeferredOutputKind::Generic),
            },
        );
        Ok(
            LibfuncSignature::new_non_branch(
                output_info,
                SierraApChange::Known { new_vars_only: false },
            ),
        )
    }
}

/// The libfuncs that pay for the use of builtins.
pub enum BuiltinCostLibfunc {
    BuiltinGetGas(BuiltinCostGetGasLibfunc),
    GetBuiltinCosts(BuiltinCostGetBuiltinCostsLibfunc),
}

impl BuiltinCostLibfunc {
    /// The libfunc of the given name, if it is one of these.
    pub fn by_id(id: &GenericLibFuncId) -> (res: Option<BuiltinCostLibfunc>)
        ensures
            match res {
                Some(BuiltinCostLibfunc::BuiltinGetGas(_)) => id.name@
                    == BuiltinCostGetGasLibfunc::spec_str_id(),
                Some(BuiltinCostLibfunc::GetBuiltinCosts(_)) => id.name@
                    != BuiltinCostGetGasLibfunc::spec_str_id() && id.name@
                    == BuiltinCostGetBuiltinCostsLibfunc::spec_str_id(),
                None => id.name@ != BuiltinCostGetGasLibfunc::spec_str_id() && id.name@
                    != BuiltinCostGetBuiltinCostsLibfunc::spec_str_id(),
            },
    {
        if id.name == BuiltinCostGetGasLibfunc::str_id().to_owned() {
            Some(BuiltinCostLibfunc::BuiltinGetGas(BuiltinCostGetGasLibfunc {  }))
        } else if id.name == BuiltinCostGetBuiltinCostsLibfunc::str_id().to_owned() {
            Some(BuiltinCostLibfunc::GetBuiltinCosts(BuiltinCostGetBuiltinCostsLibfunc {  }))
        } else {
            None
        }
    }
}

} // verus!
