//! The signature of a libfunc: what it takes, and what each of its branches
//! hands on.

use vstd::prelude::*;
use crate::sierra::ids::{ConcreteTypeId, GenericTypeId};
use crate::sierra::program::{GenericArg, TypeDeclaration};
use crate::sierra::registry::{ProgramRegistry, SpecializationError};

verus! {

/// What a libfunc takes in one place.
#[derive(Clone, Debug, PartialEq, Eq)]
pub struct ParamSignature {
    /// The type of the expected parameter.
    pub ty: ConcreteTypeId,
    /// Whether the argument may be a deferred reference.
    pub allow_deferred: bool,
    /// Whether the argument may be a cell with a constant added.
    pub allow_add_const: bool,
    /// Whether the argument may be a constant.
    pub allow_const: bool,
}

impl ParamSignature {
    /// The signature of a parameter that has to be held in a cell.
    pub fn new(ty: ConcreteTypeId) -> (res: ParamSignature)
        ensures
            res == (ParamSignature {
                ty,
                allow_deferred: false,
                allow_add_const: false,
                allow_const: false,
            }),
    {
        ParamSignature { ty, allow_deferred: false, allow_add_const: false, allow_const: false }
    }
}

/// How an output that is not stored yet is to be computed.
#[derive(Copy, Clone, Debug, PartialEq, Eq, Structural)]
pub enum DeferredOutputKind {
    /// The output is a constant.
    Const,
    /// The output is the parameter at `param_idx` with a constant added.
    AddConst { param_idx: usize },
    /// The output is computed in a way that only its libfunc knows.
    Generic,
}

/// Where an output variable of a libfunc is held.
#[derive(Copy, Clone, Debug, PartialEq, Eq, Structural)]
pub enum OutputVarReferenceInfo {
    /// The output is the parameter at `param_idx`.
    SameAsParam { param_idx: usize },
    /// The output is a new temporary variable: the one at the place `idx` among
    /// them, counted from the end of the stack, where that is known.
    NewTempVar { idx: Option<usize> },
    /// The output is a new local variable.
    NewLocalVar,
    /// The output is not stored yet.
    Deferred(DeferredOutputKind),
}

/// An output variable of a libfunc.
#[derive(Clone, Debug, PartialEq, Eq)]
pub struct OutputVarInfo {
    pub ty: ConcreteTypeId,
    pub ref_info: OutputVarReferenceInfo,
}

/// What is known of the change of `ap` that a branch causes.
#[derive(Copy, Clone, Debug, PartialEq, Eq, Structural)]
pub enum SierraApChange {
    /// The change is not known when the libfunc is made concrete.
    Unknown,
    /// The change is known; `new_vars_only` tells whether `ap` moves past the
    /// new variables only.
    Known { new_vars_only: bool },
    /// The branch aligns `ap` with its siblings.
    BranchAlign,
}

/// One branch of a libfunc.
#[derive(Clone, Debug, PartialEq, Eq)]
pub struct BranchSignature {
    /// The variables that the branch hands on.
    pub vars: Vec<OutputVarInfo>,
    pub ap_change: SierraApChange,
}

/// The signature of a libfunc.
#[derive(Clone, Debug, PartialEq, Eq)]
pub struct LibfuncSignature {
    pub param_signatures: Vec<ParamSignature>,
    pub branch_signatures: Vec<BranchSignature>,
    /// The branch that goes on to the next statement, if there is one.
    pub fallthrough: Option<usize>,
}

impl LibfuncSignature {
    /// Whether this is the signature of a libfunc that does not branch, takes
    /// nothing and hands on `output_info` with the change `ap_change`.
    pub open spec fn is_non_branch(
        self,
        output_info: Seq<OutputVarInfo>,
        ap_change: SierraApChange,
    ) -> bool {
        &&& self.param_signatures@.len() == 0
        &&& self.branch_signatures@.len() == 1
        &&& self.branch_signatures@[0].vars@ == output_info
        &&& self.branch_signatures@[0].ap_change == ap_change
        &&& self.fallthrough == Some(0usize)
    }

    /// The signature of a libfunc that does not branch and takes nothing.
    pub fn new_non_branch(output_info: Vec<OutputVarInfo>, ap_change: SierraApChange) -> (res:
        LibfuncSignature)
        ensures
            res.is_non_branch(output_info@, ap_change),
    {
        let mut branch_signatures: Vec<BranchSignature> = Vec::new();
        branch_signatures.push(BranchSignature { vars: output_info, ap_change });
        LibfuncSignature { param_signatures: Vec::new(), branch_signatures, fallthrough: Some(0) }
    }
}

/// Whether two generic arguments are the same: the same kind, with the same
/// identifier or the same number.
pub open spec fn same_arg(a: GenericArg, b: GenericArg) -> bool {
    match (a, b) {
        (GenericArg::UserType(x), GenericArg::UserType(y)) => x.id == y.id,
        (GenericArg::Type(x), GenericArg::Type(y)) => x.id == y.id,
        (GenericArg::Value(x), GenericArg::Value(y)) => x@ == y@,
        (GenericArg::UserFunc(x), GenericArg::UserFunc(y)) => x.id == y.id,
        (GenericArg::LibFunc(x), GenericArg::LibFunc(y)) => x.id == y.id,
        _ => false,
    }
}

/// Whether two lists of generic arguments are the same, place by place.
pub open spec fn same_args(a: Seq<GenericArg>, b: Seq<GenericArg>) -> bool {
    a.len() == b.len() && forall|i: int| 0 <= i < a.len() ==> same_arg(#[trigger] a[i], b[i])
}

/// Whether two generic arguments are the same.
pub fn args_equal(a: &GenericArg, b: &GenericArg) -> (same: bool)
    ensures
        same == same_arg(*a, *b),
{
    match (a, b) {
        (GenericArg::UserType(x), GenericArg::UserType(y)) => x.id == y.id,
        (GenericArg::Type(x), GenericArg::Type(y)) => x.id == y.id,
        (GenericArg::Value(x), GenericArg::Value(y)) => x.equals(y),
        (GenericArg::UserFunc(x), GenericArg::UserFunc(y)) => x.id == y.id,
        (GenericArg::LibFunc(x), GenericArg::LibFunc(y)) => x.id == y.id,
        _ => false,
    }
}

/// Whether two lists of generic arguments are the same, place by place.
pub fn arg_lists_equal(a: &[GenericArg], b: &[GenericArg]) -> (same: bool)
    ensures
        same == same_args(a@, b@),
{
    if a.len() != b.len() {
        return false;
    }
    let mut i: usize = 0;
    while i < a.len()
        invariant
            i <= a.len(),
            a@.len() == b@.len(),
            forall|k: int| 0 <= k < i ==> same_arg(#[trigger] a@[k], b@[k]),
        decreases a.len() - i,
    {
        if !args_equal(&a[i], &b[i]) {
            return false;
        }
        i = i + 1;
    }
    true
}

/// The place of the first declaration, from the place `from` on, of the
/// generic type `name` with the arguments `args`.
pub open spec fn find_declared(
    decls: Seq<TypeDeclaration>,
    name: Seq<char>,
    args: Seq<GenericArg>,
    from: int,
) -> Option<int>
    decreases decls.len() - from,
{
    if from < 0 || from >= decls.len() {
        None
    } else if decls[from].info.long_id.generic_id.name@ == name && same_args(
        decls[from].info.long_id.generic_args@,
        args,
    ) {
        Some(from)
    } else {
        find_declared(decls, name, args, from + 1)
    }
}

/// What a libfunc can ask of the program while its signature is made
/// concrete.
pub trait SignatureSpecializationContext {
    /// The concrete type that the program declares for a generic type with
    /// arguments, if it declares one.
    spec fn spec_concrete_type(&self, name: Seq<char>, args: Seq<GenericArg>) -> Option<
        ConcreteTypeId,
    >;

    /// Returns the concrete type that the program declares for the generic
    /// type `id` with the arguments `generic_args`.
    fn get_concrete_type(&self, id: GenericTypeId, generic_args: &[GenericArg]) -> (res: Result<
        ConcreteTypeId,
        SpecializationError,
    >)
        ensures
            match res {
                Ok(ty) => self.spec_concrete_type(id.name@, generic_args@) == Some(ty),
                Err(error) => self.spec_concrete_type(id.name@, generic_args@) is None && error
                    == SpecializationError::TypeWasNotDeclared,
            },
    ;
}

impl SignatureSpecializationContext for ProgramRegistry {
    open spec fn spec_concrete_type(&self, name: Seq<char>, args: Seq<GenericArg>) -> Option<
        ConcreteTypeId,
    > {
        let decls = self.spec_program().type_declarations@;
        match find_declared(decls, name, args, 0) {
            Some(i) => Some(decls[i].id),
            None => None,
        }
    }

    fn get_concrete_type(&self, id: GenericTypeId, generic_args: &[GenericArg]) -> (res: Result<
        ConcreteTypeId,
        SpecializationError,
    >) {
        let decls = &self.program().type_declarations;
        let n = decls.len();
        let mut i: usize = 0;
        while i < n
            invariant
                i <= n,
                n == decls@.len(),
                *decls == self.spec_program().type_declarations,
                find_declared(decls@, id.name@, generic_args@, 0) == find_declared(
                    decls@,
                    id.name@,
                    generic_args@,
                    i as int,
                ),
            decreases n - i,
        {
            let long_id = &decls[i].info.long_id;
            if long_id.generic_id.name == id.name && arg_lists_equal(
                long_id.generic_args.as_slice(),
                generic_args,
            ) {
                return Ok(decls[i].id.duplicate());
            }
            i = i + 1;
        }
        Err(SpecializationError::TypeWasNotDeclared)
    }
}

} // verus!
