//! The parts of a Sierra program.

use vstd::prelude::*;
use crate::bigint::BigInt;
use crate::sierra::ids::{
    ConcreteLibFuncId,
    ConcreteTypeId,
    FunctionId,
    GenericLibFuncId,
    GenericTypeId,
    StatementIdx,
    UserTypeId,
    VarId,
};

verus! {

/// An argument of a generic type or libfunc.
#[derive(Clone, Debug, PartialEq, Eq)]
pub enum GenericArg {
    UserType(UserTypeId),
    Type(ConcreteTypeId),
    Value(BigInt),
    UserFunc(FunctionId),
    LibFunc(ConcreteLibFuncId),
}

/// A generic type with its arguments.
#[derive(Clone, Debug, PartialEq, Eq)]
pub struct ConcreteTypeLongId {
    pub generic_id: GenericTypeId,
    pub generic_args: Vec<GenericArg>,
}

/// What the lowering has to know of a concrete type.
#[derive(Clone, Debug, PartialEq, Eq)]
pub struct TypeInfo {
    pub long_id: ConcreteTypeLongId,
    /// Whether a value of the type can be stored in memory.
    pub storable: bool,
    /// Whether a value of the type can be dropped.
    pub droppable: bool,
    /// Whether a value of the type can be duplicated.
    pub duplicatable: bool,
    /// The number of memory cells that a value of the type takes.
    pub size: i16,
}

/// The declaration of a concrete type.
#[derive(Clone, Debug, PartialEq, Eq)]
pub struct TypeDeclaration {
    pub id: ConcreteTypeId,
    pub info: TypeInfo,
}

/// A generic libfunc with its arguments.
#[derive(Clone, Debug, PartialEq, Eq)]
pub struct ConcreteLibFuncLongId {
    pub generic_id: GenericLibFuncId,
    pub generic_args: Vec<GenericArg>,
}

/// The declaration of a concrete libfunc.
#[derive(Clone, Debug, PartialEq, Eq)]
pub struct LibFuncDeclaration {
    pub id: ConcreteLibFuncId,
    pub long_id: ConcreteLibFuncLongId,
}

/// Where a branch of an invocation goes on.
#[derive(Copy, Clone, Debug, Hash, PartialEq, Eq, Structural)]
pub enum BranchTarget {
    /// The statement after the invocation.
    Fallthrough,
    Statement(StatementIdx),
}

/// One branch of an invocation: where it goes on, and the variables that it
/// binds.
#[derive(Clone, Debug, PartialEq, Eq)]
pub struct BranchInfo {
    pub target: BranchTarget,
    pub results: Vec<VarId>,
}

/// The invocation of a libfunc.
#[derive(Clone, Debug, PartialEq, Eq)]
pub struct Invocation {
    pub libfunc_id: ConcreteLibFuncId,
    pub args: Vec<VarId>,
    pub branches: Vec<BranchInfo>,
}

/// A statement: the invocation of a libfunc, or the return from a function.
#[derive(Clone, Debug, PartialEq, Eq)]
pub enum Statement {
    Invocation(Invocation),
    Return(Vec<VarId>),
}

/// The types that a function takes and returns.
#[derive(Clone, Debug, PartialEq, Eq)]
pub struct FunctionSignature {
    pub param_types: Vec<ConcreteTypeId>,
    pub ret_types: Vec<ConcreteTypeId>,
}

/// A parameter of a function.
#[derive(Clone, Debug, PartialEq, Eq)]
pub struct Param {
    pub id: VarId,
    pub ty: ConcreteTypeId,
}

/// A function of the program.
#[derive(Clone, Debug, PartialEq, Eq)]
pub struct Function {
    pub id: FunctionId,
    pub signature: FunctionSignature,
    pub params: Vec<Param>,
    /// The statement that the function starts at.
    pub entry_point: StatementIdx,
}

/// A Sierra program.
#[derive(Clone, Debug, PartialEq, Eq)]
pub struct Program {
    pub type_declarations: Vec<TypeDeclaration>,
    pub libfunc_declarations: Vec<LibFuncDeclaration>,
    pub statements: Vec<Statement>,
    pub funcs: Vec<Function>,
}

} // verus!
