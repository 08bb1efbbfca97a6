//! What the lowering of Sierra to CASM hands on: the compiled program, and the
//! reasons for which a program cannot be lowered.

use vstd::prelude::*;
use vstd::string::*;
use crate::bigint::{decimal_digits, BigInt};
use crate::casm::instructions::Instruction;
use crate::metadata::ApChangeInfo;
use crate::sierra::ids::VarId;
use crate::sierra::registry::{registry_error_text, ProgramRegistryError};

verus! {

/// Why the state of the variables could not be edited.
#[derive(Copy, Clone, Debug, PartialEq, Eq, Structural)]
pub enum EditStateError {
    /// A variable is used that no statement has bound.
    MissingReference(VarId),
    /// A variable is bound that is bound already.
    VariableOverride(VarId),
}

/// Why the references of a program are not in order.
#[derive(Copy, Clone, Debug, PartialEq, Eq, Structural)]
pub enum ReferencesError {
    /// Two paths reach a statement with different references.
    InconsistentReferences,
    /// A statement is named that the program does not hold.
    InvalidStatementIdx,
    /// No path with known references reaches a statement.
    MissingReferencesForStatement,
    EditStateError(EditStateError),
}

/// Why an invocation could not be lowered.
#[derive(Copy, Clone, Debug, PartialEq, Eq, Structural)]
pub enum InvocationError {
    /// There is no lowering rule for the libfunc.
    NotImplemented,
    /// The invocation has another number of arguments than the libfunc takes.
    WrongNumberOfArguments { expected: usize, actual: usize },
    /// An argument has another type than the libfunc takes.
    InvalidReferenceTypeForArgument,
    /// An argument is not held in the form that the libfunc needs.
    InvalidReferenceExpressionForArgument,
    /// The invocation does not branch as the libfunc does.
    InvalidBranches,
    /// A generic argument of the libfunc is not one that it takes.
    InvalidGenericArg,
}

/// Why a program could not be lowered.
#[derive(Clone, Debug, PartialEq, Eq)]
pub enum CompilationError {
    ProgramRegistryError(ProgramRegistryError),
    ReferencesError(ReferencesError),
    InvocationError(InvocationError),
    /// The lowering of a statement does not change `ap`, or use the range
    /// check, as the metadata say.
    CostValidationMismatch,
}

/// The text of an error of the references.
pub open spec fn references_error_text(error: ReferencesError) -> Seq<char> {
    match error {
        ReferencesError::InconsistentReferences => "Inconsistent references."@,
        ReferencesError::InvalidStatementIdx => "Invalid statement index."@,
        ReferencesError::MissingReferencesForStatement => "Missing references for statement."@,
        ReferencesError::EditStateError(EditStateError::MissingReference(var)) =>
            "missing reference "@ + decimal_digits(var.id as nat),
        ReferencesError::EditStateError(EditStateError::VariableOverride(var)) =>
            "overridden variable "@ + decimal_digits(var.id as nat),
    }
}

/// The text of an error of the lowering of an invocation.
pub open spec fn invocation_error_text(error: InvocationError) -> Seq<char> {
    match error {
        InvocationError::NotImplemented => "The libfunc has no lowering rule."@,
        InvocationError::WrongNumberOfArguments { expected, actual } => "Expected "@
            + decimal_digits(expected as nat) + " arguments, got "@ + decimal_digits(
            actual as nat,
        ) + "."@,
        InvocationError::InvalidReferenceTypeForArgument =>
            "An argument has another type than the libfunc takes."@,
        InvocationError::InvalidReferenceExpressionForArgument =>
            "An argument is not held in the form that the libfunc needs."@,
        InvocationError::InvalidBranches => "The invocation does not branch as the libfunc does."@,
        InvocationError::InvalidGenericArg =>
            "A generic argument of the libfunc is not one that it takes."@,
    }
}

/// The text of an error of the lowering.
pub open spec fn compilation_error_text(error: CompilationError) -> Seq<char> {
    match error {
        CompilationError::ProgramRegistryError(error) => registry_error_text(error),
        CompilationError::ReferencesError(error) => references_error_text(error),
        CompilationError::InvocationError(error) => invocation_error_text(error),
        CompilationError::CostValidationMismatch =>
            "The code does not change ap as the metadata say."@,
    }
}

fn number_text(n: usize) -> (text: String)
    ensures
        text@ == decimal_digits(n as nat),
{
    BigInt::from_usize(n).to_string()
}

impl ReferencesError {
    /// The text of the error.
    pub fn to_string(&self) -> (text: String)
        ensures
            text@ == references_error_text(*self),
    {
        match self {
            ReferencesError::InconsistentReferences => String::from_str("Inconsistent references."),
            ReferencesError::InvalidStatementIdx => String::from_str("Invalid statement index."),
            ReferencesError::MissingReferencesForStatement => String::from_str(
                "Missing references for statement.",
            ),
            ReferencesError::EditStateError(EditStateError::MissingReference(var)) => {
                let mut text = String::from_str("missing reference ");
                text.append(BigInt::from_u128(var.id as u128).to_string().as_str());
                text
            },
            ReferencesError::EditStateError(EditStateError::VariableOverride(var)) => {
                let mut text = String::from_str("overridden variable ");
                text.append(BigInt::from_u128(var.id as u128).to_string().as_str());
                text
            },
        }
    }
}

impl InvocationError {
    /// The text of the error.
    pub fn to_string(&self) -> (text: String)
        ensures
            text@ == invocation_error_text(*self),
    {
        match self {
            InvocationError::NotImplemented => String::from_str("The libfunc has no lowering rule."),
            InvocationError::WrongNumberOfArguments { expected, actual } => {
                let mut text = String::from_str("Expected ");
                text.append(number_text(*expected).as_str());
                text.append(" arguments, got ");
                text.append(number_text(*actual).as_str());
                text.append(".");
                text
            },
            InvocationError::InvalidReferenceTypeForArgument => String::from_str(
                "An argument has another type than the libfunc takes.",
            ),
            InvocationError::InvalidReferenceExpressionForArgument => String::from_str(
                "An argument is not held in the form that the libfunc needs.",
            ),
            InvocationError::InvalidBranches => String::from_str(
                "The invocation does not branch as the libfunc does.",
            ),
            InvocationError::InvalidGenericArg => String::from_str(
                "A generic argument of the libfunc is not one that it takes.",
            ),
        }
    }
}

impl CompilationError {
    /// The text of the error.
    pub fn to_string(&self) -> (text: String)
        ensures
            text@ == compilation_error_text(*self),
    {
        match self {
            CompilationError::ProgramRegistryError(error) => error.to_string(),
            CompilationError::ReferencesError(error) => error.to_string(),
            CompilationError::InvocationError(error) => error.to_string(),
            CompilationError::CostValidationMismatch => String::from_str(
                "The code does not change ap as the metadata say.",
            ),
        }
    }
}

/// What is known of the code of one Sierra statement.
#[derive(Copy, Clone, Debug, PartialEq, Eq, Structural)]
pub struct SierraStatementDebugInfo {
    /// The offset of the statement's code in the code of the program.
    pub code_offset: usize,
    /// The change of `ap` that the statement's code causes.
    pub ap_change: usize,
}

/// What is known of the code of the Sierra statements, statement by statement.
#[derive(Clone, Debug, PartialEq, Eq)]
pub struct CairoProgramDebugInfo {
    pub sierra_statement_info: Vec<SierraStatementDebugInfo>,
}

/// A compiled program.
#[derive(Clone, Debug, PartialEq, Eq)]
pub struct CairoProgram {
    pub instructions: Vec<Instruction>,
    pub debug_info: CairoProgramDebugInfo,
}

/// Whether the code of every statement for which the analysis gives a change
/// of `ap` is a statement of the program and changes `ap` by as much.
pub open spec fn ap_changes_consistent(program: CairoProgram, info: ApChangeInfo) -> bool {
    forall|i: int|
        0 <= i < info.variable_values@.len() ==> {
            let entry = #[trigger] info.variable_values@[i];
            entry.statement.0 < program.debug_info.sierra_statement_info@.len()
                && program.debug_info.sierra_statement_info@[entry.statement.0 as int].ap_change
                == entry.ap_change
        }
}

/// Checks the changes of `ap` of the compiled code against those that the
/// analysis gives.
pub fn check_ap_changes(program: &CairoProgram, info: &ApChangeInfo) -> (consistent: bool)
    ensures
        consistent == ap_changes_consistent(*program, *info),
{
    let statements = &program.debug_info.sierra_statement_info;
    let mut i: usize = 0;
    while i < info.variable_values.len()
        invariant
            i <= info.variable_values.len(),
            *statements == program.debug_info.sierra_statement_info,
            forall|k: int|
                0 <= k < i ==> {
                    let entry = #[trigger] info.variable_values@[k];
                    entry.statement.0 < statements@.len()
                        && statements@[entry.statement.0 as int].ap_change == entry.ap_change
                },
        decreases info.variable_values.len() - i,
    {
        let entry = info.variable_values[i];
        if entry.statement.0 >= statements.len() {
            return false;
        }
        if statements[entry.statement.0].ap_change != entry.ap_change {
            return false;
        }
        i = i + 1;
    }
    true
}

} // verus!
