//! The lowering of the invocations of libfuncs: what a lowering rule is
//! given, what it hands back, and the rules of the libfuncs of Starknet.

pub mod starknet;

use vstd::prelude::*;
use crate::casm::builder::{BuilderStatement, CasmBuilder, CellExpression, Label, Var};
use crate::compiler::InvocationError;
use crate::sierra::ids::{ConcreteTypeId, StatementIdx};
use crate::sierra::program::{BranchTarget, Invocation};

verus! {

/// How a value is held: cell by cell.
#[derive(Clone, Debug, PartialEq, Eq)]
pub struct ReferenceExpression {
    pub cells: Vec<CellExpression>,
}

/// A value that a statement can use: how it is held, and its type.
#[derive(Clone, Debug, PartialEq, Eq)]
pub struct ReferenceValue {
    pub expression: ReferenceExpression,
    pub ty: ConcreteTypeId,
}

/// What a lowering rule is given: the invocation, and the values of its
/// arguments.
#[derive(Clone, Debug, PartialEq, Eq)]
pub struct CompiledInvocationBuilder {
    pub invocation: Invocation,
    pub refs: Vec<ReferenceValue>,
}

/// What one branch of a lowered invocation hands on: the place in the code
/// from which it goes on, its output variables, one list for each output, and
/// the statement that it goes on to, unless that is the next one.
#[derive(Clone, Debug, PartialEq, Eq)]
pub struct BranchOutput {
    pub label: Label,
    pub vars: Vec<Vec<Var>>,
    pub target: Option<StatementIdx>,
}

/// What the compiler checks the lowering of an invocation against.
#[derive(Copy, Clone, Debug, PartialEq, Eq)]
pub struct CostValidationInfo {
    /// The range check before and after the code, if the code uses it.
    pub range_check_info: Option<(Var, Var)>,
    /// The costs beside those of the code itself, for the two branches.
    pub extra_costs: Option<(i32, i32)>,
}

/// A lowered invocation: the steps of its code, its branches, and what its
/// costs are checked against. An invocation that needs no code hands on its
/// outputs as they are held: those are the reference changes.
#[derive(Clone, Debug, PartialEq, Eq)]
pub struct CompiledInvocation {
    pub statements: Vec<BuilderStatement>,
    pub branches: Vec<BranchOutput>,
    pub cost_validation: CostValidationInfo,
    pub reference_changes: Vec<ReferenceExpression>,
}

/// How values are held, value by value and cell by cell.
pub open spec fn expressions_view(expressions: Seq<ReferenceExpression>) -> Seq<
    Seq<CellExpression>,
> {
    Seq::new(expressions.len(), |i: int| expressions[i].cells@)
}

/// How the arguments are held, argument by argument and cell by cell.
pub open spec fn refs_view(refs: Seq<ReferenceValue>) -> Seq<Seq<CellExpression>> {
    Seq::new(refs.len(), |i: int| refs[i].expression.cells@)
}

/// Whether an invocation has no code and hands on the given outputs as they
/// are held: it falls through, and nothing is checked of its costs.
pub open spec fn is_reference_change(
    invocation: CompiledInvocation,
    outputs: Seq<Seq<CellExpression>>,
) -> bool {
    &&& invocation.statements@.len() == 0
    &&& invocation.branches@.len() == 1
    &&& invocation.branches@[0].label == Label::Fallthrough
    &&& invocation.branches@[0].vars@.len() == 0
    &&& invocation.branches@[0].target is None
    &&& invocation.cost_validation == (CostValidationInfo {
        range_check_info: None,
        extra_costs: None,
    })
    &&& expressions_view(invocation.reference_changes@) == outputs
}

/// What lists of variables stand for, list by list.
pub open spec fn vars_view(vars: Seq<Vec<Var>>) -> Seq<Seq<Var>> {
    Seq::new(vars.len(), |i: int| vars[i]@)
}

/// The statement that the branch that does not fall through goes on to, in an
/// invocation of two branches of which the first falls through.
pub open spec fn non_fallthrough(invocation: Invocation) -> Option<StatementIdx> {
    let branches = invocation.branches@;
    if branches.len() == 2 && branches[0].target == BranchTarget::Fallthrough {
        match branches[1].target {
            BranchTarget::Statement(id) => Some(id),
            BranchTarget::Fallthrough => None,
        }
    } else {
        None
    }
}

/// The one cell of a value that is held in one cell.
pub open spec fn single_cell(value: ReferenceValue) -> Option<CellExpression> {
    if value.expression.cells@.len() == 1 {
        Some(value.expression.cells@[0])
    } else {
        None
    }
}

/// Every one of the values is held in one cell.
pub open spec fn all_single(refs: Seq<ReferenceValue>) -> bool {
    forall|i: int| 0 <= i < refs.len() ==> single_cell(#[trigger] refs[i]) is Some
}

impl CompiledInvocationBuilder {
    /// Returns the statement that the branch that does not fall through goes
    /// on to.
    pub fn get_non_fallthrough_statement_id(&self) -> (res: Result<StatementIdx, InvocationError>)
        ensures
            match res {
                Ok(id) => non_fallthrough(self.invocation) == Some(id),
                Err(error) => non_fallthrough(self.invocation) is None && error
                    == InvocationError::InvalidBranches,
            },
    {
        let branches = &self.invocation.branches;
        if branches.len() != 2 {
            return Err(InvocationError::InvalidBranches);
        }
        match (branches[0].target, branches[1].target) {
            (BranchTarget::Fallthrough, BranchTarget::Statement(id)) => Ok(id),
            _ => Err(InvocationError::InvalidBranches),
        }
    }

    /// Returns the cells of the arguments, where there are `count` arguments
    /// and each is held in one cell.
    pub fn try_get_single_cells(&self, count: usize) -> (res: Result<
        Vec<CellExpression>,
        InvocationError,
    >)
        ensures
            match res {
                Ok(cells) => self.refs@.len() == count && all_single(self.refs@) && cells@.len()
                    == count && forall|i: int|
                    0 <= i < count ==> Some(#[trigger] cells@[i]) == single_cell(self.refs@[i]),
                Err(error) => if self.refs@.len() != count {
                    error == (InvocationError::WrongNumberOfArguments {
                        expected: count,
                        actual: self.refs@.len() as usize,
                    })
                } else {
                    !all_single(self.refs@) && error
                        == InvocationError::InvalidReferenceExpressionForArgument
                },
            },
    {
        if self.refs.len() != count {
            return Err(
                InvocationError::WrongNumberOfArguments {
                    expected: count,
                    actual: self.refs.len(),
                },
            );
        }
        let mut cells: Vec<CellExpression> = Vec::new();
        let mut i: usize = 0;
        while i < count
            invariant
                i <= count,
                self.refs@.len() == count,
                cells@.len() == i,
                forall|k: int| 0 <= k < i ==> single_cell(#[trigger] self.refs@[k]) == Some(cells@[k]),
            decreases count - i,
        {
            if self.refs[i].expression.cells.len() != 1 {
                return Err(InvocationError::InvalidReferenceExpressionForArgument);
            }
            cells.push(self.refs[i].expression.cells[0]);
            i = i + 1;
        }
        Ok(cells)
    }

    /// Builds the lowered invocation from the code that a rule wrote, its
    /// branches and what its costs are checked against.
    pub fn build_from_casm_builder(
        &self,
        casm_builder: CasmBuilder,
        branches: Vec<BranchOutput>,
        cost_validation: CostValidationInfo,
    ) -> (res: CompiledInvocation)
        ensures
            res.statements == casm_builder.statements,
            res.branches == branches,
            res.cost_validation == cost_validation,
            res.reference_changes@.len() == 0,
    {
        CompiledInvocation {
            statements: casm_builder.statements,
            branches,
            cost_validation,
            reference_changes: Vec::new(),
        }
    }

    /// Builds a lowered invocation without code, which hands on the outputs
    /// as they are held.
    pub fn build_only_reference_changes(&self, outputs: Vec<ReferenceExpression>) -> (res:
        CompiledInvocation)
        ensures
            is_reference_change(res, expressions_view(outputs@)),
    {
        let mut branches: Vec<BranchOutput> = Vec::new();
        branches.push(BranchOutput { label: Label::Fallthrough, vars: Vec::new(), target: None });
        CompiledInvocation {
            statements: Vec::new(),
            branches,
            cost_validation: CostValidationInfo { range_check_info: None, extra_costs: None },
            reference_changes: outputs,
        }
    }
}

} // verus!
