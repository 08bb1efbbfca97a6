//! The builder that the lowering rules write their code with. A rule names
//! its inputs, allocates variables and states, step by step, what holds
//! between them; the builder keeps the steps in their order.

use vstd::prelude::*;
use crate::casm::operand::DerefOperand;
use crate::felt::Felt252;

verus! {

/// A variable of a lowering rule: the builder numbers them as they are made.
#[derive(Copy, Clone, Debug, Hash, PartialEq, Eq, Structural)]
pub struct Var(pub usize);

/// The operations on cells.
#[derive(Copy, Clone, Debug, Hash, PartialEq, Eq, Structural)]
pub enum CellOperator {
    Add,
    Sub,
    Mul,
    Div,
}

/// A memory cell or a constant of the field.
#[derive(Copy, Clone, Debug, Hash, PartialEq, Eq, Structural)]
pub enum CellOperand {
    Deref(DerefOperand),
    Immediate(Felt252),
}

/// How one cell of a value is held.
#[derive(Copy, Clone, Debug, Hash, PartialEq, Eq, Structural)]
pub enum CellExpression {
    /// The cell at an offset from a register.
    Deref(DerefOperand),
    /// The cell that a cell points to, some cells further.
    DoubleDeref(DerefOperand, i16),
    /// A constant of the field.
    Immediate(Felt252),
    /// An operation on a cell and a cell or a constant.
    BinOp { op: CellOperator, a: DerefOperand, b: CellOperand },
}

impl CellExpression {
    /// The cell, if the expression is one.
    pub open spec fn spec_to_deref(self) -> Option<DerefOperand> {
        match self {
            CellExpression::Deref(cell) => Some(cell),
            _ => None,
        }
    }

    /// The expression as the start of a buffer with room for `required_slack`
    /// writes: a cell, or a cell with a constant added that leaves that room
    /// below the largest offset of an instruction.
    pub open spec fn spec_to_buffer(self, required_slack: int) -> Option<CellExpression> {
        match self {
            CellExpression::Deref(cell) => if 0 <= required_slack <= i16::MAX {
                Some(
                    CellExpression::BinOp {
                        op: CellOperator::Add,
                        a: cell,
                        b: CellOperand::Immediate(Felt252::spec_zero()),
                    },
                )
            } else {
                None
            },
            CellExpression::BinOp { op: CellOperator::Add, a, b: CellOperand::Immediate(offset) } =>
                if 0 <= required_slack && offset@ + required_slack <= i16::MAX {
                    Some(self)
                } else {
                    None
                },
            _ => None,
        }
    }

    /// The cell, if the expression is one.
    pub fn to_deref(&self) -> (cell: Option<DerefOperand>)
        ensures
            cell == self.spec_to_deref(),
    {
        match self {
            CellExpression::Deref(cell) => Some(*cell),
            _ => None,
        }
    }

    /// The expression as the start of a buffer with room for `required_slack`
    /// writes, if it can be one.
    pub fn to_buffer(&self, required_slack: i64) -> (buffer: Option<CellExpression>)
        ensures
            buffer == self.spec_to_buffer(required_slack as int),
    {
        if required_slack < 0 || required_slack > i16::MAX as i64 {
            return None;
        }
        match self {
            CellExpression::Deref(cell) => {
                let zero = Felt252::zero();
                Some(
                    CellExpression::BinOp {
                        op: CellOperator::Add,
                        a: *cell,
                        b: CellOperand::Immediate(zero),
                    },
                )
            },
            CellExpression::BinOp { op: CellOperator::Add, a, b: CellOperand::Immediate(offset) } => {
                match offset.to_usize() {
                    Some(offset) => {
                        if offset <= i16::MAX as usize && offset as i64 + required_slack
                            <= i16::MAX as i64 {
                            Some(*self)
                        } else {
                            None
                        }
                    },
                    None => None,
                }
            },
            _ => None,
        }
    }
}

/// The names that the lowering rules give to places in their code.
#[derive(Copy, Clone, Debug, Hash, PartialEq, Eq, Structural)]
pub enum Label {
    /// The end of the code, from which the next statement goes on.
    Fallthrough,
    /// The place from which the branch of a failure goes on.
    Failure,
    /// The place at which an address is known to be valid.
    IsValidAddress,
    /// The place at which a value is known to be below a bound.
    IsSmall,
    /// The place at which the two ways through the code meet.
    Done,
}

/// The hints that the lowering rules give.
#[derive(Copy, Clone, Debug, Hash, PartialEq, Eq, Structural)]
pub enum BuilderHint {
    /// Writes to `dst` whether `lhs` is less than `rhs`.
    TestLessThan { lhs: Var, rhs: Var, dst: Var },
    /// Hands the request that starts at `system` to the system.
    SystemCall { system: Var },
    /// Sets the number of the block that a test runs in.
    SetBlockNumber { value: Var },
    /// Sets the time of the block that a test runs in.
    SetBlockTimestamp { value: Var },
    /// Sets the address of the caller that a test runs with.
    SetCallerAddress { value: Var },
    /// Sets the address of the contract that a test runs in.
    SetContractAddress { value: Var },
    /// Sets the address of the sequencer that a test runs with.
    SetSequencerAddress { value: Var },
}

/// The four auxiliary variables of a check against a limit.
#[derive(Copy, Clone, Debug, Hash, PartialEq, Eq, Structural)]
pub struct AuxiliaryVars {
    pub first: Var,
    pub second: Var,
    pub third: Var,
    pub fourth: Var,
}

/// One step of a lowering rule.
#[derive(Copy, Clone, Debug, Hash, PartialEq, Eq, Structural)]
pub enum BuilderStatement {
    /// `var` stands for the expression.
    AddVar { var: Var, expr: CellExpression },
    /// `var` is a new variable in memory: a temporary one, or a local one.
    AllocVar { var: Var, local: bool },
    /// `var` stands for what `src` stands for now.
    Duplicate { var: Var, src: Var },
    /// `var` stands for the operation on `lhs` and `rhs`.
    BinOp { var: Var, op: CellOperator, lhs: Var, rhs: Var },
    /// Asserts that `dst` and `src` are equal.
    AssertVarsEq { dst: Var, src: Var },
    /// Asserts that `value` is the cell that `buffer` points to, and moves
    /// `buffer` on by one cell.
    BufferWriteAndInc { buffer: Var, value: Var },
    /// `var` stands for the cell that `buffer` points to; `buffer` moves on by
    /// one cell.
    BufferGetAndInc { var: Var, buffer: Var },
    /// The hint comes before the next instruction.
    Hint(BuilderHint),
    /// Jumps to the label if `condition` is not zero.
    JumpNz { condition: Var, label: Label },
    /// Jumps to the label.
    Jump { label: Label },
    /// The label names this place.
    Label { label: Label },
    /// Moves `ap` on by `size` cells.
    AddAp { size: usize },
    /// Asserts that `value` is below `limit`, with `k` uses of the range check
    /// that `range_check` points to and the auxiliary variables.
    ValidateUnderLimit {
        k: u8,
        limit: Felt252,
        value: Var,
        range_check: Var,
        auxiliary_vars: AuxiliaryVars,
    },
}

/// The builder of the code of one invocation.
#[derive(Debug, PartialEq, Eq)]
pub struct CasmBuilder {
    /// The steps so far.
    pub statements: Vec<BuilderStatement>,
    /// The number of variables made so far.
    pub var_count: usize,
}

impl CasmBuilder {
    /// A builder without steps and variables.
    pub fn new() -> (builder: CasmBuilder)
        ensures
            builder.statements@.len() == 0,
            builder.var_count == 0,
    {
        CasmBuilder { statements: Vec::new(), var_count: 0 }
    }

    /// A variable for an expression.
    pub fn add_var(&mut self, expr: CellExpression) -> (var: Var)
        requires
            old(self).var_count < usize::MAX,
        ensures
            var == Var(old(self).var_count),
            final(self).var_count == old(self).var_count + 1,
            final(self).statements@ == old(self).statements@.push(
                BuilderStatement::AddVar { var, expr },
            ),
    {
        let var = Var(self.var_count);
        self.var_count = self.var_count + 1;
        self.statements.push(BuilderStatement::AddVar { var, expr });
        var
    }

    /// A new variable in memory.
    pub fn alloc_var(&mut self, local: bool) -> (var: Var)
        requires
            old(self).var_count < usize::MAX,
        ensures
            var == Var(old(self).var_count),
            final(self).var_count == old(self).var_count + 1,
            final(self).statements@ == old(self).statements@.push(
                BuilderStatement::AllocVar { var, local },
            ),
    {
        let var = Var(self.var_count);
        self.var_count = self.var_count + 1;
        self.statements.push(BuilderStatement::AllocVar { var, local });
        var
    }

    /// A variable for what `src` stands for now.
    pub fn duplicate_var(&mut self, src: Var) -> (var: Var)
        requires
            old(self).var_count < usize::MAX,
        ensures
            var == Var(old(self).var_count),
            final(self).var_count == old(self).var_count + 1,
            final(self).statements@ == old(self).statements@.push(
                BuilderStatement::Duplicate { var, src },
            ),
    {
        let var = Var(self.var_count);
        self.var_count = self.var_count + 1;
        self.statements.push(BuilderStatement::Duplicate { var, src });
        var
    }

    /// A variable for an operation on two variables.
    pub fn bin_op(&mut self, op: CellOperator, lhs: Var, rhs: Var) -> (var: Var)
        requires
            old(self).var_count < usize::MAX,
        ensures
            var == Var(old(self).var_count),
            final(self).var_count == old(self).var_count + 1,
            final(self).statements@ == old(self).statements@.push(
                BuilderStatement::BinOp { var, op, lhs, rhs },
            ),
    {
        let var = Var(self.var_count);
        self.var_count = self.var_count + 1;
        self.statements.push(BuilderStatement::BinOp { var, op, lhs, rhs });
        var
    }

    /// A variable for the cell that `buffer` points to; `buffer` moves on.
    pub fn buffer_get_and_inc(&mut self, buffer: Var) -> (var: Var)
        requires
            old(self).var_count < usize::MAX,
        ensures
            var == Var(old(self).var_count),
            final(self).var_count == old(self).var_count + 1,
            final(self).statements@ == old(self).statements@.push(
                BuilderStatement::BufferGetAndInc { var, buffer },
            ),
    {
        let var = Var(self.var_count);
        self.var_count = self.var_count + 1;
        self.statements.push(BuilderStatement::BufferGetAndInc { var, buffer });
        var
    }

    /// Adds a step that makes no variable.
    pub fn add_statement(&mut self, statement: BuilderStatement)
        ensures
            final(self).var_count == old(self).var_count,
            final(self).statements@ == old(self).statements@.push(statement),
    {
        self.statements.push(statement);
    }

    /// Asserts that `dst` and `src` are equal.
    pub fn assert_vars_eq(&mut self, dst: Var, src: Var)
        ensures
            final(self).var_count == old(self).var_count,
            final(self).statements@ == old(self).statements@.push(
                BuilderStatement::AssertVarsEq { dst, src },
            ),
    {
        self.add_statement(BuilderStatement::AssertVarsEq { dst, src });
    }

    /// Asserts that `value` is the cell that `buffer` points to; `buffer`
    /// moves on.
    pub fn buffer_write_and_inc(&mut self, buffer: Var, value: Var)
        ensures
            final(self).var_count == old(self).var_count,
            final(self).statements@ == old(self).statements@.push(
                BuilderStatement::BufferWriteAndInc { buffer, value },
            ),
    {
        self.add_statement(BuilderStatement::BufferWriteAndInc { buffer, value });
    }
}

} // verus!
