//! The operands of CASM instructions.

use vstd::prelude::*;
use vstd::string::*;
use crate::bigint::{decimal_repr, BigInt};

verus! {

/// The registers that a memory cell can be addressed from.
#[derive(Copy, Clone, Debug, Hash, PartialEq, Eq, Structural)]
pub enum Register {
    AP,
    FP,
}

impl Register {
    /// The text of the register, as CASM is written.
    pub open spec fn spec_text(self) -> Seq<char> {
        match self {
            Register::AP => "ap"@,
            Register::FP => "fp"@,
        }
    }

    /// The text of the register, as CASM is written.
    pub fn to_string(&self) -> (text: String)
        ensures
            text@ == self.spec_text(),
    {
        match self {
            Register::AP => String::from_str("ap"),
            Register::FP => String::from_str("fp"),
        }
    }
}

/// The memory cell at an offset from a register: `[ap + 5]`.
#[derive(Copy, Clone, Debug, Hash, PartialEq, Eq, Structural)]
pub struct DerefOperand {
    pub register: Register,
    pub offset: i16,
}

impl DerefOperand {
    /// The text of the deref operand, as CASM is written.
    pub open spec fn spec_text(self) -> Seq<char> {
        "["@ + self.register.spec_text() + " + "@ + decimal_repr(self.offset as int) + "]"@
    }

    /// The text of the deref operand, as CASM is written.
    pub fn to_string(&self) -> (text: String)
        ensures
            text@ == self.spec_text(),
    {
        let mut text = String::from_str("[");
        text.append(self.register.to_string().as_str());
        text.append(" + ");
        text.append(BigInt::from_i16(self.offset).to_string().as_str());
        text.append("]");
        text
    }
}

/// The cell that the cell `inner_deref` points to, `offset` cells further:
/// `[[ap + 5] + 1]`.
#[derive(Copy, Clone, Debug, Hash, PartialEq, Eq, Structural)]
pub struct DoubleDerefOperand {
    pub inner_deref: DerefOperand,
    pub offset: i16,
}

impl DoubleDerefOperand {
    /// The text of the double deref operand, as CASM is written.
    pub open spec fn spec_text(self) -> Seq<char> {
        "["@ + self.inner_deref.spec_text() + " + "@ + decimal_repr(self.offset as int) + "]"@
    }

    /// The text of the double deref operand, as CASM is written.
    pub fn to_string(&self) -> (text: String)
        ensures
            text@ == self.spec_text(),
    {
        let mut text = String::from_str("[");
        text.append(self.inner_deref.to_string().as_str());
        text.append(" + ");
        text.append(BigInt::from_i16(self.offset).to_string().as_str());
        text.append("]");
        text
    }
}

/// A constant that stands in the instruction itself.
#[derive(Clone, Debug, PartialEq, Eq)]
pub struct ImmediateOperand {
    pub value: BigInt,
}

impl View for ImmediateOperand {
    type V = int;

    open spec fn view(&self) -> int {
        self.value@
    }
}

impl ImmediateOperand {
    /// The text of the immediate operand, as CASM is written.
    pub fn to_string(&self) -> (text: String)
        ensures
            text@ == decimal_repr(self@),
    {
        self.value.to_string()
    }
}

/// The operations of a binary operand.
#[derive(Copy, Clone, Debug, Hash, PartialEq, Eq, Structural)]
pub enum Operation {
    Add,
    Mul,
}

impl Operation {
    /// The text of the operation, as CASM is written.
    pub open spec fn spec_text(self) -> Seq<char> {
        match self {
            Operation::Add => "+"@,
            Operation::Mul => "*"@,
        }
    }

    /// The text of the operation, as CASM is written.
    pub fn to_string(&self) -> (text: String)
        ensures
            text@ == self.spec_text(),
    {
        match self {
            Operation::Add => String::from_str("+"),
            Operation::Mul => String::from_str("*"),
        }
    }
}

/// A memory cell or a constant.
#[derive(Clone, Debug, PartialEq, Eq)]
pub enum DerefOrImmediate {
    Deref(DerefOperand),
    Immediate(ImmediateOperand),
}

/// What a `DerefOrImmediate` stands for.
pub enum DerefOrImmediateView {
    Deref(DerefOperand),
    Immediate(int),
}

impl DerefOrImmediateView {
    /// The text of the deref or immediate, as CASM is written.
    pub open spec fn spec_text(self) -> Seq<char> {
        match self {
            DerefOrImmediateView::Deref(cell) => cell.spec_text(),
            DerefOrImmediateView::Immediate(value) => decimal_repr(value),
        }
    }

    /// The number of words that the operand takes in an instruction.
    pub open spec fn op_size(self) -> nat {
        match self {
            DerefOrImmediateView::Deref(_) => 1,
            DerefOrImmediateView::Immediate(_) => 2,
        }
    }
}

impl View for DerefOrImmediate {
    type V = DerefOrImmediateView;

    open spec fn view(&self) -> DerefOrImmediateView {
        match self {
            DerefOrImmediate::Deref(cell) => DerefOrImmediateView::Deref(*cell),
            DerefOrImmediate::Immediate(imm) => DerefOrImmediateView::Immediate(imm@),
        }
    }
}

impl DerefOrImmediate {
    /// The text of the deref or immediate, as CASM is written.
    pub fn to_string(&self) -> (text: String)
        ensures
            text@ == self@.spec_text(),
    {
        match self {
            DerefOrImmediate::Deref(cell) => cell.to_string(),
            DerefOrImmediate::Immediate(imm) => imm.to_string(),
        }
    }

    /// The number of words that the deref or immediate takes in the code.
    pub fn op_size(&self) -> (size: usize)
        ensures
            size == self@.op_size(),
    {
        match self {
            DerefOrImmediate::Deref(_) => 1,
            DerefOrImmediate::Immediate(_) => 2,
        }
    }
}

/// A cell combined with a cell or a constant: `[ap + 1] + 3`.
#[derive(Clone, Debug, PartialEq, Eq)]
pub struct BinOpOperand {
    pub op: Operation,
    pub a: DerefOperand,
    pub b: DerefOrImmediate,
}

/// What a `BinOpOperand` stands for.
pub struct BinOpOperandView {
    pub op: Operation,
    pub a: DerefOperand,
    pub b: DerefOrImmediateView,
}

impl BinOpOperandView {
    /// The text of the bin op operand, as CASM is written.
    pub open spec fn spec_text(self) -> Seq<char> {
        self.a.spec_text() + " "@ + self.op.spec_text() + " "@ + self.b.spec_text()
    }
}

impl View for BinOpOperand {
    type V = BinOpOperandView;

    open spec fn view(&self) -> BinOpOperandView {
        BinOpOperandView { op: self.op, a: self.a, b: self.b@ }
    }
}

impl BinOpOperand {
    /// The text of the bin op operand, as CASM is written.
    pub fn to_string(&self) -> (text: String)
        ensures
            text@ == self@.spec_text(),
    {
        let mut text = self.a.to_string();
        text.append(" ");
        text.append(self.op.to_string().as_str());
        text.append(" ");
        text.append(self.b.to_string().as_str());
        text
    }
}

/// What the right hand side of an assertion can be.
#[derive(Clone, Debug, PartialEq, Eq)]
pub enum ResOperand {
    DerefOperand(DerefOperand),
    DoubleDerefOperand(DoubleDerefOperand),
    ImmediateOperand(ImmediateOperand),
    BinOpOperand(BinOpOperand),
}

/// What a `ResOperand` stands for.
pub enum ResOperandView {
    Deref(DerefOperand),
    DoubleDeref(DoubleDerefOperand),
    Immediate(int),
    BinOp(BinOpOperandView),
}

impl ResOperandView {
    /// The text of the res operand, as CASM is written.
    pub open spec fn spec_text(self) -> Seq<char> {
        match self {
            ResOperandView::Deref(cell) => cell.spec_text(),
            ResOperandView::DoubleDeref(cell) => cell.spec_text(),
            ResOperandView::Immediate(value) => decimal_repr(value),
            ResOperandView::BinOp(bin_op) => bin_op.spec_text(),
        }
    }

    /// The number of words that an instruction with this operand takes.
    pub open spec fn op_size(self) -> nat {
        match self {
            ResOperandView::Deref(_) => 1,
            ResOperandView::DoubleDeref(_) => 1,
            ResOperandView::Immediate(_) => 2,
            ResOperandView::BinOp(bin_op) => bin_op.b.op_size(),
        }
    }
}

impl View for ResOperand {
    type V = ResOperandView;

    open spec fn view(&self) -> ResOperandView {
        match self {
            ResOperand::DerefOperand(cell) => ResOperandView::Deref(*cell),
            ResOperand::DoubleDerefOperand(cell) => ResOperandView::DoubleDeref(*cell),
            ResOperand::ImmediateOperand(imm) => ResOperandView::Immediate(imm@),
            ResOperand::BinOpOperand(bin_op) => ResOperandView::BinOp(bin_op@),
        }
    }
}

impl ResOperand {
    /// The text of the res operand, as CASM is written.
    pub fn to_string(&self) -> (text: String)
        ensures
            text@ == self@.spec_text(),
    {
        match self {
            ResOperand::DerefOperand(cell) => cell.to_string(),
            ResOperand::DoubleDerefOperand(cell) => cell.to_string(),
            ResOperand::ImmediateOperand(imm) => imm.to_string(),
            ResOperand::BinOpOperand(bin_op) => bin_op.to_string(),
        }
    }

    /// The number of words that the res operand takes in the code.
    pub fn op_size(&self) -> (size: usize)
        ensures
            size == self@.op_size(),
    {
        match self {
            ResOperand::DerefOperand(_) => 1,
            ResOperand::DoubleDerefOperand(_) => 1,
            ResOperand::ImmediateOperand(_) => 2,
            ResOperand::BinOpOperand(bin_op) => bin_op.b.op_size(),
        }
    }
}

} // verus!
