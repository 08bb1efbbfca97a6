//! Hints: what the prover is told to do before an instruction, outside the
//! constraints that the instruction proves.

use vstd::prelude::*;
use vstd::string::*;
use crate::casm::operand::{DerefOperand, ResOperand, ResOperandView};

verus! {

/// A hint.
#[derive(Clone, Debug, PartialEq, Eq)]
pub enum Hint {
    /// Allocates a new memory segment and writes its start to `dst`.
    AllocSegment { dst: DerefOperand },
    /// Writes to `dst` whether `lhs` is less than `rhs`.
    TestLessThan { lhs: ResOperand, rhs: ResOperand, dst: DerefOperand },
    /// Hands the request that starts at the cell `system` to the system.
    SystemCall { system: ResOperand },
}

/// What a `Hint` stands for.
pub enum HintView {
    AllocSegment { dst: DerefOperand },
    TestLessThan { lhs: ResOperandView, rhs: ResOperandView, dst: DerefOperand },
    SystemCall { system: ResOperandView },
}

impl HintView {
    /// The text of the hint, as CASM is written.
    pub open spec fn spec_text(self) -> Seq<char> {
        match self {
            HintView::AllocSegment { dst } => "%{ memory"@ + dst.spec_text()
                + " = segments.add() %}"@,
            HintView::TestLessThan { lhs, rhs, dst } => "%{ memory"@ + dst.spec_text() + " = "@
                + lhs.spec_text() + " < "@ + rhs.spec_text() + " %}"@,
            HintView::SystemCall { system } => "%{ syscall_handler.syscall(syscall_ptr="@
                + system.spec_text() + ") %}"@,
        }
    }
}

impl View for Hint {
    type V = HintView;

    open spec fn view(&self) -> HintView {
        match self {
            Hint::AllocSegment { dst } => HintView::AllocSegment { dst: *dst },
            Hint::TestLessThan { lhs, rhs, dst } => HintView::TestLessThan {
                lhs: lhs@,
                rhs: rhs@,
                dst: *dst,
            },
            Hint::SystemCall { system } => HintView::SystemCall { system: system@ },
        }
    }
}

impl Hint {
    /// The text of the hint, as CASM is written.
    pub fn to_string(&self) -> (text: String)
        ensures
            text@ == self@.spec_text(),
    {
        match self {
            Hint::AllocSegment { dst } => {
                let mut text = String::from_str("%{ memory");
                text.append(dst.to_string().as_str());
                text.append(" = segments.add() %}");
                text
            },
            Hint::TestLessThan { lhs, rhs, dst } => {
                let mut text = String::from_str("%{ memory");
                text.append(dst.to_string().as_str());
                text.append(" = ");
                text.append(lhs.to_string().as_str());
                text.append(" < ");
                text.append(rhs.to_string().as_str());
                text.append(" %}");
                text
            },
            Hint::SystemCall { system } => {
                let mut text = String::from_str("%{ syscall_handler.syscall(syscall_ptr=");
                text.append(system.to_string().as_str());
                text.append(") %}");
                text
            },
        }
    }
}

} // verus!
