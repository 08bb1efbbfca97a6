//! The instructions of CASM.

use vstd::prelude::*;
use vstd::string::*;
use crate::casm::hints::{Hint, HintView};
use crate::casm::operand::{
    DerefOperand,
    DerefOrImmediate,
    DerefOrImmediateView,
    ResOperand,
    ResOperandView,
};

verus! {

/// Asserts that the cell `a` holds the value of `b`: `[ap + 5] = 205`.
#[derive(Clone, Debug, PartialEq, Eq)]
pub struct AssertEqInstruction {
    pub a: DerefOperand,
    pub b: ResOperand,
}

/// What an `AssertEqInstruction` stands for.
pub struct AssertEqInstructionView {
    pub a: DerefOperand,
    pub b: ResOperandView,
}

impl AssertEqInstructionView {
    /// The text of the assert eq instruction, as CASM is written.
    pub open spec fn spec_text(self) -> Seq<char> {
        self.a.spec_text() + " = "@ + self.b.spec_text()
    }
}

impl View for AssertEqInstruction {
    type V = AssertEqInstructionView;

    open spec fn view(&self) -> AssertEqInstructionView {
        AssertEqInstructionView { a: self.a, b: self.b@ }
    }
}

impl AssertEqInstruction {
    /// The text of the assert eq instruction, as CASM is written.
    pub fn to_string(&self) -> (text: String)
        ensures
            text@ == self@.spec_text(),
    {
        let mut text = self.a.to_string();
        text.append(" = ");
        text.append(self.b.to_string().as_str());
        text
    }
}

/// The word that tells a relative target from an absolute one.
pub open spec fn relative_text(relative: bool) -> Seq<char> {
    if relative {
        "rel"@
    } else {
        "abs"@
    }
}

fn relative_to_string(relative: bool) -> (text: String)
    ensures
        text@ == relative_text(relative),
{
    if relative {
        String::from_str("rel")
    } else {
        String::from_str("abs")
    }
}

/// Jumps to `target`: `jmp rel -5`.
#[derive(Clone, Debug, PartialEq, Eq)]
pub struct JumpInstruction {
    pub target: ResOperand,
    pub relative: bool,
}

/// What a `JumpInstruction` stands for.
pub struct JumpInstructionView {
    pub target: ResOperandView,
    pub relative: bool,
}

impl JumpInstructionView {
    /// The text of the jump instruction, as CASM is written.
    pub open spec fn spec_text(self) -> Seq<char> {
        "jmp "@ + relative_text(self.relative) + " "@ + self.target.spec_text()
    }
}

impl View for JumpInstruction {
    type V = JumpInstructionView;

    open spec fn view(&self) -> JumpInstructionView {
        JumpInstructionView { target: self.target@, relative: self.relative }
    }
}

impl JumpInstruction {
    /// The text of the jump instruction, as CASM is written.
    pub fn to_string(&self) -> (text: String)
        ensures
            text@ == self@.spec_text(),
    {
        let mut text = String::from_str("jmp ");
        text.append(relative_to_string(self.relative).as_str());
        text.append(" ");
        text.append(self.target.to_string().as_str());
        text
    }
}

/// Jumps by `jump_offset` if the cell `condition` does not hold zero:
/// `jmp rel 7 if [ap + -1] != 0`.
#[derive(Clone, Debug, PartialEq, Eq)]
pub struct JnzInstruction {
    pub jump_offset: DerefOrImmediate,
    pub condition: DerefOperand,
}

/// What a `JnzInstruction` stands for.
pub struct JnzInstructionView {
    pub jump_offset: DerefOrImmediateView,
    pub condition: DerefOperand,
}

impl JnzInstructionView {
    /// The text of the jnz instruction, as CASM is written.
    pub open spec fn spec_text(self) -> Seq<char> {
        "jmp rel "@ + self.jump_offset.spec_text() + " if "@ + self.condition.spec_text()
            + " != 0"@
    }
}

impl View for JnzInstruction {
    type V = JnzInstructionView;

    open spec fn view(&self) -> JnzInstructionView {
        JnzInstructionView { jump_offset: self.jump_offset@, condition: self.condition }
    }
}

impl JnzInstruction {
    /// The text of the jnz instruction, as CASM is written.
    pub fn to_string(&self) -> (text: String)
        ensures
            text@ == self@.spec_text(),
    {
        let mut text = String::from_str("jmp rel ");
        text.append(self.jump_offset.to_string().as_str());
        text.append(" if ");
        text.append(self.condition.to_string().as_str());
        text.append(" != 0");
        text
    }
}

/// Calls the code at `target`: `call rel 3`.
#[derive(Clone, Debug, PartialEq, Eq)]
pub struct CallInstruction {
    pub target: DerefOrImmediate,
    pub relative: bool,
}

/// What a `CallInstruction` stands for.
pub struct CallInstructionView {
    pub target: DerefOrImmediateView,
    pub relative: bool,
}

impl CallInstructionView {
    /// The text of the call instruction, as CASM is written.
    pub open spec fn spec_text(self) -> Seq<char> {
        "call "@ + relative_text(self.relative) + " "@ + self.target.spec_text()
    }
}

impl View for CallInstruction {
    type V = CallInstructionView;

    open spec fn view(&self) -> CallInstructionView {
        CallInstructionView { target: self.target@, relative: self.relative }
    }
}

impl CallInstruction {
    /// The text of the call instruction, as CASM is written.
    pub fn to_string(&self) -> (text: String)
        ensures
            text@ == self@.spec_text(),
    {
        let mut text = String::from_str("call ");
        text.append(relative_to_string(self.relative).as_str());
        text.append(" ");
        text.append(self.target.to_string().as_str());
        text
    }
}

/// Advances `ap` by `operand`: `ap += 2`.
#[derive(Clone, Debug, PartialEq, Eq)]
pub struct AddApInstruction {
    pub operand: ResOperand,
}

/// What an `AddApInstruction` stands for.
pub struct AddApInstructionView {
    pub operand: ResOperandView,
}

impl AddApInstructionView {
    /// The text of the add ap instruction, as CASM is written.
    pub open spec fn spec_text(self) -> Seq<char> {
        "ap += "@ + self.operand.spec_text()
    }
}

impl View for AddApInstruction {
    type V = AddApInstructionView;

    open spec fn view(&self) -> AddApInstructionView {
        AddApInstructionView { operand: self.operand@ }
    }
}

impl AddApInstruction {
    /// The text of the add ap instruction, as CASM is written.
    pub fn to_string(&self) -> (text: String)
        ensures
            text@ == self@.spec_text(),
    {
        let mut text = String::from_str("ap += ");
        text.append(self.operand.to_string().as_str());
        text
    }
}

/// What an instruction does.
#[derive(Clone, Debug, PartialEq, Eq)]
pub enum InstructionBody {
    AddAp(AddApInstruction),
    AssertEq(AssertEqInstruction),
    Call(CallInstruction),
    Jnz(JnzInstruction),
    Jump(JumpInstruction),
    Ret,
}

/// What an `InstructionBody` stands for.
pub enum InstructionBodyView {
    AddAp(AddApInstructionView),
    AssertEq(AssertEqInstructionView),
    Call(CallInstructionView),
    Jnz(JnzInstructionView),
    Jump(JumpInstructionView),
    Ret,
}

impl InstructionBodyView {
    /// The text of the instruction body, as CASM is written.
    pub open spec fn spec_text(self) -> Seq<char> {
        match self {
            InstructionBodyView::AddAp(insn) => insn.spec_text(),
            InstructionBodyView::AssertEq(insn) => insn.spec_text(),
            InstructionBodyView::Call(insn) => insn.spec_text(),
            InstructionBodyView::Jnz(insn) => insn.spec_text(),
            InstructionBodyView::Jump(insn) => insn.spec_text(),
            InstructionBodyView::Ret => "ret"@,
        }
    }

    /// The number of words that the instruction takes in the code.
    pub open spec fn op_size(self) -> nat {
        match self {
            InstructionBodyView::AddAp(insn) => insn.operand.op_size(),
            InstructionBodyView::AssertEq(insn) => insn.b.op_size(),
            InstructionBodyView::Call(insn) => insn.target.op_size(),
            InstructionBodyView::Jnz(insn) => insn.jump_offset.op_size(),
            InstructionBodyView::Jump(insn) => insn.target.op_size(),
            InstructionBodyView::Ret => 1,
        }
    }
}

impl View for InstructionBody {
    type V = InstructionBodyView;

    open spec fn view(&self) -> InstructionBodyView {
        match self {
            InstructionBody::AddAp(insn) => InstructionBodyView::AddAp(insn@),
            InstructionBody::AssertEq(insn) => InstructionBodyView::AssertEq(insn@),
            InstructionBody::Call(insn) => InstructionBodyView::Call(insn@),
            InstructionBody::Jnz(insn) => InstructionBodyView::Jnz(insn@),
            InstructionBody::Jump(insn) => InstructionBodyView::Jump(insn@),
            InstructionBody::Ret => InstructionBodyView::Ret,
        }
    }
}

impl InstructionBody {
    /// The text of the instruction body, as CASM is written.
    pub fn to_string(&self) -> (text: String)
        ensures
            text@ == self@.spec_text(),
    {
        match self {
            InstructionBody::AddAp(insn) => insn.to_string(),
            InstructionBody::AssertEq(insn) => insn.to_string(),
            InstructionBody::Call(insn) => insn.to_string(),
            InstructionBody::Jnz(insn) => insn.to_string(),
            InstructionBody::Jump(insn) => insn.to_string(),
            InstructionBody::Ret => String::from_str("ret"),
        }
    }

    /// The number of words that the instruction body takes in the code.
    pub fn op_size(&self) -> (size: usize)
        ensures
            size == self@.op_size(),
            1 <= size <= 2,
    {
        match self {
            InstructionBody::AddAp(insn) => insn.operand.op_size(),
            InstructionBody::AssertEq(insn) => insn.b.op_size(),
            InstructionBody::Call(insn) => insn.target.op_size(),
            InstructionBody::Jnz(insn) => insn.jump_offset.op_size(),
            InstructionBody::Jump(insn) => insn.target.op_size(),
            InstructionBody::Ret => 1,
        }
    }
}

/// An instruction: what it does, whether `ap` advances by one after it, and
/// the hints that come before it.
#[derive(Clone, Debug, PartialEq, Eq)]
pub struct Instruction {
    pub body: InstructionBody,
    pub inc_ap: bool,
    pub hints: Vec<Hint>,
}

/// What an `Instruction` stands for.
pub struct InstructionView {
    pub body: InstructionBodyView,
    pub inc_ap: bool,
    pub hints: Seq<HintView>,
}

/// What hints stand for, one by one.
pub open spec fn hints_view(hints: Seq<Hint>) -> Seq<HintView> {
    Seq::new(hints.len(), |i: int| hints[i]@)
}

/// The text of hints: one on each line.
pub open spec fn hints_text(hints: Seq<HintView>) -> Seq<char>
    decreases hints.len(),
{
    if hints.len() == 0 {
        Seq::<char>::empty()
    } else {
        hints_text(hints.drop_last()) + hints.last().spec_text() + "\n"@
    }
}

/// The text that follows an instruction after which `ap` advances.
pub open spec fn inc_ap_text(inc_ap: bool) -> Seq<char> {
    if inc_ap {
        ", ap++"@
    } else {
        Seq::<char>::empty()
    }
}

impl InstructionView {
    /// The text of the instruction, as CASM is written.
    pub open spec fn spec_text(self) -> Seq<char> {
        hints_text(self.hints) + self.body.spec_text() + inc_ap_text(self.inc_ap)
    }

    /// The number of words that the instruction takes in the code.
    pub open spec fn op_size(self) -> nat {
        self.body.op_size()
    }
}

impl View for Instruction {
    type V = InstructionView;

    open spec fn view(&self) -> InstructionView {
        InstructionView { body: self.body@, inc_ap: self.inc_ap, hints: hints_view(self.hints@) }
    }
}

impl Instruction {
    /// An instruction without hints.
    pub fn new(body: InstructionBody, inc_ap: bool) -> (insn: Instruction)
        ensures
            insn@ == (InstructionView { body: body@, inc_ap, hints: Seq::<HintView>::empty() }),
            insn.body == body,
    {
        let insn = Instruction { body, inc_ap, hints: Vec::new() };
        assert(hints_view(insn.hints@) =~= Seq::<HintView>::empty());
        insn
    }

    /// An instruction with one hint before it.
    pub fn with_hint(body: InstructionBody, inc_ap: bool, hint: Hint) -> (insn: Instruction)
        ensures
            insn@ == (InstructionView { body: body@, inc_ap, hints: seq![hint@] }),
    {
        let mut hints = Vec::new();
        hints.push(hint);
        let insn = Instruction { body, inc_ap, hints };
        assert(hints_view(insn.hints@) =~= seq![hint@]);
        insn
    }

    /// The number of words that the instruction takes in the code.
    pub fn op_size(&self) -> (size: usize)
        ensures
            size == self@.op_size(),
            1 <= size <= 2,
    {
        self.body.op_size()
    }

    /// The text of the instruction: its hints, one on each line, then what it
    /// does, then `, ap++` where `ap` advances.
    pub fn to_string(&self) -> (text: String)
        ensures
            text@ == self@.spec_text(),
    {
        let mut text = String::new();
        let mut i: usize = 0;
        while i < self.hints.len()
            invariant
                i <= self.hints.len(),
                text@ == hints_text(hints_view(self.hints@).take(i as int)),
            decreases self.hints.len() - i,
        {
            proof {
                let all = hints_view(self.hints@);
                assert(all.take(i as int + 1).drop_last() =~= all.take(i as int));
            }
            text.append(self.hints[i].to_string().as_str());
            text.append("\n");
            i = i + 1;
        }
        proof {
            let all = hints_view(self.hints@);
            assert(all.take(i as int) =~= all);
        }
        text.append(self.body.to_string().as_str());
        if self.inc_ap {
            text.append(", ap++");
        }
        text
    }
}

/// What instructions stand for, one by one.
pub open spec fn instructions_view(instructions: Seq<Instruction>) -> Seq<InstructionView> {
    Seq::new(instructions.len(), |i: int| instructions[i]@)
}

/// The text of a program: each instruction, a semicolon and the end of the
/// line.
pub open spec fn program_text(instructions: Seq<InstructionView>) -> Seq<char>
    decreases instructions.len(),
{
    if instructions.len() == 0 {
        Seq::<char>::empty()
    } else {
        program_text(instructions.drop_last()) + instructions.last().spec_text() + ";\n"@
    }
}

/// The number of words that the instructions take in the code.
pub open spec fn code_size(instructions: Seq<InstructionView>) -> nat
    decreases instructions.len(),
{
    if instructions.len() == 0 {
        0
    } else {
        code_size(instructions.drop_last()) + instructions.last().op_size()
    }
}

/// The text of a program.
pub fn program_to_string(instructions: &Vec<Instruction>) -> (text: String)
    ensures
        text@ == program_text(instructions_view(instructions@)),
{
    let mut text = String::new();
    let mut i: usize = 0;
    while i < instructions.len()
        invariant
            i <= instructions.len(),
            text@ == program_text(instructions_view(instructions@).take(i as int)),
        decreases instructions.len() - i,
    {
        proof {
            let all = instructions_view(instructions@);
            assert(all.take(i as int + 1).drop_last() =~= all.take(i as int));
        }
        text.append(instructions[i].to_string().as_str());
        text.append(";\n");
        i = i + 1;
    }
    proof {
        let all = instructions_view(instructions@);
        assert(all.take(i as int) =~= all);
    }
    text
}

} // verus!
