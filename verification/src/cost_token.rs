//! The kinds of cost that gas accounting tells apart.

use vstd::prelude::*;
use vstd::string::*;

verus! {

/// A kind of cost.
#[derive(Copy, Clone, Debug, Hash, PartialEq, Eq, Structural)]
pub enum CostTokenType {
    /// The unit in which a solved cost is counted: one unit of gas.
    Const,
    /// A single Cairo step, or some cost which is equivalent to it.
    Step,
    /// The cost of adding an uninitialized memory cell.
    Hole,
    /// One invocation of the range check builtin.
    RangeCheck,
    /// One invocation of the pedersen hash function.
    Pedersen,
    /// One invocation of the bitwise builtin.
    Bitwise,
    /// One invocation of the EC op builtin.
    EcOp,
}

/// The result of `convert_case`'s conversion to upper camel case, as a
/// function of the text converted.
pub uninterp spec fn upper_camel_case(s: Seq<char>) -> Seq<char>;

/// Calls `convert_case::Casing::to_case` with `Case::UpperCamel`. The contract
/// only names the result: the conversion depends on nothing but the text.
#[verifier::external_body]
fn to_upper_camel_case(s: &str) -> (res: String)
    ensures
        res@ == upper_camel_case(s@),
{
    convert_case::Casing::to_case(&s, convert_case::Case::UpperCamel)
}

impl CostTokenType {
    /// The tokens that are paid for before the post-cost analysis: one per
    /// builtin invocation.
    pub open spec fn precost_tokens() -> Seq<CostTokenType> {
        seq![CostTokenType::Pedersen, CostTokenType::Bitwise, CostTokenType::EcOp]
    }

    /// The tokens that a libfunc causes at run time.
    pub open spec fn postcost_tokens() -> Seq<CostTokenType> {
        seq![CostTokenType::Step, CostTokenType::Hole, CostTokenType::RangeCheck]
    }

    /// Whether the token is one of the pre-cost tokens, which count the uses of
    /// builtins.
    pub open spec fn is_precost(self) -> bool {
        self == CostTokenType::Pedersen || self == CostTokenType::Bitwise || self
            == CostTokenType::EcOp
    }

    /// Whether the token is one of the post-cost tokens, which count steps, holes
    /// and range checks.
    pub open spec fn is_postcost(self) -> bool {
        self == CostTokenType::Step || self == CostTokenType::Hole || self
            == CostTokenType::RangeCheck
    }

    /// The snake case name of a token.
    pub open spec fn spec_name(self) -> Seq<char> {
        match self {
            CostTokenType::Const => "const"@,
            CostTokenType::Step => "step"@,
            CostTokenType::Hole => "hole"@,
            CostTokenType::RangeCheck => "range_check"@,
            CostTokenType::Pedersen => "pedersen"@,
            CostTokenType::Bitwise => "bitwise"@,
            CostTokenType::EcOp => "ec_op"@,
        }
    }

    /// The slot of a pre-cost token in the array of builtin costs.
    pub open spec fn spec_offset_in_builtin_costs(self) -> int {
        match self {
            CostTokenType::Pedersen => 0,
            CostTokenType::Bitwise => 1,
            CostTokenType::EcOp => 2,
            _ => -1,
        }
    }

    /// All the tokens that a libfunc's cost is counted in: the pre-cost tokens,
    /// then the post-cost tokens.
    pub fn iter() -> (tokens: Vec<CostTokenType>)
        ensures
            tokens@ == Self::precost_tokens() + Self::postcost_tokens(),
    {
        let mut tokens = Self::iter_precost();
        let mut post = Self::iter_postcost();
        tokens.append(&mut post);
        tokens
    }

    /// The pre-cost tokens, in their order.
    pub fn iter_precost() -> (tokens: Vec<CostTokenType>)
        ensures
            tokens@ == Self::precost_tokens(),
            forall|t: CostTokenType| t.is_precost() <==> tokens@.contains(t),
    {
        let tokens = vec![CostTokenType::Pedersen, CostTokenType::Bitwise, CostTokenType::EcOp];
        tokens
    }

    /// The post-cost tokens, in their order.
    pub fn iter_postcost() -> (tokens: Vec<CostTokenType>)
        ensures
            tokens@ == Self::postcost_tokens(),
            forall|t: CostTokenType| t.is_postcost() <==> tokens@.contains(t),
    {
        let tokens = vec![CostTokenType::Step, CostTokenType::Hole, CostTokenType::RangeCheck];
        tokens
    }

    /// Returns the name of the token type, in snake_case.
    pub fn name(&self) -> (name: String)
        ensures
            name@ == self.spec_name(),
    {
        let name = match self {
            CostTokenType::Const => "const",
            CostTokenType::Step => "step",
            CostTokenType::Hole => "hole",
            CostTokenType::RangeCheck => "range_check",
            CostTokenType::Pedersen => "pedersen",
            CostTokenType::Bitwise => "bitwise",
            CostTokenType::EcOp => "ec_op",
        };
        String::from_str(name)
    }

    /// Returns the name of the token type, in UpperCamelCase.
    pub fn camel_case_name(&self) -> (name: String)
        ensures
            name@ == upper_camel_case(self.spec_name()),
    {
        let name = self.name();
        to_upper_camel_case(name.as_str())
    }

    /// The slot of the token in the array of builtin costs. Only the pre-cost
    /// tokens have one.
    pub fn offset_in_builtin_costs(&self) -> (offset: i16)
        requires
            self.is_precost(),
        ensures
            offset == self.spec_offset_in_builtin_costs(),
            0 <= offset < 3,
    {
        match self {
            CostTokenType::Pedersen => 0,
            CostTokenType::Bitwise => 1,
            _ => 2,
        }
    }
}

} // verus!
