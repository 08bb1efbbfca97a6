//! Maps from cost tokens to values. A token that was never given a value has
//! none.

use vstd::prelude::*;
use crate::cost_token::CostTokenType;

verus! {

/// A map from cost tokens to values: one slot for each token.
#[derive(Debug, PartialEq, Eq)]
pub struct TokenMap<V> {
    pub const_cost: Option<V>,
    pub step: Option<V>,
    pub hole: Option<V>,
    pub range_check: Option<V>,
    pub pedersen: Option<V>,
    pub bitwise: Option<V>,
    pub ec_op: Option<V>,
}

impl<V> TokenMap<V> {
    /// The value of a token, if it has one.
    pub open spec fn spec_get(self, token: CostTokenType) -> Option<V> {
        match token {
            CostTokenType::Const => self.const_cost,
            CostTokenType::Step => self.step,
            CostTokenType::Hole => self.hole,
            CostTokenType::RangeCheck => self.range_check,
            CostTokenType::Pedersen => self.pedersen,
            CostTokenType::Bitwise => self.bitwise,
            CostTokenType::EcOp => self.ec_op,
        }
    }

    /// The map in which no token has a value.
    pub fn new() -> (map: TokenMap<V>)
        ensures
            forall|token: CostTokenType| map.spec_get(token) is None,
    {
        TokenMap {
            const_cost: None,
            step: None,
            hole: None,
            range_check: None,
            pedersen: None,
            bitwise: None,
            ec_op: None,
        }
    }

    /// The map in which one token has a value.
    pub fn single(token: CostTokenType, value: V) -> (map: TokenMap<V>)
        ensures
            map.spec_get(token) == Some(value),
            forall|other: CostTokenType| other != token ==> map.spec_get(other) is None,
    {
        let mut map = Self::new();
        map.insert(token, value);
        map
    }

    /// The value of a token, if it has one.
    pub fn get(&self, token: CostTokenType) -> (value: Option<&V>)
        ensures
            match value {
                Some(v) => self.spec_get(token) == Some(*v),
                None => self.spec_get(token) is None,
            },
    {
        match token {
            CostTokenType::Const => self.const_cost.as_ref(),
            CostTokenType::Step => self.step.as_ref(),
            CostTokenType::Hole => self.hole.as_ref(),
            CostTokenType::RangeCheck => self.range_check.as_ref(),
            CostTokenType::Pedersen => self.pedersen.as_ref(),
            CostTokenType::Bitwise => self.bitwise.as_ref(),
            CostTokenType::EcOp => self.ec_op.as_ref(),
        }
    }

    /// Gives a token a value. The values of the other tokens stay.
    pub fn insert(&mut self, token: CostTokenType, value: V)
        ensures
            final(self).spec_get(token) == Some(value),
            forall|other: CostTokenType|
                other != token ==> final(self).spec_get(other) == old(self).spec_get(other),
    {
        match token {
            CostTokenType::Const => {
                self.const_cost = Some(value);
            },
            CostTokenType::Step => {
                self.step = Some(value);
            },
            CostTokenType::Hole => {
                self.hole = Some(value);
            },
            CostTokenType::RangeCheck => {
                self.range_check = Some(value);
            },
            CostTokenType::Pedersen => {
                self.pedersen = Some(value);
            },
            CostTokenType::Bitwise => {
                self.bitwise = Some(value);
            },
            CostTokenType::EcOp => {
                self.ec_op = Some(value);
            },
        }
    }

    /// Takes the value of a token out of the map. The values of the other
    /// tokens stay.
    pub fn remove(&mut self, token: CostTokenType) -> (value: Option<V>)
        ensures
            value == old(self).spec_get(token),
            final(self).spec_get(token) is None,
            forall|other: CostTokenType|
                other != token ==> final(self).spec_get(other) == old(self).spec_get(other),
    {
        let mut taken: Option<V> = None;
        match token {
            CostTokenType::Const => {
                std::mem::swap(&mut taken, &mut self.const_cost);
            },
            CostTokenType::Step => {
                std::mem::swap(&mut taken, &mut self.step);
            },
            CostTokenType::Hole => {
                std::mem::swap(&mut taken, &mut self.hole);
            },
            CostTokenType::RangeCheck => {
                std::mem::swap(&mut taken, &mut self.range_check);
            },
            CostTokenType::Pedersen => {
                std::mem::swap(&mut taken, &mut self.pedersen);
            },
            CostTokenType::Bitwise => {
                std::mem::swap(&mut taken, &mut self.bitwise);
            },
            CostTokenType::EcOp => {
                std::mem::swap(&mut taken, &mut self.ec_op);
            },
        }
        taken
    }
}

/// All the tokens, in the order in which the maps are walked.
pub open spec fn all_tokens() -> Seq<CostTokenType> {
    seq![
        CostTokenType::Const,
        CostTokenType::Step,
        CostTokenType::Hole,
        CostTokenType::RangeCheck,
        CostTokenType::Pedersen,
        CostTokenType::Bitwise,
        CostTokenType::EcOp,
    ]
}

/// All the tokens, in the order in which the maps are walked.
pub fn tokens() -> (all: Vec<CostTokenType>)
    ensures
        all@ == all_tokens(),
        forall|token: CostTokenType| all@.contains(token),
{
    let all = vec![
        CostTokenType::Const,
        CostTokenType::Step,
        CostTokenType::Hole,
        CostTokenType::RangeCheck,
        CostTokenType::Pedersen,
        CostTokenType::Bitwise,
        CostTokenType::EcOp,
    ];
    all
}

} // verus!
