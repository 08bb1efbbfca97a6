//! What the analyses hand to the lowering and to the runner: the change of
//! `ap` and the gas costs of a program.

use vstd::prelude::*;
use vstd::string::*;
use crate::cost_token::CostTokenType;
use crate::sierra::ids::{FunctionId, StatementIdx};
use crate::sierra::registry::{distinct, find_index, find_repeat, index_of, lemma_index_of};
use crate::token_map::TokenMap;

verus! {

/// Why the change of `ap` could not be computed.
#[derive(Copy, Clone, Debug, PartialEq, Eq, Structural)]
pub enum ApChangeError {
    /// An identifier of the program could not be resolved.
    ProgramRegistryError,
    /// A statement lies outside the program.
    StatementOutOfBounds(StatementIdx),
    /// A statement was reached out of order.
    StatementOutOfOrder(StatementIdx),
    /// An invocation is not a legal one.
    IllegalInvocation(StatementIdx),
    /// The equations on the changes of `ap` have no solution.
    SolvingApChangeEquationFailed,
}

/// The text of an error of the changes of `ap`.
pub open spec fn ap_change_error_text(error: ApChangeError) -> Seq<char> {
    match error {
        ApChangeError::ProgramRegistryError => "error from the program registry"@,
        ApChangeError::StatementOutOfBounds(_) =>
            "found an illegal statement index during ap change calculations"@,
        ApChangeError::StatementOutOfOrder(_) =>
            "found an illegal statement index during ap change calculations"@,
        ApChangeError::IllegalInvocation(_) =>
            "found an illegal invocation during ap change calculations"@,
        ApChangeError::SolvingApChangeEquationFailed => "failed solving the ap changes"@,
    }
}

impl ApChangeError {
    /// The text of the error.
    pub fn to_string(&self) -> (text: String)
        ensures
            text@ == ap_change_error_text(*self),
    {
        match self {
            ApChangeError::ProgramRegistryError => String::from_str(
                "error from the program registry",
            ),
            ApChangeError::StatementOutOfBounds(_) => String::from_str(
                "found an illegal statement index during ap change calculations",
            ),
            ApChangeError::StatementOutOfOrder(_) => String::from_str(
                "found an illegal statement index during ap change calculations",
            ),
            ApChangeError::IllegalInvocation(_) => String::from_str(
                "found an illegal invocation during ap change calculations",
            ),
            ApChangeError::SolvingApChangeEquationFailed => String::from_str(
                "failed solving the ap changes",
            ),
        }
    }
}

/// Why the gas costs could not be computed.
#[derive(Copy, Clone, Debug, PartialEq, Eq, Structural)]
pub enum CostError {
    /// An identifier of the program could not be resolved.
    ProgramRegistryError,
    /// A statement lies outside the program.
    StatementOutOfBounds(StatementIdx),
    /// A statement was reached out of order.
    StatementOutOfOrder(StatementIdx),
    /// An invocation is not a legal one.
    IllegalInvocation(StatementIdx),
    /// The equations on the gas costs have no solution in which no cost is
    /// below zero.
    SolvingGasEquationFailed,
}

/// Why the metadata of a program could not be computed.
#[derive(Copy, Clone, Debug, PartialEq, Eq, Structural)]
pub enum MetadataError {
    ApChangeError(ApChangeError),
    CostError(CostError),
}

/// The change of `ap` that one statement causes.
#[derive(Copy, Clone, Debug, PartialEq, Eq, Structural)]
pub struct StatementApChange {
    pub statement: StatementIdx,
    pub ap_change: usize,
}

/// The change of `ap` from the entry of a function to its return.
#[derive(Clone, Debug, PartialEq, Eq)]
pub struct FunctionApChange {
    pub function: FunctionId,
    pub ap_change: usize,
}

/// The changes of `ap` of a program.
#[derive(Clone, Debug, PartialEq, Eq)]
pub struct ApChangeInfo {
    /// For the statements whose change depends on the gas analysis.
    pub variable_values: Vec<StatementApChange>,
    /// For each function whose change is known.
    pub function_ap_change: Vec<FunctionApChange>,
}

/// The values of the gas variables of one statement.
#[derive(Debug, PartialEq, Eq)]
pub struct StatementVariables {
    pub statement: StatementIdx,
    pub values: TokenMap<i64>,
}

/// The costs of calling one function.
#[derive(Debug, PartialEq, Eq)]
pub struct FunctionCost {
    pub function: FunctionId,
    pub costs: TokenMap<i64>,
}

/// No token has a value below zero.
pub open spec fn non_negative(map: TokenMap<i64>) -> bool {
    forall|token: CostTokenType| (#[trigger] map.spec_get(token)) matches Some(v) ==> v >= 0
}

/// Whether no token has a value below zero.
pub fn is_non_negative(map: &TokenMap<i64>) -> (res: bool)
    ensures
        res == non_negative(*map),
{
    let all = crate::token_map::tokens();
    let mut i: usize = 0;
    while i < all.len()
        invariant
            i <= all.len(),
            forall|token: CostTokenType| all@.contains(token),
            forall|k: int|
                0 <= k < i ==> ((#[trigger] map.spec_get(all@[k])) matches Some(v) ==> v >= 0),
        decreases all.len() - i,
    {
        match map.get(all[i]) {
            Some(v) => {
                if *v < 0 {
                    return false;
                }
            },
            None => {},
        }
        i = i + 1;
    }
    true
}

/// The statements of the entries, as numbers.
pub open spec fn statement_keys(entries: Seq<StatementVariables>) -> Seq<u64> {
    Seq::new(entries.len(), |i: int| entries[i].statement.0 as u64)
}

/// The functions of the entries, as numbers.
pub open spec fn function_keys(entries: Seq<FunctionCost>) -> Seq<u64> {
    Seq::new(entries.len(), |i: int| entries[i].function.id)
}

/// What holds of the entries of every `GasInfo`: no statement and no function
/// occurs twice, and no value is below zero.
pub open spec fn valid_gas_entries(
    variable_values: Seq<StatementVariables>,
    function_costs: Seq<FunctionCost>,
) -> bool {
    &&& distinct(statement_keys(variable_values))
    &&& distinct(function_keys(function_costs))
    &&& forall|i: int|
        0 <= i < variable_values.len() ==> non_negative((#[trigger] variable_values[i]).values)
    &&& forall|i: int|
        0 <= i < function_costs.len() ==> non_negative((#[trigger] function_costs[i]).costs)
}

/// The gas costs of a program: the values of the gas variables of its
/// statements, and the costs of its functions.
#[derive(Debug, PartialEq, Eq)]
pub struct GasInfo {
    variable_values: Vec<StatementVariables>,
    function_costs: Vec<FunctionCost>,
    statement_keys: Vec<u64>,
    function_keys: Vec<u64>,
}

impl GasInfo {
    #[verifier::type_invariant]
    spec fn well_formed(self) -> bool {
        &&& self.statement_keys@ == statement_keys(self.variable_values@)
        &&& self.function_keys@ == function_keys(self.function_costs@)
        &&& valid_gas_entries(self.variable_values@, self.function_costs@)
    }

    /// The entries for the statements.
    pub closed spec fn spec_variable_values(self) -> Seq<StatementVariables> {
        self.variable_values@
    }

    /// The entries for the functions.
    pub closed spec fn spec_function_costs(self) -> Seq<FunctionCost> {
        self.function_costs@
    }

    /// The value of the gas variable of a statement and a token, if it has
    /// one.
    pub open spec fn spec_variable_value(self, statement: StatementIdx, token: CostTokenType)
        -> Option<i64> {
        let entries = self.spec_variable_values();
        match index_of(statement_keys(entries), statement.0 as u64) {
            Some(i) => entries[i].values.spec_get(token),
            None => None,
        }
    }

    /// The costs of a function, if they are known.
    pub open spec fn spec_costs_of(self, function: u64) -> Option<TokenMap<i64>> {
        let entries = self.spec_function_costs();
        match index_of(function_keys(entries), function) {
            Some(i) => Some(entries[i].costs),
            None => None,
        }
    }

    /// The gas costs of a program for which no equation was solved.
    pub fn empty() -> (info: GasInfo)
        ensures
            info.spec_variable_values().len() == 0,
            info.spec_function_costs().len() == 0,
    {
        let variable_values: Vec<StatementVariables> = Vec::new();
        let function_costs: Vec<FunctionCost> = Vec::new();
        let st_keys: Vec<u64> = Vec::new();
        let fn_keys: Vec<u64> = Vec::new();
        assert(st_keys@ =~= statement_keys(variable_values@));
        assert(fn_keys@ =~= function_keys(function_costs@));
        GasInfo { variable_values, function_costs, statement_keys: st_keys, function_keys: fn_keys }
    }

    /// The gas costs with the given entries, if no statement and no function
    /// occurs twice among them and no value is below zero.
    pub fn new(variable_values: Vec<StatementVariables>, function_costs: Vec<FunctionCost>) -> (res:
        Option<GasInfo>)
        ensures
            res is Some <==> valid_gas_entries(variable_values@, function_costs@),
            res matches Some(info) ==> info.spec_variable_values() == variable_values@
                && info.spec_function_costs() == function_costs@,
    {
        let mut st_keys: Vec<u64> = Vec::new();
        let mut i: usize = 0;
        while i < variable_values.len()
            invariant
                i <= variable_values.len(),
                st_keys@ == statement_keys(variable_values@.take(i as int)),
                forall|k: int|
                    0 <= k < i ==> non_negative((#[trigger] variable_values@[k]).values),
            decreases variable_values.len() - i,
        {
            if !is_non_negative(&variable_values[i].values) {
                return None;
            }
            st_keys.push(variable_values[i].statement.0 as u64);
            i = i + 1;
        }
        assert(variable_values@.take(i as int) =~= variable_values@);
        let mut fn_keys: Vec<u64> = Vec::new();
        let mut j: usize = 0;
        while j < function_costs.len()
            invariant
                j <= function_costs.len(),
                fn_keys@ == function_keys(function_costs@.take(j as int)),
                forall|k: int| 0 <= k < j ==> non_negative((#[trigger] function_costs@[k]).costs),
            decreases function_costs.len() - j,
        {
            if !is_non_negative(&function_costs[j].costs) {
                return None;
            }
            fn_keys.push(function_costs[j].function.id);
            j = j + 1;
        }
        assert(function_costs@.take(j as int) =~= function_costs@);
        if find_repeat(&st_keys).is_some() {
            return None;
        }
        if find_repeat(&fn_keys).is_some() {
            return None;
        }
        Some(
            GasInfo {
                variable_values,
                function_costs,
                statement_keys: st_keys,
                function_keys: fn_keys,
            },
        )
    }

    /// Whether the costs of no function are known: no equation was solved.
    pub fn has_no_function_costs(&self) -> (none: bool)
        ensures
            none == (self.spec_function_costs().len() == 0),
    {
        self.function_costs.len() == 0
    }

    /// The value of the gas variable of a statement and a token, if it has
    /// one. No value is below zero.
    pub fn variable_value(&self, statement: StatementIdx, token: CostTokenType) -> (value: Option<
        i64,
    >)
        ensures
            value == self.spec_variable_value(statement, token),
            value matches Some(v) ==> v >= 0,
    {
        proof {
            use_type_invariant(self);
            lemma_index_of(self.statement_keys@, statement.0 as u64);
        }
        match find_index(&self.statement_keys, statement.0 as u64) {
            Some(i) => {
                match self.variable_values[i].values.get(token) {
                    Some(v) => Some(*v),
                    None => None,
                }
            },
            None => None,
        }
    }

    /// The costs of a function, if they are known. No cost is below zero.
    pub fn costs_of(&self, function: &FunctionId) -> (costs: Option<&TokenMap<i64>>)
        ensures
            match costs {
                Some(costs) => self.spec_costs_of(function.id) == Some(*costs) && non_negative(
                    *costs,
                ),
                None => self.spec_costs_of(function.id) is None,
            },
    {
        proof {
            use_type_invariant(self);
            lemma_index_of(self.function_keys@, function.id);
        }
        match find_index(&self.function_keys, function.id) {
            Some(i) => Some(&self.function_costs[i].costs),
            None => None,
        }
    }
}

/// The results of the analyses of a program.
#[derive(Debug, PartialEq, Eq)]
pub struct Metadata {
    pub ap_change_info: ApChangeInfo,
    pub gas_info: GasInfo,
}

} // verus!
