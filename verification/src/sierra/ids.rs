//! The identifiers of a Sierra program.
//!
//! A concrete identifier is a number, with a name for people beside it. Two
//! identifiers with the same number name the same thing.

use vstd::prelude::*;
use vstd::string::*;
use crate::bigint::{decimal_digits, BigInt};

verus! {

/// The text of an identifier: its name, or its number in brackets where it
/// has no name.
pub open spec fn id_text(id: u64, debug_name: Option<String>) -> Seq<char> {
    match debug_name {
        Some(name) => name@,
        None => "["@ + decimal_digits(id as nat) + "]"@,
    }
}

/// The text of an identifier.
pub fn id_to_string(id: u64, debug_name: &Option<String>) -> (text: String)
    ensures
        text@ == id_text(id, *debug_name),
{
    match debug_name {
        Some(name) => name.clone(),
        None => {
            let mut text = String::from_str("[");
            text.append(BigInt::from_u128(id as u128).to_string().as_str());
            text.append("]");
            text
        },
    }
}

/// The name of a generic type, such as `RangeCheck` or `Array`.
#[derive(Clone, Debug, PartialEq, Eq)]
pub struct GenericTypeId {
    pub name: String,
}

impl GenericTypeId {
    /// The generic type of a name.
    pub fn new_inline(name: &str) -> (id: GenericTypeId)
        ensures
            id.name@ == name@,
    {
        GenericTypeId { name: name.to_owned() }
    }

    /// Whether this is the generic type of the given name.
    pub fn is(&self, name: &str) -> (same: bool)
        ensures
            same == (self.name@ == name@),
    {
        let other = name.to_owned();
        self.name == other
    }
}

/// The name of a generic libfunc, such as `felt_add` or `store_temp`.
#[derive(Clone, Debug, PartialEq, Eq)]
pub struct GenericLibFuncId {
    pub name: String,
}

/// The identifier of a type with its generic arguments filled in.
#[derive(Clone, Debug, PartialEq, Eq)]
pub struct ConcreteTypeId {
    pub id: u64,
    pub debug_name: Option<String>,
}

impl ConcreteTypeId {
    /// The id of a number, without a name.
    pub fn new(id: u64) -> (res: ConcreteTypeId)
        ensures
            res.id == id,
            res.debug_name is None,
    {
        ConcreteTypeId { id, debug_name: None }
    }

    /// A copy of the id.
    pub fn duplicate(&self) -> (res: ConcreteTypeId)
        ensures
            res.id == self.id,
            res.debug_name == self.debug_name,
    {
        ConcreteTypeId { id: self.id, debug_name: self.debug_name.clone() }
    }
}

/// The identifier of a libfunc with its generic arguments filled in.
#[derive(Clone, Debug, PartialEq, Eq)]
pub struct ConcreteLibFuncId {
    pub id: u64,
    pub debug_name: Option<String>,
}

impl ConcreteLibFuncId {
    /// A copy of the id.
    pub fn duplicate(&self) -> (res: ConcreteLibFuncId)
        ensures
            res.id == self.id,
            res.debug_name == self.debug_name,
    {
        ConcreteLibFuncId { id: self.id, debug_name: self.debug_name.clone() }
    }
}

/// The identifier of a function of the program.
#[derive(Clone, Debug, PartialEq, Eq)]
pub struct FunctionId {
    pub id: u64,
    pub debug_name: Option<String>,
}

impl FunctionId {
    /// A copy of the id.
    pub fn duplicate(&self) -> (res: FunctionId)
        ensures
            res.id == self.id,
            res.debug_name == self.debug_name,
    {
        FunctionId { id: self.id, debug_name: self.debug_name.clone() }
    }
}

/// The identifier of a type that the user declared.
#[derive(Clone, Debug, PartialEq, Eq)]
pub struct UserTypeId {
    pub id: u64,
    pub debug_name: Option<String>,
}

/// The identifier of a variable of a function.
#[derive(Copy, Clone, Debug, Hash, PartialEq, Eq, Structural)]
pub struct VarId {
    pub id: u64,
}

/// The place of a statement in the program.
#[derive(Copy, Clone, Debug, Hash, PartialEq, Eq, Structural)]
pub struct StatementIdx(pub usize);

} // verus!
