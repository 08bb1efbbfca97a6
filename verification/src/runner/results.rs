//! Reading the result of a run from the memory that the machine leaves:
//! the values that the function returned end at the final `ap`.

use vstd::prelude::*;
use vstd::string::*;
use crate::felt::Felt252;
use crate::runner::entry_code::{sizes_sum, type_infos};
use crate::runner::{RunResult, RunResultValue, RunnerError, StarknetState};
use crate::sierra::ids::ConcreteTypeId;
use crate::sierra::program::{GenericArg, TypeInfo};
use crate::sierra::registry::{ProgramRegistry, ProgramRegistryError};
use crate::text::{is_prefix, starts_with};

verus! {

/// Every cell from `start` up to `end` lies in the memory and holds a value.
pub open spec fn cells_readable(cells: Seq<Option<Felt252>>, start: int, end: int) -> bool {
    &&& 0 <= start <= end
    &&& forall|i: int| start <= i < end ==> i < cells.len() && (#[trigger] cells[i]) is Some
}

/// The values of the cells from `start` up to `end`.
pub open spec fn read_cells(cells: Seq<Option<Felt252>>, start: int, end: int) -> Seq<Felt252> {
    Seq::new((end - start) as nat, |i: int| cells[start + i].unwrap())
}

/// Reads the values of the cells from `start` up to `end`, if each of them
/// lies in the memory and holds a value.
pub fn read_range(cells: &[Option<Felt252>], start: usize, end: usize) -> (res: Option<
    Vec<Felt252>,
>)
    ensures
        match res {
            Some(values) => cells_readable(cells@, start as int, end as int) && values@
                == read_cells(cells@, start as int, end as int),
            None => !cells_readable(cells@, start as int, end as int),
        },
{
    if start > end {
        return None;
    }
    let mut values: Vec<Felt252> = Vec::new();
    let mut i: usize = start;
    while i < end
        invariant
            start <= i <= end,
            values@.len() == i - start,
            forall|k: int| start <= k < i ==> k < cells@.len() && (#[trigger] cells@[k]) is Some,
            forall|k: int| 0 <= k < values@.len() ==> values@[k] == cells@[start + k].unwrap(),
        decreases end - i,
    {
        if i >= cells.len() {
            assert(!(i < cells@.len() && cells@[i as int] is Some));
            return None;
        }
        match cells[i] {
            Some(value) => {
                values.push(value);
            },
            None => {
                return None;
            },
        }
        i = i + 1;
    }
    Some(values)
}

/// The values of a returned type, with the type.
#[derive(Debug, PartialEq, Eq)]
pub struct TypedValues {
    pub ty: ConcreteTypeId,
    pub values: Vec<Felt252>,
}

/// The cell at which the values of the `j`-th returned type start: the values
/// of all the returned types end at `ap`, in the order of the signature.
pub open spec fn result_start(infos: Seq<TypeInfo>, ap: int, j: int) -> int {
    ap - sizes_sum(infos, infos.len() as int) + sizes_sum(infos, j)
}

/// The values of the `j`-th returned type.
pub open spec fn result_values(
    infos: Seq<TypeInfo>,
    cells: Seq<Option<Felt252>>,
    ap: int,
    j: int,
) -> Seq<Felt252> {
    read_cells(cells, result_start(infos, ap, j), result_start(infos, ap, j) + infos[j].size)
}

/// The returned values can be read: they start in the memory, and each of
/// their cells lies in the memory and holds a value.
pub open spec fn results_readable(infos: Seq<TypeInfo>, cells: Seq<Option<Felt252>>, ap: int)
    -> bool {
    cells_readable(cells, ap - sizes_sum(infos, infos.len() as int), ap)
}

/// The place `j` holds the last of the types that is not declared.
pub open spec fn last_unresolved_at(
    registry: ProgramRegistry,
    types: Seq<ConcreteTypeId>,
    j: int,
) -> bool {
    &&& 0 <= j < types.len()
    &&& registry.spec_get_type(types[j].id) is None
    &&& forall|k: int| j < k < types.len() ==> registry.spec_get_type((#[trigger] types[k]).id) is Some
}

/// Every one of the types is declared.
pub open spec fn all_declared(registry: ProgramRegistry, types: Seq<ConcreteTypeId>) -> bool {
    forall|k: int| 0 <= k < types.len() ==> registry.spec_get_type((#[trigger] types[k]).id) is Some
}

/// The text of the error for a memory that does not hold the returned values.
pub open spec fn bad_memory_text() -> Seq<char> {
    "The memory does not hold the values that the function returns."@
}

/// The text of the error for returned types that the runner cannot read a
/// result from.
pub open spec fn bad_type_text() -> Seq<char> {
    "The types that the function returns are not ones that the runner can read."@
}

/// The error for a memory that does not hold what the function returns.
pub fn bad_memory() -> (error: RunnerError)
    ensures
        error matches RunnerError::Other(text) && text@ == bad_memory_text(),
{
    RunnerError::Other(
        String::from_str("The memory does not hold the values that the function returns."),
    )
}

/// The error for returned types that the runner cannot read a result from.
pub fn bad_type() -> (error: RunnerError)
    ensures
        error matches RunnerError::Other(text) && text@ == bad_type_text(),
{
    RunnerError::Other(
        String::from_str(
            "The types that the function returns are not ones that the runner can read.",
        ),
    )
}

/// What `get_results_data` returns. The last returned type that is not
/// declared is an error; so is a memory from which the values cannot be read.
/// Otherwise there is one entry for each returned type, the last type first,
/// with the values of the type.
pub open spec fn results_data_post(
    registry: ProgramRegistry,
    types: Seq<ConcreteTypeId>,
    cells: Seq<Option<Felt252>>,
    ap: usize,
    res: Result<Vec<TypedValues>, RunnerError>,
) -> bool {
    if !all_declared(registry, types) {
        res matches Err(RunnerError::ProgramRegistryError(ProgramRegistryError::MissingType(id)))
            && exists|j: int| last_unresolved_at(registry, types, j) && #[trigger] types[j] == id
    } else {
        let infos = type_infos(registry, types);
        if !results_readable(infos, cells, ap as int) {
            res matches Err(RunnerError::Other(text)) && text@ == bad_memory_text()
        } else {
            res matches Ok(data) && data@.len() == types.len() && forall|r: int|
                0 <= r < data@.len() ==> (#[trigger] data@[r]).ty == types[types.len() - 1 - r]
                    && data@[r].values@ == result_values(
                    infos,
                    cells,
                    ap as int,
                    types.len() - 1 - r,
                )
        }
    }
}

/// The sum of the sizes of the types from the place `j` on.
pub open spec fn sizes_from(infos: Seq<TypeInfo>, j: int) -> int {
    sizes_sum(infos, infos.len() as int) - sizes_sum(infos, j)
}

/// Returns the values of all the variables that a function returns, with
/// their types: the last type first.
pub fn get_results_data(
    registry: &ProgramRegistry,
    ret_types: &Vec<ConcreteTypeId>,
    cells: &[Option<Felt252>],
    ap: usize,
) -> (res: Result<Vec<TypedValues>, RunnerError>)
    ensures
        results_data_post(*registry, ret_types@, cells@, ap, res),
{
    let ghost infos = type_infos(*registry, ret_types@);
    let n = ret_types.len();
    let mut results_data: Vec<TypedValues> = Vec::new();
    let mut cur: usize = ap;
    let mut readable = true;
    let mut r: usize = 0;
    while r < n
        invariant
            r <= n,
            n == ret_types@.len(),
            infos == type_infos(*registry, ret_types@),
            forall|k: int|
                n - r <= k < n ==> registry.spec_get_type((#[trigger] ret_types@[k]).id) is Some,
            forall|k: int| n - r <= k < n ==> (#[trigger] infos[k]).size >= 0,
            sizes_from(infos, n - r) >= 0,
            readable ==> cur == ap - sizes_from(infos, n - r),
            readable ==> cells_readable(cells@, cur as int, ap as int),
            !readable ==> !cells_readable(cells@, ap - sizes_from(infos, n - r), ap as int),
            readable ==> results_data@.len() == r,
            readable ==> forall|q: int|
                0 <= q < r ==> (#[trigger] results_data@[q]).ty == ret_types@[n - 1 - q]
                    && results_data@[q].values@ == read_cells(
                    cells@,
                    ap - sizes_from(infos, n - 1 - q),
                    ap - sizes_from(infos, n - q),
                ),
        decreases n - r,
    {
        let j = n - 1 - r;
        let ty = &ret_types[j];
        match registry.get_type(ty) {
            Err(error) => {
                return Err(RunnerError::ProgramRegistryError(error));
            },
            Ok(info) => {
                let size = info.size as usize;
                if readable {
                    if size > cur {
                        readable = false;
                    } else {
                        match read_range(cells, cur - size, cur) {
                            Some(values) => {
                                results_data.push(TypedValues { ty: ty.duplicate(), values });
                                cur = cur - size;
                            },
                            None => {
                                readable = false;
                            },
                        }
                    }
                }
            },
        }
        r = r + 1;
    }
    if !readable {
        return Err(bad_memory());
    }
    Ok(results_data)
}

/// What is known of a type that may wrap a panic.
pub enum Wrapping {
    /// The type is not an enum that wraps a panic.
    Plain,
    /// The type is an enum whose first generic argument is a user type with a
    /// name that begins with `core::PanicResult::`.
    PanicResult,
    /// The type is an enum of which the runner cannot tell: it has no generic
    /// argument, or its first one is a user type without a name.
    Unknown,
}

/// Whether a type wraps a panic.
pub open spec fn wrapping_of(info: TypeInfo) -> Wrapping {
    let args = info.long_id.generic_args@;
    if info.long_id.generic_id.name@ != "Enum"@ {
        Wrapping::Plain
    } else if args.len() == 0 {
        Wrapping::Unknown
    } else {
        match args[0] {
            GenericArg::UserType(user_type) => match user_type.debug_name {
                Some(name) => if is_prefix("core::PanicResult::"@, name@) {
                    Wrapping::PanicResult
                } else {
                    Wrapping::Plain
                },
                None => Wrapping::Unknown,
            },
            _ => Wrapping::Plain,
        }
    }
}

/// Whether a type wraps a panic.
pub fn find_wrapping(info: &TypeInfo) -> (wrapping: Wrapping)
    ensures
        wrapping == wrapping_of(*info),
{
    if !info.long_id.generic_id.is("Enum") {
        return Wrapping::Plain;
    }
    if info.long_id.generic_args.len() == 0 {
        return Wrapping::Unknown;
    }
    match &info.long_id.generic_args[0] {
        GenericArg::UserType(user_type) => match &user_type.debug_name {
            Some(name) => {
                if starts_with(name.as_str(), "core::PanicResult::") {
                    Wrapping::PanicResult
                } else {
                    Wrapping::Plain
                }
            },
            None => Wrapping::Unknown,
        },
        _ => Wrapping::Plain,
    }
}

/// What the main returned value of a run is read as.
pub enum ReturnOutcome {
    Success(Seq<Felt252>),
    Panic(Seq<Felt252>),
    /// The type that a panic result wraps is not declared.
    MissingType(ConcreteTypeId),
    /// The type is not one that the runner can read a result from.
    BadType,
    /// The memory does not hold what the values point to.
    BadMemory,
}

/// The type that a panic result wraps: its second generic argument.
pub open spec fn inner_type(info: TypeInfo) -> Option<ConcreteTypeId> {
    let args = info.long_id.generic_args@;
    if args.len() < 2 {
        None
    } else {
        match args[1] {
            GenericArg::Type(ty) => Some(ty),
            _ => None,
        }
    }
}

/// How the main returned value of a run is read. The values of a type that
/// wraps no panic are the result. Of a panic result the first value tells
/// whether the run panicked. If it is not zero, the last two values are the
/// start and the end of the panic's data in the memory. If it is zero, the
/// result is the last values, as many as the wrapped type has cells.
pub open spec fn main_return_outcome(
    registry: ProgramRegistry,
    info: TypeInfo,
    values: Seq<Felt252>,
    cells: Seq<Option<Felt252>>,
) -> ReturnOutcome {
    match wrapping_of(info) {
        Wrapping::Plain => ReturnOutcome::Success(values),
        Wrapping::Unknown => ReturnOutcome::BadType,
        Wrapping::PanicResult => if values.len() == 0 {
            ReturnOutcome::BadMemory
        } else if values[0]@ != 0 {
            if values.len() < 2 {
                ReturnOutcome::BadMemory
            } else {
                let start = values[values.len() - 2]@ as int;
                let end = values[values.len() - 1]@ as int;
                if end <= usize::MAX && cells_readable(cells, start, end) {
                    ReturnOutcome::Panic(read_cells(cells, start, end))
                } else {
                    ReturnOutcome::BadMemory
                }
            }
        } else {
            match inner_type(info) {
                None => ReturnOutcome::BadType,
                Some(ty) => match registry.spec_get_type(ty.id) {
                    None => ReturnOutcome::MissingType(ty),
                    Some(inner) => if inner.size > values.len() {
                        ReturnOutcome::BadMemory
                    } else {
                        ReturnOutcome::Success(values.skip(values.len() - inner.size))
                    },
                },
            }
        },
    }
}

/// Whether a result is the one that an outcome asks for.
pub open spec fn is_outcome(outcome: ReturnOutcome, res: Result<RunResultValue, RunnerError>)
    -> bool {
    match outcome {
        ReturnOutcome::Success(values) => res matches Ok(RunResultValue::Success(v)) && v@
            == values,
        ReturnOutcome::Panic(values) => res matches Ok(RunResultValue::Panic(v)) && v@ == values,
        ReturnOutcome::MissingType(ty) => res matches Err(
            RunnerError::ProgramRegistryError(ProgramRegistryError::MissingType(id)),
        ) && id == ty,
        ReturnOutcome::BadType => res matches Err(RunnerError::Other(text)) && text@
            == bad_type_text(),
        ReturnOutcome::BadMemory => res matches Err(RunnerError::Other(text)) && text@
            == bad_memory_text(),
    }
}

/// Reads the main returned value of a run: `values` are the values of the
/// returned type `info`, and `cells` is the memory.
pub fn handle_main_return_value(
    registry: &ProgramRegistry,
    info: &TypeInfo,
    values: Vec<Felt252>,
    cells: &[Option<Felt252>],
) -> (res: Result<RunResultValue, RunnerError>)
    ensures
        is_outcome(main_return_outcome(*registry, *info, values@, cells@), res),
        // The result of a run that did not panic has as many values as the
        // type that the panic result wraps has cells.
        wrapping_of(*info) is PanicResult && values@.len() > 0 && values@[0]@ == 0 ==> (
        res matches Ok(RunResultValue::Success(v)) ==> inner_type(*info) matches Some(ty)
            && registry.spec_get_type(ty.id) matches Some(inner) && v@.len() == inner.size),
{
    match find_wrapping(info) {
        Wrapping::Plain => Ok(RunResultValue::Success(values)),
        Wrapping::Unknown => Err(bad_type()),
        Wrapping::PanicResult => {
            if values.len() == 0 {
                return Err(bad_memory());
            }
            if !values[0].is_zero() {
                // The run resulted in a panic, returning the error data.
                if values.len() < 2 {
                    return Err(bad_memory());
                }
                let start = values[values.len() - 2].to_usize();
                let end = values[values.len() - 1].to_usize();
                match (start, end) {
                    (Some(start), Some(end)) => match read_range(cells, start, end) {
                        Some(data) => Ok(RunResultValue::Panic(data)),
                        None => Err(bad_memory()),
                    },
                    (None, Some(end)) => {
                        Err(bad_memory())
                    },
                    _ => Err(bad_memory()),
                }
            } else {
                // The run resulted successfully, returning the inner value.
                if info.long_id.generic_args.len() < 2 {
                    return Err(bad_type());
                }
                match &info.long_id.generic_args[1] {
                    GenericArg::Type(inner_ty) => match registry.get_type(inner_ty) {
                        Err(error) => Err(RunnerError::ProgramRegistryError(error)),
                        Ok(inner) => {
                            let inner_size = inner.size as usize;
                            if inner_size > values.len() {
                                return Err(bad_memory());
                            }
                            let skip_size = values.len() - inner_size;
                            let mut result: Vec<Felt252> = Vec::new();
                            let mut i: usize = skip_size;
                            while i < values.len()
                                invariant
                                    skip_size <= i <= values.len(),
                                    result@ == values@.subrange(skip_size as int, i as int),
                                decreases values.len() - i,
                            {
                                result.push(values[i]);
                                i = i + 1;
                            }
                            Ok(RunResultValue::Success(result))
                        },
                    },
                    _ => Err(bad_type()),
                }
            }
        },
    }
}

/// Whether a type of the given generic name is a builtin that a function
/// returns beside its result.
pub open spec fn is_implicit_name(name: Seq<char>) -> bool {
    name == "RangeCheck"@ || name == "Bitwise"@ || name == "EcOp"@ || name == "Pedersen"@ || name
        == "Poseidon"@ || name == "System"@ || name == "SegmentArena"@
}

/// Whether a returned type is the gas builtin.
pub open spec fn is_gas(info: TypeInfo) -> bool {
    info.long_id.generic_id.name@ == "GasBuiltin"@
}

/// Whether a returned type is part of the result: neither the gas builtin nor
/// another builtin.
pub open spec fn is_explicit(info: TypeInfo) -> bool {
    !is_gas(info) && !is_implicit_name(info.long_id.generic_id.name@)
}

/// Every returned gas builtin takes one cell.
pub open spec fn gas_sizes_ok(infos: Seq<TypeInfo>) -> bool {
    forall|j: int| 0 <= j < infos.len() && is_gas(#[trigger] infos[j]) ==> infos[j].size == 1
}

/// The gas counter among the first `n` returned types: the value of the first
/// gas builtin.
pub open spec fn gas_counter_upto(
    infos: Seq<TypeInfo>,
    cells: Seq<Option<Felt252>>,
    ap: int,
    n: int,
) -> Option<Felt252>
    decreases n,
{
    if n <= 0 {
        None
    } else {
        match gas_counter_upto(infos, cells, ap, n - 1) {
            Some(gas) => Some(gas),
            None => if is_gas(infos[n - 1]) {
                Some(result_values(infos, cells, ap, n - 1)[0])
            } else {
                None
            },
        }
    }
}

/// The places of the types among the first `n` returned types that are part
/// of the result.
pub open spec fn explicit_upto(infos: Seq<TypeInfo>, n: int) -> Seq<int>
    decreases n,
{
    if n <= 0 {
        Seq::<int>::empty()
    } else if is_explicit(infos[n - 1]) {
        explicit_upto(infos, n - 1).push(n - 1)
    } else {
        explicit_upto(infos, n - 1)
    }
}

fn classify_name(info: &TypeInfo) -> (res: (bool, bool))
    ensures
        res.0 == is_gas(*info),
        res.1 == is_explicit(*info),
{
    let id = &info.long_id.generic_id;
    if id.is("GasBuiltin") {
        (true, false)
    } else {
        let implicit = id.is("RangeCheck") || id.is("Bitwise") || id.is("EcOp") || id.is("Pedersen")
            || id.is("Poseidon") || id.is("System") || id.is("SegmentArena");
        (false, !implicit)
    }
}

/// What the projection of a run's result returns. The last returned type
/// that is not declared is an error; so is a memory from which the returned
/// values cannot be read, a gas builtin that does not take one cell, and more
/// than one returned type that is part of the result. Otherwise the gas
/// counter is the value of the first returned gas builtin. With no returned
/// type that is part of the result, the run succeeded with no values; with
/// one, its values are read as the main returned value.
pub open spec fn projection_post(
    registry: ProgramRegistry,
    types: Seq<ConcreteTypeId>,
    cells: Seq<Option<Felt252>>,
    ap: usize,
    starknet_state: StarknetState,
    res: Result<RunResult, RunnerError>,
) -> bool {
    if !all_declared(registry, types) {
        res matches Err(RunnerError::ProgramRegistryError(ProgramRegistryError::MissingType(id)))
            && exists|j: int| last_unresolved_at(registry, types, j) && #[trigger] types[j] == id
    } else {
        let infos = type_infos(registry, types);
        let n = infos.len() as int;
        let explicit = explicit_upto(infos, n);
        if !results_readable(infos, cells, ap as int) {
            res matches Err(RunnerError::Other(text)) && text@ == bad_memory_text()
        } else if !gas_sizes_ok(infos) || explicit.len() > 1 {
            res matches Err(RunnerError::Other(text)) && text@ == bad_type_text()
        } else if explicit.len() == 0 {
            res matches Ok(result) && result.gas_counter == gas_counter_upto(
                infos,
                cells,
                ap as int,
                n,
            ) && result.memory@ == cells && result.starknet_state == starknet_state && (
            result.value matches RunResultValue::Success(values) && values@.len() == 0)
        } else {
            let j = explicit[0];
            match res {
                Ok(result) => result.gas_counter == gas_counter_upto(infos, cells, ap as int, n)
                    && result.memory@ == cells && result.starknet_state == starknet_state
                    && is_outcome(
                    main_return_outcome(
                        registry,
                        infos[j],
                        result_values(infos, cells, ap as int, j),
                        cells,
                    ),
                    Ok(result.value),
                ),
                Err(error) => is_outcome(
                    main_return_outcome(
                        registry,
                        infos[j],
                        result_values(infos, cells, ap as int, j),
                        cells,
                    ),
                    Err(error),
                ),
            }
        }
    }
}

/// A function that returns nothing beside builtins succeeds with no values,
/// where the builtins can be read.
pub open spec fn no_explicit_return_post(
    registry: ProgramRegistry,
    types: Seq<ConcreteTypeId>,
    cells: Seq<Option<Felt252>>,
    ap: usize,
    res: Result<RunResult, RunnerError>,
) -> bool {
    let infos = type_infos(registry, types);
    all_declared(registry, types) && results_readable(infos, cells, ap as int) && gas_sizes_ok(
        infos,
    ) && explicit_upto(infos, infos.len() as int).len() == 0 ==> (res matches Ok(result) && (
    result.value matches RunResultValue::Success(values) && values@.len() == 0))
}

/// A result that is read from a panic result that did not panic has as many
/// values as the wrapped type has cells.
pub open spec fn panic_result_success_post(
    registry: ProgramRegistry,
    types: Seq<ConcreteTypeId>,
    cells: Seq<Option<Felt252>>,
    ap: usize,
    res: Result<RunResult, RunnerError>,
) -> bool {
    let infos = type_infos(registry, types);
    let explicit = explicit_upto(infos, infos.len() as int);
    all_declared(registry, types) && results_readable(infos, cells, ap as int) && gas_sizes_ok(
        infos,
    ) && explicit.len() == 1 && wrapping_of(infos[explicit[0]]) is PanicResult && result_values(
        infos,
        cells,
        ap as int,
        explicit[0],
    ).len() > 0 && result_values(infos, cells, ap as int, explicit[0])[0]@ == 0 ==> (
    res matches Ok(result) ==> (result.value matches RunResultValue::Success(values) && (
    inner_type(infos[explicit[0]]) matches Some(ty) && (registry.spec_get_type(
        ty.id,
    ) matches Some(inner) && values@.len() == inner.size))))
}

/// Reads the result of a run of a function that returns the types
/// `ret_types` from the memory `cells` that the run left, with the final `ap`.
pub fn project_results(
    registry: &ProgramRegistry,
    ret_types: &Vec<ConcreteTypeId>,
    cells: Vec<Option<Felt252>>,
    ap: usize,
    starknet_state: StarknetState,
) -> (res: Result<RunResult, RunnerError>)
    ensures
        projection_post(*registry, ret_types@, cells@, ap, starknet_state, res),
        no_explicit_return_post(*registry, ret_types@, cells@, ap, res),
        panic_result_success_post(*registry, ret_types@, cells@, ap, res),
{
    let ghost infos = type_infos(*registry, ret_types@);
    let n = ret_types.len();
    let mut data = match get_results_data(registry, ret_types, cells.as_slice(), ap) {
        Ok(data) => data,
        Err(error) => {
            return Err(error);
        },
    };
    let ghost full = data@;
    let mut gas_counter: Option<Felt252> = None;
    let mut gas_ok = true;
    let mut kept: Option<(usize, Vec<Felt252>)> = None;
    let mut kept_count: usize = 0;
    let mut j: usize = 0;
    while j < n
        invariant
            j <= n,
            n == ret_types@.len(),
            infos == type_infos(*registry, ret_types@),
            all_declared(*registry, ret_types@),
            results_readable(infos, cells@, ap as int),
            full.len() == n,
            forall|r: int|
                0 <= r < full.len() ==> (#[trigger] full[r]).values@ == result_values(
                    infos,
                    cells@,
                    ap as int,
                    n - 1 - r,
                ),
            data@ == full.take(n - j),
            gas_ok == gas_sizes_ok(infos.take(j as int)),
            gas_ok ==> gas_counter == gas_counter_upto(infos, cells@, ap as int, j as int),
            kept_count == explicit_upto(infos, j as int).len(),
            kept_count <= j,
            kept_count > 0 ==> (kept matches Some(pair) && pair.0 == explicit_upto(
                infos,
                j as int,
            )[0] && pair.0 < n && pair.1@ == result_values(
                infos,
                cells@,
                ap as int,
                pair.0 as int,
            )),
        decreases n - j,
    {
        let entry = data.pop().unwrap();
        match registry.get_type(&ret_types[j]) {
            Err(error) => {
                assert(false);
                return Err(RunnerError::ProgramRegistryError(error));
            },
            Ok(info) => {
                let (gas, explicit) = classify_name(info);
                let ghost next_infos = infos.take(j as int + 1);
                proof {
                    assert(next_infos[j as int] == *info);
                }
                if gas {
                    if entry.values.len() != 1 {
                        gas_ok = false;
                    } else if gas_counter.is_none() {
                        gas_counter = Some(entry.values[0]);
                    }
                } else if explicit {
                    if kept_count == 0 {
                        kept = Some((j, entry.values));
                    }
                    kept_count = kept_count + 1;
                }
            },
        }
        j = j + 1;
    }
    assert(infos.take(n as int) =~= infos);
    if !gas_ok || kept_count > 1 {
        return Err(bad_type());
    }
    match kept {
        None => Ok(
            RunResult {
                gas_counter,
                memory: cells,
                value: RunResultValue::Success(Vec::new()),
                starknet_state,
            },
        ),
        Some((main, values)) => {
            if kept_count == 0 {
                return Ok(
                    RunResult {
                        gas_counter,
                        memory: cells,
                        value: RunResultValue::Success(Vec::new()),
                        starknet_state,
                    },
                );
            }
            match registry.get_type(&ret_types[main]) {
                Err(error) => {
                    assert(false);
                    Err(RunnerError::ProgramRegistryError(error))
                },
                Ok(info) => {
                    match handle_main_return_value(registry, info, values, cells.as_slice()) {
                        Ok(value) => Ok(
                            RunResult { gas_counter, memory: cells, value, starknet_state },
                        ),
                        Err(error) => Err(error),
                    }
                },
            }
        },
    }
}

} // verus!
