//! The text that tells how a run ended.

use vstd::prelude::*;
use vstd::string::*;
use crate::bigint::decimal_digits;
use crate::felt::{be_bytes, Felt252};
use crate::runner::short_string::{as_cairo_short_string, short_string};
use crate::runner::{RunResult, RunResultValue};

verus! {

/// The decimal texts of the first `n` values, with a comma and a space
/// between one and the next.
pub open spec fn listed(values: Seq<Felt252>, n: int) -> Seq<char>
    decreases n,
{
    if n <= 0 {
        Seq::empty()
    } else if n == 1 {
        decimal_digits(values[0]@)
    } else {
        listed(values, n - 1) + ", "@ + decimal_digits(values[n - 1]@)
    }
}

/// One value of the data of a panic: its decimal text, then in brackets and
/// quotes the short text that it holds, where it holds one, then a comma and
/// a space.
pub open spec fn panic_item(value: Felt252) -> Seq<char> {
    match short_string(be_bytes(value@)) {
        Some(text) => decimal_digits(value@) + " ('"@ + text + "'), "@,
        None => decimal_digits(value@) + ", "@,
    }
}

/// The first `n` values of the data of a panic, one after the other.
pub open spec fn panic_items(values: Seq<Felt252>, n: int) -> Seq<char>
    decreases n,
{
    if n <= 0 {
        Seq::empty()
    } else {
        panic_items(values, n - 1) + panic_item(values[n - 1])
    }
}

/// One cell of the memory: its decimal text, or an underscore where nothing
/// was written, then a comma and a space.
pub open spec fn memory_cell(cell: Option<Felt252>) -> Seq<char> {
    match cell {
        Some(value) => decimal_digits(value@) + ", "@,
        None => "_, "@,
    }
}

/// The first `n` cells of the memory, one after the other.
pub open spec fn memory_cells(memory: Seq<Option<Felt252>>, n: int) -> Seq<char>
    decreases n,
{
    if n <= 0 {
        Seq::empty()
    } else {
        memory_cells(memory, n - 1) + memory_cell(memory[n - 1])
    }
}

/// The line on what the run returned, or on what it panicked with.
pub open spec fn value_log(value: RunResultValue) -> Seq<char> {
    match value {
        RunResultValue::Success(values) => "Run completed successfully, returning ["@ + listed(
            values@,
            values@.len() as int,
        ) + "]\n"@,
        RunResultValue::Panic(values) => "Run panicked with ["@ + panic_items(
            values@,
            values@.len() as int,
        ) + "].\n"@,
    }
}

/// The line on the gas that is left, where gas was counted.
pub open spec fn gas_log(gas_counter: Option<Felt252>) -> Seq<char> {
    match gas_counter {
        Some(gas) => "Remaining gas: "@ + decimal_digits(gas@) + "\n"@,
        None => Seq::empty(),
    }
}

/// The line with the whole memory, where it is asked for.
pub open spec fn memory_log(memory: Seq<Option<Felt252>>, print_full_memory: bool) -> Seq<char> {
    if print_full_memory {
        "Full memory: ["@ + memory_cells(memory, memory.len() as int) + "]\n"@
    } else {
        Seq::empty()
    }
}

/// The text on a run: what the program logged while it ran, where that is
/// shown, then the lines on the value, the gas and the memory.
pub open spec fn run_result_log(
    result: RunResult,
    print_full_memory: bool,
    debug_log: Option<Seq<char>>,
) -> Seq<char> {
    (match debug_log {
        Some(logged) => logged,
        None => Seq::empty(),
    }) + value_log(result.value) + gas_log(result.gas_counter) + memory_log(
        result.memory@,
        print_full_memory,
    )
}

fn list_values(values: &Vec<Felt252>) -> (text: String)
    ensures
        text@ == listed(values@, values@.len() as int),
{
    let mut text = String::new();
    let mut i: usize = 0;
    while i < values.len()
        invariant
            i <= values@.len(),
            text@ == listed(values@, i as int),
        decreases values@.len() - i,
    {
        if i > 0 {
            text.append(", ");
        }
        text.append(values[i].to_string().as_str());
        i = i + 1;
    }
    text
}

fn list_panic_data(values: &Vec<Felt252>) -> (text: String)
    ensures
        text@ == panic_items(values@, values@.len() as int),
{
    let mut text = String::new();
    let mut i: usize = 0;
    while i < values.len()
        invariant
            i <= values@.len(),
            text@ == panic_items(values@, i as int),
        decreases values@.len() - i,
    {
        let mut item = values[i].to_string();
        match as_cairo_short_string(&values[i]) {
            Some(as_string) => {
                item.append(" ('");
                item.append(as_string.as_str());
                item.append("'), ");
            },
            None => {
                item.append(", ");
            },
        }
        text.append(item.as_str());
        i = i + 1;
    }
    text
}

fn list_memory(memory: &Vec<Option<Felt252>>) -> (text: String)
    ensures
        text@ == memory_cells(memory@, memory@.len() as int),
{
    let mut text = String::new();
    let mut i: usize = 0;
    while i < memory.len()
        invariant
            i <= memory@.len(),
            text@ == memory_cells(memory@, i as int),
        decreases memory@.len() - i,
    {
        match &memory[i] {
            Some(value) => {
                let mut cell = value.to_string();
                cell.append(", ");
                text.append(cell.as_str());
            },
            None => {
                text.append("_, ");
            },
        }
        i = i + 1;
    }
    text
}

fn value_text(value: &RunResultValue) -> (text: String)
    ensures
        text@ == value_log(*value),
{
    match value {
        RunResultValue::Success(values) => {
            let mut text = String::from_str("Run completed successfully, returning [");
            text.append(list_values(values).as_str());
            text.append("]\n");
            text
        },
        RunResultValue::Panic(values) => {
            let mut text = String::from_str("Run panicked with [");
            text.append(list_panic_data(values).as_str());
            text.append("].\n");
            text
        },
    }
}

/// The text that tells how a run ended. `debug_log` is what the program
/// logged while it ran, where that is to be shown.
pub fn generate_run_result_log(
    result: &RunResult,
    print_full_memory: bool,
    debug_log: Option<&str>,
) -> (text: String)
    ensures
        text@ == run_result_log(
            *result,
            print_full_memory,
            match debug_log {
                Some(logged) => Some(logged@),
                None => None,
            },
        ),
{
    let mut result_string = String::new();
    if let Some(logged) = debug_log {
        result_string.append(logged);
    }
    result_string.append(value_text(&result.value).as_str());
    let ghost with_value = result_string@;
    if let Some(gas) = &result.gas_counter {
        let mut line = String::from_str("Remaining gas: ");
        line.append(gas.to_string().as_str());
        line.append("\n");
        result_string.append(line.as_str());
    }
    assert(result_string@ =~= with_value + gas_log(result.gas_counter));
    let ghost with_gas = result_string@;
    if print_full_memory {
        let mut line = String::from_str("Full memory: [");
        line.append(list_memory(&result.memory).as_str());
        line.append("]\n");
        result_string.append(line.as_str());
    }
    assert(result_string@ =~= with_gas + memory_log(result.memory@, print_full_memory));
    result_string
}

} // verus!
