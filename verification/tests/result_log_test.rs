use cairo_core::felt::Felt252;
use cairo_core::runner::result_log::generate_run_result_log;
use cairo_core::runner::short_string::as_cairo_short_string;
use cairo_core::runner::{RunResult, RunResultValue, StarknetState};

fn run_result(
    gas_counter: Option<Felt252>,
    memory: Vec<Option<Felt252>>,
    value: RunResultValue,
) -> RunResult {
    RunResult { gas_counter, memory, value, starknet_state: StarknetState { storage: vec![] } }
}

#[test]
fn bytes_are_most_significant_first_without_zeros_in_front() {
    assert_eq!(Felt252::from_u64(0).to_bytes_be(), vec![0]);
    assert_eq!(Felt252::from_u64(255).to_bytes_be(), vec![255]);
    assert_eq!(Felt252::from_u64(258).to_bytes_be(), vec![1, 2]);
    assert_eq!(Felt252::from_bytes_be(b"hello").to_bytes_be(), b"hello".to_vec());
    assert_eq!(
        Felt252::from_u64(u64::MAX).to_bytes_be(),
        vec![255, 255, 255, 255, 255, 255, 255, 255]
    );
    let mut two_pow_251 = vec![0u8; 32];
    two_pow_251[0] = 8;
    assert_eq!(Felt252::two_pow_251().to_bytes_be(), two_pow_251);
}

#[test]
fn short_string_of_ascii_bytes() {
    assert_eq!(
        as_cairo_short_string(&Felt252::from_bytes_be(b"hello")),
        Some("hello".to_string())
    );
    assert_eq!(
        as_cairo_short_string(&Felt252::from_u64(1869574259)),
        Some("oops".to_string())
    );
    assert_eq!(
        as_cairo_short_string(&Felt252::from_bytes_be(b"Out of gas")),
        Some("Out of gas".to_string())
    );
}

#[test]
fn short_string_of_zero_is_empty() {
    assert_eq!(as_cairo_short_string(&Felt252::from_u64(0)), Some(String::new()));
}

#[test]
fn short_string_ends_at_the_first_zero_byte() {
    assert_eq!(
        as_cairo_short_string(&Felt252::from_bytes_be(&[b'a', b'b', 0, 0])),
        Some("ab".to_string())
    );
    assert_eq!(as_cairo_short_string(&Felt252::from_bytes_be(&[b'a', 0, b'b'])), None);
    assert_eq!(as_cairo_short_string(&Felt252::from_bytes_be(&[b'a', 0, 0, b'b', 0])), None);
}

#[test]
fn short_string_needs_ascii_bytes() {
    assert_eq!(as_cairo_short_string(&Felt252::from_u64(128)), None);
    assert_eq!(as_cairo_short_string(&Felt252::from_bytes_be(&[b'a', 200, b'b'])), None);
    assert_eq!(as_cairo_short_string(&Felt252::from_u64(127)), Some("\u{7f}".to_string()));
}

#[test]
fn log_of_a_successful_run() {
    let result = run_result(
        None,
        vec![],
        RunResultValue::Success(vec![Felt252::from_u64(1), Felt252::from_u64(2)]),
    );
    assert_eq!(
        generate_run_result_log(&result, false, None),
        "Run completed successfully, returning [1, 2]\n"
    );
}

#[test]
fn log_of_a_run_that_returns_nothing() {
    let result = run_result(None, vec![], RunResultValue::Success(vec![]));
    assert_eq!(
        generate_run_result_log(&result, false, None),
        "Run completed successfully, returning []\n"
    );
    let one = run_result(None, vec![], RunResultValue::Success(vec![Felt252::from_u64(9)]));
    assert_eq!(
        generate_run_result_log(&one, false, None),
        "Run completed successfully, returning [9]\n"
    );
}

#[test]
fn log_of_a_panic_shows_short_strings() {
    let result = run_result(
        None,
        vec![],
        RunResultValue::Panic(vec![Felt252::from_bytes_be(b"oops"), Felt252::from_u64(200)]),
    );
    assert_eq!(
        generate_run_result_log(&result, false, None),
        "Run panicked with [1869574259 ('oops'), 200, ].\n"
    );
    let empty = run_result(None, vec![], RunResultValue::Panic(vec![]));
    assert_eq!(generate_run_result_log(&empty, false, None), "Run panicked with [].\n");
}

#[test]
fn log_with_gas_and_memory() {
    let result = run_result(
        Some(Felt252::from_u64(9000)),
        vec![None, Some(Felt252::from_u64(7)), None],
        RunResultValue::Success(vec![Felt252::from_u64(3)]),
    );
    assert_eq!(
        generate_run_result_log(&result, true, None),
        "Run completed successfully, returning [3]\nRemaining gas: 9000\nFull memory: [_, 7, _, ]\n"
    );
    assert_eq!(
        generate_run_result_log(&result, false, None),
        "Run completed successfully, returning [3]\nRemaining gas: 9000\n"
    );
}

#[test]
fn log_begins_with_what_the_program_logged() {
    let result = run_result(None, vec![], RunResultValue::Success(vec![]));
    assert_eq!(
        generate_run_result_log(&result, true, Some("[DEBUG] 1\n")),
        "[DEBUG] 1\nRun completed successfully, returning []\nFull memory: []\n"
    );
}
