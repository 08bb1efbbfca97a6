//! The core of a compile-and-run pipeline for Cairo.
//!
//! - `cost_token`, `token_map`: the kinds of cost, and maps from them.
//! - `gas`: cost expressions over the gas variables of a program, the
//!   pre-costs and post-costs of libfuncs, the equations of the two passes
//!   of the gas analysis, and the check of their solutions.
//! - `metadata`: the changes of `ap` and the gas costs of a program.
//! - `sierra`: the parts of a Sierra program, and the registry of its
//!   declarations.
//! - `extensions`: the signatures of the libfuncs that pay for builtins.
//! - `casm`: the operands, hints and instructions of CASM, their text, and
//!   the builder that the lowering rules write their code with.
//! - `invocations`: the lowering rules of the libfuncs of Starknet.
//! - `compiler`: what the lowering hands on, and why it can fail.
//! - `runner`: the code that calls a function of a compiled program, the
//!   reading of the result of a run, and the text that tells how it ended.
//! - `semantic`: the variants of an enum, as the analysis of the front end
//!   decides them.
//! - `felt`, `bigint`: field elements, and integers of any size.
//! - `text`, `wasm_cairo_interface`: prefixes and suffixes of text, and what
//!   the entry points for a source in a string decide.

pub mod bigint;
pub mod casm;
pub mod compiler;
pub mod cost_token;
pub mod extensions;
pub mod felt;
pub mod gas;
pub mod invocations;
pub mod metadata;
pub mod runner;
pub mod semantic;
pub mod sierra;
pub mod text;
pub mod token_map;
pub mod wasm_cairo_interface;
