//! The libfuncs and types that this library knows by name: what their
//! signatures are once their generic arguments are filled in.

pub mod builtin_cost;
pub mod lib_func;
