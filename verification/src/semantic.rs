//! What the semantic analysis of the front end decides of the items of a
//! module, given what the front end read and resolved.

pub mod enm;
