//! Language server support for rule documents: positions, completion,
//! diagnostics, hover help and document symbols.
pub mod utils;
pub mod yaml;
pub mod handlers;
