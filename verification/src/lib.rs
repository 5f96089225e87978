//! hodei-scan: static code analysis building blocks.
//!
//! The library holds the verified logic of the analyser: the declarative
//! rule engine, the deep analysis engine (connascence, taint policy,
//! semantic model), configuration handling and the incremental analysis
//! planning used by the command line front end.
pub mod deep_analysis;
pub mod text;
pub mod cli;
pub mod config;
pub mod declarative;
pub mod ir;
