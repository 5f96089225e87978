//! The analysis planning of the command line front end: change detection,
//! result caching and incremental analysis.
pub mod cache_manager;
pub mod change_detector;
pub mod facts;
pub mod incremental;
