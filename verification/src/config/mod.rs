//! Configuration of hodei-scan: the `hodei.toml` model, its validation and
//! the merge of a global configuration with a project configuration.
pub mod duration;
pub mod merge;
pub mod model;
pub mod protocol;
pub mod validate;

pub use model::{ExtractorConfig, ExtractorDef, HodeiConfig};
pub use validate::ConfigError;
pub use merge::merge_config;
