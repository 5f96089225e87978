//! The configuration handed to the extractor orchestrator: the `hodei.toml`
//! model with defaults filled in and timeouts read as durations.
use vstd::prelude::*;
use std::collections::HashMap;
use super::duration::{duration_millis, duration_overflows, parse_duration};
use super::model::{clone_strings, def_views, opt_text, texts, ExtractorDefView, ExtractorDef as ConfigDef, HodeiConfig};
use super::validate::{def_timeout_readable, timeouts_readable};

verus! {

/// One extractor, as the orchestrator runs it.
#[derive(Debug)]
pub struct ExtractorDef {
    /// Unique name of the extractor
    pub name: String,
    /// Command to execute
    pub command: String,
    /// Command-line arguments
    pub args: Vec<String>,
    /// Timeout, in milliseconds
    pub timeout: Option<u128>,
    /// Environment variables
    pub env: Option<HashMap<String, String>>,
    /// Memory limit in bytes
    pub memory_limit: Option<u64>,
    /// CPU priority (nice value)
    pub cpu_priority: Option<i32>,
    /// I/O priority
    pub io_priority: Option<u8>,
}

/// The orchestrator's configuration.
#[derive(Debug)]
pub struct ExtractorConfig {
    /// Extractors to run
    pub extractors: Vec<ExtractorDef>,
    /// Maximum number of extractors that run at once
    pub max_concurrent: Option<usize>,
    /// Default timeout, in milliseconds
    pub default_timeout: Option<u128>,
    /// Global memory limit in bytes
    pub global_memory_limit: Option<u64>,
    /// Global CPU limit percentage
    pub global_cpu_limit: Option<u8>,
    /// Default nice value
    pub default_nice: Option<i32>,
    /// Default I/O priority
    pub default_io_priority: Option<u8>,
}

/// A timeout read as milliseconds, zero where the text is no duration.
pub open spec fn timeout_millis(t: Option<Seq<char>>) -> Option<int> {
    match t {
        Some(s) => Some(
            match duration_millis(s) {
                Some(ms) => ms,
                None => 0,
            },
        ),
        None => None,
    }
}

/// Whether an orchestrator extractor is the conversion of a definition.
pub open spec fn converts_def(e: ExtractorDef, d: ExtractorDefView) -> bool {
    &&& e.name@ == d.name
    &&& e.command@ == d.command
    &&& texts(e.args@) == match d.args {
        Some(a) => a,
        None => Seq::empty(),
    }
    &&& timeout_millis(d.timeout) == match e.timeout {
        Some(ms) => Some(ms as int),
        None => None,
    }
    &&& (match e.env {
        Some(m) => Some(m@),
        None => None,
    }) == d.env
    &&& e.memory_limit == d.memory_limit
    &&& e.cpu_priority == d.cpu_priority
    &&& e.io_priority == d.io_priority
}

fn convert_timeout(t: &Option<String>) -> (r: Option<u128>)
    requires
        t matches Some(s) ==> !duration_overflows(s@),
    ensures
        timeout_millis(opt_text(*t)) == match r {
            Some(ms) => Some(ms as int),
            None => None,
        },
{
    match t {
        Some(s) => match parse_duration(s.as_str()) {
            Some(ms) => Some(ms),
            None => Some(0),
        },
        None => None,
    }
}

fn convert_def(d: &ConfigDef) -> (e: ExtractorDef)
    requires
        d.timeout matches Some(s) ==> !duration_overflows(s@),
    ensures
        converts_def(e, d@),
{
    let args = match &d.args {
        Some(a) => clone_strings(a),
        None => {
            let v: Vec<String> = Vec::new();
            assert(texts(v@) =~= Seq::empty());
            v
        },
    };
    let env = match &d.env {
        Some(m) => Some(m.clone()),
        None => None,
    };
    ExtractorDef {
        name: d.name.clone(),
        command: d.command.clone(),
        args,
        timeout: convert_timeout(&d.timeout),
        env,
        memory_limit: d.memory_limit,
        cpu_priority: d.cpu_priority,
        io_priority: d.io_priority,
    }
}

/// Convert a configuration for the orchestrator: every extractor
/// definition in order (no arguments where none are given), timeouts read
/// as milliseconds (zero where the text is no duration), and the global
/// limits as they are.
pub fn to_extractor_config(config: &HodeiConfig) -> (r: ExtractorConfig)
    requires
        timeouts_readable(config@),
    ensures
        r.extractors@.len() == match config@.def {
            Some(ds) => ds.len(),
            None => 0,
        },
        forall|i: int|
            0 <= i < r.extractors@.len() ==> converts_def(#[trigger] r.extractors@[i], config@.def->0[i]),
        r.max_concurrent == config@.max_concurrent,
        timeout_millis(config@.default_timeout) == match r.default_timeout {
            Some(ms) => Some(ms as int),
            None => None,
        },
        r.global_memory_limit == config@.global_memory_limit,
        r.global_cpu_limit == config@.global_cpu_limit,
        r.default_nice == config@.default_nice,
        r.default_io_priority == config@.default_io_priority,
{
    let ext = &config.extractors;
    let mut extractors: Vec<ExtractorDef> = Vec::new();
    if let Some(defs) = &ext.def {
        for i in 0..defs.len()
            invariant
                ext.def == Some(*defs),
                config@.def == Some(def_views(defs@)),
                timeouts_readable(config@),
                extractors@.len() == i,
                forall|j: int| 0 <= j < i ==> converts_def(#[trigger] extractors@[j], defs@[j]@),
        {
            assert(def_views(defs@)[i as int] == defs@[i as int]@);
            assert(def_timeout_readable(def_views(defs@)[i as int])) by {
                let ghost ds = config@.def->0;
                assert(ds == def_views(defs@));
                assert(def_timeout_readable(ds[i as int]));
            }
            let e = convert_def(&defs[i]);
            extractors.push(e);
        }
    }
    let default_timeout = convert_timeout(&ext.default_timeout);
    ExtractorConfig {
        extractors,
        max_concurrent: ext.max_concurrent,
        default_timeout,
        global_memory_limit: ext.global_memory_limit,
        global_cpu_limit: ext.global_cpu_limit,
        default_nice: ext.default_nice,
        default_io_priority: ext.default_io_priority,
    }
}

} // verus!
