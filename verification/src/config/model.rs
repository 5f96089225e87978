//! The `hodei.toml` configuration model.
use vstd::prelude::*;
use std::collections::HashMap;

verus! {

/// Top-level configuration.
#[derive(Debug)]
pub struct HodeiConfig {
    /// Extractor configuration
    pub extractors: ExtractorConfig,
}

/// Extractor configuration section.
#[derive(Debug)]
pub struct ExtractorConfig {
    /// Whether extractors are enabled
    pub enabled: Option<bool>,
    /// Maximum number of extractors to run concurrently
    pub max_concurrent: Option<usize>,
    /// Default timeout for all extractors
    pub default_timeout: Option<String>,
    /// Global memory limit in bytes
    pub global_memory_limit: Option<u64>,
    /// Global CPU limit percentage (0-100)
    pub global_cpu_limit: Option<u8>,
    /// Default nice value for CPU priority (-20 to 19)
    pub default_nice: Option<i32>,
    /// Default I/O priority (0-7, where 0 is highest)
    pub default_io_priority: Option<u8>,
    /// Individual extractor definitions
    pub def: Option<Vec<ExtractorDef>>,
}

/// Definition of a single extractor.
#[derive(Debug)]
pub struct ExtractorDef {
    /// Unique name for the extractor
    pub name: String,
    /// Command to execute
    pub command: String,
    /// Command-line arguments
    pub args: Option<Vec<String>>,
    /// Timeout for this specific extractor
    pub timeout: Option<String>,
    /// Environment variables
    pub env: Option<HashMap<String, String>>,
    /// Memory limit for this extractor in bytes
    pub memory_limit: Option<u64>,
    /// CPU priority (nice value)
    pub cpu_priority: Option<i32>,
    /// I/O priority (0-7)
    pub io_priority: Option<u8>,
    /// Source tool name (e.g., "ruff", "semgrep")
    pub source: Option<String>,
}

/// Mathematical value of an extractor definition.
pub struct ExtractorDefView {
    pub name: Seq<char>,
    pub command: Seq<char>,
    pub args: Option<Seq<Seq<char>>>,
    pub timeout: Option<Seq<char>>,
    pub env: Option<Map<String, String>>,
    pub memory_limit: Option<u64>,
    pub cpu_priority: Option<i32>,
    pub io_priority: Option<u8>,
    pub source: Option<Seq<char>>,
}

/// Mathematical value of an extractor configuration section.
pub struct ExtractorConfigView {
    pub enabled: Option<bool>,
    pub max_concurrent: Option<usize>,
    pub default_timeout: Option<Seq<char>>,
    pub global_memory_limit: Option<u64>,
    pub global_cpu_limit: Option<u8>,
    pub default_nice: Option<i32>,
    pub default_io_priority: Option<u8>,
    pub def: Option<Seq<ExtractorDefView>>,
}

/// The text of an optional string.
pub open spec fn opt_text(o: Option<String>) -> Option<Seq<char>> {
    match o {
        Some(s) => Some(s@),
        None => None,
    }
}

/// The texts of a sequence of strings.
pub open spec fn texts(v: Seq<String>) -> Seq<Seq<char>> {
    v.map_values(|s: String| s@)
}

/// The texts of an optional sequence of strings.
pub open spec fn opt_texts(o: Option<Vec<String>>) -> Option<Seq<Seq<char>>> {
    match o {
        Some(v) => Some(texts(v@)),
        None => None,
    }
}

/// The views of a sequence of extractor definitions.
pub open spec fn def_views(v: Seq<ExtractorDef>) -> Seq<ExtractorDefView> {
    v.map_values(|d: ExtractorDef| d@)
}

impl View for ExtractorDef {
    type V = ExtractorDefView;

    open spec fn view(&self) -> ExtractorDefView {
        ExtractorDefView {
            name: self.name@,
            command: self.command@,
            args: opt_texts(self.args),
            timeout: opt_text(self.timeout),
            env: match self.env {
                Some(m) => Some(m@),
                None => None,
            },
            memory_limit: self.memory_limit,
            cpu_priority: self.cpu_priority,
            io_priority: self.io_priority,
            source: opt_text(self.source),
        }
    }
}

impl View for ExtractorConfig {
    type V = ExtractorConfigView;

    open spec fn view(&self) -> ExtractorConfigView {
        ExtractorConfigView {
            enabled: self.enabled,
            max_concurrent: self.max_concurrent,
            default_timeout: opt_text(self.default_timeout),
            global_memory_limit: self.global_memory_limit,
            global_cpu_limit: self.global_cpu_limit,
            default_nice: self.default_nice,
            default_io_priority: self.default_io_priority,
            def: match self.def {
                Some(v) => Some(def_views(v@)),
                None => None,
            },
        }
    }
}

impl View for HodeiConfig {
    type V = ExtractorConfigView;

    open spec fn view(&self) -> ExtractorConfigView {
        self.extractors@
    }
}

/// Copy an optional string.
pub fn clone_opt_string(o: &Option<String>) -> (r: Option<String>)
    ensures
        opt_text(r) == opt_text(*o),
{
    match o {
        Some(s) => Some(s.clone()),
        None => None,
    }
}

/// Copy a sequence of strings.
pub fn clone_strings(v: &Vec<String>) -> (r: Vec<String>)
    ensures
        r@ == v@,
{
    let mut r: Vec<String> = Vec::new();
    for i in 0..v.len()
        invariant
            r@ == v@.take(i as int),
    {
        r.push(v[i].clone());
        assert(r@ =~= v@.take(i + 1));
    }
    assert(v@.take(v.len() as int) =~= v@);
    r
}

impl Clone for ExtractorDef {
    fn clone(&self) -> (r: Self)
        ensures
            r@ == self@,
    {
        ExtractorDef {
            name: self.name.clone(),
            command: self.command.clone(),
            args: match &self.args {
                Some(a) => Some(clone_strings(a)),
                None => None,
            },
            timeout: clone_opt_string(&self.timeout),
            env: match &self.env {
                Some(m) => Some(m.clone()),
                None => None,
            },
            memory_limit: self.memory_limit,
            cpu_priority: self.cpu_priority,
            io_priority: self.io_priority,
            source: clone_opt_string(&self.source),
        }
    }
}

/// Copy a sequence of extractor definitions.
pub fn clone_defs(v: &Vec<ExtractorDef>) -> (r: Vec<ExtractorDef>)
    ensures
        def_views(r@) == def_views(v@),
{
    let mut r: Vec<ExtractorDef> = Vec::new();
    for i in 0..v.len()
        invariant
            def_views(r@) == def_views(v@.take(i as int)),
    {
        let c = v[i].clone();
        assert(c@ == v@[i as int]@);
        let ghost before = r@;
        r.push(c);
        assert(r@ == before.push(c));
        assert(def_views(r@) =~= def_views(v@.take(i + 1))) by {
            assert(v@.take(i + 1) =~= v@.take(i as int).push(v@[i as int]));
            assert(def_views(before.push(c)) =~= def_views(before).push(c@));
            assert(def_views(v@.take(i as int).push(v@[i as int])) =~= def_views(
                v@.take(i as int),
            ).push(v@[i as int]@));
        }
    }
    assert(v@.take(v.len() as int) =~= v@);
    r
}

impl Clone for ExtractorConfig {
    fn clone(&self) -> (r: Self)
        ensures
            r@ == self@,
    {
        ExtractorConfig {
            enabled: self.enabled,
            max_concurrent: self.max_concurrent,
            default_timeout: clone_opt_string(&self.default_timeout),
            global_memory_limit: self.global_memory_limit,
            global_cpu_limit: self.global_cpu_limit,
            default_nice: self.default_nice,
            default_io_priority: self.default_io_priority,
            def: match &self.def {
                Some(v) => Some(clone_defs(v)),
                None => None,
            },
        }
    }
}

impl Clone for HodeiConfig {
    fn clone(&self) -> (r: Self)
        ensures
            r@ == self@,
    {
        HodeiConfig { extractors: self.extractors.clone() }
    }
}

} // verus!
