//! Validation of the configuration.
use vstd::prelude::*;
use super::duration::{duration_millis, duration_overflows, parse_duration};
use super::model::{def_views, ExtractorConfigView, ExtractorDef, ExtractorDefView, HodeiConfig};

verus! {

/// Errors of configuration parsing or validation.
#[derive(Debug)]
pub enum ConfigError {
    /// The file could not be read.
    Io(String),
    /// The TOML text could not be parsed.
    TomlError(String),
    /// The configuration breaks a rule.
    ValidationError(String),
    /// The configuration file does not exist.
    MissingFile,
}

/// Whether every timeout in an extractor definition can be read without
/// overflow.
pub open spec fn def_timeout_readable(d: ExtractorDefView) -> bool {
    d.timeout matches Some(t) ==> !duration_overflows(t)
}

/// Whether every timeout in a configuration can be read without overflow.
pub open spec fn timeouts_readable(c: ExtractorConfigView) -> bool {
    &&& (c.default_timeout matches Some(t) ==> !duration_overflows(t))
    &&& (c.def matches Some(ds) ==> forall|i: int|
        0 <= i < ds.len() ==> def_timeout_readable(#[trigger] ds[i]))
}

/// The first rule that an extractor definition breaks, as its message.
pub open spec fn extractor_error(d: ExtractorDefView) -> Option<Seq<char>> {
    if d.name.len() == 0 {
        Some("Extractor name cannot be empty"@)
    } else if d.command.len() == 0 {
        Some("Extractor '"@ + d.name + "' command cannot be empty"@)
    } else if d.timeout is Some && duration_millis(d.timeout->0) is None {
        Some("Invalid timeout for extractor '"@ + d.name + "': "@ + d.timeout->0)
    } else if d.cpu_priority is Some && (d.cpu_priority->0 < -20 || d.cpu_priority->0 > 19) {
        Some("Extractor '"@ + d.name + "' cpu_priority must be between -20 and 19"@)
    } else if d.io_priority is Some && d.io_priority->0 > 7 {
        Some("Extractor '"@ + d.name + "' io_priority must be between 0 and 7"@)
    } else {
        None
    }
}

/// The first rule that a sequence of extractor definitions breaks.
pub open spec fn first_extractor_error(ds: Seq<ExtractorDefView>) -> Option<Seq<char>>
    decreases ds.len(),
{
    if ds.len() == 0 {
        None
    } else {
        match extractor_error(ds[0]) {
            Some(m) => Some(m),
            None => first_extractor_error(ds.drop_first()),
        }
    }
}

/// The first rule that a configuration breaks, as its message; `None` for a
/// valid configuration.
pub open spec fn config_error(c: ExtractorConfigView) -> Option<Seq<char>> {
    if c.max_concurrent == Some(0usize) {
        Some("max_concurrent must be greater than 0"@)
    } else if c.default_timeout is Some && duration_millis(c.default_timeout->0) is None {
        Some("Invalid timeout format: "@ + c.default_timeout->0)
    } else if c.default_nice is Some && (c.default_nice->0 < -20 || c.default_nice->0 > 19) {
        Some("default_nice must be between -20 and 19"@)
    } else if c.default_io_priority is Some && c.default_io_priority->0 > 7 {
        Some("default_io_priority must be between 0 and 7"@)
    } else if c.global_cpu_limit is Some && c.global_cpu_limit->0 > 100 {
        Some("global_cpu_limit must be between 0 and 100"@)
    } else if c.def is Some {
        first_extractor_error(c.def->0)
    } else {
        None
    }
}

/// Whether an extractor definition keeps every bound: a name and a command,
/// a readable timeout, a CPU priority between -20 and 19 and an I/O priority
/// between 0 and 7, where given.
pub open spec fn def_within_bounds(d: ExtractorDefView) -> bool {
    &&& d.name.len() > 0
    &&& d.command.len() > 0
    &&& (d.timeout matches Some(t) ==> duration_millis(t) is Some)
    &&& (d.cpu_priority matches Some(p) ==> -20 <= p <= 19)
    &&& (d.io_priority matches Some(p) ==> p <= 7)
}

proof fn lemma_first_extractor_error_none(ds: Seq<ExtractorDefView>)
    ensures
        first_extractor_error(ds) is None <==> forall|i: int| 0 <= i < ds.len() ==> def_within_bounds(#[trigger] ds[i]),
    decreases ds.len(),
{
    if ds.len() > 0 {
        lemma_first_extractor_error_none(ds.drop_first());
        if first_extractor_error(ds) is None {
            assert forall|i: int| 0 <= i < ds.len() implies def_within_bounds(#[trigger] ds[i]) by {
                if i > 0 {
                    assert(ds[i] == ds.drop_first()[i - 1]);
                }
            }
        }
        if forall|i: int| 0 <= i < ds.len() ==> def_within_bounds(#[trigger] ds[i]) {
            assert(def_within_bounds(ds[0]));
            assert forall|i: int| 0 <= i < ds.drop_first().len() implies def_within_bounds(#[trigger] ds.drop_first()[i]) by {
                assert(ds.drop_first()[i] == ds[i + 1]);
            }
        }
    }
}

/// A configuration validates exactly when it keeps every bound:
/// `max_concurrent` is not zero, the default timeout is readable,
/// `default_nice` lies between -20 and 19, `default_io_priority` between 0
/// and 7 and `global_cpu_limit` between 0 and 100, where given, and every
/// extractor definition keeps its bounds.
pub proof fn law_valid_configs_keep_their_bounds(c: ExtractorConfigView)
    ensures
        config_error(c) is None <==> {
            &&& c.max_concurrent != Some(0usize)
            &&& (c.default_timeout matches Some(t) ==> duration_millis(t) is Some)
            &&& (c.default_nice matches Some(n) ==> -20 <= n <= 19)
            &&& (c.default_io_priority matches Some(p) ==> p <= 7)
            &&& (c.global_cpu_limit matches Some(l) ==> l <= 100)
            &&& (c.def matches Some(ds) ==> forall|i: int| 0 <= i < ds.len() ==> def_within_bounds(#[trigger] ds[i]))
        },
{
    if c.def is Some {
        lemma_first_extractor_error_none(c.def->0);
    }
}

fn text2(a: &str, b: &str) -> (r: String)
    ensures
        r@ == a@ + b@,
{
    String::from_str(a).concat(b)
}

fn text3(a: &str, b: &str, c: &str) -> (r: String)
    ensures
        r@ == a@ + b@ + c@,
{
    String::from_str(a).concat(b).concat(c)
}

fn text4(a: &str, b: &str, c: &str, d: &str) -> (r: String)
    ensures
        r@ == a@ + b@ + c@ + d@,
{
    String::from_str(a).concat(b).concat(c).concat(d)
}

/// Validate a single extractor definition.
pub fn validate_extractor(extractor: &ExtractorDef) -> (r: Result<(), ConfigError>)
    requires
        def_timeout_readable(extractor@),
    ensures
        match r {
            Ok(()) => extractor_error(extractor@) is None,
            Err(ConfigError::ValidationError(m)) => extractor_error(extractor@) == Some(m@),
            Err(_) => false,
        },
{
    let name = extractor.name.as_str();
    if name.is_empty() {
        return Err(ConfigError::ValidationError(String::from_str("Extractor name cannot be empty")));
    }
    if extractor.command.as_str().is_empty() {
        return Err(ConfigError::ValidationError(text3("Extractor '", name, "' command cannot be empty")));
    }
    if let Some(timeout) = &extractor.timeout {
        if parse_duration(timeout.as_str()).is_none() {
            return Err(ConfigError::ValidationError(text4("Invalid timeout for extractor '", name, "': ", timeout.as_str())));
        }
    }
    if let Some(priority) = extractor.cpu_priority {
        if priority < -20 || priority > 19 {
            return Err(ConfigError::ValidationError(text3("Extractor '", name, "' cpu_priority must be between -20 and 19")));
        }
    }
    if let Some(priority) = extractor.io_priority {
        if priority > 7 {
            return Err(ConfigError::ValidationError(text3("Extractor '", name, "' io_priority must be between 0 and 7")));
        }
    }
    Ok(())
}

/// Validate a configuration: the global limits and every extractor definition.
pub fn validate_config(config: &HodeiConfig) -> (r: Result<(), ConfigError>)
    requires
        timeouts_readable(config@),
    ensures
        match r {
            Ok(()) => config_error(config@) is None,
            Err(ConfigError::ValidationError(m)) => config_error(config@) == Some(m@),
            Err(_) => false,
        },
{
    let ext = &config.extractors;
    if let Some(max) = ext.max_concurrent {
        if max == 0 {
            return Err(ConfigError::ValidationError(String::from_str("max_concurrent must be greater than 0")));
        }
    }
    if let Some(timeout) = &ext.default_timeout {
        if parse_duration(timeout.as_str()).is_none() {
            return Err(ConfigError::ValidationError(text2("Invalid timeout format: ", timeout.as_str())));
        }
    }
    if let Some(nice) = ext.default_nice {
        if nice < -20 || nice > 19 {
            return Err(ConfigError::ValidationError(String::from_str("default_nice must be between -20 and 19")));
        }
    }
    if let Some(priority) = ext.default_io_priority {
        if priority > 7 {
            return Err(ConfigError::ValidationError(String::from_str("default_io_priority must be between 0 and 7")));
        }
    }
    if let Some(limit) = ext.global_cpu_limit {
        if limit > 100 {
            return Err(ConfigError::ValidationError(String::from_str("global_cpu_limit must be between 0 and 100")));
        }
    }
    if let Some(extractors) = &ext.def {
        let ghost ds = def_views(extractors@);
        assert(ds.skip(0) =~= ds);
        assert(config_error(config@) == first_extractor_error(ds));
        for i in 0..extractors.len()
            invariant
                ds == def_views(extractors@),
                timeouts_readable(config@),
                config.extractors.def == Some(*extractors),
                first_extractor_error(ds) == first_extractor_error(ds.skip(i as int)),
                config_error(config@) == first_extractor_error(ds),
        {
            proof {
                let rest = ds.skip(i as int);
                assert(rest[0] == extractors@[i as int]@);
                assert(rest.drop_first() =~= ds.skip(i + 1));
                assert(def_timeout_readable(ds[i as int]));
            }
            match validate_extractor(&extractors[i]) {
                Ok(()) => {},
                Err(e) => {
                    return Err(e);
                },
            }
        }
        assert(ds.skip(extractors.len() as int) =~= Seq::<ExtractorDefView>::empty());
    }
    Ok(())
}

/// Accept a configuration read from `hodei.toml` text: a text that could
/// not be parsed is a TOML error with the parser's message; a parsed
/// configuration is validated and handed back when it is valid.
pub fn accept_parsed_config(parsed: Result<HodeiConfig, String>) -> (r: Result<HodeiConfig, ConfigError>)
    requires
        parsed matches Ok(c) ==> timeouts_readable(c@),
    ensures
        match parsed {
            Err(e) => r matches Err(ConfigError::TomlError(m)) && m@ == e@,
            Ok(c) => match config_error(c@) {
                None => r matches Ok(v) && v@ == c@,
                Some(msg) => r matches Err(ConfigError::ValidationError(m)) && m@ == msg,
            },
        },
{
    match parsed {
        Err(e) => Err(ConfigError::TomlError(e)),
        Ok(c) => match validate_config(&c) {
            Ok(()) => Ok(c),
            Err(e) => Err(e),
        },
    }
}

} // verus!
