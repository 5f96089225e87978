//! Incremental analysis: which files to analyse after a change, and the
//! facts that the built-in extractor finds in a file.
use vstd::prelude::*;
use super::cache_manager::{cache_error_text, CacheError};
use super::change_detector::{change_error_text, ChangeError, ChangeType, ChangedFile};
use super::facts::CodeSmellFact;
use crate::ir::Severity;
use crate::text::lines::{line_texts, lines, lines_of};
use crate::text::number::{decimal, decimal_text};
use crate::text::search::{contains, contains_text};

verus! {

/// Errors of the incremental analysis.
#[derive(Debug)]
pub enum AnalysisError {
    /// Change detection failed.
    ChangeDetection(ChangeError),
    /// The cache failed.
    Cache(CacheError),
    /// Reading the project failed.
    Io(String),
    /// An extractor failed.
    Extractor(String),
    /// Any other error.
    Custom { message: String },
}

/// The text of an analysis error.
pub open spec fn analysis_error_text(e: AnalysisError) -> Seq<char> {
    match e {
        AnalysisError::ChangeDetection(c) => "Change detection error: "@ + change_error_text(c),
        AnalysisError::Cache(c) => "Cache error: "@ + cache_error_text(c),
        AnalysisError::Io(m) => "IO error: "@ + m@,
        AnalysisError::Extractor(m) => "Extractor error: "@ + m@,
        AnalysisError::Custom { message } => "Custom error: "@ + message@,
    }
}

impl AnalysisError {
    /// A custom error.
    pub fn msg(message: &str) -> (e: Self)
        ensures
            e matches AnalysisError::Custom { message: m } && m@ == message@,
    {
        AnalysisError::Custom { message: String::from_str(message) }
    }

    /// The error's text.
    pub fn to_string(&self) -> (s: String)
        ensures
            s@ == analysis_error_text(*self),
    {
        match self {
            AnalysisError::ChangeDetection(c) => {
                let t = c.to_string();
                String::from_str("Change detection error: ").concat(t.as_str())
            },
            AnalysisError::Cache(c) => {
                let t = c.to_string();
                String::from_str("Cache error: ").concat(t.as_str())
            },
            AnalysisError::Io(m) => String::from_str("IO error: ").concat(m.as_str()),
            AnalysisError::Extractor(m) => String::from_str("Extractor error: ").concat(m.as_str()),
            AnalysisError::Custom { message } => String::from_str("Custom error: ").concat(message.as_str()),
        }
    }
}

/// The numbers, counted from 1, of the lines that contain `TODO`, among the
/// first `n` lines.
pub open spec fn todo_line_numbers(ls: Seq<Seq<char>>, n: int) -> Seq<nat>
    decreases n,
{
    if n <= 0 {
        Seq::empty()
    } else {
        let prev = todo_line_numbers(ls, n - 1);
        if contains_text(ls[n - 1], "TODO"@) {
            prev.push(n as nat)
        } else {
            prev
        }
    }
}

/// Whether `f` is the fact for a `TODO` at line `line` of `file`.
pub open spec fn is_todo_fact(f: CodeSmellFact, file: Seq<char>, line: nat) -> bool {
    &&& f.smell_type@ == "TODO"@
    &&& f.severity == Severity::Minor
    &&& f.message@ == "TODO found at line "@ + decimal(line)
    &&& f.file@ == file
    &&& f.line == line
}

/// Whether `facts` are the `TODO` facts of a file's content, one for each
/// line that contains `TODO`, in order.
pub open spec fn todo_facts(facts: Seq<CodeSmellFact>, file: Seq<char>, content: Seq<char>) -> bool {
    let ns = todo_line_numbers(lines_of(content), lines_of(content).len() as int);
    &&& facts.len() == ns.len()
    &&& forall|k: int| 0 <= k < facts.len() ==> is_todo_fact(#[trigger] facts[k], file, ns[k])
}

/// The extractor built into the command line: it reports each `TODO`.
#[derive(Debug)]
pub struct MockExtractor {
    id: String,
}

impl MockExtractor {
    /// An extractor with an identifier.
    pub fn new(id: &str) -> (e: Self)
        ensures
            e.id()@ == id@,
    {
        MockExtractor { id: String::from_str(id) }
    }

    /// The extractor's identifier.
    pub closed spec fn id(&self) -> String {
        self.id
    }

    /// The extractor's identifier.
    pub fn extractor_id(&self) -> (s: &str)
        ensures
            s@ == self.id()@,
    {
        self.id.as_str()
    }

    /// The facts of a file, given what reading it gave: one for each line
    /// that contains `TODO`; none where the file could not be read.
    pub fn extract_file(&self, file_path: &str, read: Result<String, String>) -> (r: Result<Vec<CodeSmellFact>, AnalysisError>)
        requires
            read matches Ok(content) ==> lines_of(content@).len() < u32::MAX,
        ensures
            match read {
                Ok(content) => r matches Ok(facts) && todo_facts(facts@, file_path@, content@),
                Err(_) => r matches Ok(facts) && facts@.len() == 0,
            },
    {
        match read {
            Ok(content) => Ok(todo_facts_of(file_path, content.as_str())),
            Err(_) => Ok(Vec::new()),
        }
    }
}

/// The `TODO` facts of a file's content.
pub fn todo_facts_of(file_path: &str, content: &str) -> (facts: Vec<CodeSmellFact>)
    requires
        lines_of(content@).len() < u32::MAX,
    ensures
        todo_facts(facts@, file_path@, content@),
{
    let ls = lines(content);
    let ghost lv = lines_of(content@);
    let mut facts: Vec<CodeSmellFact> = Vec::new();
    for i in 0..ls.len()
        invariant
            line_texts(ls@) == lv,
            lv == lines_of(content@),
            lv.len() < u32::MAX,
            facts@.len() == todo_line_numbers(lv, i as int).len(),
            forall|k: int|
                0 <= k < facts@.len() ==> is_todo_fact(#[trigger] facts@[k], file_path@, todo_line_numbers(lv, i as int)[k]),
    {
        let line = ls[i].as_str();
        assert(line@ == lv[i as int]);
        if contains(line, "TODO") {
            let line_num: u32 = (i + 1) as u32;
            let mut message = String::from_str("TODO found at line ");
            let n = decimal_text(line_num as u64);
            message.append(n.as_str());
            let fact = CodeSmellFact {
                smell_type: String::from_str("TODO"),
                severity: Severity::Minor,
                message,
                file: String::from_str(file_path),
                line: line_num,
            };
            facts.push(fact);
        }
    }
    facts
}

/// The paths of the changes that leave a file to analyse (all but
/// deletions), in order.
pub open spec fn paths_to_analyse(changes: Seq<ChangedFile>) -> Seq<Seq<char>>
    decreases changes.len(),
{
    if changes.len() == 0 {
        Seq::empty()
    } else {
        let prev = paths_to_analyse(changes.drop_last());
        if changes.last().change_type != ChangeType::Deleted {
            prev.push(changes.last().path@)
        } else {
            prev
        }
    }
}

/// The files that changes leave to analyse: every added, modified, renamed
/// or copied file, in order.
pub fn changed_files(changes: &Vec<ChangedFile>) -> (r: Vec<String>)
    ensures
        line_texts(r@) == paths_to_analyse(changes@),
{
    let mut r: Vec<String> = Vec::new();
    for i in 0..changes.len()
        invariant
            line_texts(r@) == paths_to_analyse(changes@.take(i as int)),
    {
        assert(changes@.take(i + 1).drop_last() =~= changes@.take(i as int));
        let ghost before = r@;
        match changes[i].change_type {
            ChangeType::Deleted => {},
            _ => {
                r.push(changes[i].path.clone());
                assert(line_texts(r@) =~= line_texts(before).push(changes@[i as int].path@));
            },
        }
    }
    assert(changes@.take(changes@.len() as int) =~= changes@);
    r
}

/// Whether the whole project must be analysed rather than the changed
/// files: when asked to, when no change detector is used, when the share of
/// changed files is above the threshold, or when more files changed than
/// may be analysed incrementally.
pub fn full_analysis_needed(
    force_full: bool,
    has_change_detector: bool,
    above_threshold: bool,
    changed_count: usize,
    max_changed_files: usize,
) -> (b: bool)
    ensures
        b == (force_full || !has_change_detector || above_threshold || changed_count > max_changed_files),
{
    force_full || !has_change_detector || above_threshold || changed_count > max_changed_files
}

} // verus!
