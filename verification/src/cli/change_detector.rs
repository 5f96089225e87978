//! Change detection: what changed in a project since a reference point,
//! from the deltas of a Git diff or by comparing content hashes.
use vstd::prelude::*;
use sha2::Digest;
use std::time::{SystemTime, UNIX_EPOCH};
use crate::declarative::rule_tester::{entry_keys, key_slot, keys_distinct};
use crate::text::chars::text_is;

verus! {

/// Kind of change of a file.
#[derive(Debug, Clone, Copy, PartialEq, Eq, Structural)]
pub enum ChangeType {
    /// File was added to the repository
    Added,
    /// File was modified
    Modified,
    /// File was deleted
    Deleted,
    /// File was renamed
    Renamed,
    /// File was copied from another file
    Copied,
}

/// A changed file.
#[derive(Debug, Clone)]
pub struct ChangedFile {
    /// Path of the changed file
    pub path: String,
    /// Kind of change
    pub change_type: ChangeType,
    /// When the change was detected, in seconds since the Unix epoch
    pub timestamp: u64,
    /// Former path, for renames and copies
    pub old_path: Option<String>,
    /// Change identifier, such as a commit hash
    pub change_id: Option<String>,
}

/// A changed file seen without the time it was detected.
pub struct ChangeView {
    pub path: Seq<char>,
    pub change_type: ChangeType,
    pub old_path: Option<Seq<char>>,
    pub change_id: Option<Seq<char>>,
}

/// The view of an optional string.
pub open spec fn opt_view(o: Option<String>) -> Option<Seq<char>> {
    match o {
        Some(s) => Some(s@),
        None => None,
    }
}

impl View for ChangedFile {
    type V = ChangeView;

    open spec fn view(&self) -> ChangeView {
        ChangeView {
            path: self.path@,
            change_type: self.change_type,
            old_path: opt_view(self.old_path),
            change_id: opt_view(self.change_id),
        }
    }
}

/// The views of a sequence of changed files.
pub open spec fn change_views(v: Seq<ChangedFile>) -> Seq<ChangeView> {
    v.map_values(|c: ChangedFile| c@)
}

/// `SystemTime::now`, as whole seconds since the Unix epoch (zero before
/// the epoch). Nothing is claimed of the value: it is the machine's clock.
#[verifier::external_body]
pub(crate) fn unix_seconds_now() -> (secs: u64) {
    SystemTime::now().duration_since(UNIX_EPOCH).unwrap_or_default().as_secs()
}

impl ChangedFile {
    /// A change detected now, with no former path and no identifier.
    pub fn new(path: String, change_type: ChangeType) -> (c: Self)
        ensures
            c.path == path,
            c.change_type == change_type,
            c.old_path is None,
            c.change_id is None,
    {
        ChangedFile { path, change_type, timestamp: unix_seconds_now(), old_path: None, change_id: None }
    }

    /// A change detected now, with its former path.
    pub fn with_old_path(path: String, old_path: String, change_type: ChangeType) -> (c: Self)
        ensures
            c.path == path,
            c.change_type == change_type,
            c.old_path == Some(old_path),
            c.change_id is None,
    {
        let mut file = ChangedFile::new(path, change_type);
        file.old_path = Some(old_path);
        file
    }

    /// A change detected now, with its identifier.
    pub fn with_change_id(path: String, change_type: ChangeType, change_id: String) -> (c: Self)
        ensures
            c.path == path,
            c.change_type == change_type,
            c.old_path is None,
            c.change_id == Some(change_id),
    {
        let mut file = ChangedFile::new(path, change_type);
        file.change_id = Some(change_id);
        file
    }
}

/// Errors of change detection.
#[derive(Debug)]
pub enum ChangeError {
    /// Reading the project failed.
    Io(String),
    /// The Git repository could not be used.
    Git { message: String },
    /// A content hash could not be computed.
    Hash { message: String },
    /// No source control system was found.
    ScmNotFound { scm: String },
    /// The repository is not valid.
    InvalidRepository { path: String },
    /// Any other error.
    Custom { message: String },
}

/// The text of a change detection error.
pub open spec fn change_error_text(e: ChangeError) -> Seq<char> {
    match e {
        ChangeError::Io(m) => "IO error: "@ + m@,
        ChangeError::Git { message } => "Git error: "@ + message@,
        ChangeError::Hash { message } => "Hash computation error: "@ + message@,
        ChangeError::ScmNotFound { scm } => "SCM not found: "@ + scm@,
        ChangeError::InvalidRepository { path } => "Invalid repository: "@ + path@,
        ChangeError::Custom { message } => "Custom error: "@ + message@,
    }
}

impl ChangeError {
    /// A custom error.
    pub fn msg(message: &str) -> (e: Self)
        ensures
            e matches ChangeError::Custom { message: m } && m@ == message@,
    {
        ChangeError::Custom { message: String::from_str(message) }
    }

    /// A Git error.
    pub fn git(message: &str) -> (e: Self)
        ensures
            e matches ChangeError::Git { message: m } && m@ == message@,
    {
        ChangeError::Git { message: String::from_str(message) }
    }

    /// A hash error.
    pub fn hash(message: &str) -> (e: Self)
        ensures
            e matches ChangeError::Hash { message: m } && m@ == message@,
    {
        ChangeError::Hash { message: String::from_str(message) }
    }

    /// The error's text.
    pub fn to_string(&self) -> (s: String)
        ensures
            s@ == change_error_text(*self),
    {
        match self {
            ChangeError::Io(m) => String::from_str("IO error: ").concat(m.as_str()),
            ChangeError::Git { message } => String::from_str("Git error: ").concat(message.as_str()),
            ChangeError::Hash { message } => String::from_str("Hash computation error: ").concat(message.as_str()),
            ChangeError::ScmNotFound { scm } => String::from_str("SCM not found: ").concat(scm.as_str()),
            ChangeError::InvalidRepository { path } => String::from_str("Invalid repository: ").concat(path.as_str()),
            ChangeError::Custom { message } => String::from_str("Custom error: ").concat(message.as_str()),
        }
    }
}

/// What a delta of a Git diff did to an entry.
#[derive(Debug, Clone, Copy, PartialEq, Eq, Structural)]
pub enum DeltaStatus {
    Added,
    Deleted,
    Modified,
    Renamed,
    Copied,
    /// Any other status (unmodified, ignored, untracked, type change, ...)
    Other,
}

/// A delta of a Git diff: its status and the paths of its two sides.
#[derive(Debug)]
pub struct DiffDelta {
    pub status: DeltaStatus,
    pub new_path: Option<String>,
    pub old_path: Option<String>,
}

/// The change that a delta reports, if any, for the head commit `head`:
/// an added, modified or renamed/copied entry under its new path, a deleted
/// one under its old path; a rename or a copy keeps its old path.
pub open spec fn delta_change(d: DiffDelta, head: Seq<char>) -> Option<ChangeView> {
    match d.status {
        DeltaStatus::Added => match d.new_path {
            Some(p) => Some(ChangeView { path: p@, change_type: ChangeType::Added, old_path: None, change_id: Some(head) }),
            None => None,
        },
        DeltaStatus::Deleted => match d.old_path {
            Some(p) => Some(ChangeView { path: p@, change_type: ChangeType::Deleted, old_path: None, change_id: Some(head) }),
            None => None,
        },
        DeltaStatus::Modified => match d.new_path {
            Some(p) => Some(ChangeView { path: p@, change_type: ChangeType::Modified, old_path: None, change_id: Some(head) }),
            None => None,
        },
        DeltaStatus::Renamed => if d.new_path is Some && d.old_path is Some {
            Some(ChangeView {
                path: d.new_path->0@,
                change_type: ChangeType::Renamed,
                old_path: Some(d.old_path->0@),
                change_id: Some(head),
            })
        } else {
            None
        },
        DeltaStatus::Copied => if d.new_path is Some && d.old_path is Some {
            Some(ChangeView {
                path: d.new_path->0@,
                change_type: ChangeType::Copied,
                old_path: Some(d.old_path->0@),
                change_id: Some(head),
            })
        } else {
            None
        },
        DeltaStatus::Other => None,
    }
}

/// The changes that a sequence of deltas reports, in order.
pub open spec fn delta_changes(ds: Seq<DiffDelta>, head: Seq<char>) -> Seq<ChangeView>
    decreases ds.len(),
{
    if ds.len() == 0 {
        Seq::empty()
    } else {
        let prev = delta_changes(ds.drop_last(), head);
        match delta_change(ds.last(), head) {
            Some(c) => prev.push(c),
            None => prev,
        }
    }
}

fn change_of_delta(d: &DiffDelta, head: &str) -> (r: Option<ChangedFile>)
    ensures
        match r {
            Some(c) => delta_change(*d, head@) == Some(c@),
            None => delta_change(*d, head@) is None,
        },
{
    let id = String::from_str(head);
    match d.status {
        DeltaStatus::Added => match &d.new_path {
            Some(p) => Some(ChangedFile::with_change_id(p.clone(), ChangeType::Added, id)),
            None => None,
        },
        DeltaStatus::Deleted => match &d.old_path {
            Some(p) => Some(ChangedFile::with_change_id(p.clone(), ChangeType::Deleted, id)),
            None => None,
        },
        DeltaStatus::Modified => match &d.new_path {
            Some(p) => Some(ChangedFile::with_change_id(p.clone(), ChangeType::Modified, id)),
            None => None,
        },
        DeltaStatus::Renamed => match (&d.new_path, &d.old_path) {
            (Some(p), Some(old)) => {
                let mut changed = ChangedFile::with_old_path(p.clone(), old.clone(), ChangeType::Renamed);
                changed.change_id = Some(id);
                Some(changed)
            },
            _ => None,
        },
        DeltaStatus::Copied => match (&d.new_path, &d.old_path) {
            (Some(p), Some(old)) => {
                let mut changed = ChangedFile::with_old_path(p.clone(), old.clone(), ChangeType::Copied);
                changed.change_id = Some(id);
                Some(changed)
            },
            _ => None,
        },
        DeltaStatus::Other => None,
    }
}

/// Git-based change detector.
#[derive(Debug)]
pub struct GitDetector {
    /// Root of the project, where the repository is
    pub project_root: String,
}

impl GitDetector {
    /// A detector for the repository at a project root.
    pub fn new(project_root: &str) -> (d: Self)
        ensures
            d.project_root@ == project_root@,
    {
        GitDetector { project_root: String::from_str(project_root) }
    }

    /// The changes between two commits, from the deltas of their diff (with
    /// renames and copies found) and the identifier of the head commit: each
    /// delta reports at most one change, in order.
    pub fn changes_from_deltas(&self, deltas: &Vec<DiffDelta>, head_id: &str) -> (r: Vec<ChangedFile>)
        ensures
            change_views(r@) == delta_changes(deltas@, head_id@),
    {
        let mut changes: Vec<ChangedFile> = Vec::new();
        for i in 0..deltas.len()
            invariant
                change_views(changes@) == delta_changes(deltas@.take(i as int), head_id@),
        {
            assert(deltas@.take(i + 1).drop_last() =~= deltas@.take(i as int));
            let ghost before = changes@;
            if let Some(c) = change_of_delta(&deltas[i], head_id) {
                changes.push(c);
                assert(change_views(changes@) =~= change_views(before).push(c@));
            }
        }
        assert(deltas@.take(deltas@.len() as int) =~= deltas@);
        changes
    }

    /// Name of the source control system.
    pub fn scm_name(&self) -> (s: &'static str)
        ensures
            s@ == "git"@,
    {
        "git"
    }
}

/// `sha2::Sha256` digest of some bytes, written as lowercase hexadecimal.
pub uninterp spec fn sha256_hex(data: Seq<u8>) -> Seq<char>;

/// `Sha256::digest` of the bytes, formatted with `{:x}`: two lowercase
/// hexadecimal digits for each of the 32 bytes of the digest.
#[verifier::external_body]
fn sha256_hex_digest(data: &[u8]) -> (h: String)
    ensures
        h@ == sha256_hex(data@),
        h@.len() == 64,
{
    format!("{:x}", sha2::Sha256::digest(data))
}

/// The content hash of a file's bytes: their SHA-256 digest in hexadecimal.
pub fn content_hash(content: &[u8]) -> (h: String)
    ensures
        h@ == sha256_hex(content@),
        h@.len() == 64,
{
    sha256_hex_digest(content)
}

/// The hash recorded for a path in a scan state, if the path is there.
pub open spec fn hash_at(s: Seq<(String, String)>, path: Seq<char>) -> Option<Seq<char>> {
    let i = key_slot(entry_keys(s), path);
    if i >= 0 {
        Some(s[i].1@)
    } else {
        None
    }
}

/// The change that a file of the last scan shows in the current scan.
pub open spec fn last_entry_change(entry: (String, String), current: Seq<(String, String)>) -> Option<ChangeType> {
    match hash_at(current, entry.0@) {
        Some(h) => if h != entry.1@ { Some(ChangeType::Modified) } else { None },
        None => Some(ChangeType::Deleted),
    }
}

/// The changes of the files of the last scan, in its order.
pub open spec fn last_scan_changes(last: Seq<(String, String)>, current: Seq<(String, String)>) -> Seq<ChangeView>
    decreases last.len(),
{
    if last.len() == 0 {
        Seq::empty()
    } else {
        let prev = last_scan_changes(last.drop_last(), current);
        match last_entry_change(last.last(), current) {
            Some(t) => prev.push(ChangeView { path: last.last().0@, change_type: t, old_path: None, change_id: None }),
            None => prev,
        }
    }
}

/// The files of the current scan that the last scan did not have, as
/// additions, in the current scan's order.
pub open spec fn added_files(last: Seq<(String, String)>, current: Seq<(String, String)>) -> Seq<ChangeView>
    decreases current.len(),
{
    if current.len() == 0 {
        Seq::empty()
    } else {
        let prev = added_files(last, current.drop_last());
        if hash_at(last, current.last().0@) is None {
            prev.push(ChangeView { path: current.last().0@, change_type: ChangeType::Added, old_path: None, change_id: None })
        } else {
            prev
        }
    }
}

/// The changes between two scans: modified and deleted files of the last
/// scan, then added files; with no last scan, every file is added.
pub open spec fn scan_changes(last: Option<Seq<(String, String)>>, current: Seq<(String, String)>) -> Seq<ChangeView> {
    match last {
        Some(l) => last_scan_changes(l, current) + added_files(l, current),
        None => added_files(Seq::empty(), current),
    }
}

proof fn lemma_hash_at_entry(s: Seq<(String, String)>, n: int)
    requires
        keys_distinct(entry_keys(s)),
        0 <= n < s.len(),
    ensures
        hash_at(s, s[n].0@) == Some(s[n].1@),
{
    let ks = entry_keys(s);
    assert(ks[n] == s[n].0@);
    let c = key_slot(ks, s[n].0@);
    assert(0 <= c < ks.len() && ks[c] == s[n].0@);
    assert(c == n);
}

/// Comparing a scan state with itself finds no change.
pub proof fn law_unchanged_files_are_not_reported(s: Seq<(String, String)>)
    requires
        keys_distinct(entry_keys(s)),
    ensures
        scan_changes(Some(s), s) == Seq::<ChangeView>::empty(),
{
    assert forall|n: int| 0 <= n <= s.len() implies #[trigger] last_scan_changes(s.take(n), s).len() == 0 by {
        lemma_no_change_prefix(s, n);
    }
    assert forall|n: int| 0 <= n <= s.len() implies #[trigger] added_files(s, s.take(n)).len() == 0 by {
        lemma_nothing_added_prefix(s, n);
    }
    assert(s.take(s.len() as int) =~= s);
    assert(last_scan_changes(s.take(s.len() as int), s).len() == 0);
    assert(added_files(s, s.take(s.len() as int)).len() == 0);
    assert(scan_changes(Some(s), s) =~= Seq::<ChangeView>::empty());
}

proof fn lemma_no_change_prefix(s: Seq<(String, String)>, n: int)
    requires
        keys_distinct(entry_keys(s)),
        0 <= n <= s.len(),
    ensures
        last_scan_changes(s.take(n), s).len() == 0,
    decreases n,
{
    if n > 0 {
        lemma_no_change_prefix(s, n - 1);
        assert(s.take(n).drop_last() =~= s.take(n - 1));
        lemma_hash_at_entry(s, n - 1);
    }
}

proof fn lemma_nothing_added_prefix(s: Seq<(String, String)>, n: int)
    requires
        0 <= n <= s.len(),
    ensures
        added_files(s, s.take(n)).len() == 0,
    decreases n,
{
    if n > 0 {
        lemma_nothing_added_prefix(s, n - 1);
        assert(s.take(n).drop_last() =~= s.take(n - 1));
        let k = s[n - 1].0@;
        assert(s.take(n).last() == s[n - 1]);
        assert(entry_keys(s)[n - 1] == k);
        let c = key_slot(entry_keys(s), k);
        assert(0 <= c < entry_keys(s).len());
    }
}

/// The change that a path shows between two scans, by its hashes: modified
/// where both scans have it with different hashes, deleted where only the
/// last one has it, added where only the current one has it.
pub open spec fn path_change(last: Seq<(String, String)>, current: Seq<(String, String)>, p: Seq<char>) -> Option<ChangeType> {
    match (hash_at(last, p), hash_at(current, p)) {
        (Some(a), Some(b)) => if a != b { Some(ChangeType::Modified) } else { None },
        (Some(_), None) => Some(ChangeType::Deleted),
        (None, Some(_)) => Some(ChangeType::Added),
        (None, None) => None,
    }
}

/// Whether each change of `v` is the change of its path between the scans.
pub open spec fn changes_follow_hashes(v: Seq<ChangeView>, last: Seq<(String, String)>, current: Seq<(String, String)>) -> bool {
    forall|i: int|
        0 <= i < v.len() ==> path_change(last, current, (#[trigger] v[i]).path) == Some(v[i].change_type)
            && v[i].old_path is None && v[i].change_id is None
}

/// Whether no path occurs twice among changes.
pub open spec fn paths_distinct(v: Seq<ChangeView>) -> bool {
    forall|i: int, j: int| 0 <= i < j < v.len() ==> (#[trigger] v[i]).path != (#[trigger] v[j]).path
}

/// Whether a path is among the paths of changes.
pub open spec fn reports_path(v: Seq<ChangeView>, p: Seq<char>) -> bool {
    exists|i: int| 0 <= i < v.len() && (#[trigger] v[i]).path == p
}

proof fn lemma_key_has_hash(s: Seq<(String, String)>, p: Seq<char>) -> (k: int)
    requires
        keys_distinct(entry_keys(s)),
        hash_at(s, p) is Some,
    ensures
        0 <= k < s.len(),
        s[k].0@ == p,
        hash_at(s, p) == Some(s[k].1@),
{
    let ks = entry_keys(s);
    let k = key_slot(ks, p);
    assert(0 <= k < ks.len() && ks[k] == p);
    k
}

proof fn lemma_last_part(l: Seq<(String, String)>, c: Seq<(String, String)>, n: int)
    requires
        keys_distinct(entry_keys(l)),
        0 <= n <= l.len(),
    ensures
        changes_follow_hashes(last_scan_changes(l.take(n), c), l, c),
        paths_distinct(last_scan_changes(l.take(n), c)),
        forall|i: int|
            0 <= i < last_scan_changes(l.take(n), c).len() ==> exists|k: int|
                0 <= k < n && l[k].0@ == (#[trigger] last_scan_changes(l.take(n), c)[i]).path,
        forall|k: int| 0 <= k < n && last_entry_change(#[trigger] l[k], c) is Some ==> reports_path(
            last_scan_changes(l.take(n), c),
            l[k].0@,
        ),
    decreases n,
{
    if n > 0 {
        lemma_last_part(l, c, n - 1);
        let prev = last_scan_changes(l.take(n - 1), c);
        let cur = last_scan_changes(l.take(n), c);
        assert(l.take(n).drop_last() =~= l.take(n - 1));
        assert(l.take(n).last() == l[n - 1]);
        let e = l[n - 1];
        lemma_hash_at_entry(l, n - 1);
        match last_entry_change(e, c) {
            Some(t) => {
                assert(cur == prev.push(ChangeView { path: e.0@, change_type: t, old_path: None, change_id: None }));
                assert(path_change(l, c, e.0@) == Some(t));
                assert forall|i: int| 0 <= i < prev.len() implies (#[trigger] prev[i]).path != e.0@ by {
                    let k = choose|k: int| 0 <= k < n - 1 && l[k].0@ == prev[i].path;
                    assert(entry_keys(l)[k] == l[k].0@);
                    assert(entry_keys(l)[n - 1] == e.0@);
                }
                assert forall|i: int|
                    0 <= i < cur.len() implies exists|k: int| 0 <= k < n && l[k].0@ == (#[trigger] cur[i]).path by {
                    if i < prev.len() {
                        assert(cur[i] == prev[i]);
                        let k = choose|k: int| 0 <= k < n - 1 && l[k].0@ == prev[i].path;
                        assert(0 <= k < n && l[k].0@ == cur[i].path);
                    } else {
                        assert(l[n - 1].0@ == cur[i].path);
                    }
                }
                assert forall|k: int| 0 <= k < n && last_entry_change(#[trigger] l[k], c) is Some implies reports_path(
                    cur,
                    l[k].0@,
                ) by {
                    if k < n - 1 {
                        let i = choose|i: int| 0 <= i < prev.len() && (#[trigger] prev[i]).path == l[k].0@;
                        assert(cur[i] == prev[i]);
                    } else {
                        assert(cur[prev.len() as int].path == l[k].0@);
                    }
                }
                assert forall|i: int, j: int| 0 <= i < j < cur.len() implies (#[trigger] cur[i]).path != (
                #[trigger] cur[j]).path by {
                    if j < prev.len() {
                        assert(cur[i] == prev[i] && cur[j] == prev[j]);
                    } else {
                        assert(cur[i] == prev[i]);
                    }
                }
            },
            None => {
                assert(cur == prev);
                assert forall|k: int| 0 <= k < n && last_entry_change(#[trigger] l[k], c) is Some implies reports_path(
                    cur,
                    l[k].0@,
                ) by {
                    if k < n - 1 {
                    }
                }
                assert forall|i: int|
                    0 <= i < cur.len() implies exists|k: int| 0 <= k < n && l[k].0@ == (#[trigger] cur[i]).path by {
                    let k = choose|k: int| 0 <= k < n - 1 && l[k].0@ == prev[i].path;
                    assert(0 <= k < n && l[k].0@ == cur[i].path);
                }
            },
        }
    }
}

proof fn lemma_added_part(l: Seq<(String, String)>, c: Seq<(String, String)>, n: int)
    requires
        keys_distinct(entry_keys(c)),
        0 <= n <= c.len(),
    ensures
        changes_follow_hashes(added_files(l, c.take(n)), l, c),
        paths_distinct(added_files(l, c.take(n))),
        forall|i: int|
            0 <= i < added_files(l, c.take(n)).len() ==> hash_at(l, (#[trigger] added_files(l, c.take(n))[i]).path) is None
                && exists|k: int| 0 <= k < n && c[k].0@ == added_files(l, c.take(n))[i].path,
        forall|k: int| 0 <= k < n && hash_at(l, (#[trigger] c[k]).0@) is None ==> reports_path(
            added_files(l, c.take(n)),
            c[k].0@,
        ),
    decreases n,
{
    if n > 0 {
        lemma_added_part(l, c, n - 1);
        let prev = added_files(l, c.take(n - 1));
        let cur = added_files(l, c.take(n));
        assert(c.take(n).drop_last() =~= c.take(n - 1));
        assert(c.take(n).last() == c[n - 1]);
        let e = c[n - 1];
        lemma_hash_at_entry(c, n - 1);
        if hash_at(l, e.0@) is None {
            assert(cur == prev.push(ChangeView { path: e.0@, change_type: ChangeType::Added, old_path: None, change_id: None }));
            assert forall|i: int| 0 <= i < prev.len() implies (#[trigger] prev[i]).path != e.0@ by {
                let k = choose|k: int| 0 <= k < n - 1 && c[k].0@ == prev[i].path;
                assert(entry_keys(c)[k] == c[k].0@);
                assert(entry_keys(c)[n - 1] == e.0@);
            }
            assert forall|i: int| 0 <= i < cur.len() implies hash_at(l, (#[trigger] cur[i]).path) is None && exists|k: int|
                0 <= k < n && c[k].0@ == cur[i].path by {
                if i < prev.len() {
                    assert(cur[i] == prev[i]);
                    let k = choose|k: int| 0 <= k < n - 1 && c[k].0@ == prev[i].path;
                    assert(0 <= k < n && c[k].0@ == cur[i].path);
                } else {
                    assert(c[n - 1].0@ == cur[i].path);
                }
            }
            assert forall|k: int| 0 <= k < n && hash_at(l, (#[trigger] c[k]).0@) is None implies reports_path(cur, c[k].0@) by {
                if k < n - 1 {
                    let i = choose|i: int| 0 <= i < prev.len() && (#[trigger] prev[i]).path == c[k].0@;
                    assert(cur[i] == prev[i]);
                } else {
                    assert(cur[prev.len() as int].path == c[k].0@);
                }
            }
            assert forall|i: int, j: int| 0 <= i < j < cur.len() implies (#[trigger] cur[i]).path != (
            #[trigger] cur[j]).path by {
                if j < prev.len() {
                    assert(cur[i] == prev[i] && cur[j] == prev[j]);
                } else {
                    assert(cur[i] == prev[i]);
                }
            }
        } else {
            assert(cur == prev);
            assert forall|i: int| 0 <= i < cur.len() implies hash_at(l, (#[trigger] cur[i]).path) is None && exists|k: int|
                0 <= k < n && c[k].0@ == cur[i].path by {
                let k = choose|k: int| 0 <= k < n - 1 && c[k].0@ == prev[i].path;
                assert(0 <= k < n && c[k].0@ == cur[i].path);
            }
        }
    }
}

/// Successive scans: each change reported between the last scan and the
/// current one is the change of its path by its hashes (modified, deleted
/// or added), no path is reported twice, and every path whose hashes show a
/// change is reported. A file with the same hash in both scans is not.
pub proof fn law_scan_reports_each_changed_path_once(last: Seq<(String, String)>, current: Seq<(String, String)>)
    requires
        keys_distinct(entry_keys(last)),
        keys_distinct(entry_keys(current)),
    ensures
        changes_follow_hashes(scan_changes(Some(last), current), last, current),
        paths_distinct(scan_changes(Some(last), current)),
        forall|p: Seq<char>| #[trigger] path_change(last, current, p) is Some ==> reports_path(
            scan_changes(Some(last), current),
            p,
        ),
{
    lemma_last_part(last, current, last.len() as int);
    lemma_added_part(last, current, current.len() as int);
    assert(last.take(last.len() as int) =~= last);
    assert(current.take(current.len() as int) =~= current);
    let v = last_scan_changes(last, current);
    let w = added_files(last, current);
    let all = scan_changes(Some(last), current);
    assert(all == v + w);
    assert forall|i: int| 0 <= i < all.len() implies path_change(last, current, (#[trigger] all[i]).path) == Some(
        all[i].change_type,
    ) && all[i].old_path is None && all[i].change_id is None by {
        if i < v.len() {
            assert(all[i] == v[i]);
        } else {
            assert(all[i] == w[i - v.len()]);
        }
    }
    assert forall|i: int, j: int| 0 <= i < j < all.len() implies (#[trigger] all[i]).path != (#[trigger] all[j]).path by {
        if j < v.len() {
            assert(all[i] == v[i] && all[j] == v[j]);
        } else if i >= v.len() {
            assert(all[i] == w[i - v.len()] && all[j] == w[j - v.len()]);
        } else {
            assert(all[i] == v[i] && all[j] == w[j - v.len()]);
            let k = choose|k: int| 0 <= k < last.len() && last[k].0@ == v[i].path;
            lemma_hash_at_entry(last, k);
            assert(hash_at(last, w[j - v.len()].path) is None);
        }
    }
    assert forall|p: Seq<char>| #[trigger] path_change(last, current, p) is Some implies reports_path(all, p) by {
        if hash_at(last, p) is Some {
            let k = lemma_key_has_hash(last, p);
            assert(last_entry_change(last[k], current) is Some);
            let i = choose|i: int| 0 <= i < v.len() && (#[trigger] v[i]).path == last[k].0@;
            assert(all[i] == v[i]);
        } else {
            let k = lemma_key_has_hash(current, p);
            let i = choose|i: int| 0 <= i < w.len() && (#[trigger] w[i]).path == current[k].0@;
            assert(all[v.len() + i] == w[i]);
        }
    }
}

/// The first scan reports every file as added, in the scan's order.
pub proof fn law_first_scan_adds_every_file(s: Seq<(String, String)>)
    ensures
        scan_changes(None, s).len() == s.len(),
        forall|i: int|
            0 <= i < s.len() ==> #[trigger] scan_changes(None, s)[i] == (ChangeView {
                path: s[i].0@,
                change_type: ChangeType::Added,
                old_path: None,
                change_id: None,
            }),
    decreases s.len(),
{
    if s.len() > 0 {
        law_first_scan_adds_every_file(s.drop_last());
        assert(hash_at(Seq::<(String, String)>::empty(), s.last().0@) is None);
        assert forall|i: int| 0 <= i < s.len() implies #[trigger] scan_changes(None, s)[i] == (ChangeView {
            path: s[i].0@,
            change_type: ChangeType::Added,
            old_path: None,
            change_id: None,
        }) by {
            if i < s.len() - 1 {
                assert(scan_changes(None, s.drop_last())[i] == scan_changes(None, s)[i]);
                assert(s.drop_last()[i] == s[i]);
            }
        }
    }
}

fn lookup_hash<'a>(s: &'a Vec<(String, String)>, path: &str) -> (r: Option<&'a String>)
    requires
        keys_distinct(entry_keys(s@)),
    ensures
        match r {
            Some(h) => hash_at(s@, path@) == Some(h@),
            None => hash_at(s@, path@) is None,
        },
{
    let ghost ks = entry_keys(s@);
    for i in 0..s.len()
        invariant
            ks == entry_keys(s@),
            keys_distinct(ks),
            forall|q: int| 0 <= q < i ==> ks[q] != path@,
    {
        if text_is(s[i].0.as_str(), path) {
            proof {
                assert(ks[i as int] == path@);
                let c = key_slot(ks, path@);
                assert(0 <= c < ks.len() && ks[c] == path@);
            }
            return Some(&s[i].1);
        }
        assert(ks[i as int] == s@[i as int].0@);
    }
    proof {
        if exists|q: int| 0 <= q < ks.len() && ks[q] == path@ {
            let q = choose|q: int| 0 <= q < ks.len() && ks[q] == path@;
            assert(ks[q] != path@);
        }
    }
    None
}

/// Hash-based change detector, the fallback where no source control is
/// found: it compares content hashes with those of the last scan.
#[derive(Debug)]
pub struct HashBasedDetector {
    /// Root of the scanned project
    pub project_root: String,
    /// Path and content hash of each file at the last scan, each path once
    pub last_scan_state: Option<Vec<(String, String)>>,
}

impl HashBasedDetector {
    /// A detector that has not scanned yet.
    pub fn new(project_root: &str) -> (d: Self)
        ensures
            d.project_root@ == project_root@,
            d.last_scan_state is None,
    {
        HashBasedDetector { project_root: String::from_str(project_root), last_scan_state: None }
    }

    /// Whether hash-based detection applies: it always does.
    pub fn is_applicable(&self) -> (b: bool)
        ensures
            b,
    {
        true
    }

    /// Name of the detection method.
    pub fn scm_name(&self) -> (s: &'static str)
        ensures
            s@ == "hash"@,
    {
        "hash"
    }

    /// Record a scan: each file's path with its content hash, each path once.
    /// The next detection compares with it.
    pub fn record_scan(&mut self, state: Vec<(String, String)>)
        requires
            keys_distinct(entry_keys(state@)),
        ensures
            final(self).last_scan_state == Some(state),
            final(self).project_root == old(self).project_root,
    {
        self.last_scan_state = Some(state);
    }

    /// The changes between the last scan and the current one (each file's
    /// path with its content hash, each path once).
    pub fn changes_since_last_scan(&self, current_state: &Vec<(String, String)>) -> (r: Vec<ChangedFile>)
        requires
            keys_distinct(entry_keys(current_state@)),
            self.last_scan_state matches Some(l) ==> keys_distinct(entry_keys(l@)),
        ensures
            change_views(r@) == scan_changes(
                match self.last_scan_state {
                    Some(l) => Some(l@),
                    None => None,
                },
                current_state@,
            ),
    {
        let mut changes: Vec<ChangedFile> = Vec::new();
        let empty: Vec<(String, String)> = Vec::new();
        let last = match &self.last_scan_state {
            Some(l) => {
                for i in 0..l.len()
                    invariant
                        keys_distinct(entry_keys(current_state@)),
                        change_views(changes@) == last_scan_changes(l@.take(i as int), current_state@),
                {
                    assert(l@.take(i + 1).drop_last() =~= l@.take(i as int));
                    let ghost before = changes@;
                    let path = &l[i].0;
                    let last_hash = &l[i].1;
                    match lookup_hash(current_state, path.as_str()) {
                        Some(current_hash) => {
                            if !text_is(current_hash.as_str(), last_hash.as_str()) {
                                let c = ChangedFile::new(path.clone(), ChangeType::Modified);
                                changes.push(c);
                                assert(change_views(changes@) =~= change_views(before).push(c@));
                            }
                        },
                        None => {
                            let c = ChangedFile::new(path.clone(), ChangeType::Deleted);
                            changes.push(c);
                            assert(change_views(changes@) =~= change_views(before).push(c@));
                        },
                    }
                }
                assert(l@.take(l@.len() as int) =~= l@);
                l
            },
            None => {
                assert(change_views(changes@) =~= Seq::<ChangeView>::empty());
                proof {
                    assert(entry_keys(empty@) =~= Seq::<Seq<char>>::empty());
                }
                &empty
            },
        };
        let ghost first = changes@;
        for i in 0..current_state.len()
            invariant
                keys_distinct(entry_keys(last@)),
                change_views(changes@) == change_views(first) + added_files(last@, current_state@.take(i as int)),
        {
            assert(current_state@.take(i + 1).drop_last() =~= current_state@.take(i as int));
            let ghost before = changes@;
            let path = &current_state[i].0;
            if lookup_hash(last, path.as_str()).is_none() {
                let c = ChangedFile::new(path.clone(), ChangeType::Added);
                changes.push(c);
                assert(change_views(changes@) =~= change_views(before).push(c@));
            }
        }
        assert(current_state@.take(current_state@.len() as int) =~= current_state@);
        changes
    }
}

/// Which detector a project gets.
#[derive(Debug, Clone, Copy, PartialEq, Eq, Structural)]
pub enum DetectorKind {
    Git,
    Hash,
}

/// Chooses the change detector of a project.
pub struct ChangeDetectorFactory;

impl ChangeDetectorFactory {
    /// Git detection where the project has a `.git` entry, hash-based
    /// detection otherwise.
    pub fn detector_kind(has_git_dir: bool) -> (k: DetectorKind)
        ensures
            k == (if has_git_dir { DetectorKind::Git } else { DetectorKind::Hash }),
    {
        if has_git_dir {
            DetectorKind::Git
        } else {
            DetectorKind::Hash
        }
    }

    /// A Git detector for a project.
    pub fn create_git(project_root: &str) -> (r: Result<GitDetector, ChangeError>)
        ensures
            r matches Ok(d) && d.project_root@ == project_root@,
    {
        Ok(GitDetector::new(project_root))
    }

    /// A hash-based detector for a project.
    pub fn create_hash_based(project_root: &str) -> (d: HashBasedDetector)
        ensures
            d.project_root@ == project_root@,
            d.last_scan_state is None,
    {
        HashBasedDetector::new(project_root)
    }
}

} // verus!
