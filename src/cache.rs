//! The cache store's layout and the decisions of its atomic-publish
//! protocol.
//!
//! Each entry lives in a directory named by its digest under the cache root
//! and holds three files: `meta.json`, `stdout` and `stderr`. A writer fills
//! a staging directory named `<digest>.tmp.<pid>.<nanos>` and publishes it
//! with one rename; the first rename wins and the others are discarded.
//! Staging directories left behind by crashed writers are swept once they
//! are older than the retention period.

use crate::digest::{
    digest_key, hex_digits, json_string, json_string_array, lemma_hex_digits_only, sha256_of,
};
use crate::error::MemoError;
use crate::text::{
    contains_str, contains_text, decimal_i64, decimal_u64, int_decimal, join, join_path,
    nat_decimal, occurs_at, same_text,
};
use vstd::prelude::*;
use vstd::string::*;

verus! {

/// Name of the metadata file of an entry.
pub open spec fn meta_file() -> Seq<char> {
    "meta.json"@
}

/// Name of the captured standard output of an entry.
pub open spec fn stdout_file() -> Seq<char> {
    "stdout"@
}

/// Name of the captured standard error of an entry.
pub open spec fn stderr_file() -> Seq<char> {
    "stderr"@
}

/// What every staging directory's name holds, and no digest does.
pub open spec fn staging_marker() -> Seq<char> {
    ".tmp."@
}

/// The value of the disabling setting that turns memoization off.
pub open spec fn disable_value() -> Seq<char> {
    "1"@
}

/// Whether memoization is turned off, given the value of the disabling
/// setting if it is set: only the exact value `1` turns it off.
pub fn is_memo_disabled(setting: Option<&str>) -> (r: bool)
    ensures
        r == (setting matches Some(v) && v@ == disable_value()),
{
    match setting {
        Some(v) => same_text(v, "1"),
        None => false,
    }
}

/// The cache root: `memo` under the configured cache home if one is set,
/// else `memo` under `.cache` in the home directory.
pub fn get_cache_dir(cache_home: Option<&str>, home: Option<&str>) -> (r: Result<String, MemoError>)
    ensures
        cache_home matches Some(c) ==> (r matches Ok(p) && p@ == join_path(c@, "memo"@)),
        cache_home is None && home is Some ==> (r matches Ok(p) && p@ == join_path(
            join_path(home->0@, ".cache"@),
            "memo"@,
        )),
        cache_home is None && home is None ==> r matches Err(MemoError::HomeNotFound),
{
    match cache_home {
        Some(c) => Ok(join(c, "memo")),
        None => match home {
            Some(h) => {
                let base = join(h, ".cache");
                Ok(join(base.as_str(), "memo"))
            },
            None => Err(MemoError::HomeNotFound),
        },
    }
}

/// Whether a listing of names holds `name`.
pub open spec fn lists_name(names: Seq<String>, name: Seq<char>) -> bool {
    exists|i: int| 0 <= i < names.len() && #[trigger] names[i]@ == name
}

fn has_name(names: &Vec<String>, name: &str) -> (r: bool)
    ensures
        r == lists_name(names@, name@),
{
    let mut i: usize = 0;
    while i < names.len()
        invariant
            i <= names.len(),
            forall|j: int| 0 <= j < i ==> #[trigger] names@[j]@ != name@,
        decreases names.len() - i,
    {
        if same_text(names[i].as_str(), name) {
            return true;
        }
        i = i + 1;
    }
    false
}

/// Whether an entry is complete, given the names found in its directory
/// (none when the directory does not exist): the metadata and both
/// captured streams must all be there.
pub fn memo_complete(present: &Vec<String>) -> (r: bool)
    ensures
        r == (lists_name(present@, meta_file()) && lists_name(present@, stdout_file())
            && lists_name(present@, stderr_file())),
{
    has_name(present, "meta.json") && has_name(present, "stdout") && has_name(present, "stderr")
}

/// The directory of the entry for `digest`.
pub fn digest_dir(cache_dir: &str, digest: &str) -> (r: String)
    ensures
        r@ == join_path(cache_dir@, digest@),
{
    join(cache_dir, digest)
}

/// The metadata, stdout and stderr paths within an entry's directory.
pub fn get_cache_paths_in_dir(dir: &str) -> (r: (String, String, String))
    ensures
        r.0@ == join_path(dir@, meta_file()),
        r.1@ == join_path(dir@, stdout_file()),
        r.2@ == join_path(dir@, stderr_file()),
{
    (join(dir, "meta.json"), join(dir, "stdout"), join(dir, "stderr"))
}

/// The metadata, stdout and stderr paths of the entry for `digest`.
pub fn get_cache_paths(cache_dir: &str, digest: &str) -> (r: (String, String, String))
    ensures
        r.0@ == join_path(join_path(cache_dir@, digest@), meta_file()),
        r.1@ == join_path(join_path(cache_dir@, digest@), stdout_file()),
        r.2@ == join_path(join_path(cache_dir@, digest@), stderr_file()),
{
    let dir = digest_dir(cache_dir, digest);
    get_cache_paths_in_dir(dir.as_str())
}

/// The name of the staging directory of process `pid` for `digest`, made
/// unique across process-id reuse by the time of its creation.
pub open spec fn staging_name(digest: Seq<char>, pid: u32, nanos: i64) -> Seq<char> {
    digest + staging_marker() + nat_decimal(pid as nat) + "."@ + int_decimal(nanos as int)
}

/// A staging directory in which one process writes an entry before
/// publishing it. Until it is committed, the process that made it owns it
/// and removes it when done.
pub struct TempCacheDir {
    /// Path of the staging directory.
    pub path: String,
    committed: bool,
}

impl TempCacheDir {
    /// The path of the staging directory.
    pub closed spec fn staging_path(&self) -> Seq<char> {
        self.path@
    }

    /// Whether the directory has been published as an entry.
    pub closed spec fn committed(&self) -> bool {
        self.committed
    }

    /// The handle of a staging directory at `path`, not yet published.
    pub(crate) fn at(path: String) -> (r: Self)
        ensures
            r.staging_path() == path@,
            !r.committed(),
    {
        TempCacheDir { path, committed: false }
    }

    /// The path of the staging directory, giving the handle up.
    pub(crate) fn into_path(self) -> (r: String)
        ensures
            r@ == self.staging_path(),
    {
        self.path
    }

    /// Whether the directory has been published, in which case it no longer
    /// belongs to its writer and must not be removed.
    pub fn is_committed(&self) -> (r: bool)
        ensures
            r == self.committed(),
    {
        self.committed
    }

    /// The metadata, stdout and stderr paths within the staging directory.
    pub fn get_paths(&self) -> (r: (String, String, String))
        ensures
            r.0@ == join_path(self.staging_path(), meta_file()),
            r.1@ == join_path(self.staging_path(), stdout_file()),
            r.2@ == join_path(self.staging_path(), stderr_file()),
    {
        get_cache_paths_in_dir(self.path.as_str())
    }
}

/// The handle of a new staging directory for `digest` under `cache_dir`,
/// for process `pid` at `nanos` nanoseconds since the Unix epoch. The
/// directory itself is made by the caller, with owner-only permissions.
pub fn create_temp_cache_dir(cache_dir: &str, digest: &str, pid: u32, nanos: i64) -> (r:
    TempCacheDir)
    ensures
        r.staging_path() == join_path(cache_dir@, staging_name(digest@, pid, nanos)),
        !r.committed(),
{
    proof {
        reveal_strlit(".tmp.");
        reveal_strlit(".");
    }
    let mut name = String::from_str(digest);
    name.append(".tmp.");
    let pid_text = decimal_u64(pid as u64);
    name.append(pid_text.as_str());
    name.append(".");
    let nanos_text = decimal_i64(nanos);
    name.append(nanos_text.as_str());
    TempCacheDir { path: join(cache_dir, name.as_str()), committed: false }
}

/// How the rename of a staging directory onto its entry's path went.
pub enum RenameOutcome {
    /// The directory now is the entry.
    Renamed,
    /// An entry was already there; nothing was moved.
    DestinationExists,
    /// The rename failed for another reason.
    Failed(std::io::Error),
}

/// Settles a commit from the outcome of renaming the staging directory onto
/// the entry's path: `Ok(true)` if this process published the entry, after
/// which the directory is no longer its to remove; `Ok(false)` if another
/// process had already published one, which is no error and leaves the
/// staging directory to be discarded; the rename's error otherwise.
pub fn commit_cache_dir(temp_dir: &mut TempCacheDir, outcome: RenameOutcome) -> (r: Result<
    bool,
    std::io::Error,
>)
    ensures
        final(temp_dir).staging_path() == old(temp_dir).staging_path(),
        outcome is Renamed ==> (r matches Ok(true) && final(temp_dir).committed()),
        outcome is DestinationExists ==> (r matches Ok(false) && final(temp_dir).committed()
            == old(temp_dir).committed()),
        outcome is Failed ==> r == Err::<bool, std::io::Error>(outcome->Failed_0)
            && final(temp_dir).committed() == old(temp_dir).committed(),
{
    match outcome {
        RenameOutcome::Renamed => {
            temp_dir.committed = true;
            Ok(true)
        },
        RenameOutcome::DestinationExists => Ok(false),
        RenameOutcome::Failed(e) => Err(e),
    }
}

/// The last-modified time of a directory entry, in nanoseconds since the
/// Unix epoch, or why it is not known.
pub enum ModifiedTime {
    /// The time is known.
    Known(i128),
    /// The entry's metadata could not be read.
    MetadataUnreadable,
    /// The metadata was read but holds no modification time.
    TimeUnreadable,
}

/// One entry of the cache root, as the sweep sees it.
pub struct RootEntry {
    /// The entry's file name.
    pub name: String,
    /// Whether it is a directory.
    pub is_dir: bool,
    /// When it was last modified.
    pub modified: ModifiedTime,
}

/// What the sweep does with one entry of the cache root.
#[derive(PartialEq, Eq, Debug, Structural)]
pub enum SweepAction {
    /// Not a staging directory: left alone without a word.
    Ignore,
    /// No cutoff could be computed: left alone.
    SkipNoCutoff,
    /// Its metadata could not be read: left alone.
    SkipMetadataError,
    /// Its modification time could not be read: left alone.
    SkipTimeError,
    /// Older than the cutoff: removed.
    Remove,
    /// Not older than the cutoff: kept, it may belong to a running process.
    KeepRecent,
}

/// Whether an entry of the cache root is a staging directory.
pub open spec fn is_staging(entry: RootEntry) -> bool {
    entry.is_dir && contains_text(entry.name@, staging_marker())
}

/// The sweep's decision on one entry: only a staging directory whose
/// modification time is known and strictly before the cutoff is removed.
pub open spec fn sweep_action(entry: RootEntry, cutoff: Option<i128>) -> SweepAction {
    if !is_staging(entry) {
        SweepAction::Ignore
    } else {
        match cutoff {
            None => SweepAction::SkipNoCutoff,
            Some(c) => match entry.modified {
                ModifiedTime::MetadataUnreadable => SweepAction::SkipMetadataError,
                ModifiedTime::TimeUnreadable => SweepAction::SkipTimeError,
                ModifiedTime::Known(t) => if t < c {
                    SweepAction::Remove
                } else {
                    SweepAction::KeepRecent
                },
            },
        }
    }
}

/// Retention period of staging directories: one day, in seconds.
pub const ORPHAN_MAX_AGE_SECS: u64 = 86400;

/// The time before which staging directories count as abandoned:
/// `max_age_secs` seconds before `now`, both instants in nanoseconds since
/// the Unix epoch; none if that instant cannot be represented.
pub fn retention_cutoff(now: i128, max_age_secs: u64) -> (r: Option<i128>)
    ensures
        now - max_age_secs * 1_000_000_000 >= i128::MIN ==> r == Some(
            (now - max_age_secs * 1_000_000_000) as i128,
        ),
        now - max_age_secs * 1_000_000_000 < i128::MIN ==> r is None,
{
    let age: i128 = max_age_secs as i128 * 1_000_000_000i128;
    if now >= i128::MIN + age {
        Some(now - age)
    } else {
        None
    }
}

/// Decides, for each entry of the cache root, what the orphan sweep does
/// with it.
pub fn cleanup_temp_dirs(entries: &Vec<RootEntry>, cutoff: Option<i128>) -> (r: Vec<SweepAction>)
    ensures
        r@.len() == entries@.len(),
        forall|i: int| 0 <= i < entries@.len() ==> r@[i] == sweep_action(#[trigger] entries@[i], cutoff),
{
    let mut actions: Vec<SweepAction> = Vec::new();
    let mut i: usize = 0;
    while i < entries.len()
        invariant
            i <= entries@.len(),
            actions@.len() == i,
            forall|j: int| 0 <= j < i ==> actions@[j] == sweep_action(#[trigger] entries@[j], cutoff),
        decreases entries@.len() - i,
    {
        let entry = &entries[i];
        let action = if !entry.is_dir || !contains_str(entry.name.as_str(), ".tmp.") {
            SweepAction::Ignore
        } else {
            match cutoff {
                None => SweepAction::SkipNoCutoff,
                Some(c) => match entry.modified {
                    ModifiedTime::MetadataUnreadable => SweepAction::SkipMetadataError,
                    ModifiedTime::TimeUnreadable => SweepAction::SkipTimeError,
                    ModifiedTime::Known(t) => if t < c {
                        SweepAction::Remove
                    } else {
                        SweepAction::KeepRecent
                    },
                },
            }
        };
        actions.push(action);
        i = i + 1;
    }
    actions
}

/// The sweep removes an entry exactly when it is a staging directory whose
/// modification time is known and strictly before the cutoff: a staging
/// directory aged past the cutoff is removed, one aged less is kept, and
/// one whose age cannot be read is left alone.
pub proof fn lemma_sweep_removes_only_aged(entry: RootEntry, cutoff: Option<i128>)
    ensures
        (sweep_action(entry, cutoff) == SweepAction::Remove) == (is_staging(entry) && cutoff is Some
            && entry.modified is Known && entry.modified->Known_0 < cutoff->0),
        is_staging(entry) && cutoff is Some && entry.modified is Known
            && entry.modified->Known_0 >= cutoff->0 ==> sweep_action(entry, cutoff)
            == SweepAction::KeepRecent,
{
}

/// The sweep never touches a published entry: the directory named by a
/// cache key holds only hexadecimal digits, never the staging marker.
pub proof fn lemma_sweep_spares_entries(
    entry: RootEntry,
    cutoff: Option<i128>,
    args: Seq<Seq<char>>,
    cwd: Seq<char>,
)
    requires
        entry.name@ == digest_key(args, cwd),
    ensures
        sweep_action(entry, cutoff) == SweepAction::Ignore,
{
    let name = entry.name@;
    lemma_hex_digits_only(sha256_of(json_string_array(args) + json_string(cwd)));
    assert(!hex_digits().contains('.'));
    assert forall|i: int| !occurs_at(name, staging_marker(), i) by {
        reveal_strlit(".tmp.");
        if occurs_at(name, staging_marker(), i) {
            assert(name.subrange(i, i + 5)[0] == '.');
            assert(hex_digits().contains(name[i]));
        }
    }
}

} // verus!
