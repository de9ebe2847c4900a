//! The metadata record of a cache entry.

use vstd::prelude::*;

verus! {

/// Metadata of a memoized run, stored as `meta.json` beside the captured
/// output streams of its entry.
#[derive(Debug, PartialEq)]
pub struct Memo {
    /// The command and its arguments.
    pub cmd: Vec<String>,
    /// The working directory the command ran in.
    pub cwd: String,
    /// The command's exit code.
    pub exit_code: i32,
    /// When the command ran, as an RFC 3339 timestamp.
    pub timestamp: String,
    /// The entry's cache key.
    pub digest: String,
}

/// The RFC 3339 text of an instant in UTC, given in nanoseconds since the
/// Unix epoch.
pub uninterp spec fn rfc3339_utc(nanos: i64) -> Seq<char>;

/// Relies on chrono's `DateTime::<Utc>::from_timestamp_nanos` (total on
/// `i64`) and `DateTime::to_rfc3339`: the RFC 3339 text of that instant.
#[verifier::external_body]
pub(crate) fn rfc3339_of(nanos: i64) -> (r: String)
    ensures
        r@ == rfc3339_utc(nanos),
{
    chrono::DateTime::<chrono::Utc>::from_timestamp_nanos(nanos).to_rfc3339()
}

/// Copies a vector of strings.
pub(crate) fn clone_strings(v: &Vec<String>) -> (r: Vec<String>)
    ensures
        r@.len() == v@.len(),
        forall|i: int| 0 <= i < v@.len() ==> #[trigger] r@[i]@ == v@[i]@,
{
    let mut out: Vec<String> = Vec::new();
    let mut i: usize = 0;
    while i < v.len()
        invariant
            i <= v@.len(),
            out@.len() == i,
            forall|j: int| 0 <= j < i ==> #[trigger] out@[j]@ == v@[j]@,
        decreases v@.len() - i,
    {
        out.push(v[i].clone());
        i = i + 1;
    }
    out
}

} // verus!
