//! What the memoizer decides about running a command: how it is shown, how
//! its termination becomes an exit code, and how the dual-destination
//! writer of a cache miss keeps the console authoritative while recording
//! the first failure of its cache file.

use crate::digest::strings_view;
use vstd::prelude::*;
use vstd::string::*;

verus! {

/// The strings of a sequence joined with single spaces.
pub open spec fn space_joined(items: Seq<Seq<char>>) -> Seq<char>
    decreases items.len(),
{
    if items.len() == 0 {
        seq![]
    } else if items.len() == 1 {
        items[0]
    } else {
        space_joined(items.drop_last()) + seq![' '] + items.last()
    }
}

/// The command line shown to the user: the arguments joined with spaces.
pub fn build_command_string(args: &[String]) -> (r: String)
    ensures
        r@ == space_joined(strings_view(args@)),
{
    let mut out = String::new();
    let n = args.len();
    let mut i: usize = 0;
    while i < n
        invariant
            n == args@.len(),
            i <= n,
            out@ == space_joined(strings_view(args@).subrange(0, i as int)),
        decreases n - i,
    {
        let ghost before = strings_view(args@).subrange(0, i as int);
        let ghost after = strings_view(args@).subrange(0, i + 1);
        assert(after.drop_last() == before);
        proof {
            reveal_strlit(" ");
        }
        if i > 0 {
            out.append(" ");
        }
        out.append(args[i].as_str());
        assert(after.last() == args@[i as int]@);
        assert(out@ == space_joined(after)) by {
            if i == 0 {
                assert(out@ == after[0]);
            } else {
                assert(space_joined(after) == space_joined(before) + seq![' '] + after.last());
            }
        }
        i = i + 1;
    }
    assert(strings_view(args@).subrange(0, n as int) == strings_view(args@));
    out
}

/// How a run of a command ended.
pub struct ExecutionResult {
    /// The command's exit code.
    pub exit_code: i32,
    /// The stdout capture file, if writing it failed.
    pub stdout_error: Option<String>,
    /// The stderr capture file, if writing it failed.
    pub stderr_error: Option<String>,
}

impl ExecutionResult {
    /// Whether both capture files were written without failure.
    pub open spec fn captured(&self) -> bool {
        self.stdout_error is None && self.stderr_error is None
    }
}

/// The exit code of a finished command: its own code, or -1 when it was
/// ended by a signal and has none.
pub fn exit_code_from_status(code: Option<i32>) -> (r: i32)
    ensures
        code is Some ==> r == code->0,
        code is None ==> r == -1,
{
    match code {
        Some(c) => c,
        None => -1,
    }
}

/// The bookkeeping of a writer that sends every chunk of a stream both to a
/// cache file and to the console. A console failure fails the write; a file
/// failure is only remembered, the first one, so that the command's output
/// and exit code are never changed by the cache.
pub struct TeeWriter {
    file_path: String,
    error: Option<std::io::Error>,
}

impl TeeWriter {
    /// The path of the cache file.
    pub closed spec fn file_path(&self) -> Seq<char> {
        self.file_path@
    }

    /// The first failure of the cache file, if there was one.
    pub closed spec fn first_error(&self) -> Option<std::io::Error> {
        self.error
    }

    /// A writer whose cache file is at `file_path` and has not failed.
    pub fn new(file_path: String) -> (r: Self)
        ensures
            r.file_path() == file_path@,
            r.first_error() is None,
    {
        TeeWriter { file_path, error: None }
    }

    /// Whether writing the cache file has failed.
    pub fn has_error(&self) -> (r: bool)
        ensures
            r == self.first_error() is Some,
    {
        self.error.is_some()
    }

    /// The path of the cache file if writing it failed.
    pub fn take_error_path(&self) -> (r: Option<String>)
        ensures
            self.first_error() is Some ==> (r matches Some(p) && p@ == self.file_path()),
            self.first_error() is None ==> r is None,
    {
        if self.has_error() {
            Some(self.file_path.clone())
        } else {
            None
        }
    }

    /// Records the outcome of writing a chunk of `len` bytes to the cache
    /// file and to the console, and gives the outcome of the write as a
    /// whole: the chunk's length if the console took it, else the console's
    /// error. A file failure is kept if it is the first.
    pub fn record_write(
        &mut self,
        len: usize,
        file_result: Result<(), std::io::Error>,
        console_result: Result<(), std::io::Error>,
    ) -> (r: Result<usize, std::io::Error>)
        ensures
            final(self).file_path() == old(self).file_path(),
            final(self).first_error() == (if old(self).first_error() is Some {
                old(self).first_error()
            } else if file_result is Err {
                Some(file_result->Err_0)
            } else {
                None
            }),
            console_result is Ok ==> r == Ok::<usize, std::io::Error>(len),
            console_result is Err ==> r == Err::<usize, std::io::Error>(console_result->Err_0),
    {
        if let Err(e) = file_result {
            if self.error.is_none() {
                self.error = Some(e);
            }
        }
        match console_result {
            Ok(()) => Ok(len),
            Err(e) => Err(e),
        }
    }
}

} // verus!
