//! The coordinator: the hit / miss / publish state machine of one
//! invocation.
//!
//! The coordinator decides; its caller does the work. Each call of
//! [`Coordinator::step`] takes the outcome of the previous action and hands
//! back the next one, until an action ends the invocation. A disabled cache
//! is bypassed without touching the store; a complete entry is replayed and
//! its stored exit code returned; otherwise the command runs into a staging
//! directory that is published with one rename, and the exit code is the
//! one the command itself returned, however the publication went.

use crate::cache::{
    create_temp_cache_dir, digest_dir, memo_complete, lists_name, meta_file, staging_name,
    stderr_file, stdout_file, TempCacheDir,
};
use crate::digest::{compute_digest_for_args, digest_key, strings_view};
use crate::error::MemoError;
use crate::executor::{build_command_string, space_joined, ExecutionResult};
use crate::memo::{clone_strings, rfc3339_of, rfc3339_utc, Memo};
use crate::text::{join, join_path};
use vstd::prelude::*;
use vstd::string::*;

verus! {

/// What the caller learned while preparing the cache: the cache root, made
/// and swept of orphans, the working directory, the time and the process id.
pub struct Setup {
    pub cache_dir: String,
    pub cwd: String,
    /// Nanoseconds since the Unix epoch.
    pub now_nanos: i64,
    pub pid: u32,
}

/// The outcome of the action last handed out.
pub enum Event {
    /// The invocation begins.
    Started,
    /// The command ran without the cache, with this exit code.
    DirectRan(Result<i32, MemoError>),
    /// The cache was prepared.
    Prepared(Result<Setup, MemoError>),
    /// The names found in the entry's directory (none if it is absent).
    Listed(Vec<String>),
    /// The entry was replayed: its stored exit code.
    Replayed(Result<i32, MemoError>),
    /// The staging directory was made.
    StagingMade(Result<(), MemoError>),
    /// The command ran with its output captured.
    Executed(Result<ExecutionResult, MemoError>),
    /// The metadata record was written into the staging directory.
    MetadataWritten(Result<(), MemoError>),
    /// The staging directory's commit was settled.
    Committed(Result<bool, std::io::Error>),
}

/// The next thing to do.
pub enum Action {
    /// Run the command without the cache, reporting `notice` if there is one.
    RunDirect { command: Vec<String>, notice: Option<MemoError> },
    /// Resolve and make the cache root, sweep it of orphans, and read the
    /// working directory, the time and the process id.
    Prepare,
    /// List the names in the entry's directory.
    ListEntry { dir: String },
    /// Read the entry's metadata, stream its stdout then its stderr.
    Replay { dir: String, command_line: String, digest: String },
    /// Make the staging directory, owner-only; remove it when done unless
    /// it is committed.
    MakeStaging { staging: TempCacheDir, command_line: String, digest: String },
    /// Run the command, sending its streams both to the console and to
    /// these files.
    Execute { command: Vec<String>, stdout_path: String, stderr_path: String },
    /// Write the metadata record to this path.
    WriteMetadata { path: String, memo: Memo },
    /// Rename the staging directory onto this path and settle the commit.
    Commit { target: String },
    /// End with this exit code, after reporting `warning` if there is one.
    Exit { code: i32, warning: Option<MemoError> },
    /// End with a fatal error.
    Fail { error: MemoError },
}

/// Where an invocation stands.
#[derive(Clone, Copy, PartialEq, Eq, Debug, Structural)]
pub enum Phase {
    /// Not begun.
    Start,
    /// Waiting for an uncached run.
    Direct,
    /// Waiting for the cache to be prepared.
    Preparing,
    /// Waiting for the listing of the entry's directory.
    Checking,
    /// Waiting for a replay.
    Replaying,
    /// Waiting for the staging directory.
    Staging,
    /// Waiting for a captured run.
    Running,
    /// Waiting for the metadata record to be written.
    Writing,
    /// Waiting for the commit to be settled.
    Committing,
    /// Ended.
    Done,
}

/// Whether `event` is the outcome that `phase` waits for.
pub open spec fn accepts(phase: Phase, event: Event) -> bool {
    match event {
        Event::Started => phase == Phase::Start,
        Event::DirectRan(_) => phase == Phase::Direct,
        Event::Prepared(_) => phase == Phase::Preparing,
        Event::Listed(_) => phase == Phase::Checking,
        Event::Replayed(_) => phase == Phase::Replaying,
        Event::StagingMade(_) => phase == Phase::Staging,
        Event::Executed(_) => phase == Phase::Running,
        Event::MetadataWritten(_) => phase == Phase::Writing,
        Event::Committed(_) => phase == Phase::Committing,
    }
}

/// Whether an action ends the invocation.
pub open spec fn is_final(action: Action) -> bool {
    action is Exit || action is Fail
}

/// Whether an action changes the cache store.
pub open spec fn writes_store(action: Action) -> bool {
    action is Prepare || action is MakeStaging || action is Execute || action is WriteMetadata
        || action is Commit
}

/// The state of one invocation.
pub struct Coordinator {
    command: Vec<String>,
    disabled: bool,
    phase: Phase,
    cache_dir: String,
    cwd: String,
    digest: String,
    now_nanos: i64,
    staging_path: String,
    exit_code: i32,
}

impl Coordinator {
    pub closed spec fn phase(&self) -> Phase {
        self.phase
    }

    /// The command being memoized.
    pub closed spec fn command(&self) -> Seq<Seq<char>> {
        strings_view(self.command@)
    }

    /// Whether the cache is bypassed.
    pub closed spec fn disabled(&self) -> bool {
        self.disabled
    }

    pub closed spec fn cache_dir(&self) -> Seq<char> {
        self.cache_dir@
    }

    pub closed spec fn cwd(&self) -> Seq<char> {
        self.cwd@
    }

    /// The cache key, once the cache is prepared.
    pub closed spec fn digest(&self) -> Seq<char> {
        self.digest@
    }

    /// The time of the invocation, once the cache is prepared.
    pub closed spec fn now(&self) -> i64 {
        self.now_nanos
    }

    pub closed spec fn staging_path(&self) -> Seq<char> {
        self.staging_path@
    }

    /// The exit code the command returned, once it ran with capture.
    pub closed spec fn observed(&self) -> i32 {
        self.exit_code
    }

    /// A coordinator for running `command`, with the cache bypassed if
    /// `disabled`.
    pub fn new(command: Vec<String>, disabled: bool) -> (r: Self)
        ensures
            r.phase() == Phase::Start,
            r.command() == strings_view(command@),
            r.disabled() == disabled,
    {
        Coordinator {
            command,
            disabled,
            phase: Phase::Start,
            cache_dir: String::new(),
            cwd: String::new(),
            digest: String::new(),
            now_nanos: 0,
            staging_path: String::new(),
            exit_code: 0,
        }
    }

    /// Where the invocation stands.
    pub fn current_phase(&self) -> (r: Phase)
        ensures
            r == self.phase(),
    {
        self.phase
    }

    /// Whether `event` is the outcome the coordinator waits for.
    pub fn expects(&self, event: &Event) -> (r: bool)
        ensures
            r == accepts(self.phase(), *event),
    {
        match event {
            Event::Started => self.phase == Phase::Start,
            Event::DirectRan(_) => self.phase == Phase::Direct,
            Event::Prepared(_) => self.phase == Phase::Preparing,
            Event::Listed(_) => self.phase == Phase::Checking,
            Event::Replayed(_) => self.phase == Phase::Replaying,
            Event::StagingMade(_) => self.phase == Phase::Staging,
            Event::Executed(_) => self.phase == Phase::Running,
            Event::MetadataWritten(_) => self.phase == Phase::Writing,
            Event::Committed(_) => self.phase == Phase::Committing,
        }
    }

    fn command_copy(&self) -> (r: Vec<String>)
        ensures
            strings_view(r@) == self.command(),
    {
        let r = clone_strings(&self.command);
        assert(strings_view(r@) =~= strings_view(self.command@));
        r
    }

    /// Takes the outcome of the last action and gives the next action.
    pub fn step(&mut self, event: Event) -> (r: Action)
        requires
            accepts(old(self).phase(), event),
        ensures
            final(self).command() == old(self).command(),
            final(self).disabled() == old(self).disabled(),
            is_final(r) <==> final(self).phase() == Phase::Done,
            !(event is Prepared) ==> keeps_setup(*old(self), *final(self)),
            !(event is Executed) ==> final(self).observed() == old(self).observed(),
            steps_to(*old(self), event, *final(self), r),
    {
        match event {
            Event::Started => {
                if self.command.len() == 0 {
                    self.phase = Phase::Done;
                    Action::Fail { error: MemoError::InvalidCommand(String::from_str("No command provided")) }
                } else if self.disabled {
                    self.phase = Phase::Direct;
                    Action::RunDirect { command: self.command_copy(), notice: None }
                } else {
                    self.phase = Phase::Preparing;
                    Action::Prepare
                }
            },
            Event::DirectRan(outcome) => {
                self.phase = Phase::Done;
                match outcome {
                    Ok(code) => Action::Exit { code, warning: None },
                    Err(error) => Action::Fail { error },
                }
            },
            Event::Prepared(outcome) => match outcome {
                Err(error) => {
                    self.phase = Phase::Done;
                    Action::Fail { error }
                },
                Ok(setup) => {
                    match compute_digest_for_args(self.command.as_slice(), setup.cwd.as_str()) {
                        Err(e) => {
                            self.phase = Phase::Done;
                            Action::Fail { error: MemoError::Json(e) }
                        },
                        Ok(digest) => {
                            let staging = create_temp_cache_dir(
                                setup.cache_dir.as_str(),
                                digest.as_str(),
                                setup.pid,
                                setup.now_nanos,
                            );
                            let dir = digest_dir(setup.cache_dir.as_str(), digest.as_str());
                            self.staging_path = staging.into_path();
                            self.cache_dir = setup.cache_dir;
                            self.cwd = setup.cwd;
                            self.digest = digest;
                            self.now_nanos = setup.now_nanos;
                            self.phase = Phase::Checking;
                            Action::ListEntry { dir }
                        },
                    }
                },
            },
            Event::Listed(names) => {
                let command_line = build_command_string(self.command.as_slice());
                if memo_complete(&names) {
                    self.phase = Phase::Replaying;
                    Action::Replay {
                        dir: digest_dir(self.cache_dir.as_str(), self.digest.as_str()),
                        command_line,
                        digest: self.digest.clone(),
                    }
                } else {
                    self.phase = Phase::Staging;
                    Action::MakeStaging {
                        staging: TempCacheDir::at(self.staging_path.clone()),
                        command_line,
                        digest: self.digest.clone(),
                    }
                }
            },
            Event::Replayed(outcome) => {
                self.phase = Phase::Done;
                match outcome {
                    Ok(code) => Action::Exit { code, warning: None },
                    Err(error) => Action::Fail { error },
                }
            },
            Event::StagingMade(outcome) => match outcome {
                Ok(()) => {
                    self.phase = Phase::Running;
                    Action::Execute {
                        command: self.command_copy(),
                        stdout_path: join(self.staging_path.as_str(), "stdout"),
                        stderr_path: join(self.staging_path.as_str(), "stderr"),
                    }
                },
                Err(e) => {
                    self.phase = Phase::Direct;
                    Action::RunDirect { command: self.command_copy(), notice: Some(e) }
                },
            },
            Event::Executed(outcome) => match outcome {
                Err(error) => {
                    self.phase = Phase::Done;
                    Action::Fail { error }
                },
                Ok(result) => {
                    self.exit_code = result.exit_code;
                    if result.stdout_error.is_none() && result.stderr_error.is_none() {
                        self.phase = Phase::Writing;
                        let memo = Memo {
                            cmd: self.command_copy(),
                            cwd: self.cwd.clone(),
                            exit_code: result.exit_code,
                            timestamp: rfc3339_of(self.now_nanos),
                            digest: self.digest.clone(),
                        };
                        Action::WriteMetadata { path: join(self.staging_path.as_str(), "meta.json"), memo }
                    } else {
                        self.phase = Phase::Done;
                        Action::Exit { code: result.exit_code, warning: None }
                    }
                },
            },
            Event::MetadataWritten(outcome) => match outcome {
                Ok(()) => {
                    self.phase = Phase::Committing;
                    Action::Commit { target: digest_dir(self.cache_dir.as_str(), self.digest.as_str()) }
                },
                Err(e) => {
                    self.phase = Phase::Done;
                    Action::Exit { code: self.exit_code, warning: Some(e) }
                },
            },
            Event::Committed(outcome) => {
                self.phase = Phase::Done;
                match outcome {
                    Ok(_) => Action::Exit { code: self.exit_code, warning: None },
                    Err(e) => Action::Exit { code: self.exit_code, warning: Some(MemoError::Io(e)) },
                }
            },
        }
    }
}

/// The cache root, working directory, time, key and staging path are the
/// same in both states.
pub open spec fn keeps_setup(before: Coordinator, after: Coordinator) -> bool {
    &&& after.cache_dir() == before.cache_dir()
    &&& after.cwd() == before.cwd()
    &&& after.now() == before.now()
    &&& after.digest() == before.digest()
    &&& after.staging_path() == before.staging_path()
}

/// Ends the invocation with exit code `code` and nothing to report.
pub open spec fn exits_with(action: Action, code: i32) -> bool {
    action == Action::Exit { code, warning: None }
}

/// Ends the invocation normally with exit code `code`, whatever it reports.
pub open spec fn exit_code_is(action: Action, code: i32) -> bool {
    action matches Action::Exit { code: c, .. } && c == code
}

/// An outcome that carries an exit code ends the invocation with that
/// code, and an error ends it as a failure.
pub open spec fn ends_with(outcome: Result<i32, MemoError>, action: Action) -> bool {
    match outcome {
        Ok(code) => exits_with(action, code),
        Err(e) => action == Action::Fail { error: e },
    }
}

/// An empty command is refused; a disabled cache is bypassed without
/// touching the store; otherwise the cache is prepared.
pub open spec fn on_start(before: Coordinator, after: Coordinator, action: Action) -> bool {
    if before.command().len() == 0 {
        action matches Action::Fail { error: MemoError::InvalidCommand(_) }
    } else if before.disabled() {
        &&& action matches Action::RunDirect { command, notice }
        &&& strings_view(command@) == before.command()
        &&& notice is None
        &&& after.phase() == Phase::Direct
    } else {
        action is Prepare && after.phase() == Phase::Preparing
    }
}

/// Once the cache is prepared, the invocation's key names the entry to look
/// for, and the staging directory this process would write is fixed.
pub open spec fn on_prepared(
    before: Coordinator,
    outcome: Result<Setup, MemoError>,
    after: Coordinator,
    action: Action,
) -> bool {
    match outcome {
        Err(e) => action == Action::Fail { error: e },
        Ok(s) => {
            let key = digest_key(before.command(), s.cwd@);
            &&& after.phase() == Phase::Checking
            &&& after.digest() == key
            &&& after.cache_dir() == s.cache_dir@
            &&& after.cwd() == s.cwd@
            &&& after.now() == s.now_nanos
            &&& after.staging_path() == join_path(
                s.cache_dir@,
                staging_name(key, s.pid, s.now_nanos),
            )
            &&& action matches Action::ListEntry { dir }
            &&& dir@ == join_path(s.cache_dir@, key)
        },
    }
}

/// A complete entry is replayed, reading only; an incomplete one is a miss,
/// and the command is to run into a new staging directory.
pub open spec fn on_listed(
    before: Coordinator,
    names: Seq<String>,
    after: Coordinator,
    action: Action,
) -> bool {
    let complete = lists_name(names, meta_file()) && lists_name(names, stdout_file())
        && lists_name(names, stderr_file());
    if complete {
        &&& action matches Action::Replay { dir, command_line, digest }
        &&& dir@ == join_path(before.cache_dir(), before.digest())
        &&& command_line@ == space_joined(before.command())
        &&& digest@ == before.digest()
        &&& after.phase() == Phase::Replaying
    } else {
        &&& action matches Action::MakeStaging { staging, command_line, digest }
        &&& staging.staging_path() == before.staging_path()
        &&& command_line@ == space_joined(before.command())
        &&& !staging.committed()
        &&& digest@ == before.digest()
        &&& after.phase() == Phase::Staging
    }
}

/// With a staging directory the command runs captured into it; without
/// one it runs uncached, and the reason is reported.
pub open spec fn on_staging(
    before: Coordinator,
    outcome: Result<(), MemoError>,
    after: Coordinator,
    action: Action,
) -> bool {
    match outcome {
        Ok(_) => {
            &&& action matches Action::Execute { command, stdout_path, stderr_path }
            &&& strings_view(command@) == before.command()
            &&& stdout_path@ == join_path(before.staging_path(), stdout_file())
            &&& stderr_path@ == join_path(before.staging_path(), stderr_file())
            &&& after.phase() == Phase::Running
        },
        Err(e) => {
            &&& action matches Action::RunDirect { command, notice }
            &&& strings_view(command@) == before.command()
            &&& notice == Some(e)
            &&& after.phase() == Phase::Direct
        },
    }
}

/// After a captured run the exit code is fixed. A run whose capture files
/// were written in full is recorded; one whose capture failed is not
/// published, and ends with the command's exit code all the same.
pub open spec fn on_executed(
    before: Coordinator,
    outcome: Result<ExecutionResult, MemoError>,
    after: Coordinator,
    action: Action,
) -> bool {
    match outcome {
        Err(e) => action == Action::Fail { error: e },
        Ok(res) => {
            &&& after.observed() == res.exit_code
            &&& !res.captured() ==> exits_with(action, res.exit_code)
            &&& res.captured() ==> {
                &&& action matches Action::WriteMetadata { path, memo }
                &&& path@ == join_path(before.staging_path(), meta_file())
                &&& strings_view(memo.cmd@) == before.command()
                &&& memo.cwd@ == before.cwd()
                &&& memo.exit_code == res.exit_code
                &&& memo.timestamp@ == rfc3339_utc(before.now())
                &&& memo.digest@ == before.digest()
                &&& after.phase() == Phase::Writing
            }
        },
    }
}

/// A written record is published under the entry's path; if it could not
/// be written, nothing is published and the failure is reported.
pub open spec fn on_metadata(
    before: Coordinator,
    outcome: Result<(), MemoError>,
    after: Coordinator,
    action: Action,
) -> bool {
    &&& after.observed() == before.observed()
    &&& match outcome {
        Ok(_) => {
            &&& action matches Action::Commit { target }
            &&& target@ == join_path(before.cache_dir(), before.digest())
            &&& after.phase() == Phase::Committing
        },
        Err(e) => action == Action::Exit { code: before.observed(), warning: Some(e) },
    }
}

/// Whether this process won or lost the race to publish, the invocation
/// ends with the exit code the command returned; a failed commit is only
/// reported.
pub open spec fn on_committed(
    before: Coordinator,
    outcome: Result<bool, std::io::Error>,
    action: Action,
) -> bool {
    match outcome {
        Ok(_) => exits_with(action, before.observed()),
        Err(e) => action == Action::Exit { code: before.observed(), warning: Some(MemoError::Io(e)) },
    }
}

/// The coordinator's transitions: what `step` does with each outcome.
pub open spec fn steps_to(before: Coordinator, event: Event, after: Coordinator, action: Action) -> bool {
    match event {
        Event::Started => on_start(before, after, action),
        Event::DirectRan(outcome) => ends_with(outcome, action),
        Event::Prepared(outcome) => on_prepared(before, outcome, after, action),
        Event::Listed(names) => on_listed(before, names@, after, action),
        Event::Replayed(outcome) => ends_with(outcome, action),
        Event::StagingMade(outcome) => on_staging(before, outcome, after, action),
        Event::Executed(outcome) => on_executed(before, outcome, after, action),
        Event::MetadataWritten(outcome) => on_metadata(before, outcome, after, action),
        Event::Committed(outcome) => on_committed(before, outcome, action),
    }
}

/// Replaying a complete entry only reads the store: the coordinator asks
/// to replay it and to do nothing that writes.
pub proof fn lemma_replay_reads_only(
    before: Coordinator,
    names: Vec<String>,
    after: Coordinator,
    action: Action,
)
    requires
        steps_to(before, Event::Listed(names), after, action),
        lists_name(names@, meta_file()),
        lists_name(names@, stdout_file()),
        lists_name(names@, stderr_file()),
    ensures
        action is Replay,
        !writes_store(action),
{
}

/// Replaying the same entry any number of times ends the same way each
/// time: with the exit code stored in it.
pub proof fn lemma_replay_repeatable(
    first: Coordinator,
    second: Coordinator,
    stored: i32,
    after1: Coordinator,
    action1: Action,
    after2: Coordinator,
    action2: Action,
)
    requires
        steps_to(first, Event::Replayed(Ok(stored)), after1, action1),
        steps_to(second, Event::Replayed(Ok(stored)), after2, action2),
    ensures
        action1 == action2,
        exits_with(action1, stored),
{
}

/// A disabled cache is bypassed: the command runs uncached, the store is
/// not touched, and the invocation ends with the command's own exit code.
pub proof fn lemma_disabled_bypass(
    start: Coordinator,
    direct: Coordinator,
    action: Action,
    code: i32,
    done: Coordinator,
    last: Action,
)
    requires
        start.disabled(),
        start.command().len() > 0,
        steps_to(start, Event::Started, direct, action),
        steps_to(direct, Event::DirectRan(Ok(code)), done, last),
    ensures
        action is RunDirect,
        !writes_store(action),
        exits_with(last, code),
{
}

/// On a miss the invocation ends with the exit code the command returned,
/// whether the capture, the metadata record and the race to publish
/// succeeded or not: a lost race and a failed write change nothing but
/// what is reported.
pub proof fn lemma_miss_keeps_exit_code(
    running: Coordinator,
    result: ExecutionResult,
    writing: Coordinator,
    a1: Action,
    written: Result<(), MemoError>,
    committing: Coordinator,
    a2: Action,
    committed: Result<bool, std::io::Error>,
    done: Coordinator,
    a3: Action,
)
    requires
        steps_to(running, Event::Executed(Ok(result)), writing, a1),
        is_final(a1) || steps_to(writing, Event::MetadataWritten(written), committing, a2),
        is_final(a1) || is_final(a2) || steps_to(committing, Event::Committed(committed), done, a3),
    ensures
        is_final(a1) ==> exit_code_is(a1, result.exit_code),
        !is_final(a1) && is_final(a2) ==> exit_code_is(a2, result.exit_code),
        !is_final(a1) && !is_final(a2) ==> exit_code_is(a3, result.exit_code),
        committed == Ok::<bool, std::io::Error>(false) && !is_final(a1) && !is_final(a2)
            ==> exits_with(a3, result.exit_code),
{
}


/// Identical invocations meet at one entry: two runs of the same command in
/// the same directory, with the same cache root, look up the same entry
/// path, the key's directory under the cache root.
pub proof fn lemma_identical_invocations_share_entry(
    first: Coordinator,
    setup1: Setup,
    checking1: Coordinator,
    lookup1: Action,
    second: Coordinator,
    setup2: Setup,
    checking2: Coordinator,
    lookup2: Action,
)
    requires
        first.command() == second.command(),
        setup1.cwd@ == setup2.cwd@,
        setup1.cache_dir@ == setup2.cache_dir@,
        steps_to(first, Event::Prepared(Ok(setup1)), checking1, lookup1),
        steps_to(second, Event::Prepared(Ok(setup2)), checking2, lookup2),
    ensures
        lookup1 is ListEntry && lookup2 is ListEntry,
        lookup1->ListEntry_dir@ == lookup2->ListEntry_dir@,
        lookup1->ListEntry_dir@ == join_path(checking1.cache_dir(), checking1.digest()),
{
}

} // verus!
