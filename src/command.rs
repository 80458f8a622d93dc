//! The background job and its status records.
//!
//! `StatusArtifacts` holds what the four status records contain (or that one
//! is absent); the functions here decide how a launch, a reset and a poll
//! change or read them. Moving the records to and from storage, and running
//! the job, is left to the caller.
use vstd::prelude::*;
use vstd::string::StringExecFns;
use crate::record::{
    exit_code_value, lemma_exit_code_text_round_trip, lemma_invocation_round_trip, no_spaces,
    signed_decimal, invocation_record, invocation_tokens, join_spaces, parse_i32, split_spaces,
    strings_view,
};

verus! {

/// The status of the job that was launched last.
#[derive(Debug, PartialEq, Clone)]
pub struct RunningCommand {
    pub command: Vec<String>,
    pub output: String,
    pub error: String,
    pub exit_code: Option<i32>,
}

/// The model of a `RunningCommand`.
pub struct JobStatus {
    pub command: Seq<Seq<char>>,
    pub output: Seq<char>,
    pub error: Seq<char>,
    pub exit_code: Option<i32>,
}

impl View for RunningCommand {
    type V = JobStatus;

    open spec fn view(&self) -> JobStatus {
        JobStatus {
            command: strings_view(self.command@),
            output: self.output@,
            error: self.error@,
            exit_code: self.exit_code,
        }
    }
}

/// The model of an optional `RunningCommand`.
pub open spec fn status_view(r: Option<RunningCommand>) -> Option<JobStatus> {
    match r {
        Some(c) => Some(c@),
        None => None,
    }
}

/// The contents of the four status records; `None` where a record is absent.
#[derive(Debug, PartialEq, Clone)]
pub struct StatusArtifacts {
    /// The invocation of the job, its tokens joined by spaces.
    pub invocation: Option<String>,
    /// The tail of the job's standard output.
    pub stdout: Option<String>,
    /// The tail of the job's standard error.
    pub stderr: Option<String>,
    /// The job's exit status as text, written once the job has ended.
    pub exit_code: Option<String>,
}

/// The model of `StatusArtifacts`.
pub struct ArtifactsView {
    pub invocation: Option<Seq<char>>,
    pub stdout: Option<Seq<char>>,
    pub stderr: Option<Seq<char>>,
    pub exit_code: Option<Seq<char>>,
}

pub open spec fn text_view(t: Option<String>) -> Option<Seq<char>> {
    match t {
        Some(s) => Some(s@),
        None => None,
    }
}

impl View for StatusArtifacts {
    type V = ArtifactsView;

    open spec fn view(&self) -> ArtifactsView {
        ArtifactsView {
            invocation: text_view(self.invocation),
            stdout: text_view(self.stdout),
            stderr: text_view(self.stderr),
            exit_code: text_view(self.exit_code),
        }
    }
}

/// No record present: no job has run since the last reset.
pub open spec fn no_artifacts() -> ArtifactsView {
    ArtifactsView { invocation: None, stdout: None, stderr: None, exit_code: None }
}

/// The text of a record; empty where it is absent.
pub open spec fn record_text(t: Option<Seq<char>>) -> Seq<char> {
    match t {
        Some(s) => s,
        None => seq![],
    }
}

/// Why the exit status of the job could not be read.
#[derive(Debug, PartialEq, Clone)]
pub enum ExitCodeError {
    /// The exit-code record is absent: the job is running or never ran.
    NotFound,
    /// The exit-code record holds this text, which is no `i32`.
    Corrupt(String),
}

/// The exit status held in the records, if the record holds an `i32`.
pub open spec fn exit_code_of(s: ArtifactsView) -> Option<i32> {
    match s.exit_code {
        Some(t) => parse_i32(t),
        None => None,
    }
}

/// What the error field shows when a job failed without a diagnostic.
pub open spec fn fallback_error() -> Seq<char> {
    "error running command"@
}

/// The status of a job that was just launched: no output, no exit status.
pub open spec fn initial_status(command: Seq<Seq<char>>) -> JobStatus {
    JobStatus { command, output: seq![], error: seq![], exit_code: None }
}

/// The error field of a polled status: the fallback message where the job
/// ended with a nonzero status and left nothing on standard error.
pub open spec fn polled_error(s: ArtifactsView) -> Seq<char> {
    match exit_code_of(s) {
        Some(c) => if c != 0 && record_text(s.stderr).len() == 0 {
            fallback_error()
        } else {
            seq![]
        },
        None => seq![],
    }
}

/// A job was launched and its exit-code record holds text that is no `i32`:
/// a poll reports this and reads no status.
pub open spec fn corrupt_exit_code(s: ArtifactsView) -> bool {
    s.invocation is Some && (s.exit_code matches Some(t) && parse_i32(t) is None)
}

/// The status that a poll reads from the records; none before any launch.
pub open spec fn polled_status(s: ArtifactsView) -> Option<JobStatus> {
    match s.invocation {
        None => None,
        Some(inv) => Some(
            JobStatus {
                command: split_spaces(inv),
                output: record_text(s.stdout),
                error: polled_error(s),
                exit_code: exit_code_of(s),
            },
        ),
    }
}

/// The invocation that runs a recipe.
pub open spec fn launch_command(recipe: Seq<char>) -> Seq<Seq<char>> {
    seq!["just"@, recipe]
}

/// The records right after a launch: the invocation alone.
pub open spec fn launched_artifacts(command: Seq<Seq<char>>) -> ArtifactsView {
    ArtifactsView {
        invocation: Some(join_spaces(command)),
        stdout: None,
        stderr: None,
        exit_code: None,
    }
}

impl StatusArtifacts {
    /// Records with none present.
    pub fn new() -> (r: StatusArtifacts)
        ensures
            r@ == no_artifacts(),
    {
        StatusArtifacts { invocation: None, stdout: None, stderr: None, exit_code: None }
    }
}

/// Removes all four records.
pub fn reset_background(store: &mut StatusArtifacts)
    ensures
        final(store)@ == no_artifacts(),
{
    store.invocation = None;
    store.exit_code = None;
    store.stderr = None;
    store.stdout = None;
}

/// The text of a record, as far as it has been written; empty where the
/// record does not exist yet.
pub fn tail(record: &Option<String>) -> (r: String)
    ensures
        r@ == record_text(text_view(*record)),
        record.is_none() ==> r@.len() == 0,
{
    match record {
        Some(t) => t.clone(),
        None => String::new(),
    }
}

/// Reads the exit status of the job from its record.
pub fn background_exit_code(store: &StatusArtifacts) -> (r: Result<i32, ExitCodeError>)
    ensures
        match r {
            Ok(v) => exit_code_of(store@) == Some(v),
            Err(ExitCodeError::NotFound) => store@.exit_code is None,
            Err(ExitCodeError::Corrupt(t)) => store@.exit_code == Some(t@) && parse_i32(t@) is None,
        },
        store@.exit_code is None <==> r == Err::<i32, ExitCodeError>(ExitCodeError::NotFound),
{
    match &store.exit_code {
        None => Err(ExitCodeError::NotFound),
        Some(text) => match exit_code_value(text.as_str()) {
            Some(code) => Ok(code),
            None => Err(ExitCodeError::Corrupt(text.clone())),
        },
    }
}

/// The status of a job that has just started.
pub fn default_running_command(command: Vec<String>) -> (r: RunningCommand)
    ensures
        r@ == initial_status(strings_view(command@)),
{
    RunningCommand { command, output: String::new(), error: String::new(), exit_code: None }
}

/// Launches a recipe: clears the records, records the invocation
/// `just <recipe>`, and returns the status of the job as it starts.
pub fn background(store: &mut StatusArtifacts, recipe: String) -> (r: RunningCommand)
    ensures
        final(store)@ == launched_artifacts(launch_command(recipe@)),
        r@ == initial_status(launch_command(recipe@)),
{
    reset_background(store);
    let mut command: Vec<String> = Vec::new();
    command.push(String::from_str("just"));
    command.push(recipe);
    assert(strings_view(command@) =~= launch_command(recipe@));
    store.invocation = Some(invocation_record(&command));
    default_running_command(command)
}

/// Reads the status of the job from the records: `None` before any launch,
/// and an error where the exit-code record of a launched job is corrupt.
pub fn update_running_command(store: &StatusArtifacts) -> (r: Result<
    Option<RunningCommand>,
    ExitCodeError,
>)
    ensures
        corrupt_exit_code(store@) ==> (r matches Err(ExitCodeError::Corrupt(t))
            && store@.exit_code == Some(t@)),
        !corrupt_exit_code(store@) ==> (r matches Ok(o) && status_view(o) == polled_status(
            store@,
        )),
{
    match &store.invocation {
        None => Ok(None),
        Some(inv) => {
            let mut running = default_running_command(invocation_tokens(inv.as_str()));
            running.output = tail(&store.stdout);
            match background_exit_code(store) {
                Err(ExitCodeError::NotFound) => {},
                Err(ExitCodeError::Corrupt(t)) => {
                    return Err(ExitCodeError::Corrupt(t));
                },
                Ok(code) => {
                    running.exit_code = Some(code);
                    if code != 0 {
                        let stderr = tail(&store.stderr);
                        if stderr.unicode_len() == 0 {
                            running.error = String::from_str("error running command");
                        }
                    }
                },
            }
            Ok(Some(running))
        },
    }
}

/// At start-up, clears the records unless they hold a readable exit status,
/// so that output of an interrupted run is never taken for a new job's.
/// Returns whether it cleared them.
pub fn recover_on_startup(store: &mut StatusArtifacts) -> (r: bool)
    ensures
        r == (exit_code_of(old(store)@) is None),
        r ==> final(store)@ == no_artifacts(),
        !r ==> *final(store) == *old(store),
{
    match background_exit_code(store) {
        Ok(_) => false,
        Err(_) => {
            reset_background(store);
            true
        },
    }
}

/// A poll right after a launch, before the job writes anything, shows the
/// launched invocation token for token, with no output, no error and no exit
/// status; the recipe must hold no space, since the record joins tokens by
/// spaces.
pub proof fn law_launch_then_poll(recipe: Seq<char>)
    requires
        !recipe.contains(' '),
    ensures
        polled_status(launched_artifacts(launch_command(recipe))) == Some(
            initial_status(launch_command(recipe)),
        ),
        split_spaces(launched_artifacts(launch_command(recipe)).invocation->Some_0)
            == launch_command(recipe),
{
    let c = launch_command(recipe);
    assert(no_spaces(c)) by {
        assert forall|i: int| 0 <= i < c.len() implies !(#[trigger] c[i]).contains(' ') by {
            if i == 0 {
                reveal_strlit("just");
                assert(c[0] == "just"@);
                if c[0].contains(' ') {
                    let k = choose|k: int| 0 <= k < c[0].len() && c[0][k] == ' ';
                    assert(false);
                }
            }
        }
    }
    lemma_invocation_round_trip(c);
    let s = launched_artifacts(c);
    assert(record_text(s.stdout) =~= Seq::<char>::empty());
    assert(polled_error(s) =~= Seq::<char>::empty());
}

/// A reset ends with no records whatever it starts from, so a second reset
/// ends where the first did: no records, and nothing for a poll to show.
pub proof fn law_reset_idempotent()
    ensures
        no_artifacts().invocation is None,
        no_artifacts().stdout is None,
        no_artifacts().stderr is None,
        no_artifacts().exit_code is None,
        !corrupt_exit_code(no_artifacts()),
        polled_status(no_artifacts()) is None,
{
}

/// An exit-code record that holds the decimal text of an `i32` reads back as
/// that value.
pub proof fn law_exit_code_round_trip(s: ArtifactsView, v: i32)
    requires
        s.exit_code == Some(signed_decimal(v as int)),
    ensures
        exit_code_of(s) == Some(v),
{
    lemma_exit_code_text_round_trip(v);
}

/// A job that ended with a nonzero status shows the fallback error exactly
/// when its standard error is empty, and an empty error otherwise.
pub proof fn law_failed_job_error(s: ArtifactsView, code: i32)
    requires
        s.invocation is Some,
        exit_code_of(s) == Some(code),
        code != 0,
    ensures
        !corrupt_exit_code(s),
        record_text(s.stderr).len() == 0 ==> polled_status(s)->Some_0.error == fallback_error(),
        record_text(s.stderr).len() != 0 ==> polled_status(s)->Some_0.error.len() == 0,
        polled_status(s)->Some_0.exit_code == Some(code),
{
}

} // verus!
