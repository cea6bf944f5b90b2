//! Shell utilities for tmux, git, and command management.
//!
//! The library plans every shell operation as a [`job::Job`]: a short script of
//! program look-ups and process launches. The decisions (which arguments to pass,
//! when to stop, which error to report) are made here and verified; the process
//! launches themselves are performed by whoever drives the job.
use vstd::prelude::*;

pub mod error;
pub mod text;
pub mod job;
pub mod git;
pub mod tmux;
pub mod editor;

pub use error::{Error, Fault};

use job::{
    first_or_empty, first_text, found_then_launched, outcome, str_pairs, str_texts, string_pairs,
    strings, Answer, Blame, Call, Failure, Invocation, Job, Stage, Step, Streams,
};
use text::{join3, owned, utf8_lossy};

verus! {

/// Declaration of `std::path::PathBuf`, the path type that a program look-up returns.
#[verifier::external_type_specification]
#[verifier::external_body]
pub struct ExPathBuf(std::path::PathBuf);

/// Looks `cmd` up on `$PATH` with `which::which`, keeping the path it found and
/// dropping the reason when it found none.
///
/// The answer depends on the environment and on what is on disk, so nothing is
/// stated of it: two calls with the same name may answer differently.
#[verifier::external_body]
fn lookup(cmd: &str) -> Option<std::path::PathBuf> {
    ::which::which(cmd).ok()
}

/// Check if a command exists in PATH.
pub fn which(cmd: &str) -> Option<std::path::PathBuf> {
    lookup(cmd)
}

/// Turns the answer of a look-up for `cmd` into the result of [`require`]:
/// a found path is handed back, a failed look-up becomes `CommandNotFound(cmd)`.
pub fn require_found(cmd: &str, found: Option<std::path::PathBuf>) -> (r: Result<
    std::path::PathBuf,
    Error,
>)
    ensures
        found is Some ==> r == Ok::<std::path::PathBuf, Error>(found->Some_0),
        found is None ==> (r is Err && r->Err_0@ == Fault::CommandNotFound(cmd@)),
{
    match found {
        Some(path) => Ok(path),
        None => Err(Error::CommandNotFound(cmd.to_owned())),
    }
}

/// Require a command to exist, returning an error if not found.
pub fn require(cmd: &str) -> (r: Result<std::path::PathBuf, Error>)
    ensures
        r is Err ==> r->Err_0@ == Fault::CommandNotFound(cmd@),
{
    require_found(cmd, lookup(cmd))
}

/// The plan of [`run_with_env`]: look `program` up, then launch it with `args` and
/// `env` and collect its output. An unsuccessful exit reports `CommandFailed` with
/// the program and its first argument as `cmd` and its stderr as `detail`.
pub open spec fn run_plan(
    program: Seq<char>,
    args: Seq<Seq<char>>,
    env: Seq<(Seq<char>, Seq<char>)>,
) -> Seq<Stage> {
    seq![
        Stage::Locate(program),
        Stage::Launch {
            keep: None,
            call: Call { program, args, env, dir: None, streams: Streams::Capture },
            failure: Blame::Stderr(program + " "@ + first_or_empty(args)),
        },
    ]
}

/// Run a command and return its stdout.
pub fn run(program: &str, args: &[&str]) -> (j: Job)
    ensures
        j.plan() == run_plan(program@, str_texts(args@), seq![]),
        j.at() == 0,
{
    let no_env: Vec<(&str, &str)> = Vec::new();
    let j = run_with_env(program, args, no_env.as_slice());
    assert(str_pairs(no_env@) =~= seq![]);
    j
}

/// Run a command with extra environment variables and return its stdout.
pub fn run_with_env(program: &str, args: &[&str], env: &[(&str, &str)]) -> (j: Job)
    ensures
        j.plan() == run_plan(program@, str_texts(args@), str_pairs(env@)),
        j.at() == 0,
{
    proof { reveal_strlit(" "); }
    let label = join3(program, " ", first_text(args));
    let call = Invocation {
        program: owned(program),
        args: strings(args),
        env: string_pairs(env),
        dir: None,
        streams: Streams::Capture,
    };
    let steps = vec![
        Step::Locate(owned(program)),
        Step::Launch { call, failure: Failure::Stderr(label), keep: None },
    ];
    let j = Job::new(steps);
    assert(job::stages(steps@) =~= run_plan(program@, str_texts(args@), str_pairs(env@)));
    j
}

} // verus!

verus! {

/// A command that is found and exits successfully gives its stdout, decoded.
pub proof fn run_gives_stdout(
    program: Seq<char>,
    args: Seq<Seq<char>>,
    env: Seq<(Seq<char>, Seq<char>)>,
    stdout: Seq<u8>,
    stderr: Seq<u8>,
)
    ensures
        outcome(
            run_plan(program, args, env),
            seq![Answer::Found(true), Answer::Exited { success: true, stdout, stderr }],
        ) == Some(Ok::<Seq<char>, Fault>(utf8_lossy(stdout))),
{
    found_then_launched(
        program,
        run_plan(program, args, env)[1],
        Answer::Exited { success: true, stdout, stderr },
    );
}

/// A command that is found but exits unsuccessfully fails with `CommandFailed`: its
/// `cmd` is the program and its first argument, its `detail` the decoded stderr.
pub proof fn run_reports_failure(
    program: Seq<char>,
    args: Seq<Seq<char>>,
    env: Seq<(Seq<char>, Seq<char>)>,
    stdout: Seq<u8>,
    stderr: Seq<u8>,
)
    ensures
        outcome(
            run_plan(program, args, env),
            seq![Answer::Found(true), Answer::Exited { success: false, stdout, stderr }],
        ) == Some(
            Err::<Seq<char>, Fault>(
                Fault::CommandFailed {
                    cmd: program + " "@ + first_or_empty(args),
                    detail: utf8_lossy(stderr),
                },
            ),
        ),
{
    found_then_launched(
        program,
        run_plan(program, args, env)[1],
        Answer::Exited { success: false, stdout, stderr },
    );
}

} // verus!

verus! {

/// `run_with_env` looks the program up, then launches that program once with exactly
/// the given arguments and every given variable, in order, in the caller's
/// directory, collecting its output; the result is that output in full.
pub proof fn run_launches_the_program(
    program: Seq<char>,
    args: Seq<Seq<char>>,
    env: Seq<(Seq<char>, Seq<char>)>,
)
    ensures
        ({
            let plan = run_plan(program, args, env);
            &&& plan.len() == 2
            &&& plan[0] == Stage::Locate(program)
            &&& plan[1] is Launch
            &&& plan[1]->call.program == program
            &&& plan[1]->call.args == args
            &&& plan[1]->call.env == env
            &&& plan[1]->call.dir is None
            &&& plan[1]->call.streams == Streams::Capture
            &&& plan[1]->keep is None
        }),
{
}

} // verus!
