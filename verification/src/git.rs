//! Git command abstractions.
use vstd::prelude::*;

use crate::error::Fault;
use crate::job::{
    first_or_empty, first_text, found_then_launched, outcome, stages, str_pairs, str_texts,
    string_pairs, strings, texts, Answer, Blame, Call, Failure, Invocation, Job, Stage, Step,
    Streams,
};
use crate::text::{join3, owned, utf8_lossy};

verus! {

/// Whether `env` sets `GIT_ASKPASS`.
pub open spec fn asks_pass(env: Seq<(Seq<char>, Seq<char>)>) -> bool {
    exists|i: int| 0 <= i < env.len() && #[trigger] env[i].0 == "GIT_ASKPASS"@
}

/// The options put before git's arguments: credential helpers are switched off when
/// `env` sets `GIT_ASKPASS`, so that no system keychain intercepts the prompt.
pub open spec fn credential_guard(env: Seq<(Seq<char>, Seq<char>)>) -> Seq<Seq<char>> {
    if asks_pass(env) {
        seq!["-c"@, "credential.helper="@]
    } else {
        Seq::<Seq<char>>::empty()
    }
}

/// The plan of [`cmd_with_env`]: look git up, then run it in `dir` with `args` and
/// `env`, collecting its output. An unsuccessful exit reports `CommandFailed` with
/// `git` and the first argument as `cmd` and git's stderr as `detail`.
pub open spec fn cmd_plan(
    dir: Seq<char>,
    args: Seq<Seq<char>>,
    env: Seq<(Seq<char>, Seq<char>)>,
) -> Seq<Stage> {
    seq![
        Stage::Locate("git"@),
        Stage::Launch {
            keep: None,
            call: Call {
                program: "git"@,
                args: credential_guard(env) + args,
                env,
                dir: Some(dir),
                streams: Streams::Capture,
            },
            failure: Blame::Stderr("git "@ + first_or_empty(args)),
        },
    ]
}

/// The plan of [`clone_shallow_with_env`]: a single-branch clone of depth 1.
pub open spec fn clone_shallow_plan(
    url: Seq<char>,
    dest: Seq<char>,
    branch: Seq<char>,
    env: Seq<(Seq<char>, Seq<char>)>,
) -> Seq<Stage> {
    seq![
        Stage::Locate("git"@),
        Stage::Launch {
            keep: None,
            call: Call {
                program: "git"@,
                args: credential_guard(env) + seq![
                    "clone"@,
                    "--depth"@,
                    "1"@,
                    "--branch"@,
                    branch,
                    url,
                    dest,
                ],
                env,
                dir: None,
                streams: Streams::Capture,
            },
            failure: Blame::Stderr("git clone"@),
        },
    ]
}

/// The plan of [`clone_local`]: a single-branch clone of a local repository.
pub open spec fn clone_local_plan(source: Seq<char>, dest: Seq<char>, branch: Seq<char>) -> Seq<
    Stage,
> {
    seq![
        Stage::Locate("git"@),
        Stage::Launch {
            keep: None,
            call: Call {
                program: "git"@,
                args: seq!["clone"@, "--branch"@, branch, "--single-branch"@, source, dest],
                env: seq![],
                dir: None,
                streams: Streams::Capture,
            },
            failure: Blame::Stderr("git clone (local)"@),
        },
    ]
}

/// Whether `env` sets `GIT_ASKPASS`.
fn sets_askpass(env: &[(&str, &str)]) -> (b: bool)
    ensures
        b == asks_pass(str_pairs(env@)),
{
    let key = owned("GIT_ASKPASS");
    let n = env.len();
    for i in 0..n
        invariant
            n == env@.len(),
            key@ == "GIT_ASKPASS"@,
            forall|j: int| 0 <= j < i ==> #[trigger] env@[j].0@ != key@,
    {
        let name = owned(env[i].0);
        if name == key {
            assert(str_pairs(env@)[i as int].0 == "GIT_ASKPASS"@);
            return true;
        }
    }
    assert forall|j: int| 0 <= j < str_pairs(env@).len() implies #[trigger] str_pairs(
        env@,
    )[j].0 != "GIT_ASKPASS"@ by {
        assert(env@[j].0@ != key@);
    }
    false
}

/// The credential guard for `env` followed by `rest`.
fn guarded(env: &[(&str, &str)], rest: Vec<String>) -> (r: Vec<String>)
    ensures
        texts(r@) == credential_guard(str_pairs(env@)) + texts(rest@),
{
    let mut r: Vec<String> = if sets_askpass(env) {
        vec![owned("-c"), owned("credential.helper=")]
    } else {
        Vec::new()
    };
    assert(texts(r@) =~= credential_guard(str_pairs(env@)));
    let ghost head = r@;
    let ghost tail = rest@;
    let mut rest = rest;
    r.append(&mut rest);
    assert(texts(r@) =~= texts(head) + texts(tail));
    r
}

/// Run a git command in a directory and return stdout.
pub fn cmd(dir: &str, args: &[&str]) -> (j: Job)
    ensures
        j.plan() == cmd_plan(dir@, str_texts(args@), seq![]),
        j.at() == 0,
{
    let no_env: Vec<(&str, &str)> = Vec::new();
    let j = cmd_with_env(dir, args, no_env.as_slice());
    assert(str_pairs(no_env@) =~= seq![]);
    j
}

/// Run a git command with extra environment variables.
///
/// When `GIT_ASKPASS` is present in `env`, credential helpers are disabled
/// to prevent interception by system keychains.
pub fn cmd_with_env(dir: &str, args: &[&str], env: &[(&str, &str)]) -> (j: Job)
    ensures
        j.plan() == cmd_plan(dir@, str_texts(args@), str_pairs(env@)),
        j.at() == 0,
{
    proof { reveal_strlit("git "); }
    let label = join3("git ", first_text(args), "");
    proof { reveal_strlit(""); }
    let call = Invocation {
        program: owned("git"),
        args: guarded(env, strings(args)),
        env: string_pairs(env),
        dir: Some(owned(dir)),
        streams: Streams::Capture,
    };
    let steps = vec![Step::Locate(owned("git")), Step::Launch { call, failure: Failure::Stderr(label), keep: None }];
    assert(stages(steps@) =~= cmd_plan(dir@, str_texts(args@), str_pairs(env@)));
    Job::new(steps)
}

/// Shallow-clone a repo (single branch, depth 1).
pub fn clone_shallow(url: &str, dest: &str, branch: &str) -> (j: Job)
    ensures
        j.plan() == clone_shallow_plan(url@, dest@, branch@, seq![]),
        j.at() == 0,
{
    let no_env: Vec<(&str, &str)> = Vec::new();
    let j = clone_shallow_with_env(url, dest, branch, no_env.as_slice());
    assert(str_pairs(no_env@) =~= seq![]);
    j
}

/// Shallow-clone a repo with extra environment variables.
pub fn clone_shallow_with_env(url: &str, dest: &str, branch: &str, env: &[(&str, &str)]) -> (j:
    Job)
    ensures
        j.plan() == clone_shallow_plan(url@, dest@, branch@, str_pairs(env@)),
        j.at() == 0,
{
    let rest = vec![
        owned("clone"),
        owned("--depth"),
        owned("1"),
        owned("--branch"),
        owned(branch),
        owned(url),
        owned(dest),
    ];
    let ghost tail = rest@;
    assert(texts(tail) =~= seq!["clone"@, "--depth"@, "1"@, "--branch"@, branch@, url@, dest@]);
    let call = Invocation {
        program: owned("git"),
        args: guarded(env, rest),
        env: string_pairs(env),
        dir: None,
        streams: Streams::Capture,
    };
    let steps = vec![
        Step::Locate(owned("git")),
        Step::Launch { call, failure: Failure::Stderr(owned("git clone")), keep: None },
    ];
    assert(stages(steps@) =~= clone_shallow_plan(url@, dest@, branch@, str_pairs(env@)));
    Job::new(steps)
}

/// Clone from a local repo directory (fast, shares objects via hardlinks).
pub fn clone_local(source: &str, dest: &str, branch: &str) -> (j: Job)
    ensures
        j.plan() == clone_local_plan(source@, dest@, branch@),
        j.at() == 0,
{
    let args = vec![
        owned("clone"),
        owned("--branch"),
        owned(branch),
        owned("--single-branch"),
        owned(source),
        owned(dest),
    ];
    let call = Invocation {
        program: owned("git"),
        args,
        env: Vec::new(),
        dir: None,
        streams: Streams::Capture,
    };
    assert(texts(call.args@) =~= seq!["clone"@, "--branch"@, branch@, "--single-branch"@, source@, dest@]);
    assert(crate::job::text_pairs(call.env@) =~= seq![]);
    let steps = vec![
        Step::Locate(owned("git")),
        Step::Launch { call, failure: Failure::Stderr(owned("git clone (local)")), keep: None },
    ];
    assert(stages(steps@) =~= clone_local_plan(source@, dest@, branch@));
    Job::new(steps)
}

/// Create and switch to a new branch.
pub fn checkout_new_branch(dir: &str, branch: &str) -> (j: Job)
    ensures
        j.plan() == cmd_plan(dir@, seq!["checkout"@, "-b"@, branch@], seq![]),
        j.at() == 0,
{
    let args = vec!["checkout", "-b", branch];
    let j = cmd(dir, args.as_slice());
    assert(str_texts(args@) =~= seq!["checkout"@, "-b"@, branch@]);
    j
}

/// Set a git config key in a repo.
pub fn config_set(dir: &str, key: &str, value: &str) -> (j: Job)
    ensures
        j.plan() == cmd_plan(dir@, seq!["config"@, key@, value@], seq![]),
        j.at() == 0,
{
    let args = vec!["config", key, value];
    let j = cmd(dir, args.as_slice());
    assert(str_texts(args@) =~= seq!["config"@, key@, value@]);
    j
}

} // verus!

verus! {

/// When `GIT_ASKPASS` is among the variables, git runs with its credential helpers
/// switched off (`-c credential.helper=` before the arguments); otherwise git gets the
/// arguments as they are.
pub proof fn askpass_disables_credential_helpers(
    dir: Seq<char>,
    args: Seq<Seq<char>>,
    env: Seq<(Seq<char>, Seq<char>)>,
)
    ensures
        asks_pass(env) ==> cmd_plan(dir, args, env)[1]->call.args == seq![
            "-c"@,
            "credential.helper="@,
        ] + args,
        !asks_pass(env) ==> cmd_plan(dir, args, env)[1]->call.args == args,
{
    assert(Seq::<Seq<char>>::empty() + args =~= args);
}

/// A git command that git runs but that exits unsuccessfully fails with
/// `CommandFailed`: its `cmd` is `git` and the first argument, its `detail` git's
/// decoded stderr.
pub proof fn cmd_reports_failure(
    dir: Seq<char>,
    args: Seq<Seq<char>>,
    env: Seq<(Seq<char>, Seq<char>)>,
    stdout: Seq<u8>,
    stderr: Seq<u8>,
)
    ensures
        outcome(
            cmd_plan(dir, args, env),
            seq![Answer::Found(true), Answer::Exited { success: false, stdout, stderr }],
        ) == Some(
            Err::<Seq<char>, Fault>(
                Fault::CommandFailed {
                    cmd: "git "@ + first_or_empty(args),
                    detail: utf8_lossy(stderr),
                },
            ),
        ),
{
    found_then_launched(
        "git"@,
        cmd_plan(dir, args, env)[1],
        Answer::Exited { success: false, stdout, stderr },
    );
}

/// A git command that exits successfully gives git's decoded stdout.
pub proof fn cmd_gives_stdout(
    dir: Seq<char>,
    args: Seq<Seq<char>>,
    env: Seq<(Seq<char>, Seq<char>)>,
    stdout: Seq<u8>,
    stderr: Seq<u8>,
)
    ensures
        outcome(
            cmd_plan(dir, args, env),
            seq![Answer::Found(true), Answer::Exited { success: true, stdout, stderr }],
        ) == Some(Ok::<Seq<char>, Fault>(utf8_lossy(stdout))),
{
    found_then_launched(
        "git"@,
        cmd_plan(dir, args, env)[1],
        Answer::Exited { success: true, stdout, stderr },
    );
}

} // verus!

verus! {

/// A git command looks git up, then launches git once in `dir` with every given
/// variable, in order, and its output collected; git gets the given arguments after
/// the two credential options when `GIT_ASKPASS` is set and unchanged otherwise, and
/// the result is git's output in full.
pub proof fn git_command_launch(
    dir: Seq<char>,
    args: Seq<Seq<char>>,
    env: Seq<(Seq<char>, Seq<char>)>,
)
    ensures
        ({
            let plan = cmd_plan(dir, args, env);
            let call = plan[1]->call;
            &&& plan.len() == 2
            &&& plan[0] == Stage::Locate("git"@)
            &&& plan[1] is Launch
            &&& call.program == "git"@
            &&& call.dir == Some(dir)
            &&& call.env == env
            &&& call.streams == Streams::Capture
            &&& plan[1]->keep is None
            &&& call.args.len() == args.len() + if asks_pass(env) {
                2int
            } else {
                0int
            }
            &&& call.args.subrange(call.args.len() - args.len(), call.args.len() as int) == args
        }),
{
    let plan = cmd_plan(dir, args, env);
    let call = plan[1]->call;
    assert(call.args.subrange(call.args.len() - args.len(), call.args.len() as int) =~= args);
}

/// A shallow clone looks git up, then launches git once with every given variable,
/// in order, and its output collected, ending its arguments with a single-branch
/// depth-1 clone of `url` at `branch` into `dest`.
pub proof fn shallow_clone_launch(
    url: Seq<char>,
    dest: Seq<char>,
    branch: Seq<char>,
    env: Seq<(Seq<char>, Seq<char>)>,
)
    ensures
        ({
            let plan = clone_shallow_plan(url, dest, branch, env);
            let call = plan[1]->call;
            let tail = seq!["clone"@, "--depth"@, "1"@, "--branch"@, branch, url, dest];
            &&& plan.len() == 2
            &&& plan[0] == Stage::Locate("git"@)
            &&& plan[1] is Launch
            &&& call.program == "git"@
            &&& call.dir is None
            &&& call.env == env
            &&& call.streams == Streams::Capture
            &&& call.args.len() == 7 + if asks_pass(env) {
                2int
            } else {
                0int
            }
            &&& call.args.subrange(call.args.len() - 7, call.args.len() as int) == tail
        }),
{
    let plan = clone_shallow_plan(url, dest, branch, env);
    let call = plan[1]->call;
    let tail = seq!["clone"@, "--depth"@, "1"@, "--branch"@, branch, url, dest];
    assert(call.args.subrange(call.args.len() - 7, call.args.len() as int) =~= tail);
}

/// A local clone looks git up, then launches git once, with no extra variables and
/// its output collected, to clone `branch` of `source` alone into `dest`.
pub proof fn local_clone_launch(source: Seq<char>, dest: Seq<char>, branch: Seq<char>)
    ensures
        ({
            let plan = clone_local_plan(source, dest, branch);
            let call = plan[1]->call;
            &&& plan.len() == 2
            &&& plan[0] == Stage::Locate("git"@)
            &&& plan[1] is Launch
            &&& call.program == "git"@
            &&& call.dir is None
            &&& call.env.len() == 0
            &&& call.streams == Streams::Capture
            &&& call.args == seq!["clone"@, "--branch"@, branch, "--single-branch"@, source, dest]
        }),
{
}

} // verus!
