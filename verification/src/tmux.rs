//! Tmux session management.
use vstd::prelude::*;

use crate::error::{Error, Fault};
use crate::job::{
    outcome, outcome_first, probe_call, session_present, stages, text_pairs, texts, Answer, Blame,
    Call, Failure, Invocation, Job, Reply, Stage, Step, Streams,
};
use crate::text::{decimal, decimal_text, join3, last_lines, owned, utf8_lossy};

verus! {

/// A tmux process with these arguments and no extra environment.
pub open spec fn tmux_call(args: Seq<Seq<char>>, streams: Streams) -> Call {
    Call { program: "tmux"@, args, env: seq![], dir: None, streams }
}

/// The error that an operation on a missing session reports.
pub open spec fn missing(name: Seq<char>) -> Fault {
    Fault::Tmux("session '"@ + name + "' does not exist"@)
}

/// The stages that look tmux up and stop with [`missing`] unless the session exists.
pub open spec fn present_plan(name: Seq<char>) -> Seq<Stage> {
    seq![
        Stage::Locate("tmux"@),
        Stage::Probe { session: name, stop_when: false, stop: Some(missing(name)) },
    ]
}

/// The plan of [`send_keys`]: type `keys` followed by Enter into the session.
pub open spec fn send_keys_plan(name: Seq<char>, keys: Seq<char>) -> Seq<Stage> {
    present_plan(name).push(
        Stage::Launch {
            keep: None,
            call: tmux_call(seq!["send-keys"@, "-t"@, name, keys, "Enter"@], Streams::Inherit),
            failure: Blame::Report(Fault::Tmux("failed to send keys to session '"@ + name + "'"@)),
        },
    )
}

/// The plan of [`new_session`]: refuse an existing session, create it detached, keep
/// it after its command exits (`remain-on-exit on`), then send it the command.
pub open spec fn new_session_plan(name: Seq<char>, cmd: Seq<char>) -> Seq<Stage> {
    seq![
        Stage::Locate("tmux"@),
        Stage::Probe {
            session: name,
            stop_when: true,
            stop: Some(Fault::Tmux("session '"@ + name + "' already exists"@)),
        },
        Stage::Launch {
            keep: None,
            call: tmux_call(seq!["new-session"@, "-d"@, "-s"@, name], Streams::Inherit),
            failure: Blame::Report(Fault::Tmux("failed to create session '"@ + name + "'"@)),
        },
        Stage::Launch {
            keep: None,
            call: tmux_call(
                seq!["set-option"@, "-t"@, name, "remain-on-exit"@, "on"@],
                Streams::Inherit,
            ),
            failure: Blame::Report(Fault::Tmux("failed to set remain-on-exit option"@)),
        },
    ] + send_keys_plan(name, cmd)
}

/// The plan of [`kill_session`]: a session that does not exist ends the job successfully.
pub open spec fn kill_session_plan(name: Seq<char>) -> Seq<Stage> {
    seq![
        Stage::Locate("tmux"@),
        Stage::Probe { session: name, stop_when: false, stop: None },
        Stage::Launch {
            keep: None,
            call: tmux_call(seq!["kill-session"@, "-t"@, name], Streams::Inherit),
            failure: Blame::Report(Fault::Tmux("failed to kill session '"@ + name + "'"@)),
        },
    ]
}

/// The plan of [`attach`].
pub open spec fn attach_plan(name: Seq<char>) -> Seq<Stage> {
    present_plan(name).push(
        Stage::Launch {
            keep: None,
            call: tmux_call(seq!["attach"@, "-t"@, name], Streams::Inherit),
            failure: Blame::Report(Fault::Tmux("failed to attach to session '"@ + name + "'"@)),
        },
    )
}

/// The arguments of `tmux capture-pane`: from `lines` lines back when given.
pub open spec fn capture_args(name: Seq<char>, lines: Option<nat>) -> Seq<Seq<char>> {
    seq!["capture-pane"@, "-t"@, name, "-p"@] + match lines {
        Some(n) => seq!["-S"@, "-"@ + decimal(n)],
        None => Seq::<Seq<char>>::empty(),
    }
}

/// The plan of [`capture_pane`]: its result is the pane's decoded text, cut to the
/// last `lines` lines when `lines` is given (tmux prints that many lines of history and
/// then every visible line, so the text is cut here).
pub open spec fn capture_pane_plan(name: Seq<char>, lines: Option<nat>) -> Seq<Stage> {
    present_plan(name).push(
        Stage::Launch {
            keep: lines,
            call: tmux_call(capture_args(name, lines), Streams::Capture),
            failure: Blame::Report(
                Fault::Tmux("failed to capture pane from session '"@ + name + "'"@),
            ),
        },
    )
}

/// Check if a tmux session exists: the process to launch, whose successful exit
/// means yes (see [`session_exists`]).
pub fn has_session(name: &str) -> (c: Invocation)
    ensures
        c@ == probe_call(name@),
{
    let args = vec![owned("has-session"), owned("-t"), owned(name)];
    let c = Invocation {
        program: owned("tmux"),
        args,
        env: Vec::new(),
        dir: None,
        streams: Streams::Discard,
    };
    assert(texts(c.args@) =~= seq!["has-session"@, "-t"@, name@]);
    assert(text_pairs(c.env@) =~= seq![]);
    c
}

/// Whether the reply to [`has_session`]'s process says that the session exists: only
/// a successful exit does, and a process that could not be launched means no.
pub fn session_exists(reply: &Reply) -> (b: bool)
    ensures
        b == session_present(reply@),
{
    matches!(reply, Reply::Exited { success: true, .. })
}

/// A tmux launch that reports `failure` when it fails and whose result is its
/// output in full.
fn tmux_step(args: Vec<String>, streams: Streams, failure: Error) -> (s: Step)
    ensures
        s@ == (Stage::Launch {
            keep: None,
            call: tmux_call(texts(args@), streams),
            failure: Blame::Report(failure@),
        }),
{
    let call = Invocation { program: owned("tmux"), args, env: Vec::new(), dir: None, streams };
    assert(text_pairs(call.env@) =~= seq![]);
    Step::Launch { call, failure: Failure::Report(failure), keep: None }
}

/// `Tmux(before + name + after)`.
fn tmux_error(before: &str, name: &str, after: &str) -> (e: Error)
    ensures
        e@ == Fault::Tmux(before@ + name@ + after@),
{
    Error::Tmux(join3(before, name, after))
}

/// The first two steps of [`present_plan`].
fn present_steps(name: &str) -> (v: Vec<Step>)
    ensures
        stages(v@) == present_plan(name@),
{
    let v = vec![
        Step::Locate(owned("tmux")),
        Step::Probe {
            session: owned(name),
            stop_when: false,
            stop: Some(tmux_error("session '", name, "' does not exist")),
        },
    ];
    assert(stages(v@) =~= present_plan(name@));
    v
}

/// The steps of [`send_keys_plan`].
fn send_keys_steps(name: &str, keys: &str) -> (v: Vec<Step>)
    ensures
        stages(v@) == send_keys_plan(name@, keys@),
{
    let mut v = present_steps(name);
    let args = vec![owned("send-keys"), owned("-t"), owned(name), owned(keys), owned("Enter")];
    assert(texts(args@) =~= seq!["send-keys"@, "-t"@, name@, keys@, "Enter"@]);
    let ghost before = v@;
    v.push(tmux_step(args, Streams::Inherit, tmux_error("failed to send keys to session '", name, "'")));
    assert(stages(v@) =~= stages(before).push(v@.last()@));
    v
}

/// Create a new detached tmux session and run a command in it.
///
/// The session is created with `remain-on-exit on` so it persists
/// even after the command exits.
pub fn new_session(name: &str, cmd: &str) -> (j: Job)
    ensures
        j.plan() == new_session_plan(name@, cmd@),
        j.at() == 0,
{
    let create = vec![owned("new-session"), owned("-d"), owned("-s"), owned(name)];
    assert(texts(create@) =~= seq!["new-session"@, "-d"@, "-s"@, name@]);
    let remain = vec![owned("set-option"), owned("-t"), owned(name), owned("remain-on-exit"), owned("on")];
    assert(texts(remain@) =~= seq!["set-option"@, "-t"@, name@, "remain-on-exit"@, "on"@]);
    let mut v = vec![
        Step::Locate(owned("tmux")),
        Step::Probe {
            session: owned(name),
            stop_when: true,
            stop: Some(tmux_error("session '", name, "' already exists")),
        },
        tmux_step(create, Streams::Inherit, tmux_error("failed to create session '", name, "'")),
        tmux_step(remain, Streams::Inherit, Error::Tmux(owned("failed to set remain-on-exit option"))),
    ];
    let ghost head = v@;
    let mut rest = send_keys_steps(name, cmd);
    let ghost tail = rest@;
    v.append(&mut rest);
    assert(stages(v@) =~= stages(head) + stages(tail));
    assert(stages(v@) =~= new_session_plan(name@, cmd@));
    Job::new(v)
}

/// Kill a tmux session. Idempotent: the job ends successfully if it is already gone.
pub fn kill_session(name: &str) -> (j: Job)
    ensures
        j.plan() == kill_session_plan(name@),
        j.at() == 0,
{
    let args = vec![owned("kill-session"), owned("-t"), owned(name)];
    assert(texts(args@) =~= seq!["kill-session"@, "-t"@, name@]);
    let v = vec![
        Step::Locate(owned("tmux")),
        Step::Probe { session: owned(name), stop_when: false, stop: None },
        tmux_step(args, Streams::Inherit, tmux_error("failed to kill session '", name, "'")),
    ];
    assert(stages(v@) =~= kill_session_plan(name@));
    Job::new(v)
}

/// Attach to a tmux session (takes over the terminal).
pub fn attach(name: &str) -> (j: Job)
    ensures
        j.plan() == attach_plan(name@),
        j.at() == 0,
{
    let mut v = present_steps(name);
    let args = vec![owned("attach"), owned("-t"), owned(name)];
    assert(texts(args@) =~= seq!["attach"@, "-t"@, name@]);
    let ghost before = v@;
    v.push(tmux_step(args, Streams::Inherit, tmux_error("failed to attach to session '", name, "'")));
    assert(stages(v@) =~= stages(before).push(v@.last()@));
    Job::new(v)
}

/// Send keys followed by Enter to a tmux session.
pub fn send_keys(name: &str, keys: &str) -> (j: Job)
    ensures
        j.plan() == send_keys_plan(name@, keys@),
        j.at() == 0,
{
    Job::new(send_keys_steps(name, keys))
}

/// Capture output from a tmux pane.
///
/// The job's result is the last `lines` lines of output, or all visible lines if None.
/// tmux is asked for `lines` lines of history, and the capture is cut to its last
/// `lines` lines.
pub fn capture_pane(name: &str, lines: Option<usize>) -> (j: Job)
    ensures
        j.plan() == capture_pane_plan(
            name@,
            match lines {
                Some(n) => Some(n as nat),
                None => None,
            },
        ),
        j.at() == 0,
{
    let mut args = vec![owned("capture-pane"), owned("-t"), owned(name), owned("-p")];
    let ghost spec_lines: Option<nat> = match lines {
        Some(n) => Some(n as nat),
        None => None,
    };
    match lines {
        Some(n) => {
            let start = owned("-").concat(decimal_text(n).as_str());
            args.push(owned("-S"));
            args.push(start);
        },
        None => {},
    }
    assert(texts(args@) =~= capture_args(name@, spec_lines));
    let mut v = present_steps(name);
    let ghost before = v@;
    let call = Invocation {
        program: owned("tmux"),
        args,
        env: Vec::new(),
        dir: None,
        streams: Streams::Capture,
    };
    assert(text_pairs(call.env@) =~= seq![]);
    v.push(
        Step::Launch {
            call,
            failure: Failure::Report(
                tmux_error("failed to capture pane from session '", name, "'"),
            ),
            keep: lines,
        },
    );
    assert(stages(v@) =~= stages(before).push(v@.last()@));
    assert(stages(v@) =~= capture_pane_plan(name@, spec_lines));
    Job::new(v)
}

} // verus!

verus! {

/// The answers `Found(true)` then `probe` followed by `rest`.
pub open spec fn after_probe(probe: Answer, rest: Seq<Answer>) -> Seq<Answer> {
    seq![Answer::Found(true), probe] + rest
}

/// Walks the first two stages of `plan`, a tmux look-up and a probe, that stops on `probe`.
proof fn stops_at_probe(plan: Seq<Stage>, probe: Answer, rest: Seq<Answer>)
    requires
        plan.len() > 2,
        plan[0] == Stage::Locate("tmux"@),
        plan[1] is Probe,
    ensures
        outcome(plan, after_probe(probe, rest)) == match crate::job::verdict(plan[1], probe) {
            Some(r) => Some(r),
            None => outcome(plan.drop_first().drop_first(), rest),
        },
{
    assert(after_probe(probe, rest) =~= seq![Answer::Found(true)] + (seq![probe] + rest));
    outcome_first(plan, Answer::Found(true), seq![probe] + rest);
    assert(plan.drop_first()[0] == plan[1]);
    outcome_first(plan.drop_first(), probe, rest);
}

/// Killing a session is idempotent: when tmux is there but the session is not, the
/// job succeeds without launching `kill-session`.
pub proof fn kill_session_idempotent(name: Seq<char>, probe: Answer, rest: Seq<Answer>)
    requires
        !session_present(probe),
    ensures
        outcome(kill_session_plan(name), after_probe(probe, rest)) == Some(
            Ok::<Seq<char>, Fault>(Seq::<char>::empty()),
        ),
{
    stops_at_probe(kill_session_plan(name), probe, rest);
}

/// Creating a session that already exists fails with "session '<name>' already
/// exists", before any session is created.
pub proof fn new_session_refuses_existing(
    name: Seq<char>,
    cmd: Seq<char>,
    probe: Answer,
    rest: Seq<Answer>,
)
    requires
        session_present(probe),
    ensures
        outcome(new_session_plan(name, cmd), after_probe(probe, rest)) == Some(
            Err::<Seq<char>, Fault>(Fault::Tmux("session '"@ + name + "' already exists"@)),
        ),
{
    stops_at_probe(new_session_plan(name, cmd), probe, rest);
}

/// Sending keys to, attaching to or capturing from a session that does not exist
/// fails with "session '<name>' does not exist", before anything is launched in it.
pub proof fn missing_session_fails(
    name: Seq<char>,
    keys: Seq<char>,
    lines: Option<nat>,
    probe: Answer,
    rest: Seq<Answer>,
)
    requires
        !session_present(probe),
    ensures
        outcome(send_keys_plan(name, keys), after_probe(probe, rest)) == Some(
            Err::<Seq<char>, Fault>(missing(name)),
        ),
        outcome(attach_plan(name), after_probe(probe, rest)) == Some(
            Err::<Seq<char>, Fault>(missing(name)),
        ),
        outcome(capture_pane_plan(name, lines), after_probe(probe, rest)) == Some(
            Err::<Seq<char>, Fault>(missing(name)),
        ),
{
    stops_at_probe(send_keys_plan(name, keys), probe, rest);
    stops_at_probe(attach_plan(name), probe, rest);
    stops_at_probe(capture_pane_plan(name, lines), probe, rest);
}

/// Capturing a session that exists gives the pane's decoded text: its last `n`
/// lines when `lines` is `Some(n)`, all of it when `lines` is `None`.
pub proof fn capture_pane_gives_last_lines(
    name: Seq<char>,
    lines: Option<nat>,
    probe: Answer,
    stdout: Seq<u8>,
    stderr: Seq<u8>,
)
    requires
        session_present(probe),
    ensures
        outcome(
            capture_pane_plan(name, lines),
            after_probe(probe, seq![Answer::Exited { success: true, stdout, stderr }]),
        ) == Some(
            Ok::<Seq<char>, Fault>(
                match lines {
                    Some(n) => last_lines(utf8_lossy(stdout), n),
                    None => utf8_lossy(stdout),
                },
            ),
        ),
{
    let plan = capture_pane_plan(name, lines);
    let exit = Answer::Exited { success: true, stdout, stderr };
    stops_at_probe(plan, probe, seq![exit]);
    let last = plan.drop_first().drop_first();
    assert(last =~= seq![plan[2]]);
    assert(seq![exit] =~= seq![exit] + Seq::<Answer>::empty());
    outcome_first(last, exit, Seq::<Answer>::empty());
}

} // verus!

verus! {

/// How the tmux operations treat the terminal: the existence probe is silent; the
/// commands that create, configure, kill, type into and attach to a session share the
/// caller's terminal (attaching takes it over); capturing collects the pane's text, cut
/// to `lines` lines when given. No tmux launch adds variables or changes directory.
pub proof fn tmux_launch_streams(
    name: Seq<char>,
    cmd: Seq<char>,
    keys: Seq<char>,
    lines: Option<nat>,
)
    ensures
        probe_call(name).streams == Streams::Discard,
        probe_call(name).program == "tmux"@,
        probe_call(name).env.len() == 0,
        ({
            let p = attach_plan(name);
            &&& p.len() == 3
            &&& p[2] is Launch
            &&& p[2]->call.program == "tmux"@
            &&& p[2]->call.args == seq!["attach"@, "-t"@, name]
            &&& p[2]->call.streams == Streams::Inherit
            &&& p[2]->call.env.len() == 0
            &&& p[2]->call.dir is None
        }),
        ({
            let p = kill_session_plan(name);
            &&& p.len() == 3
            &&& p[2] is Launch
            &&& p[2]->call.args == seq!["kill-session"@, "-t"@, name]
            &&& p[2]->call.streams == Streams::Inherit
            &&& p[2]->call.env.len() == 0
        }),
        ({
            let p = send_keys_plan(name, keys);
            &&& p.len() == 3
            &&& p[2] is Launch
            &&& p[2]->call.args == seq!["send-keys"@, "-t"@, name, keys, "Enter"@]
            &&& p[2]->call.streams == Streams::Inherit
            &&& p[2]->call.env.len() == 0
        }),
        ({
            let p = new_session_plan(name, cmd);
            &&& p.len() == 7
            &&& p[2] is Launch && p[3] is Launch && p[6] is Launch
            &&& p[2]->call.args == seq!["new-session"@, "-d"@, "-s"@, name]
            &&& p[3]->call.args == seq!["set-option"@, "-t"@, name, "remain-on-exit"@, "on"@]
            &&& p[6]->call.args == seq!["send-keys"@, "-t"@, name, cmd, "Enter"@]
            &&& p[2]->call.streams == Streams::Inherit
            &&& p[3]->call.streams == Streams::Inherit
            &&& p[6]->call.streams == Streams::Inherit
        }),
        ({
            let p = capture_pane_plan(name, lines);
            &&& p.len() == 3
            &&& p[2] is Launch
            &&& p[2]->call.streams == Streams::Capture
            &&& p[2]->call.args.subrange(0, 4) == seq!["capture-pane"@, "-t"@, name, "-p"@]
            &&& p[2]->keep == lines
            &&& p[2]->call.env.len() == 0
        }),
{
    let p = capture_pane_plan(name, lines);
    assert(p[2]->call.args.subrange(0, 4) =~= seq!["capture-pane"@, "-t"@, name, "-p"@]);
}

} // verus!
