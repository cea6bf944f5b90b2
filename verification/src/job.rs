//! Jobs: the plan of a shell operation, and the machine that walks it.
//!
//! Every operation of the library is a short script of steps. A step either looks a
//! program up on `$PATH`, probes whether a tmux session exists, or launches a
//! process. A [`Job`] hands out one [`Action`] at a time; whoever drives it performs
//! the action and answers with a [`Reply`]. The job decides from each reply whether
//! to stop (with the operation's result) or to go on with the next step.
use vstd::prelude::*;

use crate::error::{Error, Fault};
use crate::text::{last_lines, last_lines_text, lossy, owned, utf8_lossy};
use crate::tmux::{has_session, session_exists};

verus! {

/// How a launched process's standard streams are handled.
#[derive(Clone, Copy, Debug)]
pub enum Streams {
    /// stdout and stderr are collected and reported back.
    Capture,
    /// The process shares the caller's terminal; nothing is collected.
    Inherit,
    /// stdout and stderr are thrown away.
    Discard,
}

/// A process to launch.
#[derive(Debug)]
pub struct Invocation {
    pub program: String,
    pub args: Vec<String>,
    /// Variables added to the inherited environment, in order.
    pub env: Vec<(String, String)>,
    /// Working directory; `None` keeps the caller's.
    pub dir: Option<String>,
    pub streams: Streams,
}

/// What an [`Invocation`] launches, with its texts as character sequences.
pub struct Call {
    pub program: Seq<char>,
    pub args: Seq<Seq<char>>,
    pub env: Seq<(Seq<char>, Seq<char>)>,
    pub dir: Option<Seq<char>>,
    pub streams: Streams,
}

/// The texts of a list of strings.
pub open spec fn texts(v: Seq<String>) -> Seq<Seq<char>> {
    v.map_values(|s: String| s@)
}

/// The texts of a list of string pairs.
pub open spec fn text_pairs(v: Seq<(String, String)>) -> Seq<(Seq<char>, Seq<char>)> {
    v.map_values(|p: (String, String)| (p.0@, p.1@))
}

/// The texts of a list of borrowed strings.
pub open spec fn str_texts(v: Seq<&str>) -> Seq<Seq<char>> {
    v.map_values(|s: &str| s@)
}

/// The texts of a list of borrowed string pairs.
pub open spec fn str_pairs(v: Seq<(&str, &str)>) -> Seq<(Seq<char>, Seq<char>)> {
    v.map_values(|p: (&str, &str)| (p.0@, p.1@))
}

pub open spec fn opt_text(o: Option<String>) -> Option<Seq<char>> {
    match o {
        Some(s) => Some(s@),
        None => None,
    }
}

impl View for Invocation {
    type V = Call;

    open spec fn view(&self) -> Call {
        Call {
            program: self.program@,
            args: texts(self.args@),
            env: text_pairs(self.env@),
            dir: opt_text(self.dir),
            streams: self.streams,
        }
    }
}

/// Which error a launch reports when its process exits unsuccessfully.
#[derive(Debug)]
pub enum Failure {
    /// This error, whatever the process wrote.
    Report(Error),
    /// `CommandFailed` with this label as `cmd` and the process's stderr as `detail`.
    Stderr(String),
}

/// The content of a [`Failure`].
pub enum Blame {
    Report(Fault),
    Stderr(Seq<char>),
}

impl View for Failure {
    type V = Blame;

    open spec fn view(&self) -> Blame {
        match self {
            Failure::Report(e) => Blame::Report(e@),
            Failure::Stderr(label) => Blame::Stderr(label@),
        }
    }
}

/// One step of a job.
#[derive(Debug)]
pub enum Step {
    /// Look the program up on `$PATH`; stop with `CommandNotFound` if it is missing.
    Locate(String),
    /// Ask tmux whether `session` exists. When the answer equals `stop_when`, stop:
    /// with `stop` as the error if there is one, else successfully.
    Probe { session: String, stop_when: bool, stop: Option<Error> },
    /// Launch a process; when it exits unsuccessfully, stop with the error of `failure`.
    /// When this is the last step, its decoded stdout is the job's result, cut to its
    /// last `keep` lines if `keep` is given.
    Launch { call: Invocation, failure: Failure, keep: Option<usize> },
}

/// The content of a [`Step`].
pub enum Stage {
    Locate(Seq<char>),
    Probe { session: Seq<char>, stop_when: bool, stop: Option<Fault> },
    Launch { call: Call, failure: Blame, keep: Option<nat> },
}

pub open spec fn opt_fault(o: Option<Error>) -> Option<Fault> {
    match o {
        Some(e) => Some(e@),
        None => None,
    }
}

impl View for Step {
    type V = Stage;

    open spec fn view(&self) -> Stage {
        match self {
            Step::Locate(p) => Stage::Locate(p@),
            Step::Probe { session, stop_when, stop } => Stage::Probe {
                session: session@,
                stop_when: *stop_when,
                stop: opt_fault(*stop),
            },
            Step::Launch { call, failure, keep } => Stage::Launch {
                call: call@,
                failure: failure@,
                keep: match keep {
                    Some(n) => Some(*n as nat),
                    None => None,
                },
            },
        }
    }
}

/// The stages of a list of steps.
pub open spec fn stages(v: Seq<Step>) -> Seq<Stage> {
    v.map_values(|s: Step| s@)
}

/// What the driver of a job reports back after performing an action.
#[derive(Debug)]
pub enum Reply {
    /// The answer to `Action::Locate`: whether the program was found.
    Found(bool),
    /// The launched process exited; `success` is its exit status.
    Exited { success: bool, stdout: Vec<u8>, stderr: Vec<u8> },
    /// The process could not be launched or waited for; the I/O error's message.
    Failed(String),
}

/// The content of a [`Reply`].
pub enum Answer {
    Found(bool),
    Exited { success: bool, stdout: Seq<u8>, stderr: Seq<u8> },
    Failed(Seq<char>),
}

impl View for Reply {
    type V = Answer;

    open spec fn view(&self) -> Answer {
        match self {
            Reply::Found(b) => Answer::Found(*b),
            Reply::Exited { success, stdout, stderr } => Answer::Exited {
                success: *success,
                stdout: stdout@,
                stderr: stderr@,
            },
            Reply::Failed(m) => Answer::Failed(m@),
        }
    }
}

/// What a job asks its driver to do next.
#[derive(Debug)]
pub enum Action {
    /// Look this program up on `$PATH` and reply `Found`.
    Locate(String),
    /// Launch this process and reply `Exited` or `Failed`.
    Launch(Invocation),
    /// The job is over, with this result (the decoded stdout of its last launch).
    Done(Result<String, Error>),
}

/// The content of an [`Action`].
pub enum Request {
    Locate(Seq<char>),
    Launch(Call),
    Done(Result<Seq<char>, Fault>),
}

pub open spec fn result_view(r: Result<String, Error>) -> Result<Seq<char>, Fault> {
    match r {
        Ok(s) => Ok(s@),
        Err(e) => Err(e@),
    }
}

impl View for Action {
    type V = Request;

    open spec fn view(&self) -> Request {
        match self {
            Action::Locate(p) => Request::Locate(p@),
            Action::Launch(c) => Request::Launch(c@),
            Action::Done(r) => Request::Done(result_view(*r)),
        }
    }
}

/// The process that asks tmux whether `session` exists, with its output thrown away.
pub open spec fn probe_call(session: Seq<char>) -> Call {
    Call {
        program: "tmux"@,
        args: seq!["has-session"@, "-t"@, session],
        env: seq![],
        dir: None,
        streams: Streams::Discard,
    }
}

/// Whether a reply to the probe says that the session exists: only a successful
/// exit does; a launch that failed counts as "no".
pub open spec fn session_present(a: Answer) -> bool {
    a matches Answer::Exited { success: true, .. }
}

/// What a stage asks its driver to do.
pub open spec fn request(s: Stage) -> Request {
    match s {
        Stage::Locate(p) => Request::Locate(p),
        Stage::Probe { session, .. } => Request::Launch(probe_call(session)),
        Stage::Launch { call, .. } => Request::Launch(call),
    }
}

/// Whether an answer is of the kind that a stage asks for.
pub open spec fn fits(s: Stage, a: Answer) -> bool {
    match s {
        Stage::Locate(_) => a is Found,
        _ => !(a is Found),
    }
}

/// The error that a launch reports when its process exits unsuccessfully.
pub open spec fn blame(f: Blame, stderr: Seq<u8>) -> Fault {
    match f {
        Blame::Report(fault) => fault,
        Blame::Stderr(label) => Fault::CommandFailed { cmd: label, detail: utf8_lossy(stderr) },
    }
}

/// Whether a stage stops the job on this answer, and with which result.
pub open spec fn verdict(s: Stage, a: Answer) -> Option<Result<Seq<char>, Fault>> {
    match s {
        Stage::Locate(p) => if a == Answer::Found(true) {
            None
        } else {
            Some(Err(Fault::CommandNotFound(p)))
        },
        Stage::Probe { stop_when, stop, .. } => if session_present(a) == stop_when {
            match stop {
                Some(f) => Some(Err(f)),
                None => Some(Ok(Seq::<char>::empty())),
            }
        } else {
            None
        },
        Stage::Launch { failure, .. } => match a {
            Answer::Exited { success, stderr, .. } => if success {
                None
            } else {
                Some(Err(blame(failure, stderr)))
            },
            Answer::Failed(m) => Some(Err(Fault::Io(m))),
            // an answer of the wrong kind, which `Job::resume` does not accept
            Answer::Found(_) => Some(Err(Fault::Io(Seq::<char>::empty()))),
        },
    }
}

/// The result that a job gives when an answer lets its last stage pass: the decoded
/// stdout of a launch, cut to its last lines when the stage keeps only those.
pub open spec fn output(s: Stage, a: Answer) -> Seq<char> {
    match a {
        Answer::Exited { stdout, .. } => match s {
            Stage::Launch { keep: Some(n), .. } => last_lines(utf8_lossy(stdout), n),
            _ => utf8_lossy(stdout),
        },
        _ => Seq::<char>::empty(),
    }
}

/// The result of a job with these stages when its driver answers its actions with
/// `answers` in turn; `None` while it still waits for an answer.
pub open spec fn outcome(plan: Seq<Stage>, answers: Seq<Answer>) -> Option<
    Result<Seq<char>, Fault>,
>
    decreases answers.len(),
{
    if plan.len() == 0 {
        Some(Ok(Seq::<char>::empty()))
    } else if answers.len() == 0 {
        None
    } else {
        match verdict(plan[0], answers[0]) {
            Some(r) => Some(r),
            None => if plan.len() == 1 {
                Some(Ok(output(plan[0], answers[0])))
            } else {
                outcome(plan.drop_first(), answers.drop_first())
            },
        }
    }
}

/// The plan of a shell operation, and how far it has got.
#[derive(Debug)]
pub struct Job {
    steps: Vec<Step>,
    next: usize,
}

impl Job {
    /// The stages of the job.
    pub closed spec fn plan(&self) -> Seq<Stage> {
        stages(self.steps@)
    }

    /// The index of the stage whose answer the job waits for; the length of the plan
    /// once the job is over.
    pub closed spec fn at(&self) -> nat {
        self.next as nat
    }

    /// A job that runs `steps` from the first.
    pub fn new(steps: Vec<Step>) -> (j: Job)
        ensures
            j.plan() == stages(steps@),
            j.at() == 0,
    {
        Job { steps, next: 0 }
    }

    /// Whether the job is over.
    pub fn is_done(&self) -> (b: bool)
        ensures
            b == (self.at() >= self.plan().len()),
    {
        self.next >= self.steps.len()
    }

    /// Whether `reply` is of the kind that the job waits for.
    pub fn expects(&self, reply: &Reply) -> (b: bool)
        ensures
            b == (self.at() < self.plan().len() && fits(self.plan()[self.at() as int], reply@)),
    {
        if self.next >= self.steps.len() {
            return false;
        }
        let ghost s = self.steps@[self.next as int];
        assert(self.plan()[self.at() as int] == s@);
        match &self.steps[self.next] {
            Step::Locate(_) => matches!(reply, Reply::Found(_)),
            _ => !matches!(reply, Reply::Found(_)),
        }
    }

    /// The action of the step at `i`.
    fn request_at(&self, i: usize) -> (a: Action)
        requires
            i < self.plan().len(),
        ensures
            a@ == request(self.plan()[i as int]),
    {
        let ghost s = self.steps@[i as int];
        assert(self.plan()[i as int] == s@);
        match &self.steps[i] {
            Step::Locate(p) => Action::Locate(owned(p.as_str())),
            Step::Probe { session, .. } => Action::Launch(has_session(session.as_str())),
            Step::Launch { call, .. } => Action::Launch(call.duplicate()),
        }
    }

    /// The first action of a job that has not started.
    pub fn start(&self) -> (a: Action)
        requires
            self.at() == 0,
        ensures
            self.plan().len() == 0 ==> a@ == Request::Done(Ok(Seq::<char>::empty())),
            self.plan().len() > 0 ==> a@ == request(self.plan()[0]),
    {
        if self.steps.len() == 0 {
            Action::Done(Ok(String::new()))
        } else {
            self.request_at(0)
        }
    }

    /// Takes the driver's reply to the last action and returns the next one.
    pub fn resume(&mut self, reply: Reply) -> (a: Action)
        requires
            old(self).at() < old(self).plan().len(),
            fits(old(self).plan()[old(self).at() as int], reply@),
        ensures
            final(self).plan() == old(self).plan(),
            ({
                let s = old(self).plan()[old(self).at() as int];
                match verdict(s, reply@) {
                    Some(r) => a@ == Request::Done(r) && final(self).at() == final(self).plan().len(),
                    None => final(self).at() == old(self).at() + 1 && if final(self).at()
                        == final(self).plan().len() {
                        a@ == Request::Done(Ok(output(s, reply@)))
                    } else {
                        a@ == request(final(self).plan()[final(self).at() as int])
                    },
                }
            }),
            forall|rest: Seq<Answer>|
                #[trigger] outcome(old(self).plan().skip(old(self).at() as int), seq![reply@] + rest)
                    == if a@ is Done {
                    Some(a@->Done_0)
                } else {
                    outcome(final(self).plan().skip(final(self).at() as int), rest)
                },
    {
        proof {
            let plan = self.plan();
            let k = self.at() as int;
            assert forall|rest: Seq<Answer>| #[trigger]
                outcome(plan.skip(k), seq![reply@] + rest) == match verdict(plan[k], reply@) {
                    Some(r) => Some(r),
                    None => if k + 1 == plan.len() {
                        Some(Ok(output(plan[k], reply@)))
                    } else {
                        outcome(plan.skip(k + 1), rest)
                    },
                } by {
                let answers = seq![reply@] + rest;
                assert(answers[0] == reply@);
                assert(answers.drop_first() =~= rest);
                assert(plan.skip(k)[0] == plan[k]);
                assert(plan.skip(k).drop_first() =~= plan.skip(k + 1));
            }
        }
        let ghost s = self.steps@[self.next as int];
        assert(self.plan()[self.at() as int] == s@);
        let len = self.steps.len();
        let stop: Option<Result<String, Error>> = match &self.steps[self.next] {
            Step::Locate(p) => match &reply {
                Reply::Found(true) => None,
                _ => Some(Err(Error::CommandNotFound(owned(p.as_str())))),
            },
            Step::Probe { stop_when, stop, .. } => {
                let present = session_exists(&reply);
                if present == *stop_when {
                    match stop {
                        Some(e) => Some(Err(e.duplicate())),
                        None => Some(Ok(String::new())),
                    }
                } else {
                    None
                }
            },
            Step::Launch { failure, .. } => match &reply {
                Reply::Exited { success, stderr, .. } => if *success {
                    None
                } else {
                    match failure {
                        Failure::Report(e) => Some(Err(e.duplicate())),
                        Failure::Stderr(label) => Some(
                            Err(
                                Error::CommandFailed {
                                    cmd: owned(label.as_str()),
                                    detail: lossy(stderr.as_slice()),
                                },
                            ),
                        ),
                    }
                },
                Reply::Failed(m) => Some(Err(Error::Io(owned(m.as_str())))),
                Reply::Found(_) => Some(Err(Error::Io(String::new()))),
            },
        };
        match stop {
            Some(r) => {
                self.next = len;
                Action::Done(r)
            },
            None => {
                self.next = self.next + 1;
                if self.next == len {
                    let out = match &reply {
                        Reply::Exited { stdout, .. } => {
                            let text = lossy(stdout.as_slice());
                            match &self.steps[self.next - 1] {
                                Step::Launch { keep: Some(n), .. } => last_lines_text(
                                    text.as_str(),
                                    *n,
                                ),
                                _ => text,
                            }
                        },
                        _ => String::new(),
                    };
                    Action::Done(Ok(out))
                } else {
                    self.request_at(self.next)
                }
            },
        }
    }
}

impl Invocation {
    /// A copy of this invocation.
    pub fn duplicate(&self) -> (c: Invocation)
        ensures
            c@ == self@,
    {
        let mut args: Vec<String> = Vec::new();
        let n = self.args.len();
        for i in 0..n
            invariant
                n == self.args@.len(),
                args@.len() == i,
                forall|j: int| 0 <= j < i ==> #[trigger] args@[j]@ == self.args@[j]@,
        {
            args.push(owned(self.args[i].as_str()));
        }
        assert(texts(args@) =~= texts(self.args@));
        let mut env: Vec<(String, String)> = Vec::new();
        let m = self.env.len();
        for i in 0..m
            invariant
                m == self.env@.len(),
                env@.len() == i,
                forall|j: int|
                    0 <= j < i ==> (#[trigger] env@[j]).0@ == self.env@[j].0@ && env@[j].1@
                        == self.env@[j].1@,
        {
            let k = owned(self.env[i].0.as_str());
            let v = owned(self.env[i].1.as_str());
            env.push((k, v));
        }
        assert(text_pairs(env@) =~= text_pairs(self.env@));
        let dir = match &self.dir {
            Some(d) => Some(owned(d.as_str())),
            None => None,
        };
        Invocation { program: owned(self.program.as_str()), args, env, dir, streams: self.streams }
    }
}

} // verus!

verus! {

/// Owned copies of borrowed strings.
pub fn strings(v: &[&str]) -> (r: Vec<String>)
    ensures
        texts(r@) == str_texts(v@),
{
    let mut r: Vec<String> = Vec::new();
    let n = v.len();
    for i in 0..n
        invariant
            n == v@.len(),
            r@.len() == i,
            forall|j: int| 0 <= j < i ==> #[trigger] r@[j]@ == v@[j]@,
    {
        r.push(owned(v[i]));
    }
    assert(texts(r@) =~= str_texts(v@));
    r
}

/// Owned copies of borrowed string pairs.
pub fn string_pairs(v: &[(&str, &str)]) -> (r: Vec<(String, String)>)
    ensures
        text_pairs(r@) == str_pairs(v@),
{
    let mut r: Vec<(String, String)> = Vec::new();
    let n = v.len();
    for i in 0..n
        invariant
            n == v@.len(),
            r@.len() == i,
            forall|j: int|
                0 <= j < i ==> (#[trigger] r@[j]).0@ == v@[j].0@ && r@[j].1@ == v@[j].1@,
    {
        let (k, val) = v[i];
        r.push((owned(k), owned(val)));
    }
    assert(text_pairs(r@) =~= str_pairs(v@));
    r
}

/// The first text of a list, or the empty text.
pub open spec fn first_or_empty(v: Seq<Seq<char>>) -> Seq<char> {
    if v.len() > 0 {
        v[0]
    } else {
        Seq::<char>::empty()
    }
}

/// The first of a list of borrowed strings, or the empty string.
pub fn first_text<'a>(v: &[&'a str]) -> (s: &'a str)
    ensures
        s@ == first_or_empty(str_texts(v@)),
{
    if v.len() > 0 {
        v[0]
    } else {
        proof { reveal_strlit(""); }
        ""
    }
}

} // verus!

verus! {

/// A job stops at its first stage when that stage stops on the first answer, and
/// otherwise goes on with the rest of its plan and the rest of the answers.
pub proof fn outcome_first(plan: Seq<Stage>, a: Answer, rest: Seq<Answer>)
    requires
        plan.len() > 0,
    ensures
        outcome(plan, seq![a] + rest) == match verdict(plan[0], a) {
            Some(r) => Some(r),
            None => if plan.len() == 1 {
                Some(Ok(output(plan[0], a)))
            } else {
                outcome(plan.drop_first(), rest)
            },
        },
{
    assert((seq![a] + rest)[0] == a);
    assert((seq![a] + rest).drop_first() =~= rest);
}

/// A job that starts by looking up a program that is not there fails with
/// `CommandNotFound` for that program, whatever follows.
pub proof fn missing_program_fails(p: Seq<char>, rest: Seq<Stage>, answers: Seq<Answer>)
    ensures
        outcome(seq![Stage::Locate(p)] + rest, seq![Answer::Found(false)] + answers) == Some(
            Err::<Seq<char>, Fault>(Fault::CommandNotFound(p)),
        ),
{
    let plan = seq![Stage::Locate(p)] + rest;
    assert(plan[0] == Stage::Locate(p));
    outcome_first(plan, Answer::Found(false), answers);
}

/// A launch that could not be performed fails the job with `Io` and the I/O error's
/// message, whatever follows.
pub proof fn launch_error_fails(
    call: Call,
    failure: Blame,
    keep: Option<nat>,
    rest: Seq<Stage>,
    msg: Seq<char>,
    answers: Seq<Answer>,
)
    ensures
        outcome(
            seq![Stage::Launch { call, failure, keep }] + rest,
            seq![Answer::Failed(msg)] + answers,
        ) == Some(Err::<Seq<char>, Fault>(Fault::Io(msg))),
{
    let plan = seq![Stage::Launch { call, failure, keep }] + rest;
    assert(plan[0] == Stage::Launch { call, failure, keep });
    outcome_first(plan, Answer::Failed(msg), answers);
}

/// Every job ends: once each of its stages has been answered, its result is known.
pub proof fn answered_job_ends(plan: Seq<Stage>, answers: Seq<Answer>)
    requires
        answers.len() >= plan.len(),
    ensures
        outcome(plan, answers) is Some,
    decreases plan.len(),
{
    if plan.len() > 1 {
        answered_job_ends(plan.drop_first(), answers.drop_first());
    }
}

/// A job that looks a program up and then launches one process: when the program
/// is found, the launch's answer decides the result.
pub proof fn found_then_launched(p: Seq<char>, launch: Stage, a: Answer)
    requires
        launch is Launch,
    ensures
        outcome(seq![Stage::Locate(p), launch], seq![Answer::Found(true), a]) == match verdict(
            launch,
            a,
        ) {
            Some(r) => Some(r),
            None => Some(Ok(output(launch, a))),
        },
{
    let plan = seq![Stage::Locate(p), launch];
    assert(seq![Answer::Found(true), a] =~= seq![Answer::Found(true)] + seq![a]);
    outcome_first(plan, Answer::Found(true), seq![a]);
    assert(plan.drop_first() =~= seq![launch]);
    assert(seq![a] =~= seq![a] + Seq::<Answer>::empty());
    outcome_first(seq![launch], a, Seq::<Answer>::empty());
}

} // verus!
