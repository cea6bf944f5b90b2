//! Open files in the user's preferred editor.
use vstd::prelude::*;

use crate::error::{Error, Fault};
use crate::job::{stages, text_pairs, texts, Blame, Call, Failure, Invocation, Job, Stage, Step, Streams};
use crate::text::owned;

verus! {

/// The editor used when `$EDITOR` is not set.
pub open spec fn default_editor() -> Seq<char> {
    "vim"@
}

/// The editor to run: the value of `$EDITOR`, or vim when it has none.
pub open spec fn editor_name(var: Option<Seq<char>>) -> Seq<char> {
    match var {
        Some(e) => e,
        None => default_editor(),
    }
}

/// The plan of [`open`]: look the editor up, then run it on `path` in the terminal.
/// An unsuccessful exit reports `CommandFailed` with the editor as `cmd`.
pub open spec fn open_plan(var: Option<Seq<char>>, path: Seq<char>) -> Seq<Stage> {
    let editor = editor_name(var);
    seq![
        Stage::Locate(editor),
        Stage::Launch {
            keep: None,
            call: Call {
                program: editor,
                args: seq![path],
                env: seq![],
                dir: None,
                streams: Streams::Inherit,
            },
            failure: Blame::Report(
                Fault::CommandFailed { cmd: editor, detail: "failed to open "@ + path },
            ),
        },
    ]
}

/// Open a file in `$EDITOR` (falls back to vim); `editor` is the variable's value,
/// `None` when it is not set.
pub fn open(editor: Option<&str>, path: &str) -> (j: Job)
    ensures
        j.plan() == open_plan(
            match editor {
                Some(e) => Some(e@),
                None => None,
            },
            path@,
        ),
        j.at() == 0,
{
    let name: &str = match editor {
        Some(e) => e,
        None => "vim",
    };
    let call = Invocation {
        program: owned(name),
        args: vec![owned(path)],
        env: Vec::new(),
        dir: None,
        streams: Streams::Inherit,
    };
    assert(texts(call.args@) =~= seq![path@]);
    assert(text_pairs(call.env@) =~= seq![]);
    let failure = Failure::Report(
        Error::CommandFailed { cmd: owned(name), detail: owned("failed to open ").concat(path) },
    );
    let steps = vec![Step::Locate(owned(name)), Step::Launch { call, failure, keep: None }];
    assert(stages(steps@) =~= open_plan(
        match editor {
            Some(e) => Some(e@),
            None => None,
        },
        path@,
    ));
    Job::new(steps)
}

} // verus!

verus! {

/// Opening a file looks the editor up (`$EDITOR`, else vim), then launches it once on
/// that file alone, sharing the caller's terminal, with no extra variables.
pub proof fn open_launches_the_editor(var: Option<Seq<char>>, path: Seq<char>)
    ensures
        ({
            let plan = open_plan(var, path);
            let editor = match var {
                Some(e) => e,
                None => "vim"@,
            };
            &&& plan.len() == 2
            &&& plan[0] == Stage::Locate(editor)
            &&& plan[1] is Launch
            &&& plan[1]->call.program == editor
            &&& plan[1]->call.args == seq![path]
            &&& plan[1]->call.env.len() == 0
            &&& plan[1]->call.streams == Streams::Inherit
        }),
{
}

} // verus!
