//! The library's error type.
use vstd::prelude::*;

use crate::text::owned;

verus! {

/// Shell operation errors.
#[derive(Debug)]
pub enum Error {
    CommandNotFound(String),
    CommandFailed { cmd: String, detail: String },
    Tmux(String),
    Io(String),
}

/// What an [`Error`] says, with its texts as character sequences.
pub enum Fault {
    CommandNotFound(Seq<char>),
    CommandFailed { cmd: Seq<char>, detail: Seq<char> },
    Tmux(Seq<char>),
    Io(Seq<char>),
}

impl View for Error {
    type V = Fault;

    open spec fn view(&self) -> Fault {
        match self {
            Error::CommandNotFound(c) => Fault::CommandNotFound(c@),
            Error::CommandFailed { cmd, detail } => Fault::CommandFailed { cmd: cmd@, detail: detail@ },
            Error::Tmux(m) => Fault::Tmux(m@),
            Error::Io(m) => Fault::Io(m@),
        }
    }
}

/// The message that an error with this content displays.
pub open spec fn display(f: Fault) -> Seq<char> {
    match f {
        Fault::CommandNotFound(cmd) => "command not found: "@ + cmd,
        Fault::CommandFailed { cmd, detail } => "command failed: "@ + cmd + " \u{2014} "@ + detail,
        Fault::Tmux(msg) => "tmux error: "@ + msg,
        Fault::Io(msg) => "io error: "@ + msg,
    }
}

impl Error {
    /// The error's message, as `Display` shows it.
    pub fn to_string(&self) -> (s: String)
        ensures
            s@ == display(self@),
    {
        match self {
            Error::CommandNotFound(cmd) => String::from_str("command not found: ").concat(cmd.as_str()),
            Error::CommandFailed { cmd, detail } => {
                let head = String::from_str("command failed: ").concat(cmd.as_str());
                head.concat(" \u{2014} ").concat(detail.as_str())
            },
            Error::Tmux(msg) => String::from_str("tmux error: ").concat(msg.as_str()),
            Error::Io(msg) => String::from_str("io error: ").concat(msg.as_str()),
        }
    }

    /// A copy of this error.
    pub fn duplicate(&self) -> (e: Error)
        ensures
            e@ == self@,
    {
        match self {
            Error::CommandNotFound(cmd) => Error::CommandNotFound(owned(cmd.as_str())),
            Error::CommandFailed { cmd, detail } => Error::CommandFailed {
                cmd: owned(cmd.as_str()),
                detail: owned(detail.as_str()),
            },
            Error::Tmux(msg) => Error::Tmux(owned(msg.as_str())),
            Error::Io(msg) => Error::Io(owned(msg.as_str())),
        }
    }
}

} // verus!
