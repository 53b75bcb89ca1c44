//! The generic command-result interpreter.
//!
//! A finished command is a triple of exit status, stdout and stderr. Nothing
//! here decides whether a non-zero exit is an error: the caller interprets
//! the triple, and only the unconditional conversion below treats every
//! non-zero exit as fatal.

use vstd::prelude::*;

verus! {

use vstd::string::StringExecFns;

/// A command that could not be run, or one that ran and failed where any
/// failure is fatal.
#[derive(Debug)]
pub enum Error {
    Raw(RawCommandOutput),
    FailedToExecute(String),
}

/// A raw result together with the value it was interpreted to.
#[derive(Debug)]
pub struct CommandOutput<T> {
    pub raw: RawCommandOutput,
    pub interpreted_to: T,
}

/// What a finished command left behind, uninterpreted.
#[derive(Debug)]
pub struct RawCommandOutput {
    pub status: i32,
    pub stdout: String,
    pub stderr: String,
}

impl RawCommandOutput {
    /// A command succeeded exactly when it exited with status zero.
    pub fn success(&self) -> (r: bool)
        ensures
            r == (self.status == 0),
    {
        self.status == 0
    }

    /// Pairs this raw result with an already-computed interpretation.
    pub fn interpret_to<T>(self, item: T) -> (r: Result<CommandOutput<T>, Error>)
        ensures
            r matches Ok(out) && out.raw == self && out.interpreted_to == item,
    {
        Ok(CommandOutput { raw: self, interpreted_to: item })
    }

    /// Treats any non-zero exit as fatal, keeping the raw result either way.
    pub fn interpret_unit(self) -> (r: Result<CommandOutput<()>, Error>)
        ensures
            self.status == 0 ==> (r matches Ok(out) && out.raw == self),
            self.status != 0 ==> (r matches Err(e) && e matches Error::Raw(raw) && raw == self),
    {
        if self.status == 0 {
            Ok(CommandOutput { raw: self, interpreted_to: () })
        } else {
            Err(Error::Raw(self))
        }
    }
}

impl Error {
    /// The text a user sees for this error: a failed command shows its
    /// stderr, a command that could not start names the underlying fault.
    pub open spec fn message_view(&self) -> Seq<char> {
        match self {
            Error::Raw(raw) => raw.stderr@,
            Error::FailedToExecute(m) => "Failed to execute command: "@ + m@,
        }
    }

    pub fn message(&self) -> (m: String)
        ensures
            m@ == self.message_view(),
    {
        match self {
            Error::Raw(raw) => raw.stderr.clone(),
            Error::FailedToExecute(err) => {
                let mut m = "Failed to execute command: ".to_owned();
                m.append(err.as_str());
                m
            },
        }
    }
}

} // verus!
