//! The decisions of a script run that span lines: the on-error mode and
//! what to do with each parsed line. Performing the steps is the caller's
//! part.
use vstd::prelude::*;
use crate::command::{OnError, TransipCommand};
use crate::error::Error;
use crate::words::{rest_of, Words};

verus! {

/// What the caller does next with a line.
#[derive(Clone, Copy, Debug, PartialEq, Eq)]
pub enum Step {
    /// Nothing: a blank line, a comment or a change of mode.
    Skip,
    /// Wait this many seconds.
    Wait(u64),
    /// Hand the command to the executor.
    Run,
    /// Report the failure and go on with the next line.
    Report,
    /// Report the failure and stop the run.
    ReportAndStop,
}

/// Whether `line` holds nothing but whitespace.
pub fn is_blank(line: &str) -> (r: bool)
    ensures
        r == (rest_of(line@) is None),
{
    let mut words = Words::from(line);
    words.rest().is_none()
}

/// State carried from one line of a script to the next.
pub struct Session {
    /// What happens after a failing line; a run starts with `Print`.
    pub on_error: OnError,
}

/// What a failure leads to under mode `m`.
pub open spec fn failure_step(m: OnError) -> Step {
    match m {
        OnError::Print => Step::Report,
        OnError::Exit => Step::ReportAndStop,
    }
}

impl Session {
    /// A run that reports failures and goes on.
    pub fn new() -> (s: Session)
        ensures
            s.on_error == OnError::Print,
    {
        Session { on_error: OnError::Print }
    }

    /// Whether a failure stops the run.
    pub fn exit_on_error(&self) -> (r: bool)
        ensures
            r == (self.on_error == OnError::Exit),
    {
        match self.on_error {
            OnError::Exit => true,
            OnError::Print => false,
        }
    }

    /// What a failure, of parsing or of running a command, leads to.
    pub fn failed(&self) -> (r: Step)
        ensures
            r == failure_step(self.on_error),
    {
        if self.exit_on_error() {
            Step::ReportAndStop
        } else {
            Step::Report
        }
    }

    /// What to do with the outcome of parsing a line; an `onerror` command
    /// changes the mode and nothing else does.
    pub fn step(&mut self, parsed: &Result<TransipCommand, Error>) -> (r: Step)
        ensures
            match parsed {
                Ok(TransipCommand::OnError(m)) => r == Step::Skip && final(self).on_error == *m,
                Ok(c) => final(self).on_error == old(self).on_error && r == match c {
                    TransipCommand::Comment(_) => Step::Skip,
                    TransipCommand::Sleep(n) => Step::Wait(*n),
                    _ => Step::Run,
                },
                Err(_) => final(self).on_error == old(self).on_error && r == failure_step(
                    old(self).on_error,
                ),
            },
    {
        match parsed {
            Ok(TransipCommand::OnError(m)) => {
                self.on_error = *m;
                Step::Skip
            },
            Ok(TransipCommand::Comment(_)) => Step::Skip,
            Ok(TransipCommand::Sleep(n)) => Step::Wait(*n),
            Ok(_) => Step::Run,
            Err(_) => self.failed(),
        }
    }
}

} // verus!
