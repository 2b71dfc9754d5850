//! Settings of the two line sources a script runs from: a terminal prompt
//! and a file. Opening them is left to the caller.
use vstd::prelude::*;
use vstd::string::*;
use crate::text::str_eq;
use crate::words::{rest_of, Words};

verus! {

/// Settings for reading lines from a terminal.
pub struct TTYLinesBuilder {
    /// Shown before each line.
    pub prompt_name: String,
    /// Lines that, trimmed, end the input.
    pub exit_terms: Vec<String>,
    /// Where the history is kept, if anywhere.
    pub history_filename: Option<String>,
}

impl TTYLinesBuilder {
    /// Reads from a terminal with prompt `prompt`, no exit terms and no
    /// history.
    pub fn prompt(prompt: &str) -> (r: TTYLinesBuilder)
        ensures
            r.prompt_name@ == prompt@,
            r.exit_terms@.len() == 0,
            r.history_filename is None,
    {
        TTYLinesBuilder { prompt_name: prompt.to_owned(), exit_terms: Vec::new(), history_filename: None }
    }

    /// Sets the lines that end the input.
    pub fn exit_on(self, exit_terms: &[&str]) -> (r: TTYLinesBuilder)
        ensures
            r.prompt_name == self.prompt_name,
            r.history_filename == self.history_filename,
            r.exit_terms@.len() == exit_terms@.len(),
            forall|i: int| 0 <= i < exit_terms@.len() ==> #[trigger] r.exit_terms@[i]@ == exit_terms@[i]@,
    {
        let mut terms: Vec<String> = Vec::new();
        let mut i: usize = 0;
        while i < exit_terms.len()
            invariant
                i <= exit_terms@.len(),
                terms@.len() == i,
                forall|k: int| 0 <= k < i ==> #[trigger] terms@[k]@ == exit_terms@[k]@,
            decreases exit_terms@.len() - i,
        {
            terms.push(exit_terms[i].to_owned());
            i = i + 1;
        }
        TTYLinesBuilder {
            prompt_name: self.prompt_name,
            exit_terms: terms,
            history_filename: self.history_filename,
        }
    }

    /// Keeps the history in the file `filename`.
    pub fn history(self, filename: &str) -> (r: TTYLinesBuilder)
        ensures
            r.prompt_name == self.prompt_name,
            r.exit_terms == self.exit_terms,
            r.history_filename matches Some(f) && f@ == filename@,
    {
        TTYLinesBuilder {
            prompt_name: self.prompt_name,
            exit_terms: self.exit_terms,
            history_filename: Some(filename.to_owned()),
        }
    }

    /// Whether `line`, trimmed, is one of the exit terms.
    pub fn is_exit_term(&self, line: &str) -> (r: bool)
        ensures
            r == exists|i: int|
                0 <= i < self.exit_terms@.len() && rest_of(line@) == Some(
                    #[trigger] self.exit_terms@[i]@,
                ),
    {
        let mut words = Words::from(line);
        let trimmed = match words.rest() {
            None => {
                assert forall|i: int| 0 <= i < self.exit_terms@.len() implies rest_of(line@) != Some(
                    #[trigger] self.exit_terms@[i]@,
                ) by {}
                return false;
            },
            Some(t) => t,
        };
        let mut i: usize = 0;
        while i < self.exit_terms.len()
            invariant
                i <= self.exit_terms@.len(),
                rest_of(line@) == Some(trimmed@),
                forall|k: int| 0 <= k < i ==> #[trigger] self.exit_terms@[k]@ != trimmed@,
            decreases self.exit_terms@.len() - i,
        {
            if str_eq(self.exit_terms[i].as_str(), trimmed.as_str()) {
                return true;
            }
            i = i + 1;
        }
        false
    }
}

/// Settings for reading lines from a file.
pub struct FileLinesBuilder {
    /// The file to read.
    pub filename: String,
    /// Whether placeholders are resolved against the process environment;
    /// without it none is set.
    pub replace_variables: bool,
}

impl FileLinesBuilder {
    /// Reads the file `path`, with placeholders left unset.
    pub fn file(path: &str) -> (r: FileLinesBuilder)
        ensures
            r.filename@ == path@,
            !r.replace_variables,
    {
        FileLinesBuilder { filename: path.to_owned(), replace_variables: false }
    }

    /// Resolves placeholders against the process environment.
    pub fn replace_variables(self) -> (r: FileLinesBuilder)
        ensures
            r.filename == self.filename,
            r.replace_variables,
    {
        FileLinesBuilder { filename: self.filename, replace_variables: true }
    }
}

} // verus!
