//! The classified parse errors.
use vstd::prelude::*;

verus! {

/// Why a line did not parse.
#[derive(Debug, Clone, PartialEq, Eq)]
pub enum Error {
    /// No verb in the words handed to a sub-command grammar.
    MissingSubCommand,
    /// A verb outside the resource's verb set.
    WrongSubCommand(String),
    /// A required field, named here, was absent.
    MissingRequiredField(String),
    /// Text left over after the last field of a verb.
    TooManyParameters(String),
    /// A numeric field that is not a base-10 unsigned integer.
    InvalidNumber(String),
    /// A value outside an enumerated set: the value and the set's name.
    InvalidEnumValue(String, String),
    /// A placeholder naming a variable that the environment lacks.
    EnvironmentVariableMissing(String),
    /// A placeholder whose value cannot stand as its field: empty, or with
    /// whitespace where the field allows none.
    MalformedPlaceholder(String),
    /// A line that matches no command form.
    UnparseableLine(String),
}

/// Mathematical value of an [`Error`].
pub enum ErrorView {
    MissingSubCommand,
    WrongSubCommand(Seq<char>),
    MissingRequiredField(Seq<char>),
    TooManyParameters(Seq<char>),
    InvalidNumber(Seq<char>),
    InvalidEnumValue(Seq<char>, Seq<char>),
    EnvironmentVariableMissing(Seq<char>),
    MalformedPlaceholder(Seq<char>),
    UnparseableLine(Seq<char>),
}

impl View for Error {
    type V = ErrorView;

    open spec fn view(&self) -> ErrorView {
        match self {
            Error::MissingSubCommand => ErrorView::MissingSubCommand,
            Error::WrongSubCommand(s) => ErrorView::WrongSubCommand(s@),
            Error::MissingRequiredField(s) => ErrorView::MissingRequiredField(s@),
            Error::TooManyParameters(s) => ErrorView::TooManyParameters(s@),
            Error::InvalidNumber(s) => ErrorView::InvalidNumber(s@),
            Error::InvalidEnumValue(s, d) => ErrorView::InvalidEnumValue(s@, d@),
            Error::EnvironmentVariableMissing(s) => ErrorView::EnvironmentVariableMissing(s@),
            Error::MalformedPlaceholder(s) => ErrorView::MalformedPlaceholder(s@),
            Error::UnparseableLine(s) => ErrorView::UnparseableLine(s@),
        }
    }
}

/// The view of a result whose value has a view.
pub open spec fn result_view<T: View>(r: Result<T, Error>) -> Result<T::V, ErrorView> {
    match r {
        Ok(v) => Ok(v@),
        Err(e) => Err(e@),
    }
}

/// The view of a result that holds a string.
pub open spec fn string_result_view(r: Result<String, Error>) -> Result<Seq<char>, ErrorView> {
    match r {
        Ok(v) => Ok(v@),
        Err(e) => Err(e@),
    }
}

/// `MissingRequiredField` for the field called `name`.
pub fn missing(name: &str) -> (e: Error)
    ensures
        e@ == ErrorView::MissingRequiredField(name@),
{
    Error::MissingRequiredField(name.to_owned())
}

/// `TooManyParameters` when `rest` holds left-over text, else `Ok`.
pub fn no_rest(rest: Option<String>) -> (r: Result<(), Error>)
    ensures
        match rest {
            Some(t) => r is Err && r->Err_0@ == ErrorView::TooManyParameters(t@),
            None => r is Ok,
        },
{
    match rest {
        Some(t) => Err(Error::TooManyParameters(t)),
        None => Ok(()),
    }
}

} // verus!
