//! The error type of the library.

use vstd::prelude::*;
use vstd::string::StringExecFns;

verus! {

/// What a failed operation returns.
#[derive(Clone, Debug, PartialEq, Eq)]
pub enum Error {
    /// An argument was refused, for the reason that the text gives.
    BadParam(String),
    /// Something that was looked for is absent.
    NotFound,
    /// The operation is not supported.
    UnsupportedType,
    /// An error of a service that the library was given, in its own words.
    OtherError(String),
}

/// What an [`Error`] says.
pub enum Failure {
    BadParam(Seq<char>),
    NotFound,
    UnsupportedType,
    OtherError(Seq<char>),
}

impl View for Error {
    type V = Failure;

    open spec fn view(&self) -> Failure {
        match self {
            Error::BadParam(text) => Failure::BadParam(text@),
            Error::NotFound => Failure::NotFound,
            Error::UnsupportedType => Failure::UnsupportedType,
            Error::OtherError(text) => Failure::OtherError(text@),
        }
    }
}

impl Failure {
    /// The text that a reader of the error sees.
    pub open spec fn text(self) -> Seq<char> {
        match self {
            Failure::BadParam(text) => text,
            Failure::NotFound => "not found"@,
            Failure::UnsupportedType => "unsupported type"@,
            Failure::OtherError(text) => text,
        }
    }
}

impl Error {
    /// The text that a reader of the error sees.
    pub fn message(&self) -> (r: String)
        ensures
            r@ == self@.text(),
    {
        match self {
            Error::BadParam(text) => text.clone(),
            Error::NotFound => "not found".to_string(),
            Error::UnsupportedType => "unsupported type".to_string(),
            Error::OtherError(text) => text.clone(),
        }
    }
}

/// A result that carries the stated value, or an error that says what is stated.
pub open spec fn agrees<T>(r: Result<T, Error>, stated: Result<T, Failure>) -> bool {
    match stated {
        Ok(value) => r matches Ok(v) && v == value,
        Err(failure) => r matches Err(e) && e@ == failure,
    }
}

/// An argument was refused, for the reason that `text` gives.
pub fn bad_param(text: &str) -> (e: Error)
    ensures
        e@ == Failure::BadParam(text@),
{
    Error::BadParam(text.to_string())
}

/// An argument was refused; `detail` follows the words of `text`.
pub fn bad_param_with(text: &str, detail: &str) -> (e: Error)
    ensures
        e@ == Failure::BadParam(text@ + detail@),
{
    let mut out: String = text.to_string();
    out.append(detail);
    Error::BadParam(out)
}

} // verus!
