//! The error that every operation of the library reports.

use vstd::prelude::*;

use crate::text::views;

verus! {

/// What an error is about.
#[derive(Debug, Clone, Copy, PartialEq, Eq, Structural)]
pub enum ErrorKind {
    /// A pipeline step was given something that it cannot work with.
    Pipeline,
    /// The browser could not be reached.
    BrowserConnect,
    /// Something did not happen in time.
    Timeout,
    /// A request to a server failed.
    Http,
    /// What a browser page or a template reports for reasons of its own.
    Other,
}

/// An error: its kind, what went wrong, and what the user may try.
#[derive(Debug, PartialEq, Eq)]
pub struct CliError {
    pub kind: ErrorKind,
    pub message: String,
    pub suggestions: Vec<String>,
}

/// The mathematical value of a [`CliError`].
pub ghost struct ErrorView {
    pub kind: ErrorKind,
    pub message: Seq<char>,
    pub suggestions: Seq<Seq<char>>,
}

impl View for CliError {
    type V = ErrorView;

    open spec fn view(&self) -> ErrorView {
        ErrorView {
            kind: self.kind,
            message: self.message@,
            suggestions: views(self.suggestions@),
        }
    }
}

/// An error of kind `kind` that says `message` and suggests nothing.
pub open spec fn plain_error(kind: ErrorKind, message: Seq<char>) -> ErrorView {
    ErrorView { kind, message, suggestions: Seq::empty() }
}

impl CliError {
    fn plain(kind: ErrorKind, message: &str) -> (r: CliError)
        ensures
            r@ == plain_error(kind, message@),
    {
        let r = CliError { kind, message: message.to_owned(), suggestions: Vec::new() };
        proof {
            assert(r@.suggestions =~= Seq::empty());
        }
        r
    }

    pub fn pipeline(message: &str) -> (r: CliError)
        ensures
            r@ == plain_error(ErrorKind::Pipeline, message@),
    {
        CliError::plain(ErrorKind::Pipeline, message)
    }

    pub fn browser_connect(message: &str) -> (r: CliError)
        ensures
            r@ == plain_error(ErrorKind::BrowserConnect, message@),
    {
        CliError::plain(ErrorKind::BrowserConnect, message)
    }

    pub fn timeout(message: &str) -> (r: CliError)
        ensures
            r@ == plain_error(ErrorKind::Timeout, message@),
    {
        CliError::plain(ErrorKind::Timeout, message)
    }

    pub fn http(message: &str) -> (r: CliError)
        ensures
            r@ == plain_error(ErrorKind::Http, message@),
    {
        CliError::plain(ErrorKind::Http, message)
    }
}

} // verus!
