//! The error surface of the two generators. Generation is fail-fast: the
//! first failing artifact ends the run, and the error says which artifact
//! failed and carries the underlying I/O cause.

use vstd::prelude::*;
use vstd::string::*;
use crate::dialect::{ShellDialect, dialect_label};

verus! {

/// An error during generation.
pub enum Error {
    /// The output directory could not be created; wraps the cause.
    DirectoryCreate(std::io::Error),
    /// The completion file for the shell dialect named by the label could
    /// not be created; wraps the cause.
    ShellFile(std::io::Error, String),
    /// The manual page at the named path could not be processed; wraps the
    /// cause.
    ManFile(std::io::Error, String),
}

/// Maps the outcome of creating the output directory: success, or a
/// directory-creation error wrapping the cause.
pub fn directory_create_outcome(outcome: Result<(), std::io::Error>) -> (r: Result<(), Error>)
    ensures
        r is Ok <==> outcome is Ok,
        outcome matches Err(c) ==> r matches Err(e) && e matches Error::DirectoryCreate(cause)
            && cause == c,
{
    match outcome {
        Ok(()) => Ok(()),
        Err(e) => Err(Error::DirectoryCreate(e)),
    }
}

/// Maps the outcome of writing one completion file: success, or a
/// fail-fast error naming the dialect whose file could not be written and
/// wrapping the cause.
pub fn completion_write_outcome(d: &ShellDialect, outcome: Result<(), std::io::Error>) -> (r:
    Result<(), Error>)
    ensures
        r is Ok <==> outcome is Ok,
        outcome matches Err(c) ==> r matches Err(e) && e matches Error::ShellFile(cause, label)
            && cause == c && label@ == dialect_label(*d),
{
    match outcome {
        Ok(()) => Ok(()),
        Err(e) => Err(Error::ShellFile(e, d.label())),
    }
}

/// Maps the outcome of writing one manual page: success, or a fail-fast
/// error naming the path that could not be processed and wrapping the
/// cause.
pub fn man_write_outcome(path: &str, outcome: Result<(), std::io::Error>) -> (r: Result<
    (),
    Error,
>)
    ensures
        r is Ok <==> outcome is Ok,
        outcome matches Err(c) ==> r matches Err(e) && e matches Error::ManFile(cause, p) && cause
            == c && p@ == path@,
{
    match outcome {
        Ok(()) => Ok(()),
        Err(e) => Err(Error::ManFile(e, String::from_str(path))),
    }
}

} // verus!
