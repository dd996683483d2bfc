//! Errors: those of the codec, and those that stop a job or a run.

use crate::decimal::{decimal_nat, u64_to_decimal};
use crate::text::concat_str;
use vstd::prelude::*;

verus! {

/// What can go wrong while a record is written to, or read back from, its
/// relational form.
#[derive(Debug, Clone, PartialEq, Eq)]
pub enum Error {
    /// A failure described in words by whoever raised it.
    Message(String),
    Eof,
    Syntax,
    ExpectedBoolean,
    ExpectedInteger,
    ExpectedString,
    ExpectedNull,
    ExpectedArray,
    ExpectedArrayComma,
    ExpectedArrayEnd,
    ExpectedMap,
    ExpectedMapColon,
    ExpectedMapComma,
    ExpectedMapEnd,
    ExpectedEnum,
    TrailingCharacters,
}

/// The text shown for an error: its own words for `Message`, a fixed sentence
/// for the others.
pub open spec fn error_text(e: Error) -> Seq<char> {
    match e {
        Error::Message(m) => m@,
        Error::Eof => "unexpected end of input"@,
        _ => "some sort of error"@,
    }
}

impl Error {
    /// An error that carries the words `msg`.
    pub fn custom(msg: &str) -> (e: Error)
        ensures
            e matches Error::Message(m) && m@ == msg@,
    {
        Error::Message(msg.to_owned())
    }

    /// The text shown for this error.
    pub fn message(&self) -> (s: String)
        ensures
            s@ == error_text(*self),
    {
        match self {
            Error::Message(m) => m.clone(),
            Error::Eof => "unexpected end of input".to_owned(),
            _ => "some sort of error".to_owned(),
        }
    }
}

/// What can stop a job, or the whole run before any job starts.
#[derive(Debug, Clone, PartialEq, Eq)]
pub enum IngestError {
    /// The transport failed; the words are the transport's own.
    Transport(String),
    /// The server answered with a status that is neither 200 nor 206.
    UnexpectedStatus(u16),
    /// The server's answer has no content length.
    MissingContentLength,
    /// The server's answer has a content length that is no number.
    InvalidContentLength,
    /// The archive is corrupt, or reading or writing a file failed.
    Archive(String),
    /// A file that the archive should have held is not there; the path is
    /// the file's.
    MissingFile(String),
    /// A record could not be read from its text.
    Decode(String),
    /// A record has another number of fields than the table has columns.
    FieldCountMismatch { expected: usize, found: usize },
    /// The store refused to open, to prepare or to execute.
    Store(String),
    /// A line of the site list has not exactly two fields; the number is the
    /// line's, counted from 1.
    MalformedManifestLine(usize),
}

/// The words of an error, as they are shown against the job that failed.
pub open spec fn ingest_error_text(e: IngestError) -> Seq<char> {
    match e {
        IngestError::Transport(m) => m@,
        IngestError::UnexpectedStatus(code) => "Unexpected server response: "@ + decimal_nat(
            code as nat,
        ),
        IngestError::MissingContentLength => "response doesn't include the content length"@,
        IngestError::InvalidContentLength => "invalid Content-Length header"@,
        IngestError::Archive(m) => m@,
        IngestError::MissingFile(p) => "missing extracted file: "@ + p@,
        IngestError::Decode(m) => m@,
        IngestError::FieldCountMismatch { expected, found } => "record has "@ + decimal_nat(
            found as nat,
        ) + " fields, table has "@ + decimal_nat(expected as nat) + " columns"@,
        IngestError::Store(m) => m@,
        IngestError::MalformedManifestLine(n) => "malformed site list line "@ + decimal_nat(
            n as nat,
        ),
    }
}

impl IngestError {
    /// The words of this error.
    pub fn message(&self) -> (s: String)
        ensures
            s@ == ingest_error_text(*self),
    {
        match self {
            IngestError::Transport(m) => m.clone(),
            IngestError::UnexpectedStatus(code) => {
                let n = u64_to_decimal(*code as u64);
                concat_str("Unexpected server response: ", n.as_str())
            },
            IngestError::MissingContentLength => {
                "response doesn't include the content length".to_owned()
            },
            IngestError::InvalidContentLength => "invalid Content-Length header".to_owned(),
            IngestError::Archive(m) => m.clone(),
            IngestError::MissingFile(p) => concat_str("missing extracted file: ", p.as_str()),
            IngestError::Decode(m) => m.clone(),
            IngestError::FieldCountMismatch { expected, found } => {
                let f = u64_to_decimal(*found as u64);
                let e = u64_to_decimal(*expected as u64);
                let mut s = concat_str("record has ", f.as_str());
                s.append(" fields, table has ");
                s.append(e.as_str());
                s.append(" columns");
                s
            },
            IngestError::Store(m) => m.clone(),
            IngestError::MalformedManifestLine(n) => {
                let t = u64_to_decimal(*n as u64);
                concat_str("malformed site list line ", t.as_str())
            },
        }
    }
}

} // verus!
