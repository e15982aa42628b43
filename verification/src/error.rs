//! The errors of the registry.
use vstd::prelude::*;

use crate::db::models::Author;
use crate::text::{push_text, texts};
use crate::version::{Version, version_text};

verus! {

/// The registry's own errors (crate not found, invalid token, etc...).
#[derive(Debug)]
pub enum AlexError {
    /// The requested crate cannot be found.
    CrateNotFound {
        /// The name of the crate.
        name: String,
    },
    /// The crate is not owned by the user.
    CrateNotOwned(String, Author),
    /// The published crate version is lower than the current hosted version.
    VersionTooLow {
        /// The krate's name.
        krate: String,
        /// The available hosted version.
        hosted: Version,
        /// The proposed version to be published.
        published: Version,
    },
    /// The token used to access the registry is invalid.
    InvalidToken,
    /// The request is invalid because of a required query parameter.
    MissingQueryParams {
        /// The names of the missing parameters.
        missing_params: Vec<String>,
    },
}

/// The error type of the registry: any kind of error the registry might encounter.
///
/// The errors of other libraries are kept by their message.
#[derive(Debug)]
pub enum Error {
    /// An I/O error (file not found, access forbidden, etc...).
    IOError(String),
    /// JSON (de)serialization error (invalid JSON parsed, etc...).
    JSONError(String),
    /// TOML (de)serialization error (invalid TOML parsed, etc...).
    TOMLError(String),
    /// SQL error (invalid queries, database disconnections, etc...).
    SQLError(String),
    /// Version parsing errors (invalid version format parsed, etc...).
    SemverError(String),
    /// The registry's own errors (crate not found, invalid token, etc...).
    AlexError(AlexError),
}

/// What `{:?}` writes for a list of texts, such as `["q"]`.
pub uninterp spec fn debug_list_text(items: Seq<Seq<char>>) -> Seq<char>;

/// Calls the `Debug` formatting of a list of strings (`format!("{:?}", ..)`); the contract
/// names the text it writes `debug_list_text`.
#[verifier::external_body]
fn debug_list(items: &Vec<String>) -> (res: String)
    ensures
        res@ == debug_list_text(texts(items@)),
{
    format!("{:?}", items)
}

/// The message of one of the registry's own errors.
pub open spec fn alex_message(e: AlexError) -> Seq<char> {
    match e {
        AlexError::CrateNotFound { name } => "no crate named '"@ + name@ + "' found"@,
        AlexError::CrateNotOwned(name, _) => "you are not an owner of '"@ + name@ + "'"@,
        AlexError::VersionTooLow { hosted, published, .. } => "the published version is too low (hosted version is "@
            + version_text(hosted@) + ", "@ + version_text(published@) + " <= "@ + version_text(
            hosted@,
        ) + ")"@,
        AlexError::InvalidToken => "invalid token"@,
        AlexError::MissingQueryParams { missing_params } => "missing query parameters: "@
            + debug_list_text(texts(missing_params@)),
    }
}

/// The message of an error.
pub open spec fn error_message(e: Error) -> Seq<char> {
    match e {
        Error::IOError(m) => m@,
        Error::JSONError(m) => m@,
        Error::TOMLError(m) => m@,
        Error::SQLError(m) => m@,
        Error::SemverError(m) => m@,
        Error::AlexError(a) => alex_message(a),
    }
}

impl AlexError {
    /// The message describing this error.
    pub fn message(&self) -> (res: String)
        ensures
            res@ == alex_message(*self),
    {
        let mut s = String::new();
        match self {
            AlexError::CrateNotFound { name } => {
                push_text(&mut s, "no crate named '");
                push_text(&mut s, name.as_str());
                push_text(&mut s, "' found");
            },
            AlexError::CrateNotOwned(name, _) => {
                push_text(&mut s, "you are not an owner of '");
                push_text(&mut s, name.as_str());
                push_text(&mut s, "'");
            },
            AlexError::VersionTooLow { hosted, published, .. } => {
                let hosted_text = hosted.to_text();
                push_text(&mut s, "the published version is too low (hosted version is ");
                push_text(&mut s, hosted_text.as_str());
                push_text(&mut s, ", ");
                push_text(&mut s, published.to_text().as_str());
                push_text(&mut s, " <= ");
                push_text(&mut s, hosted_text.as_str());
                push_text(&mut s, ")");
            },
            AlexError::InvalidToken => {
                push_text(&mut s, "invalid token");
            },
            AlexError::MissingQueryParams { missing_params } => {
                push_text(&mut s, "missing query parameters: ");
                push_text(&mut s, debug_list(missing_params).as_str());
            },
        }
        assert(s@ =~= alex_message(*self));
        s
    }
}

impl Error {
    /// The message describing this error.
    pub fn message(&self) -> (res: String)
        ensures
            res@ == error_message(*self),
    {
        match self {
            Error::IOError(m) => m.clone(),
            Error::JSONError(m) => m.clone(),
            Error::TOMLError(m) => m.clone(),
            Error::SQLError(m) => m.clone(),
            Error::SemverError(m) => m.clone(),
            Error::AlexError(a) => a.message(),
        }
    }

    /// The detail given to a client whose request failed with this error: the registry's
    /// own errors are described, any other is an "internal server error".
    pub fn response_message(&self) -> (res: String)
        ensures
            res@ == (match *self {
                Error::AlexError(a) => alex_message(a),
                _ => "internal server error"@,
            }),
    {
        match self {
            Error::AlexError(a) => a.message(),
            _ => {
                let mut s = String::new();
                push_text(&mut s, "internal server error");
                s
            },
        }
    }
}

} // verus!
