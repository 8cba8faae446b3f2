//! The failures that the library reports.

use vstd::prelude::*;
use vstd::string::*;

verus! {

/// What went wrong.
#[derive(Debug, PartialEq, Eq)]
pub enum Error {
    /// The version-control client failed; its message is kept as it came.
    Git2(String),
    /// The filesystem or the build tool failed; its message is kept as it came.
    IoError(String),
    /// A directory that was to be removed is not there.
    DirectoryNotFound(String),
    /// The repository does not have the requested revision.
    RevisionNotFound { revision: String, repository: String },
    /// A value given for a build option has none of the accepted forms.
    InvalidOptionValue { key: String, given: String, expected: String },
    /// The operating system is not one that can be built for.
    UnsupportedPlatform(String),
    /// An output path was given, which is not supported yet.
    OutputPathNotSupported(String),
    /// A report was handed in that does not answer the pending request.
    UnexpectedReply,
}

/// An [`Error`] as plain text values.
pub enum ErrorView {
    Git2(Seq<char>),
    IoError(Seq<char>),
    DirectoryNotFound(Seq<char>),
    RevisionNotFound { revision: Seq<char>, repository: Seq<char> },
    InvalidOptionValue { key: Seq<char>, given: Seq<char>, expected: Seq<char> },
    UnsupportedPlatform(Seq<char>),
    OutputPathNotSupported(Seq<char>),
    UnexpectedReply,
}

impl ErrorView {
    /// The message shown to the user.
    pub open spec fn message(self) -> Seq<char> {
        match self {
            ErrorView::Git2(m) => m,
            ErrorView::IoError(m) => m,
            ErrorView::DirectoryNotFound(p) => "the directory does not exist: "@ + p,
            ErrorView::RevisionNotFound { revision, repository } => "the requested revision ("@
                + revision + ") and repository ("@ + repository
                + ") combination does not exist."@,
            ErrorView::InvalidOptionValue { key, given, expected } => "invalid value `"@ + given
                + "` for "@ + key + ": expected "@ + expected,
            ErrorView::UnsupportedPlatform(os) => "Platform `"@ + os
                + "` unsupported, please check the issue tracker."@,
            ErrorView::OutputPathNotSupported(p) => "an output path is not yet supported: "@ + p,
            ErrorView::UnexpectedReply => "the report does not answer the pending request"@,
        }
    }
}

impl View for Error {
    type V = ErrorView;

    open spec fn view(&self) -> ErrorView {
        match self {
            Error::Git2(m) => ErrorView::Git2(m@),
            Error::IoError(m) => ErrorView::IoError(m@),
            Error::DirectoryNotFound(p) => ErrorView::DirectoryNotFound(p@),
            Error::RevisionNotFound { revision, repository } => ErrorView::RevisionNotFound {
                revision: revision@,
                repository: repository@,
            },
            Error::InvalidOptionValue { key, given, expected } => ErrorView::InvalidOptionValue {
                key: key@,
                given: given@,
                expected: expected@,
            },
            Error::UnsupportedPlatform(os) => ErrorView::UnsupportedPlatform(os@),
            Error::OutputPathNotSupported(p) => ErrorView::OutputPathNotSupported(p@),
            Error::UnexpectedReply => ErrorView::UnexpectedReply,
        }
    }
}

impl Error {
    /// The message shown to the user.
    pub fn message(&self) -> (r: String)
        ensures
            r@ == self@.message(),
    {
        match self {
            Error::Git2(m) => m.clone(),
            Error::IoError(m) => m.clone(),
            Error::DirectoryNotFound(p) => {
                let mut s = "the directory does not exist: ".to_owned();
                s.append(p.as_str());
                s
            },
            Error::RevisionNotFound { revision, repository } => {
                let mut s = "the requested revision (".to_owned();
                s.append(revision.as_str());
                s.append(") and repository (");
                s.append(repository.as_str());
                s.append(") combination does not exist.");
                s
            },
            Error::InvalidOptionValue { key, given, expected } => {
                let mut s = "invalid value `".to_owned();
                s.append(given.as_str());
                s.append("` for ");
                s.append(key.as_str());
                s.append(": expected ");
                s.append(expected.as_str());
                s
            },
            Error::UnsupportedPlatform(os) => {
                let mut s = "Platform `".to_owned();
                s.append(os.as_str());
                s.append("` unsupported, please check the issue tracker.");
                s
            },
            Error::OutputPathNotSupported(p) => {
                let mut s = "an output path is not yet supported: ".to_owned();
                s.append(p.as_str());
                s
            },
            Error::UnexpectedReply => "the report does not answer the pending request".to_owned(),
        }
    }
}

impl Clone for Error {
    fn clone(&self) -> (r: Error)
        ensures
            r@ == self@,
    {
        match self {
            Error::Git2(m) => Error::Git2(m.clone()),
            Error::IoError(m) => Error::IoError(m.clone()),
            Error::DirectoryNotFound(p) => Error::DirectoryNotFound(p.clone()),
            Error::RevisionNotFound { revision, repository } => Error::RevisionNotFound {
                revision: revision.clone(),
                repository: repository.clone(),
            },
            Error::InvalidOptionValue { key, given, expected } => Error::InvalidOptionValue {
                key: key.clone(),
                given: given.clone(),
                expected: expected.clone(),
            },
            Error::UnsupportedPlatform(os) => Error::UnsupportedPlatform(os.clone()),
            Error::OutputPathNotSupported(p) => Error::OutputPathNotSupported(p.clone()),
            Error::UnexpectedReply => Error::UnexpectedReply,
        }
    }
}

/// The message of an unsupported platform holds the name of the operating
/// system that was found.
pub proof fn unsupported_platform_is_named(os: Seq<char>)
    ensures
        ({
            let m = ErrorView::UnsupportedPlatform(os).message();
            let at = "Platform `"@.len() as int;
            at + os.len() <= m.len() && m.subrange(at, at + os.len()) == os
        }),
{
    let m = ErrorView::UnsupportedPlatform(os).message();
    let at = "Platform `"@.len() as int;
    assert(m.subrange(at, at + os.len()) =~= os);
}

} // verus!
