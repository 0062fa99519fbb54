//! The one error type of the library: four kinds of failure, each with its text and its cause.

use vstd::prelude::*;
use vstd::string::*;

verus! {

/// `nix::errno::Errno`: the error number that a failed system call left behind. The library
/// carries it through and never looks inside.
#[verifier::external_type_specification]
#[verifier::external_body]
pub struct ExErrno(nix::errno::Errno);

/// `std::io::Error`: why a read of a path's metadata failed. The library carries it through and
/// never looks inside.
#[verifier::external_type_specification]
#[verifier::external_body]
pub struct ExIoError(std::io::Error);

/// Why an operation on a file's owner or group failed.
///
/// The split between the first two kinds is by the call that failed: `IoError` is a failed read
/// of a path's metadata, `OsError` a failed lookup in the user or group directory or a failed
/// change of ownership.
#[derive(Debug)]
pub enum FileOwnerError {
    /// The metadata of the path could not be read.
    IoError(std::io::Error),
    /// A directory lookup or the change of ownership failed in the operating system.
    OsError(nix::errno::Errno),
    /// The user directory has no entry of this name.
    UserNotFound(String),
    /// The group directory has no entry of this name.
    GroupNotFound(String),
}

/// A `FileOwnerError` as contracts see it: the same four kinds, a name being its characters.
pub enum Failure {
    /// A failed read of metadata, with its cause.
    Io(std::io::Error),
    /// A failed lookup or change, with the error number of the system.
    Os(nix::errno::Errno),
    /// No user of this name.
    UserNotFound(Seq<char>),
    /// No group of this name.
    GroupNotFound(Seq<char>),
}

impl View for FileOwnerError {
    type V = Failure;

    open spec fn view(&self) -> Failure {
        match self {
            FileOwnerError::IoError(e) => Failure::Io(*e),
            FileOwnerError::OsError(e) => Failure::Os(*e),
            FileOwnerError::UserNotFound(name) => Failure::UserNotFound(name@),
            FileOwnerError::GroupNotFound(name) => Failure::GroupNotFound(name@),
        }
    }
}

/// Whether `r` is a success and what it holds is `value`.
pub open spec fn succeeds_with<T>(r: Result<T, FileOwnerError>, value: T) -> bool {
    r matches Ok(v) && v == value
}

/// Whether `r` is a failure and the failure is `failure`.
pub open spec fn fails_with<T>(r: Result<T, FileOwnerError>, failure: Failure) -> bool {
    r matches Err(e) && e@ == failure
}

/// Whether `r` is a failure of the operating system: an `OsError`, whatever its number.
pub open spec fn fails_in_os<T>(r: Result<T, FileOwnerError>) -> bool {
    r matches Err(e) && e@ is Os
}

/// Whether `r`, if it is a failure at all, is a failure of the operating system.
pub open spec fn fails_only_in_os<T>(r: Result<T, FileOwnerError>) -> bool {
    r is Err ==> fails_in_os(r)
}

/// What `{:?}` writes for a string: the text between double quotes, with the characters escaped
/// that Rust escapes there.
pub uninterp spec fn debug_text(text: Seq<char>) -> Seq<char>;

impl Failure {
    /// The name that was looked up and not found; empty for the kinds that carry none.
    pub open spec fn missing_name(self) -> Seq<char> {
        match self {
            Failure::Io(_) => Seq::<char>::empty(),
            Failure::Os(_) => Seq::<char>::empty(),
            Failure::UserNotFound(name) => name,
            Failure::GroupNotFound(name) => name,
        }
    }

    /// The text shown for a failure, given how its name is to be shown: a short category, and
    /// for a missing name the category around `shown_name`.
    pub open spec fn text_with(self, shown_name: Seq<char>) -> Seq<char> {
        match self {
            Failure::Io(_) => "I/O error"@,
            Failure::Os(_) => "*nix error"@,
            Failure::UserNotFound(_) => "user name "@ + shown_name + " not found"@,
            Failure::GroupNotFound(_) => "group name "@ + shown_name + " not found"@,
        }
    }

    /// The text shown for a failure: a missing name is shown as `{:?}` writes it.
    pub open spec fn text(self) -> Seq<char> {
        self.text_with(debug_text(self.missing_name()))
    }

    /// Whether the failure wraps an underlying error, which `source` then hands out.
    pub open spec fn has_source(self) -> bool {
        self is Io || self is Os
    }
}

/// The underlying error that a `FileOwnerError` wraps, borrowed from it.
#[derive(Debug)]
pub enum ErrorSource<'a> {
    /// The cause of an `IoError`.
    Io(&'a std::io::Error),
    /// The cause of an `OsError`.
    Os(&'a nix::errno::Errno),
}

/// `<str as std::fmt::Debug>::fmt`, through `format!`: the string in double quotes with Rust's
/// escapes. The result depends on the characters of `text` alone and is named `debug_text`;
/// nothing more is claimed of it.
#[verifier::external_body]
fn quoted(text: &str) -> (r: String)
    ensures
        r@ == debug_text(text@),
{
    format!("{:?}", text)
}

impl FileOwnerError {
    /// The text shown for this error when its name, if it carries one, is shown as
    /// `shown_name`. The two kinds without a name do not read `shown_name`.
    pub fn text_with(&self, shown_name: &str) -> (s: String)
        ensures
            s@ == self@.text_with(shown_name@),
    {
        match self {
            FileOwnerError::IoError(_) => String::from_str("I/O error"),
            FileOwnerError::OsError(_) => String::from_str("*nix error"),
            FileOwnerError::UserNotFound(_) => {
                let mut s = String::from_str("user name ");
                s.append(shown_name);
                s.append(" not found");
                s
            },
            FileOwnerError::GroupNotFound(_) => {
                let mut s = String::from_str("group name ");
                s.append(shown_name);
                s.append(" not found");
                s
            },
        }
    }

    /// The text shown for this error: `I/O error`, `*nix error`, or that a user or group name
    /// was not found, with the name in quotes.
    pub fn to_string(&self) -> (s: String)
        ensures
            s@ == self@.text(),
    {
        match self {
            FileOwnerError::IoError(_) => self.text_with(""),
            FileOwnerError::OsError(_) => self.text_with(""),
            FileOwnerError::UserNotFound(name) => {
                let shown = quoted(name.as_str());
                self.text_with(shown.as_str())
            },
            FileOwnerError::GroupNotFound(name) => {
                let shown = quoted(name.as_str());
                self.text_with(shown.as_str())
            },
        }
    }

    /// The underlying error, for the two kinds that wrap one.
    pub fn source(&self) -> (r: Option<ErrorSource<'_>>)
        ensures
            r is Some <==> self@.has_source(),
            match self {
                FileOwnerError::IoError(e) => r == Some(ErrorSource::Io(e)),
                FileOwnerError::OsError(e) => r == Some(ErrorSource::Os(e)),
                FileOwnerError::UserNotFound(_) => r is None,
                FileOwnerError::GroupNotFound(_) => r is None,
            },
    {
        match self {
            FileOwnerError::IoError(e) => Some(ErrorSource::Io(e)),
            FileOwnerError::OsError(e) => Some(ErrorSource::Os(e)),
            FileOwnerError::UserNotFound(_) => None,
            FileOwnerError::GroupNotFound(_) => None,
        }
    }
}

} // verus!
