//! Build contexts and the errors the mapping can surface.

use vstd::prelude::*;
use vstd::string::StringExecFns;

verus! {

/// The mathematical model of a build context: the tag together with the
/// character sequence it carries.
pub ghost enum ContextModel {
    /// A remote Git repository URL.
    GitUrl(Seq<char>),
    /// A directory fragment, interpreted relative to the project root.
    Dir(Seq<char>),
}

/// Where a service's source material comes from: a remote Git repository
/// URL, or a local directory reference.
#[derive(Debug)]
pub enum BuildContext {
    /// A remote Git repository URL.
    GitUrl(String),
    /// A directory fragment; may be relative, may contain `..`, and is not
    /// required to exist.
    Dir(String),
}

impl View for BuildContext {
    type V = ContextModel;

    open spec fn view(&self) -> ContextModel {
        match self {
            BuildContext::GitUrl(url) => ContextModel::GitUrl(url@),
            BuildContext::Dir(dir) => ContextModel::Dir(dir@),
        }
    }
}

/// The model of an error: the kind together with the text it carries.
pub ghost enum ErrorModel {
    /// No repository name could be derived; carries the offending URL.
    CannotDeriveName(Seq<char>),
    /// Propagated unchanged from the upstream reader of the build context.
    ContextReadError(Seq<char>),
}

/// An error surfaced while deriving a local build directory.
#[derive(Debug)]
pub enum Error {
    /// The Git URL did not match the repository-name rule; carries the
    /// offending URL so that the message identifies it.
    CannotDeriveName(String),
    /// Reading the build context from the service description failed
    /// upstream; carries the upstream message, neither inspected nor
    /// classified here.
    ContextReadError(String),
}

impl View for Error {
    type V = ErrorModel;

    open spec fn view(&self) -> ErrorModel {
        match self {
            Error::CannotDeriveName(url) => ErrorModel::CannotDeriveName(url@),
            Error::ContextReadError(msg) => ErrorModel::ContextReadError(msg@),
        }
    }
}

impl Error {
    /// The human-readable message for the error: it identifies the
    /// offending URL when no name could be derived, and repeats the
    /// upstream message otherwise.
    pub fn message(&self) -> (r: String)
        ensures
            self@ matches ErrorModel::CannotDeriveName(url) ==> r@ == "Can't get dir name from Git URL: "@
                + url,
            self@ matches ErrorModel::ContextReadError(msg) ==> r@ == msg,
    {
        match self {
            Error::CannotDeriveName(url) => String::from_str(
                "Can't get dir name from Git URL: ",
            ).concat(url.as_str()),
            Error::ContextReadError(msg) => msg.clone(),
        }
    }

    /// An owned copy of the error, equal in model to the original.
    pub fn dup(&self) -> (r: Error)
        ensures
            r@ == self@,
    {
        match self {
            Error::CannotDeriveName(url) => Error::CannotDeriveName(url.clone()),
            Error::ContextReadError(msg) => Error::ContextReadError(msg.clone()),
        }
    }
}

} // verus!
