//! Runtime errors and the handle that attributes them to a place in the
//! running program.

use vstd::prelude::*;

verus! {

/// Message of the error that a backend without module import answers with.
pub const IMPORT_UNSUPPORTED: &'static str = "Import not supported in this environment";

/// Message of the error that a backend without file access answers with.
pub const FILE_IO_UNSUPPORTED: &'static str = "File IO not supported in this environment";

/// A failure that the interpreted program can catch.
#[derive(Debug, PartialEq, Eq)]
pub enum RuntimeError {
    /// Raised at a place in the running program, with a readable message.
    /// Both a capability that the backend lacks and a failure of the host
    /// come in this form; they differ in the message only.
    Raised { message: String, site: u64 },
    /// An imported module could not be loaded; holds the loader's words.
    ImportLoad(String),
    /// An imported module was loaded and failed while it ran; holds the words
    /// of the failure.
    ImportRun(String),
}

/// Every fallible operation of a backend answers with this.
pub type RuntimeResult<T = ()> = Result<T, RuntimeError>;

/// What a [`RuntimeError`] is, with its texts as sequences of characters.
pub ghost enum ErrorModel {
    Raised { message: Seq<char>, site: u64 },
    ImportLoad(Seq<char>),
    ImportRun(Seq<char>),
}

impl ErrorModel {
    /// The readable text that the error carries.
    pub open spec fn message(self) -> Seq<char> {
        match self {
            ErrorModel::Raised { message, .. } => message,
            ErrorModel::ImportLoad(reason) => reason,
            ErrorModel::ImportRun(reason) => reason,
        }
    }
}

impl View for RuntimeError {
    type V = ErrorModel;

    open spec fn view(&self) -> ErrorModel {
        match *self {
            RuntimeError::Raised { message, site } => ErrorModel::Raised { message: message@, site },
            RuntimeError::ImportLoad(reason) => ErrorModel::ImportLoad(reason@),
            RuntimeError::ImportRun(reason) => ErrorModel::ImportRun(reason@),
        }
    }
}

impl RuntimeError {
    /// The readable text that the error carries.
    pub fn message(&self) -> (text: String)
        ensures
            text@ == self@.message(),
    {
        match self {
            RuntimeError::Raised { message, .. } => message.clone(),
            RuntimeError::ImportLoad(reason) => reason.clone(),
            RuntimeError::ImportRun(reason) => reason.clone(),
        }
    }
}

/// The handle that a backend gets with each fallible call: it knows the place
/// in the running program that made the call, under the number that the
/// engine gave that place, and builds the errors attributed to it.
#[derive(Clone, Copy, Debug, PartialEq, Eq)]
pub struct Env {
    pub site: u64,
}

impl Env {
    /// The handle for the place that the engine numbers `site`.
    pub fn new(site: u64) -> (env: Env)
        ensures
            env.site == site,
    {
        Env { site }
    }

    /// The error with this message, raised at this handle's place.
    pub open spec fn raised(&self, message: Seq<char>) -> ErrorModel {
        ErrorModel::Raised { message, site: self.site }
    }

    /// Builds the error with this message, attributed to the calling place.
    pub fn error(&self, message: &str) -> (error: RuntimeError)
        ensures
            error@ == self.raised(message@),
    {
        RuntimeError::Raised { message: message.to_owned(), site: self.site }
    }

    /// Passes on what the host answered: a value as it is, a failure as the
    /// runtime error that carries the host's description of it, word for
    /// word, attributed to the calling place.
    pub fn host_result<T>(&self, answer: Result<T, String>) -> (result: RuntimeResult<T>)
        ensures
            match answer {
                Ok(value) => result == Ok::<T, RuntimeError>(value),
                Err(description) => result matches Err(error) && error@ == self.raised(
                    description@,
                ),
            },
    {
        match answer {
            Ok(value) => Ok(value),
            Err(description) => Err(RuntimeError::Raised { message: description, site: self.site }),
        }
    }
}

} // verus!
