use vstd::prelude::*;

verus! {

#[verifier::external_type_specification]
#[verifier::external_body]
pub struct ExIoError(std::io::Error);

/// The ways in which initializing a configuration can fail.
///
/// Each variant keeps the underlying cause for diagnostics; two errors are
/// equal when they are of the same kind, whatever their causes.
#[derive(Debug)]
pub enum Error {
    ConfigDirectoryAlreadyExists(std::io::Error),
    ConfigFileAlreadyExists(std::io::Error),
    ConfigDirectoryCreationFailed(std::io::Error),
    UnsupportedFormat(std::io::Error),
    /// The encoder refused the value; holds the encoder's message.
    SerializationFailed(String),
    WritingFailed(std::io::Error),
}

/// The kind of an [`Error`], without its cause.
#[derive(Clone, Copy, Debug, PartialEq, Eq, Structural)]
pub enum ErrorKind {
    ConfigDirectoryAlreadyExists,
    ConfigFileAlreadyExists,
    ConfigDirectoryCreationFailed,
    UnsupportedFormat,
    SerializationFailed,
    WritingFailed,
}

impl Error {
    pub open spec fn spec_kind(&self) -> ErrorKind {
        match self {
            Error::ConfigDirectoryAlreadyExists(_) => ErrorKind::ConfigDirectoryAlreadyExists,
            Error::ConfigFileAlreadyExists(_) => ErrorKind::ConfigFileAlreadyExists,
            Error::ConfigDirectoryCreationFailed(_) => ErrorKind::ConfigDirectoryCreationFailed,
            Error::UnsupportedFormat(_) => ErrorKind::UnsupportedFormat,
            Error::SerializationFailed(_) => ErrorKind::SerializationFailed,
            Error::WritingFailed(_) => ErrorKind::WritingFailed,
        }
    }

    /// The kind of this error.
    pub fn kind(&self) -> (r: ErrorKind)
        ensures
            r == self.spec_kind(),
    {
        match self {
            Error::ConfigDirectoryAlreadyExists(_) => ErrorKind::ConfigDirectoryAlreadyExists,
            Error::ConfigFileAlreadyExists(_) => ErrorKind::ConfigFileAlreadyExists,
            Error::ConfigDirectoryCreationFailed(_) => ErrorKind::ConfigDirectoryCreationFailed,
            Error::UnsupportedFormat(_) => ErrorKind::UnsupportedFormat,
            Error::SerializationFailed(_) => ErrorKind::SerializationFailed,
            Error::WritingFailed(_) => ErrorKind::WritingFailed,
        }
    }
}

/// The outcome of an operation as a kind: `None` on success.
pub open spec fn outcome<T>(r: Result<T, Error>) -> Option<ErrorKind> {
    match r {
        Ok(_) => None,
        Err(e) => Some(e.spec_kind()),
    }
}

impl PartialEq for Error {
    fn eq(&self, other: &Error) -> (r: bool) {
        self.kind() == other.kind()
    }
}

impl vstd::std_specs::cmp::PartialEqSpecImpl for Error {
    open spec fn obeys_eq_spec() -> bool {
        true
    }

    open spec fn eq_spec(&self, other: &Error) -> bool {
        self.spec_kind() == other.spec_kind()
    }
}

/// Relies on std::io::Error::new: an error of kind `AlreadyExists` that
/// carries `msg`.
#[verifier::external_body]
pub(crate) fn already_exists(msg: &str) -> (r: std::io::Error) {
    std::io::Error::new(std::io::ErrorKind::AlreadyExists, msg)
}

/// Relies on std::io::Error::new: an error of kind `Unsupported` that
/// carries `msg`.
#[verifier::external_body]
pub(crate) fn unsupported(msg: &str) -> (r: std::io::Error) {
    std::io::Error::new(std::io::ErrorKind::Unsupported, msg)
}

} // verus!
