use vstd::prelude::*;

use crate::enums::{Backends, SerializationFormat};
use crate::errors::{already_exists, outcome, unsupported, Error, ErrorKind};

verus! {

// The two operations are run by the host as a short sequence of steps: each
// step below takes what the filesystem or the encoder reported and decides
// whether the operation goes on or how it fails.

/// How the probe of a directory target decides: an existing entry stops it.
pub open spec fn dir_probe(exists: bool) -> Option<ErrorKind> {
    if exists {
        Some(ErrorKind::ConfigDirectoryAlreadyExists)
    } else {
        None
    }
}

/// How the creation of the directory decides.
pub open spec fn dir_create(created: bool) -> Option<ErrorKind> {
    if created {
        None
    } else {
        Some(ErrorKind::ConfigDirectoryCreationFailed)
    }
}

/// How the probe of a file target decides: an existing entry stops it first,
/// then a format without an encoder.
pub open spec fn file_probe(
    exists: bool,
    format: SerializationFormat,
    supported: Set<SerializationFormat>,
) -> Option<ErrorKind> {
    if exists {
        Some(ErrorKind::ConfigFileAlreadyExists)
    } else if !supported.contains(format) {
        Some(ErrorKind::UnsupportedFormat)
    } else {
        None
    }
}

/// How the encoding of the value decides.
pub open spec fn file_encode(encoded: bool) -> Option<ErrorKind> {
    if encoded {
        None
    } else {
        Some(ErrorKind::SerializationFailed)
    }
}

/// How the writing of the file decides.
pub open spec fn file_write(written: bool) -> Option<ErrorKind> {
    if written {
        None
    } else {
        Some(ErrorKind::WritingFailed)
    }
}

/// First step of creating a configuration directory, given whether an entry
/// already exists at the target path. `Ok` means: create the directory.
pub fn check_dir_target(exists: bool) -> (r: Result<(), Error>)
    ensures
        outcome(r) == dir_probe(exists),
{
    if exists {
        Err(Error::ConfigDirectoryAlreadyExists(already_exists("Config directory already exists")))
    } else {
        Ok(())
    }
}

/// Last step of creating a configuration directory, given what the
/// filesystem reported for the creation.
pub fn dir_created(created: Result<(), std::io::Error>) -> (r: Result<(), Error>)
    ensures
        outcome(r) == dir_create(created is Ok),
        created matches Err(e) ==> r == Err::<(), Error>(Error::ConfigDirectoryCreationFailed(e)),
{
    match created {
        Ok(()) => Ok(()),
        Err(e) => Err(Error::ConfigDirectoryCreationFailed(e)),
    }
}

/// First step of writing a configuration file, given whether an entry already
/// exists at the target path. `Ok` means: encode the value in `format`.
pub fn check_file_target(exists: bool, format: SerializationFormat, backends: &Backends) -> (r:
    Result<(), Error>)
    ensures
        outcome(r) == file_probe(exists, format, backends@),
{
    if exists {
        Err(Error::ConfigFileAlreadyExists(already_exists("File already exists")))
    } else if !backends.supports(format) {
        Err(
            Error::UnsupportedFormat(
                unsupported("No encoder is available for the requested serialization format"),
            ),
        )
    } else {
        Ok(())
    }
}

/// Second step of writing a configuration file, given the encoder's text or
/// its message. `Ok` holds the text to write, unchanged.
pub fn text_to_write(encoded: Result<String, String>) -> (r: Result<String, Error>)
    ensures
        outcome(r) == file_encode(encoded is Ok),
        encoded matches Ok(t) ==> r == Ok::<String, Error>(t),
        encoded matches Err(m) ==> r == Err::<String, Error>(Error::SerializationFailed(m)),
{
    match encoded {
        Ok(t) => Ok(t),
        Err(m) => Err(Error::SerializationFailed(m)),
    }
}

/// Last step of writing a configuration file, given what the filesystem
/// reported for creating, writing and flushing it.
pub fn file_written(written: Result<(), std::io::Error>) -> (r: Result<(), Error>)
    ensures
        outcome(r) == file_write(written is Ok),
        written matches Err(e) ==> r == Err::<(), Error>(Error::WritingFailed(e)),
{
    match written {
        Ok(()) => Ok(()),
        Err(e) => Err(Error::WritingFailed(e)),
    }
}

} // verus!
