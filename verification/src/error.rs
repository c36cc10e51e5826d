//! The error type of the crate.

use vstd::prelude::*;

verus! {

/// `std::io::Error`, carried through unchanged from the writers that fail with it.
#[verifier::external_type_specification]
#[verifier::external_body]
pub struct ExIoError(std::io::Error);

/// `zip::result::ZipError`, carried through unchanged from the zip writer.
#[verifier::external_type_specification]
#[verifier::external_body]
pub struct ExZipError(zip::result::ZipError);

/// Everything that can go wrong while building an archive.
#[derive(Debug)]
pub enum ArchiveError {
    /// A writer or compressor reported an I/O failure.
    Io(std::io::Error),
    /// The zip writer reported a failure.
    Zip(zip::result::ZipError),
    /// An entry path (or symlink target) is absolute or climbs out of the
    /// archive root with `..`; the payload is the offending path.
    UnsafePath(String),
    /// The format cannot hold what it was asked to hold.
    UnsupportedFormat(String),
    /// The compression level does not apply to the format, or is out of range.
    InvalidCompressionLevel(String),
    /// The 7z writer reported a failure.
    InvalidArchive(String),
}

/// The errors the library itself decides on, before or between the calls
/// that write bytes; each carries its message.
pub enum Refusal {
    UnsafePath(Seq<char>),
    UnsupportedFormat(Seq<char>),
    InvalidCompressionLevel(Seq<char>),
}

impl ArchiveError {
    /// This error is the given refusal, message included.
    pub open spec fn is_refusal(self, r: Refusal) -> bool {
        match (self, r) {
            (ArchiveError::UnsafePath(m), Refusal::UnsafePath(n)) => m@ == n,
            (ArchiveError::UnsupportedFormat(m), Refusal::UnsupportedFormat(n)) => m@ == n,
            (ArchiveError::InvalidCompressionLevel(m), Refusal::InvalidCompressionLevel(n)) => m@ == n,
            _ => false,
        }
    }

    /// This error was reported by one of the outside writers or compressors.
    pub open spec fn is_backend_failure(self) -> bool {
        ||| self is Io
        ||| self is Zip
        ||| self is InvalidArchive
    }
}

} // verus!

verus! {

/// The executable result `r` is the modelled result `s`: the same value, or
/// the error that is the modelled refusal.
pub open spec fn result_is<T>(r: Result<T, ArchiveError>, s: Result<T, Refusal>) -> bool {
    match (r, s) {
        (Ok(x), Ok(y)) => x == y,
        (Err(e), Err(f)) => e.is_refusal(f),
        _ => false,
    }
}

} // verus!
