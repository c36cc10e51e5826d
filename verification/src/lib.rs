//! In-memory creation of common archive formats (zip, tar and its
//! compressed variants, ar/deb, 7z and single-file compressed streams).
//!
//! Every entry path and symlink target is checked before anything is
//! written, each compression level is checked against the format it is
//! used with, and the bytes handed back are those the format's backend
//! produced from exactly the entries it was given.

pub mod error;
pub mod format;
pub mod entry;
pub mod path_safety;
pub mod text;
pub mod compression;
pub mod calendar;
pub mod codecs;
pub mod tar_writer;
pub mod ar_writer;
pub mod sevenz_writer;
pub mod zip_writer;
pub mod model;
pub mod builder;
pub mod laws;
pub mod contents;

pub use error::ArchiveError;
pub use format::ArchiveFormat;
pub use entry::{ArchiveEntry, UnixTime};
pub use compression::{CompressionLevel, ZipCompression};
pub use builder::ArchiveBuilder;
