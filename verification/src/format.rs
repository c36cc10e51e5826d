//! The archive formats the crate can build.

use vstd::prelude::*;

verus! {

/// An archive or compressed-stream format.
#[derive(Debug, Clone, Copy, PartialEq, Eq, Structural)]
pub enum ArchiveFormat {
    Zip,
    Tar,
    TarGz,
    TarBz2,
    TarXz,
    TarZst,
    TarLz4,
    Ar,
    Deb,
    SevenZ,
    Gz,
    Bz2,
    Xz,
    Lz4,
    Zst,
}

impl ArchiveFormat {
    /// The short name used in messages, which is the format's usual file extension.
    pub open spec fn spec_name(self) -> Seq<char> {
        match self {
            ArchiveFormat::Zip => "zip"@,
            ArchiveFormat::Tar => "tar"@,
            ArchiveFormat::TarGz => "tar.gz"@,
            ArchiveFormat::TarBz2 => "tar.bz2"@,
            ArchiveFormat::TarXz => "tar.xz"@,
            ArchiveFormat::TarZst => "tar.zst"@,
            ArchiveFormat::TarLz4 => "tar.lz4"@,
            ArchiveFormat::Ar => "ar"@,
            ArchiveFormat::Deb => "deb"@,
            ArchiveFormat::SevenZ => "7z"@,
            ArchiveFormat::Gz => "gz"@,
            ArchiveFormat::Bz2 => "bz2"@,
            ArchiveFormat::Xz => "xz"@,
            ArchiveFormat::Lz4 => "lz4"@,
            ArchiveFormat::Zst => "zst"@,
        }
    }

    /// The formats without a container: a single compressed file.
    pub open spec fn is_single_file(self) -> bool {
        ||| self == ArchiveFormat::Gz
        ||| self == ArchiveFormat::Bz2
        ||| self == ArchiveFormat::Xz
        ||| self == ArchiveFormat::Lz4
        ||| self == ArchiveFormat::Zst
    }

    /// The tar formats, plain or compressed.
    pub open spec fn is_tar_family(self) -> bool {
        ||| self == ArchiveFormat::Tar
        ||| self == ArchiveFormat::TarGz
        ||| self == ArchiveFormat::TarBz2
        ||| self == ArchiveFormat::TarXz
        ||| self == ArchiveFormat::TarZst
        ||| self == ArchiveFormat::TarLz4
    }

    /// The short name of the format, as used in messages.
    pub fn name(&self) -> (r: &'static str)
        ensures
            r@ == self.spec_name(),
    {
        match self {
            ArchiveFormat::Zip => "zip",
            ArchiveFormat::Tar => "tar",
            ArchiveFormat::TarGz => "tar.gz",
            ArchiveFormat::TarBz2 => "tar.bz2",
            ArchiveFormat::TarXz => "tar.xz",
            ArchiveFormat::TarZst => "tar.zst",
            ArchiveFormat::TarLz4 => "tar.lz4",
            ArchiveFormat::Ar => "ar",
            ArchiveFormat::Deb => "deb",
            ArchiveFormat::SevenZ => "7z",
            ArchiveFormat::Gz => "gz",
            ArchiveFormat::Bz2 => "bz2",
            ArchiveFormat::Xz => "xz",
            ArchiveFormat::Lz4 => "lz4",
            ArchiveFormat::Zst => "zst",
        }
    }
}

} // verus!
