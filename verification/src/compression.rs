//! Per-format compression level configuration for the archive builder.

use vstd::prelude::*;
use crate::error::{ArchiveError, Refusal, result_is};
use crate::format::ArchiveFormat;
use crate::text::{decimal, decimal_string, signed_decimal, signed_decimal_string};

verus! {

/// Zip's write-side compression method.
#[derive(Debug, Clone, Copy, PartialEq, Eq, Structural)]
pub enum ZipCompression {
    /// No compression -- data is stored verbatim.
    Stored,
    /// Deflate at the given level, 0 (no compression) - 9 (best). Default: 6.
    Deflated(u32),
}

/// Requested compression effort for the archive builder.
///
/// Each variant's range mirrors the backend crate it maps to, and each
/// (other than [`CompressionLevel::Default`]) only applies to the archive
/// format(s) named in its docs. Building with a variant that doesn't apply
/// to the target format, or with a value outside its documented range,
/// returns [`ArchiveError::InvalidCompressionLevel`].
#[derive(Debug, Clone, Copy, PartialEq, Eq, Structural)]
pub enum CompressionLevel {
    /// Use each backend's own default (flate2/bzip2 level 6, zstd level 3,
    /// xz preset 6, lz4's fast mode). Applies to every format.
    Default,
    /// Zip's compression method and, for `Deflated`, its level.
    /// Applies to [`ArchiveFormat::Zip`] only.
    Zip(ZipCompression),
    /// flate2 deflate level, 0 (no compression) - 9 (best). Default: 6.
    /// Applies to [`ArchiveFormat::Gz`] and [`ArchiveFormat::TarGz`].
    Gzip(u32),
    /// bzip2 level, 1 (fastest) - 9 (best). Default: 6.
    /// Applies to [`ArchiveFormat::Bz2`] and [`ArchiveFormat::TarBz2`].
    Bzip2(u32),
    /// zstd level, -7 (fastest) - 22 (best); 0 requests zstd's own default
    /// level (currently 3).
    /// Applies to [`ArchiveFormat::Zst`] and [`ArchiveFormat::TarZst`].
    Zstd(i32),
    /// xz/LZMA2 preset, 0 (fastest) - 9 (best). Default: 6.
    /// Applies to [`ArchiveFormat::Xz`] and [`ArchiveFormat::TarXz`].
    Xz(u32),
    /// lz4 level, 0 (fast mode) - 16 (best, high-compression mode).
    /// Default: 0.
    /// Applies to [`ArchiveFormat::Lz4`] and [`ArchiveFormat::TarLz4`].
    Lz4(u32),
}

impl Default for CompressionLevel {
    fn default() -> (l: Self)
        ensures
            l == CompressionLevel::Default,
    {
        CompressionLevel::Default
    }
}

/// The compression method a zip entry is written with.
#[derive(Debug, Clone, Copy, PartialEq, Eq, Structural)]
pub enum ZipMethod {
    /// The zip writer's own default method.
    Default,
    Stored,
    Deflated,
}

/// What the builder's compression level asks of each zip entry.
#[derive(Debug, Clone, Copy, PartialEq, Eq, Structural)]
pub struct ZipOptions {
    pub method: ZipMethod,
    /// `None` leaves the level to the zip writer.
    pub level: Option<i64>,
}

/// How `{:?}` renders a level, as used in messages.
pub open spec fn level_debug(l: CompressionLevel) -> Seq<char> {
    match l {
        CompressionLevel::Default => "Default"@,
        CompressionLevel::Zip(ZipCompression::Stored) => "Zip(Stored)"@,
        CompressionLevel::Zip(ZipCompression::Deflated(n)) => "Zip(Deflated("@ + decimal(n as nat) + "))"@,
        CompressionLevel::Gzip(n) => "Gzip("@ + decimal(n as nat) + ")"@,
        CompressionLevel::Bzip2(n) => "Bzip2("@ + decimal(n as nat) + ")"@,
        CompressionLevel::Zstd(n) => "Zstd("@ + signed_decimal(n as int) + ")"@,
        CompressionLevel::Xz(n) => "Xz("@ + decimal(n as nat) + ")"@,
        CompressionLevel::Lz4(n) => "Lz4("@ + decimal(n as nat) + ")"@,
    }
}

/// The refusal of a level that does not apply to `format`.
pub open spec fn mismatch_refusal(l: CompressionLevel, format: ArchiveFormat) -> Refusal {
    Refusal::InvalidCompressionLevel(level_debug(l) + " does not apply to "@ + format.spec_name() + " archives"@)
}

/// The refusal of a level outside the range `expected`.
pub open spec fn out_of_range_refusal(l: CompressionLevel, expected: Seq<char>) -> Refusal {
    Refusal::InvalidCompressionLevel(level_debug(l) + " is out of range (expected "@ + expected + ")"@)
}

impl CompressionLevel {
    /// The flate2 level for a gzip format: `Default` is 6, `Gzip(0..=9)` itself.
    pub open spec fn flate2_level(self, format: ArchiveFormat) -> Result<u32, Refusal> {
        match self {
            CompressionLevel::Default => Ok(6),
            CompressionLevel::Gzip(level) => if level <= 9 { Ok(level) } else { Err(out_of_range_refusal(self, "0..=9"@)) },
            _ => Err(mismatch_refusal(self, format)),
        }
    }

    /// The bzip2 level for a bzip2 format: `Default` is 6, `Bzip2(1..=9)` itself.
    pub open spec fn bzip2_level(self, format: ArchiveFormat) -> Result<u32, Refusal> {
        match self {
            CompressionLevel::Default => Ok(6),
            CompressionLevel::Bzip2(level) => if 1 <= level <= 9 { Ok(level) } else { Err(out_of_range_refusal(self, "1..=9"@)) },
            _ => Err(mismatch_refusal(self, format)),
        }
    }

    /// The zstd level for a zstd format: `Default` is 0 (zstd's own default), `Zstd(-7..=22)` itself.
    pub open spec fn zstd_level(self, format: ArchiveFormat) -> Result<i32, Refusal> {
        match self {
            CompressionLevel::Default => Ok(0),
            CompressionLevel::Zstd(level) => if -7 <= level <= 22 { Ok(level) } else { Err(out_of_range_refusal(self, "-7..=22"@)) },
            _ => Err(mismatch_refusal(self, format)),
        }
    }

    /// The xz preset for an xz format: `Default` is 6, `Xz(0..=9)` itself.
    pub open spec fn xz_preset(self, format: ArchiveFormat) -> Result<u32, Refusal> {
        match self {
            CompressionLevel::Default => Ok(6),
            CompressionLevel::Xz(preset) => if preset <= 9 { Ok(preset) } else { Err(out_of_range_refusal(self, "0..=9"@)) },
            _ => Err(mismatch_refusal(self, format)),
        }
    }

    /// The lz4 level for an lz4 format: `Default` is 0 (fast mode), `Lz4(0..=16)` itself.
    pub open spec fn lz4_level(self, format: ArchiveFormat) -> Result<u32, Refusal> {
        match self {
            CompressionLevel::Default => Ok(0),
            CompressionLevel::Lz4(level) => if level <= 16 { Ok(level) } else { Err(out_of_range_refusal(self, "0..=16"@)) },
            _ => Err(mismatch_refusal(self, format)),
        }
    }

    /// The zip method and level: `Default` leaves both to the zip writer,
    /// `Zip(Stored)` stores, `Zip(Deflated(0..=9))` deflates at that level.
    pub open spec fn zip_options(self) -> Result<ZipOptions, Refusal> {
        match self {
            CompressionLevel::Default => Ok(ZipOptions { method: ZipMethod::Default, level: None }),
            CompressionLevel::Zip(ZipCompression::Stored) => Ok(ZipOptions { method: ZipMethod::Stored, level: None }),
            CompressionLevel::Zip(ZipCompression::Deflated(level)) =>
                if level <= 9 {
                    Ok(ZipOptions { method: ZipMethod::Deflated, level: Some(level as i64) })
                } else {
                    Err(out_of_range_refusal(self, "0..=9"@))
                },
            _ => Err(mismatch_refusal(self, ArchiveFormat::Zip)),
        }
    }

    /// For a format without a compression setting (tar, ar, deb, 7z) only `Default` applies.
    pub open spec fn levelless(self, format: ArchiveFormat) -> Result<(), Refusal> {
        match self {
            CompressionLevel::Default => Ok(()),
            _ => Err(mismatch_refusal(self, format)),
        }
    }

    /// The level rendered as `{:?}` renders it.
    pub fn debug_text(&self) -> (s: String)
        ensures
            s@ == level_debug(*self),
    {
        match self {
            CompressionLevel::Default => String::from_str("Default"),
            CompressionLevel::Zip(ZipCompression::Stored) => String::from_str("Zip(Stored)"),
            CompressionLevel::Zip(ZipCompression::Deflated(n)) => {
                let mut s = String::from_str("Zip(Deflated(");
                s.append(decimal_string(*n as u64).as_str());
                s.append("))");
                s
            },
            CompressionLevel::Gzip(n) => Self::wrapped("Gzip(", decimal_string(*n as u64)),
            CompressionLevel::Bzip2(n) => Self::wrapped("Bzip2(", decimal_string(*n as u64)),
            CompressionLevel::Zstd(n) => Self::wrapped("Zstd(", signed_decimal_string(*n as i64)),
            CompressionLevel::Xz(n) => Self::wrapped("Xz(", decimal_string(*n as u64)),
            CompressionLevel::Lz4(n) => Self::wrapped("Lz4(", decimal_string(*n as u64)),
        }
    }

    fn wrapped(open: &str, inner: String) -> (s: String)
        ensures
            s@ == open@ + inner@ + ")"@,
    {
        let mut s = String::from_str(open);
        s.append(inner.as_str());
        s.append(")");
        s
    }

    fn mismatch(self, format: ArchiveFormat) -> (e: ArchiveError)
        ensures
            e.is_refusal(mismatch_refusal(self, format)),
    {
        let mut msg = self.debug_text();
        msg.append(" does not apply to ");
        msg.append(format.name());
        msg.append(" archives");
        ArchiveError::InvalidCompressionLevel(msg)
    }

    fn out_of_range(self, expected: &str) -> (e: ArchiveError)
        ensures
            e.is_refusal(out_of_range_refusal(self, expected@)),
    {
        let mut msg = self.debug_text();
        msg.append(" is out of range (expected ");
        msg.append(expected);
        msg.append(")");
        ArchiveError::InvalidCompressionLevel(msg)
    }

    /// The flate2 level to build `format` (a gzip format) with.
    pub fn to_flate2(self, format: ArchiveFormat) -> (r: Result<u32, ArchiveError>)
        ensures
            result_is(r, self.flate2_level(format)),
    {
        match self {
            CompressionLevel::Default => Ok(6),
            CompressionLevel::Gzip(level) => if level <= 9 { Ok(level) } else { Err(self.out_of_range("0..=9")) },
            _ => Err(self.mismatch(format)),
        }
    }

    /// The bzip2 level to build `format` (a bzip2 format) with.
    pub fn to_bzip2(self, format: ArchiveFormat) -> (r: Result<u32, ArchiveError>)
        ensures
            result_is(r, self.bzip2_level(format)),
    {
        match self {
            CompressionLevel::Default => Ok(6),
            CompressionLevel::Bzip2(level) => if 1 <= level && level <= 9 { Ok(level) } else { Err(self.out_of_range("1..=9")) },
            _ => Err(self.mismatch(format)),
        }
    }

    /// The zstd level to build `format` (a zstd format) with.
    pub fn to_zstd(self, format: ArchiveFormat) -> (r: Result<i32, ArchiveError>)
        ensures
            result_is(r, self.zstd_level(format)),
    {
        match self {
            // 0 asks zstd for its own default (currently 3).
            CompressionLevel::Default => Ok(0),
            CompressionLevel::Zstd(level) => if -7 <= level && level <= 22 { Ok(level) } else { Err(self.out_of_range("-7..=22")) },
            _ => Err(self.mismatch(format)),
        }
    }

    /// The xz preset to build `format` (an xz format) with.
    pub fn to_xz_preset(self, format: ArchiveFormat) -> (r: Result<u32, ArchiveError>)
        ensures
            result_is(r, self.xz_preset(format)),
    {
        match self {
            CompressionLevel::Default => Ok(6),
            CompressionLevel::Xz(preset) => if preset <= 9 { Ok(preset) } else { Err(self.out_of_range("0..=9")) },
            _ => Err(self.mismatch(format)),
        }
    }

    /// The lz4 level to build `format` (an lz4 format) with.
    pub fn to_lz4(self, format: ArchiveFormat) -> (r: Result<u32, ArchiveError>)
        ensures
            result_is(r, self.lz4_level(format)),
    {
        match self {
            CompressionLevel::Default => Ok(0),
            CompressionLevel::Lz4(level) => if level <= 16 { Ok(level) } else { Err(self.out_of_range("0..=16")) },
            _ => Err(self.mismatch(format)),
        }
    }

    /// The method and level every entry of a zip archive is written with.
    pub fn to_zip_options(self) -> (r: Result<ZipOptions, ArchiveError>)
        ensures
            result_is(r, self.zip_options()),
    {
        match self {
            CompressionLevel::Default => Ok(ZipOptions { method: ZipMethod::Default, level: None }),
            CompressionLevel::Zip(ZipCompression::Stored) => Ok(ZipOptions { method: ZipMethod::Stored, level: None }),
            CompressionLevel::Zip(ZipCompression::Deflated(level)) =>
                if level <= 9 {
                    Ok(ZipOptions { method: ZipMethod::Deflated, level: Some(level as i64) })
                } else {
                    Err(self.out_of_range("0..=9"))
                },
            _ => Err(self.mismatch(ArchiveFormat::Zip)),
        }
    }

    /// Checks the level for a format that has no compression setting.
    pub fn to_levelless(self, format: ArchiveFormat) -> (r: Result<(), ArchiveError>)
        ensures
            result_is(r, self.levelless(format)),
    {
        match self {
            CompressionLevel::Default => Ok(()),
            _ => Err(self.mismatch(format)),
        }
    }
}

} // verus!
