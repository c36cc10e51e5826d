//! One-shot compression of a byte buffer by the outside compressors.
//!
//! Each function below hands the whole buffer to one compressor and returns
//! the compressed stream. The streams are deterministic: the same input and
//! level always give the same bytes, which the named results below express.

use std::io::Write;
use vstd::prelude::*;

verus! {

/// The gzip stream (no file name, mtime 0) that flate2's `GzEncoder` writes for `data` at `level`.
pub uninterp spec fn gzip_stream(data: Seq<u8>, level: u32) -> Seq<u8>;

/// The gzip stream that flate2's `GzBuilder` writes for `data` at `level`,
/// with `name` as the header's file name and `mtime` as its modification time.
pub uninterp spec fn gzip_named_stream(data: Seq<u8>, level: u32, name: Seq<char>, mtime: u32) -> Seq<u8>;

/// The bzip2 stream that the bzip2 crate's `BzEncoder` writes for `data` at `level`.
pub uninterp spec fn bzip2_stream(data: Seq<u8>, level: u32) -> Seq<u8>;

/// The xz stream that liblzma's `XzEncoder` writes for `data` at `preset`.
pub uninterp spec fn xz_stream(data: Seq<u8>, preset: u32) -> Seq<u8>;

/// The zstd frame that the zstd crate's stream `Encoder` writes for `data` at `level`.
pub uninterp spec fn zstd_stream(data: Seq<u8>, level: i32) -> Seq<u8>;

/// The lz4 frame that the lz4 crate's `Encoder` (default frame settings) writes for `data` at `level`.
pub uninterp spec fn lz4_stream(data: Seq<u8>, level: u32) -> Seq<u8>;

/// Compresses with `flate2::write::GzEncoder::new(Vec::new(), Compression::new(level))`.
/// Claims: it succeeds (the stream is written into a `Vec`, which cannot fail, with
/// settings the encoder accepts), and the bytes are the gzip stream named for `(data, level)`.
#[verifier::external_body]
pub(crate) fn gzip_compress(data: &[u8], level: u32) -> (r: Result<Vec<u8>, std::io::Error>)
    requires
        level <= 9,
    ensures
        r is Ok,
        r matches Ok(v) ==> v@ == gzip_stream(data@, level),
{
    let mut encoder = flate2::write::GzEncoder::new(Vec::new(), flate2::Compression::new(level));
    encoder.write_all(data)?;
    encoder.finish()
}

/// Compresses with `flate2::GzBuilder::new().filename(name).mtime(mtime)` writing at
/// `Compression::new(level)`. `GzBuilder::filename` panics on a name holding a NUL
/// character, which the precondition excludes.
/// Claims: it succeeds (the stream is written into a `Vec`, which cannot fail, with
/// settings the encoder accepts), and the bytes are the gzip stream named for `(data, level, name, mtime)`.
#[verifier::external_body]
pub(crate) fn gzip_compress_named(data: &[u8], level: u32, name: &str, mtime: u32) -> (r: Result<Vec<u8>, std::io::Error>)
    requires
        level <= 9,
        !name@.contains('\0'),
    ensures
        r is Ok,
        r matches Ok(v) ==> v@ == gzip_named_stream(data@, level, name@, mtime),
{
    let builder = flate2::GzBuilder::new().filename(name).mtime(mtime);
    let mut encoder = builder.write(Vec::new(), flate2::Compression::new(level));
    encoder.write_all(data)?;
    encoder.finish()
}

/// Compresses with `bzip2::write::BzEncoder::new(Vec::new(), Compression::new(level))`.
/// `Compression::new` panics outside 1..=9, which the precondition excludes.
/// Claims: it succeeds (the stream is written into a `Vec`, which cannot fail, with
/// settings the encoder accepts), and the bytes are the bzip2 stream named for `(data, level)`.
#[verifier::external_body]
pub(crate) fn bzip2_compress(data: &[u8], level: u32) -> (r: Result<Vec<u8>, std::io::Error>)
    requires
        1 <= level <= 9,
    ensures
        r is Ok,
        r matches Ok(v) ==> v@ == bzip2_stream(data@, level),
{
    let mut encoder = bzip2::write::BzEncoder::new(Vec::new(), bzip2::Compression::new(level));
    encoder.write_all(data)?;
    encoder.finish()
}

/// Compresses with `liblzma::write::XzEncoder::new(Vec::new(), preset)`, which panics
/// on a preset liblzma refuses; the precondition keeps to the plain presets 0..=9.
/// Claims: it succeeds (the stream is written into a `Vec`, which cannot fail, with
/// settings the encoder accepts), and the bytes are the xz stream named for `(data, preset)`.
#[verifier::external_body]
pub(crate) fn xz_compress(data: &[u8], preset: u32) -> (r: Result<Vec<u8>, std::io::Error>)
    requires
        preset <= 9,
    ensures
        r is Ok,
        r matches Ok(v) ==> v@ == xz_stream(data@, preset),
{
    let mut encoder = liblzma::write::XzEncoder::new(Vec::new(), preset);
    encoder.write_all(data)?;
    encoder.finish()
}

/// Compresses with `zstd::stream::write::Encoder::new(Vec::new(), level)`, at one of
/// zstd's levels -7..=22 (0 picks zstd's default).
/// Claims: it succeeds (the stream is written into a `Vec`, which cannot fail, with
/// settings the encoder accepts), and the bytes are the zstd frame named for `(data, level)`.
#[verifier::external_body]
pub(crate) fn zstd_compress(data: &[u8], level: i32) -> (r: Result<Vec<u8>, std::io::Error>)
    requires
        -7 <= level <= 22,
    ensures
        r is Ok,
        r matches Ok(v) ==> v@ == zstd_stream(data@, level),
{
    let mut encoder = zstd::stream::write::Encoder::new(Vec::new(), level)?;
    encoder.write_all(data)?;
    encoder.finish()
}

/// Compresses with `lz4::EncoderBuilder::new().level(level).build(Vec::new())`, at one
/// of lz4's levels 0..=16.
/// Claims: it succeeds (the stream is written into a `Vec`, which cannot fail, with
/// settings the encoder accepts), and the bytes are the lz4 frame named for `(data, level)`.
#[verifier::external_body]
pub(crate) fn lz4_compress(data: &[u8], level: u32) -> (r: Result<Vec<u8>, std::io::Error>)
    requires
        level <= 16,
    ensures
        r is Ok,
        r matches Ok(v) ==> v@ == lz4_stream(data@, level),
{
    let mut encoder = lz4::EncoderBuilder::new().level(level).build(Vec::new())?;
    encoder.write_all(data)?;
    let (bytes, result) = encoder.finish();
    result?;
    Ok(bytes)
}

} // verus!
