//! Properties of the library as a whole, proved from what its functions state.

use vstd::prelude::*;
use crate::builder::{
    build_result, built_bytes, container_of, early_refusal, entries_tar_portable, entry_refusal, expected_bytes,
    level_refusal, surely_written, writer_for, zip_files_ok,
};
use crate::codecs::gzip_stream;
use crate::compression::{CompressionLevel, ZipCompression};
use crate::entry::EntryView;
use crate::error::ArchiveError;
use crate::format::ArchiveFormat;
use crate::model::{
    SEVENZ_UNIX_EXTENSION_FLAG, Writer, container_entry_refusal, writer_accepts, zip_name_of, lemma_no_refusal_means_each_accepted,
    lemma_writes_surely_all, sevenz_attributes, single_file_refusal,
};
use crate::path_safety::is_safe_path;
use crate::tar_writer::{tar_link_accepted, tar_path_accepted};

verus! {

/// The formats a level's documentation names for it; `Default` names all.
pub open spec fn level_applies_to(level: CompressionLevel, format: ArchiveFormat) -> bool {
    match level {
        CompressionLevel::Default => true,
        CompressionLevel::Zip(_) => format == ArchiveFormat::Zip,
        CompressionLevel::Gzip(_) => format == ArchiveFormat::Gz || format == ArchiveFormat::TarGz,
        CompressionLevel::Bzip2(_) => format == ArchiveFormat::Bz2 || format == ArchiveFormat::TarBz2,
        CompressionLevel::Zstd(_) => format == ArchiveFormat::Zst || format == ArchiveFormat::TarZst,
        CompressionLevel::Xz(_) => format == ArchiveFormat::Xz || format == ArchiveFormat::TarXz,
        CompressionLevel::Lz4(_) => format == ArchiveFormat::Lz4 || format == ArchiveFormat::TarLz4,
    }
}

/// The range a level's documentation gives for its value.
pub open spec fn level_in_documented_range(level: CompressionLevel) -> bool {
    match level {
        CompressionLevel::Default => true,
        CompressionLevel::Zip(ZipCompression::Stored) => true,
        CompressionLevel::Zip(ZipCompression::Deflated(n)) => n <= 9,
        CompressionLevel::Gzip(n) => n <= 9,
        CompressionLevel::Bzip2(n) => 1 <= n <= 9,
        CompressionLevel::Zstd(n) => -7 <= n <= 22,
        CompressionLevel::Xz(n) => n <= 9,
        CompressionLevel::Lz4(n) => n <= 16,
    }
}

/// A compression level is accepted for a format exactly when its
/// documentation names that format and its value is in the documented range;
/// `Default` is accepted for every format. Any other level is refused with
/// `InvalidCompressionLevel`.
pub proof fn levels_apply_as_documented(level: CompressionLevel, format: ArchiveFormat)
    ensures
        level_refusal(level, format) is None <==> level_applies_to(level, format) && level_in_documented_range(level),
        level_refusal(level, format) matches Some(f) ==> f is InvalidCompressionLevel,
{
}

/// Unless unsafe paths are allowed, an archive that was built holds no entry
/// whose path, or whose symlink target, is absolute or climbs out with `..`.
pub proof fn built_archives_hold_only_safe_paths(
    allow: bool,
    level: CompressionLevel,
    es: Seq<EntryView>,
    format: ArchiveFormat,
    r: Result<Vec<u8>, ArchiveError>,
)
    requires
        build_result(allow, level, es, format, r),
        r is Ok,
        !allow,
    ensures
        forall|i: int| 0 <= i < es.len() ==> is_safe_path(#[trigger] es[i].path()),
        forall|i: int| 0 <= i < es.len() ==> (#[trigger] es[i] matches EntryView::Symlink { target, .. } ==> is_safe_path(target)),
{
    if format.is_single_file() {
        assert(single_file_refusal(es, allow) is None);
    } else {
        assert(entry_refusal(allow, es, format) is None);
        lemma_no_refusal_means_each_accepted(container_of(format), es, allow);
    }
    assert forall|i: int| 0 <= i < es.len() implies is_safe_path(#[trigger] es[i].path()) by {
        if !format.is_single_file() {
            assert(container_entry_refusal(container_of(format), es[i], allow) is None);
        }
    }
    assert forall|i: int| 0 <= i < es.len() implies
        (#[trigger] es[i] matches EntryView::Symlink { target, .. } ==> is_safe_path(target)) by {
        if !format.is_single_file() {
            assert(container_entry_refusal(container_of(format), es[i], allow) is None);
        }
    }
}

/// An archive that was built holds only what its format can: ar and deb
/// archives only files, 7z archives no symlinks, and a single-file format
/// exactly one file.
pub proof fn built_archives_hold_only_supported_kinds(
    allow: bool,
    level: CompressionLevel,
    es: Seq<EntryView>,
    format: ArchiveFormat,
    r: Result<Vec<u8>, ArchiveError>,
)
    requires
        build_result(allow, level, es, format, r),
        r is Ok,
    ensures
        format == ArchiveFormat::Ar || format == ArchiveFormat::Deb ==> forall|i: int| 0 <= i < es.len() ==> #[trigger] es[i] is File,
        format == ArchiveFormat::SevenZ ==> forall|i: int| 0 <= i < es.len() ==> !(#[trigger] es[i] is Symlink),
        format.is_single_file() ==> es.len() == 1 && es[0] is File,
{
    if format.is_single_file() {
        assert(single_file_refusal(es, allow) is None);
    } else {
        assert(entry_refusal(allow, es, format) is None);
        lemma_no_refusal_means_each_accepted(container_of(format), es, allow);
        assert forall|i: int| 0 <= i < es.len() implies
            (format == ArchiveFormat::Ar || format == ArchiveFormat::Deb ==> #[trigger] es[i] is File)
            && (format == ArchiveFormat::SevenZ ==> !(es[i] is Symlink)) by {
            assert(container_entry_refusal(container_of(format), es[i], allow) is None);
        }
    }
}

/// With the default compression level a `.deb` is built exactly as an `.ar`.
pub proof fn deb_is_built_as_ar(allow: bool, es: Seq<EntryView>, r: Result<Vec<u8>, ArchiveError>)
    ensures
        build_result(allow, CompressionLevel::Default, es, ArchiveFormat::Deb, r)
            <==> build_result(allow, CompressionLevel::Default, es, ArchiveFormat::Ar, r),
{
}

/// The mode packed into a 7z entry's attributes reads back from their upper
/// half (its low 16 bits, all a 7z entry keeps), and the lower half is the
/// Unix-extension flag that says the upper half holds a mode.
pub proof fn sevenz_attributes_keep_mode_bits(mode: u32)
    ensures
        sevenz_attributes(mode) / 0x10000 == mode % 0x10000,
        sevenz_attributes(mode) % 0x10000 == SEVENZ_UNIX_EXTENSION_FLAG,
{
}

/// The entry's path, and a symlink's target, are ones the tar writer always
/// takes: non-empty, free of NUL characters, and (the path) safe.
pub open spec fn plainly_named(e: EntryView) -> bool {
    tar_path_accepted(e.path()) && (e matches EntryView::Symlink { target, .. } ==> tar_link_accepted(target))
}

/// A build that refuses nothing succeeds, with the bytes its format's writer
/// makes of the entries ([`built_bytes`]): always for ar, deb, 7z and the
/// single-file formats; for the tar formats when every entry is
/// [`plainly_named`] (the tar writer itself refuses, for one, an empty path);
/// for zip when the entries have distinct names (as the zip writer files them)
/// that the zip writer takes, and the level is one it starts files with, or
/// there is no file.
pub proof fn builds_that_refuse_nothing_succeed(
    allow: bool,
    level: CompressionLevel,
    es: Seq<EntryView>,
    format: ArchiveFormat,
    r: Result<Vec<u8>, ArchiveError>,
)
    requires
        build_result(allow, level, es, format, r),
        early_refusal(allow, level, es, format) is None,
        entry_refusal(allow, es, format) is None,
        format.is_tar_family() ==> forall|i: int| 0 <= i < es.len() ==> plainly_named(#[trigger] es[i]),
        format == ArchiveFormat::Zip ==> forall|i: int| 0 <= i < es.len()
            ==> writer_accepts(Writer::Zip { files_ok: zip_files_ok(level) }, #[trigger] es[i]),
        format == ArchiveFormat::Zip ==> forall|i: int, j: int| 0 <= i < j < es.len()
            ==> zip_name_of(#[trigger] es[i]) != zip_name_of(#[trigger] es[j]),
    ensures
        r is Ok,
        r matches Ok(v) ==> built_bytes(level, es, format, v@),
{
    if !format.is_single_file() {
        lemma_writes_surely_all(writer_for(level, format), es, allow);
    }
}

/// Compressing a single file with `build_single_file` gives what `build` gives
/// for the list holding just that file: the same bytes, or the same refusal.
pub proof fn single_file_builds_match(
    allow: bool,
    level: CompressionLevel,
    path: Seq<char>,
    data: Seq<u8>,
    format: ArchiveFormat,
    r1: Result<Vec<u8>, ArchiveError>,
    r2: Result<Vec<u8>, ArchiveError>,
)
    requires
        format.is_single_file(),
        build_result(allow, level, seq![EntryView::File { path, data, mode: None, mtime: None }], format, r1),
        build_result(allow, level, seq![EntryView::File { path, data, mode: None, mtime: None }], format, r2),
    ensures
        r1 is Ok <==> r2 is Ok,
        r1 is Ok && r2 is Ok ==> r1->Ok_0@ == r2->Ok_0@,
        r1 is Err && r2 is Err ==> (early_refusal(
            allow,
            level,
            seq![EntryView::File { path, data, mode: None, mtime: None }],
            format,
        ) matches Some(f) && r1->Err_0.is_refusal(f) && r2->Err_0.is_refusal(f)),
{
}

/// A `.tar.gz` is the gzip stream, at the build's gzip level, of the `.tar`
/// of the same entries: when both builds succeed (and every name is written
/// the same on every platform), and whenever every writer call is known to
/// succeed, one build succeeds exactly when the other does.
pub proof fn tar_gz_is_gzipped_tar(
    allow: bool,
    level: CompressionLevel,
    es: Seq<EntryView>,
    r_gz: Result<Vec<u8>, ArchiveError>,
    r_tar: Result<Vec<u8>, ArchiveError>,
)
    requires
        level.flate2_level(ArchiveFormat::TarGz) is Ok,
        build_result(allow, level, es, ArchiveFormat::TarGz, r_gz),
        build_result(allow, CompressionLevel::Default, es, ArchiveFormat::Tar, r_tar),
    ensures
        r_gz is Ok && r_tar is Ok && entries_tar_portable(es)
            ==> r_gz->Ok_0@ == gzip_stream(r_tar->Ok_0@, level.flate2_level(ArchiveFormat::TarGz)->Ok_0),
        surely_written(allow, level, es, ArchiveFormat::TarGz) ==> (r_gz is Ok <==> r_tar is Ok),
{
}

/// Building is deterministic for every format but zip (whose writer also
/// stamps the clock's time and the platform): two successful builds of the
/// same entries with the same settings give the same bytes; for the tar
/// formats, when every name is written the same on every platform.
pub proof fn builds_are_deterministic(
    allow: bool,
    level: CompressionLevel,
    es: Seq<EntryView>,
    format: ArchiveFormat,
    r1: Result<Vec<u8>, ArchiveError>,
    r2: Result<Vec<u8>, ArchiveError>,
)
    requires
        build_result(allow, level, es, format, r1),
        build_result(allow, level, es, format, r2),
        r1 is Ok,
        r2 is Ok,
        format != ArchiveFormat::Zip,
        format.is_tar_family() ==> entries_tar_portable(es),
    ensures
        r1->Ok_0@ == r2->Ok_0@,
{
}

} // verus!
