//! Archive creation: turning a list of [`ArchiveEntry`] values into the raw
//! bytes of an archive. The main entry point is [`ArchiveBuilder`].

use vstd::prelude::*;
use crate::ar_writer::{ar_append, ar_archive_bytes, ar_builder_new, ar_into_bytes, ar_members};
use crate::calendar::{
    civil_time_1980_to_2107, civil_times_are_distinct_moments, is_civil_time_of, lemma_years_1980_to_2107_bounded,
};
use crate::codecs::{
    bzip2_compress, bzip2_stream, gzip_compress, gzip_compress_named, gzip_named_stream, gzip_stream,
    lz4_compress, lz4_stream, xz_compress, xz_stream, zstd_compress, zstd_stream,
};
use crate::compression::{CompressionLevel, ZipMethod, ZipOptions};
use crate::entry::{ArchiveEntry, EntryView, UnixTime, entry_views};
use crate::error::{ArchiveError, Refusal};
use crate::format::ArchiveFormat;
use crate::model::{
    Container, SEVENZ_UNIX_EXTENSION_FLAG, Writer, ar_members_for, first_refused_index,
    lemma_first_refused_index, lemma_writes_surely_at, writer_container, writes_surely,
    NT_EPOCH_OFFSET_NANOS, tar_surely_refuses, civil_of, lemma_zip_stamp_valid, zip_members_for, zip_name_of, zip_stamp,
    first_entry_refusal, gzip_mtime, lemma_first_refusal_of_prefix,
    lemma_first_refusal_step, or_default, refusal_of, sevenz_attributes, sevenz_file_time, sevenz_members_for, single_file_refusal, tar_members_for, unix_mtime,
};
use crate::path_safety::validate_path;
use crate::sevenz_writer::{
    io_error_text, sevenz_archive_bytes, sevenz_error_text,
    sevenz_finish, sevenz_members, sevenz_push_directory, sevenz_push_file, sevenz_writer_new,
};
use crate::tar_writer::{
    TarSink, tar_name_portable, tar_append_directory, tar_append_file, tar_append_symlink,
    tar_append_symlink_without_mode, tar_archive_bytes, tar_builder_new, tar_into_bytes, tar_members,
};
use crate::text::decimal_string;
use crate::zip_writer::{
    ZIP_SMALL_LIMIT, ZipEntryOptions, ZipMember, ZipSink, zip_archive_holds, zip_entry_name, zip_members_small,
    zip_name_free, zip_sound, zip_method_level_ok, zip_words_valid, zip_add_directory, zip_add_file, zip_add_symlink, zip_date_time,
    zip_default_method, zip_finish, zip_members, zip_now, zip_writer_new,
};

verus! {

/// The container kind of a container format.
pub open spec fn container_of(format: ArchiveFormat) -> Container {
    match format {
        ArchiveFormat::Ar | ArchiveFormat::Deb => Container::Ar,
        ArchiveFormat::SevenZ => Container::SevenZ,
        _ => Container::General,
    }
}

/// The zip method id of a method setting: deflate (8) for the writer's
/// default, 0 for stored.
pub open spec fn zip_method_id(m: ZipMethod) -> u16 {
    match m {
        ZipMethod::Stored => 0,
        _ => 8,
    }
}

/// The zip method and level a build uses, when its level is one for zip.
pub open spec fn zip_settings(level: CompressionLevel) -> ZipOptions {
    ok_value(level.zip_options(), ZipOptions { method: ZipMethod::Default, level: None })
}

/// The zip writer starts files with the build's method and level (it refuses
/// `Deflated(0)`: flate2's levels start at 1).
pub open spec fn zip_files_ok(level: CompressionLevel) -> bool {
    zip_method_level_ok(zip_method_id(zip_settings(level).method), zip_settings(level).level)
}

/// The outside writer a container format is written with.
pub open spec fn writer_for(level: CompressionLevel, format: ArchiveFormat) -> Writer {
    match format {
        ArchiveFormat::Zip => Writer::Zip { files_ok: zip_files_ok(level) },
        ArchiveFormat::Ar | ArchiveFormat::Deb => Writer::Ar,
        ArchiveFormat::SevenZ => Writer::SevenZ,
        _ => Writer::Tar,
    }
}

/// Every entry's path, and a symlink's target, are written the same by the
/// tar crate on every platform.
pub open spec fn entries_tar_portable(es: Seq<EntryView>) -> bool {
    forall|i: int| 0 <= i < es.len() ==> tar_name_portable(#[trigger] es[i].path())
        && (es[i] matches EntryView::Symlink { target, .. } ==> tar_name_portable(target))
}

pub open spec fn ok_value<T>(r: Result<T, Refusal>, d: T) -> T {
    match r {
        Ok(v) => v,
        Err(_) => d,
    }
}

/// The refusal of the compression level for `format`: each format takes the
/// level its backend understands, and tar, ar, deb and 7z only `Default`.
pub open spec fn level_refusal(level: CompressionLevel, format: ArchiveFormat) -> Option<Refusal> {
    match format {
        ArchiveFormat::Zip => refusal_of(level.zip_options()),
        ArchiveFormat::Tar | ArchiveFormat::Ar | ArchiveFormat::Deb | ArchiveFormat::SevenZ => refusal_of(level.levelless(format)),
        ArchiveFormat::TarGz | ArchiveFormat::Gz => refusal_of(level.flate2_level(format)),
        ArchiveFormat::TarBz2 | ArchiveFormat::Bz2 => refusal_of(level.bzip2_level(format)),
        ArchiveFormat::TarXz | ArchiveFormat::Xz => refusal_of(level.xz_preset(format)),
        ArchiveFormat::TarZst | ArchiveFormat::Zst => refusal_of(level.zstd_level(format)),
        ArchiveFormat::TarLz4 | ArchiveFormat::Lz4 => refusal_of(level.lz4_level(format)),
    }
}

/// What building refuses before anything is written: the compression level,
/// and for the single-file formats first the entry list.
pub open spec fn early_refusal(allow: bool, level: CompressionLevel, es: Seq<EntryView>, format: ArchiveFormat) -> Option<Refusal> {
    if format.is_single_file() && single_file_refusal(es, allow) is Some {
        single_file_refusal(es, allow)
    } else {
        level_refusal(level, format)
    }
}

/// What a container format refuses of its entries, checked in order while
/// they are written: the first entry of a kind it cannot hold or with an
/// unsafe path (or symlink target).
pub open spec fn entry_refusal(allow: bool, es: Seq<EntryView>, format: ArchiveFormat) -> Option<Refusal> {
    if format.is_single_file() {
        None
    } else {
        first_entry_refusal(container_of(format), es, allow)
    }
}

/// Every call that building makes into an outside writer or compressor is
/// one that is known to succeed: the single-file compressors always do, and a
/// container writer does when [`writes_surely`] holds of its entries.
pub open spec fn surely_written(allow: bool, level: CompressionLevel, es: Seq<EntryView>, format: ArchiveFormat) -> bool {
    format.is_single_file() || writes_surely(writer_for(level, format), es, allow)
}

/// The bytes a successful build gives: for zip, a zip archive holding the
/// entries' members (with the date and time words of when the build started,
/// for entries without an mtime); for the tar formats, the expected bytes when
/// every name is written the same on every platform; otherwise the expected
/// bytes.
pub open spec fn built_bytes(level: CompressionLevel, es: Seq<EntryView>, format: ArchiveFormat, bytes: Seq<u8>) -> bool {
    if format == ArchiveFormat::Zip {
        exists|now: (u16, u16)|
            #![trigger zip_members_for(es, zip_method_id(zip_settings(level).method), zip_settings(level).level, now)]
            zip_words_valid(now.0, now.1) && zip_archive_holds(
                zip_members_for(es, zip_method_id(zip_settings(level).method), zip_settings(level).level, now),
                bytes,
            )
    } else if format.is_tar_family() {
        entries_tar_portable(es) ==> expected_bytes(level, es, format) == Some(bytes)
    } else {
        expected_bytes(level, es, format) == Some(bytes)
    }
}

/// The bytes of the archive when nothing is refused and no writer fails.
/// `None` for zip, whose bytes the zip writer also takes from the clock
/// and the platform (see [`built_bytes`]).
pub open spec fn expected_bytes(level: CompressionLevel, es: Seq<EntryView>, format: ArchiveFormat) -> Option<Seq<u8>> {
    let tar = tar_archive_bytes(tar_members_for(es));
    match format {
        ArchiveFormat::Zip => None,
        ArchiveFormat::Tar => Some(tar),
        ArchiveFormat::TarGz => Some(gzip_stream(tar, ok_value(level.flate2_level(format), 0u32))),
        ArchiveFormat::TarBz2 => Some(bzip2_stream(tar, ok_value(level.bzip2_level(format), 0u32))),
        ArchiveFormat::TarXz => Some(xz_stream(tar, ok_value(level.xz_preset(format), 0u32))),
        ArchiveFormat::TarZst => Some(zstd_stream(tar, ok_value(level.zstd_level(format), 0i32))),
        ArchiveFormat::TarLz4 => Some(lz4_stream(tar, ok_value(level.lz4_level(format), 0u32))),
        ArchiveFormat::Ar | ArchiveFormat::Deb => Some(ar_archive_bytes(ar_members_for(es))),
        ArchiveFormat::SevenZ => Some(sevenz_archive_bytes(sevenz_members_for(es))),
        ArchiveFormat::Gz => Some(gzip_named_stream(
            es[0].data(),
            ok_value(level.flate2_level(format), 0u32),
            es[0].path(),
            or_default(gzip_mtime(es[0].mtime()), 0u32),
        )),
        ArchiveFormat::Bz2 => Some(bzip2_stream(es[0].data(), ok_value(level.bzip2_level(format), 0u32))),
        ArchiveFormat::Xz => Some(xz_stream(es[0].data(), ok_value(level.xz_preset(format), 0u32))),
        ArchiveFormat::Zst => Some(zstd_stream(es[0].data(), ok_value(level.zstd_level(format), 0i32))),
        ArchiveFormat::Lz4 => Some(lz4_stream(es[0].data(), ok_value(level.lz4_level(format), 0u32))),
    }
}

/// `r` is what building `es` as `format` gives: the early refusal exactly;
/// else the first entry refusal; else [`built_bytes`], but never success where
/// the tar writer surely refuses an entry it is handed. Where some call into
/// an outside writer is not known to succeed (not [`surely_written`]), the
/// writer's failure may come instead.
pub open spec fn build_result(
    allow: bool,
    level: CompressionLevel,
    es: Seq<EntryView>,
    format: ArchiveFormat,
    r: Result<Vec<u8>, ArchiveError>,
) -> bool {
    match early_refusal(allow, level, es, format) {
        Some(f) => r matches Err(e) && e.is_refusal(f),
        None => match entry_refusal(allow, es, format) {
            Some(f) => r matches Err(e) && (e.is_refusal(f)
                || (e.is_backend_failure() && !surely_written(allow, level, es, format))),
            None => match r {
                Ok(bytes) => built_bytes(level, es, format, bytes@)
                    && !(format.is_tar_family() && tar_surely_refuses(es, allow)),
                Err(e) => e.is_backend_failure() && !surely_written(allow, level, es, format),
            },
        },
    }
}

/// The gzip header cannot hold a file name with a NUL character: the single
/// file that a `.gz` archive would be written from has none.
pub open spec fn gzip_name_ok(allow: bool, es: Seq<EntryView>, format: ArchiveFormat) -> bool {
    format == ArchiveFormat::Gz && single_file_refusal(es, allow) is None ==> !es[0].path().contains('\0')
}

/// The 7z entry fields that carry an entry's mode and modification time.
#[derive(Debug, Clone, Copy, PartialEq, Eq, Structural)]
pub struct SevenZMetadata {
    pub has_windows_attributes: bool,
    pub windows_attributes: u32,
    pub has_last_modified_date: bool,
    pub last_modified_date: u64,
}

/// Builds archives in-memory from a list of [`ArchiveEntry`] values.
///
/// Entry paths (and symlink targets) are validated before they are written,
/// so a caller assembling entries from less-trusted filenames can't
/// accidentally produce an archive containing `..` or absolute paths.
///
/// Supports every format of [`ArchiveFormat`], except `.7z` symlinks and
/// `.ar`/`.deb` directories or symlinks (the ar format has no concept of
/// either — it's a flat list of named byte blobs).
#[derive(Debug, Clone)]
pub struct ArchiveBuilder {
    allow_unsafe_path_traversals: bool,
    compression_level: CompressionLevel,
}

impl Default for ArchiveBuilder {
    fn default() -> (b: Self)
        ensures
            !b.unsafe_paths_allowed(),
            b.level() == CompressionLevel::Default,
    {
        ArchiveBuilder { allow_unsafe_path_traversals: false, compression_level: CompressionLevel::Default }
    }
}

impl ArchiveBuilder {
    /// Whether entry paths may be absolute or contain `..`.
    pub closed spec fn unsafe_paths_allowed(self) -> bool {
        self.allow_unsafe_path_traversals
    }

    /// The compression effort archives are built with.
    pub closed spec fn level(self) -> CompressionLevel {
        self.compression_level
    }

    /// Whether this builder lets entry paths be absolute or contain `..`.
    pub fn unsafe_path_traversals_allowed(&self) -> (b: bool)
        ensures
            b == self.unsafe_paths_allowed(),
    {
        self.allow_unsafe_path_traversals
    }

    /// Creates a new archive builder: unsafe paths refused, default compression.
    pub fn new() -> (b: Self)
        ensures
            !b.unsafe_paths_allowed(),
            b.level() == CompressionLevel::Default,
    {
        Self::default()
    }

    /// Controls whether entry paths (and symlink targets) are allowed to
    /// contain `..` components or be absolute. By default (`false`), building
    /// rejects any such entry with [`ArchiveError::UnsafePath`].
    pub fn allow_unsafe_path_traversals(self, allow: bool) -> (b: Self)
        ensures
            b.unsafe_paths_allowed() == allow,
            b.level() == self.level(),
    {
        let mut b = self;
        b.allow_unsafe_path_traversals = allow;
        b
    }

    /// Sets the compression effort used when building the archive. A level
    /// that does not apply to the target format, or whose value is out of
    /// range, makes building fail with [`ArchiveError::InvalidCompressionLevel`].
    pub fn compression_level(self, level: CompressionLevel) -> (b: Self)
        ensures
            b.unsafe_paths_allowed() == self.unsafe_paths_allowed(),
            b.level() == level,
    {
        let mut b = self;
        b.compression_level = level;
        b
    }

    /// Builds an archive of `format` from `entries`.
    ///
    /// Fails with [`ArchiveError::UnsafePath`] for an unsafe entry path or
    /// symlink target, with [`ArchiveError::UnsupportedFormat`] for an entry
    /// kind the format cannot hold (or, for single-file formats, anything but
    /// exactly one file), with [`ArchiveError::InvalidCompressionLevel`] for a
    /// level that does not fit the format, and with the writer's error when a
    /// writer fails.
    pub fn build(&self, entries: &[ArchiveEntry], format: ArchiveFormat) -> (r: Result<Vec<u8>, ArchiveError>)
        requires
            gzip_name_ok(self.unsafe_paths_allowed(), entry_views(entries@), format),
        ensures
            build_result(self.unsafe_paths_allowed(), self.level(), entry_views(entries@), format, r),
    {
        match format {
            ArchiveFormat::Zip => self.build_zip(entries),
            ArchiveFormat::Tar => self.build_tar(entries),
            ArchiveFormat::TarGz => self.build_tar_gz(entries),
            ArchiveFormat::TarBz2 => self.build_tar_bz2(entries),
            ArchiveFormat::TarXz => self.build_tar_xz(entries),
            ArchiveFormat::TarZst => self.build_tar_zst(entries),
            ArchiveFormat::TarLz4 => self.build_tar_lz4(entries),
            ArchiveFormat::Ar => self.build_ar(entries, format),
            ArchiveFormat::Deb => self.build_ar(entries, format),
            ArchiveFormat::SevenZ => self.build_7z(entries),
            ArchiveFormat::Gz => self.build_single_gz(entries),
            ArchiveFormat::Bz2 => self.build_single_bz2(entries),
            ArchiveFormat::Xz => self.build_single_xz(entries),
            ArchiveFormat::Lz4 => self.build_single_lz4(entries),
            ArchiveFormat::Zst => self.build_single_zst(entries),
        }
    }
}

impl ArchiveBuilder {
    /// An `mtime` as the Unix seconds tar and ar headers hold. A time before
    /// 1970 can't be represented there, so it is omitted (left at the header
    /// default) rather than rejected.
    fn tar_mtime_secs(mtime: Option<UnixTime>) -> (r: Option<u64>)
        ensures
            r == unix_mtime(mtime),
    {
        match mtime {
            Some(t) => {
                let secs = t.whole_seconds();
                if secs >= 0 { Some(secs as u64) } else { None }
            },
            None => None,
        }
    }

    /// Appends `entries` onto a tar builder, checking each path (and symlink
    /// target) before the entry is written. Every tar-family format shares it.
    fn write_tar_entries(builder: &mut TarSink, entries: &[ArchiveEntry], allow_unsafe_path_traversals: bool)
        -> (r: Result<(), ArchiveError>)
        ensures
            match first_entry_refusal(Container::General, entry_views(entries@), allow_unsafe_path_traversals) {
                Some(f) => r matches Err(e) && ((e.is_refusal(f) && tar_members(*final(builder))
                        == tar_members(*old(builder)) + tar_members_for(entry_views(entries@).take(
                            first_refused_index(Container::General, entry_views(entries@), allow_unsafe_path_traversals))))
                    || (e.is_backend_failure() && !writes_surely(Writer::Tar, entry_views(entries@), allow_unsafe_path_traversals))),
                None => match r {
                    Ok(_) => tar_members(*final(builder))
                        == tar_members(*old(builder)) + tar_members_for(entry_views(entries@))
                        && !tar_surely_refuses(entry_views(entries@), allow_unsafe_path_traversals),
                    Err(e) => e.is_backend_failure() && !writes_surely(Writer::Tar, entry_views(entries@), allow_unsafe_path_traversals),
                },
            },
    {
        let ghost es = entry_views(entries@);
        let ghost allow = allow_unsafe_path_traversals;
        let mut i: usize = 0;
        while i < entries.len()
            invariant
                0 <= i <= entries.len(),
                es == entry_views(entries@),
                allow == allow_unsafe_path_traversals,
                first_entry_refusal(Container::General, es.take(i as int), allow) is None,
                tar_members(*builder) == tar_members(*old(builder)) + tar_members_for(es.take(i as int)),
                !tar_surely_refuses(es.take(i as int), allow),
            decreases entries.len() - i,
        {
            proof {
                lemma_first_refusal_step(Container::General, es, i as int, allow);
            }
            let entry = &entries[i];
            assert(entry@ == es[i as int]);
            match entry {
                ArchiveEntry::File { path, data, mode, mtime } => {
                    if let Err(e) = validate_path(path.as_str(), allow_unsafe_path_traversals) {
                        proof {
                            lemma_first_refusal_of_prefix(Container::General, es, i + 1, allow);
                            lemma_first_refused_index(Container::General, es, i as int, allow);
                        }
                        return Err(e);
                    }
                    let m: u32 = match mode {
                        Some(m) => *m,
                        None => 0o644,
                    };
                    let t: u64 = match Self::tar_mtime_secs(*mtime) {
                        Some(s) => s,
                        None => 0,
                    };
                    if let Err(e) = tar_append_file(builder, path.as_str(), data.as_slice(), m, t) {
                        proof {
                            if writes_surely(Writer::Tar, es, allow) {
                                lemma_writes_surely_at(Writer::Tar, es, i as int, allow);
                            }
                        }
                        return Err(ArchiveError::Io(e));
                    }
                },
                ArchiveEntry::Directory { path, mode, mtime } => {
                    if let Err(e) = validate_path(path.as_str(), allow_unsafe_path_traversals) {
                        proof {
                            lemma_first_refusal_of_prefix(Container::General, es, i + 1, allow);
                            lemma_first_refused_index(Container::General, es, i as int, allow);
                        }
                        return Err(e);
                    }
                    let m: u32 = match mode {
                        Some(m) => *m,
                        None => 0o755,
                    };
                    let t: u64 = match Self::tar_mtime_secs(*mtime) {
                        Some(s) => s,
                        None => 0,
                    };
                    if let Err(e) = tar_append_directory(builder, path.as_str(), m, t) {
                        proof {
                            if writes_surely(Writer::Tar, es, allow) {
                                lemma_writes_surely_at(Writer::Tar, es, i as int, allow);
                            }
                        }
                        return Err(ArchiveError::Io(e));
                    }
                },
                ArchiveEntry::Symlink { path, target, mode, mtime } => {
                    if let Err(e) = validate_path(path.as_str(), allow_unsafe_path_traversals) {
                        proof {
                            lemma_first_refusal_of_prefix(Container::General, es, i + 1, allow);
                            lemma_first_refused_index(Container::General, es, i as int, allow);
                        }
                        return Err(e);
                    }
                    if let Err(e) = validate_path(target.as_str(), allow_unsafe_path_traversals) {
                        proof {
                            lemma_first_refusal_of_prefix(Container::General, es, i + 1, allow);
                            lemma_first_refused_index(Container::General, es, i as int, allow);
                        }
                        return Err(e);
                    }
                    let t: u64 = match Self::tar_mtime_secs(*mtime) {
                        Some(s) => s,
                        None => 0,
                    };
                    let appended = match mode {
                        Some(m) => tar_append_symlink(builder, path.as_str(), target.as_str(), *m, t),
                        None => tar_append_symlink_without_mode(builder, path.as_str(), target.as_str(), t),
                    };
                    if let Err(e) = appended {
                        proof {
                            if writes_surely(Writer::Tar, es, allow) {
                                lemma_writes_surely_at(Writer::Tar, es, i as int, allow);
                            }
                        }
                        return Err(ArchiveError::Io(e));
                    }
                },
            }
            proof {
                assert(tar_members_for(es.take(i + 1)) =~= tar_members_for(es.take(i as int)).push(
                    crate::model::tar_member(es[i as int]),
                ));
                assert(es.take(i + 1).drop_last() =~= es.take(i as int));
                assert(es.take(i + 1).last() == es[i as int]);
            }
            i = i + 1;
        }
        proof {
            assert(es.take(entries.len() as int) =~= es);
        }
        Ok(())
    }

    /// The tar archive of `entries`, before any compression.
    fn tar_archive(&self, entries: &[ArchiveEntry]) -> (r: Result<Vec<u8>, ArchiveError>)
        ensures
            match first_entry_refusal(Container::General, entry_views(entries@), self.unsafe_paths_allowed()) {
                Some(f) => r matches Err(e) && (e.is_refusal(f) || (e.is_backend_failure()
                    && !writes_surely(Writer::Tar, entry_views(entries@), self.unsafe_paths_allowed()))),
                None => match r {
                    Ok(v) => (entries_tar_portable(entry_views(entries@))
                        ==> v@ == tar_archive_bytes(tar_members_for(entry_views(entries@))))
                        && !tar_surely_refuses(entry_views(entries@), self.unsafe_paths_allowed()),
                    Err(e) => e.is_backend_failure() && !writes_surely(Writer::Tar, entry_views(entries@), self.unsafe_paths_allowed()),
                },
            },
    {
        let mut builder = tar_builder_new();
        Self::write_tar_entries(&mut builder, entries, self.allow_unsafe_path_traversals)?;
        proof {
            let es = entry_views(entries@);
            assert(Seq::<crate::tar_writer::TarMember>::empty() + tar_members_for(es) =~= tar_members_for(es));
            if entries_tar_portable(es) {
                assert forall|i: int| 0 <= i < tar_members_for(es).len() implies
                    tar_name_portable(#[trigger] tar_members_for(es)[i].path)
                    && (tar_members_for(es)[i].kind == crate::tar_writer::MemberKind::Symlink
                        ==> tar_name_portable(tar_members_for(es)[i].target)) by {
                    assert(tar_name_portable(es[i].path()));
                }
            }
        }
        match tar_into_bytes(builder) {
            Ok(v) => Ok(v),
            Err(e) => Err(ArchiveError::Io(e)),
        }
    }

    fn build_tar(&self, entries: &[ArchiveEntry]) -> (r: Result<Vec<u8>, ArchiveError>)
        ensures
            build_result(self.unsafe_paths_allowed(), self.level(), entry_views(entries@), ArchiveFormat::Tar, r),
    {
        self.compression_level.to_levelless(ArchiveFormat::Tar)?;
        self.tar_archive(entries)
    }

    fn build_tar_gz(&self, entries: &[ArchiveEntry]) -> (r: Result<Vec<u8>, ArchiveError>)
        ensures
            build_result(self.unsafe_paths_allowed(), self.level(), entry_views(entries@), ArchiveFormat::TarGz, r),
    {
        let level = self.compression_level.to_flate2(ArchiveFormat::TarGz)?;
        let tar = self.tar_archive(entries)?;
        match gzip_compress(tar.as_slice(), level) {
            Ok(v) => Ok(v),
            Err(e) => Err(ArchiveError::Io(e)),
        }
    }

    fn build_tar_bz2(&self, entries: &[ArchiveEntry]) -> (r: Result<Vec<u8>, ArchiveError>)
        ensures
            build_result(self.unsafe_paths_allowed(), self.level(), entry_views(entries@), ArchiveFormat::TarBz2, r),
    {
        let level = self.compression_level.to_bzip2(ArchiveFormat::TarBz2)?;
        let tar = self.tar_archive(entries)?;
        match bzip2_compress(tar.as_slice(), level) {
            Ok(v) => Ok(v),
            Err(e) => Err(ArchiveError::Io(e)),
        }
    }

    fn build_tar_zst(&self, entries: &[ArchiveEntry]) -> (r: Result<Vec<u8>, ArchiveError>)
        ensures
            build_result(self.unsafe_paths_allowed(), self.level(), entry_views(entries@), ArchiveFormat::TarZst, r),
    {
        let level = self.compression_level.to_zstd(ArchiveFormat::TarZst)?;
        let tar = self.tar_archive(entries)?;
        match zstd_compress(tar.as_slice(), level) {
            Ok(v) => Ok(v),
            Err(e) => Err(ArchiveError::Io(e)),
        }
    }

    fn build_tar_lz4(&self, entries: &[ArchiveEntry]) -> (r: Result<Vec<u8>, ArchiveError>)
        ensures
            build_result(self.unsafe_paths_allowed(), self.level(), entry_views(entries@), ArchiveFormat::TarLz4, r),
    {
        let level = self.compression_level.to_lz4(ArchiveFormat::TarLz4)?;
        let tar = self.tar_archive(entries)?;
        match lz4_compress(tar.as_slice(), level) {
            Ok(v) => Ok(v),
            Err(e) => Err(ArchiveError::Io(e)),
        }
    }

    /// Encoding goes through `liblzma`, whose xz encoder produces real LZMA2
    /// compression.
    fn build_tar_xz(&self, entries: &[ArchiveEntry]) -> (r: Result<Vec<u8>, ArchiveError>)
        ensures
            build_result(self.unsafe_paths_allowed(), self.level(), entry_views(entries@), ArchiveFormat::TarXz, r),
    {
        let preset = self.compression_level.to_xz_preset(ArchiveFormat::TarXz)?;
        let tar = self.tar_archive(entries)?;
        match xz_compress(tar.as_slice(), preset) {
            Ok(v) => Ok(v),
            Err(e) => Err(ArchiveError::Io(e)),
        }
    }
}


impl ArchiveBuilder {
    /// Layers an entry's `mode` and `mtime`, if present, onto the base zip
    /// options that carry the builder's compression settings and the kind's
    /// default permissions. An `mtime` before 1980 or after 2107 (outside
    /// what zip's MS-DOS timestamp can represent) is silently omitted rather
    /// than rejected: the base time stays.
    fn zip_file_options(base: ZipEntryOptions, mode: Option<u32>, mtime: Option<UnixTime>) -> (o: ZipEntryOptions)
        ensures
            o == (ZipEntryOptions {
                method: base.method,
                level: base.level,
                permissions: or_default(mode, base.permissions),
                datepart: zip_stamp(mtime, (base.datepart, base.timepart)).0,
                timepart: zip_stamp(mtime, (base.datepart, base.timepart)).1,
            }),
    {
        let mut options = base;
        if let Some(mode) = mode {
            options.permissions = mode;
        }
        if let Some(time) = mtime {
            let secs = time.whole_seconds();
            proof {
                lemma_years_1980_to_2107_bounded(secs as int);
            }
            let c = if i64::MIN as i128 <= secs && secs <= i64::MAX as i128 {
                civil_time_1980_to_2107(secs as i64)
            } else {
                None
            };
            if let Some(c) = c {
                let stamp = zip_date_time(c.year, c.month, c.day, c.hour, c.minute, c.second);
                proof {
                    let d = civil_of(secs as int);
                    assert(is_civil_time_of(c, secs as int));
                    assert(is_civil_time_of(d, secs as int));
                    civil_times_are_distinct_moments(c, d);
                }
                assert(crate::calendar::month_length(c.year as int, c.month as int)
                    == crate::zip_writer::zip_max_day(c.year as int, c.month as int));
                assert(stamp is Some);
                if let Some((datepart, timepart)) = stamp {
                    options.datepart = datepart;
                    options.timepart = timepart;
                }
            }
        }
        options
    }

    /// Hands `entries` to a fresh zip writer, checking each path (and symlink
    /// target) before the entry is written, with the method and level of the
    /// build and `now` as the time of entries without one.
    fn write_zip_entries(
        writer: &mut ZipSink,
        entries: &[ArchiveEntry],
        allow_unsafe_path_traversals: bool,
        method: u16,
        level: Option<i64>,
        now: (u16, u16),
    ) -> (r: Result<(), ArchiveError>)
        requires
            zip_sound(*old(writer)),
            zip_members(*old(writer)) == Seq::<ZipMember>::empty(),
            zip_words_valid(now.0, now.1),
        ensures
            match first_entry_refusal(Container::General, entry_views(entries@), allow_unsafe_path_traversals) {
                Some(f) => r matches Err(e) && ((e.is_refusal(f) && zip_members(*final(writer))
                        == zip_members_for(entry_views(entries@).take(
                            first_refused_index(Container::General, entry_views(entries@), allow_unsafe_path_traversals)),
                            method, level, now))
                    || (e.is_backend_failure() && !writes_surely(
                        Writer::Zip { files_ok: zip_method_level_ok(method, level) },
                        entry_views(entries@),
                        allow_unsafe_path_traversals,
                    ))),
                None => match r {
                    Ok(_) => zip_members(*final(writer)) == zip_members_for(entry_views(entries@), method, level, now)
                        && zip_sound(*final(writer))
                        && (writes_surely(
                            Writer::Zip { files_ok: zip_method_level_ok(method, level) },
                            entry_views(entries@),
                            allow_unsafe_path_traversals,
                        ) ==> zip_members_small(zip_members(*final(writer)))),
                    Err(e) => e.is_backend_failure() && !writes_surely(
                        Writer::Zip { files_ok: zip_method_level_ok(method, level) },
                        entry_views(entries@),
                        allow_unsafe_path_traversals,
                    ),
                },
            },
    {
        let ghost es = entry_views(entries@);
        let ghost allow = allow_unsafe_path_traversals;
        let ghost w = Writer::Zip { files_ok: zip_method_level_ok(method, level) };
        let (datepart, timepart) = now;
        let mut i: usize = 0;
        while i < entries.len()
            invariant
                0 <= i <= entries.len(),
                es == entry_views(entries@),
                allow == allow_unsafe_path_traversals,
                w == (Writer::Zip { files_ok: zip_method_level_ok(method, level) }),
                now == (datepart, timepart),
                zip_words_valid(now.0, now.1),
                first_entry_refusal(Container::General, es.take(i as int), allow) is None,
                zip_members(*writer) == zip_members_for(es.take(i as int), method, level, now),
                zip_sound(*writer),
                writes_surely(w, es, allow) ==> zip_members_small(zip_members(*writer)),
            decreases entries.len() - i,
        {
            proof {
                lemma_first_refusal_step(Container::General, es, i as int, allow);
            }
            let entry = &entries[i];
            assert(entry@ == es[i as int]);
            let ghost members = zip_members(*writer);
            match entry {
                ArchiveEntry::File { path, data, mode, mtime } => {
                    if let Err(e) = validate_path(path.as_str(), allow_unsafe_path_traversals) {
                        proof {
                            lemma_first_refusal_of_prefix(Container::General, es, i + 1, allow);
                            lemma_first_refused_index(Container::General, es, i as int, allow);
                        }
                        return Err(e);
                    }
                    let base = ZipEntryOptions { method, level, permissions: 0o644, datepart, timepart };
                    let options = Self::zip_file_options(base, *mode, *mtime);
                    proof {
                        lemma_zip_stamp_valid(*mtime, now);
                        if writes_surely(w, es, allow) {
                            lemma_writes_surely_at(w, es, i as int, allow);
                            Self::lemma_zip_names_free(es, i as int, method, level, now);
                        }
                    }
                    if let Err(e) = zip_add_file(writer, path.as_str(), data.as_slice(), options) {
                        return Err(ArchiveError::Zip(e));
                    }
                },
                ArchiveEntry::Directory { path, mode, mtime } => {
                    if let Err(e) = validate_path(path.as_str(), allow_unsafe_path_traversals) {
                        proof {
                            lemma_first_refusal_of_prefix(Container::General, es, i + 1, allow);
                            lemma_first_refused_index(Container::General, es, i as int, allow);
                        }
                        return Err(e);
                    }
                    let base = ZipEntryOptions { method, level, permissions: 0o755, datepart, timepart };
                    let options = Self::zip_file_options(base, *mode, *mtime);
                    proof {
                        lemma_zip_stamp_valid(*mtime, now);
                        if writes_surely(w, es, allow) {
                            lemma_writes_surely_at(w, es, i as int, allow);
                            Self::lemma_zip_names_free(es, i as int, method, level, now);
                        }
                    }
                    if let Err(e) = zip_add_directory(writer, path.as_str(), options) {
                        return Err(ArchiveError::Zip(e));
                    }
                },
                ArchiveEntry::Symlink { path, target, mode, mtime } => {
                    if let Err(e) = validate_path(path.as_str(), allow_unsafe_path_traversals) {
                        proof {
                            lemma_first_refusal_of_prefix(Container::General, es, i + 1, allow);
                            lemma_first_refused_index(Container::General, es, i as int, allow);
                        }
                        return Err(e);
                    }
                    if let Err(e) = validate_path(target.as_str(), allow_unsafe_path_traversals) {
                        proof {
                            lemma_first_refusal_of_prefix(Container::General, es, i + 1, allow);
                            lemma_first_refused_index(Container::General, es, i as int, allow);
                        }
                        return Err(e);
                    }
                    let base = ZipEntryOptions { method, level, permissions: 0o777, datepart, timepart };
                    let options = Self::zip_file_options(base, *mode, *mtime);
                    proof {
                        lemma_zip_stamp_valid(*mtime, now);
                        if writes_surely(w, es, allow) {
                            lemma_writes_surely_at(w, es, i as int, allow);
                            Self::lemma_zip_names_free(es, i as int, method, level, now);
                        }
                    }
                    if let Err(e) = zip_add_symlink(writer, path.as_str(), target.as_str(), options) {
                        return Err(ArchiveError::Zip(e));
                    }
                },
            }
            proof {
                assert(zip_members_for(es.take(i + 1), method, level, now) =~= zip_members_for(
                    es.take(i as int), method, level, now).push(crate::model::zip_member(es[i as int], method, level, now)));
                if writes_surely(w, es, allow) {
                    lemma_writes_surely_at(w, es, i as int, allow);
                    assert forall|j: int| 0 <= j < zip_members(*writer).len() implies
                        (#[trigger] zip_members(*writer)[j]).data.len() <= ZIP_SMALL_LIMIT
                        && 4 * zip_members(*writer)[j].target.len() <= ZIP_SMALL_LIMIT by {
                        if j < i {
                            assert(zip_members(*writer)[j] == members[j]);
                        }
                    }
                }
            }
            i = i + 1;
        }
        proof {
            assert(es.take(entries.len() as int) =~= es);
        }
        Ok(())
    }

    /// The members handed to the zip writer before entry `i` are filed under
    /// names other than entry `i`'s, when the entries' names differ.
    proof fn lemma_zip_names_free(es: Seq<EntryView>, i: int, method: u16, level: Option<i64>, now: (u16, u16))
        requires
            0 <= i < es.len(),
            forall|j: int| 0 <= j < i ==> zip_name_of(#[trigger] es[j]) != zip_name_of(es[i]),
        ensures
            zip_name_free(zip_members_for(es.take(i), method, level, now), zip_name_of(es[i])),
    {
        let ms = zip_members_for(es.take(i), method, level, now);
        assert forall|j: int| 0 <= j < ms.len() implies
            zip_entry_name(#[trigger] ms[j].kind, ms[j].path) != zip_name_of(es[i]) by {
            assert(es.take(i)[j] == es[j]);
            assert(zip_entry_name(ms[j].kind, ms[j].path) == zip_name_of(es[j]));
        }
    }

    fn build_zip(&self, entries: &[ArchiveEntry]) -> (r: Result<Vec<u8>, ArchiveError>)
        ensures
            build_result(self.unsafe_paths_allowed(), self.level(), entry_views(entries@), ArchiveFormat::Zip, r),
    {
        let settings = self.compression_level.to_zip_options()?;
        let method: u16 = match settings.method {
            ZipMethod::Default => zip_default_method(),
            ZipMethod::Stored => 0,
            ZipMethod::Deflated => 8,
        };
        let now = zip_now();
        let mut writer = zip_writer_new();
        Self::write_zip_entries(&mut writer, entries, self.allow_unsafe_path_traversals, method, settings.level, now)?;
        match zip_finish(writer) {
            Ok(v) => Ok(v),
            Err(e) => Err(ArchiveError::Zip(e)),
        }
    }

    fn build_ar(&self, entries: &[ArchiveEntry], format: ArchiveFormat) -> (r: Result<Vec<u8>, ArchiveError>)
        requires
            format == ArchiveFormat::Ar || format == ArchiveFormat::Deb,
        ensures
            build_result(self.unsafe_paths_allowed(), self.level(), entry_views(entries@), format, r),
    {
        self.compression_level.to_levelless(format)?;
        let mut builder = ar_builder_new();
        let ghost es = entry_views(entries@);
        let ghost allow = self.unsafe_paths_allowed();
        let mut i: usize = 0;
        while i < entries.len()
            invariant
                0 <= i <= entries.len(),
                es == entry_views(entries@),
                allow == self.unsafe_paths_allowed(),
                format == ArchiveFormat::Ar || format == ArchiveFormat::Deb,
                early_refusal(allow, self.level(), es, format) is None,
                first_entry_refusal(Container::Ar, es.take(i as int), allow) is None,
                ar_members(builder) == ar_members_for(es.take(i as int)),
            decreases entries.len() - i,
        {
            proof {
                lemma_first_refusal_step(Container::Ar, es, i as int, allow);
            }
            let entry = &entries[i];
            assert(entry@ == es[i as int]);
            match entry {
                ArchiveEntry::File { path, data, mode, mtime } => {
                    if let Err(e) = validate_path(path.as_str(), self.allow_unsafe_path_traversals) {
                        proof {
                            lemma_first_refusal_of_prefix(Container::Ar, es, i + 1, allow);
                        }
                        return Err(e);
                    }
                    // ar::Header::new defaults mode to 0, unlike the tar/zip paths which fall
                    // back to a sane default when the entry doesn't carry one.
                    let m: u32 = match mode {
                        Some(m) => *m,
                        None => 0o644,
                    };
                    let t: u64 = match Self::tar_mtime_secs(*mtime) {
                        Some(s) => s,
                        None => 0,
                    };
                    if let Err(e) = ar_append(&mut builder, path.as_str(), data.as_slice(), m, t) {
                        return Err(ArchiveError::Io(e));
                    }
                },
                _ => {
                    proof {
                        lemma_first_refusal_of_prefix(Container::Ar, es, i + 1, allow);
                    }
                    return Err(ArchiveError::UnsupportedFormat(String::from_str(
                        "ar/deb archives can only contain files (no directories or symlinks)",
                    )));
                },
            }
            proof {
                assert(ar_members_for(es.take(i + 1)) =~= ar_members_for(es.take(i as int)).push(
                    crate::model::ar_member(es[i as int]),
                ));
            }
            i = i + 1;
        }
        proof {
            assert(es.take(entries.len() as int) =~= es);
        }
        match ar_into_bytes(builder) {
            Ok(v) => Ok(v),
            Err(e) => Err(ArchiveError::Io(e)),
        }
    }

    /// The 7z fields for an entry's `mode` and `mtime`: `mode` is packed into
    /// the upper 16 bits of the attributes behind the Unix-extension flag, and
    /// `mtime` is converted to an NT file time. A time outside what a file
    /// time can represent is silently omitted, same as the other formats.
    fn apply_7z_metadata(mode: Option<u32>, mtime: Option<UnixTime>) -> (m: SevenZMetadata)
        ensures
            m.has_windows_attributes == mode is Some,
            m.windows_attributes == (match mode {
                Some(v) => sevenz_attributes(v),
                None => 0,
            }),
            m.has_last_modified_date == sevenz_file_time(mtime) is Some,
            m.last_modified_date == or_default(sevenz_file_time(mtime), 0u64),
    {
        let mut metadata = SevenZMetadata {
            has_windows_attributes: false,
            windows_attributes: 0,
            has_last_modified_date: false,
            last_modified_date: 0,
        };
        if let Some(mode) = mode {
            metadata.has_windows_attributes = true;
            metadata.windows_attributes = (mode << 16u32) | SEVENZ_UNIX_EXTENSION_FLAG;
            assert(((mode << 16u32) | 0x8000u32) == ((mode % 0x10000) * 0x10000 + 0x8000) as u32) by (bit_vector);
        }
        if let Some(t) = mtime {
            let since_nt_epoch = t.nanoseconds() + NT_EPOCH_OFFSET_NANOS;
            let ticks = if 0 <= since_nt_epoch && since_nt_epoch / 100 <= u64::MAX as i128 {
                Some((since_nt_epoch / 100) as u64)
            } else {
                None
            };
            if let Some(ticks) = ticks {
                metadata.has_last_modified_date = true;
                metadata.last_modified_date = ticks;
            }
        }
        metadata
    }

    /// The error of a failed 7z write: its text behind `7z error: `.
    fn sevenz_failure(text: String) -> (e: ArchiveError)
        ensures
            e matches ArchiveError::InvalidArchive(m) && m@ == "7z error: "@ + text@,
    {
        let mut message = String::from_str("7z error: ");
        message.append(text.as_str());
        ArchiveError::InvalidArchive(message)
    }

    fn build_7z(&self, entries: &[ArchiveEntry]) -> (r: Result<Vec<u8>, ArchiveError>)
        ensures
            build_result(self.unsafe_paths_allowed(), self.level(), entry_views(entries@), ArchiveFormat::SevenZ, r),
    {
        self.compression_level.to_levelless(ArchiveFormat::SevenZ)?;
        let mut writer = match sevenz_writer_new() {
            Ok(w) => w,
            Err(e) => return Err(Self::sevenz_failure(sevenz_error_text(&e))),
        };
        let ghost es = entry_views(entries@);
        let ghost allow = self.unsafe_paths_allowed();
        let mut i: usize = 0;
        while i < entries.len()
            invariant
                0 <= i <= entries.len(),
                es == entry_views(entries@),
                allow == self.unsafe_paths_allowed(),
                early_refusal(allow, self.level(), es, ArchiveFormat::SevenZ) is None,
                first_entry_refusal(Container::SevenZ, es.take(i as int), allow) is None,
                sevenz_members(writer) == sevenz_members_for(es.take(i as int)),
            decreases entries.len() - i,
        {
            proof {
                lemma_first_refusal_step(Container::SevenZ, es, i as int, allow);
            }
            let entry = &entries[i];
            assert(entry@ == es[i as int]);
            match entry {
                ArchiveEntry::File { path, data, mode, mtime } => {
                    if let Err(e) = validate_path(path.as_str(), self.allow_unsafe_path_traversals) {
                        proof {
                            lemma_first_refusal_of_prefix(Container::SevenZ, es, i + 1, allow);
                        }
                        return Err(e);
                    }
                    let md = Self::apply_7z_metadata(*mode, *mtime);
                    let pushed = sevenz_push_file(
                        &mut writer,
                        path.as_str(),
                        data.as_slice(),
                        md.has_windows_attributes,
                        md.windows_attributes,
                        md.has_last_modified_date,
                        md.last_modified_date,
                    );
                    if let Err(e) = pushed {
                        return Err(Self::sevenz_failure(sevenz_error_text(&e)));
                    }
                },
                ArchiveEntry::Directory { path, mode, mtime } => {
                    if let Err(e) = validate_path(path.as_str(), self.allow_unsafe_path_traversals) {
                        proof {
                            lemma_first_refusal_of_prefix(Container::SevenZ, es, i + 1, allow);
                        }
                        return Err(e);
                    }
                    let md = Self::apply_7z_metadata(*mode, *mtime);
                    let pushed = sevenz_push_directory(
                        &mut writer,
                        path.as_str(),
                        md.has_windows_attributes,
                        md.windows_attributes,
                        md.has_last_modified_date,
                        md.last_modified_date,
                    );
                    if let Err(e) = pushed {
                        return Err(Self::sevenz_failure(sevenz_error_text(&e)));
                    }
                },
                ArchiveEntry::Symlink { .. } => {
                    proof {
                        lemma_first_refusal_of_prefix(Container::SevenZ, es, i + 1, allow);
                    }
                    return Err(ArchiveError::UnsupportedFormat(String::from_str(
                        "7z symlinks aren't supported for creation (this crate's 7z reader doesn't recognize them either)",
                    )));
                },
            }
            proof {
                assert(sevenz_members_for(es.take(i + 1)) =~= sevenz_members_for(es.take(i as int)).push(
                    crate::model::sevenz_member(es[i as int]),
                ));
            }
            i = i + 1;
        }
        proof {
            assert(es.take(entries.len() as int) =~= es);
        }
        match sevenz_finish(writer) {
            Ok(v) => Ok(v),
            Err(e) => Err(Self::sevenz_failure(io_error_text(&e))),
        }
    }

    /// The one file a single-file compressed archive (`.gz`/`.bz2`/`.xz`/
    /// `.lz4`/`.zst`) holds: these formats have no container.
    fn single_file_entry<'a>(entries: &'a [ArchiveEntry], allow_unsafe_path_traversals: bool)
        -> (r: Result<(&'a str, &'a [u8], Option<UnixTime>), ArchiveError>)
        ensures
            match single_file_refusal(entry_views(entries@), allow_unsafe_path_traversals) {
                Some(f) => r matches Err(e) && e.is_refusal(f),
                None => r matches Ok((p, d, t)) && p@ == entry_views(entries@)[0].path()
                    && d@ == entry_views(entries@)[0].data() && t == entry_views(entries@)[0].mtime(),
            },
    {
        if entries.len() != 1 {
            let mut message = String::from_str("single-file compressed archives must contain exactly one file entry, got ");
            message.append(decimal_string(entries.len() as u64).as_str());
            return Err(ArchiveError::UnsupportedFormat(message));
        }
        let entry = &entries[0];
        assert(entry@ == entry_views(entries@)[0]);
        match entry {
            ArchiveEntry::File { path, data, mtime, .. } => {
                validate_path(path.as_str(), allow_unsafe_path_traversals)?;
                Ok((path.as_str(), data.as_slice(), *mtime))
            },
            _ => Err(ArchiveError::UnsupportedFormat(String::from_str(
                "single-file compressed archives can only contain a file entry",
            ))),
        }
    }

    fn build_single_gz(&self, entries: &[ArchiveEntry]) -> (r: Result<Vec<u8>, ArchiveError>)
        requires
            gzip_name_ok(self.unsafe_paths_allowed(), entry_views(entries@), ArchiveFormat::Gz),
        ensures
            build_result(self.unsafe_paths_allowed(), self.level(), entry_views(entries@), ArchiveFormat::Gz, r),
    {
        let (path, data, mtime) = Self::single_file_entry(entries, self.allow_unsafe_path_traversals)?;
        // Gzip's MTIME field is a u32 of seconds since 1970; a time outside
        // that range (or before it) is silently omitted, same as elsewhere.
        let secs: u32 = match mtime {
            Some(t) => {
                let w = t.whole_seconds();
                if 0 <= w && w <= 0xffff_ffff { w as u32 } else { 0 }
            },
            None => 0,
        };
        let level = self.compression_level.to_flate2(ArchiveFormat::Gz)?;
        match gzip_compress_named(data, level, path, secs) {
            Ok(v) => Ok(v),
            Err(e) => Err(ArchiveError::Io(e)),
        }
    }

    fn build_single_bz2(&self, entries: &[ArchiveEntry]) -> (r: Result<Vec<u8>, ArchiveError>)
        ensures
            build_result(self.unsafe_paths_allowed(), self.level(), entry_views(entries@), ArchiveFormat::Bz2, r),
    {
        let (_path, data, _mtime) = Self::single_file_entry(entries, self.allow_unsafe_path_traversals)?;
        let level = self.compression_level.to_bzip2(ArchiveFormat::Bz2)?;
        match bzip2_compress(data, level) {
            Ok(v) => Ok(v),
            Err(e) => Err(ArchiveError::Io(e)),
        }
    }

    fn build_single_xz(&self, entries: &[ArchiveEntry]) -> (r: Result<Vec<u8>, ArchiveError>)
        ensures
            build_result(self.unsafe_paths_allowed(), self.level(), entry_views(entries@), ArchiveFormat::Xz, r),
    {
        let (_path, data, _mtime) = Self::single_file_entry(entries, self.allow_unsafe_path_traversals)?;
        let preset = self.compression_level.to_xz_preset(ArchiveFormat::Xz)?;
        match xz_compress(data, preset) {
            Ok(v) => Ok(v),
            Err(e) => Err(ArchiveError::Io(e)),
        }
    }

    fn build_single_lz4(&self, entries: &[ArchiveEntry]) -> (r: Result<Vec<u8>, ArchiveError>)
        ensures
            build_result(self.unsafe_paths_allowed(), self.level(), entry_views(entries@), ArchiveFormat::Lz4, r),
    {
        let (_path, data, _mtime) = Self::single_file_entry(entries, self.allow_unsafe_path_traversals)?;
        let level = self.compression_level.to_lz4(ArchiveFormat::Lz4)?;
        match lz4_compress(data, level) {
            Ok(v) => Ok(v),
            Err(e) => Err(ArchiveError::Io(e)),
        }
    }

    fn build_single_zst(&self, entries: &[ArchiveEntry]) -> (r: Result<Vec<u8>, ArchiveError>)
        ensures
            build_result(self.unsafe_paths_allowed(), self.level(), entry_views(entries@), ArchiveFormat::Zst, r),
    {
        let (_path, data, _mtime) = Self::single_file_entry(entries, self.allow_unsafe_path_traversals)?;
        let level = self.compression_level.to_zstd(ArchiveFormat::Zst)?;
        match zstd_compress(data, level) {
            Ok(v) => Ok(v),
            Err(e) => Err(ArchiveError::Io(e)),
        }
    }
}


/// The refusal of a container format passed to `build_single_file`.
pub open spec fn not_single_file_refusal(format: ArchiveFormat) -> Refusal {
    Refusal::UnsupportedFormat(format.spec_name() + " is not a single-file format; use build() instead"@)
}

impl ArchiveBuilder {
    /// Compresses a single file for one of the single-file formats
    /// (`.gz`, `.bz2`, `.xz`, `.lz4`, `.zst`): the same as [`Self::build`]
    /// with the one entry `ArchiveEntry::file(path, data)`.
    ///
    /// Returns [`ArchiveError::UnsupportedFormat`] if `format` isn't one of
    /// the single-file formats (use [`Self::build`] for containers like
    /// `.zip`/`.tar.gz`, which can hold more than one entry).
    pub fn build_single_file(&self, path: &str, data: Vec<u8>, format: ArchiveFormat) -> (r: Result<Vec<u8>, ArchiveError>)
        requires
            gzip_name_ok(
                self.unsafe_paths_allowed(),
                seq![EntryView::File { path: path@, data: data@, mode: None, mtime: None }],
                format,
            ),
        ensures
            format.is_single_file() ==> build_result(
                self.unsafe_paths_allowed(),
                self.level(),
                seq![EntryView::File { path: path@, data: data@, mode: None, mtime: None }],
                format,
                r,
            ),
            !format.is_single_file() ==> (r matches Err(e) && e.is_refusal(not_single_file_refusal(format))),
    {
        match format {
            ArchiveFormat::Gz | ArchiveFormat::Bz2 | ArchiveFormat::Xz | ArchiveFormat::Lz4 | ArchiveFormat::Zst => {
                let entries = vec![ArchiveEntry::file(path, data)];
                assert(entry_views(entries@) =~= seq![EntryView::File { path: path@, data: data@, mode: None, mtime: None }]);
                self.build(entries.as_slice(), format)
            },
            _ => {
                let mut message = String::from_str(format.name());
                message.append(" is not a single-file format; use build() instead");
                Err(ArchiveError::UnsupportedFormat(message))
            },
        }
    }
}

} // verus!
