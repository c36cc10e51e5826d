//! What a built archive holds: for each format, the members its writer is
//! handed, field by field, in terms of the entries and the settings they
//! were built with; and the level each compressor is handed.

use vstd::prelude::*;
use crate::builder::{build_result, entries_tar_portable};
use crate::codecs::{bzip2_stream, gzip_named_stream, gzip_stream, lz4_stream, xz_stream, zstd_stream};
use crate::compression::{CompressionLevel, ZipCompression};
use crate::entry::EntryView;
use crate::error::ArchiveError;
use crate::format::ArchiveFormat;
use crate::model::{ar_members_for, sevenz_members_for, tar_members_for, zip_members_for};
use crate::ar_writer::{ArMember, ar_archive_bytes};
use crate::sevenz_writer::{SevenZMember, sevenz_archive_bytes};
use crate::zip_writer::{ZipMember, zip_archive_holds, zip_msdos};
use crate::calendar::{CivilTime, in_years_1980_to_2107, is_civil_time_of};
use crate::tar_writer::{MemberKind, TarMember, tar_archive_bytes};

verus! {

/// `m` is the tar member of entry `e`: same kind, path, contents and symlink
/// target; the entry's own mode when it has one (else 0o644 for a file, 0o755
/// for a directory, none for a symlink); its whole Unix seconds as the mtime
/// when it has one from 1970 on, else 0.
pub open spec fn tar_member_of_entry(m: TarMember, e: EntryView) -> bool {
    &&& m.path == e.path()
    &&& e is File ==> m.kind == MemberKind::File && m.data == e.data()
    &&& e is Directory ==> m.kind == MemberKind::Directory && m.data.len() == 0
    &&& e matches EntryView::Symlink { target, .. } ==> m.kind == MemberKind::Symlink && m.target == target
        && m.data.len() == 0
    &&& e.mode() matches Some(mode) ==> m.mode == Some(mode)
    &&& e.mode() is None ==> (e is File ==> m.mode == Some(0o644u32)) && (e is Directory ==> m.mode == Some(
        0o755u32,
    )) && (e is Symlink ==> m.mode is None)
    &&& m.mtime == match e.mtime() {
        Some(t) => if t.whole_secs() >= 0 { t.whole_secs() } else { 0 },
        None => 0,
    }
}

/// A built `.tar` is the tar archive of one member per entry, in order, each
/// carrying that entry's kind, path, contents, target, mode and mtime (when
/// every name is written the same on every platform).
pub proof fn tar_archives_hold_the_entries(
    allow: bool,
    level: CompressionLevel,
    es: Seq<EntryView>,
    r: Result<Vec<u8>, ArchiveError>,
)
    requires
        build_result(allow, level, es, ArchiveFormat::Tar, r),
        r is Ok,
        entries_tar_portable(es),
    ensures
        r->Ok_0@ == tar_archive_bytes(tar_members_for(es)),
        tar_members_for(es).len() == es.len(),
        forall|i: int| 0 <= i < es.len() ==> tar_member_of_entry(#[trigger] tar_members_for(es)[i], es[i]),
{
}

/// The modification time a gzip header holds for a file: its whole Unix
/// seconds when those fit the header's `u32` field, else 0.
pub open spec fn gz_header_mtime(e: EntryView) -> u32 {
    match e.mtime() {
        Some(t) => if 0 <= t.whole_secs() <= u32::MAX { t.whole_secs() as u32 } else { 0 },
        None => 0,
    }
}

/// Each compressor is handed the level the build asked for: `Gzip(n)`,
/// `Bzip2(n)`, `Zstd(n)`, `Xz(n)` and `Lz4(n)` hand over `n`, and `Default`
/// hands over the documented defaults (gzip and bzip2 6, zstd 0 for zstd's own
/// default, xz 6, lz4 0). The `.tar.*` formats compress the `.tar` of the
/// entries (when every name is written the same on every platform); the
/// single-file formats compress the one file's contents (a `.gz` with the
/// file's path and [`gz_header_mtime`] in its header).
pub proof fn compressors_get_the_requested_level(
    allow: bool,
    level: CompressionLevel,
    es: Seq<EntryView>,
    format: ArchiveFormat,
    r: Result<Vec<u8>, ArchiveError>,
)
    requires
        build_result(allow, level, es, format, r),
        r is Ok,
        format.is_tar_family() ==> entries_tar_portable(es),
    ensures
        ({
            let bytes = r->Ok_0@;
            let tar = tar_archive_bytes(tar_members_for(es));
            &&& format == ArchiveFormat::TarGz ==> (level matches CompressionLevel::Gzip(n) ==> bytes == gzip_stream(tar, n))
                && (level is Default ==> bytes == gzip_stream(tar, 6))
            &&& format == ArchiveFormat::TarBz2 ==> (level matches CompressionLevel::Bzip2(n) ==> bytes == bzip2_stream(tar, n))
                && (level is Default ==> bytes == bzip2_stream(tar, 6))
            &&& format == ArchiveFormat::TarZst ==> (level matches CompressionLevel::Zstd(n) ==> bytes == zstd_stream(tar, n))
                && (level is Default ==> bytes == zstd_stream(tar, 0))
            &&& format == ArchiveFormat::TarXz ==> (level matches CompressionLevel::Xz(n) ==> bytes == xz_stream(tar, n))
                && (level is Default ==> bytes == xz_stream(tar, 6))
            &&& format == ArchiveFormat::TarLz4 ==> (level matches CompressionLevel::Lz4(n) ==> bytes == lz4_stream(tar, n))
                && (level is Default ==> bytes == lz4_stream(tar, 0))
            &&& format.is_single_file() ==> es.len() == 1 && es[0] is File
            &&& format == ArchiveFormat::Gz ==> (level matches CompressionLevel::Gzip(n) ==> bytes == gzip_named_stream(
                es[0].data(), n, es[0].path(), gz_header_mtime(es[0]))) && (level is Default ==> bytes == gzip_named_stream(
                es[0].data(), 6, es[0].path(), gz_header_mtime(es[0])))
            &&& format == ArchiveFormat::Bz2 ==> (level matches CompressionLevel::Bzip2(n) ==> bytes == bzip2_stream(es[0].data(), n))
                && (level is Default ==> bytes == bzip2_stream(es[0].data(), 6))
            &&& format == ArchiveFormat::Zst ==> (level matches CompressionLevel::Zstd(n) ==> bytes == zstd_stream(es[0].data(), n))
                && (level is Default ==> bytes == zstd_stream(es[0].data(), 0))
            &&& format == ArchiveFormat::Xz ==> (level matches CompressionLevel::Xz(n) ==> bytes == xz_stream(es[0].data(), n))
                && (level is Default ==> bytes == xz_stream(es[0].data(), 6))
            &&& format == ArchiveFormat::Lz4 ==> (level matches CompressionLevel::Lz4(n) ==> bytes == lz4_stream(es[0].data(), n))
                && (level is Default ==> bytes == lz4_stream(es[0].data(), 0))
        }),
{
}

/// Every level a format's documentation gives a range for is accepted and
/// handed on unchanged: `Gzip(0..=9)`, `Bzip2(1..=9)`, `Zstd(-7..=22)`,
/// `Xz(0..=9)` and `Lz4(0..=16)` for their two formats each.
pub proof fn documented_levels_are_handed_on(n: int, format: ArchiveFormat)
    ensures
        (format == ArchiveFormat::Gz || format == ArchiveFormat::TarGz) && 0 <= n <= 9
            ==> CompressionLevel::Gzip(n as u32).flate2_level(format) == Ok::<u32, crate::error::Refusal>(n as u32),
        (format == ArchiveFormat::Bz2 || format == ArchiveFormat::TarBz2) && 1 <= n <= 9
            ==> CompressionLevel::Bzip2(n as u32).bzip2_level(format) == Ok::<u32, crate::error::Refusal>(n as u32),
        (format == ArchiveFormat::Zst || format == ArchiveFormat::TarZst) && -7 <= n <= 22
            ==> CompressionLevel::Zstd(n as i32).zstd_level(format) == Ok::<i32, crate::error::Refusal>(n as i32),
        (format == ArchiveFormat::Xz || format == ArchiveFormat::TarXz) && 0 <= n <= 9
            ==> CompressionLevel::Xz(n as u32).xz_preset(format) == Ok::<u32, crate::error::Refusal>(n as u32),
        (format == ArchiveFormat::Lz4 || format == ArchiveFormat::TarLz4) && 0 <= n <= 16
            ==> CompressionLevel::Lz4(n as u32).lz4_level(format) == Ok::<u32, crate::error::Refusal>(n as u32),
{
}

/// `m` is the ar member of file entry `e`: its path as identifier, its
/// contents, its mode (0o644 when it has none), and its whole Unix seconds as
/// the mtime when it has one from 1970 on, else 0.
pub open spec fn ar_member_of_entry(m: ArMember, e: EntryView) -> bool {
    &&& m.identifier == e.path()
    &&& m.data == e.data()
    &&& m.mode == match e.mode() {
        Some(mode) => mode,
        None => 0o644u32,
    }
    &&& m.mtime == match e.mtime() {
        Some(t) => if t.whole_secs() >= 0 { t.whole_secs() } else { 0 },
        None => 0,
    }
}

/// A built `.ar` or `.deb` is the ar archive of one member per entry, in
/// order, each carrying that file's path, contents, mode and mtime.
pub proof fn ar_archives_hold_the_entries(
    allow: bool,
    level: CompressionLevel,
    es: Seq<EntryView>,
    format: ArchiveFormat,
    r: Result<Vec<u8>, ArchiveError>,
)
    requires
        format == ArchiveFormat::Ar || format == ArchiveFormat::Deb,
        build_result(allow, level, es, format, r),
        r is Ok,
    ensures
        r->Ok_0@ == ar_archive_bytes(ar_members_for(es)),
        ar_members_for(es).len() == es.len(),
        forall|i: int| 0 <= i < es.len() ==> ar_member_of_entry(#[trigger] ar_members_for(es)[i], es[i]),
{
}

/// Nanoseconds from 1601-01-01 to 1970-01-01.
pub open spec fn nanos_1601_to_1970() -> int {
    11_644_473_600_000_000_000
}

/// `m` is the 7z member of entry `e`: its path as name, whether it is a
/// directory, a file's contents; when it has a mode, attributes that hold
/// the mode's low 16 bits in their upper half and the Unix-extension flag
/// 0x8000 in their lower half (for files and directories alike); when it has
/// an mtime that an NT file time can hold, that time in 100 ns ticks since
/// 1601, rounded down.
pub open spec fn sevenz_member_of_entry(m: SevenZMember, e: EntryView) -> bool {
    &&& m.name == e.path()
    &&& m.is_directory == (e is Directory)
    &&& e is File ==> m.data == e.data()
    &&& m.has_windows_attributes == (e.mode() is Some)
    &&& e.mode() matches Some(mode) ==> m.windows_attributes / 0x10000 == mode % 0x10000
        && m.windows_attributes % 0x10000 == 0x8000
    &&& match e.mtime() {
        Some(t) => {
            let ticks = (t.total_nanos() + nanos_1601_to_1970()) / 100;
            if t.total_nanos() + nanos_1601_to_1970() >= 0 && ticks <= u64::MAX {
                m.has_last_modified_date && m.last_modified_date == ticks
            } else {
                !m.has_last_modified_date
            }
        },
        None => !m.has_last_modified_date,
    }
}

/// A built `.7z` is the 7z archive of one member per entry, in order, each
/// carrying that entry's path, kind, contents, mode and mtime.
pub proof fn sevenz_archives_hold_the_entries(
    allow: bool,
    level: CompressionLevel,
    es: Seq<EntryView>,
    r: Result<Vec<u8>, ArchiveError>,
)
    requires
        build_result(allow, level, es, ArchiveFormat::SevenZ, r),
        r is Ok,
    ensures
        r->Ok_0@ == sevenz_archive_bytes(sevenz_members_for(es)),
        sevenz_members_for(es).len() == es.len(),
        forall|i: int| 0 <= i < es.len() ==> sevenz_member_of_entry(#[trigger] sevenz_members_for(es)[i], es[i]),
{
    assert forall|i: int| 0 <= i < es.len() implies sevenz_member_of_entry(#[trigger] sevenz_members_for(es)[i], es[i]) by {
        if let Some(mode) = es[i].mode() {
            crate::laws::sevenz_attributes_keep_mode_bits(mode);
        }
    }
}

/// `m` is the zip member of entry `e` in a build at `level` that started at
/// `now`: same kind, path, contents and symlink target; stored (method 0)
/// for `Zip(Stored)`, deflated (method 8) otherwise, at level `n` for
/// `Zip(Deflated(n))` and the writer's default level otherwise; the entry's
/// mode as permissions (else 0o644 for a file, 0o755 for a directory, 0o777
/// for a symlink); and, for an mtime in 1980 to 2107, the MS-DOS date and time
/// of its calendar time, else those of `now`.
pub open spec fn zip_member_of_entry(m: ZipMember, e: EntryView, level: CompressionLevel, now: (u16, u16)) -> bool {
    &&& m.path == e.path()
    &&& e is File ==> m.kind == MemberKind::File && m.data == e.data()
    &&& e is Directory ==> m.kind == MemberKind::Directory && m.data.len() == 0
    &&& e matches EntryView::Symlink { target, .. } ==> m.kind == MemberKind::Symlink && m.target == target
        && m.data.len() == 0
    &&& m.options.method == (if level == CompressionLevel::Zip(ZipCompression::Stored) { 0u16 } else { 8u16 })
    &&& m.options.level == match level {
        CompressionLevel::Zip(ZipCompression::Deflated(n)) => Some(n as i64),
        _ => None,
    }
    &&& m.options.permissions == match e.mode() {
        Some(mode) => mode,
        None => if e is File { 0o644u32 } else if e is Directory { 0o755u32 } else { 0o777u32 },
    }
    &&& match e.mtime() {
        Some(t) => if in_years_1980_to_2107(t.whole_secs()) {
            forall|c: CivilTime| #[trigger] is_civil_time_of(c, t.whole_secs())
                && zip_msdos(c.year, c.month, c.day, c.hour, c.minute, c.second) is Some
                ==> zip_msdos(c.year, c.month, c.day, c.hour, c.minute, c.second) == Some(
                (m.options.datepart, m.options.timepart))
        } else {
            (m.options.datepart, m.options.timepart) == now
        },
        None => (m.options.datepart, m.options.timepart) == now,
    }
}

/// A built `.zip` holds one member per entry, in order, each carrying that
/// entry's kind, path, contents, target, permissions and time, with the
/// method and level the build asked for ([`zip_member_of_entry`]), with the
/// time the build started as `held.1`.
pub proof fn zip_archives_hold_the_entries(
    allow: bool,
    level: CompressionLevel,
    es: Seq<EntryView>,
    r: Result<Vec<u8>, ArchiveError>,
)
    requires
        build_result(allow, level, es, ArchiveFormat::Zip, r),
        r is Ok,
    ensures
        exists|held: (Seq<ZipMember>, (u16, u16))| #[trigger] zip_archive_holds(held.0, r->Ok_0@)
            && held.0.len() == es.len()
            && forall|i: int| 0 <= i < es.len() ==> zip_member_of_entry(#[trigger] held.0[i], es[i], level, held.1),
{
    let bytes = r->Ok_0@;
    let settings = crate::builder::zip_settings(level);
    let method = crate::builder::zip_method_id(settings.method);
    let now = choose|now: (u16, u16)| zip_archive_holds(zip_members_for(es, method, settings.level, now), bytes)
        && crate::zip_writer::zip_words_valid(now.0, now.1);
    let ms = zip_members_for(es, method, settings.level, now);
    assert forall|i: int| 0 <= i < es.len() implies zip_member_of_entry(#[trigger] ms[i], es[i], level, now) by {
        if let Some(t) = es[i].mtime() {
            if in_years_1980_to_2107(t.whole_secs()) {
                assert forall|c: CivilTime| #[trigger] is_civil_time_of(c, t.whole_secs())
                    && zip_msdos(c.year, c.month, c.day, c.hour, c.minute, c.second) is Some
                    implies zip_msdos(c.year, c.month, c.day, c.hour, c.minute, c.second) == Some(
                    (ms[i].options.datepart, ms[i].options.timepart)) by {
                    let d = crate::model::civil_of(t.whole_secs());
                    assert(is_civil_time_of(d, t.whole_secs()));
                    crate::calendar::civil_times_are_distinct_moments(c, d);
                }
            }
        }
    }
    assert(zip_archive_holds((ms, now).0, bytes));
}

} // verus!
