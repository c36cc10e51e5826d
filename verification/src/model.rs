//! What building an archive means: which entries each format refuses, and
//! what each outside writer is handed for each entry.

use vstd::prelude::*;
use crate::entry::{EntryView, UnixTime};
use crate::error::Refusal;
use crate::path_safety::is_safe_path;
use crate::tar_writer::{MemberKind, TarMember};
use crate::ar_writer::ArMember;
use crate::sevenz_writer::SevenZMember;
use crate::tar_writer::{tar_link_accepted, tar_path_accepted, tar_path_refused};
use crate::zip_writer::{
    ZIP_SMALL_LIMIT, ZipEntryOptions, ZipMember, lemma_zip_msdos_words_valid, zip_entry_name, zip_msdos,
    zip_name_short, zip_words_valid,
};
use crate::calendar::{CivilTime, in_years_1980_to_2107, is_civil_time_of};
use crate::text::decimal;

verus! {

pub open spec fn or_default<T>(o: Option<T>, d: T) -> T {
    match o {
        Some(v) => v,
        None => d,
    }
}

pub open spec fn refusal_of<T>(r: Result<T, Refusal>) -> Option<Refusal> {
    match r {
        Ok(_) => None,
        Err(f) => Some(f),
    }
}

/// A path is refused unless it is safe or unsafe paths are allowed.
pub open spec fn path_refusal(p: Seq<char>, allow: bool) -> Option<Refusal> {
    if allow || is_safe_path(p) {
        None
    } else {
        Some(Refusal::UnsafePath(p))
    }
}

/// The path is checked, and for a symlink then its target.
pub open spec fn entry_path_refusal(e: EntryView, allow: bool) -> Option<Refusal> {
    match e {
        EntryView::Symlink { path, target, .. } =>
            if path_refusal(path, allow) is Some { path_refusal(path, allow) } else { path_refusal(target, allow) },
        _ => path_refusal(e.path(), allow),
    }
}

/// Which kinds of entries a container format holds.
pub enum Container {
    /// zip and tar: files, directories and symlinks.
    General,
    /// ar and deb: files only.
    Ar,
    /// 7z: files and directories.
    SevenZ,
}

pub open spec fn ar_kinds_message() -> Seq<char> {
    "ar/deb archives can only contain files (no directories or symlinks)"@
}

pub open spec fn sevenz_symlink_message() -> Seq<char> {
    "7z symlinks aren't supported for creation (this crate's 7z reader doesn't recognize them either)"@
}

pub open spec fn single_count_message(n: nat) -> Seq<char> {
    "single-file compressed archives must contain exactly one file entry, got "@ + decimal(n)
}

pub open spec fn single_kind_message() -> Seq<char> {
    "single-file compressed archives can only contain a file entry"@
}

/// What the container refuses of one entry: a kind it cannot hold, or an unsafe path.
pub open spec fn container_entry_refusal(c: Container, e: EntryView, allow: bool) -> Option<Refusal> {
    match c {
        Container::General => entry_path_refusal(e, allow),
        Container::Ar => if e is File { path_refusal(e.path(), allow) } else { Some(Refusal::UnsupportedFormat(ar_kinds_message())) },
        Container::SevenZ => if e is Symlink { Some(Refusal::UnsupportedFormat(sevenz_symlink_message())) } else { path_refusal(e.path(), allow) },
    }
}

/// The refusal of the first entry, in order, that the container refuses.
pub open spec fn first_entry_refusal(c: Container, es: Seq<EntryView>, allow: bool) -> Option<Refusal>
    decreases es.len(),
{
    if es.len() == 0 {
        None
    } else {
        match first_entry_refusal(c, es.drop_last(), allow) {
            Some(f) => Some(f),
            None => container_entry_refusal(c, es.last(), allow),
        }
    }
}

/// A single-file format holds exactly one entry, a file with an acceptable path.
pub open spec fn single_file_refusal(es: Seq<EntryView>, allow: bool) -> Option<Refusal> {
    if es.len() != 1 {
        Some(Refusal::UnsupportedFormat(single_count_message(es.len())))
    } else if es[0] is File {
        path_refusal(es[0].path(), allow)
    } else {
        Some(Refusal::UnsupportedFormat(single_kind_message()))
    }
}

/// A modification time as whole seconds since 1970, as tar and ar store it;
/// absent before 1970.
pub open spec fn unix_mtime(mtime: Option<UnixTime>) -> Option<u64> {
    match mtime {
        Some(t) => if t.whole_secs() >= 0 { Some(t.whole_secs() as u64) } else { None },
        None => None,
    }
}

/// A modification time as the gzip header stores it (a `u32` of whole seconds
/// since 1970); absent outside that range.
pub open spec fn gzip_mtime(mtime: Option<UnixTime>) -> Option<u32> {
    match mtime {
        Some(t) => if 0 <= t.whole_secs() <= u32::MAX { Some(t.whole_secs() as u32) } else { None },
        None => None,
    }
}

/// The flag (`FILE_ATTRIBUTE_UNIX_EXTENSION`) that marks Unix mode bits in the
/// upper half of a 7z entry's attributes.
pub const SEVENZ_UNIX_EXTENSION_FLAG: u32 = 0x8000;

/// A Unix mode packed into 7z attributes: the low 16 bits of the mode in the
/// upper half, and the Unix-extension flag.
pub open spec fn sevenz_attributes(mode: u32) -> u32 {
    ((mode % 0x10000) * 0x10000 + SEVENZ_UNIX_EXTENSION_FLAG) as u32
}

/// The header a tar builder is handed for an entry: a file's mode defaults to
/// 0o644, a directory's to 0o755, a symlink's stays unset; the mtime is the
/// Unix time when there is one from 1970 on, else 0.
pub open spec fn tar_member(e: EntryView) -> TarMember {
    match e {
        EntryView::File { path, data, mode, mtime } => TarMember {
            kind: MemberKind::File,
            path,
            data,
            target: Seq::empty(),
            mode: Some(or_default(mode, 0o644u32)),
            mtime: or_default(unix_mtime(mtime), 0u64),
        },
        EntryView::Directory { path, mode, mtime } => TarMember {
            kind: MemberKind::Directory,
            path,
            data: Seq::empty(),
            target: Seq::empty(),
            mode: Some(or_default(mode, 0o755u32)),
            mtime: or_default(unix_mtime(mtime), 0u64),
        },
        EntryView::Symlink { path, target, mode, mtime } => TarMember {
            kind: MemberKind::Symlink,
            path,
            data: Seq::empty(),
            target,
            mode,
            mtime: or_default(unix_mtime(mtime), 0u64),
        },
    }
}

pub open spec fn tar_members_for(es: Seq<EntryView>) -> Seq<TarMember> {
    es.map_values(|e: EntryView| tar_member(e))
}

/// The member an ar builder is handed for a file entry: identifier = path,
/// mode defaulting to 0o644, mtime as for tar.
pub open spec fn ar_member(e: EntryView) -> ArMember {
    ArMember {
        identifier: e.path(),
        data: e.data(),
        mode: or_default(e.mode(), 0o644u32),
        mtime: or_default(unix_mtime(e.mtime()), 0u64),
    }
}

pub open spec fn ar_members_for(es: Seq<EntryView>) -> Seq<ArMember> {
    es.map_values(|e: EntryView| ar_member(e))
}

/// Nanoseconds from 1601-01-01 (the NT epoch) to the Unix epoch.
pub const NT_EPOCH_OFFSET_NANOS: i128 = 11_644_473_600_000_000_000;

/// The NT file time of the moment `ns` nanoseconds after the Unix epoch: its
/// 100 ns ticks since 1601, rounded down, when that is a `u64` (from 1601 to
/// the year 60056). This is the whole of what `nt_time`'s
/// `FileTime::try_from(SystemTime)` computes.
pub open spec fn nt_file_time(ns: int) -> Option<u64> {
    let since_nt_epoch = ns + NT_EPOCH_OFFSET_NANOS;
    if 0 <= since_nt_epoch && since_nt_epoch / 100 <= u64::MAX {
        Some((since_nt_epoch / 100) as u64)
    } else {
        None
    }
}

/// The 7z modification date of an entry: the NT file time of its mtime, when
/// that is representable.
pub open spec fn sevenz_file_time(mtime: Option<UnixTime>) -> Option<u64> {
    match mtime {
        Some(t) => nt_file_time(t.total_nanos()),
        None => None,
    }
}

/// The entry a 7z writer is handed for a file or directory: attributes only
/// when a mode is set, a modification date only when the mtime is representable.
pub open spec fn sevenz_member(e: EntryView) -> SevenZMember {
    SevenZMember {
        name: e.path(),
        is_directory: e is Directory,
        data: e.data(),
        has_windows_attributes: e.mode() is Some,
        windows_attributes: match e.mode() {
            Some(m) => sevenz_attributes(m),
            None => 0,
        },
        has_last_modified_date: sevenz_file_time(e.mtime()) is Some,
        last_modified_date: or_default(sevenz_file_time(e.mtime()), 0u64),
    }
}

pub open spec fn sevenz_members_for(es: Seq<EntryView>) -> Seq<SevenZMember> {
    es.map_values(|e: EntryView| sevenz_member(e))
}

/// The calendar date and time of the moment `secs` seconds after 1970.
pub open spec fn civil_of(secs: int) -> CivilTime {
    choose|c: CivilTime| is_civil_time_of(c, secs)
}

/// The zip date and time words of an entry: those of its mtime when that falls
/// in 1980 to 2107 (what the zip format can hold), else `fallback`.
pub open spec fn zip_stamp(mtime: Option<UnixTime>, fallback: (u16, u16)) -> (u16, u16) {
    match mtime {
        Some(t) => if in_years_1980_to_2107(t.whole_secs()) {
            let c = civil_of(t.whole_secs());
            or_default(zip_msdos(c.year, c.month, c.day, c.hour, c.minute, c.second), fallback)
        } else {
            fallback
        },
        None => fallback,
    }
}

/// The entry a zip writer is handed: the method and level of the build, the
/// entry's mode or the kind's default permissions (0o644 for a file, 0o755 for
/// a directory, 0o777 for a symlink), and its mtime's date and time words or
/// those of the time the build started (`now`).
pub open spec fn zip_member(e: EntryView, method: u16, level: Option<i64>, now: (u16, u16)) -> ZipMember {
    let stamp = zip_stamp(e.mtime(), now);
    let options = |permissions: u32| ZipEntryOptions {
        method,
        level,
        permissions: or_default(e.mode(), permissions),
        datepart: stamp.0,
        timepart: stamp.1,
    };
    match e {
        EntryView::File { path, data, .. } => ZipMember {
            kind: MemberKind::File, path, data, target: Seq::empty(), options: options(0o644u32),
        },
        EntryView::Directory { path, .. } => ZipMember {
            kind: MemberKind::Directory, path, data: Seq::empty(), target: Seq::empty(), options: options(0o755u32),
        },
        EntryView::Symlink { path, target, .. } => ZipMember {
            kind: MemberKind::Symlink, path, data: Seq::empty(), target, options: options(0o777u32),
        },
    }
}

pub open spec fn zip_members_for(es: Seq<EntryView>, method: u16, level: Option<i64>, now: (u16, u16)) -> Seq<ZipMember> {
    es.map_values(|e: EntryView| zip_member(e, method, level, now))
}

/// The zip writer's own validity words for a zip member's date and time hold
/// whenever the fallback's do.
pub proof fn lemma_zip_stamp_valid(mtime: Option<UnixTime>, fallback: (u16, u16))
    requires
        zip_words_valid(fallback.0, fallback.1),
    ensures
        zip_words_valid(zip_stamp(mtime, fallback).0, zip_stamp(mtime, fallback).1),
{
    if let Some(t) = mtime {
        if in_years_1980_to_2107(t.whole_secs()) {
            let c = civil_of(t.whole_secs());
            if zip_msdos(c.year, c.month, c.day, c.hour, c.minute, c.second) is Some {
                lemma_zip_msdos_words_valid(c.year, c.month, c.day, c.hour, c.minute, c.second);
            }
        }
    }
}

/// The kind of an entry.
pub open spec fn kind_of(e: EntryView) -> MemberKind {
    match e {
        EntryView::File { .. } => MemberKind::File,
        EntryView::Directory { .. } => MemberKind::Directory,
        EntryView::Symlink { .. } => MemberKind::Symlink,
    }
}

/// The name the zip writer files an entry under.
pub open spec fn zip_name_of(e: EntryView) -> Seq<char> {
    zip_entry_name(kind_of(e), e.path())
}

/// The outside writer an entry list is written with. `files_ok` says whether
/// the zip writer accepts the build's method and level for a file.
pub enum Writer {
    Tar,
    Zip { files_ok: bool },
    Ar,
    SevenZ,
}

/// The entry kinds the writer's format holds.
pub open spec fn writer_container(w: Writer) -> Container {
    match w {
        Writer::Tar | Writer::Zip { .. } => Container::General,
        Writer::Ar => Container::Ar,
        Writer::SevenZ => Container::SevenZ,
    }
}

/// The writer is known to write an entry that the library has not refused:
/// ar and 7z write any such entry, tar any whose path (and symlink target) its
/// rules accept, zip any with a short name, small contents or target, and, for
/// a file, a method and level it accepts (the zip writer also needs the name
/// to be new: see [`writes_surely`]).
pub open spec fn writer_accepts(w: Writer, e: EntryView) -> bool {
    match w {
        Writer::Tar => tar_path_accepted(e.path()) && (e matches EntryView::Symlink { target, .. } ==> tar_link_accepted(target)),
        Writer::Zip { files_ok } => zip_name_short(e.path()) && match e {
            EntryView::File { data, .. } => files_ok && data.len() <= ZIP_SMALL_LIMIT,
            EntryView::Directory { .. } => true,
            EntryView::Symlink { target, .. } => 4 * target.len() <= ZIP_SMALL_LIMIT,
        },
        Writer::Ar | Writer::SevenZ => true,
    }
}

/// Every entry the writer is handed, that is each one up to the first refused
/// entry, is one the writer is known to write; for zip, also under a name that
/// no earlier entry has.
pub open spec fn writes_surely(w: Writer, es: Seq<EntryView>, allow: bool) -> bool
    decreases es.len(),
{
    if es.len() == 0 {
        true
    } else {
        &&& writes_surely(w, es.drop_last(), allow)
        &&& first_entry_refusal(writer_container(w), es, allow) is None ==> writer_accepts(w, es.last())
        &&& first_entry_refusal(writer_container(w), es, allow) is None && w is Zip ==> forall|j: int|
            0 <= j < es.len() - 1 ==> zip_name_of(#[trigger] es[j]) != zip_name_of(es.last())
    }
}

/// The tar writer surely refuses an entry it is handed: one that the library
/// does not refuse, that comes after entries the tar writer surely writes, and
/// whose path the tar crate always refuses.
pub open spec fn tar_surely_refuses(es: Seq<EntryView>, allow: bool) -> bool
    decreases es.len(),
{
    if es.len() == 0 {
        false
    } else {
        ||| tar_surely_refuses(es.drop_last(), allow)
        ||| first_entry_refusal(Container::General, es, allow) is None && writes_surely(Writer::Tar, es.drop_last(), allow)
            && tar_path_refused(es.last().path())
    }
}

/// The index of the first entry that the container refuses, or the length of
/// the list when it refuses none.
pub open spec fn first_refused_index(c: Container, es: Seq<EntryView>, allow: bool) -> int
    decreases es.len(),
{
    if first_entry_refusal(c, es, allow) is None {
        es.len() as int
    } else if first_entry_refusal(c, es.drop_last(), allow) is Some {
        first_refused_index(c, es.drop_last(), allow)
    } else {
        es.len() - 1
    }
}

/// The entry at `i` is the first one refused.
pub proof fn lemma_first_refused_index(c: Container, es: Seq<EntryView>, i: int, allow: bool)
    requires
        0 <= i < es.len(),
        first_entry_refusal(c, es.take(i), allow) is None,
        container_entry_refusal(c, es[i], allow) is Some,
    ensures
        first_refused_index(c, es, allow) == i,
        first_entry_refusal(c, es, allow) == container_entry_refusal(c, es[i], allow),
    decreases es.len(),
{
    if i == es.len() - 1 {
        assert(es.drop_last() =~= es.take(i));
    } else {
        assert(es.drop_last().take(i) =~= es.take(i));
        assert(es.drop_last()[i] == es[i]);
        lemma_first_refused_index(c, es.drop_last(), i, allow);
    }
}

/// A writer that surely writes a list surely writes each of its prefixes.
pub proof fn lemma_writes_surely_prefix(w: Writer, es: Seq<EntryView>, k: int, allow: bool)
    requires
        0 <= k <= es.len(),
        writes_surely(w, es, allow),
    ensures
        writes_surely(w, es.take(k), allow),
    decreases es.len(),
{
    if k == es.len() {
        assert(es.take(k) =~= es);
    } else {
        assert(es.drop_last().take(k) =~= es.take(k));
        lemma_writes_surely_prefix(w, es.drop_last(), k, allow);
    }
}

/// When the writer surely writes the list, it writes each entry it is handed,
/// and a zip entry under a name that no earlier one has.
pub proof fn lemma_writes_surely_at(w: Writer, es: Seq<EntryView>, i: int, allow: bool)
    requires
        0 <= i < es.len(),
        writes_surely(w, es, allow),
        first_entry_refusal(writer_container(w), es.take(i + 1), allow) is None,
    ensures
        writer_accepts(w, es[i]),
        w is Zip ==> forall|j: int| 0 <= j < i ==> zip_name_of(#[trigger] es[j]) != zip_name_of(es[i]),
{
    lemma_writes_surely_prefix(w, es, i + 1, allow);
    assert(es.take(i + 1).last() == es[i]);
    assert forall|j: int| 0 <= j < i implies es.take(i + 1)[j] == es[j] by {}
}

/// A writer surely writes a list of entries that it writes each of.
pub proof fn lemma_writes_surely_all(w: Writer, es: Seq<EntryView>, allow: bool)
    requires
        forall|i: int| 0 <= i < es.len() ==> writer_accepts(w, #[trigger] es[i]),
        w is Zip ==> forall|i: int, j: int| 0 <= i < j < es.len() ==> zip_name_of(#[trigger] es[i]) != zip_name_of(#[trigger] es[j]),
    ensures
        writes_surely(w, es, allow),
    decreases es.len(),
{
    if es.len() > 0 {
        assert forall|i: int| 0 <= i < es.drop_last().len() implies writer_accepts(w, #[trigger] es.drop_last()[i]) by {
            assert(es.drop_last()[i] == es[i]);
        }
        assert forall|i: int, j: int| 0 <= i < j < es.drop_last().len() implies
            zip_name_of(#[trigger] es.drop_last()[i]) != zip_name_of(#[trigger] es.drop_last()[j]) || !(w is Zip) by {
            assert(es.drop_last()[i] == es[i]);
            assert(es.drop_last()[j] == es[j]);
        }
        assert forall|j: int| 0 <= j < es.len() - 1 implies zip_name_of(#[trigger] es[j]) != zip_name_of(es.last()) || !(w is Zip) by {
            assert(es.last() == es[es.len() - 1]);
        }
        lemma_writes_surely_all(w, es.drop_last(), allow);
        assert(writer_accepts(w, es[es.len() - 1]));
    }
}

/// The first refusal of a prefix is the first refusal of the whole list.
pub proof fn lemma_first_refusal_of_prefix(c: Container, es: Seq<EntryView>, k: int, allow: bool)
    requires
        0 <= k <= es.len(),
        first_entry_refusal(c, es.take(k), allow) is Some,
    ensures
        first_entry_refusal(c, es, allow) == first_entry_refusal(c, es.take(k), allow),
    decreases es.len(),
{
    if k == es.len() {
        assert(es.take(k) =~= es);
    } else {
        assert(es.drop_last().take(k) =~= es.take(k));
        lemma_first_refusal_of_prefix(c, es.drop_last(), k, allow);
    }
}

/// One more entry: the list's first refusal is the prefix's, else the new entry's.
pub proof fn lemma_first_refusal_step(c: Container, es: Seq<EntryView>, i: int, allow: bool)
    requires
        0 <= i < es.len(),
    ensures
        first_entry_refusal(c, es.take(i + 1), allow) == (match first_entry_refusal(c, es.take(i), allow) {
            Some(f) => Some(f),
            None => container_entry_refusal(c, es[i], allow),
        }),
{
    assert(es.take(i + 1).drop_last() =~= es.take(i));
}

/// No first refusal means that no entry is refused.
pub proof fn lemma_no_refusal_means_each_accepted(c: Container, es: Seq<EntryView>, allow: bool)
    requires
        first_entry_refusal(c, es, allow) is None,
    ensures
        forall|i: int| 0 <= i < es.len() ==> #[trigger] container_entry_refusal(c, es[i], allow) is None,
    decreases es.len(),
{
    if es.len() > 0 {
        lemma_no_refusal_means_each_accepted(c, es.drop_last(), allow);
        assert forall|i: int| 0 <= i < es.len() implies #[trigger] container_entry_refusal(c, es[i], allow) is None by {
            if i < es.len() - 1 {
                assert(es.drop_last()[i] == es[i]);
            }
        }
    }
}

} // verus!
