//! Writing zip archives with the `zip` crate.

use std::io::Write;
use vstd::prelude::*;
use crate::tar_writer::MemberKind;

verus! {

/// A `zip::ZipWriter` writing into memory. Verus refuses a declaration of
/// `ZipWriter` itself (its `W: Write + Seek` bound names traits Verus does
/// not know), so the writer sits in this opaque holder.
#[verifier::external_body]
pub struct ZipSink {
    writer: zip::ZipWriter<std::io::Cursor<Vec<u8>>>,
}

/// The options one zip entry is written with, as plain values: the zip
/// method id (0 stored, 8 deflated), the level (`None` for the method's
/// default), the Unix permission bits, and the MS-DOS date and time words.
#[derive(Debug, Clone, Copy, PartialEq, Eq, Structural)]
pub struct ZipEntryOptions {
    pub method: u16,
    pub level: Option<i64>,
    pub permissions: u32,
    pub datepart: u16,
    pub timepart: u16,
}

/// One entry as handed to the zip writer: its kind, name, contents (a file's),
/// target (a symlink's) and the options it was started with.
pub struct ZipMember {
    pub kind: MemberKind,
    pub path: Seq<char>,
    pub data: Seq<u8>,
    pub target: Seq<char>,
    pub options: ZipEntryOptions,
}

/// The entries a zip writer has been handed so far, in order.
pub uninterp spec fn zip_members(w: ZipSink) -> Seq<ZipMember>;

/// No call on the writer has failed so far.
pub uninterp spec fn zip_sound(w: ZipSink) -> bool;

/// `bytes` is a zip archive whose entries are `members`, in order: each under
/// its [`zip_entry_name`], with a file's contents, a symlink's target, and the
/// method, permissions and MS-DOS date and time of its options. (What else the
/// archive records, such as the "version made by" system, depends on the
/// platform the writer runs on.)
pub uninterp spec fn zip_archive_holds(members: Seq<ZipMember>, bytes: Seq<u8>) -> bool;

/// The name the zip writer files an entry under: a directory's path with `/`
/// appended unless it already ends in `/` or `\`; any other entry's path.
pub open spec fn zip_entry_name(kind: MemberKind, path: Seq<char>) -> Seq<char> {
    if kind == MemberKind::Directory && !(path.len() > 0 && (path.last() == '/' || path.last() == '\\')) {
        path.push('/')
    } else {
        path
    }
}

/// No member is filed under `name` (the writer refuses a name it already holds).
pub open spec fn zip_name_free(members: Seq<ZipMember>, name: Seq<char>) -> bool {
    forall|i: int| 0 <= i < members.len() ==> zip_entry_name(#[trigger] members[i].kind, members[i].path) != name
}

/// The most bytes of contents (or UTF-8 bytes of a symlink target) that an entry
/// may hold here: far enough below the 4 GiB that an entry holds without the
/// large-file option that deflate's worst-case growth stays below it too.
pub const ZIP_SMALL_LIMIT: u64 = 0xF000_0000;

/// Every member's contents, and every symlink target, are small enough.
pub open spec fn zip_members_small(members: Seq<ZipMember>) -> bool {
    forall|i: int| 0 <= i < members.len() ==> (#[trigger] members[i]).data.len() <= ZIP_SMALL_LIMIT
        && 4 * members[i].target.len() <= ZIP_SMALL_LIMIT
}

/// A method and level the writer starts a file with: stored with no level, or
/// deflated with the default level or one of flate2's levels 1..=9.
pub open spec fn zip_method_level_ok(method: u16, level: Option<i64>) -> bool {
    ||| method == 0 && level is None
    ||| method == 8 && match level {
        None => true,
        Some(l) => 1 <= l <= 9,
    }
}

/// MS-DOS date and time words that `DateTime::try_from_msdos` accepts: their
/// day, month, year, second, minute and hour fields pass `from_date_and_time`.
pub open spec fn zip_words_valid(datepart: u16, timepart: u16) -> bool {
    zip_msdos(
        (datepart / 512 + 1980) as u16,
        ((datepart / 32) % 16) as u8,
        (datepart % 32) as u8,
        (timepart / 2048) as u8,
        ((timepart / 32) % 64) as u8,
        ((timepart % 32) * 2) as u8,
    ) is Some
}

/// The words `zip_msdos` packs are ones `DateTime::try_from_msdos` accepts:
/// unpacking them gives back fields in range.
pub proof fn lemma_zip_msdos_words_valid(year: u16, month: u8, day: u8, hour: u8, minute: u8, second: u8)
    requires
        zip_msdos(year, month, day, hour, minute, second) is Some,
    ensures
        zip_words_valid(
            zip_msdos(year, month, day, hour, minute, second).unwrap().0,
            zip_msdos(year, month, day, hour, minute, second).unwrap().1,
        ),
{
    let s: int = if second > 58 { 58 } else { second as int };
    let dp: int = day + 32 * month + 512 * (year - 1980);
    let tp: int = s / 2 + 32 * minute + 2048 * hour;
    assert(dp / 512 == year - 1980 && (dp / 32) % 16 == month && dp % 32 == day) by (nonlinear_arith)
        requires
            dp == day + 32 * month + 512 * (year - 1980),
            1 <= day <= 31,
            1 <= month <= 12,
            1980 <= year <= 2107,
    ;
    assert(tp / 2048 == hour && (tp / 32) % 64 == minute && (tp % 32) * 2 == (s / 2) * 2) by (nonlinear_arith)
        requires
            tp == s / 2 + 32 * minute + 2048 * hour,
            0 <= s <= 58,
            minute <= 59,
            hour <= 23,
    ;
}

/// A name short enough for the 64 KiB that a local header, name included, may take.
pub open spec fn zip_name_short(name: Seq<char>) -> bool {
    name.len() < 16_000
}

/// `ZipWriter::new(Cursor::new(Vec::new()))`. Claims: it holds no entry yet and
/// nothing has failed.
#[verifier::external_body]
pub(crate) fn zip_writer_new() -> (w: ZipSink)
    ensures
        zip_members(w) == Seq::<ZipMember>::empty(),
        zip_sound(w),
{
    ZipSink { writer: zip::ZipWriter::new(std::io::Cursor::new(Vec::new())) }
}

/// The id of `zip::CompressionMethod::default()`.
/// Claims: it is 8 (deflate), the default whenever a deflate backend is
/// enabled, as the crate's default features do.
#[verifier::external_body]
pub(crate) fn zip_default_method() -> (m: u16)
    ensures
        m == 8,
{
    zip::CompressionMethod::default().to_u16()
}

/// `zip::DateTime::default_for_write()` (the current UTC time, or 1980-01-01 when it
/// cannot be represented) as its MS-DOS date and time words. The result depends on
/// the clock; claimed is only what holds of every outcome: the words are those of
/// a `DateTime` that `from_date_and_time` built, so they are valid.
#[verifier::external_body]
pub(crate) fn zip_now() -> (now: (u16, u16))
    ensures
        zip_words_valid(now.0, now.1),
{
    let now = zip::DateTime::default_for_write();
    (now.datepart(), now.timepart())
}

pub open spec fn zip_is_leap_year(year: int) -> bool {
    year % 4 == 0 && (year % 100 != 0 || year % 400 == 0)
}

/// The last day of `month` as `zip::DateTime::from_date_and_time` bounds it.
pub open spec fn zip_max_day(year: int, month: int) -> int {
    if month == 1 || month == 3 || month == 5 || month == 7 || month == 8 || month == 10 || month == 12 {
        31
    } else if month == 4 || month == 6 || month == 9 || month == 11 {
        30
    } else if zip_is_leap_year(year) {
        29
    } else {
        28
    }
}

/// The MS-DOS date and time words `zip::DateTime::from_date_and_time` packs:
/// `None` outside years 1980..=2107, months 1..=12, days 1..=the month's last,
/// hours 0..=23, minutes 0..=59, seconds 0..=60; otherwise the day, month and
/// year-1980 fields of the date word and the second/2 (seconds capped at 58),
/// minute and hour fields of the time word.
pub open spec fn zip_msdos(year: u16, month: u8, day: u8, hour: u8, minute: u8, second: u8) -> Option<(u16, u16)> {
    if 1980 <= year <= 2107 && 1 <= month <= 12 && 1 <= day <= zip_max_day(year as int, month as int)
        && hour <= 23 && minute <= 59 && second <= 60 {
        let s: int = if second > 58 { 58 } else { second as int };
        Some((
            (day + 32 * month + 512 * (year - 1980)) as u16,
            (s / 2 + 32 * minute + 2048 * hour) as u16,
        ))
    } else {
        None
    }
}

/// `zip::DateTime::from_date_and_time`, as the date and time words of the result.
/// Claims: the result is [`zip_msdos`], which restates that function's source.
#[verifier::external_body]
pub(crate) fn zip_date_time(year: u16, month: u8, day: u8, hour: u8, minute: u8, second: u8) -> (r: Option<(u16, u16)>)
    ensures
        r == zip_msdos(year, month, day, hour, minute, second),
{
    match zip::DateTime::from_date_and_time(year, month, day, hour, minute, second) {
        Ok(dt) => Some((dt.datepart(), dt.timepart())),
        Err(_) => None,
    }
}

/// `ZipWriter::start_file(path, options)` followed by writing `data`, with the options
/// built from `opts` (method by id, level, `unix_permissions`, last-modified time from
/// its MS-DOS words). Claims: it succeeds on a writer on which nothing has failed and
/// whose entries are small, with a method and level and date words it accepts, a
/// short name it does not hold yet and small contents; on success the writer holds
/// one more entry, this file.
#[verifier::external_body]
#[allow(deprecated)]
pub(crate) fn zip_add_file(w: &mut ZipSink, path: &str, data: &[u8], opts: ZipEntryOptions)
    -> (r: Result<(), zip::result::ZipError>)
    ensures
        zip_sound(*old(w)) && zip_members_small(zip_members(*old(w)))
            && zip_method_level_ok(opts.method, opts.level) && zip_words_valid(opts.datepart, opts.timepart)
            && zip_name_short(path@) && zip_name_free(zip_members(*old(w)), zip_entry_name(MemberKind::File, path@))
            && data@.len() <= ZIP_SMALL_LIMIT ==> r is Ok,
        r is Ok ==> zip_sound(*final(w)),
        r is Ok ==> zip_members(*final(w)) == zip_members(*old(w)).push(ZipMember {
            kind: MemberKind::File,
            path: path@,
            data: data@,
            target: Seq::empty(),
            options: opts,
        }),
{
    let options = zip::write::SimpleFileOptions::default()
        .compression_method(zip::CompressionMethod::from_u16(opts.method))
        .compression_level(opts.level)
        .unix_permissions(opts.permissions)
        .last_modified_time(zip::DateTime::try_from_msdos(opts.datepart, opts.timepart)?);
    w.writer.start_file(path, options)?;
    w.writer.write_all(data)?;
    Ok(())
}

/// `ZipWriter::add_directory(path, options)` with the options built from `opts` as in
/// [`zip_add_file`] (a directory is always stored, so the method and level don't
/// matter). Claims: it succeeds on a writer on which nothing has failed and whose
/// entries are small, with date words it accepts and a short name that, with `/`
/// appended, it does not hold yet; on success the writer holds one more entry, this
/// directory.
#[verifier::external_body]
#[allow(deprecated)]
pub(crate) fn zip_add_directory(w: &mut ZipSink, path: &str, opts: ZipEntryOptions)
    -> (r: Result<(), zip::result::ZipError>)
    ensures
        zip_sound(*old(w)) && zip_members_small(zip_members(*old(w)))
            && zip_words_valid(opts.datepart, opts.timepart) && zip_name_short(path@)
            && zip_name_free(zip_members(*old(w)), zip_entry_name(MemberKind::Directory, path@)) ==> r is Ok,
        r is Ok ==> zip_sound(*final(w)),
        r is Ok ==> zip_members(*final(w)) == zip_members(*old(w)).push(ZipMember {
            kind: MemberKind::Directory,
            path: path@,
            data: Seq::empty(),
            target: Seq::empty(),
            options: opts,
        }),
{
    let options = zip::write::SimpleFileOptions::default()
        .compression_method(zip::CompressionMethod::from_u16(opts.method))
        .compression_level(opts.level)
        .unix_permissions(opts.permissions)
        .last_modified_time(zip::DateTime::try_from_msdos(opts.datepart, opts.timepart)?);
    w.writer.add_directory(path, options)
}

/// `ZipWriter::add_symlink(path, target, options)` with the options built from `opts`
/// as in [`zip_add_file`] (a symlink is always stored, its target as contents).
/// Claims: it succeeds on a writer on which nothing has failed and whose entries
/// are small, with date words it accepts, a short name it does not hold yet and a
/// small target; on success the writer holds one more entry, this symlink.
#[verifier::external_body]
#[allow(deprecated)]
pub(crate) fn zip_add_symlink(w: &mut ZipSink, path: &str, target: &str, opts: ZipEntryOptions)
    -> (r: Result<(), zip::result::ZipError>)
    ensures
        zip_sound(*old(w)) && zip_members_small(zip_members(*old(w)))
            && zip_words_valid(opts.datepart, opts.timepart) && zip_name_short(path@)
            && zip_name_free(zip_members(*old(w)), zip_entry_name(MemberKind::Symlink, path@))
            && 4 * target@.len() <= ZIP_SMALL_LIMIT ==> r is Ok,
        r is Ok ==> zip_sound(*final(w)),
        r is Ok ==> zip_members(*final(w)) == zip_members(*old(w)).push(ZipMember {
            kind: MemberKind::Symlink,
            path: path@,
            data: Seq::empty(),
            target: target@,
            options: opts,
        }),
{
    let options = zip::write::SimpleFileOptions::default()
        .compression_method(zip::CompressionMethod::from_u16(opts.method))
        .compression_level(opts.level)
        .unix_permissions(opts.permissions)
        .last_modified_time(zip::DateTime::try_from_msdos(opts.datepart, opts.timepart)?);
    w.writer.add_symlink(path, target, options)
}

/// `ZipWriter::finish`, handing back the archive's bytes. The bytes also depend on
/// the platform the writer runs on (its "version made by" system field), so they
/// get no name of their own. Claims: it succeeds on a writer on which nothing has
/// failed and whose entries are small, and the bytes are a zip archive holding the
/// entries handed so far ([`zip_archive_holds`]).
#[verifier::external_body]
pub(crate) fn zip_finish(w: ZipSink) -> (r: Result<Vec<u8>, zip::result::ZipError>)
    ensures
        zip_sound(w) && zip_members_small(zip_members(w)) ==> r is Ok,
        r matches Ok(v) ==> zip_archive_holds(zip_members(w), v@),
{
    let cursor = w.writer.finish()?;
    Ok(cursor.into_inner())
}

} // verus!
