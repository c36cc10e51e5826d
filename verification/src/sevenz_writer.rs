//! Writing 7z archives with the `sevenz-rust` crate.

use vstd::prelude::*;

verus! {

/// `sevenz_rust::Error`, the 7z writer's error.
#[verifier::external_type_specification]
#[verifier::external_body]
pub struct ExSevenZError(sevenz_rust::Error);

/// A `sevenz_rust::SevenZWriter` writing into memory. Verus refuses a
/// declaration of `SevenZWriter` itself (its `W: std::io::Write` bound names a
/// trait Verus does not know), so the writer sits in this opaque holder; what
/// it holds is named by [`sevenz_members`].
#[verifier::external_body]
pub struct SevenZSink {
    writer: sevenz_rust::SevenZWriter<std::io::Cursor<Vec<u8>>>,
}

/// One entry as handed to the 7z writer: the fields of its `SevenZArchiveEntry`
/// (others keep their defaults) and, for a file, its contents.
pub struct SevenZMember {
    pub name: Seq<char>,
    pub is_directory: bool,
    pub data: Seq<u8>,
    pub has_windows_attributes: bool,
    pub windows_attributes: u32,
    pub has_last_modified_date: bool,
    pub last_modified_date: u64,
}

/// The entries a 7z writer has been handed so far, in order.
pub uninterp spec fn sevenz_members(w: SevenZSink) -> Seq<SevenZMember>;

/// The bytes of the 7z archive (LZMA2, the writer's default) holding `members`, in order.
pub uninterp spec fn sevenz_archive_bytes(members: Seq<SevenZMember>) -> Seq<u8>;

/// `SevenZWriter::new(Cursor::new(Vec::new()))`. Claims: it succeeds (its only
/// fallible step is a seek on the in-memory cursor) and holds no entry yet.
#[verifier::external_body]
pub(crate) fn sevenz_writer_new() -> (r: Result<SevenZSink, sevenz_rust::Error>)
    ensures
        r is Ok,
        r matches Ok(w) ==> sevenz_members(w) == Seq::<SevenZMember>::empty(),
{
    let writer = sevenz_rust::SevenZWriter::new(std::io::Cursor::new(Vec::new()))?;
    Ok(SevenZSink { writer })
}

/// `SevenZWriter::push_archive_entry` of a file entry (`has_stream` set) with the given
/// attribute and modification-date fields, reading its contents from `data`.
/// Claims: it succeeds (the contents are read from a slice and LZMA2-encoded into the
/// in-memory cursor), and the writer holds one more entry, this file.
#[verifier::external_body]
pub(crate) fn sevenz_push_file(
    w: &mut SevenZSink,
    name: &str,
    data: &[u8],
    has_windows_attributes: bool,
    windows_attributes: u32,
    has_last_modified_date: bool,
    last_modified_date: u64,
) -> (r: Result<(), sevenz_rust::Error>)
    ensures
        r is Ok,
        sevenz_members(*final(w)) == sevenz_members(*old(w)).push(SevenZMember {
            name: name@,
            is_directory: false,
            data: data@,
            has_windows_attributes,
            windows_attributes,
            has_last_modified_date,
            last_modified_date,
        }),
{
    let mut entry = sevenz_rust::SevenZArchiveEntry::new();
    entry.name = name.to_string();
    entry.has_stream = true;
    entry.has_windows_attributes = has_windows_attributes;
    entry.windows_attributes = windows_attributes;
    entry.has_last_modified_date = has_last_modified_date;
    entry.last_modified_date = sevenz_rust::nt_time::FileTime::new(last_modified_date);
    w.writer.push_archive_entry(entry, Some(data)).map(|_| ())
}

/// `SevenZWriter::push_archive_entry` of a directory entry with the given attribute
/// and modification-date fields and no contents.
/// Claims: it succeeds (a directory writes no stream), and the writer holds one more
/// entry, this directory.
#[verifier::external_body]
pub(crate) fn sevenz_push_directory(
    w: &mut SevenZSink,
    name: &str,
    has_windows_attributes: bool,
    windows_attributes: u32,
    has_last_modified_date: bool,
    last_modified_date: u64,
) -> (r: Result<(), sevenz_rust::Error>)
    ensures
        r is Ok,
        sevenz_members(*final(w)) == sevenz_members(*old(w)).push(SevenZMember {
            name: name@,
            is_directory: true,
            data: Seq::empty(),
            has_windows_attributes,
            windows_attributes,
            has_last_modified_date,
            last_modified_date,
        }),
{
    let mut entry = sevenz_rust::SevenZArchiveEntry::new();
    entry.name = name.to_string();
    entry.is_directory = true;
    entry.has_windows_attributes = has_windows_attributes;
    entry.windows_attributes = windows_attributes;
    entry.has_last_modified_date = has_last_modified_date;
    entry.last_modified_date = sevenz_rust::nt_time::FileTime::new(last_modified_date);
    w.writer.push_archive_entry::<&[u8]>(entry, None).map(|_| ())
}

/// `SevenZWriter::finish`, which writes the header and hands back the bytes.
/// Claims: it succeeds (the header is written to and the cursor sought within memory),
/// and the bytes are the 7z archive of the entries handed so far.
#[verifier::external_body]
pub(crate) fn sevenz_finish(w: SevenZSink) -> (r: Result<Vec<u8>, std::io::Error>)
    ensures
        r is Ok,
        r matches Ok(v) ==> v@ == sevenz_archive_bytes(sevenz_members(w)),
{
    let cursor = w.writer.finish()?;
    Ok(cursor.into_inner())
}

/// The `Display` text of a 7z writer error. Nothing is claimed of the text.
#[verifier::external_body]
pub(crate) fn sevenz_error_text(e: &sevenz_rust::Error) -> String {
    e.to_string()
}

/// The `Display` text of an I/O error. Nothing is claimed of the text.
#[verifier::external_body]
pub(crate) fn io_error_text(e: &std::io::Error) -> String {
    e.to_string()
}

} // verus!
