//! Writing tar archives with the `tar` crate.

use vstd::prelude::*;
use crate::path_safety::{is_absolute_path, is_safe_path};

verus! {

/// A `tar::Builder` writing into memory. Verus refuses a declaration of
/// `tar::Builder` itself (its `W: std::io::Write` bound names a trait Verus
/// does not know), so the builder sits in this opaque holder; what it holds
/// is named by [`tar_members`].
#[verifier::external_body]
pub struct TarSink {
    builder: tar::Builder<Vec<u8>>,
}

/// The kind of an archive member.
#[derive(Debug, Clone, Copy, PartialEq, Eq, Structural)]
pub enum MemberKind {
    File,
    Directory,
    Symlink,
}

/// One member as handed to the tar builder: its header fields and contents.
/// `mode` is `None` when the header's mode field was left unset.
pub struct TarMember {
    pub kind: MemberKind,
    pub path: Seq<char>,
    pub data: Seq<u8>,
    pub target: Seq<char>,
    pub mode: Option<u32>,
    pub mtime: u64,
}

/// The members a tar builder has been handed so far, in order.
pub uninterp spec fn tar_members(b: TarSink) -> Seq<TarMember>;

/// The bytes of the finished tar archive holding `members`, in order.
pub uninterp spec fn tar_archive_bytes(members: Seq<TarMember>) -> Seq<u8>;

/// A member path the tar crate always writes: `Header::set_path` refuses a path
/// that is empty, holds a NUL byte, is absolute or has a `..` component, and a
/// path of 100 bytes or more goes into a GNU long-name entry instead, whose
/// truncated header copy passes the same checks. (`/` and `\` both count as
/// separators here, so this holds on every platform.)
pub open spec fn tar_path_accepted(p: Seq<char>) -> bool {
    p.len() > 0 && !p.contains('\0') && is_safe_path(p)
}

/// A symlink target the tar crate always writes: `Header::set_link_name` takes
/// any component, absolute or `..` included, and refuses only an empty target
/// or a NUL byte; a target of 100 bytes or more goes into a GNU long-link entry.
pub open spec fn tar_link_accepted(t: Seq<char>) -> bool {
    t.len() > 0 && !t.contains('\0')
}

/// A `..` component starts at index `i` of `p`, between `/` separators (or
/// at an end of `p`): one that every platform's path parsing sees.
pub open spec fn slash_parent_at(p: Seq<char>, i: int) -> bool {
    &&& 0 <= i && i + 2 <= p.len()
    &&& p[i] == '.' && p[i + 1] == '.'
    &&& i == 0 || p[i - 1] == '/'
    &&& i + 2 == p.len() || p[i + 2] == '/'
}

/// A member path the tar crate always refuses: one with a `..` component that
/// is short enough (under 25 characters, so under the 100 bytes of the header's
/// name field) that `Builder` does not fall back to a GNU long-name entry.
pub open spec fn tar_path_refused(p: Seq<char>) -> bool {
    p.len() < 25 && exists|i: int| slash_parent_at(p, i)
}

/// A name the tar crate writes the same on every platform: one without `\`
/// (a separator that Windows splits on and turns into `/`) that is not
/// absolute (a drive prefix such as `C:` is a path prefix on Windows only).
pub open spec fn tar_name_portable(s: Seq<char>) -> bool {
    !s.contains('\\') && !is_absolute_path(s)
}

/// Every member's path and target are [`tar_name_portable`].
pub open spec fn tar_members_portable(members: Seq<TarMember>) -> bool {
    forall|i: int| 0 <= i < members.len() ==> tar_name_portable(#[trigger] members[i].path)
        && (members[i].kind == MemberKind::Symlink ==> tar_name_portable(members[i].target))
}

/// `tar::Builder::new(Vec::new())`. Claims: it holds no member yet.
#[verifier::external_body]
pub(crate) fn tar_builder_new() -> (b: TarSink)
    ensures
        tar_members(b) == Seq::<TarMember>::empty(),
{
    TarSink { builder: tar::Builder::new(Vec::new()) }
}

/// `Builder::append_data` of a regular file under a fresh GNU header whose size,
/// mode and mtime are set (a fresh GNU header already carries mtime 0).
/// Claims: it succeeds for an accepted path (the archive is written into a `Vec`,
/// which cannot fail), fails for a refused one, and on success the builder holds one more member, this file.
#[verifier::external_body]
pub(crate) fn tar_append_file(b: &mut TarSink, path: &str, data: &[u8], mode: u32, mtime: u64)
    -> (r: Result<(), std::io::Error>)
    ensures
        tar_path_accepted(path@) ==> r is Ok,
        tar_path_refused(path@) ==> r is Err,
        r is Ok ==> tar_members(*final(b)) == tar_members(*old(b)).push(TarMember {
            kind: MemberKind::File,
            path: path@,
            data: data@,
            target: Seq::empty(),
            mode: Some(mode),
            mtime,
        }),
{
    let mut header = tar::Header::new_gnu();
    header.set_size(data.len() as u64);
    header.set_mode(mode);
    header.set_mtime(mtime);
    header.set_cksum();
    b.builder.append_data(&mut header, path, data)
}

/// `Builder::append_data` of a directory: a fresh GNU header with size 0, the mode,
/// the mtime and entry type `Directory`, and no contents.
/// Claims: it succeeds for an accepted path, fails for a refused one, and on success
/// the builder holds one more member, this directory.
#[verifier::external_body]
pub(crate) fn tar_append_directory(b: &mut TarSink, path: &str, mode: u32, mtime: u64)
    -> (r: Result<(), std::io::Error>)
    ensures
        tar_path_accepted(path@) ==> r is Ok,
        tar_path_refused(path@) ==> r is Err,
        r is Ok ==> tar_members(*final(b)) == tar_members(*old(b)).push(TarMember {
            kind: MemberKind::Directory,
            path: path@,
            data: Seq::empty(),
            target: Seq::empty(),
            mode: Some(mode),
            mtime,
        }),
{
    let mut header = tar::Header::new_gnu();
    header.set_size(0);
    header.set_mode(mode);
    header.set_mtime(mtime);
    header.set_entry_type(tar::EntryType::Directory);
    header.set_cksum();
    b.builder.append_data(&mut header, path, std::io::empty())
}

/// `Builder::append_link` of a symlink: a fresh GNU header with size 0, the mode,
/// the mtime and entry type `Symlink`.
/// Claims: it succeeds for an accepted path and target, fails for a refused path, and
/// on success the builder holds one more member, this symlink.
#[verifier::external_body]
pub(crate) fn tar_append_symlink(b: &mut TarSink, path: &str, target: &str, mode: u32, mtime: u64)
    -> (r: Result<(), std::io::Error>)
    ensures
        tar_path_accepted(path@) && tar_link_accepted(target@) ==> r is Ok,
        tar_path_refused(path@) ==> r is Err,
        r is Ok ==> tar_members(*final(b)) == tar_members(*old(b)).push(TarMember {
            kind: MemberKind::Symlink,
            path: path@,
            data: Seq::empty(),
            target: target@,
            mode: Some(mode),
            mtime,
        }),
{
    let mut header = tar::Header::new_gnu();
    header.set_size(0);
    header.set_mode(mode);
    header.set_mtime(mtime);
    header.set_entry_type(tar::EntryType::Symlink);
    header.set_cksum();
    b.builder.append_link(&mut header, path, target)
}

/// As [`tar_append_symlink`], but the header's mode field is left as a fresh GNU header has it.
/// Claims: it succeeds for an accepted path and target, fails for a refused path, and
/// on success the builder holds one more member, this symlink without a mode.
#[verifier::external_body]
pub(crate) fn tar_append_symlink_without_mode(b: &mut TarSink, path: &str, target: &str, mtime: u64)
    -> (r: Result<(), std::io::Error>)
    ensures
        tar_path_accepted(path@) && tar_link_accepted(target@) ==> r is Ok,
        tar_path_refused(path@) ==> r is Err,
        r is Ok ==> tar_members(*final(b)) == tar_members(*old(b)).push(TarMember {
            kind: MemberKind::Symlink,
            path: path@,
            data: Seq::empty(),
            target: target@,
            mode: None,
            mtime,
        }),
{
    let mut header = tar::Header::new_gnu();
    header.set_size(0);
    header.set_mtime(mtime);
    header.set_entry_type(tar::EntryType::Symlink);
    header.set_cksum();
    b.builder.append_link(&mut header, path, target)
}

/// `Builder::into_inner`, which writes the archive's end blocks and hands back the bytes.
/// Claims: it succeeds (the end blocks go into a `Vec`), and, when every name and
/// target is written the same on every platform, the bytes are the tar archive of
/// the members handed so far. (On Windows the tar crate splits names on `\` as
/// well and reads a drive prefix, so other names may give other bytes there.)
#[verifier::external_body]
pub(crate) fn tar_into_bytes(b: TarSink) -> (r: Result<Vec<u8>, std::io::Error>)
    ensures
        r is Ok,
        r matches Ok(v) ==> (tar_members_portable(tar_members(b)) ==> v@ == tar_archive_bytes(tar_members(b))),
{
    b.builder.into_inner()
}

} // verus!
