//! Writing ar (and deb) archives with the `ar` crate.

use vstd::prelude::*;

verus! {

/// An `ar::Builder` writing into memory. Verus refuses a declaration of
/// `ar::Builder` itself (its `W: std::io::Write` bound names a trait Verus
/// does not know), so the builder sits in this opaque holder; what it holds
/// is named by [`ar_members`].
#[verifier::external_body]
pub struct ArSink {
    builder: ar::Builder<Vec<u8>>,
}

/// One member as handed to the ar builder: identifier, contents, mode and mtime
/// (uid and gid stay 0).
pub struct ArMember {
    pub identifier: Seq<char>,
    pub data: Seq<u8>,
    pub mode: u32,
    pub mtime: u64,
}

/// The members an ar builder has been handed so far, in order.
pub uninterp spec fn ar_members(b: ArSink) -> Seq<ArMember>;

/// The bytes of the ar archive holding `members`, in order.
pub uninterp spec fn ar_archive_bytes(members: Seq<ArMember>) -> Seq<u8>;

/// `ar::Builder::new(Vec::new())`. Claims: it holds no member yet.
#[verifier::external_body]
pub(crate) fn ar_builder_new() -> (b: ArSink)
    ensures
        ar_members(b) == Seq::<ArMember>::empty(),
{
    ArSink { builder: ar::Builder::new(Vec::new()) }
}

/// `Builder::append` of `data` under `ar::Header::new(identifier bytes, data length)`
/// with its mode and mtime set (a new header carries mtime 0).
/// Claims: it succeeds (any identifier is written, a long or spaced one in the BSD
/// form, and the header's size matches the data, all into a `Vec`), and the builder
/// holds one more member, this one.
#[verifier::external_body]
pub(crate) fn ar_append(b: &mut ArSink, identifier: &str, data: &[u8], mode: u32, mtime: u64)
    -> (r: Result<(), std::io::Error>)
    ensures
        r is Ok,
        ar_members(*final(b)) == ar_members(*old(b)).push(ArMember {
            identifier: identifier@,
            data: data@,
            mode,
            mtime,
        }),
{
    let mut header = ar::Header::new(identifier.as_bytes().to_vec(), data.len() as u64);
    header.set_mode(mode);
    header.set_mtime(mtime);
    b.builder.append(&header, data)
}

/// `Builder::into_inner`, handing back the bytes written.
/// Claims: it succeeds (`into_inner` only hands the `Vec` back), and the bytes are
/// the ar archive of the members handed so far.
#[verifier::external_body]
pub(crate) fn ar_into_bytes(b: ArSink) -> (r: Result<Vec<u8>, std::io::Error>)
    ensures
        r is Ok,
        r matches Ok(v) ==> v@ == ar_archive_bytes(ar_members(b)),
{
    b.builder.into_inner()
}

} // verus!
