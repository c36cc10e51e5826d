//! The entries an archive is built from.

use vstd::prelude::*;

verus! {

/// A moment in time: `secs` seconds after the Unix epoch (negative before
/// 1970) plus `nanos` nanoseconds.
#[derive(Debug, Clone, Copy, PartialEq, Eq, Structural)]
pub struct UnixTime {
    pub secs: i64,
    pub nanos: u32,
}

impl UnixTime {
    /// The moment in nanoseconds after the Unix epoch.
    pub open spec fn total_nanos(self) -> int {
        self.secs * 1_000_000_000 + self.nanos
    }

    /// The whole seconds after the Unix epoch, rounded down.
    pub open spec fn whole_secs(self) -> int {
        self.secs + self.nanos / 1_000_000_000
    }

    /// The whole seconds after the Unix epoch, rounded down.
    pub fn whole_seconds(&self) -> (w: i128)
        ensures
            w == self.whole_secs(),
    {
        self.secs as i128 + (self.nanos / 1_000_000_000) as i128
    }

    /// The moment in nanoseconds after the Unix epoch.
    pub fn nanoseconds(&self) -> (n: i128)
        ensures
            n == self.total_nanos(),
    {
        self.secs as i128 * 1_000_000_000 + self.nanos as i128
    }

    /// The moment `secs` whole seconds after the Unix epoch.
    pub fn from_secs(secs: i64) -> (t: UnixTime)
        ensures
            t == (UnixTime { secs, nanos: 0 }),
    {
        UnixTime { secs, nanos: 0 }
    }
}

/// One member of an archive: a regular file with its contents, a directory,
/// or a symbolic link.
///
/// `mode` holds Unix permission bits; `mtime` is the modification time. Both
/// are optional: each format falls back to its own default when they are absent.
#[derive(Debug, Clone)]
pub enum ArchiveEntry {
    File { path: String, data: Vec<u8>, mode: Option<u32>, mtime: Option<UnixTime> },
    Directory { path: String, mode: Option<u32>, mtime: Option<UnixTime> },
    Symlink { path: String, target: String, mode: Option<u32>, mtime: Option<UnixTime> },
}

/// The mathematical content of an [`ArchiveEntry`].
pub enum EntryView {
    File { path: Seq<char>, data: Seq<u8>, mode: Option<u32>, mtime: Option<UnixTime> },
    Directory { path: Seq<char>, mode: Option<u32>, mtime: Option<UnixTime> },
    Symlink { path: Seq<char>, target: Seq<char>, mode: Option<u32>, mtime: Option<UnixTime> },
}

impl EntryView {
    pub open spec fn path(self) -> Seq<char> {
        match self {
            EntryView::File { path, .. } => path,
            EntryView::Directory { path, .. } => path,
            EntryView::Symlink { path, .. } => path,
        }
    }

    /// The contents of a file entry; empty for directories and symlinks.
    pub open spec fn data(self) -> Seq<u8> {
        match self {
            EntryView::File { data, .. } => data,
            _ => Seq::empty(),
        }
    }

    pub open spec fn mode(self) -> Option<u32> {
        match self {
            EntryView::File { mode, .. } => mode,
            EntryView::Directory { mode, .. } => mode,
            EntryView::Symlink { mode, .. } => mode,
        }
    }

    pub open spec fn mtime(self) -> Option<UnixTime> {
        match self {
            EntryView::File { mtime, .. } => mtime,
            EntryView::Directory { mtime, .. } => mtime,
            EntryView::Symlink { mtime, .. } => mtime,
        }
    }

    /// The entry with its mode replaced.
    pub open spec fn with_mode(self, m: u32) -> EntryView {
        match self {
            EntryView::File { path, data, mtime, .. } => EntryView::File { path, data, mode: Some(m), mtime },
            EntryView::Directory { path, mtime, .. } => EntryView::Directory { path, mode: Some(m), mtime },
            EntryView::Symlink { path, target, mtime, .. } => EntryView::Symlink { path, target, mode: Some(m), mtime },
        }
    }

    /// The entry with its modification time replaced.
    pub open spec fn with_mtime(self, t: UnixTime) -> EntryView {
        match self {
            EntryView::File { path, data, mode, .. } => EntryView::File { path, data, mode, mtime: Some(t) },
            EntryView::Directory { path, mode, .. } => EntryView::Directory { path, mode, mtime: Some(t) },
            EntryView::Symlink { path, target, mode, .. } => EntryView::Symlink { path, target, mode, mtime: Some(t) },
        }
    }
}

/// The views of a list of entries.
pub open spec fn entry_views(entries: Seq<ArchiveEntry>) -> Seq<EntryView> {
    entries.map_values(|e: ArchiveEntry| e@)
}

impl View for ArchiveEntry {
    type V = EntryView;

    open spec fn view(&self) -> EntryView {
        match self {
            ArchiveEntry::File { path, data, mode, mtime } =>
                EntryView::File { path: path@, data: data@, mode: *mode, mtime: *mtime },
            ArchiveEntry::Directory { path, mode, mtime } =>
                EntryView::Directory { path: path@, mode: *mode, mtime: *mtime },
            ArchiveEntry::Symlink { path, target, mode, mtime } =>
                EntryView::Symlink { path: path@, target: target@, mode: *mode, mtime: *mtime },
        }
    }
}

impl ArchiveEntry {
    /// A regular file at `path` holding `data`, with no mode or mtime set.
    pub fn file(path: &str, data: Vec<u8>) -> (e: ArchiveEntry)
        ensures
            e@ == (EntryView::File { path: path@, data: data@, mode: None, mtime: None }),
    {
        ArchiveEntry::File { path: String::from_str(path), data, mode: None, mtime: None }
    }

    /// A directory at `path`, with no mode or mtime set.
    pub fn directory(path: &str) -> (e: ArchiveEntry)
        ensures
            e@ == (EntryView::Directory { path: path@, mode: None, mtime: None }),
    {
        ArchiveEntry::Directory { path: String::from_str(path), mode: None, mtime: None }
    }

    /// A symbolic link at `path` pointing at `target`, with no mode or mtime set.
    pub fn symlink(path: &str, target: &str) -> (e: ArchiveEntry)
        ensures
            e@ == (EntryView::Symlink { path: path@, target: target@, mode: None, mtime: None }),
    {
        ArchiveEntry::Symlink {
            path: String::from_str(path),
            target: String::from_str(target),
            mode: None,
            mtime: None,
        }
    }

    /// The same entry with its Unix permission bits set to `mode`.
    pub fn with_mode(self, mode: u32) -> (e: ArchiveEntry)
        ensures
            e@ == self@.with_mode(mode),
    {
        match self {
            ArchiveEntry::File { path, data, mtime, .. } => ArchiveEntry::File { path, data, mode: Some(mode), mtime },
            ArchiveEntry::Directory { path, mtime, .. } => ArchiveEntry::Directory { path, mode: Some(mode), mtime },
            ArchiveEntry::Symlink { path, target, mtime, .. } => ArchiveEntry::Symlink { path, target, mode: Some(mode), mtime },
        }
    }

    /// The same entry with its modification time set to `secs` whole seconds
    /// after the Unix epoch.
    pub fn with_mtime(self, secs: i64) -> (e: ArchiveEntry)
        ensures
            e@ == self@.with_mtime(UnixTime { secs, nanos: 0 }),
    {
        self.with_precise_mtime(UnixTime::from_secs(secs))
    }

    /// The same entry with its modification time set to `time`.
    pub fn with_precise_mtime(self, time: UnixTime) -> (e: ArchiveEntry)
        ensures
            e@ == self@.with_mtime(time),
    {
        match self {
            ArchiveEntry::File { path, data, mode, .. } => ArchiveEntry::File { path, data, mode, mtime: Some(time) },
            ArchiveEntry::Directory { path, mode, .. } => ArchiveEntry::Directory { path, mode, mtime: Some(time) },
            ArchiveEntry::Symlink { path, target, mode, .. } => ArchiveEntry::Symlink { path, target, mode, mtime: Some(time) },
        }
    }

    /// The entry's path inside the archive.
    pub fn path(&self) -> (p: &str)
        ensures
            p@ == self@.path(),
    {
        match self {
            ArchiveEntry::File { path, .. } => path.as_str(),
            ArchiveEntry::Directory { path, .. } => path.as_str(),
            ArchiveEntry::Symlink { path, .. } => path.as_str(),
        }
    }

    /// The contents of a file entry; `None` for directories and symlinks.
    pub fn data(&self) -> (d: Option<&[u8]>)
        ensures
            match self@ {
                EntryView::File { data, .. } => d is Some && d.unwrap()@ == data,
                _ => d is None,
            },
    {
        match self {
            ArchiveEntry::File { data, .. } => Some(data.as_slice()),
            _ => None,
        }
    }

    /// The target of a symlink entry; `None` for files and directories.
    pub fn symlink_target(&self) -> (t: Option<&str>)
        ensures
            match self@ {
                EntryView::Symlink { target, .. } => t is Some && t.unwrap()@ == target,
                _ => t is None,
            },
    {
        match self {
            ArchiveEntry::Symlink { target, .. } => Some(target.as_str()),
            _ => None,
        }
    }

    /// The Unix permission bits set on the entry, if any.
    pub fn mode(&self) -> (m: Option<u32>)
        ensures
            m == self@.mode(),
    {
        match self {
            ArchiveEntry::File { mode, .. } => *mode,
            ArchiveEntry::Directory { mode, .. } => *mode,
            ArchiveEntry::Symlink { mode, .. } => *mode,
        }
    }

    /// The modification time set on the entry, if any.
    pub fn mtime(&self) -> (t: Option<UnixTime>)
        ensures
            t == self@.mtime(),
    {
        match self {
            ArchiveEntry::File { mtime, .. } => *mtime,
            ArchiveEntry::Directory { mtime, .. } => *mtime,
            ArchiveEntry::Symlink { mtime, .. } => *mtime,
        }
    }

    pub fn is_file(&self) -> (b: bool)
        ensures
            b == (self@ is File),
    {
        match self {
            ArchiveEntry::File { .. } => true,
            _ => false,
        }
    }

    pub fn is_directory(&self) -> (b: bool)
        ensures
            b == (self@ is Directory),
    {
        match self {
            ArchiveEntry::Directory { .. } => true,
            _ => false,
        }
    }

    pub fn is_symlink(&self) -> (b: bool)
        ensures
            b == (self@ is Symlink),
    {
        match self {
            ArchiveEntry::Symlink { .. } => true,
            _ => false,
        }
    }
}

} // verus!
