//! Tests for archive creation via `ArchiveBuilder`. The archives built are
//! read back with the format crates' own readers.

use archive::{ArchiveBuilder, ArchiveEntry, ArchiveError, ArchiveFormat};
use std::io::{Cursor, Read};
use std::path::{Path, PathBuf};

/// Formats that support files, directories, and symlinks (everything but
/// the single-file compressed formats, `.ar`/`.deb`, and `.7z`, which each
/// have their own narrower round-trip tests below).
const FULL_FEATURED_FORMATS: &[ArchiveFormat] = &[
    ArchiveFormat::Zip,
    ArchiveFormat::Tar,
    ArchiveFormat::TarGz,
    ArchiveFormat::TarBz2,
    ArchiveFormat::TarXz,
    ArchiveFormat::TarZst,
    ArchiveFormat::TarLz4,
];

/// The plain stream inside a compressed stream of `format`.
fn decompress(bytes: &[u8], format: ArchiveFormat) -> Vec<u8> {
    let mut out = Vec::new();
    match format {
        ArchiveFormat::TarGz | ArchiveFormat::Gz => {
            flate2::read::GzDecoder::new(bytes).read_to_end(&mut out).unwrap();
        }
        ArchiveFormat::TarBz2 | ArchiveFormat::Bz2 => {
            bzip2::read::BzDecoder::new(bytes).read_to_end(&mut out).unwrap();
        }
        ArchiveFormat::TarXz | ArchiveFormat::Xz => {
            liblzma::read::XzDecoder::new(bytes).read_to_end(&mut out).unwrap();
        }
        ArchiveFormat::TarZst | ArchiveFormat::Zst => {
            out = zstd::stream::decode_all(bytes).unwrap();
        }
        ArchiveFormat::TarLz4 | ArchiveFormat::Lz4 => {
            lz4::Decoder::new(bytes).unwrap().read_to_end(&mut out).unwrap();
        }
        _ => out.extend_from_slice(bytes),
    }
    out
}

fn with_metadata(entry: ArchiveEntry, mode: Option<u32>, mtime: Option<i64>) -> ArchiveEntry {
    let entry = match mode {
        Some(m) => entry.with_mode(m),
        None => entry,
    };
    match mtime {
        Some(t) => entry.with_mtime(t),
        None => entry,
    }
}

fn extract_tar(tar_bytes: &[u8]) -> Vec<ArchiveEntry> {
    let mut archive = tar::Archive::new(tar_bytes);
    let mut out = Vec::new();
    for entry in archive.entries().unwrap() {
        let mut entry = entry.unwrap();
        let path = entry.path().unwrap().to_string_lossy().to_string();
        let mode = entry.header().mode().ok();
        let mtime = entry.header().mtime().ok().map(|t| t as i64);
        let kind = entry.header().entry_type();
        let e = if kind.is_dir() {
            ArchiveEntry::directory(&path)
        } else if kind.is_symlink() {
            let target = entry.link_name().unwrap().unwrap().to_string_lossy().to_string();
            ArchiveEntry::symlink(&path, &target)
        } else {
            let mut data = Vec::new();
            entry.read_to_end(&mut data).unwrap();
            ArchiveEntry::file(&path, data)
        };
        out.push(with_metadata(e, mode, mtime));
    }
    out
}

fn extract_zip(bytes: &[u8]) -> Vec<ArchiveEntry> {
    let mut archive = zip::ZipArchive::new(Cursor::new(bytes.to_vec())).unwrap();
    let mut out = Vec::new();
    for i in 0..archive.len() {
        let mut file = archive.by_index(i).unwrap();
        let name = file.name().unwrap().to_string();
        let mode = file.unix_mode().map(|m| m & 0o7777);
        let e = if file.is_dir() {
            ArchiveEntry::directory(&name)
        } else if file.is_symlink() {
            let mut target = String::new();
            file.read_to_string(&mut target).unwrap();
            ArchiveEntry::symlink(&name, &target)
        } else {
            let mut data = Vec::new();
            file.read_to_end(&mut data).unwrap();
            ArchiveEntry::file(&name, data)
        };
        out.push(with_metadata(e, mode, None));
    }
    out
}

fn extract_ar(bytes: &[u8]) -> Vec<ArchiveEntry> {
    let mut archive = ar::Archive::new(bytes);
    let mut out = Vec::new();
    while let Some(entry) = archive.next_entry() {
        let mut entry = entry.unwrap();
        let name = String::from_utf8(entry.header().identifier().to_vec()).unwrap();
        let mode = entry.header().mode();
        let mtime = entry.header().mtime() as i64;
        let mut data = Vec::new();
        entry.read_to_end(&mut data).unwrap();
        out.push(ArchiveEntry::file(&name, data).with_mode(mode).with_mtime(mtime));
    }
    out
}

fn extract_7z(bytes: &[u8]) -> Vec<ArchiveEntry> {
    let len = bytes.len() as u64;
    let mut reader =
        sevenz_rust::SevenZReader::new(Cursor::new(bytes.to_vec()), len, sevenz_rust::Password::empty()).unwrap();
    let mut out = Vec::new();
    reader
        .for_each_entries(|entry, data_reader| {
            let mode = if entry.has_windows_attributes && entry.windows_attributes & 0x8000 != 0 {
                Some(entry.windows_attributes >> 16)
            } else {
                None
            };
            let mtime = if entry.has_last_modified_date {
                Some(entry.last_modified_date.to_unix_time())
            } else {
                None
            };
            let e = if entry.is_directory {
                ArchiveEntry::directory(&entry.name)
            } else {
                let mut data = Vec::new();
                data_reader.read_to_end(&mut data).unwrap();
                ArchiveEntry::file(&entry.name, data)
            };
            out.push(with_metadata(e, mode, mtime));
            Ok(true)
        })
        .unwrap();
    out
}

/// Reads an archive of `format` back into entries.
fn extract(bytes: &[u8], format: ArchiveFormat) -> Vec<ArchiveEntry> {
    match format {
        ArchiveFormat::Zip => extract_zip(bytes),
        ArchiveFormat::Tar
        | ArchiveFormat::TarGz
        | ArchiveFormat::TarBz2
        | ArchiveFormat::TarXz
        | ArchiveFormat::TarZst
        | ArchiveFormat::TarLz4 => extract_tar(&decompress(bytes, format)),
        ArchiveFormat::Ar | ArchiveFormat::Deb => extract_ar(bytes),
        ArchiveFormat::SevenZ => extract_7z(bytes),
        _ => vec![ArchiveEntry::file("", decompress(bytes, format))],
    }
}

fn round_trip(format: ArchiveFormat) {
    let entries = vec![
        ArchiveEntry::file("hello.txt", b"Hello, World!".to_vec()),
        ArchiveEntry::file("nested/deep/file.txt", b"nested content".to_vec()),
        ArchiveEntry::directory("empty-dir"),
    ];

    let bytes = ArchiveBuilder::new().build(&entries, format).unwrap();
    let extracted = extract(&bytes, format);

    let hello = extracted
        .iter()
        .find(|e| e.path() == "hello.txt")
        .unwrap_or_else(|| panic!("hello.txt missing for {format:?}: {extracted:?}"));
    assert_eq!(hello.data(), Some(&b"Hello, World!"[..]));

    let nested = extracted
        .iter()
        .find(|e| e.path() == "nested/deep/file.txt")
        .unwrap_or_else(|| panic!("nested file missing for {format:?}: {extracted:?}"));
    assert_eq!(nested.data(), Some(&b"nested content"[..]));

    assert!(
        extracted
            .iter()
            .any(|e| e.path().trim_end_matches('/') == "empty-dir" && e.is_directory()),
        "expected empty-dir directory entry for {format:?}, got {extracted:?}"
    );
}

fn symlink_round_trip(format: ArchiveFormat) {
    let entries = vec![
        ArchiveEntry::file("target.txt", b"real content".to_vec()),
        ArchiveEntry::symlink("link.txt", "target.txt"),
    ];

    let bytes = ArchiveBuilder::new().build(&entries, format).unwrap();
    let extracted = extract(&bytes, format);

    let link = extracted
        .iter()
        .find(|e| e.path() == "link.txt")
        .unwrap_or_else(|| panic!("link.txt missing for {format:?}: {extracted:?}"));
    assert!(link.is_symlink(), "{format:?}: {link:?}");
    assert!(
        matches!(link, ArchiveEntry::Symlink { target, .. } if target == "target.txt"),
        "{format:?}: {link:?}"
    );
}

#[test]
fn full_featured_formats_round_trip_files_and_directories() {
    for &format in FULL_FEATURED_FORMATS {
        round_trip(format);
    }
}

#[test]
fn full_featured_formats_round_trip_symlinks() {
    for &format in FULL_FEATURED_FORMATS {
        symlink_round_trip(format);
    }
}

#[test]
fn ar_round_trip() {
    let entries = vec![
        ArchiveEntry::file("hello.txt", b"Hello, World!".to_vec()),
        ArchiveEntry::file("other.txt", b"other content".to_vec()),
    ];

    for format in [ArchiveFormat::Ar, ArchiveFormat::Deb] {
        let bytes = ArchiveBuilder::new().build(&entries, format).unwrap();
        let extracted = extract(&bytes, format);

        assert_eq!(extracted.len(), 2, "{format:?}: {extracted:?}");
        let hello = extracted.iter().find(|e| e.path() == "hello.txt").unwrap();
        assert_eq!(hello.data(), Some(&b"Hello, World!"[..]));
    }
}

#[test]
fn ar_rejects_directory_entries() {
    let entries = vec![ArchiveEntry::directory("some-dir")];
    let err = ArchiveBuilder::new()
        .build(&entries, ArchiveFormat::Ar)
        .unwrap_err();
    assert!(matches!(err, ArchiveError::UnsupportedFormat(_)), "{err:?}");
}

#[test]
fn ar_rejects_symlink_entries() {
    let entries = vec![ArchiveEntry::symlink("link", "target")];
    let err = ArchiveBuilder::new()
        .build(&entries, ArchiveFormat::Deb)
        .unwrap_err();
    assert!(matches!(err, ArchiveError::UnsupportedFormat(_)), "{err:?}");
}

#[test]
fn sevenz_round_trip() {
    let entries = vec![
        ArchiveEntry::file("hello.txt", b"Hello, World!".to_vec()),
        ArchiveEntry::directory("empty-dir"),
    ];

    let bytes = ArchiveBuilder::new()
        .build(&entries, ArchiveFormat::SevenZ)
        .unwrap();
    let extracted = extract(&bytes, ArchiveFormat::SevenZ);

    let hello = extracted.iter().find(|e| e.path() == "hello.txt").unwrap();
    assert_eq!(hello.data(), Some(&b"Hello, World!"[..]));
    assert!(
        extracted
            .iter()
            .any(|e| e.path() == "empty-dir" && e.is_directory()),
        "{extracted:?}"
    );
}

#[test]
fn sevenz_rejects_symlink_entries() {
    let entries = vec![ArchiveEntry::symlink("link", "target")];
    let err = ArchiveBuilder::new()
        .build(&entries, ArchiveFormat::SevenZ)
        .unwrap_err();
    assert!(matches!(err, ArchiveError::UnsupportedFormat(_)), "{err:?}");
}

#[test]
fn single_file_formats_round_trip() {
    for format in [
        ArchiveFormat::Gz,
        ArchiveFormat::Bz2,
        ArchiveFormat::Xz,
        ArchiveFormat::Lz4,
        ArchiveFormat::Zst,
    ] {
        let entries = vec![ArchiveEntry::file("hello.txt", b"Hello, World!".to_vec())];
        let bytes = ArchiveBuilder::new().build(&entries, format).unwrap();
        let extracted = extract(&bytes, format);

        assert_eq!(extracted.len(), 1, "{format:?}: {extracted:?}");
        assert_eq!(
            extracted[0].data(),
            Some(&b"Hello, World!"[..]),
            "{format:?}"
        );
    }
}

#[test]
fn single_file_formats_reject_multiple_entries() {
    let entries = vec![
        ArchiveEntry::file("a.txt", b"a".to_vec()),
        ArchiveEntry::file("b.txt", b"b".to_vec()),
    ];
    let err = ArchiveBuilder::new()
        .build(&entries, ArchiveFormat::Gz)
        .unwrap_err();
    assert!(matches!(err, ArchiveError::UnsupportedFormat(_)), "{err:?}");
}

#[test]
fn single_file_formats_reject_directory_entries() {
    let entries = vec![ArchiveEntry::directory("some-dir")];
    let err = ArchiveBuilder::new()
        .build(&entries, ArchiveFormat::Zst)
        .unwrap_err();
    assert!(matches!(err, ArchiveError::UnsupportedFormat(_)), "{err:?}");
}

#[test]
fn build_single_file_round_trips_without_wrapping_in_a_vec() {
    for format in [
        ArchiveFormat::Gz,
        ArchiveFormat::Bz2,
        ArchiveFormat::Xz,
        ArchiveFormat::Lz4,
        ArchiveFormat::Zst,
    ] {
        let bytes = ArchiveBuilder::new()
            .build_single_file("hello.txt", b"Hello, World!".to_vec(), format)
            .unwrap();
        let extracted = extract(&bytes, format);

        assert_eq!(extracted.len(), 1, "{format:?}: {extracted:?}");
        assert_eq!(
            extracted[0].data(),
            Some(&b"Hello, World!"[..]),
            "{format:?}"
        );
    }
}

#[test]
fn build_single_file_rejects_container_formats() {
    let err = ArchiveBuilder::new()
        .build_single_file("hello.txt", b"Hello, World!".to_vec(), ArchiveFormat::Zip)
        .unwrap_err();
    assert!(matches!(err, ArchiveError::UnsupportedFormat(_)), "{err:?}");
}

#[test]
fn build_rejects_unsafe_entry_path() {
    let entries = vec![ArchiveEntry::file("../../etc/passwd", b"pwned".to_vec())];

    let err = ArchiveBuilder::new()
        .build(&entries, ArchiveFormat::Zip)
        .unwrap_err();
    assert!(matches!(err, ArchiveError::UnsafePath(_)), "{err:?}");
}

#[test]
fn build_rejects_unsafe_symlink_target() {
    let entries = vec![ArchiveEntry::symlink("link.txt", "../../etc/passwd")];

    let err = ArchiveBuilder::new()
        .build(&entries, ArchiveFormat::TarGz)
        .unwrap_err();
    assert!(matches!(err, ArchiveError::UnsafePath(_)), "{err:?}");
}

#[test]
fn file_constructor_accepts_path_like_types() {
    let from_str = ArchiveEntry::file("a.txt", b"a".to_vec());
    let from_string = ArchiveEntry::file(&"b.txt".to_string(), b"b".to_vec());
    let from_path = ArchiveEntry::file(Path::new("c.txt").to_str().unwrap(), b"c".to_vec());
    let from_pathbuf = ArchiveEntry::file(PathBuf::from("d.txt").to_str().unwrap(), b"d".to_vec());

    assert_eq!(from_str.path(), "a.txt");
    assert_eq!(from_string.path(), "b.txt");
    assert_eq!(from_path.path(), "c.txt");
    assert_eq!(from_pathbuf.path(), "d.txt");
}

#[test]
fn file_constructor_normalizes_nested_path_components() {
    let path = PathBuf::from("a").join("b").join("c.txt");
    let entry = ArchiveEntry::file(path.to_str().unwrap(), b"x".to_vec());
    // PathBuf::join always uses '/' as the in-memory separator on Unix;
    // this mainly documents that the constructor doesn't mangle nested
    // paths built up via the Path API rather than string concatenation.
    assert_eq!(entry.path(), "a/b/c.txt");
}
