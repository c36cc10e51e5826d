//! Tests of the library's own rules: messages, level checks, path checks,
//! timestamps, and what each format's writer is handed.

use archive::calendar::{civil_time_1980_to_2107, CivilTime};
use archive::compression::{ZipMethod, ZipOptions};
use archive::path_safety::{path_is_safe, validate_path};
use archive::text::{decimal_string, signed_decimal_string};
use archive::{ArchiveBuilder, ArchiveEntry, ArchiveError, ArchiveFormat, CompressionLevel, UnixTime, ZipCompression};
use std::io::{Cursor, Read};

const ALL_FORMATS: &[ArchiveFormat] = &[
    ArchiveFormat::Zip,
    ArchiveFormat::Tar,
    ArchiveFormat::TarGz,
    ArchiveFormat::TarBz2,
    ArchiveFormat::TarXz,
    ArchiveFormat::TarZst,
    ArchiveFormat::TarLz4,
    ArchiveFormat::Ar,
    ArchiveFormat::Deb,
    ArchiveFormat::SevenZ,
    ArchiveFormat::Gz,
    ArchiveFormat::Bz2,
    ArchiveFormat::Xz,
    ArchiveFormat::Lz4,
    ArchiveFormat::Zst,
];

fn level_message(err: ArchiveError) -> String {
    match err {
        ArchiveError::InvalidCompressionLevel(m) => m,
        other => panic!("expected InvalidCompressionLevel, got {other:?}"),
    }
}

fn unsupported_message(err: ArchiveError) -> String {
    match err {
        ArchiveError::UnsupportedFormat(m) => m,
        other => panic!("expected UnsupportedFormat, got {other:?}"),
    }
}

fn one_file() -> Vec<ArchiveEntry> {
    vec![ArchiveEntry::file("hello.txt", b"Hello, World!".to_vec())]
}

#[test]
fn default_level_applies_to_every_format() {
    for &format in ALL_FORMATS {
        let bytes = ArchiveBuilder::new()
            .compression_level(CompressionLevel::Default)
            .build(&one_file(), format);
        assert!(bytes.is_ok(), "{format:?}: {bytes:?}");
    }
}

#[test]
fn level_for_another_format_is_refused_with_its_message() {
    let err = ArchiveBuilder::new()
        .compression_level(CompressionLevel::Xz(9))
        .build(&one_file(), ArchiveFormat::Zip)
        .unwrap_err();
    assert_eq!(level_message(err), "Xz(9) does not apply to zip archives");

    let err = ArchiveBuilder::new()
        .compression_level(CompressionLevel::Zip(ZipCompression::Stored))
        .build(&one_file(), ArchiveFormat::TarGz)
        .unwrap_err();
    assert_eq!(level_message(err), "Zip(Stored) does not apply to tar.gz archives");
}

#[test]
fn levelless_formats_take_only_the_default_level() {
    for format in [ArchiveFormat::Tar, ArchiveFormat::Ar, ArchiveFormat::Deb, ArchiveFormat::SevenZ] {
        let err = ArchiveBuilder::new()
            .compression_level(CompressionLevel::Gzip(6))
            .build(&one_file(), format)
            .unwrap_err();
        assert_eq!(level_message(err), format!("Gzip(6) does not apply to {} archives", format.name()));
    }
}

#[test]
fn out_of_range_levels_are_refused_with_the_documented_range() {
    let cases: &[(CompressionLevel, ArchiveFormat, &str)] = &[
        (CompressionLevel::Gzip(10), ArchiveFormat::Gz, "Gzip(10) is out of range (expected 0..=9)"),
        (CompressionLevel::Bzip2(0), ArchiveFormat::TarBz2, "Bzip2(0) is out of range (expected 1..=9)"),
        (CompressionLevel::Zstd(-8), ArchiveFormat::Zst, "Zstd(-8) is out of range (expected -7..=22)"),
        (CompressionLevel::Zstd(23), ArchiveFormat::TarZst, "Zstd(23) is out of range (expected -7..=22)"),
        (CompressionLevel::Xz(10), ArchiveFormat::TarXz, "Xz(10) is out of range (expected 0..=9)"),
        (CompressionLevel::Lz4(17), ArchiveFormat::Lz4, "Lz4(17) is out of range (expected 0..=16)"),
        (
            CompressionLevel::Zip(ZipCompression::Deflated(10)),
            ArchiveFormat::Zip,
            "Zip(Deflated(10)) is out of range (expected 0..=9)",
        ),
    ];
    for &(level, format, message) in cases {
        let err = ArchiveBuilder::new().compression_level(level).build(&one_file(), format).unwrap_err();
        assert_eq!(level_message(err), message);
    }
}

#[test]
fn in_range_levels_build_their_formats() {
    let cases: &[(CompressionLevel, ArchiveFormat)] = &[
        (CompressionLevel::Gzip(0), ArchiveFormat::Gz),
        (CompressionLevel::Gzip(9), ArchiveFormat::TarGz),
        (CompressionLevel::Bzip2(1), ArchiveFormat::Bz2),
        (CompressionLevel::Zstd(-7), ArchiveFormat::Zst),
        (CompressionLevel::Zstd(22), ArchiveFormat::TarZst),
        (CompressionLevel::Xz(0), ArchiveFormat::Xz),
        (CompressionLevel::Lz4(16), ArchiveFormat::TarLz4),
        (CompressionLevel::Zip(ZipCompression::Stored), ArchiveFormat::Zip),
        (CompressionLevel::Zip(ZipCompression::Deflated(9)), ArchiveFormat::Zip),
    ];
    for &(level, format) in cases {
        let r = ArchiveBuilder::new().compression_level(level).build(&one_file(), format);
        assert!(r.is_ok(), "{level:?} {format:?}: {r:?}");
    }
}

#[test]
fn level_conversions_give_each_backend_its_value() {
    assert_eq!(CompressionLevel::Default.to_flate2(ArchiveFormat::Gz).unwrap(), 6);
    assert_eq!(CompressionLevel::Gzip(3).to_flate2(ArchiveFormat::Gz).unwrap(), 3);
    assert_eq!(CompressionLevel::Default.to_bzip2(ArchiveFormat::Bz2).unwrap(), 6);
    assert_eq!(CompressionLevel::Default.to_zstd(ArchiveFormat::Zst).unwrap(), 0);
    assert_eq!(CompressionLevel::Zstd(-3).to_zstd(ArchiveFormat::Zst).unwrap(), -3);
    assert_eq!(CompressionLevel::Default.to_xz_preset(ArchiveFormat::Xz).unwrap(), 6);
    assert_eq!(CompressionLevel::Default.to_lz4(ArchiveFormat::Lz4).unwrap(), 0);
    assert_eq!(
        CompressionLevel::Zip(ZipCompression::Deflated(4)).to_zip_options().unwrap(),
        ZipOptions { method: ZipMethod::Deflated, level: Some(4) }
    );
    assert_eq!(
        CompressionLevel::Default.to_zip_options().unwrap(),
        ZipOptions { method: ZipMethod::Default, level: None }
    );
}

#[test]
fn level_text_is_its_debug_rendering() {
    let levels = [
        CompressionLevel::Default,
        CompressionLevel::Zip(ZipCompression::Stored),
        CompressionLevel::Zip(ZipCompression::Deflated(7)),
        CompressionLevel::Gzip(123),
        CompressionLevel::Bzip2(4),
        CompressionLevel::Zstd(-7),
        CompressionLevel::Zstd(0),
        CompressionLevel::Xz(u32::MAX),
        CompressionLevel::Lz4(16),
    ];
    for level in levels {
        assert_eq!(level.debug_text(), format!("{level:?}"));
    }
}

#[test]
fn decimal_rendering() {
    assert_eq!(decimal_string(0), "0");
    assert_eq!(decimal_string(1234567890), "1234567890");
    assert_eq!(decimal_string(u64::MAX), u64::MAX.to_string());
    assert_eq!(signed_decimal_string(-7), "-7");
    assert_eq!(signed_decimal_string(i64::MIN), i64::MIN.to_string());
    assert_eq!(signed_decimal_string(42), "42");
}

#[test]
fn single_file_formats_name_the_entry_count() {
    let two = vec![
        ArchiveEntry::file("a.txt", b"a".to_vec()),
        ArchiveEntry::file("b.txt", b"b".to_vec()),
    ];
    let err = ArchiveBuilder::new().build(&two, ArchiveFormat::Bz2).unwrap_err();
    assert_eq!(
        unsupported_message(err),
        "single-file compressed archives must contain exactly one file entry, got 2"
    );
    let err = ArchiveBuilder::new().build(&[], ArchiveFormat::Xz).unwrap_err();
    assert_eq!(
        unsupported_message(err),
        "single-file compressed archives must contain exactly one file entry, got 0"
    );
    let err = ArchiveBuilder::new()
        .build(&[ArchiveEntry::symlink("l", "t")], ArchiveFormat::Lz4)
        .unwrap_err();
    assert_eq!(unsupported_message(err), "single-file compressed archives can only contain a file entry");
}

#[test]
fn single_file_entries_are_checked_before_the_level() {
    let err = ArchiveBuilder::new()
        .compression_level(CompressionLevel::Xz(1))
        .build(&[], ArchiveFormat::Gz)
        .unwrap_err();
    assert!(matches!(err, ArchiveError::UnsupportedFormat(_)), "{err:?}");
}

#[test]
fn container_levels_are_checked_before_the_entries() {
    let err = ArchiveBuilder::new()
        .compression_level(CompressionLevel::Gzip(99))
        .build(&[ArchiveEntry::file("../x", Vec::new())], ArchiveFormat::TarGz)
        .unwrap_err();
    assert!(matches!(err, ArchiveError::InvalidCompressionLevel(_)), "{err:?}");
}

#[test]
fn container_kind_messages() {
    let err = ArchiveBuilder::new().build(&[ArchiveEntry::directory("d")], ArchiveFormat::Ar).unwrap_err();
    assert_eq!(unsupported_message(err), "ar/deb archives can only contain files (no directories or symlinks)");
    let err = ArchiveBuilder::new().build(&[ArchiveEntry::symlink("l", "t")], ArchiveFormat::SevenZ).unwrap_err();
    assert_eq!(
        unsupported_message(err),
        "7z symlinks aren't supported for creation (this crate's 7z reader doesn't recognize them either)"
    );
    let err = ArchiveBuilder::new()
        .build_single_file("a", Vec::new(), ArchiveFormat::TarGz)
        .unwrap_err();
    assert_eq!(unsupported_message(err), "tar.gz is not a single-file format; use build() instead");
}

#[test]
fn the_first_refused_entry_decides_the_error() {
    let entries = vec![
        ArchiveEntry::file("ok.txt", b"ok".to_vec()),
        ArchiveEntry::file("/abs", b"x".to_vec()),
        ArchiveEntry::directory("dir"),
    ];
    let err = ArchiveBuilder::new().build(&entries, ArchiveFormat::Ar).unwrap_err();
    assert!(matches!(err, ArchiveError::UnsafePath(ref p) if p == "/abs"), "{err:?}");
}

#[test]
fn path_safety_rules() {
    for safe in ["a.txt", "a/b/c", "..b", "a/..b/c", "a..", ".hidden", "a/./b", ""] {
        assert!(path_is_safe(safe), "{safe}");
        assert!(validate_path(safe, false).is_ok(), "{safe}");
    }
    for unsafe_path in ["/etc/passwd", "\\x", "C:\\x", "c:x", "..", "../x", "a/../b", "a/..", "a\\..\\b"] {
        assert!(!path_is_safe(unsafe_path), "{unsafe_path}");
        let err = validate_path(unsafe_path, false).unwrap_err();
        assert!(matches!(err, ArchiveError::UnsafePath(ref p) if p == unsafe_path), "{err:?}");
        assert!(validate_path(unsafe_path, true).is_ok());
    }
}

#[test]
fn builder_settings() {
    let builder = ArchiveBuilder::new()
        .allow_unsafe_path_traversals(true)
        .compression_level(CompressionLevel::Zip(ZipCompression::Stored));
    let bytes = builder.build(&[ArchiveEntry::file("../up.txt", b"x".to_vec())], ArchiveFormat::Zip);
    assert!(bytes.is_ok(), "{bytes:?}");
    let default_builder = ArchiveBuilder::default();
    let err = default_builder.build(&[ArchiveEntry::file("../up.txt", b"x".to_vec())], ArchiveFormat::Zip).unwrap_err();
    assert!(matches!(err, ArchiveError::UnsafePath(_)));
}

#[test]
fn tar_itself_refuses_parent_components_when_they_are_allowed_here() {
    let err = ArchiveBuilder::new()
        .allow_unsafe_path_traversals(true)
        .build(&[ArchiveEntry::file("../up.txt", b"x".to_vec())], ArchiveFormat::Tar)
        .unwrap_err();
    assert!(matches!(err, ArchiveError::Io(_)), "{err:?}");
}

#[test]
fn deb_is_built_as_ar() {
    let entries = vec![
        ArchiveEntry::file("debian-binary", b"2.0\n".to_vec()).with_mtime(1_700_000_000),
        ArchiveEntry::file("control.tar.gz", vec![1, 2, 3]).with_mode(0o600),
    ];
    let ar = ArchiveBuilder::new().build(&entries, ArchiveFormat::Ar).unwrap();
    let deb = ArchiveBuilder::new().build(&entries, ArchiveFormat::Deb).unwrap();
    assert_eq!(ar, deb);
}

#[test]
fn deterministic_formats_give_the_same_bytes_twice() {
    let entries = vec![
        ArchiveEntry::file("a.txt", b"aaaaaaaaaaaaaaaa".to_vec()),
        ArchiveEntry::directory("d"),
    ];
    for format in [ArchiveFormat::Tar, ArchiveFormat::TarGz, ArchiveFormat::TarXz, ArchiveFormat::SevenZ] {
        let first = ArchiveBuilder::new().build(&entries, format).unwrap();
        let second = ArchiveBuilder::new().build(&entries, format).unwrap();
        assert_eq!(first, second, "{format:?}");
    }
}

#[test]
fn tar_headers_carry_mode_and_mtime_defaults() {
    let entries = vec![
        ArchiveEntry::file("f", b"data".to_vec()),
        ArchiveEntry::directory("d"),
        ArchiveEntry::file("g", b"x".to_vec()).with_mode(0o600).with_mtime(1_614_834_368),
        ArchiveEntry::file("old", b"x".to_vec()).with_mtime(-5),
    ];
    let bytes = ArchiveBuilder::new().build(&entries, ArchiveFormat::Tar).unwrap();
    assert_eq!(bytes.len() % 512, 0);
    let mut archive = tar::Archive::new(&bytes[..]);
    let headers: Vec<(String, u32, u64)> = archive
        .entries()
        .unwrap()
        .map(|e| {
            let e = e.unwrap();
            (
                e.path().unwrap().to_string_lossy().to_string(),
                e.header().mode().unwrap(),
                e.header().mtime().unwrap(),
            )
        })
        .collect();
    assert_eq!(headers[0], ("f".to_string(), 0o644, 0));
    assert_eq!(headers[1].1, 0o755);
    assert_eq!(headers[2], ("g".to_string(), 0o600, 1_614_834_368));
    assert_eq!(headers[3], ("old".to_string(), 0o644, 0));
}

#[test]
fn ar_headers_carry_mode_and_mtime_defaults() {
    let entries = vec![
        ArchiveEntry::file("f", b"data".to_vec()),
        ArchiveEntry::file("g", b"xyz".to_vec()).with_mode(0o755).with_mtime(86_400),
    ];
    let bytes = ArchiveBuilder::new().build(&entries, ArchiveFormat::Ar).unwrap();
    let mut archive = ar::Archive::new(&bytes[..]);
    let first = archive.next_entry().unwrap().unwrap();
    assert_eq!((first.header().mode(), first.header().mtime()), (0o644, 0));
    drop(first);
    let mut second = archive.next_entry().unwrap().unwrap();
    assert_eq!((second.header().mode(), second.header().mtime()), (0o755, 86_400));
    let mut data = Vec::new();
    second.read_to_end(&mut data).unwrap();
    assert_eq!(data, b"xyz");
}

#[test]
fn zip_entries_carry_permissions_and_calendar_time() {
    let entries = vec![
        ArchiveEntry::file("f", b"data".to_vec()).with_mtime(1_614_834_368),
        ArchiveEntry::file("g", b"x".to_vec()).with_mode(0o600).with_mtime(951_827_697),
        ArchiveEntry::directory("d"),
    ];
    let bytes = ArchiveBuilder::new().build(&entries, ArchiveFormat::Zip).unwrap();
    let mut archive = zip::ZipArchive::new(Cursor::new(bytes)).unwrap();
    let f = archive.by_index(0).unwrap();
    let t = f.last_modified().unwrap();
    assert_eq!((t.year(), t.month(), t.day(), t.hour(), t.minute(), t.second()), (2021, 3, 4, 5, 6, 8));
    assert_eq!(f.unix_mode().unwrap() & 0o777, 0o644);
    drop(f);
    let g = archive.by_index(1).unwrap();
    let t = g.last_modified().unwrap();
    // MS-DOS time keeps even seconds only.
    assert_eq!((t.year(), t.month(), t.day(), t.hour(), t.minute(), t.second()), (2000, 2, 29, 12, 34, 56));
    assert_eq!(g.unix_mode().unwrap() & 0o777, 0o600);
    drop(g);
    let d = archive.by_index(2).unwrap();
    assert_eq!(d.unix_mode().unwrap() & 0o777, 0o755);
}

#[test]
fn sevenz_entries_carry_mode_and_mtime() {
    let entries = vec![
        ArchiveEntry::file("f", b"data".to_vec()).with_mode(0o640).with_mtime(1_614_834_368),
        ArchiveEntry::directory("d"),
    ];
    let bytes = ArchiveBuilder::new().build(&entries, ArchiveFormat::SevenZ).unwrap();
    let len = bytes.len() as u64;
    let mut reader =
        sevenz_rust::SevenZReader::new(Cursor::new(bytes), len, sevenz_rust::Password::empty()).unwrap();
    let mut seen = Vec::new();
    reader
        .for_each_entries(|entry, _| {
            seen.push((
                entry.name.clone(),
                entry.has_windows_attributes,
                entry.windows_attributes,
                entry.has_last_modified_date,
                entry.last_modified_date.to_unix_time(),
            ));
            Ok(true)
        })
        .unwrap();
    let f = seen.iter().find(|s| s.0 == "f").unwrap();
    assert!(f.1);
    assert_eq!(f.2, (0o640 << 16) | 0x8000);
    assert!(f.3);
    assert_eq!(f.4, 1_614_834_368);
    let d = seen.iter().find(|s| s.0 == "d").unwrap();
    assert!(!d.1 && !d.3);
}

#[test]
fn gzip_header_carries_file_name_and_mtime() {
    let entries = vec![ArchiveEntry::file("hello.txt", b"Hello, World!".to_vec()).with_mtime(1_000_000)];
    let bytes = ArchiveBuilder::new().build(&entries, ArchiveFormat::Gz).unwrap();
    assert_ne!(&bytes[..], b"Hello, World!");
    let mut decoder = flate2::read::GzDecoder::new(&bytes[..]);
    let mut data = Vec::new();
    decoder.read_to_end(&mut data).unwrap();
    assert_eq!(data, b"Hello, World!");
    let header = decoder.header().unwrap();
    assert_eq!(header.filename(), Some(&b"hello.txt"[..]));
    assert_eq!(header.mtime(), 1_000_000);

    let too_late = vec![ArchiveEntry::file("x", b"x".to_vec()).with_mtime(1 << 40)];
    let bytes = ArchiveBuilder::new().build(&too_late, ArchiveFormat::Gz).unwrap();
    let mut decoder = flate2::read::GzDecoder::new(&bytes[..]);
    decoder.read_to_end(&mut Vec::new()).unwrap();
    assert_eq!(decoder.header().unwrap().mtime(), 0);
}

#[test]
fn compressed_single_files_decompress_to_their_data() {
    let data: Vec<u8> = (0..10_000u32).map(|i| (i % 7) as u8).collect();
    for format in [ArchiveFormat::Bz2, ArchiveFormat::Xz, ArchiveFormat::Lz4, ArchiveFormat::Zst] {
        let bytes = ArchiveBuilder::new().build_single_file("d.bin", data.clone(), format).unwrap();
        assert!(bytes.len() < data.len(), "{format:?}");
        let mut out = Vec::new();
        match format {
            ArchiveFormat::Bz2 => {
                bzip2::read::BzDecoder::new(&bytes[..]).read_to_end(&mut out).unwrap();
            }
            ArchiveFormat::Xz => {
                liblzma::read::XzDecoder::new(&bytes[..]).read_to_end(&mut out).unwrap();
            }
            ArchiveFormat::Lz4 => {
                lz4::Decoder::new(&bytes[..]).unwrap().read_to_end(&mut out).unwrap();
            }
            _ => out = zstd::stream::decode_all(&bytes[..]).unwrap(),
        }
        assert_eq!(out, data, "{format:?}");
    }
}

#[test]
fn calendar_conversion_edges() {
    assert_eq!(civil_time_1980_to_2107(0), None);
    assert_eq!(civil_time_1980_to_2107(-1), None);
    assert_eq!(civil_time_1980_to_2107(315_532_799), None);
    assert_eq!(
        civil_time_1980_to_2107(315_532_800),
        Some(CivilTime { year: 1980, month: 1, day: 1, hour: 0, minute: 0, second: 0 })
    );
    assert_eq!(
        civil_time_1980_to_2107(951_827_696),
        Some(CivilTime { year: 2000, month: 2, day: 29, hour: 12, minute: 34, second: 56 })
    );
    assert_eq!(
        civil_time_1980_to_2107(4_354_819_199),
        Some(CivilTime { year: 2107, month: 12, day: 31, hour: 23, minute: 59, second: 59 })
    );
    assert_eq!(civil_time_1980_to_2107(4_354_819_200), None);
    assert_eq!(civil_time_1980_to_2107(i64::MAX), None);
    assert_eq!(civil_time_1980_to_2107(i64::MIN), None);
}

#[test]
fn entry_accessors() {
    let f = ArchiveEntry::file("f", vec![1]).with_mode(0o700).with_mtime(-3);
    assert!(f.is_file() && !f.is_directory() && !f.is_symlink());
    assert_eq!(
        (f.mode(), f.mtime(), f.data()),
        (Some(0o700), Some(UnixTime { secs: -3, nanos: 0 }), Some(&[1u8][..]))
    );
    let l = ArchiveEntry::symlink("l", "t");
    assert_eq!((l.symlink_target(), l.data(), l.mode()), (Some("t"), None, None));
    let d = ArchiveEntry::directory("d");
    assert!(d.is_directory());
    assert_eq!(d.symlink_target(), None);
}


#[test]
fn sevenz_mtime_keeps_sub_second_precision() {
    let time = UnixTime { secs: 1_614_834_368, nanos: 123_456_789 };
    let entries = vec![ArchiveEntry::file("f", b"data".to_vec()).with_precise_mtime(time)];
    let bytes = ArchiveBuilder::new().build(&entries, ArchiveFormat::SevenZ).unwrap();
    let len = bytes.len() as u64;
    let mut reader =
        sevenz_rust::SevenZReader::new(Cursor::new(bytes), len, sevenz_rust::Password::empty()).unwrap();
    let mut ticks = Vec::new();
    reader
        .for_each_entries(|entry, _| {
            ticks.push(entry.last_modified_date.to_raw());
            Ok(true)
        })
        .unwrap();
    // 100 ns ticks since 1601: (secs + 11_644_473_600) * 10^7 + nanos / 100.
    assert_eq!(ticks, vec![(1_614_834_368u64 + 11_644_473_600) * 10_000_000 + 1_234_567]);
}

#[test]
fn sub_second_mtimes_round_down_to_whole_seconds_in_tar() {
    let entries = vec![
        ArchiveEntry::file("a", b"x".to_vec()).with_precise_mtime(UnixTime { secs: 100, nanos: 999_999_999 }),
        ArchiveEntry::file("b", b"x".to_vec()).with_precise_mtime(UnixTime { secs: -1, nanos: 500_000_000 }),
    ];
    let bytes = ArchiveBuilder::new().build(&entries, ArchiveFormat::Tar).unwrap();
    let mut archive = tar::Archive::new(Cursor::new(bytes));
    let mtimes: Vec<u64> = archive.entries().unwrap().map(|e| e.unwrap().header().mtime().unwrap()).collect();
    assert_eq!(mtimes, vec![100, 0]);
}

#[test]
fn tar_refuses_an_empty_path_as_a_writer_failure() {
    let entries = vec![ArchiveEntry::file("", b"x".to_vec())];
    let err = ArchiveBuilder::new().build(&entries, ArchiveFormat::Tar).unwrap_err();
    assert!(matches!(err, ArchiveError::Io(_)), "{err:?}");
}

#[test]
fn lone_sevenz_symlink_is_refused_as_unsupported() {
    let entries = vec![ArchiveEntry::symlink("link", "target")];
    let err = ArchiveBuilder::new().build(&entries, ArchiveFormat::SevenZ).unwrap_err();
    assert!(matches!(err, ArchiveError::UnsupportedFormat(_)), "{err:?}");
}

#[test]
fn zip_refuses_a_name_it_already_holds() {
    let entries = vec![
        ArchiveEntry::file("a.txt", b"1".to_vec()),
        ArchiveEntry::file("a.txt", b"2".to_vec()),
    ];
    let err = ArchiveBuilder::new().build(&entries, ArchiveFormat::Zip).unwrap_err();
    assert!(matches!(err, ArchiveError::Zip(_)), "{err:?}");
}

#[test]
fn zip_writes_a_parent_path_when_unsafe_paths_are_allowed() {
    let entries = vec![ArchiveEntry::file("../../etc/passwd", b"pwned".to_vec())];
    let bytes = ArchiveBuilder::new()
        .allow_unsafe_path_traversals(true)
        .build(&entries, ArchiveFormat::Zip)
        .unwrap();
    let mut archive = zip::ZipArchive::new(Cursor::new(bytes)).unwrap();
    assert_eq!(archive.len(), 1);
    let mut file = archive.by_index(0).unwrap();
    assert_eq!(file.name().unwrap(), "../../etc/passwd");
    let mut data = Vec::new();
    file.read_to_end(&mut data).unwrap();
    assert_eq!(data, b"pwned");
}

#[test]
fn zip_deflate_level_zero_is_refused_by_the_zip_writer() {
    let entries = vec![ArchiveEntry::file("a.txt", b"1".to_vec())];
    let err = ArchiveBuilder::new()
        .compression_level(CompressionLevel::Zip(ZipCompression::Deflated(0)))
        .build(&entries, ArchiveFormat::Zip)
        .unwrap_err();
    assert!(matches!(err, ArchiveError::Zip(_)), "{err:?}");
}

#[test]
fn sevenz_mtime_at_the_last_file_time_tick_is_kept() {
    // 1_833_029_933_770_955_161_550 ns after 1970 is the largest tick count, u64::MAX.
    let time = UnixTime { secs: 1_833_029_933_770, nanos: 955_161_550 };
    let entries = vec![ArchiveEntry::file("f", b"x".to_vec()).with_precise_mtime(time)];
    let bytes = ArchiveBuilder::new().build(&entries, ArchiveFormat::SevenZ).unwrap();
    let len = bytes.len() as u64;
    let mut reader =
        sevenz_rust::SevenZReader::new(Cursor::new(bytes), len, sevenz_rust::Password::empty()).unwrap();
    let mut seen = Vec::new();
    reader
        .for_each_entries(|entry, _| {
            seen.push((entry.has_last_modified_date, entry.last_modified_date.to_raw()));
            Ok(true)
        })
        .unwrap();
    assert_eq!(seen, vec![(true, u64::MAX)]);
}

#[test]
fn tar_writer_refuses_a_parent_path_even_when_unsafe_paths_are_allowed() {
    let entries = vec![ArchiveEntry::file("../../etc/passwd", b"pwned".to_vec())];
    let err = ArchiveBuilder::new()
        .allow_unsafe_path_traversals(true)
        .build(&entries, ArchiveFormat::Tar)
        .unwrap_err();
    assert!(matches!(err, ArchiveError::Io(_)), "{err:?}");
}
