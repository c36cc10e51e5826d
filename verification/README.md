# archive

Creates archives in memory — zip, tar (plain and gzip/bzip2/xz/zstd/lz4
compressed), 7z, ar/deb and the single-file formats gz, bz2, xz, lz4 and
zst — from a list of entries, with entry paths checked before anything is
written. The library is verified with Verus. `ArchiveBuilder::build` states
exactly which error a refused build gives, when a build that refuses nothing
succeeds (always for ar, deb, 7z and the single-file formats; for tar when the
tar writer takes every name; for zip when, in addition, the names are
distinct and the level is one the zip writer starts files with), and what it
gives: the exact bytes of the outside writers for every format but zip (for
tar, when no name holds `\` or a drive prefix, which Windows parses
differently), and for zip an archive holding exactly the entries (its bytes
also depend on the clock and the host system). `src/laws.rs` proves
properties of the library as a whole (levels are accepted exactly as
documented, builds that refuse nothing succeed, built archives hold only
safe paths and only the kinds of entry their format supports, deb is built
as ar, a `.tar.gz` is the gzip stream of the `.tar`, `build_single_file` is
`build` of one file, building is deterministic except for zip).

Layout:

- `src/builder.rs` — `ArchiveBuilder` and the specification of `build`.
- `src/entry.rs`, `src/format.rs`, `src/error.rs`, `src/compression.rs` —
  entries, formats, errors and compression levels, with their models.
- `src/path_safety.rs` — what makes an entry path safe.
- `src/calendar.rs` — Unix seconds to civil time, for zip timestamps.
- `src/model.rs` — what each container records of an entry, and the order
  in which entries are refused.
- `src/tar_writer.rs`, `src/ar_writer.rs`, `src/zip_writer.rs`,
  `src/sevenz_writer.rs`, `src/codecs.rs` — the calls into the archive and
  compression crates, each with the contract it is trusted to meet.
- `app/` — conversions from `Path` and `SystemTime`, which the library takes
  as strings and `UnixTime` values.
