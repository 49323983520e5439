# keramics

Verified building blocks for reading storage media: strings and identifiers as they are
stored on disk, and the virtual file system (VFS) that presents volumes, images and file
systems as paths and file entries.

The library under `src/` is written in Verus. Its functions carry contracts that the
verifier proves, except for a few small wrappers, marked `#[verifier::external_body]`, around
calls into `std`, `keramics_encodings`, `keramics_datetime` and `keramics_formats`: their
contracts are taken on trust, and each says in its doc comment what it claims of the call.

- `bytes`, `elements`, `text`: reading integers from byte slices, reading string elements
  up to a terminator, writing hexadecimal and decimal digits.
- `ucs2_string`, `utf16_string`, `byte_string`: UCS-2, UTF-16 and byte strings, with
  case folding, decoding, comparison and display; byte strings use the character
  decoders and encoders of `keramics_encodings`.
- `uuid`: UUIDs from bytes and from their text form, and their text form.
- `vfs`: paths and their joining, locations, the image file system (one file per layer),
  the fake in-memory file system, the finder that walks a file system depth first, the
  credential store, and the decisions that back-ends take on what their formats report.

`app/` holds what the library leaves to its callers: operating system lookups, storage
media read with `keramics_formats`, data streams, the process-wide credential store, and
the iteration that drives the finder.
