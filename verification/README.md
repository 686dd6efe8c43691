# git-ss

`git-ss` shares temporary Git snapshots: it pushes the tree of a ref or of the working
directory to `refs/heads/gitss/<id>` on a remote, lists the snapshots there, downloads one
into a detached checkout, and cleans them up.

## Layout

- `src/` is the verified library. Its functions carry contracts that Verus proves, except
  the few trusted wrappers around outside code: the `chrono` calls in `time.rs` and the
  `Debug` text of a character in `listing.rs`, whose contracts are taken as given. The
  proved part covers the metadata format (`metadata.rs`, with the proof that a rendered commit message
  parses back to its metadata), the upload and download flows as state machines
  (`upload_flow.rs`, `download_flow.rs`), the listing order and its stable sort
  (`listing.rs`), the table cells and records of `git-ss list` (`commands/list.rs`), and
  the text helpers they rest on (`text.rs`). Calendar computations are delegated to
  `chrono`; `time.rs` states what it writes and counts for the formats this crate uses.
- `app/` is the command-line program: argument parsing with `clap`, the libgit2 operations
  that drive the flows, and the table, CSV and JSON output.
- `tests/` exercises the library on concrete values.
