//! Library components for `git-ss`, a Git plugin that shares temporary snapshot branches.
//!
//! Snapshots are pushed to `refs/heads/gitss/<id>` with their metadata recorded in the
//! commit message. The library holds what the tool decides: the metadata format and its
//! parser, the upload and download flows as state machines that a caller drives with the
//! outcomes of Git operations, the listing order and the cells and records it shows.

/// Command-line argument types.
pub mod cli;
/// Subcommand decisions and errors.
pub mod commands;
/// The download flow.
pub mod download_flow;
/// Git errors, ref names and small repository decisions.
pub mod git;
/// Listing entries and their orders.
pub mod listing;
/// Snapshot metadata rendering, parsing and validation.
pub mod metadata;
/// Character-level text helpers.
pub mod text;
/// Fixed-offset timestamps.
pub mod time;
/// The upload flow.
pub mod upload_flow;
