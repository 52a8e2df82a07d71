//! Synchronise a list of track identifiers into a named remote playlist.
//!
//! The library resolves a playlist name to a remote identifier (creating the
//! playlist when it is absent), filters out tracks that the playlist already
//! holds, removes duplicate requests, and hands the remainder to the remote
//! service in a single addition call. The remote service itself stands behind
//! the [`playlist::PlaylistAPI`] trait; everything that decides what to send
//! is verified here.

pub mod csv_to_playlist;
pub mod dynamodb;
pub mod playlist;
pub mod spotify;
pub mod tracks;
