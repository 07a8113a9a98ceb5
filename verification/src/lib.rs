//! Bulk rewriting of the save paths and tracker URLs that a torrent client
//! keeps in its resume database.
//!
//! Every torrent row stores its save path twice: once in a text column that
//! always uses forward slashes, and once inside a bencoded resume record that
//! uses the separators of the host the client ran on. The functions of this
//! crate compute, for given rows, the new column value and the new record so
//! that both stay in agreement.

pub mod bencode;
pub mod codec;
pub mod config;
pub mod db;
pub mod text;
