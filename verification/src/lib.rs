//! Verified core of a peer-to-peer networking binding: the decisions that
//! surround each call into the native tunnel library (handle lifecycle,
//! error reporting, argument checking, result interpretation).
mod client;
mod conn;
mod error;
mod ffi;
mod handle;
mod keys;
mod peer_path;
mod server;
mod time;

pub use client::Client;
pub use conn::{closed_handle_message, lemma_io_constants, lemma_io_message, lemma_native_len, read_eof_status, spec_io_message, spec_native_len, Conn};
pub use error::{lemma_take_error, spec_take_error, take_error, Error, NulError, Result};
pub use ffi::{c_string_bytes, has_nul, is_first_nul, is_nul_error, lemma_c_string_reads_back, lemma_c_string_shape, lemma_nul_means_zero_byte, native_len, take_string_or_err, to_cstring};
pub use handle::{lemma_status_outcome, spec_close_outcome, Handle};
pub use keys::{lemma_key_eq, resolve_conn_blob, PrivateKey};
pub use peer_path::{lemma_peer_path_names, spec_peer_path, PeerPath};
pub use server::{lemma_accept_outcome, spec_accept_outcome, Server};
pub use time::{duration_millis, duration_of_millis, lemma_timeout_ms, spec_timeout_ms, timeout_ms};
