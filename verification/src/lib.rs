//! A minimal network-facing counter service, verified.
//!
//! The crate holds the service's logic: the shared counter with its
//! saturating-increment discipline, the wire format of the increment API,
//! the page renderer for the index document, the static-asset table, and
//! the HTTP route dispatch with its fixed precedence. An unverified shell
//! around the crate performs the actual socket and request I/O and hands
//! every request, as plain values, to [`router::handle`] — or, to keep the
//! counter's multi-reader/single-writer locking visible, to
//! [`router::decide`] and the one handler it names.

pub mod assets;
pub mod counter;
pub mod json;
pub mod numfmt;
pub mod render;
pub mod router;
