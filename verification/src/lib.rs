//! A small library behind a desktop application shell: it formats the
//! greeting that the application's one command returns, and decides, for
//! each event coming out of a spawned background process ("sidecar"), which
//! log line the host should emit.

pub mod greeting;
pub mod sidecar;
