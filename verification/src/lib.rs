//! Decision core of a window supervisor: it picks out top-level windows by
//! title, places each one once against the right screen edge, and answers the
//! start / stop / shutdown commands of its control surfaces.
//!
//! The library holds the rules; the program around it performs the operating
//! system queries, runs the threads and serves the sockets.

pub mod geometry;
pub mod text;
pub mod title;
pub mod signal;
pub mod watcher;
pub mod lifecycle;
pub mod control;
pub mod guard;
pub mod notify;
