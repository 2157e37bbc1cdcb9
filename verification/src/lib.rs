//! Frame handoff between one producer and its consumers through a shared
//! directory: the rules both sides follow, without the I/O that carries them out.
//!
//! A producer writes each frame to a working file and renames it over the
//! published file once the previous frame has been read. A consumer learns of
//! the rename through a directory watch and streams the published file, framed
//! by a boundary token, to its output.

pub mod framing;

pub mod common_args;

pub mod watch;

pub mod producer;

pub mod consumer;

pub mod event_source;
