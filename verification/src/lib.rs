//! A kernel-event tracing engine, and the plans of the container commands
//! that go with it.
//!
//! The engine: fixed-layout event records ([`schema`]), the probe programs
//! that produce them ([`program`]), bounded per-CPU channels ([`channel`]), a
//! counting table ([`counting`]), the bookkeeping of loaded programs and
//! attachments ([`probe`]), event filters ([`filter`]) and the life cycle of a
//! session ([`session`]).
//!
//! Around it: the check of the environment ([`environment`]), the commands as
//! plans ([`commands`]), namespaces and their errors ([`namespace`],
//! [`ns_error`]), error numbers ([`errno`]) and text utilities ([`text`]).
//!
//! Nothing here talks to the kernel or the file system. Whoever uses the
//! library reads and writes, and hands plain values in and out.

pub mod channel;
pub mod commands;
pub mod counting;
pub mod environment;
pub mod errno;
pub mod filter;
pub mod namespace;
pub mod ns_error;
pub mod probe;
pub mod program;
pub mod schema;
pub mod session;
pub mod text;
