//! A sandboxing runtime for WebAssembly system calls (WASI).
//!
//! The library checks every request that sandboxed code makes of the host:
//! sandbox pointers must stay inside linear memory, sandbox file descriptors
//! are mapped to host descriptors through a bounded table, paths must stay
//! inside the sandbox's home directory and sockets may only reach the
//! endpoints of the network allow-list.
use vstd::prelude::*;

pub mod bits;
pub mod posix;
pub mod error;
pub mod types;
pub mod flags;
pub mod fdmap;
pub mod runtime;
pub mod iov;
pub mod writeback;
pub mod poll;
pub mod path;
pub mod hostcall;
pub mod wasi;
pub mod argv;
pub mod readdir;
pub mod codegen;
pub mod parser;
pub mod qc;
pub mod sfi;
pub mod frontend;
pub mod stats;
pub mod verifier_interface;
pub mod seal;
pub mod clock;
