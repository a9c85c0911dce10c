//! Socket and asynchronous I/O core of a WebAssembly system interface:
//! socket lifecycle, wire-format addresses, descriptor table with rights,
//! cancellation bookkeeping of one-shot operations, and the syscall entry
//! points that tie them together.

pub mod errno;
pub mod memory;
pub mod sockaddr;
pub mod socket;
pub mod fd_table;
pub mod executor;
pub mod syscalls;
pub mod send_file;
pub mod iovec;
pub mod oneshot;
pub mod commands;
pub mod zero_file;
pub mod http;
pub mod wapm;
pub mod login;
