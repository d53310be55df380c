//! Core of a desktop application's native shell: locating a bundled backend,
//! preparing its writable directories, supervising the backend child process,
//! and relaying HTTP requests to it with bounded retries.
//!
//! The shell itself (windowing, the actual file system, process and network
//! calls) lives outside this crate; this crate holds every decision those
//! calls depend on, each with a proved contract.

pub mod bootstrap;
pub mod errors;
pub mod paths;
pub mod relay;
pub mod supervisor;
