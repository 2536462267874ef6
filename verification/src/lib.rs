//! Permission questions about filesystem paths on POSIX-like systems, answered
//! without touching the filesystem.
//!
//! The library decides; the caller talks to the operating system. Every
//! operation is a [`resolver::Resolver`]: a small machine that names the one
//! request it is waiting on and, given the reply, either names the next request
//! or holds the answer.
pub mod codes;
pub mod mode;
pub mod inspect;
pub mod path;
pub mod request;
pub mod resolver;
pub mod theorems;
pub mod world;

pub use codes::{ErrorCodes, OsError, Status};
pub use inspect::Metadata;
pub use request::{Reply, Request};
pub use resolver::Resolver;
