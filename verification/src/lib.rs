//! A hook in front of a compiler that cannot be configured itself.
//!
//! The hook finds the project that an invocation belongs to, resolves the
//! project's configuration against the overrides of the machine, has the
//! entry file transformed, rewrites the arguments of the invocation and runs
//! the compiler on them. This library holds what the hook decides and
//! computes; reading files and running processes is left to its caller.

pub mod checkversions;
pub mod compile_file;
pub mod config;
pub mod installation_location;
pub mod modify_args;
pub mod pipeline;
pub mod save_readable;
pub mod tee;
pub mod text;
pub mod trusted;
