//! The decisions of a Node.js version-switching shim, verified.
//!
//! The shim is one executable that is called as `node`, `npm`, `npx`,
//! `corepack` or under the name of any globally installed binary. It finds
//! the Node version that is active where it is called, starts the real tool
//! with the binaries of that version first in `PATH`, and keeps a registry
//! of which global binary belongs to which version, so that each binary has
//! a shim of its own for as long as a version claims it.
//!
//! This crate holds every decision of the shim and none of its effects: it
//! reads no file, starts no process and knows no clock but where a time
//! stamp is wanted. Its functions take what was read and return what is to
//! be done: a child to start, files to link and to remove, registries to
//! save. Paths are computed as a directory and the names joined to it
//! ([`home::NvmdPath`]); the caller makes them paths of its platform.
//!
//! Each function states what it returns over the mathematical view of its
//! arguments: a string is the sequence of its characters, the package
//! registry a map from binaries to versions. The few calls into other
//! crates stand in functions marked `external_body`, whose documentation
//! says which outside function is called and what is claimed of it.
//!
//! - [`context`]: the active version and the `PATH` of the child.
//! - [`home`], [`setting`]: the files of the state directory.
//! - [`package`], [`project`], [`group`]: the three registries.
//! - [`npm`]: reading an npm command line, and the bookkeeping around it.
//! - [`run`]: which tool the shim is called as, and what it starts.
//! - [`shim`]: the aliases in the shared `bin` directory.
//! - [`cli`]: the subcommands of `nvmd` itself.

pub mod cli;
pub mod context;
pub mod error;
pub mod group;
pub mod home;
pub mod node;
pub mod notice;
pub mod npm;
pub mod package;
pub mod progress;
pub mod project;
pub mod run;
pub mod setting;
pub mod shim;
pub mod signal;
pub mod text;
