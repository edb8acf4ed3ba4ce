//! Core of a userspace file system framework: the FUSE wire codec, the node
//! registry and the decisions of the request dispatcher.
//!
//! The codec turns the frames of the kernel into requests
//! ([`decoder`]) and replies into frames ([`encoder`]). The registry
//! ([`registry`], [`engine`]) keeps a handle for every inode. The dispatcher
//! ([`driver`]) finds the node of a request, asks the object behind it and
//! makes the reply. Mounting, locking and the event loop belong to the
//! program around this library.

pub mod abi;
pub mod buffer;
pub mod controller;
pub mod decoder;
pub mod driver;
pub mod encoder;
pub mod engine;
pub mod errno;
pub mod error;
pub mod file;
pub mod handler;
pub mod link;
pub mod node;
pub mod opcode;
pub mod registry;
pub mod request;
pub mod response;
pub mod utils;
pub mod wire;

pub use crate::controller::Request;
pub use crate::engine::Engine;
pub use crate::handler::Handle;
pub use crate::node::{Directory, File, Node};
