//! Copy-on-write backing images for the linear memories of a sandboxed
//! module: how large each image is, which memories get one, what bytes it
//! holds, and a cache that keeps one image set per compiled module.

pub mod host;
pub mod layout;
pub mod image;
pub mod builder;
pub mod laws;
pub mod registry;

pub use crate::builder::ImageError;
pub use crate::image::{MemoryMemFd, ModuleMemFds};
pub use crate::layout::{MemoryInit, MemorySegment, ModuleLayout, PageEntry};
pub use crate::registry::{CompiledModuleId, MemFdRegistry};
