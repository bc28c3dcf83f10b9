//! Resource-lifetime and synchronization core for an explicit GPU API: memory-type
//! selection, host-mapping guards, barrier and copy construction, and the
//! command-buffer / fence ownership chain that keeps referenced resources alive;
//! plus the status codes and object records of a VA-API binding (`va`).
pub mod barrier;
pub mod command_buffer;
pub mod device;
pub mod error;
pub mod extensions;
pub mod memory;
pub mod queue;
pub mod resource;
pub mod va;

pub use error::{Error, Result};
