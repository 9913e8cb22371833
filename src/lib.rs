//! Mouse simulation and observation through the Linux input subsystem.
//!
//! The library holds the verified logic: the kernel record layouts, the event
//! sequences that each mouse action writes to a virtual device, the decoding of
//! observed kernel events, device-path deduplication and the callback registry.
//! The system calls themselves are made by the caller.

pub mod common;
pub mod codec;
pub mod device;
pub mod discovery;
pub mod listener;
pub mod registry;
pub mod session;

pub use session::{Backend, NixMouseManager};
