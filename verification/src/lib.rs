//! Portable core of a user-space USB host library.
//!
//! The crate models the asynchronous transfer engine and the device and
//! interface handles layered above it. All platform I/O is kept outside:
//! the handles mint requests ([`device::UsbAction`], pending transfers) and
//! consume the operating system's replies as plain values, so every decision
//! the core makes is stated in a contract and proved.

pub mod errors;
pub mod setup;
pub mod utf16;
pub mod descriptors;
pub mod buffers;
pub mod transfer;
pub mod future;
pub mod queue;
pub mod device;
pub mod enumeration;
