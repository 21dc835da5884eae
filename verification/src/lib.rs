//! Verified core of a laptop hardware-control daemon.
//!
//! The crate provides the command/response vocabulary exchanged between the
//! daemon and its clients, a binary codec for that vocabulary with a proved
//! round-trip guarantee, message framing for the byte-stream channel, the GPU
//! discovery and classification engine, runtime power-management control, and
//! the command dispatcher.  All I/O (sockets, sysfs, external tools) lives in
//! the unverified application layer, which hands plain values to this crate.

pub mod codec;
pub mod dispatch;
pub mod frame;
pub mod gpu;
pub mod mode;
pub mod msg;
pub mod power;
pub mod text;
pub mod wire;
