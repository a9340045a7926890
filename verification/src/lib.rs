//! Userspace control plane for a kernel-offloaded TCP congestion-control
//! framework.
//!
//! A kernel-resident enforcement program tracks live TCP flows. It emits
//! per-ACK measurement signals and flow lifecycle events through ring
//! buffers, and it reads enforcement decisions (congestion window, pacing
//! rate) from a kernel-shared connection table. This library is the engine
//! between the two: it decodes the fixed-layout kernel records, keeps the
//! authoritative registry that maps a kernel flow identity to its userspace
//! connection state, relays measurement snapshots towards the external
//! congestion-control algorithm, and serializes the algorithm's decisions
//! through a single-consumer command queue into field-scoped read-modify-write
//! updates of the kernel table.
//!
//! The polling threads, sockets and the kernel handles themselves live
//! outside this library; they hand records in as plain bytes and carry
//! queued messages out.

pub mod bridge;
pub mod codec;
pub mod commands;
pub mod connection;
pub mod events;
pub mod kernel;
pub mod lifecycle;
pub mod manager;
pub mod registry;
