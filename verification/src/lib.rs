//! Per-buffer coherence tracking for data that has physical copies on several
//! compute devices at once.
//!
//! A [`SharedMemory`](tracker::SharedMemory) owns, for one logical buffer, at
//! most one [`MemoryCopy`](memory::MemoryCopy) per device, remembers which
//! device's copy is authoritative (up to date with the latest accepted write),
//! and moves bytes between devices only on an explicit
//! [`sync`](tracker::SharedMemory::sync) call. Devices are an open set: any
//! type that implements the [`Device`](device::Device) capability contract can
//! back a copy.

pub mod copy_map;
pub mod device;
pub mod memory;
pub mod tracker;

pub use device::Device;
pub use device::DeviceError;
pub use memory::MemoryCopy;
pub use tracker::Error;
pub use tracker::SharedMemory;
