//! Attribute protocol of one vendor's USB/HID peripherals.
//!
//! A device is a node of the kernel's device tree. The crate finds the
//! vendor's devices among the nodes that a scan yielded, decodes the
//! attributes that a node reports as raw bytes into typed values, and encodes
//! the values that can be written into the bytes that the firmware expects.
//! It performs no I/O: a caller hands it what the attribute store reported
//! and carries out the writes that it asks for.

pub mod attribute;
pub mod codec;
pub mod decimal;
pub mod device;
pub mod locator;
pub mod node;
pub mod signature;
