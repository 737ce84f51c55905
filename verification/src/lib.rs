//! Verified core of a TUN/TAP tunnel-device library.
//!
//! The crate holds the logic of two pieces: the Linux device-provisioning
//! protocol (kernel-feature detection, the fixed-layout attach request, and
//! the read-back of the kernel-resolved interface name), and the dual-mode
//! packet-queue protocol over a raw file descriptor, including the
//! edge-triggered readiness retry rules for the asynchronous queue.
//! The system calls themselves, and the reactor that delivers readiness,
//! live outside this crate; everything here is stated over plain values
//! and proved.

pub mod bytes;
pub mod error;
pub mod frames;
pub mod poll;
pub mod provision;
pub mod version;
