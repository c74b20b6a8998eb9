//! The decisions around the system calls that create and drive a device.

pub mod common;
pub mod linux;
pub mod macos;
pub mod posix;
pub mod windows;
