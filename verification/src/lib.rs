//! Host-side protocol engine for a USB HID bootloader.
//!
//! The engine builds and reads the frames of the bootloader protocol and
//! decides, step by step, what a flashing session does next: Info, an
//! optional Echo self-test, Erase, Program and Reboot.  It never touches the
//! device: the caller performs each action on the transport and reports the
//! outcome.

pub mod bootloader;
pub mod command;
pub mod echo;
mod entropy;
pub mod firmware;
pub mod frame;
pub mod info;
pub mod laws;
pub mod machine;
pub mod status;
