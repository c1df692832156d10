//! Firmware interop bridge for the pre-handoff phase of a boot loader.
//!
//! The crate holds the logic of the bridge as functions on plain values:
//! the binary shape of the firmware's service tables, the decoding of a
//! captured memory map, the resolution of the display protocol into a
//! framebuffer descriptor, and the state machine that drives the exit from
//! boot services. The firmware calls themselves are made by the embedding
//! program, which hands each reply to the functions here.

pub mod boot_exit;
pub mod layout;
pub mod memory_map;
pub mod status;
pub mod vram;
