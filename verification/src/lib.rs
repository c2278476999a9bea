//! A compatibility shim between a game engine and the host it runs on.
//!
//! The engine addresses host resources through opaque handles, reads its
//! settings from a registry, and finds its data files through a file-system
//! interface. This library holds the rules behind those services: the handle
//! table, the registry emulation, the file-system adapter and the routing of
//! the engine's subsystem interfaces. Everything here works on plain values;
//! the program around it performs the calls across the native boundary.

pub mod error;
pub mod util;
pub mod event;
pub mod handle;
pub mod registry;
pub mod file_system;
pub mod bridge;
pub mod host_api;
