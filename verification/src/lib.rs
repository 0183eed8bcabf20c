//! Provisioning and configuration logic for a JSON-document language server.
//!
//! The library models the binary-provisioning lifecycle (version resolution,
//! conditional install, cached-binary discovery, launch descriptor assembly)
//! and the configuration payloads the server needs at startup and at
//! workspace-configuration time. All filesystem and package-manager work is
//! performed by the surrounding host; the library makes every decision over
//! plain values and is verified.

pub mod adapter;
pub mod cache;
pub mod installer;
pub mod paths;
pub mod payload;
