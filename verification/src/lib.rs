//! The self-update logic of a desktop helper application: resolving the
//! latest release, picking the asset for the platform, keeping count of a
//! download, verifying its digest, and steering the installation with its
//! rollback. Everything that touches the network, the disk or the process
//! table is left to the caller, who hands in what was read and carries out
//! what is decided here.

pub mod checksums;
pub mod fetch;
pub mod hash;
pub mod installer;
pub mod manual;
pub mod notes;
pub mod platform;
pub mod release;
pub mod session;
pub mod settings;
pub mod text;
