//! Enumeration of the local network interfaces, from plain-value snapshots
//! of the operating system's native interface records.
//!
//! The data model is in [`model`]; [`decode`] turns packed socket-address
//! records into addresses; [`unix`] walks the `getifaddrs` list and
//! [`windows`] the adapter list of `GetAdaptersAddresses`, together with the
//! protocol that sizes its buffer.
pub mod model;
pub mod decode;
pub mod unix;
pub mod windows;
