//! A self-registration registry: components and systems are registered by
//! name while the registry is open, and the names that systems depend on are
//! resolved to component identities in one pass when the registry is sealed.

pub mod error;
pub mod hash;
pub mod value;
pub mod resolution;
pub mod table;
pub mod registry;
pub mod identity;
pub mod driver;
pub mod laws;
