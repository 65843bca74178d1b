//! Facades over the client, one for each family of resources.

pub mod indexes;

pub use indexes::{IndexesContainer, Lookup};
