//! A catalog of vegan products kept in stable memory.
//!
//! Records live in a durable ordered map keyed by an identifier that a durable
//! counter issues. Every operation on the catalog carries a contract over a
//! mathematical model of the catalog, and the code is proved to meet it.

pub mod catalog;
pub mod codec;
pub mod counter;
pub mod error;
pub mod laws;
pub mod model;
pub mod product;
pub mod stable;
pub mod storage;
pub mod store;
pub mod text;

pub use catalog::Catalog;
pub use counter::IdCounter;
pub use error::Error;
pub use product::{ProductPayload, VeganProduct};
pub use storage::Storage;
pub use store::RecordStore;
