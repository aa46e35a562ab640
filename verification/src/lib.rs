//! A typed key-value layer over an embedded storage engine: canonical,
//! order-aware key encodings and the decisions of a per-type record store.

pub mod big_endian;
pub mod error;
pub mod key_encode;
pub mod key_laws;
pub mod order;
pub mod store;
pub mod store_laws;

pub use error::Error;
pub use key_encode::{encode_key, KeyEncoder};
pub use store::{Db, Sleigh};
