//! Cistern: a storage layer with a key-value engine over sled and the
//! id, naming and batch rules of its vector tables.


pub mod backend;
pub mod error;
pub mod ids;
pub mod kv;
pub mod rag;
pub mod record;
pub mod sled_types;
pub mod storage;
pub mod stamp;

pub mod text;


pub use backend::{Backend, Cistern};
pub use error::Error;
pub use kv::{Kv, KvTable};
pub use record::{RagRecord, Record};
pub use stamp::gen_id;
pub use storage::Storage;

