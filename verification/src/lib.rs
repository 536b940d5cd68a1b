//! A counter and a persistent key-value map, kept as one state record whose
//! map lives in a content-addressed block store as a hash-array-mapped trie.

pub mod actor;
pub mod codec;
pub mod error;
pub mod laws;
pub mod state;
pub mod store;
pub mod text;
pub mod trie;
pub mod types;

pub use crate::actor::{Actor, HelloWorldActor, Method, INIT_ACTOR_ID, METHOD_CONSTRUCTOR};
pub use crate::error::ActorError;
pub use crate::state::State;
pub use crate::store::BlockStore;
pub use crate::types::KeyValueType;
