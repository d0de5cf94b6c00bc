//! A single-node append-only ledger: signed transactions, content-hashed
//! blocks, a proof-of-work search and the chain that links them.
pub mod codec;
pub mod primitives;
pub mod identity;
pub mod transaction;
pub mod block;
pub mod ledger;

pub use transaction::Transaction;
pub use block::Block;
pub use identity::Identity;
pub use ledger::{Blockchain, generate_keypair, KeyError, ProduceError};

