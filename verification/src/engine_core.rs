pub mod account;
pub mod engine;
pub mod in_memory;
pub mod laws;
pub mod routing;
pub mod transaction_id_registry;
pub mod transaction_ledger;
pub mod transaction_record;

pub use account::{AccountProvider, InMemoryAccountProvider};
pub use engine::{Engine, EngineParams};
pub use in_memory::{InMemoryTransactionIdRegistry, InMemoryTransactionLedger};
pub use transaction_id_registry::TransactionIdRegistry;
pub use transaction_ledger::TransactionLedger;
pub use transaction_record::DisputableTransaction;
