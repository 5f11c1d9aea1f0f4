pub mod in_memory_transaction_id_registry;
pub mod in_memory_transaction_ledger;

pub use in_memory_transaction_id_registry::InMemoryTransactionIdRegistry;
pub use in_memory_transaction_ledger::InMemoryTransactionLedger;
