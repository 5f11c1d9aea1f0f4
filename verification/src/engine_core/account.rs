pub mod account_provider;
pub mod in_memory_account_provider;

pub use account_provider::AccountProvider;
pub use in_memory_account_provider::InMemoryAccountProvider;
