pub mod account;
pub mod instructions;

pub use account::Account;
pub use instructions::{
    ChargeBack, ClientId, Deposit, Dispute, Instruction, InstructionOutcome, InstructionResult,
    RejectionReason, Resolve, TransactionId, Withdrawal,
};
