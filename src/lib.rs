//! A per-account counter program: it checks that the target account belongs to
//! the running program, decodes the four-byte counter record from the account's
//! storage, adds one (wrapping at the 32-bit boundary) and writes it back.
pub mod account;
pub mod error;
pub mod laws;
pub mod processor;
pub mod state;

pub use account::{AccountInfo, Pubkey};
pub use error::CounterError;
pub use processor::process_instruction;
pub use state::{CounterAccount, RECORD_LEN};
