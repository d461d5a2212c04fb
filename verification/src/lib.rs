//! Instruction processor for a zero-knowledge proof verification program.
//!
//! The processor receives one transaction-level instruction at a time. A
//! verify instruction checks a zero-knowledge proof (the cryptographic work
//! is delegated to an external verifier) and may persist the verified result
//! into a proof context account; a close instruction tears such an account
//! down and refunds its balance. The modules here enforce the account
//! lifecycle rules: a context record is initialized at most once, only the
//! recorded authority may close it, a close may not pay the refund back into
//! the account being closed, and every failure leaves all accounts untouched.

pub mod account;
pub mod codec;
pub mod error;
pub mod guard;
pub mod laws;
pub mod processor;
pub mod proof_type;
pub mod pubkey;
pub mod verdict;
