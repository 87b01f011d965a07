//! Client-side core for a deterministic remote ledger: method-discriminator
//! derivation, instruction assembly, multi-signer transaction composition,
//! idempotent reconciliation of derived associated accounts, and fixed-layout
//! account payload codecs.
pub mod errors;
pub mod ident;
pub mod keys;
pub mod ledger;
pub mod dispatch;
pub mod instruction;
pub mod programs;
pub mod codec;
pub mod compose;
pub mod resolver;
pub mod contract;
pub mod token_ops;
pub mod holdings;
