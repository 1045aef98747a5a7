//! A cross-program invocation composition layer for an on-chain program that
//! drives an external dynamic AMM: validating supplied account lists against
//! each instruction's declared schema, deriving and checking program-derived
//! addresses, binding accounts and payloads to a whitelisted target program,
//! and sequencing the pool-bootstrap-then-lock flow so that a later call is
//! only attempted while every earlier call succeeded.

pub mod accounts;
pub mod addr;
pub mod cpi;
pub mod errors;
pub mod flow;
pub mod known;
pub mod payload;
pub mod pda;
pub mod schema;
