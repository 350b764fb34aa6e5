//! Trust gateway: admits TEE workers whose attested code identity is on an
//! owner-controlled allowlist, and gates delegated signing on that admission.
//! Beside it, portfolio bookkeeping: users, intents and their analysis,
//! trades, portfolio health and market data.

pub mod account;
pub mod error;
pub mod hexcode;
pub mod attestation;
pub mod signing;
pub mod gateway;
pub mod laws;
pub mod records;
pub mod text;
pub mod analysis;
pub mod health;
pub mod ledger;
