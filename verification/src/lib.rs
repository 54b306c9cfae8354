//! Validation and structural decomposition of International Bank Account
//! Numbers: normalisation, lexical checks, the mod-97 checksum and the
//! country-specific layout of the account number part.

pub mod alphabet;
pub mod normalize;
pub mod registry;
pub mod countries;
pub mod lexical;
pub mod checksum;
pub mod bban;
pub mod engine;
pub mod laws;
pub mod detection;
pub mod service;
