//! A four-way percentage split of a remittance, kept in the instance storage of a
//! Soroban contract and applied to amounts.

pub mod host;
pub mod ledger;
pub mod split;

pub use ledger::RemittanceSplit;
