//! Verified dispatch of ABI-encoded call payloads onto an exchange engine and a
//! registry of non-fungible tokens: payload words are decoded and validated,
//! the engine or registry is driven through traits that the host implements,
//! and its answers are encoded back into words.

pub mod abi;
pub mod support;
pub mod dex;
pub mod nft;
