//! Verified account rules of a group of token programs: a whitelisted token
//! vault with its transfer hook, a timed escrow, a VRF consumer and a plain
//! whitelist registry.
pub mod pubkey;
pub mod pda;
pub mod accounts;
pub mod cpi;
pub mod vault;
pub mod hook;
pub mod escrow;
pub mod vrf;
pub mod registry;
