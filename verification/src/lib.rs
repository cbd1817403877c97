//! On-ledger record stores for a non-fungible asset collection and a
//! supply-capped fungible token.
//!
//! The collection side ([`kwami_nft`]) keeps a content-addressed uniqueness
//! registry: every minted asset carries an immutable 32-byte DNA fingerprint
//! that must be unique within its collection, and the registry is bounded by
//! a fixed capacity. The fungible side ([`qwami_token`]) keeps overflow-safe
//! mint/burn accounting under a hard supply ceiling.
//!
//! Both sides run as atomic instructions inside an external transaction
//! runtime: the runtime locks the accounts an instruction declares,
//! authenticates signers, and commits or discards all of an instruction's
//! writes together. The handlers here take the authenticated caller identity
//! and the current time as plain values, validate everything before mutating
//! anything, and on any error leave every record exactly as it was.

pub mod identity;
pub mod kwami_nft;
pub mod qwami_token;
