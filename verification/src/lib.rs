//! A delegated-authority gateway.
//!
//! The creator of a collection may have privileged changes made to the assets
//! of that collection in an asset registry, without holding a signing key for
//! each of them. What stands in for the key is an authority record, stored at
//! an address derived from the collection, which names the creator.
//!
//! An operation ([`freeze_nft::FreezeNft::freeze_nft`],
//! [`update_nft::UpdateNft::update_nft`]) checks the collection, holds the
//! caller against the record, validates the record's address, and then gives
//! the call to forward to the registry, signed with the seeds of the record.
//! It reports the first failure it meets and forwards nothing itself: the
//! caller sends the call and hands the registry's answer to
//! [`registry::settle`].

pub mod admission;
pub mod authority;
pub mod derivation;
pub mod error;
pub mod freeze_nft;
pub mod identity;
pub mod laws;
pub mod registry;
pub mod update_nft;
