//! Freezing an asset in the name of its collection's creator.

use vstd::prelude::*;
use crate::admission::{admission, authorize};
use crate::authority::CollectionAuthority;
use crate::error::{GatewayError, PreconditionError};
use crate::identity::Identity;
use crate::registry::{AssetState, CollectionAccount, FreezeCall, FreezeDelegate};

verus! {

/// What a caller supplies to have an asset frozen.
#[derive(Clone, Copy, Debug, PartialEq, Eq)]
pub struct FreezeNft {
    /// The gateway's own identity, under which authority records are derived.
    pub program_id: Identity,
    /// The caller, who also pays.
    pub signer: Identity,
    /// The asset to freeze. The gateway passes it on without looking at it.
    pub asset: Identity,
    /// The collection the asset is claimed to belong to.
    pub collection: CollectionAccount,
    /// The authority record supplied for the collection.
    pub collection_authority: CollectionAuthority,
    /// The system program.
    pub system_program: Identity,
}

impl FreezeNft {
    /// How the operation ends before anything is forwarded: in the first
    /// failure, or in the call that sets the asset's freeze flag.
    pub open spec fn outcome(self) -> Result<FreezeCall, GatewayError> {
        match admission(
            self.program_id,
            self.signer,
            self.collection,
            self.collection_authority,
            PreconditionError::CollectionAlreadyInitialized,
        ) {
            Err(e) => Err(e),
            Ok(seeds) => Ok(
                FreezeCall {
                    asset: self.asset,
                    collection: self.collection.key,
                    authority: self.collection_authority.address,
                    authority_proof: seeds,
                    payer: self.signer,
                    system_program: self.system_program,
                    plugin: FreezeDelegate { frozen: true },
                },
            ),
        }
    }

    /// The asset's state after the operation, where `accepted` says whether
    /// the registry accepted what was forwarded: the state changes only where
    /// a call was made and accepted.
    pub open spec fn asset_after(self, accepted: bool, before: AssetState) -> AssetState {
        match self.outcome() {
            Ok(call) => if accepted {
                call.applied(before)
            } else {
                before
            },
            Err(_) => before,
        }
    }

    /// Decides whether the asset may be frozen and, if so, gives the call to
    /// forward to the registry. Nothing supplied is changed.
    pub fn freeze_nft(&mut self) -> (result: Result<FreezeCall, GatewayError>)
        ensures
            *final(self) == *old(self),
            result == old(self).outcome(),
    {
        let seeds = match authorize(
            &self.program_id,
            &self.signer,
            &self.collection,
            &self.collection_authority,
            PreconditionError::CollectionAlreadyInitialized,
        ) {
            Ok(seeds) => seeds,
            Err(e) => {
                return Err(e);
            },
        };
        Ok(
            FreezeCall {
                asset: self.asset,
                collection: self.collection.key,
                authority: self.collection_authority.address,
                authority_proof: seeds,
                payer: self.signer,
                system_program: self.system_program,
                plugin: FreezeDelegate { frozen: true },
            },
        )
    }
}

} // verus!
