//! Replacing an asset's name and URI in the name of its collection's creator.

use vstd::prelude::*;
use crate::admission::{admission, authorize};
use crate::authority::CollectionAuthority;
use crate::error::{GatewayError, PreconditionError};
use crate::identity::Identity;
use crate::registry::{AssetState, CollectionAccount, UpdateCall};

verus! {

/// The new metadata of an asset.
#[derive(Debug, PartialEq, Eq)]
pub struct UpdateNftArgs {
    pub new_name: String,
    pub new_uri: String,
}

/// What a caller supplies to have an asset's metadata replaced.
#[derive(Clone, Copy, Debug, PartialEq, Eq)]
pub struct UpdateNft {
    /// The gateway's own identity, under which authority records are derived.
    pub program_id: Identity,
    /// The caller, who also pays.
    pub signer: Identity,
    /// The asset to update. The gateway passes it on without looking at it.
    pub asset: Identity,
    /// The collection the asset is claimed to belong to.
    pub collection: CollectionAccount,
    /// The authority record supplied for the collection.
    pub collection_signer: CollectionAuthority,
    /// The system program.
    pub system_program: Identity,
}

impl UpdateNft {
    /// How the operation ends before anything is forwarded: in the first
    /// failure, or in the call that carries the new name and URI.
    pub open spec fn outcome(self, args: UpdateNftArgs) -> Result<UpdateCall, GatewayError> {
        match admission(
            self.program_id,
            self.signer,
            self.collection,
            self.collection_signer,
            PreconditionError::CollectionNotInitialized,
        ) {
            Err(e) => Err(e),
            Ok(seeds) => Ok(
                UpdateCall {
                    asset: self.asset,
                    collection: self.collection.key,
                    payer: self.signer,
                    authority: self.collection_signer.address,
                    authority_proof: seeds,
                    system_program: self.system_program,
                    new_name: args.new_name,
                    new_uri: args.new_uri,
                },
            ),
        }
    }

    /// The asset's state after the operation, where `accepted` says whether
    /// the registry accepted what was forwarded: the state changes only where
    /// a call was made and accepted.
    pub open spec fn asset_after(
        self,
        args: UpdateNftArgs,
        accepted: bool,
        before: AssetState,
    ) -> AssetState {
        match self.outcome(args) {
            Ok(call) => if accepted {
                call.applied(before)
            } else {
                before
            },
            Err(_) => before,
        }
    }

    /// Decides whether the asset may be updated and, if so, gives the call to
    /// forward to the registry. Nothing supplied is changed.
    pub fn update_nft(&mut self, args: UpdateNftArgs) -> (result: Result<UpdateCall, GatewayError>)
        ensures
            *final(self) == *old(self),
            result == old(self).outcome(args),
    {
        let seeds = match authorize(
            &self.program_id,
            &self.signer,
            &self.collection,
            &self.collection_signer,
            PreconditionError::CollectionNotInitialized,
        ) {
            Ok(seeds) => seeds,
            Err(e) => {
                return Err(e);
            },
        };
        Ok(
            UpdateCall {
                asset: self.asset,
                collection: self.collection.key,
                payer: self.signer,
                authority: self.collection_signer.address,
                authority_proof: seeds,
                system_program: self.system_program,
                new_name: args.new_name,
                new_uri: args.new_uri,
            },
        )
    }
}

} // verus!
