//! The asset registry as the gateway sees it: its identity, the collections
//! it owns, the calls that are forwarded to it and what it answers.

use vstd::prelude::*;
use crate::authority::SigningSeeds;
use crate::error::{ForwardError, GatewayError, PreconditionError};
use crate::identity::Identity;

verus! {

/// The registry program's identity, `CoREENxT6tW1HoK8ypY1SxRMZTcVPm7R94rH4PZNhX7d`
/// in base 58.
pub const REGISTRY_PROGRAM: [u8; 32] = [
    175, 84, 171, 16, 189, 151, 165, 66, 160, 158, 247, 179, 152, 137, 221, 12, 211, 148, 164, 204,
    233, 223, 166, 205, 201, 126, 190, 45, 35, 91, 167, 72,
];

/// The registry program's identity.
pub fn registry_program() -> (id: Identity)
    ensures
        id@ == REGISTRY_PROGRAM@,
{
    Identity::new(REGISTRY_PROGRAM)
}

/// A collection as it is supplied to an operation: its identity, the program
/// that owns it and how much state it holds.
#[derive(Clone, Copy, Debug, PartialEq, Eq)]
pub struct CollectionAccount {
    /// The collection's identity.
    pub key: Identity,
    /// The program that owns the collection.
    pub owner: Identity,
    /// The number of bytes of state the collection holds.
    pub data_len: usize,
}

impl CollectionAccount {
    /// Whether the registry owns the collection.
    pub open spec fn owned_by_registry(self) -> bool {
        self.owner@ == REGISTRY_PROGRAM@
    }

    /// Whether the collection holds no state.
    pub fn data_is_empty(&self) -> (empty: bool)
        ensures
            empty == (self.data_len == 0),
    {
        self.data_len == 0
    }

    /// What an operation finds of the collection before anything else: the
    /// ownership failure first, then `when_empty` for a collection without
    /// state.
    pub open spec fn precondition(
        self,
        when_empty: PreconditionError,
    ) -> Result<(), PreconditionError> {
        if !self.owned_by_registry() {
            Err(PreconditionError::InvalidCollection)
        } else if self.data_len == 0 {
            Err(when_empty)
        } else {
            Ok(())
        }
    }

    /// Checks that the registry owns the collection and that the collection is
    /// initialized. `when_empty` is the error of the calling operation for a
    /// collection without state.
    pub fn check(&self, when_empty: PreconditionError) -> (result: Result<(), PreconditionError>)
        ensures
            result == self.precondition(when_empty),
    {
        if self.owner != registry_program() {
            Err(PreconditionError::InvalidCollection)
        } else if self.data_is_empty() {
            Err(when_empty)
        } else {
            Ok(())
        }
    }
}

/// The state of the freeze plugin that a call asks for.
#[derive(Clone, Copy, Debug, PartialEq, Eq)]
pub struct FreezeDelegate {
    pub frozen: bool,
}

/// The call that freezes an asset.
#[derive(Clone, Copy, Debug, PartialEq, Eq)]
pub struct FreezeCall {
    /// The asset to change.
    pub asset: Identity,
    /// The collection the asset is claimed to belong to.
    pub collection: Identity,
    /// The authority record in whose name the call is made.
    pub authority: Identity,
    /// The seeds that sign for the authority record.
    pub authority_proof: SigningSeeds,
    /// Who pays for the change.
    pub payer: Identity,
    /// The system program.
    pub system_program: Identity,
    /// The plugin state to set.
    pub plugin: FreezeDelegate,
}

/// The call that replaces an asset's name and URI.
#[derive(Debug, PartialEq, Eq)]
pub struct UpdateCall {
    /// The asset to change.
    pub asset: Identity,
    /// The collection the asset is claimed to belong to.
    pub collection: Identity,
    /// Who pays for the change.
    pub payer: Identity,
    /// The authority record in whose name the call is made.
    pub authority: Identity,
    /// The seeds that sign for the authority record.
    pub authority_proof: SigningSeeds,
    /// The system program.
    pub system_program: Identity,
    /// The asset's new display name.
    pub new_name: String,
    /// The asset's new URI.
    pub new_uri: String,
}

/// What the registry records of an asset, as far as forwarded calls change it.
pub ghost struct AssetState {
    pub frozen: bool,
    pub name: Seq<char>,
    pub uri: Seq<char>,
}

impl FreezeCall {
    /// The asset's state once the registry has accepted the call.
    pub open spec fn applied(self, before: AssetState) -> AssetState {
        AssetState { frozen: self.plugin.frozen, ..before }
    }
}

impl UpdateCall {
    /// The asset's state once the registry has accepted the call: name and URI
    /// are replaced together.
    pub open spec fn applied(self, before: AssetState) -> AssetState {
        AssetState { name: self.new_name@, uri: self.new_uri@, ..before }
    }
}

/// The end of an operation whose call was forwarded: the registry's answer,
/// unchanged.
pub fn settle(answer: Result<(), ForwardError>) -> (result: Result<(), GatewayError>)
    ensures
        result == match answer {
            Ok(()) => Ok::<(), GatewayError>(()),
            Err(e) => Err(GatewayError::Forward(e)),
        },
{
    match answer {
        Ok(()) => Ok(()),
        Err(e) => Err(GatewayError::Forward(e)),
    }
}

} // verus!
