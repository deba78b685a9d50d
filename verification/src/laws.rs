//! What holds of the two operations whatever is supplied to them.

use vstd::prelude::*;
use crate::authority::{is_bound, CollectionAuthority};
use crate::identity::Identity;
use crate::error::{AuthorizationError, BindingError, GatewayError, PreconditionError};
use crate::freeze_nft::FreezeNft;
use crate::registry::AssetState;
use crate::update_nft::{UpdateNft, UpdateNftArgs};

verus! {

/// The address is the key: two authority records that are bound to one
/// collection with one disambiguator are stored at the same address.
pub proof fn bound_records_share_their_address(
    first: CollectionAuthority,
    second: CollectionAuthority,
    collection: Identity,
    program: Identity,
)
    requires
        is_bound(first, collection, program),
        is_bound(second, collection, program),
        first.bump == second.bump,
    ensures
        first.address == second.address,
{
    assert(first.address@ == second.address@);
    assert(first.address.bytes =~= second.address.bytes);
}

/// A collection that the registry does not own is refused as
/// `InvalidCollection`, whoever calls and whatever authority record is
/// supplied: the caller's authorization is not looked at.
pub proof fn freeze_refuses_foreign_collection(ctx: FreezeNft)
    requires
        !ctx.collection.owned_by_registry(),
    ensures
        ctx.outcome() matches Err(
            GatewayError::Precondition(PreconditionError::InvalidCollection),
        ),
{
}

/// A collection that the registry does not own is refused as
/// `InvalidCollection`, whoever calls and whatever authority record is
/// supplied: the caller's authorization is not looked at.
pub proof fn update_refuses_foreign_collection(ctx: UpdateNft, args: UpdateNftArgs)
    requires
        !ctx.collection.owned_by_registry(),
    ensures
        ctx.outcome(args) matches Err(
            GatewayError::Precondition(PreconditionError::InvalidCollection),
        ),
{
}

/// Freezing in a collection of the registry that holds no state is refused as
/// `CollectionAlreadyInitialized`, and no call is made.
pub proof fn freeze_refuses_empty_collection(ctx: FreezeNft)
    requires
        ctx.collection.owned_by_registry(),
        ctx.collection.data_len == 0,
    ensures
        ctx.outcome() matches Err(
            GatewayError::Precondition(PreconditionError::CollectionAlreadyInitialized),
        ),
{
}

/// Updating in a collection of the registry that holds no state is refused as
/// `CollectionNotInitialized`, and no call is made.
pub proof fn update_refuses_empty_collection(ctx: UpdateNft, args: UpdateNftArgs)
    requires
        ctx.collection.owned_by_registry(),
        ctx.collection.data_len == 0,
    ensures
        ctx.outcome(args) matches Err(
            GatewayError::Precondition(PreconditionError::CollectionNotInitialized),
        ),
{
}

/// In a collection that passes its preconditions, a caller other than the
/// recorded creator is refused as `NotAuthorized`; no call is made, and the
/// asset stays as it was.
pub proof fn freeze_refuses_stranger(ctx: FreezeNft, accepted: bool, before: AssetState)
    requires
        ctx.collection.owned_by_registry(),
        ctx.collection.data_len != 0,
        ctx.signer@ != ctx.collection_authority.creator@,
    ensures
        ctx.outcome() matches Err(
            GatewayError::Authorization(AuthorizationError::NotAuthorized),
        ),
        ctx.asset_after(accepted, before) == before,
{
}

/// In a collection that passes its preconditions, a caller other than the
/// recorded creator is refused as `NotAuthorized`; no call is made, and the
/// asset stays as it was.
pub proof fn update_refuses_stranger(
    ctx: UpdateNft,
    args: UpdateNftArgs,
    accepted: bool,
    before: AssetState,
)
    requires
        ctx.collection.owned_by_registry(),
        ctx.collection.data_len != 0,
        ctx.signer@ != ctx.collection_signer.creator@,
    ensures
        ctx.outcome(args) matches Err(
            GatewayError::Authorization(AuthorizationError::NotAuthorized),
        ),
        ctx.asset_after(args, accepted, before) == before,
{
}

/// An authority record that is not stored at the address derived for the
/// collection never leads to a call. Where the collection passes its
/// preconditions and the caller is the creator that the record names, the
/// failure is `InvalidAuthorityBinding`.
pub proof fn freeze_refuses_unbound_record(ctx: FreezeNft)
    requires
        !is_bound(ctx.collection_authority, ctx.collection.key, ctx.program_id),
    ensures
        ctx.outcome() is Err,
        ctx.collection.owned_by_registry() && ctx.collection.data_len != 0
            && ctx.signer@ == ctx.collection_authority.creator@
            ==> (ctx.outcome() matches Err(
                GatewayError::Binding(BindingError::InvalidAuthorityBinding),
            )),
{
}

/// An authority record that is not stored at the address derived for the
/// collection never leads to a call. Where the collection passes its
/// preconditions and the caller is the creator that the record names, the
/// failure is `InvalidAuthorityBinding`.
pub proof fn update_refuses_unbound_record(ctx: UpdateNft, args: UpdateNftArgs)
    requires
        !is_bound(ctx.collection_signer, ctx.collection.key, ctx.program_id),
    ensures
        ctx.outcome(args) is Err,
        ctx.collection.owned_by_registry() && ctx.collection.data_len != 0
            && ctx.signer@ == ctx.collection_signer.creator@
            ==> (ctx.outcome(args) matches Err(
                GatewayError::Binding(BindingError::InvalidAuthorityBinding),
            )),
{
}

/// Where the creator freezes an asset of a collection that passes its
/// preconditions, under the collection's own authority record, a call is made
/// for that asset. Once the registry has accepted it the asset is frozen and
/// otherwise as before, and the same operation run again leaves the asset as
/// the first run left it.
pub proof fn freeze_is_idempotent(ctx: FreezeNft, before: AssetState)
    requires
        ctx.collection.owned_by_registry(),
        ctx.collection.data_len != 0,
        ctx.signer@ == ctx.collection_authority.creator@,
        is_bound(ctx.collection_authority, ctx.collection.key, ctx.program_id),
    ensures
        ctx.outcome() matches Ok(call) && call.asset == ctx.asset,
        ctx.asset_after(true, before) == (AssetState { frozen: true, ..before }),
        ctx.asset_after(true, ctx.asset_after(true, before)) == ctx.asset_after(true, before),
{
}

/// Where the creator updates an asset to the name and URI it already has, a
/// call is made for that asset, and whether or not the registry accepts it,
/// the asset stays as it was.
pub proof fn update_to_current_values_changes_nothing(
    ctx: UpdateNft,
    args: UpdateNftArgs,
    accepted: bool,
    before: AssetState,
)
    requires
        ctx.collection.owned_by_registry(),
        ctx.collection.data_len != 0,
        ctx.signer@ == ctx.collection_signer.creator@,
        is_bound(ctx.collection_signer, ctx.collection.key, ctx.program_id),
        args.new_name@ == before.name,
        args.new_uri@ == before.uri,
    ensures
        ctx.outcome(args) matches Ok(call) && call.asset == ctx.asset,
        ctx.asset_after(args, accepted, before) == before,
{
}

} // verus!
