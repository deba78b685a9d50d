//! The sequence that every operation runs before it forwards anything: the
//! collection's preconditions, then the caller's authorization, then the
//! binding of the authority record.

use vstd::prelude::*;
use crate::authority::{binding, validate_binding, verify, CollectionAuthority, SigningSeeds};
use crate::error::{AuthorizationError, GatewayError, PreconditionError};
use crate::identity::Identity;
use crate::registry::CollectionAccount;

verus! {

/// What the sequence ends in: the first failure in its order, or the seeds
/// that sign the forwarded call.
pub open spec fn admission(
    program: Identity,
    signer: Identity,
    collection: CollectionAccount,
    record: CollectionAuthority,
    when_empty: PreconditionError,
) -> Result<SigningSeeds, GatewayError> {
    match collection.precondition(when_empty) {
        Err(e) => Err(GatewayError::Precondition(e)),
        Ok(()) => if signer@ != record.creator@ {
            Err(GatewayError::Authorization(AuthorizationError::NotAuthorized))
        } else {
            match binding(record, collection.key, program) {
                Err(e) => Err(GatewayError::Binding(e)),
                Ok(seeds) => Ok(seeds),
            }
        },
    }
}

/// Runs the sequence for a caller `signer`, under the gateway's own identity
/// `program`. `when_empty` is the calling operation's error for a collection
/// without state.
pub fn authorize(
    program: &Identity,
    signer: &Identity,
    collection: &CollectionAccount,
    record: &CollectionAuthority,
    when_empty: PreconditionError,
) -> (result: Result<SigningSeeds, GatewayError>)
    ensures
        result == admission(*program, *signer, *collection, *record, when_empty),
{
    match collection.check(when_empty) {
        Err(e) => {
            return Err(GatewayError::Precondition(e));
        },
        Ok(()) => {},
    }
    match verify(signer, record) {
        Err(e) => {
            return Err(GatewayError::Authorization(e));
        },
        Ok(()) => {},
    }
    match validate_binding(record, &collection.key, program) {
        Err(e) => Err(GatewayError::Binding(e)),
        Ok(seeds) => Ok(seeds),
    }
}

} // verus!
