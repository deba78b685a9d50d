//! The ways in which an operation ends other than in success.
//!
//! An operation reports the first failure it meets: a precondition on the
//! collection, then authorization of the caller, then the binding of the
//! authority record, then whatever the registry answered.

use vstd::prelude::*;

verus! {

/// The collection is not what an operation needs it to be.
#[derive(Clone, Copy, Debug, PartialEq, Eq)]
pub enum PreconditionError {
    /// The collection is not owned by the registry.
    InvalidCollection,
    /// The collection holds no state; reported where an asset is frozen.
    CollectionAlreadyInitialized,
    /// The collection holds no state; reported where an asset is updated.
    CollectionNotInitialized,
}

/// The caller is not the one the authority record names.
#[derive(Clone, Copy, Debug, PartialEq, Eq)]
pub enum AuthorizationError {
    /// The caller is not the recorded creator.
    NotAuthorized,
}

/// The authority record does not belong to the collection.
#[derive(Clone, Copy, Debug, PartialEq, Eq)]
pub enum BindingError {
    /// The record's address is not the one derived for the collection.
    InvalidAuthorityBinding,
}

/// A failure that the registry reported for a forwarded call. The gateway
/// does not look into it.
#[derive(Clone, Copy, Debug, PartialEq, Eq)]
pub struct ForwardError {
    /// The registry's error code, as it came.
    pub code: u64,
}

/// Every failure of an operation.
#[derive(Clone, Copy, Debug, PartialEq, Eq)]
pub enum GatewayError {
    Precondition(PreconditionError),
    Authorization(AuthorizationError),
    Binding(BindingError),
    Forward(ForwardError),
}

} // verus!
