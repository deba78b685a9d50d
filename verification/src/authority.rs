//! The authority record of a collection: who may act for it, how a caller is
//! held against it, and the seeds that stand in for its signature.

use vstd::prelude::*;
use crate::derivation::{create_program_address, program_address};
use crate::error::{AuthorizationError, BindingError};
use crate::identity::Identity;

verus! {

/// The tag under which authority records are derived: the ASCII bytes of
/// `collection_authority`.
pub const AUTHORITY_TAG: [u8; 20] = [
    99, 111, 108, 108, 101, 99, 116, 105, 111, 110, 95, 97, 117, 116, 104, 111, 114, 105, 116, 121,
];

/// The stored record that binds a collection to its creator.
#[derive(Clone, Copy, Debug, PartialEq, Eq)]
pub struct CollectionAuthority {
    /// Where the record is stored.
    pub address: Identity,
    /// The only identity that may authorize operations for the collection.
    pub creator: Identity,
    /// The disambiguator with which the record's address was derived.
    pub bump: u8,
}

/// The seeds that prove control of a collection's authority record: the tag,
/// the collection's identity and the disambiguator.
#[derive(Clone, Copy, Debug, PartialEq, Eq)]
pub struct SigningSeeds {
    /// The collection the record belongs to.
    pub collection: Identity,
    /// The record's disambiguator.
    pub bump: u8,
}

/// The seed tuple for a collection and a disambiguator.
pub open spec fn seeds_of(collection: Identity, bump: u8) -> Seq<Seq<u8>> {
    seq![AUTHORITY_TAG@, collection@, seq![bump]]
}

/// The address at which the authority record of `collection` is expected,
/// derived under the gateway's identity `program`.
pub open spec fn derived_authority(
    collection: Identity,
    bump: u8,
    program: Identity,
) -> Option<Seq<u8>> {
    program_address(seeds_of(collection, bump), program@)
}

impl View for SigningSeeds {
    type V = Seq<Seq<u8>>;

    open spec fn view(&self) -> Seq<Seq<u8>> {
        seeds_of(self.collection, self.bump)
    }
}

impl SigningSeeds {
    /// The three seeds, in order, as the host takes them.
    pub fn to_segments(&self) -> (segments: Vec<Vec<u8>>)
        ensures
            segments.deep_view() == self@,
    {
        let mut tag: Vec<u8> = Vec::new();
        let mut i: usize = 0;
        while i < 20
            invariant
                i <= 20,
                tag@ == AUTHORITY_TAG@.subrange(0, i as int),
            decreases 20 - i,
        {
            tag.push(AUTHORITY_TAG[i]);
            i += 1;
        }
        let mut subject: Vec<u8> = Vec::new();
        let mut j: usize = 0;
        while j < 32
            invariant
                j <= 32,
                subject@ == self.collection@.subrange(0, j as int),
            decreases 32 - j,
        {
            subject.push(self.collection.bytes[j]);
            j += 1;
        }
        let mut bump: Vec<u8> = Vec::new();
        bump.push(self.bump);
        let mut segments: Vec<Vec<u8>> = Vec::new();
        segments.push(tag);
        segments.push(subject);
        segments.push(bump);
        assert(segments.deep_view() =~~= self@);
        segments
    }
}

/// Holds the caller against the record: succeeds exactly when the caller is
/// the recorded creator.
pub fn verify(
    caller: &Identity,
    record: &CollectionAuthority,
) -> (result: Result<(), AuthorizationError>)
    ensures
        result == if caller@ == record.creator@ {
            Ok::<(), AuthorizationError>(())
        } else {
            Err(AuthorizationError::NotAuthorized)
        },
{
    if *caller == record.creator {
        Ok(())
    } else {
        Err(AuthorizationError::NotAuthorized)
    }
}

/// The proof of control over the authority record of `collection`. It is
/// computed anew from its inputs on every call.
pub fn signing_seeds(collection: &Identity, bump: u8) -> (seeds: SigningSeeds)
    ensures
        seeds == (SigningSeeds { collection: *collection, bump }),
        seeds@ == seeds_of(*collection, bump),
{
    SigningSeeds { collection: *collection, bump }
}

/// Holds a record's address against a derived one: succeeds exactly when an
/// address was derived and the record is stored there.
pub fn check_binding(
    record: &CollectionAuthority,
    derived: Option<Identity>,
) -> (result: Result<(), BindingError>)
    ensures
        result == if derived matches Some(address) && address@ == record.address@ {
            Ok::<(), BindingError>(())
        } else {
            Err(BindingError::InvalidAuthorityBinding)
        },
{
    match derived {
        Some(address) => {
            if address == record.address {
                Ok(())
            } else {
                Err(BindingError::InvalidAuthorityBinding)
            }
        },
        None => Err(BindingError::InvalidAuthorityBinding),
    }
}

/// Whether `record` is stored where the authority record of `collection` is
/// derived under `program`.
pub open spec fn is_bound(
    record: CollectionAuthority,
    collection: Identity,
    program: Identity,
) -> bool {
    derived_authority(collection, record.bump, program) == Some(record.address@)
}

/// What validating `record` for `collection` ends in: the seeds that sign for
/// the record where it is bound, the binding failure where it is not.
pub open spec fn binding(
    record: CollectionAuthority,
    collection: Identity,
    program: Identity,
) -> Result<SigningSeeds, BindingError> {
    if is_bound(record, collection, program) {
        Ok(SigningSeeds { collection, bump: record.bump })
    } else {
        Err(BindingError::InvalidAuthorityBinding)
    }
}

/// Validates a record against the collection it is claimed for: derives the
/// expected address from the collection and the record's own disambiguator,
/// and accepts the record only at that address.
pub fn validate_binding(
    record: &CollectionAuthority,
    collection: &Identity,
    program: &Identity,
) -> (result: Result<SigningSeeds, BindingError>)
    ensures
        result == binding(*record, *collection, *program),
{
    let seeds = signing_seeds(collection, record.bump);
    let segments = seeds.to_segments();
    let derived = create_program_address(&segments, program);
    match check_binding(record, derived) {
        Ok(()) => Ok(seeds),
        Err(e) => Err(e),
    }
}

} // verus!
