use anchor_lang::prelude::Pubkey;
use authority_gateway::admission::authorize;
use authority_gateway::authority::{
    check_binding, signing_seeds, validate_binding, verify, CollectionAuthority, SigningSeeds,
    AUTHORITY_TAG,
};
use authority_gateway::error::{
    AuthorizationError, BindingError, GatewayError, PreconditionError,
};
use authority_gateway::identity::Identity;
use authority_gateway::registry::{registry_program, CollectionAccount, REGISTRY_PROGRAM};

const PROGRAM: [u8; 32] = [21; 32];
const CREATOR: [u8; 32] = [22; 32];
const COLLECTION: [u8; 32] = [23; 32];

fn derived_record() -> CollectionAuthority {
    let (address, bump) = Pubkey::find_program_address(
        &[b"collection_authority", &COLLECTION],
        &Pubkey::new_from_array(PROGRAM),
    );
    CollectionAuthority {
        address: Identity::new(address.to_bytes()),
        creator: Identity::new(CREATOR),
        bump,
    }
}

/// A disambiguator for which the host derives no address for the collection.
fn bump_without_address() -> u8 {
    let program = Pubkey::new_from_array(PROGRAM);
    let mut bump = 255u8;
    loop {
        let seeds: [&[u8]; 3] = [b"collection_authority", &COLLECTION, &[bump]];
        if Pubkey::create_program_address(&seeds, &program).is_err() {
            return bump;
        }
        assert!(bump > 0, "every disambiguator derives an address");
        bump -= 1;
    }
}

#[test]
fn identity_is_its_bytes() {
    let mut bytes = [0u8; 32];
    for (i, b) in bytes.iter_mut().enumerate() {
        *b = i as u8;
    }
    let id = Identity::new(bytes);
    assert_eq!(id.to_bytes(), bytes);
    assert_eq!(id.bytes, bytes);
}

#[test]
fn identities_are_equal_when_their_bytes_are() {
    let a = Identity::new([5; 32]);
    let b = Identity::new([5; 32]);
    let mut other = [5u8; 32];
    other[31] = 6;
    let c = Identity::new(other);
    let mut first = [5u8; 32];
    first[0] = 4;
    let d = Identity::new(first);
    assert!(a == b);
    assert!(a != c);
    assert!(a != d);
    assert!(c != d);
}

#[test]
fn tag_is_the_text_collection_authority() {
    assert_eq!(&AUTHORITY_TAG[..], &b"collection_authority"[..]);
}

#[test]
fn registry_program_is_the_asset_registry() {
    assert_eq!(REGISTRY_PROGRAM, mpl_core::ID.to_bytes());
    assert_eq!(registry_program().to_bytes(), mpl_core::ID.to_bytes());
    assert_eq!(
        Pubkey::new_from_array(REGISTRY_PROGRAM).to_string(),
        "CoREENxT6tW1HoK8ypY1SxRMZTcVPm7R94rH4PZNhX7d"
    );
}

#[test]
fn verify_accepts_the_creator_only() {
    let record = derived_record();
    assert_eq!(verify(&Identity::new(CREATOR), &record), Ok(()));
    assert_eq!(
        verify(&Identity::new(PROGRAM), &record),
        Err(AuthorizationError::NotAuthorized)
    );
    assert_eq!(verify(&record.address, &record), Err(AuthorizationError::NotAuthorized));
}

#[test]
fn signing_seeds_are_tag_collection_and_bump() {
    let seeds = signing_seeds(&Identity::new(COLLECTION), 254);
    assert_eq!(seeds, SigningSeeds { collection: Identity::new(COLLECTION), bump: 254 });
    assert_eq!(
        seeds.to_segments(),
        vec![b"collection_authority".to_vec(), COLLECTION.to_vec(), vec![254u8]]
    );
}

#[test]
fn signing_seeds_derive_the_record_address() {
    let record = derived_record();
    let segments = signing_seeds(&Identity::new(COLLECTION), record.bump).to_segments();
    let parts: Vec<&[u8]> = segments.iter().map(|s| s.as_slice()).collect();
    let derived = Pubkey::create_program_address(&parts, &Pubkey::new_from_array(PROGRAM))
        .expect("the bump was found for these seeds");
    assert_eq!(derived.to_bytes(), record.address.to_bytes());
}

#[test]
fn check_binding_accepts_the_derived_address_only() {
    let record = derived_record();
    assert_eq!(check_binding(&record, Some(record.address)), Ok(()));
    assert_eq!(
        check_binding(&record, Some(Identity::new(CREATOR))),
        Err(BindingError::InvalidAuthorityBinding)
    );
    assert_eq!(check_binding(&record, None), Err(BindingError::InvalidAuthorityBinding));
}

#[test]
fn validate_binding_accepts_the_record_of_the_collection() {
    let record = derived_record();
    assert_eq!(
        validate_binding(&record, &Identity::new(COLLECTION), &Identity::new(PROGRAM)),
        Ok(SigningSeeds { collection: Identity::new(COLLECTION), bump: record.bump })
    );
}

#[test]
fn validate_binding_refuses_other_collections_programs_and_bumps() {
    let record = derived_record();
    assert_eq!(
        validate_binding(&record, &Identity::new(CREATOR), &Identity::new(PROGRAM)),
        Err(BindingError::InvalidAuthorityBinding)
    );
    assert_eq!(
        validate_binding(&record, &Identity::new(COLLECTION), &Identity::new(CREATOR)),
        Err(BindingError::InvalidAuthorityBinding)
    );
    let mut shifted = record;
    shifted.bump = record.bump.wrapping_add(1);
    assert_eq!(
        validate_binding(&shifted, &Identity::new(COLLECTION), &Identity::new(PROGRAM)),
        Err(BindingError::InvalidAuthorityBinding)
    );
}

#[test]
fn validate_binding_does_not_take_the_program_for_the_address() {
    let mut record = derived_record();
    record.address = Identity::new(PROGRAM);
    assert_eq!(
        validate_binding(&record, &Identity::new(COLLECTION), &Identity::new(PROGRAM)),
        Err(BindingError::InvalidAuthorityBinding)
    );
    record.address = Identity::new(COLLECTION);
    assert_eq!(
        validate_binding(&record, &Identity::new(COLLECTION), &Identity::new(PROGRAM)),
        Err(BindingError::InvalidAuthorityBinding)
    );
}

#[test]
fn validate_binding_refuses_where_no_address_is_derived() {
    let mut record = derived_record();
    record.bump = bump_without_address();
    assert_eq!(
        validate_binding(&record, &Identity::new(COLLECTION), &Identity::new(PROGRAM)),
        Err(BindingError::InvalidAuthorityBinding)
    );
}

#[test]
fn collection_check_puts_ownership_first() {
    let owned = CollectionAccount {
        key: Identity::new(COLLECTION),
        owner: registry_program(),
        data_len: 1,
    };
    assert!(!owned.data_is_empty());
    assert_eq!(owned.check(PreconditionError::CollectionNotInitialized), Ok(()));
    let empty = CollectionAccount { data_len: 0, ..owned };
    assert!(empty.data_is_empty());
    assert_eq!(
        empty.check(PreconditionError::CollectionNotInitialized),
        Err(PreconditionError::CollectionNotInitialized)
    );
    assert_eq!(
        empty.check(PreconditionError::CollectionAlreadyInitialized),
        Err(PreconditionError::CollectionAlreadyInitialized)
    );
    let foreign = CollectionAccount { owner: Identity::new(PROGRAM), ..empty };
    assert_eq!(
        foreign.check(PreconditionError::CollectionNotInitialized),
        Err(PreconditionError::InvalidCollection)
    );
    let mut nearly = REGISTRY_PROGRAM;
    nearly[31] ^= 1;
    let nearly_owned = CollectionAccount { owner: Identity::new(nearly), ..owned };
    assert_eq!(
        nearly_owned.check(PreconditionError::CollectionAlreadyInitialized),
        Err(PreconditionError::InvalidCollection)
    );
}

#[test]
fn authorize_reports_the_first_failure() {
    let record = derived_record();
    let program = Identity::new(PROGRAM);
    let creator = Identity::new(CREATOR);
    let stranger = Identity::new([24; 32]);
    let collection = CollectionAccount {
        key: Identity::new(COLLECTION),
        owner: registry_program(),
        data_len: 8,
    };
    let when_empty = PreconditionError::CollectionNotInitialized;
    assert_eq!(
        authorize(&program, &creator, &collection, &record, when_empty),
        Ok(SigningSeeds { collection: collection.key, bump: record.bump })
    );
    assert_eq!(
        authorize(&program, &stranger, &collection, &record, when_empty),
        Err(GatewayError::Authorization(AuthorizationError::NotAuthorized))
    );
    let unbound = CollectionAuthority { address: stranger, ..record };
    assert_eq!(
        authorize(&program, &creator, &collection, &unbound, when_empty),
        Err(GatewayError::Binding(BindingError::InvalidAuthorityBinding))
    );
    assert_eq!(
        authorize(&program, &stranger, &collection, &unbound, when_empty),
        Err(GatewayError::Authorization(AuthorizationError::NotAuthorized))
    );
    let empty = CollectionAccount { data_len: 0, ..collection };
    assert_eq!(
        authorize(&program, &stranger, &empty, &unbound, when_empty),
        Err(GatewayError::Precondition(PreconditionError::CollectionNotInitialized))
    );
    let foreign = CollectionAccount { owner: creator, ..empty };
    assert_eq!(
        authorize(&program, &stranger, &foreign, &unbound, when_empty),
        Err(GatewayError::Precondition(PreconditionError::InvalidCollection))
    );
}
