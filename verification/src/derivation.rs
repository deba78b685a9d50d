//! Address derivation, as the host computes it.
//!
//! An address derived from seeds and a program's identity has no private key:
//! whoever can name the seeds under that program controls it. The derivation
//! is the host's own and is called here, not rebuilt.

use vstd::prelude::*;
use anchor_lang::prelude::Pubkey;
use crate::identity::Identity;

verus! {

/// The address that the host derives from `seeds` under `program`, or `None`
/// where it derives none from them.
pub uninterp spec fn program_address(seeds: Seq<Seq<u8>>, program: Seq<u8>) -> Option<Seq<u8>>;

/// Calls `Pubkey::create_program_address` on the seeds, in their order, and
/// the program's identity.
///
/// Trusted: that the outcome is a function of the seeds' bytes and the
/// program's bytes alone, named [`program_address`]; an error of the host
/// (seeds too many or too long, or no valid address for them) comes back as
/// `None`.
#[verifier::external_body]
pub(crate) fn create_program_address(
    seeds: &Vec<Vec<u8>>,
    program: &Identity,
) -> (derived: Option<Identity>)
    ensures
        match derived {
            Some(address) => program_address(seeds.deep_view(), program@) == Some(address@),
            None => program_address(seeds.deep_view(), program@) is None,
        },
{
    let parts: Vec<&[u8]> = seeds.iter().map(|seed| seed.as_slice()).collect();
    match Pubkey::create_program_address(&parts, &Pubkey::new_from_array(program.bytes)) {
        Ok(key) => Some(Identity { bytes: key.to_bytes() }),
        Err(_) => None,
    }
}

} // verus!
