//! Deterministic, collision-resistant address derivation: sub-records
//! (preferences, claim records, payout and escrow authorities) are located
//! by deriving an address from a tuple of byte-string seeds plus the owning
//! program's identity, so no index is needed. The derivation itself is done
//! by the ledger's primitive; this module gives its results names that the
//! rest of the library's contracts speak of.

use vstd::prelude::*;

use crate::address::Address;

verus! {

/// The byte string of the derived address for a seed tuple under a program
/// identity, or nothing when no viable bump seed exists. The derivation is a
/// pure function of the seeds and the program identity.
pub uninterp spec fn derived_address(seeds: Seq<Seq<u8>>, program_id: Seq<u8>) -> Option<Seq<u8>>;

/// The byte string of the canonical associated token account for a wallet
/// and a mint; a pure function of the two.
pub uninterp spec fn associated_token_address(wallet: Seq<u8>, mint: Seq<u8>) -> Seq<u8>;

/// What a derivation result means: `r` is exactly what the seed tuple
/// derives to under `program_id`, including whether derivation succeeds.
pub open spec fn derives_to(seeds: Seq<Seq<u8>>, program_id: Address, r: Option<Address>) -> bool {
    match r {
        Some(a) => derived_address(seeds, program_id@) == Some(a@),
        None => derived_address(seeds, program_id@) is None,
    }
}

/// Relies on solana_pubkey::Pubkey::try_find_program_address: its result is a
/// function of the seeds and the program id alone, is 32 bytes long, and is
/// None (never a panic) when no viable bump seed exists or a seed breaks the
/// length limits.
#[verifier::external_body]
fn find_derived_address(seeds: &Vec<Vec<u8>>, program_id: &Vec<u8>) -> (r: Option<Vec<u8>>)
    requires
        program_id@.len() == 32,
    ensures
        match r {
            Some(a) => derived_address(seeds.deep_view(), program_id@) == Some(a@) && a@.len()
                == 32,
            None => derived_address(seeds.deep_view(), program_id@) is None,
        },
{
    let slices: Vec<&[u8]> = seeds.iter().map(|s| s.as_slice()).collect();
    let program = solana_pubkey::Pubkey::new_from_array(program_id.as_slice().try_into().unwrap());
    solana_pubkey::Pubkey::try_find_program_address(&slices, &program).map(
        |found: (solana_pubkey::Pubkey, u8)| found.0.to_bytes().to_vec(),
    )
}

/// Relies on spl_associated_token_account::get_associated_token_address: the
/// canonical associated token account address is a function of the wallet
/// and the mint alone, 32 bytes long.
#[verifier::external_body]
fn associated_token_address_bytes(wallet: &Vec<u8>, mint: &Vec<u8>) -> (r: Vec<u8>)
    requires
        wallet@.len() == 32,
        mint@.len() == 32,
    ensures
        r@ == associated_token_address(wallet@, mint@),
        r@.len() == 32,
{
    let w = solana_pubkey::Pubkey::new_from_array(wallet.as_slice().try_into().unwrap());
    let m = solana_pubkey::Pubkey::new_from_array(mint.as_slice().try_into().unwrap());
    spl_associated_token_account::get_associated_token_address(&w, &m).to_bytes().to_vec()
}

/// Derive the address for a seed tuple under a program identity.
pub fn derive_address(seeds: &Vec<Vec<u8>>, program_id: Address) -> (r: Option<Address>)
    ensures
        derives_to(seeds.deep_view(), program_id, r),
{
    proof {
        program_id.lemma_view_len();
    }
    let pid = program_id.to_bytes();
    match find_derived_address(seeds, &pid) {
        Some(bytes) => Some(Address::from_bytes(bytes.as_slice())),
        None => None,
    }
}

/// The canonical direct-payout account for a user and a mint.
pub fn associated_token_account(user: Address, mint: Address) -> (r: Address)
    ensures
        r@ == associated_token_address(user@, mint@),
{
    proof {
        user.lemma_view_len();
        mint.lemma_view_len();
    }
    let w = user.to_bytes();
    let m = mint.to_bytes();
    let bytes = associated_token_address_bytes(&w, &m);
    Address::from_bytes(bytes.as_slice())
}

} // verus!
