//! Where an escrow and its vault stand: both addresses are derived, the
//! record's from the depositor and the identifier, the vault's from the
//! record's.

use vstd::prelude::*;
use vstd::slice::slice_to_vec;
use vstd::utf8::encode_utf8;
use crate::identity::{lemma_pubkey_view_injective, Pubkey};
use crate::state::Escrow;

verus! {

/// The first seed of the address of an escrow record: `escrow` in ASCII.
pub const ESCROW_SEED: [u8; 6] = [101, 115, 99, 114, 111, 119];

/// The first seed of the address of a vault: `vault` in ASCII.
pub const VAULT_SEED: [u8; 5] = [118, 97, 117, 108, 116];

/// The address that the program `program_id` derives from `seeds`, with
/// the bump seed that was found for it; nothing if there is none.
pub uninterp spec fn program_address(seeds: Seq<Seq<u8>>, program_id: Seq<u8>) -> Option<
    (Seq<u8>, u8),
>;

/// A found address and bump seed, as plain bytes.
pub open spec fn found_view(found: Option<(Pubkey, u8)>) -> Option<(Seq<u8>, u8)> {
    match found {
        Some((address, bump)) => Some((address@, bump)),
        None => None,
    }
}

/// Calls `Pubkey::try_find_program_address` of `solana_program`, which
/// anchor_lang hands on. The result is taken to depend on the seeds and the
/// program alone: it is what `program_address` names. Nothing else is
/// claimed of it.
#[verifier::external_body]
fn try_find_program_address(seeds: &Vec<Vec<u8>>, program_id: &Pubkey) -> (found: Option<
    (Pubkey, u8),
>)
    ensures
        found_view(found) == program_address(seeds.deep_view(), program_id@),
{
    let parts: Vec<&[u8]> = seeds.iter().map(|seed| seed.as_slice()).collect();
    let program = anchor_lang::prelude::Pubkey::new_from_array(program_id.bytes);
    anchor_lang::prelude::Pubkey::try_find_program_address(&parts, &program).map(
        |(address, bump)| (Pubkey { bytes: address.to_bytes() }, bump),
    )
}

/// The seeds of the record of the escrow that `authority` holds under
/// `escrow_id`.
pub open spec fn escrow_seeds(authority: Seq<u8>, escrow_id: Seq<char>) -> Seq<Seq<u8>> {
    seq![ESCROW_SEED@, authority, encode_utf8(escrow_id)]
}

/// The seeds of the vault of the escrow whose record stands at
/// `escrow_address`.
pub open spec fn vault_seeds(escrow_address: Seq<u8>) -> Seq<Seq<u8>> {
    seq![VAULT_SEED@, escrow_address]
}

/// Where an escrow stands: the address of its record with the bump seed,
/// and the address of its vault.
#[derive(Clone, Copy, Debug, PartialEq, Eq)]
pub struct EscrowAddresses {
    pub escrow: Pubkey,
    pub bump: u8,
    pub vault: Pubkey,
}

/// The record's address and bump seed and the vault's address, from what
/// was found for the record and for the vault.
pub open spec fn paired(record: Option<(Seq<u8>, u8)>, vault: Option<(Seq<u8>, u8)>) -> Option<
    (Seq<u8>, u8, Seq<u8>),
> {
    match (record, vault) {
        (Some((escrow, bump)), Some((vault, _))) => Some((escrow, bump, vault)),
        _ => None,
    }
}

/// The addresses of the escrow that `authority` holds under `escrow_id`:
/// the record's address is derived from the depositor and the identifier,
/// the vault's from the record's address.
pub open spec fn derived_addresses(
    program_id: Seq<u8>,
    authority: Seq<u8>,
    escrow_id: Seq<char>,
) -> Option<(Seq<u8>, u8, Seq<u8>)> {
    let record = program_address(escrow_seeds(authority, escrow_id), program_id);
    match record {
        Some((escrow, _)) => paired(record, program_address(vault_seeds(escrow), program_id)),
        None => None,
    }
}

/// Addresses as plain bytes.
pub open spec fn addresses_view(addresses: Option<EscrowAddresses>) -> Option<
    (Seq<u8>, u8, Seq<u8>),
> {
    match addresses {
        Some(a) => Some((a.escrow@, a.bump, a.vault@)),
        None => None,
    }
}

/// Puts together what was found for the record and what was found for the
/// vault.
pub fn pair_addresses(record: Option<(Pubkey, u8)>, vault: Option<(Pubkey, u8)>) -> (r: Option<
    EscrowAddresses,
>)
    ensures
        addresses_view(r) == paired(found_view(record), found_view(vault)),
{
    match (record, vault) {
        (Some((escrow, bump)), Some((vault, _))) => Some(EscrowAddresses { escrow, bump, vault }),
        _ => None,
    }
}

/// Finds the address and bump seed of the record of the escrow that
/// `authority` holds under `escrow_id`.
pub fn find_escrow_address(program_id: &Pubkey, authority: &Pubkey, escrow_id: &str) -> (found:
    Option<(Pubkey, u8)>)
    ensures
        found_view(found) == program_address(escrow_seeds(authority@, escrow_id@), program_id@),
{
    let mut seeds: Vec<Vec<u8>> = Vec::new();
    seeds.push(slice_to_vec(ESCROW_SEED.as_slice()));
    seeds.push(slice_to_vec(authority.bytes.as_slice()));
    seeds.push(slice_to_vec(escrow_id.as_bytes()));
    assert(seeds.deep_view() =~~= escrow_seeds(authority@, escrow_id@));
    try_find_program_address(&seeds, program_id)
}

/// Finds the address and bump seed of the vault of the escrow whose record
/// stands at `escrow_address`.
pub fn find_vault_address(program_id: &Pubkey, escrow_address: &Pubkey) -> (found: Option<
    (Pubkey, u8),
>)
    ensures
        found_view(found) == program_address(vault_seeds(escrow_address@), program_id@),
{
    let mut seeds: Vec<Vec<u8>> = Vec::new();
    seeds.push(slice_to_vec(VAULT_SEED.as_slice()));
    seeds.push(slice_to_vec(escrow_address.bytes.as_slice()));
    assert(seeds.deep_view() =~~= vault_seeds(escrow_address@));
    try_find_program_address(&seeds, program_id)
}

/// Derives the addresses of the escrow that `authority` holds under
/// `escrow_id`.
pub fn derive_addresses(program_id: &Pubkey, authority: &Pubkey, escrow_id: &str) -> (r: Option<
    EscrowAddresses,
>)
    ensures
        addresses_view(r) == derived_addresses(program_id@, authority@, escrow_id@),
{
    let record = find_escrow_address(program_id, authority, escrow_id);
    match record {
        Some((escrow, _)) => {
            let vault = find_vault_address(program_id, &escrow);
            pair_addresses(record, vault)
        },
        None => None,
    }
}

/// Whether `escrow` keeps the bump seed and the vault that `addresses`
/// give.
pub fn stands_at(escrow: &Escrow, addresses: &Option<EscrowAddresses>) -> (r: bool)
    ensures
        r == (addresses matches Some(a) && a.bump == escrow.bump && a.vault == escrow.vault),
{
    match addresses {
        Some(a) => a.bump == escrow.bump && a.vault == escrow.vault,
        None => false,
    }
}

/// Whether the bump seed and the vault that `escrow` keeps are the ones
/// derived from its depositor and its identifier.
pub fn is_canonical(program_id: &Pubkey, escrow: &Escrow) -> (r: bool)
    ensures
        r == (derived_addresses(program_id@, escrow.authority@, escrow.escrow_id@) matches Some(
            (_, bump, vault),
        ) && bump == escrow.bump && vault == escrow.vault@),
{
    let addresses = derive_addresses(program_id, &escrow.authority, escrow.escrow_id.as_str());
    proof {
        if let Some(a) = addresses {
            lemma_pubkey_view_injective(a.vault, escrow.vault);
        }
    }
    stands_at(escrow, &addresses)
}

/// The seeds with which the record of `escrow` signs for its vault: those
/// of its address, followed by its bump seed.
pub open spec fn signing_seeds(escrow: Escrow) -> Seq<Seq<u8>> {
    escrow_seeds(escrow.authority@, escrow.escrow_id@).push(seq![escrow.bump])
}

/// Builds the seeds with which the record of `escrow` signs for its vault.
pub fn signer_seeds(escrow: &Escrow) -> (seeds: Vec<Vec<u8>>)
    ensures
        seeds.deep_view() == signing_seeds(*escrow),
{
    let mut seeds: Vec<Vec<u8>> = Vec::new();
    seeds.push(slice_to_vec(ESCROW_SEED.as_slice()));
    seeds.push(slice_to_vec(escrow.authority.bytes.as_slice()));
    seeds.push(slice_to_vec(escrow.escrow_id.as_str().as_bytes()));
    let mut last: Vec<u8> = Vec::new();
    last.push(escrow.bump);
    seeds.push(last);
    assert(seeds.deep_view() =~~= signing_seeds(*escrow));
    seeds
}

} // verus!
