use flutterbye_escrow::address::{
    derive_addresses, find_escrow_address, find_vault_address, is_canonical, pair_addresses,
    signer_seeds, stands_at, EscrowAddresses, ESCROW_SEED, VAULT_SEED,
};
use flutterbye_escrow::identity::Pubkey;
use flutterbye_escrow::state::{Escrow, EscrowStatus};

fn key(tag: u8) -> Pubkey {
    Pubkey::new_from_array([tag; 32])
}

fn program() -> Pubkey {
    key(7)
}

fn outside(key: &Pubkey) -> anchor_lang::prelude::Pubkey {
    anchor_lang::prelude::Pubkey::new_from_array(key.to_bytes())
}

fn record(escrow_id: &str, bump: u8, vault: Pubkey) -> Escrow {
    Escrow {
        authority: key(1),
        recipient: key(2),
        amount: 300,
        mint: key(4),
        vault,
        timeout_timestamp: 500,
        escrow_id: escrow_id.to_string(),
        status: EscrowStatus::Active,
        created_at: 10,
        released_at: None,
        cancelled_at: None,
        expired_at: None,
        bump,
    }
}

#[test]
fn seed_constants_spell_their_names() {
    assert_eq!(&ESCROW_SEED, b"escrow");
    assert_eq!(&VAULT_SEED, b"vault");
}

#[test]
fn escrow_address_is_the_program_address_of_its_seeds() {
    let authority = key(1);
    let (expected, bump) = anchor_lang::prelude::Pubkey::find_program_address(
        &[b"escrow", &authority.to_bytes(), b"order-1"],
        &outside(&program()),
    );
    let found = find_escrow_address(&program(), &authority, "order-1");
    assert_eq!(found, Some((Pubkey::new_from_array(expected.to_bytes()), bump)));
    assert_ne!(found.unwrap().0, program());
    assert_ne!(found.unwrap().0, authority);
}

#[test]
fn vault_address_is_the_program_address_of_its_seeds() {
    let escrow = key(33);
    let (expected, bump) = anchor_lang::prelude::Pubkey::find_program_address(
        &[b"vault", &escrow.to_bytes()],
        &outside(&program()),
    );
    let found = find_vault_address(&program(), &escrow);
    assert_eq!(found, Some((Pubkey::new_from_array(expected.to_bytes()), bump)));
    assert_ne!(found.unwrap().0, escrow);
}

#[test]
fn addresses_differ_by_depositor_by_identifier_and_by_program() {
    let base = find_escrow_address(&program(), &key(1), "order-1").unwrap();
    assert_ne!(base.0, find_escrow_address(&program(), &key(2), "order-1").unwrap().0);
    assert_ne!(base.0, find_escrow_address(&program(), &key(1), "order-2").unwrap().0);
    assert_ne!(base.0, find_escrow_address(&key(8), &key(1), "order-1").unwrap().0);
    assert_eq!(base, find_escrow_address(&program(), &key(1), "order-1").unwrap());
}

#[test]
fn derived_addresses_chain_record_and_vault() {
    let record = find_escrow_address(&program(), &key(1), "order-1").unwrap();
    let vault = find_vault_address(&program(), &record.0).unwrap();
    assert_eq!(
        derive_addresses(&program(), &key(1), "order-1"),
        Some(EscrowAddresses { escrow: record.0, bump: record.1, vault: vault.0 })
    );
}

#[test]
fn identifier_too_long_for_a_seed_has_no_address() {
    let long = "a".repeat(33);
    assert_eq!(find_escrow_address(&program(), &key(1), &long), None);
    assert_eq!(derive_addresses(&program(), &key(1), &long), None);
    assert!(find_escrow_address(&program(), &key(1), &"a".repeat(32)).is_some());
}

#[test]
fn pairing_needs_both_addresses() {
    assert_eq!(
        pair_addresses(Some((key(10), 250)), Some((key(11), 249))),
        Some(EscrowAddresses { escrow: key(10), bump: 250, vault: key(11) })
    );
    assert_eq!(pair_addresses(None, Some((key(11), 249))), None);
    assert_eq!(pair_addresses(Some((key(10), 250)), None), None);
    assert_eq!(pair_addresses(None, None), None);
}

#[test]
fn record_stands_at_its_bump_and_vault_only() {
    let addresses = Some(EscrowAddresses { escrow: key(10), bump: 250, vault: key(11) });
    assert!(stands_at(&record("order-1", 250, key(11)), &addresses));
    assert!(!stands_at(&record("order-1", 251, key(11)), &addresses));
    assert!(!stands_at(&record("order-1", 250, key(12)), &addresses));
    assert!(!stands_at(&record("order-1", 250, key(11)), &None));
}

#[test]
fn canonical_record_keeps_the_derived_bump_and_vault() {
    let addresses = derive_addresses(&program(), &key(1), "order-1").unwrap();
    assert!(is_canonical(&program(), &record("order-1", addresses.bump, addresses.vault)));
    assert!(!is_canonical(&program(), &record("order-2", addresses.bump, addresses.vault)));
    assert!(!is_canonical(&program(), &record("order-1", addresses.bump, key(3))));
    assert!(!is_canonical(
        &program(),
        &record("order-1", addresses.bump.wrapping_sub(1), addresses.vault)
    ));
    assert!(!is_canonical(&key(8), &record("order-1", addresses.bump, addresses.vault)));
}

#[test]
fn signer_seeds_are_the_address_seeds_and_the_bump() {
    let seeds = signer_seeds(&record("order-1", 254, key(3)));
    assert_eq!(
        seeds,
        vec![b"escrow".to_vec(), vec![1u8; 32], b"order-1".to_vec(), vec![254u8]]
    );
}

#[test]
fn signer_seeds_with_the_found_bump_give_the_found_address() {
    let (address, bump) = find_escrow_address(&program(), &key(1), "order-1").unwrap();
    let seeds = signer_seeds(&record("order-1", bump, key(3)));
    let parts: Vec<&[u8]> = seeds.iter().map(|seed| seed.as_slice()).collect();
    let derived =
        anchor_lang::prelude::Pubkey::create_program_address(&parts, &outside(&program()));
    assert_eq!(derived.map(|k| k.to_bytes()).ok(), Some(address.to_bytes()));
}
