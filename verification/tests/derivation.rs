use anchor_lang::prelude::Pubkey;
use dreamwalk::{PrincipalId, VaultRegistry};

fn id(byte: u8) -> PrincipalId {
    PrincipalId { bytes: [byte; 32] }
}

#[test]
fn recorded_bump_and_address_match_host_derivation() {
    let program_bytes = [7u8; 32];
    let mut registry = VaultRegistry::new(PrincipalId { bytes: program_bytes }, b"vault".to_vec());
    let vault = registry.create(id(2)).unwrap();
    let address = registry.vault_address().unwrap();

    let program_id = Pubkey::new_from_array(program_bytes);
    let (expected_address, expected_bump) = Pubkey::find_program_address(&[b"vault"], &program_id);
    assert_eq!(vault.bump, expected_bump);
    assert_eq!(address.bytes, expected_address.to_bytes());
}

#[test]
fn derived_address_is_not_an_input_echo() {
    let mut registry = fresh(b"vault".to_vec(), 7);
    registry.create(id(2)).unwrap();
    let address = registry.vault_address().unwrap();
    // The derived address is a hash of seed, bump, and program id; it is
    // neither the program id nor the authority handed in.
    assert_ne!(address.bytes, [7u8; 32]);
    assert_ne!(address.bytes, [2u8; 32]);
}

#[test]
fn different_programs_get_different_addresses() {
    let mut first = fresh(b"vault".to_vec(), 7);
    let mut second = fresh(b"vault".to_vec(), 8);
    first.create(id(2)).unwrap();
    second.create(id(2)).unwrap();
    assert_ne!(
        first.vault_address().unwrap().bytes,
        second.vault_address().unwrap().bytes
    );
}

#[test]
fn different_seeds_get_different_addresses() {
    let mut first = fresh(b"vault".to_vec(), 7);
    let mut second = fresh(b"chest".to_vec(), 7);
    first.create(id(2)).unwrap();
    second.create(id(2)).unwrap();
    assert_ne!(
        first.vault_address().unwrap().bytes,
        second.vault_address().unwrap().bytes
    );
}

fn fresh(seed: Vec<u8>, program_byte: u8) -> VaultRegistry {
    VaultRegistry::new(id(program_byte), seed)
}
