use anchor_lang::prelude::Pubkey;
use dopelgangachain::{referral_record_address, Address, SystemSigner, CFG_SEED, REF_SEED};
use std::str::FromStr;

fn program_id() -> Pubkey {
    Pubkey::from_str("HAzZhRcVrrFWYU9K4nWCSvpgLLcMSb9GZRfrcs3bYfDP").unwrap()
}

#[test]
fn seeds_are_the_ascii_labels() {
    assert_eq!(&CFG_SEED[..], b"cfg");
    assert_eq!(&REF_SEED[..], b"ref");
}

#[test]
fn signer_is_the_address_derived_from_the_label() {
    let id = program_id();
    let (expected, bump) = Pubkey::find_program_address(&[b"cfg"], &id);
    let signer = SystemSigner::derive(&Address::new(id.to_bytes())).unwrap();
    assert_eq!(signer.address(), Address::new(expected.to_bytes()));
    assert_eq!(signer.bump(), bump);
    assert_eq!(signer.program_id(), Address::new(id.to_bytes()));
}

#[test]
fn signer_address_is_not_the_program_id() {
    let id = Address::new(program_id().to_bytes());
    let signer = SystemSigner::derive(&id).unwrap();
    assert_ne!(signer.address(), id);
}

#[test]
fn signer_address_is_recreated_from_its_bump() {
    let id = program_id();
    let signer = SystemSigner::derive(&Address::new(id.to_bytes())).unwrap();
    let recreated =
        Pubkey::create_program_address(&[&CFG_SEED[..], &[signer.bump()]], &id).unwrap();
    assert_eq!(signer.address().to_bytes(), recreated.to_bytes());
}

#[test]
fn signer_is_the_same_on_every_derivation() {
    let id = Address::new(program_id().to_bytes());
    let first = SystemSigner::derive(&id).unwrap();
    let second = SystemSigner::derive(&id).unwrap();
    assert_eq!(first.address(), second.address());
    assert_eq!(first.bump(), second.bump());
}

#[test]
fn signers_of_two_programs_differ() {
    let first = SystemSigner::derive(&Address::new([1; 32])).unwrap();
    let second = SystemSigner::derive(&Address::new([2; 32])).unwrap();
    assert_ne!(first.address(), second.address());
}

#[test]
fn referral_record_address_is_derived_from_the_participant() {
    let id = program_id();
    let user = Pubkey::new_from_array([9; 32]);
    let (expected, bump) = Pubkey::find_program_address(&[b"ref", user.as_ref()], &id);
    let found =
        referral_record_address(&Address::new(id.to_bytes()), &Address::new(user.to_bytes()));
    assert_eq!(found, Some((Address::new(expected.to_bytes()), bump)));
}

#[test]
fn referral_records_of_two_participants_differ() {
    let id = Address::new(program_id().to_bytes());
    let first = referral_record_address(&id, &Address::new([9; 32])).unwrap();
    let second = referral_record_address(&id, &Address::new([10; 32])).unwrap();
    assert_ne!(first.0, second.0);
    assert_ne!(first.0, Address::new([9; 32]));
}

#[test]
fn addresses_compare_by_their_bytes() {
    let mut bytes = [7u8; 32];
    assert_eq!(Address::new(bytes), Address::new([7; 32]));
    bytes[31] = 8;
    assert_ne!(Address::new(bytes), Address::new([7; 32]));
    assert_eq!(Address::new(bytes).to_bytes(), bytes);
}
