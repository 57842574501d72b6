use anchor_lang::prelude::Pubkey;
use receipt_billing::address::{derive_address, receipt_address, subscription_address, Key, Signer};

fn key(byte: u8) -> Key {
    Key { bytes: [byte; 32] }
}

fn searched(namespace: &[u8], program: &Key, merchant: &Key, customer: &Key, id: u64) -> Key {
    let program_id = Pubkey::new_from_array(program.bytes);
    let (address, _) = Pubkey::find_program_address(
        &[namespace, &merchant.bytes, &customer.bytes, &id.to_le_bytes()],
        &program_id,
    );
    Key { bytes: address.to_bytes() }
}

#[test]
fn receipt_address_is_the_program_address_of_its_seeds() {
    let (program, merchant, customer) = (key(9), key(1), key(2));
    let address = receipt_address(&program, &merchant, &customer, 7);
    assert_eq!(address, Some(searched(b"receipt", &program, &merchant, &customer, 7)));
}

#[test]
fn subscription_address_is_the_program_address_of_its_seeds() {
    let (program, merchant, customer) = (key(9), key(1), key(2));
    let address = subscription_address(&program, &merchant, &customer, 42);
    assert_eq!(address, Some(searched(b"subscription", &program, &merchant, &customer, 42)));
}

#[test]
fn derivation_is_repeatable() {
    let (program, merchant, customer) = (key(9), key(1), key(2));
    let first = receipt_address(&program, &merchant, &customer, 7);
    let second = receipt_address(&program, &merchant, &customer, 7);
    assert!(first.is_some());
    assert_eq!(first, second);
}

#[test]
fn addresses_differ_with_each_part() {
    let (program, merchant, customer) = (key(9), key(1), key(2));
    let base = receipt_address(&program, &merchant, &customer, 7).unwrap();
    assert_ne!(base, program);
    assert_ne!(base, merchant);
    assert_ne!(base, customer);
    assert_ne!(base, receipt_address(&program, &merchant, &customer, 8).unwrap());
    assert_ne!(base, receipt_address(&program, &customer, &merchant, 7).unwrap());
    assert_ne!(base, receipt_address(&key(10), &merchant, &customer, 7).unwrap());
    assert_ne!(base, subscription_address(&program, &merchant, &customer, 7).unwrap());
}

#[test]
fn derive_takes_any_seeds() {
    let program = key(9);
    let seeds = vec![vec![1u8, 2, 3], vec![4u8]];
    let program_id = Pubkey::new_from_array(program.bytes);
    let (expected, _) = Pubkey::find_program_address(&[&[1u8, 2, 3], &[4u8]], &program_id);
    assert_eq!(derive_address(&seeds, &program), Some(Key { bytes: expected.to_bytes() }));
}

#[test]
fn derive_refuses_an_overlong_seed() {
    let seeds = vec![vec![0u8; 33]];
    assert_eq!(derive_address(&seeds, &key(9)), None);
}

#[test]
fn key_bytes_in_order() {
    let mut bytes = [0u8; 32];
    for (i, b) in bytes.iter_mut().enumerate() {
        *b = i as u8;
    }
    let k = Key { bytes };
    assert_eq!(k.to_vec(), (0u8..32).collect::<Vec<u8>>());
}

#[test]
fn key_same_as_compares_every_byte() {
    let a = key(5);
    let mut other = [5u8; 32];
    assert!(a.same_as(&Key { bytes: other }));
    other[31] = 6;
    assert!(!a.same_as(&Key { bytes: other }));
    other[31] = 5;
    other[0] = 4;
    assert!(!a.same_as(&Key { bytes: other }));
}

#[test]
fn signer_verifies_only_its_own_signed_identity() {
    let signed = Signer { key: key(1), is_signer: true };
    let unsigned = Signer { key: key(1), is_signer: false };
    assert!(signed.verify(&key(1)));
    assert!(!signed.verify(&key(2)));
    assert!(!unsigned.verify(&key(1)));
}
