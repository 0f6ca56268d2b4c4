use anchor_lang::solana_program::pubkey::Pubkey;
use stickypay::address::{merchant_address, payment_address};
use stickypay::Address;

fn id(n: u8) -> Address {
    Address::new([n; 32])
}

#[test]
fn merchant_address_is_the_program_derived_address() {
    let program = Pubkey::new_from_array([77; 32]);
    let authority = Pubkey::new_from_array([1; 32]);
    let (key, bump) = Pubkey::find_program_address(&[b"merchant", authority.as_ref()], &program);
    assert_eq!(merchant_address(&id(77), &id(1)), Some((Address::new(key.to_bytes()), bump)));
}

#[test]
fn payment_address_is_the_program_derived_address() {
    let program = Pubkey::new_from_array([77; 32]);
    let merchant = Pubkey::new_from_array([9; 32]);
    let reference = Pubkey::new_from_array([3; 32]);
    let (key, bump) = Pubkey::find_program_address(
        &[b"payment", merchant.as_ref(), reference.as_ref()],
        &program,
    );
    assert_eq!(
        payment_address(&id(77), &id(9), &id(3)),
        Some((Address::new(key.to_bytes()), bump))
    );
}

#[test]
fn derived_addresses_depend_on_every_seed_and_on_the_program() {
    let (base, _) = merchant_address(&id(77), &id(1)).unwrap();
    assert_ne!(base, id(1));
    assert_ne!(base, id(77));
    assert_eq!(merchant_address(&id(77), &id(1)).unwrap().0, base);
    assert_ne!(merchant_address(&id(77), &id(2)).unwrap().0, base);
    assert_ne!(merchant_address(&id(78), &id(1)).unwrap().0, base);
    let (session, _) = payment_address(&id(77), &base, &id(3)).unwrap();
    assert_ne!(session, base);
    assert_ne!(payment_address(&id(77), &base, &id(4)).unwrap().0, session);
    assert_ne!(payment_address(&id(77), &id(1), &id(3)).unwrap().0, session);
    assert_ne!(payment_address(&id(78), &base, &id(3)).unwrap().0, session);
}
