use referandium::address::{
    escrow_address, id, market_address, vault_address, vote_address, vote_addresses,
};
use referandium::Pubkey;

fn outside(bytes: [u8; 32]) -> anchor_lang::prelude::Pubkey {
    anchor_lang::prelude::Pubkey::new_from_array(bytes)
}

fn program() -> [u8; 32] {
    let mut bytes = [0u8; 32];
    let mut i = 0;
    while i < 32 {
        bytes[i] = (3 * i + 1) as u8;
        i += 1;
    }
    bytes
}

#[test]
fn vault_address_is_the_program_derived_address_of_its_tag() {
    let (address, bump) =
        anchor_lang::prelude::Pubkey::find_program_address(&[b"vault"], &outside(program()));
    let found = vault_address(&Pubkey::new_from_array(program())).unwrap();
    assert_eq!(found.0.to_bytes(), address.to_bytes());
    assert_eq!(found.1, bump);
    assert_ne!(found.0.to_bytes(), program());
}

#[test]
fn market_address_is_derived_from_tag_and_identifier() {
    let (address, bump) = anchor_lang::prelude::Pubkey::find_program_address(
        &[b"market", "m1".as_bytes()],
        &outside(program()),
    );
    let found = market_address(&Pubkey::new_from_array(program()), "m1").unwrap();
    assert_eq!(found.0.to_bytes(), address.to_bytes());
    assert_eq!(found.1, bump);
}

#[test]
fn market_address_uses_the_encoded_bytes_of_the_identifier() {
    let name = "caf\u{e9}-\u{1f600}";
    let (address, bump) = anchor_lang::prelude::Pubkey::find_program_address(
        &[b"market", name.as_bytes()],
        &outside(program()),
    );
    let found = market_address(&Pubkey::new_from_array(program()), name).unwrap();
    assert_eq!(found.0.to_bytes(), address.to_bytes());
    assert_eq!(found.1, bump);
}

#[test]
fn escrow_address_is_derived_from_tag_and_market() {
    let market = [9u8; 32];
    let (address, bump) = anchor_lang::prelude::Pubkey::find_program_address(
        &[b"escrow", &market],
        &outside(program()),
    );
    let found =
        escrow_address(&Pubkey::new_from_array(program()), &Pubkey::new_from_array(market))
            .unwrap();
    assert_eq!(found.0.to_bytes(), address.to_bytes());
    assert_eq!(found.1, bump);
}

#[test]
fn vote_address_is_derived_from_tag_market_and_voter() {
    let market = [9u8; 32];
    let voter = [200u8; 32];
    let (address, bump) = anchor_lang::prelude::Pubkey::find_program_address(
        &[b"vote", &market, &voter],
        &outside(program()),
    );
    let found = vote_address(
        &Pubkey::new_from_array(program()),
        &Pubkey::new_from_array(market),
        &Pubkey::new_from_array(voter),
    )
    .unwrap();
    assert_eq!(found.0.to_bytes(), address.to_bytes());
    assert_eq!(found.1, bump);
}

#[test]
fn same_keys_give_the_same_address() {
    let program = Pubkey::new_from_array(program());
    let market = Pubkey::new_from_array([4u8; 32]);
    let voter = Pubkey::new_from_array([5u8; 32]);
    assert_eq!(vote_address(&program, &market, &voter), vote_address(&program, &market, &voter));
    assert_eq!(market_address(&program, "m1"), market_address(&program, "m1"));
}

#[test]
fn different_keys_give_different_addresses() {
    let program = Pubkey::new_from_array(program());
    let market = Pubkey::new_from_array([4u8; 32]);
    let first = Pubkey::new_from_array([5u8; 32]);
    let second = Pubkey::new_from_array([6u8; 32]);
    let a = vote_address(&program, &market, &first).unwrap().0;
    let b = vote_address(&program, &market, &second).unwrap().0;
    let c = vote_address(&program, &first, &market).unwrap().0;
    assert_ne!(a, b);
    assert_ne!(a, c);
    assert_ne!(
        market_address(&program, "m1").unwrap().0,
        market_address(&program, "m2").unwrap().0
    );
    assert_ne!(
        escrow_address(&program, &market).unwrap().0,
        vault_address(&program).unwrap().0
    );
}

#[test]
fn identifier_longer_than_one_seed_has_no_address() {
    let program = Pubkey::new_from_array(program());
    let thirty_two = "a".repeat(32);
    let thirty_three = "a".repeat(33);
    assert!(market_address(&program, &thirty_two).is_some());
    assert_eq!(market_address(&program, &thirty_three), None);
    assert_eq!(vote_addresses(&program, &thirty_three, &Pubkey::new_from_array([1u8; 32])), None);
}

#[test]
fn vote_addresses_chain_the_three_derivations() {
    let program = Pubkey::new_from_array(program());
    let voter = Pubkey::new_from_array([77u8; 32]);
    let found = vote_addresses(&program, "m1", &voter).unwrap();
    let (market, market_bump) = market_address(&program, "m1").unwrap();
    let (escrow, escrow_bump) = escrow_address(&program, &market).unwrap();
    let (receipt, vote_bump) = vote_address(&program, &market, &voter).unwrap();
    assert_eq!(found.market, market);
    assert_eq!(found.market_bump, market_bump);
    assert_eq!(found.market_escrow, escrow);
    assert_eq!(found.escrow_bump, escrow_bump);
    assert_eq!(found.vote_account, receipt);
    assert_eq!(found.vote_bump, vote_bump);

    let (outside_market, _) = anchor_lang::prelude::Pubkey::find_program_address(
        &[b"market", b"m1"],
        &outside(program.to_bytes()),
    );
    let (outside_receipt, outside_bump) = anchor_lang::prelude::Pubkey::find_program_address(
        &[b"vote", outside_market.as_ref(), &voter.to_bytes()],
        &outside(program.to_bytes()),
    );
    assert_eq!(found.vote_account.to_bytes(), outside_receipt.to_bytes());
    assert_eq!(found.vote_bump, outside_bump);
}

#[test]
fn program_key_is_the_declared_one() {
    let declared: anchor_lang::prelude::Pubkey =
        "C3kp55sPwskwHygfFSqYZhqUEvEb3JDmjt2GhDXu31gV".parse().unwrap();
    assert_eq!(id().to_bytes(), declared.to_bytes());
}

#[test]
fn key_round_trips_through_its_bytes() {
    let bytes = program();
    let key = Pubkey::new_from_array(bytes);
    assert_eq!(key.to_bytes(), bytes);
    assert_eq!(key.to_vec(), bytes.to_vec());
    assert_eq!(key, Pubkey::new_from_array(bytes));
    let mut other = bytes;
    other[31] ^= 1;
    assert_ne!(key, Pubkey::new_from_array(other));
    let mut first = bytes;
    first[0] ^= 1;
    assert_ne!(key, Pubkey::new_from_array(first));
}
