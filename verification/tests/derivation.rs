use anchor_lang::prelude::Pubkey;
use sanad_trading::{
    create_trading_address, find_trading_address, Address, ADDRESS_BYTES, TRADING_SEED,
};

fn address(byte: u8) -> Address {
    Address { bytes: [byte; 32] }
}

fn counting() -> Address {
    let mut bytes = [0u8; 32];
    for (i, byte) in bytes.iter_mut().enumerate() {
        *byte = i as u8;
    }
    Address { bytes }
}

#[test]
fn tag_spells_trading() {
    assert_eq!(&TRADING_SEED, b"trading");
    assert_eq!(ADDRESS_BYTES, 32);
}

#[test]
fn found_address_is_the_one_the_ledger_derives() {
    for (owner, program) in [(address(1), address(200)), (counting(), address(0))] {
        let (key, bump) = Pubkey::find_program_address(
            &[b"trading", &owner.bytes],
            &Pubkey::new_from_array(program.bytes),
        );
        assert_eq!(
            find_trading_address(&owner, &program),
            Some((Address { bytes: key.to_bytes() }, bump))
        );
    }
}

#[test]
fn found_address_is_off_the_curve_and_new() {
    let owner = counting();
    let program = address(77);
    let (found, bump) = find_trading_address(&owner, &program).unwrap();
    assert!(bump >= 1);
    assert!(!Pubkey::new_from_array(found.bytes).is_on_curve());
    assert_ne!(found, owner);
    assert_ne!(found, program);
}

#[test]
fn stored_salt_reproduces_the_address() {
    for (owner, program) in
        [(address(1), address(200)), (counting(), address(0)), (address(255), counting())]
    {
        let (found, bump) = find_trading_address(&owner, &program).unwrap();
        assert_eq!(create_trading_address(&owner, bump, &program), Some(found));
    }
}

#[test]
fn derivation_is_repeatable() {
    let owner = counting();
    let program = address(5);
    assert_eq!(find_trading_address(&owner, &program), find_trading_address(&owner, &program));
    assert_eq!(
        create_trading_address(&owner, 9, &program),
        create_trading_address(&owner, 9, &program)
    );
}

#[test]
fn address_depends_on_owner_program_and_salt() {
    let program = address(200);
    let (first, _) = find_trading_address(&address(1), &program).unwrap();
    let (second, _) = find_trading_address(&address(2), &program).unwrap();
    assert_ne!(first, second);
    let (elsewhere, _) = find_trading_address(&address(1), &address(201)).unwrap();
    assert_ne!(first, elsewhere);

    let owner = counting();
    let mut seen: Vec<Address> = Vec::new();
    for bump in 0..=255u8 {
        if let Some(derived) = create_trading_address(&owner, bump, &program) {
            assert!(!seen.contains(&derived));
            seen.push(derived);
        }
    }
    assert!(!seen.is_empty());
}

#[test]
fn derived_address_matches_the_ledger_for_every_salt() {
    let owner = counting();
    let program = address(42);
    let mut refused = 0;
    for bump in 0..=255u8 {
        let expected = Pubkey::create_program_address(
            &[b"trading", &owner.bytes, &[bump]],
            &Pubkey::new_from_array(program.bytes),
        )
        .ok()
        .map(|key| Address { bytes: key.to_bytes() });
        if expected.is_none() {
            refused += 1;
        }
        assert_eq!(create_trading_address(&owner, bump, &program), expected);
    }
    assert!(refused < 256);
}

#[test]
fn search_takes_the_highest_salt_that_works() {
    let owner = address(1);
    let program = address(200);
    let (found, bump) = find_trading_address(&owner, &program).unwrap();
    assert_eq!(create_trading_address(&owner, bump, &program), Some(found));
    let mut higher = bump;
    while higher < 255 {
        higher += 1;
        assert_eq!(create_trading_address(&owner, higher, &program), None);
    }
}
