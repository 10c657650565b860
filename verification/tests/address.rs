use anchor_lang::prelude::Pubkey as SolanaKey;
use anchor_spl::associated_token::get_associated_token_address;
use capkey::address::{
    associated_token_address, find_vault_address, ASSOCIATED_TOKEN_PROGRAM_ID, TOKEN_PROGRAM_ID,
};
use capkey::{Pubkey, VaultSeeds, VAULT_SEED};

fn key(n: u8) -> Pubkey {
    let mut bytes = [n; 32];
    bytes[0] = 200;
    Pubkey { bytes }
}

fn solana(key: &Pubkey) -> SolanaKey {
    SolanaKey::new_from_array(key.bytes)
}

#[test]
fn vault_seed_is_the_ascii_text() {
    assert_eq!(&VAULT_SEED[..], b"capkey-vault");
}

#[test]
fn program_ids_are_those_of_the_token_programs() {
    assert_eq!(TOKEN_PROGRAM_ID, anchor_spl::token::ID.to_bytes());
    assert_eq!(ASSOCIATED_TOKEN_PROGRAM_ID, anchor_spl::associated_token::ID.to_bytes());
}

#[test]
fn keys_are_equal_when_all_bytes_are() {
    let a = key(1);
    let mut b = a;
    assert!(a == b);
    b.bytes[31] = 9;
    assert!(a != b);
    b = a;
    b.bytes[0] = 9;
    assert!(a != b);
    assert_eq!(Pubkey::default().bytes, SolanaKey::default().to_bytes());
}

#[test]
fn vault_address_is_found_as_the_sdk_finds_it() {
    for n in 0..8u8 {
        let (owner, agent, mint, program) = (key(n), key(n + 50), key(n + 100), key(n + 150));
        let (address, bump) = find_vault_address(&owner, &agent, &mint, &program).unwrap();
        let expected = SolanaKey::find_program_address(
            &[b"capkey-vault", &owner.bytes, &agent.bytes, &mint.bytes],
            &solana(&program),
        );
        assert_eq!(address.bytes, expected.0.to_bytes());
        assert_eq!(bump, expected.1);
        assert!(address != owner && address != agent && address != mint && address != program);
    }
}

#[test]
fn no_higher_bump_leads_to_an_address() {
    for n in 0..32u8 {
        let (owner, agent, token_mint, program) = (key(n), key(n + 40), key(n + 80), key(n + 120));
        let (_, bump) = find_vault_address(&owner, &agent, &token_mint, &program).unwrap();
        for higher in bump..=255u8 {
            let seeds = VaultSeeds { owner, agent, token_mint, bump: [higher] };
            assert_eq!(seeds.address(&program).is_some(), higher == bump);
        }
    }
}

#[test]
fn seeds_lead_back_to_the_address_that_was_found() {
    let (owner, agent, token_mint, program) = (key(1), key(2), key(3), key(4));
    let (address, bump) = find_vault_address(&owner, &agent, &token_mint, &program).unwrap();
    let seeds = VaultSeeds { owner, agent, token_mint, bump: [bump] };
    assert_eq!(seeds.address(&program), Some(address));
}

#[test]
fn every_bump_derives_what_the_sdk_derives() {
    let (owner, agent, token_mint, program) = (key(5), key(6), key(7), key(8));
    let mut without_address = 0;
    for bump in 0..=255u8 {
        let seeds = VaultSeeds { owner, agent, token_mint, bump: [bump] };
        let expected = SolanaKey::create_program_address(
            &[b"capkey-vault", &owner.bytes, &agent.bytes, &token_mint.bytes, &[bump]],
            &solana(&program),
        );
        match seeds.address(&program) {
            Some(address) => assert_eq!(address.bytes, expected.unwrap().to_bytes()),
            None => {
                assert!(expected.is_err());
                without_address += 1;
            }
        }
    }
    assert!(without_address > 0 && without_address < 256);
}

#[test]
fn signer_seeds_come_in_the_order_of_the_address() {
    let seeds = VaultSeeds { owner: key(1), agent: key(2), token_mint: key(3), bump: [254] };
    let slices = seeds.as_slices();
    assert_eq!(slices.len(), 5);
    assert_eq!(slices[0], b"capkey-vault");
    assert_eq!(slices[1], &key(1).bytes[..]);
    assert_eq!(slices[2], &key(2).bytes[..]);
    assert_eq!(slices[3], &key(3).bytes[..]);
    assert_eq!(slices[4], &[254u8][..]);
}

#[test]
fn token_address_is_the_associated_one() {
    for n in 0..8u8 {
        let (wallet, mint) = (key(n), key(n + 60));
        let address = associated_token_address(&wallet, &mint).unwrap();
        let expected = get_associated_token_address(&solana(&wallet), &solana(&mint));
        assert_eq!(address.bytes, expected.to_bytes());
        assert!(associated_token_address(&mint, &wallet).unwrap() != address);
    }
}
