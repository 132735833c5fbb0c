use anchor_lang::AccountSerialize;
use coin_flip::addresses::derive_authority;
use coin_flip::errors::CoinFlipError;
use coin_flip::flip::get_vaule;
use coin_flip::instructions::{claim_bet, initialize, Balances, ClaimStatus};
use coin_flip::state::{AccountId, GlobalState, UserInfo};
use orao_solana_vrf::state::Randomness;
use orao_solana_vrf::{randomness_account_address, ID};

fn id(tag: u8) -> AccountId {
    AccountId::new([tag; 32])
}

fn request_account(force: &[u8; 32]) -> AccountId {
    AccountId::new(randomness_account_address(&ID, force).to_bytes())
}

/// The randomness record's raw bytes, exactly as the oracle's program
/// stores them on the ledger.
fn record_bytes(force: [u8; 32], randomness: [u8; 64]) -> Vec<u8> {
    let record = Randomness { seed: force, randomness, responses: vec![] };
    let mut data: Vec<u8> = Vec::new();
    record.try_serialize(&mut data).unwrap();
    data
}

fn config() -> GlobalState {
    initialize(id(1), id(2), 5, 1000).unwrap()
}

fn bet(guess: u8, amount: u64, force: [u8; 32]) -> UserInfo {
    UserInfo {
        guess,
        amount,
        random: request_account(&force),
        randomness: 0,
        claimed: false,
        force,
    }
}

fn odd_randomness() -> [u8; 64] {
    let mut r = [0u8; 64];
    r[0] = 7; // little-endian value 7: outcome bit 1
    r
}

fn even_randomness() -> [u8; 64] {
    let mut r = [0u8; 64];
    r[0] = 6; // little-endian value 6: outcome bit 0
    r
}

#[test]
fn outcome_bit_is_first_eight_bytes_little_endian_mod_two() {
    let mut r = [0u8; 64];
    assert_eq!(get_vaule(&r), 0);
    r[0] = 1;
    assert_eq!(get_vaule(&r), 1);
    r[0] = 2;
    assert_eq!(get_vaule(&r), 0);
    // 0x100 is even whatever the higher bytes hold
    r[0] = 0;
    r[1] = 1;
    r[7] = 255;
    assert_eq!(get_vaule(&r), 0);
    let all = [255u8; 64];
    assert_eq!(get_vaule(&all), 1);
}

#[test]
fn outcome_derivation_is_deterministic() {
    let r = odd_randomness();
    assert_eq!(get_vaule(&r), get_vaule(&r.clone()));
}

#[test]
fn claim_against_a_mismatched_record_fails() {
    let gs = config();
    let mut ui = bet(1, 100, [9; 32]);
    let mut bal = Balances { user: 0, vault: 1000, owner: 0 };
    let wrong = request_account(&[8; 32]);
    let data = record_bytes([9; 32], odd_randomness());
    let r = claim_bet(&gs, &mut ui, &mut bal, &wrong, &data);
    assert_eq!(r.unwrap_err(), CoinFlipError::InvalidAccount);
    assert!(!ui.claimed);
    assert_eq!(bal.vault, 1000);
}

#[test]
fn claim_against_a_missing_record_fails() {
    let gs = config();
    let mut ui = bet(1, 100, [9; 32]);
    let mut bal = Balances { user: 0, vault: 1000, owner: 0 };
    let r = claim_bet(&gs, &mut ui, &mut bal, &request_account(&[9; 32]), &Vec::new());
    assert_eq!(r.unwrap_err(), CoinFlipError::UninitializedAccount);
    assert!(!ui.claimed);
    assert_eq!(bal.vault, 1000);
}

#[test]
fn claim_before_fulfillment_is_a_no_op_poll() {
    let gs = config();
    let mut ui = bet(1, 100, [9; 32]);
    let mut bal = Balances { user: 0, vault: 1000, owner: 0 };
    let data = record_bytes([9; 32], [0u8; 64]);
    let r = claim_bet(&gs, &mut ui, &mut bal, &request_account(&[9; 32]), &data).unwrap();
    assert_eq!(r, ClaimStatus::Pending);
    assert!(!ui.claimed);
    assert_eq!(bal.vault, 1000);
    assert_eq!(bal.user, 0);
}

#[test]
fn winning_claim_pays_once_then_fails() {
    // fee 5, wager 100, guess 1, odd randomness: payout (200-5)*100/100 = 195
    let gs = config();
    let mut ui = bet(1, 100, [9; 32]);
    let mut bal = Balances { user: 0, vault: 1000, owner: 0 };
    let random = request_account(&[9; 32]);
    let data = record_bytes([9; 32], odd_randomness());

    let first = claim_bet(&gs, &mut ui, &mut bal, &random, &data).unwrap();
    assert_eq!(first, ClaimStatus::Paid);
    assert_eq!(bal.user, 195);
    assert_eq!(bal.vault, 805);
    assert!(ui.claimed);

    let second = claim_bet(&gs, &mut ui, &mut bal, &random, &data);
    assert_eq!(second.unwrap_err(), CoinFlipError::AlreadyClaimed);
    assert_eq!(bal.user, 195);
    assert_eq!(bal.vault, 805);
}

#[test]
fn losing_claim_is_a_repeatable_no_op() {
    let gs = config();
    let mut ui = bet(1, 100, [9; 32]);
    let mut bal = Balances { user: 0, vault: 1000, owner: 0 };
    let random = request_account(&[9; 32]);
    let data = record_bytes([9; 32], even_randomness());

    for _ in 0..3 {
        let r = claim_bet(&gs, &mut ui, &mut bal, &random, &data).unwrap();
        assert_eq!(r, ClaimStatus::Lost);
        assert!(!ui.claimed);
        assert_eq!(bal.user, 0);
        assert_eq!(bal.vault, 1000);
    }
}

#[test]
fn winning_claim_at_fee_extremes() {
    // fee 0: payout 200; fee 100: payout 100 (the stake came in free of fee)
    for (fee, payout) in [(0u64, 200u64), (100, 100)] {
        let gs = initialize(id(1), id(2), fee, 1000).unwrap();
        let mut ui = bet(0, 100, [9; 32]);
        let mut bal = Balances { user: 0, vault: 1000, owner: 0 };
        let data = record_bytes([9; 32], even_randomness());
        let r = claim_bet(&gs, &mut ui, &mut bal, &request_account(&[9; 32]), &data).unwrap();
        assert_eq!(r, ClaimStatus::Paid);
        assert_eq!(bal.user, payout);
        assert_eq!(bal.vault, 1000 - payout);
    }
}

#[test]
fn vault_authority_matches_the_ledger_derivation() {
    let seed = coin_flip::addresses::vault_seed();
    let (authority, bump) = derive_authority(seed.clone()).unwrap();
    let program = solana_program::pubkey::Pubkey::new_from_array(
        coin_flip::addresses::program_id().bytes,
    );
    let (expected, expected_bump) =
        solana_program::pubkey::Pubkey::find_program_address(&[&seed], &program);
    assert_eq!(authority.bytes, expected.to_bytes());
    assert_eq!(bump, expected_bump);
    // the authority is rebuilt on demand, identically every time
    let (again, bump_again) = derive_authority(seed).unwrap();
    assert_eq!(again.bytes, authority.bytes);
    assert_eq!(bump_again, bump);
}

#[test]
fn rebetting_abandons_the_previous_claim_opportunity() {
    // single-slot design: a new bet overwrites the record, and the old
    // request's record no longer matches the stored force
    let gs = config();
    let mut ui = bet(1, 100, [9; 32]);
    let mut bal = Balances { user: 1000, vault: 1000, owner: 0 };
    let old_request = request_account(&[9; 32]);
    let old_data = record_bytes([9; 32], odd_randomness());

    coin_flip::instructions::coin_flip_bet(&gs, &mut ui, &mut bal, [10; 32], 1, 100).unwrap();
    let r = claim_bet(&gs, &mut ui, &mut bal, &old_request, &old_data);
    assert_eq!(r.unwrap_err(), CoinFlipError::InvalidAccount);
    assert!(!ui.claimed);
}
