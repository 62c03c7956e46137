use anchor_lang::prelude::Pubkey;
use sample_on_solana::authority::{is_derived_address, state_seeds, u64_le_bytes, wallet_seeds};
use sample_on_solana::error::ErrorCode;
use sample_on_solana::grant::{
    complete_grant, initialize_new_grant, pull_back, transfer_escrow_out, CompleteGrant,
    InitializeNewGrant, PullBackInstruction, State, TokenAccount,
};
use sample_on_solana::key::Key;
use sample_on_solana::stage::Stage;
use std::collections::HashMap;

const PROGRAM: [u8; 32] = [9; 32];

fn key(n: u8) -> Key {
    Key::new([n; 32])
}

fn derive(label: &[u8], sender: &Key, receiver: &Key, mint: &Key, idx: u64) -> (Key, u8) {
    let idx_bytes = idx.to_le_bytes();
    let seeds: [&[u8]; 5] = [label, &sender.bytes, &receiver.bytes, &mint.bytes, &idx_bytes];
    let (k, bump) = Pubkey::find_program_address(&seeds, &Pubkey::new_from_array(PROGRAM));
    (Key::new(k.to_bytes()), bump)
}

struct Escrow {
    program: Key,
    sender: Key,
    receiver: Key,
    mint: Key,
    idx: u64,
    state_key: Key,
    state_bump: u8,
    wallet_key: Key,
    wallet_bump: u8,
    sender_wallet: Key,
    receiver_wallet: Key,
}

fn escrow(idx: u64) -> Escrow {
    let sender = key(1);
    let receiver = key(2);
    let mint = key(3);
    let (state_key, state_bump) = derive(b"state", &sender, &receiver, &mint, idx);
    let (wallet_key, wallet_bump) = derive(b"wallet", &sender, &receiver, &mint, idx);
    Escrow {
        program: Key::new(PROGRAM),
        sender,
        receiver,
        mint,
        idx,
        state_key,
        state_bump,
        wallet_key,
        wallet_bump,
        sender_wallet: key(4),
        receiver_wallet: key(5),
    }
}

fn init_ctx(e: &Escrow, balance: u64) -> InitializeNewGrant {
    InitializeNewGrant {
        application_state: e.state_key,
        escrow_wallet_state: e.wallet_key,
        user_sending: e.sender,
        user_receiving: e.receiver,
        mint_of_token_being_sent: e.mint,
        wallet_to_withdraw_from: e.sender_wallet,
        wallet_to_withdraw_from_account: TokenAccount { mint: e.mint, owner: e.sender, amount: balance },
    }
}

fn holding(e: &Escrow, amount: u64) -> TokenAccount {
    TokenAccount { mint: e.mint, owner: e.state_key, amount }
}

fn complete_ctx(e: &Escrow, held: Option<TokenAccount>) -> CompleteGrant {
    CompleteGrant {
        application_state: e.state_key,
        escrow_wallet_state: e.wallet_key,
        escrow_wallet_account: held,
        wallet_to_deposit_to: e.receiver_wallet,
        wallet_to_deposit_to_account: TokenAccount { mint: e.mint, owner: e.receiver, amount: 0 },
        user_sending: e.sender,
        user_receiving: e.receiver,
        mint_of_token_being_sent: e.mint,
    }
}

fn pull_ctx(e: &Escrow, held: Option<TokenAccount>) -> PullBackInstruction {
    PullBackInstruction {
        application_state: e.state_key,
        escrow_wallet_state: e.wallet_key,
        escrow_wallet_account: held,
        user_sending: e.sender,
        user_receiving: e.receiver,
        mint_of_token_being_sent: e.mint,
        refund_wallet: e.sender_wallet,
        refund_wallet_account: TokenAccount { mint: e.mint, owner: e.sender, amount: 0 },
    }
}

fn deposited(e: &Escrow, amount: u64) -> State {
    let mut state = State::default();
    initialize_new_grant(&e.program, &init_ctx(e, amount), &mut state, e.idx, e.state_bump, e.wallet_bump, amount)
        .unwrap();
    state
}

#[test]
fn stage_codes_round_trip() {
    for s in [Stage::FundsDeposited, Stage::EscrowComplete, Stage::PullBackComplete] {
        assert_eq!(Stage::from(s.to_code()), Ok(s));
    }
    assert_eq!(Stage::FundsDeposited.to_code(), 1);
    assert_eq!(Stage::EscrowComplete.to_code(), 2);
    assert_eq!(Stage::PullBackComplete.to_code(), 3);
    assert_eq!(Stage::from(0), Err(ErrorCode::StageInvalid));
    assert_eq!(Stage::from(4), Err(ErrorCode::StageInvalid));
    assert_eq!(Stage::from(255), Err(ErrorCode::StageInvalid));
}

#[test]
fn index_bytes_are_little_endian() {
    assert_eq!(u64_le_bytes(0x0102030405060708), vec![8, 7, 6, 5, 4, 3, 2, 1]);
    assert_eq!(u64_le_bytes(7), vec![7, 0, 0, 0, 0, 0, 0, 0]);
}

#[test]
fn seeds_hold_label_participants_index_and_bump() {
    let s = state_seeds(&key(1), &key(2), &key(3), 7, 254);
    assert_eq!(s.len(), 6);
    assert_eq!(s[0], b"state".to_vec());
    assert_eq!(s[1], vec![1u8; 32]);
    assert_eq!(s[2], vec![2u8; 32]);
    assert_eq!(s[3], vec![3u8; 32]);
    assert_eq!(s[4], 7u64.to_le_bytes().to_vec());
    assert_eq!(s[5], vec![254u8]);
    let w = wallet_seeds(&key(1), &key(2), &key(3), 7, 254);
    assert_eq!(w[0], b"wallet".to_vec());
    assert_eq!(&w[1..], &s[1..]);
}

#[test]
fn derived_address_is_recognised() {
    let e = escrow(7);
    let seeds = state_seeds(&e.sender, &e.receiver, &e.mint, 7, e.state_bump);
    assert!(is_derived_address(&e.state_key, &seeds, &e.program));
    assert!(!is_derived_address(&e.program, &seeds, &e.program));
    assert!(!is_derived_address(&e.wallet_key, &seeds, &e.program));
}

#[test]
fn authority_is_deterministic_and_seed_sensitive() {
    let a = derive(b"state", &key(1), &key(2), &key(3), 7);
    let b = derive(b"state", &key(1), &key(2), &key(3), 7);
    assert_eq!(a.0, b.0);
    assert_eq!(a.1, b.1);
    let others = [
        derive(b"state", &key(6), &key(2), &key(3), 7),
        derive(b"state", &key(1), &key(6), &key(3), 7),
        derive(b"state", &key(1), &key(2), &key(6), 7),
        derive(b"state", &key(1), &key(2), &key(3), 8),
        derive(b"wallet", &key(1), &key(2), &key(3), 7),
    ];
    for o in others.iter() {
        assert_ne!(o.0, a.0);
    }
    let e = escrow(7);
    let seeds = state_seeds(&e.sender, &e.receiver, &e.mint, 7, e.state_bump.wrapping_sub(1));
    assert!(!is_derived_address(&e.state_key, &seeds, &e.program));
}

#[test]
fn deposit_then_complete_then_pull_back_refused() {
    let e = escrow(7);
    let mut balances: HashMap<Key, u64> = HashMap::new();
    let mut state = State::default();
    let deposit = initialize_new_grant(&e.program, &init_ctx(&e, 100), &mut state, 7, e.state_bump, e.wallet_bump, 100)
        .unwrap();
    assert_eq!(deposit.from, e.sender_wallet);
    assert_eq!(deposit.to, e.wallet_key);
    assert_eq!(deposit.authority, e.sender);
    assert_eq!(deposit.amount, 100);
    assert_eq!(state.stage, Stage::FundsDeposited.to_code());
    assert_eq!(state.amount_tokens, 100);
    assert_eq!(state.idx, 7);
    assert_eq!(state.escrow_wallet, e.wallet_key);
    balances.insert(e.wallet_key, deposit.amount);
    assert_eq!(balances[&e.wallet_key], 100);

    let out = complete_grant(&e.program, &complete_ctx(&e, Some(holding(&e, 100))), &mut state, 7, e.state_bump, e.wallet_bump)
        .unwrap();
    assert_eq!(out.transfer.from, e.wallet_key);
    assert_eq!(out.transfer.to, e.receiver_wallet);
    assert_eq!(out.transfer.authority, e.state_key);
    assert_eq!(out.transfer.amount, 100);
    assert_eq!(out.transfer.signer_seeds, state_seeds(&e.sender, &e.receiver, &e.mint, 7, e.state_bump));
    *balances.get_mut(&e.wallet_key).unwrap() -= out.transfer.amount;
    *balances.entry(e.receiver_wallet).or_insert(0) += out.transfer.amount;
    assert_eq!(balances[&e.receiver_wallet], 100);
    assert_eq!(balances[&e.wallet_key], 0);
    let close = out.close_after(balances[&e.wallet_key]).unwrap();
    assert_eq!(close.account, e.wallet_key);
    assert_eq!(close.destination, e.sender);
    assert_eq!(close.authority, e.state_key);
    assert_eq!(state.stage, Stage::EscrowComplete.to_code());

    let before = state;
    let r = pull_back(&e.program, &pull_ctx(&e, None), &mut state, 7, e.state_bump, e.wallet_bump);
    assert_eq!(r.err(), Some(ErrorCode::StageInvalid));
    assert_eq!(state.stage, before.stage);
}

#[test]
fn deposit_then_pull_back_twice() {
    let e = escrow(3);
    let mut state = deposited(&e, 50);
    assert_eq!(state.amount_tokens, 50);
    let out = pull_back(&e.program, &pull_ctx(&e, Some(holding(&e, 50))), &mut state, 3, e.state_bump, e.wallet_bump)
        .unwrap()
        .unwrap();
    assert_eq!(out.transfer.from, e.wallet_key);
    assert_eq!(out.transfer.to, e.sender_wallet);
    assert_eq!(out.transfer.amount, 50);
    let close = out.close_after(0).unwrap();
    assert_eq!(close.account, e.wallet_key);
    assert_eq!(state.stage, Stage::PullBackComplete.to_code());

    let again = pull_back(&e.program, &pull_ctx(&e, None), &mut state, 3, e.state_bump, e.wallet_bump).unwrap();
    assert!(again.is_none());
    assert_eq!(state.stage, Stage::PullBackComplete.to_code());
}

#[test]
fn complete_goes_through_once() {
    let e = escrow(11);
    let mut state = deposited(&e, 40);
    let ctx = complete_ctx(&e, Some(holding(&e, 40)));
    assert!(complete_grant(&e.program, &ctx, &mut state, 11, e.state_bump, e.wallet_bump).is_ok());
    let r = complete_grant(&e.program, &ctx, &mut state, 11, e.state_bump, e.wallet_bump);
    assert_eq!(r.err(), Some(ErrorCode::StageInvalid));
    assert_eq!(state.stage, Stage::EscrowComplete.to_code());
}

#[test]
fn complete_moves_live_balance() {
    let e = escrow(12);
    let mut state = deposited(&e, 40);
    let out = complete_grant(&e.program, &complete_ctx(&e, Some(holding(&e, 45))), &mut state, 12, e.state_bump, e.wallet_bump)
        .unwrap();
    assert_eq!(out.transfer.amount, 45);
    assert_eq!(state.amount_tokens, 40);
}

#[test]
fn empty_record_releases_nothing() {
    let e = escrow(7);
    let mut state = State::default();
    let r = complete_grant(&e.program, &complete_ctx(&e, Some(holding(&e, 10))), &mut state, 7, e.state_bump, e.wallet_bump);
    assert_eq!(r.err(), Some(ErrorCode::StageInvalid));
    let r = pull_back(&e.program, &pull_ctx(&e, Some(holding(&e, 10))), &mut state, 7, e.state_bump, e.wallet_bump);
    assert_eq!(r.err(), Some(ErrorCode::StageInvalid));
    assert_eq!(state.stage, 0);
    assert_eq!(state.amount_tokens, 0);
}

#[test]
fn unknown_stage_tag_is_refused() {
    let e = escrow(7);
    let mut state = deposited(&e, 10);
    state.stage = 9;
    let r = pull_back(&e.program, &pull_ctx(&e, Some(holding(&e, 10))), &mut state, 7, e.state_bump, e.wallet_bump);
    assert_eq!(r.err(), Some(ErrorCode::StageInvalid));
    assert_eq!(state.stage, 9);
}

#[test]
fn record_of_other_receiver_is_refused() {
    let e = escrow(7);
    let mut state = deposited(&e, 10);
    state.user_receiving = key(8);
    let r = complete_grant(&e.program, &complete_ctx(&e, Some(holding(&e, 10))), &mut state, 7, e.state_bump, e.wallet_bump);
    assert_eq!(r.err(), Some(ErrorCode::InvalidStateIdx));
    let mut state = deposited(&e, 10);
    let r = complete_grant(&e.program, &complete_ctx(&e, Some(holding(&e, 10))), &mut state, 8, e.state_bump, e.wallet_bump);
    assert_eq!(r.err(), Some(ErrorCode::InvalidStateIdx));
    assert_eq!(state.stage, Stage::FundsDeposited.to_code());
}

#[test]
fn wrong_bump_is_refused() {
    let e = escrow(7);
    let mut state = deposited(&e, 10);
    let r = complete_grant(&e.program, &complete_ctx(&e, Some(holding(&e, 10))), &mut state, 7, e.state_bump, e.wallet_bump.wrapping_sub(1));
    assert_eq!(r.err(), Some(ErrorCode::DelegateNotSetCorrectly));
    let r = pull_back(&e.program, &pull_ctx(&e, Some(holding(&e, 10))), &mut state, 7, e.state_bump.wrapping_sub(1), e.wallet_bump);
    assert_eq!(r.err(), Some(ErrorCode::DelegateNotSetCorrectly));
    let mut fresh = State::default();
    let r = initialize_new_grant(&e.program, &init_ctx(&e, 10), &mut fresh, 7, e.state_bump.wrapping_sub(1), e.wallet_bump, 10);
    assert_eq!(r.err(), Some(ErrorCode::DelegateNotSetCorrectly));
    assert_eq!(fresh.stage, 0);
}

#[test]
fn holding_of_other_authority_is_refused() {
    let e = escrow(7);
    let mut state = deposited(&e, 10);
    let mut held = holding(&e, 10);
    held.owner = e.sender;
    let r = complete_grant(&e.program, &complete_ctx(&e, Some(held)), &mut state, 7, e.state_bump, e.wallet_bump);
    assert_eq!(r.err(), Some(ErrorCode::DelegateNotSetCorrectly));
}

#[test]
fn missing_holding_while_deposited_is_refused() {
    let e = escrow(7);
    let mut state = deposited(&e, 10);
    let r = complete_grant(&e.program, &complete_ctx(&e, None), &mut state, 7, e.state_bump, e.wallet_bump);
    assert_eq!(r.err(), Some(ErrorCode::InvalidStateIdx));
    let r = pull_back(&e.program, &pull_ctx(&e, None), &mut state, 7, e.state_bump, e.wallet_bump);
    assert_eq!(r.err(), Some(ErrorCode::InvalidStateIdx));
}

#[test]
fn foreign_wallets_are_refused() {
    let e = escrow(7);
    let mut fresh = State::default();
    let mut ctx = init_ctx(&e, 10);
    ctx.wallet_to_withdraw_from_account.owner = e.receiver;
    let r = initialize_new_grant(&e.program, &ctx, &mut fresh, 7, e.state_bump, e.wallet_bump, 10);
    assert_eq!(r.err(), Some(ErrorCode::WalletToWithdrawFromInvalid));

    let mut state = deposited(&e, 10);
    let mut ctx = complete_ctx(&e, Some(holding(&e, 10)));
    ctx.wallet_to_deposit_to_account.mint = key(8);
    let r = complete_grant(&e.program, &ctx, &mut state, 7, e.state_bump, e.wallet_bump);
    assert_eq!(r.err(), Some(ErrorCode::WalletToWithdrawFromInvalid));
    let mut ctx = pull_ctx(&e, Some(holding(&e, 10)));
    ctx.refund_wallet_account.owner = e.receiver;
    let r = pull_back(&e.program, &ctx, &mut state, 7, e.state_bump, e.wallet_bump);
    assert_eq!(r.err(), Some(ErrorCode::WalletToWithdrawFromInvalid));
    assert_eq!(state.stage, Stage::FundsDeposited.to_code());
}

#[test]
fn second_deposit_on_record_is_refused() {
    let e = escrow(7);
    let mut state = deposited(&e, 10);
    let r = initialize_new_grant(&e.program, &init_ctx(&e, 10), &mut state, 7, e.state_bump, e.wallet_bump, 20);
    assert_eq!(r.err(), Some(ErrorCode::StageInvalid));
    assert_eq!(state.amount_tokens, 10);
}

#[test]
fn holding_stays_open_while_not_empty() {
    let e = escrow(7);
    let out = transfer_escrow_out(&e.sender, &e.receiver, &e.mint, &e.wallet_key, 7, &e.state_key, e.state_bump, &e.receiver_wallet, 30);
    assert_eq!(out.transfer.amount, 30);
    assert!(out.close_after(5).is_none());
    let out = transfer_escrow_out(&e.sender, &e.receiver, &e.mint, &e.wallet_key, 7, &e.state_key, e.state_bump, &e.receiver_wallet, 30);
    assert!(out.close_after(0).is_some());
}
