use vstd::prelude::*;
use crate::authority::{
    is_derived_address, lemma_escrow_seeds_fit, program_address, seeds_view, state_label,
    state_seeds, state_signer_seeds, wallet_label, wallet_seeds, wallet_signer_seeds,
};
use crate::error::ErrorCode;
use crate::key::Key;
use crate::stage::{stage_code, stage_of_code, Stage};

verus! {

/// An escrow record, as stored at the record's derived address.
#[derive(Clone, Copy, Debug)]
pub struct State {
    /// Tells apart several escrows between the same pair for the same asset.
    pub idx: u64,
    /// The party that deposited the funds.
    pub user_sending: Key,
    /// The party the funds are meant for.
    pub user_receiving: Key,
    /// The asset held in escrow.
    pub mint_of_token_being_sent: Key,
    /// The custody holding of this escrow.
    pub escrow_wallet: Key,
    /// The quantity deposited; set once, when the escrow is created.
    pub amount_tokens: u64,
    /// The stored stage tag; zero while the record is empty.
    pub stage: u8,
}

impl Default for State {
    fn default() -> (r: State)
        ensures
            r.idx == 0,
            r.amount_tokens == 0,
            r.stage == 0,
    {
        let zero = Key::zeroed();
        State {
            idx: 0,
            user_sending: zero,
            user_receiving: zero,
            mint_of_token_being_sent: zero,
            escrow_wallet: zero,
            amount_tokens: 0,
            stage: 0,
        }
    }
}

/// What the token module holds of an open token account.
#[derive(Clone, Copy, Debug)]
pub struct TokenAccount {
    /// The asset the account holds.
    pub mint: Key,
    /// The identity allowed to move funds out of the account and to close it.
    pub owner: Key,
    /// The live balance.
    pub amount: u64,
}

/// A transfer for the token module to carry out: `amount` units from `from` to `to`,
/// authorised by `authority`, which the program asserts with `signer_seeds` when they are
/// not empty.
#[derive(Debug)]
pub struct TokenTransfer {
    pub from: Key,
    pub to: Key,
    pub authority: Key,
    pub amount: u64,
    pub signer_seeds: Vec<Vec<u8>>,
}

/// The closure of `account` by the token module, its deposit going to `destination`,
/// authorised by `authority` asserted with `signer_seeds`.
#[derive(Debug)]
pub struct CloseAccount {
    pub account: Key,
    pub destination: Key,
    pub authority: Key,
    pub signer_seeds: Vec<Vec<u8>>,
}

/// A release of funds out of a custody holding: the transfer to carry out, and the closure
/// that follows it once the holding is found empty.
#[derive(Debug)]
pub struct TransferOut {
    pub transfer: TokenTransfer,
    pub close: CloseAccount,
}

/// The accounts of a deposit that creates an escrow.
#[derive(Clone, Copy, Debug)]
pub struct InitializeNewGrant {
    /// Address of the record.
    pub application_state: Key,
    /// Address of the custody holding.
    pub escrow_wallet_state: Key,
    pub user_sending: Key,
    pub user_receiving: Key,
    pub mint_of_token_being_sent: Key,
    /// The sender's wallet the deposit is taken from, and what it holds.
    pub wallet_to_withdraw_from: Key,
    pub wallet_to_withdraw_from_account: TokenAccount,
}

/// The accounts of a completion, by which the receiver takes the funds.
#[derive(Clone, Copy, Debug)]
pub struct CompleteGrant {
    pub application_state: Key,
    pub escrow_wallet_state: Key,
    /// The custody holding, or nothing where it has been closed.
    pub escrow_wallet_account: Option<TokenAccount>,
    /// The receiver's wallet the funds go to, and what it holds.
    pub wallet_to_deposit_to: Key,
    pub wallet_to_deposit_to_account: TokenAccount,
    pub user_sending: Key,
    pub user_receiving: Key,
    pub mint_of_token_being_sent: Key,
}

/// The accounts of a pull-back, by which the sender takes the funds back.
#[derive(Clone, Copy, Debug)]
pub struct PullBackInstruction {
    pub application_state: Key,
    pub escrow_wallet_state: Key,
    /// The custody holding, or nothing where it has been closed.
    pub escrow_wallet_account: Option<TokenAccount>,
    pub user_sending: Key,
    pub user_receiving: Key,
    pub mint_of_token_being_sent: Key,
    /// The sender's wallet the funds return to, and what it holds.
    pub refund_wallet: Key,
    pub refund_wallet_account: TokenAccount,
}

/// The accounts of a holding owned by a per-user instance address.
#[derive(Clone, Copy, Debug)]
pub struct Initialize {
    pub instance: Key,
    pub wallet: Key,
    pub mint: Key,
    pub user: Key,
}

/// The first refusal, if any, of a record and its two addresses: the record must name the
/// participants, asset, holding and index handed in, and both addresses must be derived
/// from their seeds with the given disambiguation bytes.
pub open spec fn record_error(
    program_id: Key,
    state: State,
    application_state: Key,
    escrow_wallet_state: Key,
    sender: Key,
    receiver: Key,
    mint: Key,
    idx: u64,
    state_bump: u8,
    wallet_bump: u8,
) -> Option<ErrorCode> {
    if !(state.user_sending@ == sender@ && state.user_receiving@ == receiver@
        && state.mint_of_token_being_sent@ == mint@ && state.escrow_wallet@ == escrow_wallet_state@
        && state.idx == idx) {
        Some(ErrorCode::InvalidStateIdx)
    } else if !addresses_derived(program_id, application_state, escrow_wallet_state, sender, receiver, mint, idx, state_bump, wallet_bump) {
        Some(ErrorCode::DelegateNotSetCorrectly)
    } else {
        None
    }
}

/// Whether the record and the holding sit at the addresses derived from their seeds.
pub open spec fn addresses_derived(
    program_id: Key,
    application_state: Key,
    escrow_wallet_state: Key,
    sender: Key,
    receiver: Key,
    mint: Key,
    idx: u64,
    state_bump: u8,
    wallet_bump: u8,
) -> bool {
    program_address(state_signer_seeds(sender@, receiver@, mint@, idx, state_bump), program_id@)
        == Some(application_state@)
    && program_address(wallet_signer_seeds(sender@, receiver@, mint@, idx, wallet_bump), program_id@)
        == Some(escrow_wallet_state@)
}

/// The refusal, if any, of an open custody holding: it must hold the escrow's asset and be
/// controlled by the record's derived authority.
pub open spec fn holding_error(holding: TokenAccount, application_state: Key, mint: Key) -> Option<ErrorCode> {
    if holding.owner@ == application_state@ && holding.mint@ == mint@ {
        None
    } else {
        Some(ErrorCode::DelegateNotSetCorrectly)
    }
}

/// The refusal, if any, of a participant's wallet: it must be owned by `owner` and hold the
/// escrow's asset.
pub open spec fn wallet_error(wallet: TokenAccount, owner: Key, mint: Key) -> Option<ErrorCode> {
    if wallet.owner@ == owner@ && wallet.mint@ == mint@ {
        None
    } else {
        Some(ErrorCode::WalletToWithdrawFromInvalid)
    }
}

/// The first refusal, if any, of a completion.
pub open spec fn complete_grant_error(
    program_id: Key,
    ctx: CompleteGrant,
    state: State,
    idx: u64,
    state_bump: u8,
    wallet_bump: u8,
) -> Option<ErrorCode> {
    if stage_of_code(state.stage) != Some(Stage::FundsDeposited) {
        Some(ErrorCode::StageInvalid)
    } else if record_error(program_id, state, ctx.application_state, ctx.escrow_wallet_state,
        ctx.user_sending, ctx.user_receiving, ctx.mint_of_token_being_sent, idx, state_bump, wallet_bump) is Some {
        record_error(program_id, state, ctx.application_state, ctx.escrow_wallet_state,
            ctx.user_sending, ctx.user_receiving, ctx.mint_of_token_being_sent, idx, state_bump, wallet_bump)
    } else if ctx.escrow_wallet_account is None {
        Some(ErrorCode::InvalidStateIdx)
    } else if holding_error(ctx.escrow_wallet_account->Some_0, ctx.application_state, ctx.mint_of_token_being_sent) is Some {
        holding_error(ctx.escrow_wallet_account->Some_0, ctx.application_state, ctx.mint_of_token_being_sent)
    } else {
        wallet_error(ctx.wallet_to_deposit_to_account, ctx.user_receiving, ctx.mint_of_token_being_sent)
    }
}

/// The first refusal, if any, of a pull-back. After an earlier pull-back the holding may
/// be gone; while the funds are deposited it must be there.
pub open spec fn pull_back_error(
    program_id: Key,
    ctx: PullBackInstruction,
    state: State,
    idx: u64,
    state_bump: u8,
    wallet_bump: u8,
) -> Option<ErrorCode> {
    if !(stage_of_code(state.stage) == Some(Stage::FundsDeposited)
        || stage_of_code(state.stage) == Some(Stage::PullBackComplete)) {
        Some(ErrorCode::StageInvalid)
    } else if record_error(program_id, state, ctx.application_state, ctx.escrow_wallet_state,
        ctx.user_sending, ctx.user_receiving, ctx.mint_of_token_being_sent, idx, state_bump, wallet_bump) is Some {
        record_error(program_id, state, ctx.application_state, ctx.escrow_wallet_state,
            ctx.user_sending, ctx.user_receiving, ctx.mint_of_token_being_sent, idx, state_bump, wallet_bump)
    } else if ctx.escrow_wallet_account is None {
        if stage_of_code(state.stage) == Some(Stage::PullBackComplete) {
            None
        } else {
            Some(ErrorCode::InvalidStateIdx)
        }
    } else if holding_error(ctx.escrow_wallet_account->Some_0, ctx.application_state, ctx.mint_of_token_being_sent) is Some {
        holding_error(ctx.escrow_wallet_account->Some_0, ctx.application_state, ctx.mint_of_token_being_sent)
    } else {
        wallet_error(ctx.refund_wallet_account, ctx.user_sending, ctx.mint_of_token_being_sent)
    }
}

/// The first refusal, if any, of a deposit: the record must still be empty, both addresses
/// derived from their seeds, and the source wallet the sender's, for the escrow's asset.
pub open spec fn initialize_new_grant_error(
    program_id: Key,
    ctx: InitializeNewGrant,
    state: State,
    idx: u64,
    state_bump: u8,
    wallet_bump: u8,
) -> Option<ErrorCode> {
    if state.stage != 0 {
        Some(ErrorCode::StageInvalid)
    } else if !addresses_derived(program_id, ctx.application_state, ctx.escrow_wallet_state,
        ctx.user_sending, ctx.user_receiving, ctx.mint_of_token_being_sent, idx, state_bump, wallet_bump) {
        Some(ErrorCode::DelegateNotSetCorrectly)
    } else {
        wallet_error(ctx.wallet_to_withdraw_from_account, ctx.user_sending, ctx.mint_of_token_being_sent)
    }
}

/// The record once its stage has moved to `s`.
pub open spec fn with_stage(state: State, s: Stage) -> State {
    State { stage: stage_code(s), ..state }
}

/// The record written by a deposit.
pub open spec fn new_record(ctx: InitializeNewGrant, idx: u64, amount: u64) -> State {
    State {
        idx,
        user_sending: ctx.user_sending,
        user_receiving: ctx.user_receiving,
        mint_of_token_being_sent: ctx.mint_of_token_being_sent,
        escrow_wallet: ctx.escrow_wallet_state,
        amount_tokens: amount,
        stage: stage_code(Stage::FundsDeposited),
    }
}

/// `out` moves `amount` from the holding to `destination` as the record's derived
/// authority, and closes the holding, its deposit going to the sender, as that same
/// authority.
pub open spec fn is_transfer_out(
    out: TransferOut,
    sender: Key,
    receiver: Key,
    mint: Key,
    escrow_wallet: Key,
    idx: u64,
    state: Key,
    state_bump: u8,
    destination: Key,
    amount: u64,
) -> bool {
    &&& out.transfer.from == escrow_wallet
    &&& out.transfer.to == destination
    &&& out.transfer.authority == state
    &&& out.transfer.amount == amount
    &&& seeds_view(out.transfer.signer_seeds@) == state_signer_seeds(sender@, receiver@, mint@, idx, state_bump)
    &&& out.close.account == escrow_wallet
    &&& out.close.destination == sender
    &&& out.close.authority == state
    &&& seeds_view(out.close.signer_seeds@) == state_signer_seeds(sender@, receiver@, mint@, idx, state_bump)
}

/// What a release does once the transfer is done and the holding's balance read again:
/// the closure where the holding is empty, nothing otherwise.
pub open spec fn close_decision(out: TransferOut, live_balance: u64) -> Option<CloseAccount> {
    if live_balance == 0 {
        Some(out.close)
    } else {
        None
    }
}

/// Prepares the release of `amount` units from the custody holding to `destination_wallet`,
/// signed as the record's derived authority, followed by the closure of the holding once
/// it is found empty.
pub fn transfer_escrow_out(
    user_sending: &Key,
    user_receiving: &Key,
    mint_of_token_being_sent: &Key,
    escrow_wallet: &Key,
    application_idx: u64,
    state: &Key,
    state_bump: u8,
    destination_wallet: &Key,
    amount: u64,
) -> (r: TransferOut)
    ensures
        is_transfer_out(r, *user_sending, *user_receiving, *mint_of_token_being_sent, *escrow_wallet,
            application_idx, *state, state_bump, *destination_wallet, amount),
{
    let transfer = TokenTransfer {
        from: *escrow_wallet,
        to: *destination_wallet,
        authority: *state,
        amount,
        signer_seeds: state_seeds(user_sending, user_receiving, mint_of_token_being_sent, application_idx, state_bump),
    };
    let close = CloseAccount {
        account: *escrow_wallet,
        destination: *user_sending,
        authority: *state,
        signer_seeds: state_seeds(user_sending, user_receiving, mint_of_token_being_sent, application_idx, state_bump),
    };
    TransferOut { transfer, close }
}

impl TransferOut {
    /// Given the holding's balance read after the transfer, the closure to carry out: the
    /// holding is closed exactly when it is empty.
    pub fn close_after(self, live_balance: u64) -> (r: Option<CloseAccount>)
        ensures
            r == close_decision(self, live_balance),
    {
        if live_balance == 0 {
            Some(self.close)
        } else {
            None
        }
    }
}

fn check_record(
    program_id: &Key,
    state: &State,
    application_state: &Key,
    escrow_wallet_state: &Key,
    sender: &Key,
    receiver: &Key,
    mint: &Key,
    idx: u64,
    state_bump: u8,
    wallet_bump: u8,
) -> (r: Option<ErrorCode>)
    ensures
        r == record_error(*program_id, *state, *application_state, *escrow_wallet_state, *sender,
            *receiver, *mint, idx, state_bump, wallet_bump),
{
    if !(state.user_sending == *sender && state.user_receiving == *receiver
        && state.mint_of_token_being_sent == *mint && state.escrow_wallet == *escrow_wallet_state
        && state.idx == idx) {
        return Some(ErrorCode::InvalidStateIdx);
    }
    if !check_addresses(program_id, application_state, escrow_wallet_state, sender, receiver, mint, idx, state_bump, wallet_bump) {
        return Some(ErrorCode::DelegateNotSetCorrectly);
    }
    None
}

fn check_addresses(
    program_id: &Key,
    application_state: &Key,
    escrow_wallet_state: &Key,
    sender: &Key,
    receiver: &Key,
    mint: &Key,
    idx: u64,
    state_bump: u8,
    wallet_bump: u8,
) -> (r: bool)
    ensures
        r == addresses_derived(*program_id, *application_state, *escrow_wallet_state, *sender,
            *receiver, *mint, idx, state_bump, wallet_bump),
{
    proof {
        lemma_escrow_seeds_fit(state_label(), *sender, *receiver, *mint, idx, state_bump);
        lemma_escrow_seeds_fit(wallet_label(), *sender, *receiver, *mint, idx, wallet_bump);
    }
    let s = state_seeds(sender, receiver, mint, idx, state_bump);
    if !is_derived_address(application_state, &s, program_id) {
        return false;
    }
    let w = wallet_seeds(sender, receiver, mint, idx, wallet_bump);
    is_derived_address(escrow_wallet_state, &w, program_id)
}

fn check_holding(holding: &TokenAccount, application_state: &Key, mint: &Key) -> (r: Option<ErrorCode>)
    ensures
        r == holding_error(*holding, *application_state, *mint),
{
    if holding.owner == *application_state && holding.mint == *mint {
        None
    } else {
        Some(ErrorCode::DelegateNotSetCorrectly)
    }
}

fn check_wallet(wallet: &TokenAccount, owner: &Key, mint: &Key) -> (r: Option<ErrorCode>)
    ensures
        r == wallet_error(*wallet, *owner, *mint),
{
    if wallet.owner == *owner && wallet.mint == *mint {
        None
    } else {
        Some(ErrorCode::WalletToWithdrawFromInvalid)
    }
}

/// The receiver takes the funds: allowed only while they are deposited. On success the
/// record's stage becomes `EscrowComplete`, and the release returned moves the holding's
/// whole balance to the receiver's wallet. On refusal nothing changes.
pub fn complete_grant(
    program_id: &Key,
    ctx: &CompleteGrant,
    state: &mut State,
    application_idx: u64,
    state_bump: u8,
    wallet_bump: u8,
) -> (r: Result<TransferOut, ErrorCode>)
    ensures
        complete_grant_error(*program_id, *ctx, *old(state), application_idx, state_bump, wallet_bump) is None
            <==> r is Ok,
        r is Err ==> r->Err_0 == complete_grant_error(*program_id, *ctx, *old(state), application_idx,
            state_bump, wallet_bump)->Some_0 && *final(state) == *old(state),
        r is Ok ==> *final(state) == with_stage(*old(state), Stage::EscrowComplete),
        r is Ok ==> ctx.escrow_wallet_account is Some && is_transfer_out(r->Ok_0, ctx.user_sending,
            ctx.user_receiving, ctx.mint_of_token_being_sent, ctx.escrow_wallet_state, application_idx,
            ctx.application_state, state_bump, ctx.wallet_to_deposit_to,
            ctx.escrow_wallet_account->Some_0.amount),
{
    match Stage::from(state.stage) {
        Ok(Stage::FundsDeposited) => {},
        _ => {
            return Err(ErrorCode::StageInvalid);
        },
    }
    if let Some(e) = check_record(program_id, state, &ctx.application_state, &ctx.escrow_wallet_state,
        &ctx.user_sending, &ctx.user_receiving, &ctx.mint_of_token_being_sent, application_idx,
        state_bump, wallet_bump) {
        return Err(e);
    }
    let holding = match &ctx.escrow_wallet_account {
        Some(h) => h,
        None => {
            return Err(ErrorCode::InvalidStateIdx);
        },
    };
    if let Some(e) = check_holding(holding, &ctx.application_state, &ctx.mint_of_token_being_sent) {
        return Err(e);
    }
    if let Some(e) = check_wallet(&ctx.wallet_to_deposit_to_account, &ctx.user_receiving, &ctx.mint_of_token_being_sent) {
        return Err(e);
    }
    let out = transfer_escrow_out(
        &ctx.user_sending,
        &ctx.user_receiving,
        &ctx.mint_of_token_being_sent,
        &ctx.escrow_wallet_state,
        application_idx,
        &ctx.application_state,
        state_bump,
        &ctx.wallet_to_deposit_to,
        holding.amount,
    );
    state.stage = Stage::EscrowComplete.to_code();
    Ok(out)
}

/// The sender takes the funds back: allowed while they are deposited, and again after an
/// earlier pull-back. On success the record's stage becomes `PullBackComplete`; the release
/// returned moves the holding's whole balance to the sender's refund wallet, and there is
/// none where the holding is already gone. On refusal nothing changes.
pub fn pull_back(
    program_id: &Key,
    ctx: &PullBackInstruction,
    state: &mut State,
    application_idx: u64,
    state_bump: u8,
    wallet_bump: u8,
) -> (r: Result<Option<TransferOut>, ErrorCode>)
    ensures
        pull_back_error(*program_id, *ctx, *old(state), application_idx, state_bump, wallet_bump) is None
            <==> r is Ok,
        r is Err ==> r->Err_0 == pull_back_error(*program_id, *ctx, *old(state), application_idx,
            state_bump, wallet_bump)->Some_0 && *final(state) == *old(state),
        r is Ok ==> *final(state) == with_stage(*old(state), Stage::PullBackComplete),
        r is Ok ==> (r->Ok_0 is None <==> ctx.escrow_wallet_account is None),
        r is Ok && r->Ok_0 is Some ==> is_transfer_out(r->Ok_0->Some_0, ctx.user_sending,
            ctx.user_receiving, ctx.mint_of_token_being_sent, ctx.escrow_wallet_state, application_idx,
            ctx.application_state, state_bump, ctx.refund_wallet,
            ctx.escrow_wallet_account->Some_0.amount),
{
    let current = Stage::from(state.stage);
    let pulled_back = match current {
        Ok(Stage::FundsDeposited) => false,
        Ok(Stage::PullBackComplete) => true,
        _ => {
            return Err(ErrorCode::StageInvalid);
        },
    };
    if let Some(e) = check_record(program_id, state, &ctx.application_state, &ctx.escrow_wallet_state,
        &ctx.user_sending, &ctx.user_receiving, &ctx.mint_of_token_being_sent, application_idx,
        state_bump, wallet_bump) {
        return Err(e);
    }
    let out = match &ctx.escrow_wallet_account {
        None => {
            if !pulled_back {
                return Err(ErrorCode::InvalidStateIdx);
            }
            None
        },
        Some(holding) => {
            if let Some(e) = check_holding(holding, &ctx.application_state, &ctx.mint_of_token_being_sent) {
                return Err(e);
            }
            if let Some(e) = check_wallet(&ctx.refund_wallet_account, &ctx.user_sending, &ctx.mint_of_token_being_sent) {
                return Err(e);
            }
            Some(transfer_escrow_out(
                &ctx.user_sending,
                &ctx.user_receiving,
                &ctx.mint_of_token_being_sent,
                &ctx.escrow_wallet_state,
                application_idx,
                &ctx.application_state,
                state_bump,
                &ctx.refund_wallet,
                holding.amount,
            ))
        },
    };
    state.stage = Stage::PullBackComplete.to_code();
    Ok(out)
}

/// The sender deposits `amount` units: the empty record is filled in with the
/// participants, asset, holding, index and amount, its stage becomes `FundsDeposited`, and
/// the transfer returned moves `amount` from the sender's wallet into the holding on the
/// sender's own signature. On refusal nothing changes.
pub fn initialize_new_grant(
    program_id: &Key,
    ctx: &InitializeNewGrant,
    state: &mut State,
    application_idx: u64,
    state_bump: u8,
    wallet_bump: u8,
    amount: u64,
) -> (r: Result<TokenTransfer, ErrorCode>)
    ensures
        initialize_new_grant_error(*program_id, *ctx, *old(state), application_idx, state_bump,
            wallet_bump) is None <==> r is Ok,
        r is Err ==> r->Err_0 == initialize_new_grant_error(*program_id, *ctx, *old(state),
            application_idx, state_bump, wallet_bump)->Some_0 && *final(state) == *old(state),
        r is Ok ==> *final(state) == new_record(*ctx, application_idx, amount),
        r is Ok ==> ({
            let t = r->Ok_0;
            &&& t.from == ctx.wallet_to_withdraw_from
            &&& t.to == ctx.escrow_wallet_state
            &&& t.authority == ctx.user_sending
            &&& t.amount == amount
            &&& t.signer_seeds@.len() == 0
        }),
{
    if state.stage != 0 {
        return Err(ErrorCode::StageInvalid);
    }
    if !check_addresses(program_id, &ctx.application_state, &ctx.escrow_wallet_state, &ctx.user_sending,
        &ctx.user_receiving, &ctx.mint_of_token_being_sent, application_idx, state_bump, wallet_bump) {
        return Err(ErrorCode::DelegateNotSetCorrectly);
    }
    if let Some(e) = check_wallet(&ctx.wallet_to_withdraw_from_account, &ctx.user_sending, &ctx.mint_of_token_being_sent) {
        return Err(e);
    }
    state.idx = application_idx;
    state.user_sending = ctx.user_sending;
    state.user_receiving = ctx.user_receiving;
    state.mint_of_token_being_sent = ctx.mint_of_token_being_sent;
    state.escrow_wallet = ctx.escrow_wallet_state;
    state.amount_tokens = amount;
    state.stage = Stage::FundsDeposited.to_code();
    Ok(TokenTransfer {
        from: ctx.wallet_to_withdraw_from,
        to: ctx.escrow_wallet_state,
        authority: ctx.user_sending,
        amount,
        signer_seeds: Vec::new(),
    })
}

} // verus!
