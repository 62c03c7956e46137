use vstd::prelude::*;
use crate::authority::{le_bytes, program_address, state_signer_seeds, wallet_signer_seeds};
use crate::error::ErrorCode;
use crate::grant::{
    close_decision, complete_grant_error, is_transfer_out, pull_back_error, with_stage,
    CloseAccount, CompleteGrant, PullBackInstruction, State, TokenTransfer, TransferOut,
};
use crate::key::Key;
use crate::stage::{stage_of_code, Stage};

verus! {

/// Balances of token accounts, by address, once the token module has carried out `t`.
pub open spec fn balances_after(balances: Map<Seq<u8>, int>, t: TokenTransfer) -> Map<Seq<u8>, int> {
    let drawn = balances.insert(t.from@, balances[t.from@] - t.amount);
    drawn.insert(t.to@, drawn[t.to@] + t.amount)
}

/// Addresses of open token accounts once the token module has carried out `close`, if any.
pub open spec fn open_after(open: Set<Seq<u8>>, close: Option<CloseAccount>) -> Set<Seq<u8>> {
    match close {
        Some(c) => open.remove(c.account@),
        None => open,
    }
}

/// A completion that went through cannot go through again: the second attempt on the
/// record it left is refused with `StageInvalid`.
pub proof fn lemma_complete_only_once(
    program_id: Key,
    ctx: CompleteGrant,
    state: State,
    idx: u64,
    state_bump: u8,
    wallet_bump: u8,
)
    requires
        complete_grant_error(program_id, ctx, state, idx, state_bump, wallet_bump) is None,
    ensures
        complete_grant_error(program_id, ctx, with_stage(state, Stage::EscrowComplete), idx,
            state_bump, wallet_bump) == Some(ErrorCode::StageInvalid),
{
}

/// Neither a completion nor a pull-back goes through on a record whose stage tag names no
/// stage (an empty record among them) or on a completed one: both are refused with
/// `StageInvalid`, and a refusal leaves record and holding as they were.
pub proof fn lemma_no_premature_release(
    program_id: Key,
    complete: CompleteGrant,
    pull: PullBackInstruction,
    state: State,
    idx: u64,
    state_bump: u8,
    wallet_bump: u8,
)
    requires
        stage_of_code(state.stage) is None || stage_of_code(state.stage) == Some(Stage::EscrowComplete),
    ensures
        complete_grant_error(program_id, complete, state, idx, state_bump, wallet_bump)
            == Some(ErrorCode::StageInvalid),
        pull_back_error(program_id, pull, state, idx, state_bump, wallet_bump)
            == Some(ErrorCode::StageInvalid),
{
}

/// A completion that went through moves the holding's whole balance to the receiver's
/// wallet, which gains exactly what the holding had, and leaves the holding at zero.
pub proof fn lemma_complete_conserves(
    program_id: Key,
    ctx: CompleteGrant,
    state: State,
    idx: u64,
    state_bump: u8,
    wallet_bump: u8,
    out: TransferOut,
    balances: Map<Seq<u8>, int>,
)
    requires
        complete_grant_error(program_id, ctx, state, idx, state_bump, wallet_bump) is None,
        ctx.escrow_wallet_account is Some,
        is_transfer_out(out, ctx.user_sending, ctx.user_receiving, ctx.mint_of_token_being_sent,
            ctx.escrow_wallet_state, idx, ctx.application_state, state_bump, ctx.wallet_to_deposit_to,
            ctx.escrow_wallet_account->Some_0.amount),
        balances[ctx.escrow_wallet_state@] == ctx.escrow_wallet_account->Some_0.amount,
        ctx.wallet_to_deposit_to@ != ctx.escrow_wallet_state@,
    ensures
        balances_after(balances, out.transfer)[ctx.wallet_to_deposit_to@]
            == balances[ctx.wallet_to_deposit_to@] + balances[ctx.escrow_wallet_state@],
        balances_after(balances, out.transfer)[ctx.escrow_wallet_state@] == 0,
{
}

/// A pull-back that released funds moves the holding's whole balance to the sender's
/// refund wallet, which gains exactly what the holding had, and leaves the holding at zero.
pub proof fn lemma_pull_back_conserves(
    program_id: Key,
    ctx: PullBackInstruction,
    state: State,
    idx: u64,
    state_bump: u8,
    wallet_bump: u8,
    out: TransferOut,
    balances: Map<Seq<u8>, int>,
)
    requires
        pull_back_error(program_id, ctx, state, idx, state_bump, wallet_bump) is None,
        ctx.escrow_wallet_account is Some,
        is_transfer_out(out, ctx.user_sending, ctx.user_receiving, ctx.mint_of_token_being_sent,
            ctx.escrow_wallet_state, idx, ctx.application_state, state_bump, ctx.refund_wallet,
            ctx.escrow_wallet_account->Some_0.amount),
        balances[ctx.escrow_wallet_state@] == ctx.escrow_wallet_account->Some_0.amount,
        ctx.refund_wallet@ != ctx.escrow_wallet_state@,
    ensures
        balances_after(balances, out.transfer)[ctx.refund_wallet@]
            == balances[ctx.refund_wallet@] + balances[ctx.escrow_wallet_state@],
        balances_after(balances, out.transfer)[ctx.escrow_wallet_state@] == 0,
{
}

/// A release closes the holding it drained: where the balance read after the transfer is
/// zero the holding is no longer open, and where it is not the open accounts stay as they
/// were.
pub proof fn lemma_closure_on_drain(
    out: TransferOut,
    sender: Key,
    receiver: Key,
    mint: Key,
    escrow_wallet: Key,
    idx: u64,
    state: Key,
    state_bump: u8,
    destination: Key,
    amount: u64,
    live_balance: u64,
    open: Set<Seq<u8>>,
)
    requires
        is_transfer_out(out, sender, receiver, mint, escrow_wallet, idx, state, state_bump,
            destination, amount),
    ensures
        live_balance == 0 ==> !open_after(open, close_decision(out, live_balance)).contains(escrow_wallet@),
        live_balance != 0 ==> open_after(open, close_decision(out, live_balance)) == open,
{
}

/// Distinct integers have distinct little-endian bytes.
pub proof fn lemma_le_bytes_injective(x: u64, y: u64)
    requires
        le_bytes(x) == le_bytes(y),
    ensures
        x == y,
{
    let a = le_bytes(x);
    let b = le_bytes(y);
    assert(a[0] == b[0] && a[1] == b[1] && a[2] == b[2] && a[3] == b[3]);
    assert(a[4] == b[4] && a[5] == b[5] && a[6] == b[6] && a[7] == b[7]);
    assert((x & 0xff) as u8 == (y & 0xff) as u8 && ((x >> 8u64) & 0xff) as u8 == ((y >> 8u64) & 0xff) as u8
        && ((x >> 16u64) & 0xff) as u8 == ((y >> 16u64) & 0xff) as u8
        && ((x >> 24u64) & 0xff) as u8 == ((y >> 24u64) & 0xff) as u8
        && ((x >> 32u64) & 0xff) as u8 == ((y >> 32u64) & 0xff) as u8
        && ((x >> 40u64) & 0xff) as u8 == ((y >> 40u64) & 0xff) as u8
        && ((x >> 48u64) & 0xff) as u8 == ((y >> 48u64) & 0xff) as u8
        && ((x >> 56u64) & 0xff) as u8 == ((y >> 56u64) & 0xff) as u8);
    assert(((x & 0xff) as u8 == (y & 0xff) as u8 && ((x >> 8u64) & 0xff) as u8 == ((y >> 8u64) & 0xff) as u8
        && ((x >> 16u64) & 0xff) as u8 == ((y >> 16u64) & 0xff) as u8
        && ((x >> 24u64) & 0xff) as u8 == ((y >> 24u64) & 0xff) as u8
        && ((x >> 32u64) & 0xff) as u8 == ((y >> 32u64) & 0xff) as u8
        && ((x >> 40u64) & 0xff) as u8 == ((y >> 40u64) & 0xff) as u8
        && ((x >> 48u64) & 0xff) as u8 == ((y >> 48u64) & 0xff) as u8
        && ((x >> 56u64) & 0xff) as u8 == ((y >> 56u64) & 0xff) as u8) ==> x == y) by (bit_vector);
}

/// The derived authority of a record is a function of its seeds: the same participants,
/// asset, index and disambiguation byte give the same identity whenever it is computed.
/// The seeds themselves tell every component apart: where any one of them differs, so do
/// the seeds. And the seeds of a record never coincide with those of a custody holding.
pub proof fn lemma_authority_determinism(
    program_id: Key,
    sender: Key,
    receiver: Key,
    mint: Key,
    idx: u64,
    bump: u8,
    sender2: Key,
    receiver2: Key,
    mint2: Key,
    idx2: u64,
    bump2: u8,
)
    ensures
        (sender@ == sender2@ && receiver@ == receiver2@ && mint@ == mint2@ && idx == idx2 && bump == bump2)
            ==> program_address(state_signer_seeds(sender@, receiver@, mint@, idx, bump), program_id@)
            == program_address(state_signer_seeds(sender2@, receiver2@, mint2@, idx2, bump2), program_id@),
        state_signer_seeds(sender@, receiver@, mint@, idx, bump)
            == state_signer_seeds(sender2@, receiver2@, mint2@, idx2, bump2)
            ==> (sender@ == sender2@ && receiver@ == receiver2@ && mint@ == mint2@ && idx == idx2
            && bump == bump2),
        state_signer_seeds(sender@, receiver@, mint@, idx, bump)
            != wallet_signer_seeds(sender2@, receiver2@, mint2@, idx2, bump2),
{
    let s1 = state_signer_seeds(sender@, receiver@, mint@, idx, bump);
    let s2 = state_signer_seeds(sender2@, receiver2@, mint2@, idx2, bump2);
    if s1 == s2 {
        assert(s1[1] == s2[1] && s1[2] == s2[2] && s1[3] == s2[3] && s1[4] == s2[4]);
        assert(s1[5][0] == s2[5][0]);
        lemma_le_bytes_injective(idx, idx2);
    }
    let w = wallet_signer_seeds(sender2@, receiver2@, mint2@, idx2, bump2);
    assert(s1[0].len() != w[0].len());
}

} // verus!
