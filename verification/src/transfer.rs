//! Transfers that route fees: the sender pays the gross amount, the recipient
//! receives the net part, and three fee wallets receive their shares.

use crate::address::Address;
use crate::errors::ErrorCode;
use crate::events::{Event, LayerTx};
use crate::fees::{lemma_split_conserves, split_fees, split_of, FeeSplit};
use crate::ledger::{outcome, LedgerCall, Plan, PlanView};
use crate::state::TokenAccount;
use vstd::prelude::*;

verus! {

/// The accounts of a transfer with fees.
#[derive(Clone, Copy, Debug, PartialEq, Eq)]
pub struct TransferWithFees {
    /// The sender, who signs every move.
    pub from: Address,
    /// The token account the gross amount leaves.
    pub from_token: TokenAccount,
    /// The token account of the recipient.
    pub to_token: TokenAccount,
    /// The token account of the challenge wallet.
    pub challenge_token: TokenAccount,
    /// The token account of the developer wallet.
    pub dev_token: TokenAccount,
    /// The token account of the liquidity wallet.
    pub liq_token: TokenAccount,
}

/// The ledger calls that move `amount` between two token accounts: one
/// transfer, or none at all where there is nothing to move.
pub open spec fn move_of(
    from_signer: Address,
    from_token: TokenAccount,
    to_token: TokenAccount,
    amount: u64,
) -> Seq<LedgerCall> {
    if amount == 0 {
        Seq::empty()
    } else {
        seq![
            LedgerCall::Transfer {
                from: from_token.address,
                to: to_token.address,
                authority: from_signer,
                amount,
            },
        ]
    }
}

/// The moves of a transfer, in the order they are issued: the net part first,
/// then the challenge, developer and liquidity fees.
pub open spec fn transfer_moves(ctx: TransferWithFees, split: FeeSplit) -> Seq<LedgerCall> {
    move_of(ctx.from, ctx.from_token, ctx.to_token, split.net) + move_of(
        ctx.from,
        ctx.from_token,
        ctx.challenge_token,
        split.fee_challenge,
    ) + move_of(ctx.from, ctx.from_token, ctx.dev_token, split.fee_dev) + move_of(
        ctx.from,
        ctx.from_token,
        ctx.liq_token,
        split.fee_liq,
    )
}

/// The event that records a transfer of `amount` at `timestamp`.
pub open spec fn transfer_event(ctx: TransferWithFees, amount: u64, timestamp: i64) -> LayerTx {
    let split = split_of(amount);
    LayerTx {
        from: ctx.from,
        to: ctx.to_token.owner,
        gross_amount: amount,
        net_amount: split.net,
        fee_challenge: split.fee_challenge,
        fee_dev: split.fee_dev,
        fee_liq: split.fee_liq,
        timestamp,
    }
}

/// What a transfer of `amount` at `timestamp` comes to: a rejection where the
/// amount is zero, else its moves and its event.
pub open spec fn transfer_with_fees_spec(ctx: TransferWithFees, amount: u64, timestamp: i64) -> Result<
    PlanView,
    ErrorCode,
> {
    if amount == 0 {
        Err(ErrorCode::InvalidAmount)
    } else {
        Ok(
            PlanView {
                calls: transfer_moves(ctx, split_of(amount)),
                event: Event::LayerTx(transfer_event(ctx, amount, timestamp)),
            },
        )
    }
}

/// Appends to `calls` the transfer of `amount` from `from_token` to
/// `to_token`, signed by `from_signer`. An amount of zero appends nothing:
/// the ledger is never asked to move nothing.
pub fn cpi_transfer(
    calls: &mut Vec<LedgerCall>,
    from_signer: &Address,
    from_token: &TokenAccount,
    to_token: &TokenAccount,
    amount: u64,
)
    ensures
        final(calls)@ == old(calls)@ + move_of(*from_signer, *from_token, *to_token, amount),
{
    if amount == 0 {
        assert(calls@ + Seq::<LedgerCall>::empty() =~= calls@);
        return ;
    }
    calls.push(
        LedgerCall::Transfer {
            from: from_token.address,
            to: to_token.address,
            authority: *from_signer,
            amount,
        },
    );
    assert(calls@ =~= old(calls)@ + move_of(*from_signer, *from_token, *to_token, amount));
}

/// Plans the transfer of `amount` from the sender to the recipient, at the
/// time `timestamp`.
///
/// An amount of zero is rejected with `InvalidAmount`. Any other amount is
/// split into 4%, 2% and 2% fees, each rounded down, and the rest; the plan
/// moves the rest to the recipient and each fee to its wallet, leaving out
/// the parts that are zero, and ends with the `LayerTx` event.
pub fn transfer_with_fees(ctx: &TransferWithFees, amount: u64, timestamp: i64) -> (result: Result<
    Plan,
    ErrorCode,
>)
    ensures
        outcome(result) == transfer_with_fees_spec(*ctx, amount, timestamp),
        result is Err <==> amount == 0,
        result matches Err(e) ==> e == ErrorCode::InvalidAmount,
        result matches Ok(plan) ==> {
            &&& plan.calls@ == transfer_moves(*ctx, split_of(amount))
            &&& plan.event == Event::LayerTx(transfer_event(*ctx, amount, timestamp))
        },
{
    if amount == 0 {
        return Err(ErrorCode::InvalidAmount);
    }
    let split = split_fees(amount);

    let mut calls: Vec<LedgerCall> = Vec::new();
    assert(calls@ =~= Seq::<LedgerCall>::empty());
    cpi_transfer(&mut calls, &ctx.from, &ctx.from_token, &ctx.to_token, split.net);
    cpi_transfer(&mut calls, &ctx.from, &ctx.from_token, &ctx.challenge_token, split.fee_challenge);
    cpi_transfer(&mut calls, &ctx.from, &ctx.from_token, &ctx.dev_token, split.fee_dev);
    cpi_transfer(&mut calls, &ctx.from, &ctx.from_token, &ctx.liq_token, split.fee_liq);
    assert(calls@ =~= transfer_moves(*ctx, split));

    let event = LayerTx {
        from: ctx.from,
        to: ctx.to_token.owner,
        gross_amount: amount,
        net_amount: split.net,
        fee_challenge: split.fee_challenge,
        fee_dev: split.fee_dev,
        fee_liq: split.fee_liq,
        timestamp,
    };
    Ok(Plan { calls, event: Event::LayerTx(event) })
}

/// No transfer creates or destroys value: what the recipient and the three
/// fee wallets receive adds up to what the sender pays, and the event says so.
pub proof fn lemma_transfer_conserves(ctx: TransferWithFees, amount: u64, timestamp: i64)
    requires
        amount > 0,
    ensures
        ({
            let event = transfer_event(ctx, amount, timestamp);
            &&& event.fee_challenge + event.fee_dev + event.fee_liq + event.net_amount == amount
            &&& event.gross_amount == amount
        }),
{
    lemma_split_conserves(amount);
}

/// The fees of a transfer are exact: each is the stated percentage of the
/// gross amount, rounded down.
pub proof fn lemma_transfer_fees_exact(ctx: TransferWithFees, amount: u64, timestamp: i64)
    ensures
        ({
            let event = transfer_event(ctx, amount, timestamp);
            &&& event.fee_challenge == amount * 4 / 100
            &&& event.fee_dev == amount * 2 / 100
            &&& event.fee_liq == amount * 2 / 100
            &&& event.net_amount == amount - (amount * 4 / 100 + amount * 2 / 100 + amount * 2
                / 100)
        }),
{
    lemma_split_conserves(amount);
}

/// A transfer whose four parts are all positive issues exactly four moves.
pub proof fn lemma_four_moves(ctx: TransferWithFees, amount: u64)
    requires
        amount >= 50,
    ensures
        transfer_moves(ctx, split_of(amount)).len() == 4,
{
    lemma_split_conserves(amount);
    let split = split_of(amount);
    assert(split.fee_dev >= 1);
    assert(split.fee_liq >= 1);
    assert(split.fee_challenge >= 2);
    assert(split.net >= 1);
}

} // verus!
