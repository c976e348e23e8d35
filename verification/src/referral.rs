//! Referrals: a participant is bound to an inviter once, and the inviter may
//! be rewarded for it.

use crate::address::Address;
use crate::authority::SystemSigner;
use crate::errors::ErrorCode;
use crate::events::{Event, Referral};
use crate::ledger::{outcome, LedgerCall, Plan, PlanView};
use crate::minting::{holds_minting_rights, may_mint, mint_of};
use crate::state::{Config, Mint, ReferralRecord, TokenAccount};
use vstd::prelude::*;

verus! {

/// The accounts of a referral binding.
#[derive(Clone, Copy, Debug, PartialEq, Eq)]
pub struct BindReferral {
    /// The participant, who signs the request.
    pub user: Address,
    /// Who invited the participant.
    pub inviter: Address,
    /// The participant's referral record, or `None` where none exists yet.
    pub ref_record: Option<ReferralRecord>,
    /// The configuration singleton.
    pub cfg: Config,
    /// The managed asset, as the ledger holds it.
    pub dopel_mint: Mint,
    /// The token account that receives the inviter's reward.
    pub inviter_token: TokenAccount,
}

/// Whether a participant already has an inviter. A participant without a
/// record has none.
pub open spec fn is_bound(record: Option<ReferralRecord>) -> bool {
    record matches Some(r) && r.bound
}

/// The record that binds the participant of `ctx` to the inviter of `ctx`.
pub open spec fn bound_record(ctx: BindReferral) -> ReferralRecord {
    ReferralRecord { bound: true, user: ctx.user, inviter: ctx.inviter }
}

/// What a binding with a reward of `reward_amount` comes to.
pub open spec fn bind_referral_spec(
    ctx: BindReferral,
    signer: SystemSigner,
    reward_amount: u64,
) -> Result<PlanView, ErrorCode> {
    if is_bound(ctx.ref_record) {
        Err(ErrorCode::AlreadyBound)
    } else if ctx.user == ctx.inviter {
        Err(ErrorCode::SelfInvite)
    } else if reward_amount > 0 && !holds_minting_rights(signer, ctx.cfg, ctx.dopel_mint) {
        Err(ErrorCode::MintingUnauthorized)
    } else {
        Ok(
            PlanView {
                calls: mint_of(signer, ctx.cfg.dopel_mint, ctx.inviter_token, reward_amount),
                event: Event::Referral(
                    Referral { user: ctx.user, inviter: ctx.inviter, reward_amount },
                ),
            },
        )
    }
}

/// The participant's record after a binding was asked for: the bound record
/// where the binding succeeds, the record as it was where it is rejected.
pub open spec fn record_after(
    ctx: BindReferral,
    signer: SystemSigner,
    reward_amount: u64,
) -> Option<ReferralRecord> {
    if bind_referral_spec(ctx, signer, reward_amount) is Ok {
        Some(bound_record(ctx))
    } else {
        ctx.ref_record
    }
}

/// Binds the participant to the inviter and plans the inviter's reward.
///
/// A participant who is already bound is rejected with `AlreadyBound`; one
/// who names themselves is rejected with `SelfInvite`; a positive reward is
/// rejected with `MintingUnauthorized` where the system signer has lost the
/// minting rights. A rejection leaves `ctx` as it was. Otherwise the record
/// in `ctx` becomes the bound record, created where there was none, and the
/// plan mints the reward to the inviter, or asks for nothing where the reward
/// is zero, and ends with the `Referral` event.
///
/// The record and the reward stand or fall together: the new record is to be
/// kept only once the plan has been carried out.
pub fn bind_referral(ctx: &mut BindReferral, signer: &SystemSigner, reward_amount: u64) -> (result:
    Result<Plan, ErrorCode>)
    ensures
        outcome(result) == bind_referral_spec(*old(ctx), *signer, reward_amount),
        final(ctx).ref_record == record_after(*old(ctx), *signer, reward_amount),
        *final(ctx) == (BindReferral { ref_record: final(ctx).ref_record, ..*old(ctx) }),
        result is Err ==> *final(ctx) == *old(ctx),
{
    let bound = match ctx.ref_record {
        Some(record) => record.bound,
        None => false,
    };
    if bound {
        return Err(ErrorCode::AlreadyBound);
    }
    if ctx.user == ctx.inviter {
        return Err(ErrorCode::SelfInvite);
    }
    let mut calls: Vec<LedgerCall> = Vec::new();
    if reward_amount > 0 {
        if !may_mint(signer, &ctx.cfg, &ctx.dopel_mint) {
            return Err(ErrorCode::MintingUnauthorized);
        }
        calls.push(
            LedgerCall::MintTo {
                mint: ctx.cfg.dopel_mint,
                to: ctx.inviter_token.address,
                authority: signer.address(),
                amount: reward_amount,
            },
        );
    }
    ctx.ref_record = Some(ReferralRecord { bound: true, user: ctx.user, inviter: ctx.inviter });

    let event = Event::Referral(Referral { user: ctx.user, inviter: ctx.inviter, reward_amount });
    let plan = Plan { calls, event };
    assert(plan@.calls =~= mint_of(*signer, ctx.cfg.dopel_mint, ctx.inviter_token, reward_amount));
    Ok(plan)
}

/// Binding happens once. On a record that is already bound every further
/// request is rejected with `AlreadyBound`, whoever asks and whatever for,
/// and the record keeps its participant and its inviter.
pub proof fn lemma_bound_stays_bound(ctx: BindReferral, signer: SystemSigner, reward_amount: u64)
    requires
        is_bound(ctx.ref_record),
    ensures
        bind_referral_spec(ctx, signer, reward_amount) == Err::<PlanView, ErrorCode>(
            ErrorCode::AlreadyBound,
        ),
        record_after(ctx, signer, reward_amount) == ctx.ref_record,
{
}

/// A second binding never takes effect: whatever a first request leaves
/// behind where it succeeded, a second request on it is rejected with
/// `AlreadyBound` and changes neither participant nor inviter.
pub proof fn lemma_second_bind_is_rejected(
    first: BindReferral,
    first_signer: SystemSigner,
    first_reward: u64,
    second: BindReferral,
    second_signer: SystemSigner,
    second_reward: u64,
)
    requires
        bind_referral_spec(first, first_signer, first_reward) is Ok,
        second.ref_record == record_after(first, first_signer, first_reward),
    ensures
        bind_referral_spec(second, second_signer, second_reward) == Err::<PlanView, ErrorCode>(
            ErrorCode::AlreadyBound,
        ),
        record_after(second, second_signer, second_reward) == Some(bound_record(first)),
{
}

/// Nobody invites themselves: a request whose participant is its inviter is
/// always rejected, and never changes the record. On a participant who is not
/// bound yet the rejection is `SelfInvite`.
pub proof fn lemma_self_invite_is_rejected(
    ctx: BindReferral,
    signer: SystemSigner,
    reward_amount: u64,
)
    requires
        ctx.user == ctx.inviter,
    ensures
        bind_referral_spec(ctx, signer, reward_amount) is Err,
        record_after(ctx, signer, reward_amount) == ctx.ref_record,
        !is_bound(ctx.ref_record) ==> bind_referral_spec(ctx, signer, reward_amount) == Err::<
            PlanView,
            ErrorCode,
        >(ErrorCode::SelfInvite),
{
}

/// A successful binding never binds a participant to themselves.
pub proof fn lemma_bound_record_has_two_parties(
    ctx: BindReferral,
    signer: SystemSigner,
    reward_amount: u64,
)
    requires
        bind_referral_spec(ctx, signer, reward_amount) is Ok,
    ensures
        record_after(ctx, signer, reward_amount) matches Some(record) && record.bound
            && record.user != record.inviter,
{
}

} // verus!
