//! Issuance: minting on demand, paying validators, launching new assets.
//!
//! Every mint is signed by the system signer, never by a caller, and only
//! while the signer still holds the minting rights of the asset.

use crate::address::Address;
use crate::authority::SystemSigner;
use crate::errors::ErrorCode;
use crate::events::{Airdrop, Event, TokenLaunched, ValidatorReward};
use crate::ledger::{outcome, LedgerCall, Plan, PlanView};
use crate::state::{Config, Mint, TokenAccount};
use vstd::prelude::*;

verus! {

/// Whether `signer` holds the minting rights of the asset that `cfg` manages,
/// going by what the ledger says of `mint`: `mint` is that asset and names the
/// signer as its minting authority.
pub open spec fn holds_minting_rights(signer: SystemSigner, cfg: Config, mint: Mint) -> bool {
    mint.address == cfg.dopel_mint && mint.mint_authority == Some(signer.spec_address())
}

/// Tells whether `signer` holds the minting rights of the managed asset.
pub fn may_mint(signer: &SystemSigner, cfg: &Config, mint: &Mint) -> (held: bool)
    ensures
        held == holds_minting_rights(*signer, *cfg, *mint),
{
    if mint.address != cfg.dopel_mint {
        return false;
    }
    match mint.mint_authority {
        Some(authority) => authority == signer.address(),
        None => false,
    }
}

/// The ledger calls that mint `amount` of `mint` into `to` under `signer`:
/// one mint, or none at all where there is nothing to mint.
pub open spec fn mint_of(signer: SystemSigner, mint: Address, to: TokenAccount, amount: u64) -> Seq<
    LedgerCall,
> {
    if amount == 0 {
        Seq::empty()
    } else {
        seq![
            LedgerCall::MintTo { mint, to: to.address, authority: signer.spec_address(), amount },
        ]
    }
}

/// The accounts of a mint on demand.
#[derive(Clone, Copy, Debug, PartialEq, Eq)]
pub struct MintDopel {
    /// The caller.
    pub admin: Address,
    /// The configuration singleton.
    pub cfg: Config,
    /// The managed asset, as the ledger holds it.
    pub dopel_mint: Mint,
    /// The token account that receives the mint.
    pub to_token: TokenAccount,
}

/// What a mint on demand comes to.
pub open spec fn mint_dopel_spec(ctx: MintDopel, signer: SystemSigner, amount: u64) -> Result<
    PlanView,
    ErrorCode,
> {
    if ctx.admin != ctx.cfg.admin {
        Err(ErrorCode::Unauthorized)
    } else if !holds_minting_rights(signer, ctx.cfg, ctx.dopel_mint) {
        Err(ErrorCode::MintingUnauthorized)
    } else {
        Ok(
            PlanView {
                calls: seq![
                    LedgerCall::MintTo {
                        mint: ctx.cfg.dopel_mint,
                        to: ctx.to_token.address,
                        authority: signer.spec_address(),
                        amount,
                    },
                ],
                event: Event::Airdrop(Airdrop { to: ctx.to_token.owner, amount }),
            },
        )
    }
}

/// Plans a mint of `amount` of the managed asset into `ctx.to_token`.
///
/// Only the admin may ask for it: any other caller is rejected with
/// `Unauthorized`, before anything else is looked at. The admin is rejected
/// with `MintingUnauthorized` where the system signer has lost the minting
/// rights. Otherwise the plan is one mint signed by the system signer, and
/// the `Airdrop` event naming the owner of the receiving account.
pub fn mint_dopel(ctx: &MintDopel, signer: &SystemSigner, amount: u64) -> (result: Result<
    Plan,
    ErrorCode,
>)
    ensures
        outcome(result) == mint_dopel_spec(*ctx, *signer, amount),
{
    if ctx.admin != ctx.cfg.admin {
        return Err(ErrorCode::Unauthorized);
    }
    if !may_mint(signer, &ctx.cfg, &ctx.dopel_mint) {
        return Err(ErrorCode::MintingUnauthorized);
    }
    let mut calls: Vec<LedgerCall> = Vec::new();
    calls.push(
        LedgerCall::MintTo {
            mint: ctx.cfg.dopel_mint,
            to: ctx.to_token.address,
            authority: signer.address(),
            amount,
        },
    );
    let event = Event::Airdrop(Airdrop { to: ctx.to_token.owner, amount });
    let plan = Plan { calls, event };
    assert(plan@.calls =~= mint_dopel_spec(*ctx, *signer, amount)->Ok_0.calls);
    Ok(plan)
}

/// The accounts of a validator's reward.
#[derive(Clone, Copy, Debug, PartialEq, Eq)]
pub struct MintValidatorReward {
    /// The configuration singleton.
    pub cfg: Config,
    /// The managed asset, as the ledger holds it.
    pub dopel_mint: Mint,
    /// The token account that receives the reward.
    pub validator_token_account: TokenAccount,
    /// The validator, who signs the request.
    pub validator: Address,
}

/// What a validator's reward comes to at block `slot` and time `timestamp`.
pub open spec fn mint_validator_reward_spec(
    ctx: MintValidatorReward,
    signer: SystemSigner,
    slot: u64,
    timestamp: i64,
) -> Result<PlanView, ErrorCode> {
    let amount = ctx.cfg.reward_per_block;
    if amount > 0 && !holds_minting_rights(signer, ctx.cfg, ctx.dopel_mint) {
        Err(ErrorCode::MintingUnauthorized)
    } else {
        Ok(
            PlanView {
                calls: mint_of(signer, ctx.cfg.dopel_mint, ctx.validator_token_account, amount),
                event: Event::ValidatorReward(
                    ValidatorReward { validator: ctx.validator, amount, block: slot, timestamp },
                ),
            },
        )
    }
}

/// Plans the reward of one block for a validator, at block `slot` and time
/// `timestamp`.
///
/// The amount is the configured reward per block and nothing the caller
/// says. A reward of zero succeeds without any ledger call. A positive
/// reward is one mint signed by the system signer, and is rejected with
/// `MintingUnauthorized` where the signer has lost the minting rights. The
/// event is `ValidatorReward` either way.
pub fn mint_validator_reward(
    ctx: &MintValidatorReward,
    signer: &SystemSigner,
    slot: u64,
    timestamp: i64,
) -> (result: Result<Plan, ErrorCode>)
    ensures
        outcome(result) == mint_validator_reward_spec(*ctx, *signer, slot, timestamp),
{
    let reward_amount: u64 = ctx.cfg.reward_per_block;
    let mut calls: Vec<LedgerCall> = Vec::new();
    if reward_amount > 0 {
        if !may_mint(signer, &ctx.cfg, &ctx.dopel_mint) {
            return Err(ErrorCode::MintingUnauthorized);
        }
        calls.push(
            LedgerCall::MintTo {
                mint: ctx.cfg.dopel_mint,
                to: ctx.validator_token_account.address,
                authority: signer.address(),
                amount: reward_amount,
            },
        );
    }
    let event = Event::ValidatorReward(
        ValidatorReward {
            validator: ctx.validator,
            amount: reward_amount,
            block: slot,
            timestamp,
        },
    );
    let plan = Plan { calls, event };
    assert(plan@.calls =~= mint_of(
        *signer,
        ctx.cfg.dopel_mint,
        ctx.validator_token_account,
        reward_amount,
    ));
    Ok(plan)
}

/// The accounts of an asset launch.
#[derive(Clone, Copy, Debug, PartialEq, Eq)]
pub struct LaunchToken {
    /// Who pays for the launch.
    pub payer: Address,
    /// The configuration singleton.
    pub cfg: Config,
    /// The address, already allocated, at which the asset is created.
    pub new_mint: Address,
    /// Who receives the initial supply.
    pub recipient: Address,
    /// The token account that receives the initial supply.
    pub recipient_token: TokenAccount,
}

/// Whether the receiving account of a launch is the recipient's account for
/// the new asset.
pub open spec fn recipient_account_matches(ctx: LaunchToken) -> bool {
    ctx.recipient_token.owner == ctx.recipient && ctx.recipient_token.mint == ctx.new_mint
}

/// What an asset launch comes to.
pub open spec fn launch_token_spec(
    ctx: LaunchToken,
    signer: SystemSigner,
    decimals: u8,
    initial_mint_to: u64,
) -> Result<PlanView, ErrorCode> {
    if !recipient_account_matches(ctx) {
        Err(ErrorCode::RecipientAccountMismatch)
    } else {
        Ok(
            PlanView {
                calls: seq![
                    LedgerCall::InitializeMint {
                        mint: ctx.new_mint,
                        decimals,
                        authority: signer.spec_address(),
                    },
                ] + mint_of(signer, ctx.new_mint, ctx.recipient_token, initial_mint_to),
                event: Event::TokenLaunched(
                    TokenLaunched {
                        mint: ctx.new_mint,
                        recipient: ctx.recipient,
                        initial_mint_to,
                        decimals,
                    },
                ),
            },
        )
    }
}

/// Plans the launch of a new asset at `ctx.new_mint`, with the system signer
/// as its minting authority, and the mint of its initial supply.
///
/// The receiving account is checked first: where it does not belong to the
/// recipient, or holds another asset, the launch is rejected with
/// `RecipientAccountMismatch` and nothing is created. Otherwise the plan
/// creates the asset and, where the initial supply is positive, mints it to
/// the recipient; it ends with the `TokenLaunched` event.
pub fn launch_token(
    ctx: &LaunchToken,
    signer: &SystemSigner,
    decimals: u8,
    initial_mint_to: u64,
) -> (result: Result<Plan, ErrorCode>)
    ensures
        outcome(result) == launch_token_spec(*ctx, *signer, decimals, initial_mint_to),
{
    if ctx.recipient_token.owner != ctx.recipient || ctx.recipient_token.mint != ctx.new_mint {
        return Err(ErrorCode::RecipientAccountMismatch);
    }
    let mut calls: Vec<LedgerCall> = Vec::new();
    calls.push(
        LedgerCall::InitializeMint { mint: ctx.new_mint, decimals, authority: signer.address() },
    );
    if initial_mint_to > 0 {
        calls.push(
            LedgerCall::MintTo {
                mint: ctx.new_mint,
                to: ctx.recipient_token.address,
                authority: signer.address(),
                amount: initial_mint_to,
            },
        );
    }
    let event = Event::TokenLaunched(
        TokenLaunched {
            mint: ctx.new_mint,
            recipient: ctx.recipient,
            initial_mint_to,
            decimals,
        },
    );
    let plan = Plan { calls, event };
    assert(plan@.calls =~= launch_token_spec(
        *ctx,
        *signer,
        decimals,
        initial_mint_to,
    )->Ok_0.calls);
    Ok(plan)
}

/// A caller who is not the admin never mints: the request is rejected with
/// `Unauthorized`, whatever else it holds, and asks for no ledger call.
pub proof fn lemma_only_admin_mints(ctx: MintDopel, signer: SystemSigner, amount: u64)
    requires
        ctx.admin != ctx.cfg.admin,
    ensures
        mint_dopel_spec(ctx, signer, amount) == Err::<PlanView, ErrorCode>(
            ErrorCode::Unauthorized,
        ),
{
}

/// A reward of zero always succeeds and never reaches the ledger.
pub proof fn lemma_zero_reward_is_free(
    ctx: MintValidatorReward,
    signer: SystemSigner,
    slot: u64,
    timestamp: i64,
)
    requires
        ctx.cfg.reward_per_block == 0,
    ensures
        mint_validator_reward_spec(ctx, signer, slot, timestamp) matches Ok(plan) && plan.calls.len()
            == 0,
{
}

} // verus!
