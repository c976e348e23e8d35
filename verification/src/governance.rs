//! The configuration singleton: its creation, and the two operations that
//! only governance may perform.

use crate::address::Address;
use crate::authority::SystemSigner;
use crate::errors::ErrorCode;
use crate::events::{AuthorityReassigned, ConfigUpdated, Event};
use crate::ledger::{outcome, LedgerCall, Plan, PlanView};
use crate::minting::{holds_minting_rights, may_mint};
use crate::state::{Config, Mint};
use vstd::prelude::*;

verus! {

/// The accounts of the initialization.
#[derive(Clone, Copy, Debug, PartialEq, Eq)]
pub struct Initialize {
    /// The caller, who becomes admin and governance.
    pub admin: Address,
    /// The configuration singleton, or `None` where none exists yet.
    pub cfg: Option<Config>,
}

/// The configuration that an initialization by `admin` creates.
pub open spec fn initial_config(
    admin: Address,
    dopel_mint: Address,
    challenge_wallet: Address,
    dev_wallet: Address,
    liq_wallet: Address,
) -> Config {
    Config {
        admin,
        dopel_mint,
        challenge_wallet,
        dev_wallet,
        liq_wallet,
        reward_per_block: 0,
        governance: admin,
    }
}

/// Creates the configuration singleton.
///
/// Where one exists already the call is rejected with `AlreadyInitialized`
/// and `ctx` stays as it was. Otherwise the caller becomes both admin and
/// governance, the asset and the three fee wallets are recorded, and the
/// reward per block starts at zero.
///
/// `_bump_cfg` is not read: the singleton's bump seed is derived, never taken
/// from a caller.
pub fn initialize(
    ctx: &mut Initialize,
    _bump_cfg: u8,
    dopel_mint: Address,
    challenge_wallet: Address,
    dev_wallet: Address,
    liq_wallet: Address,
) -> (result: Result<(), ErrorCode>)
    ensures
        final(ctx).admin == old(ctx).admin,
        old(ctx).cfg is Some ==> result == Err::<(), ErrorCode>(ErrorCode::AlreadyInitialized)
            && *final(ctx) == *old(ctx),
        old(ctx).cfg is None ==> result is Ok && final(ctx).cfg == Some(
            initial_config(old(ctx).admin, dopel_mint, challenge_wallet, dev_wallet, liq_wallet),
        ),
{
    if ctx.cfg.is_some() {
        return Err(ErrorCode::AlreadyInitialized);
    }
    ctx.cfg = Some(
        Config {
            admin: ctx.admin,
            dopel_mint,
            challenge_wallet,
            dev_wallet,
            liq_wallet,
            reward_per_block: 0,
            governance: ctx.admin,
        },
    );
    Ok(())
}

/// The accounts of a change of the reward.
#[derive(Clone, Copy, Debug, PartialEq, Eq)]
pub struct UpdateConfig {
    /// The configuration singleton.
    pub cfg: Config,
    /// The caller.
    pub governance: Address,
}

/// What a change of the reward to `new_reward` comes to.
pub open spec fn update_config_spec(ctx: UpdateConfig, new_reward: u64) -> Result<
    PlanView,
    ErrorCode,
> {
    if ctx.governance != ctx.cfg.governance {
        Err(ErrorCode::Unauthorized)
    } else {
        Ok(
            PlanView {
                calls: Seq::empty(),
                event: Event::ConfigUpdated(ConfigUpdated { reward_per_block: new_reward }),
            },
        )
    }
}

/// The configuration after a change of the reward was asked for.
pub open spec fn config_after(ctx: UpdateConfig, new_reward: u64) -> Config {
    if ctx.governance == ctx.cfg.governance {
        Config { reward_per_block: new_reward, ..ctx.cfg }
    } else {
        ctx.cfg
    }
}

/// Sets the reward paid per block to `new_reward`.
///
/// Only governance may ask for it: any other caller is rejected with
/// `Unauthorized` and `ctx` stays as it was. For governance the reward is
/// replaced and nothing else in the configuration changes; the plan asks
/// nothing of the ledger and ends with the `ConfigUpdated` event.
pub fn update_config(ctx: &mut UpdateConfig, new_reward: u64) -> (result: Result<Plan, ErrorCode>)
    ensures
        outcome(result) == update_config_spec(*old(ctx), new_reward),
        final(ctx).cfg == config_after(*old(ctx), new_reward),
        final(ctx).governance == old(ctx).governance,
        result is Err ==> *final(ctx) == *old(ctx),
{
    if ctx.governance != ctx.cfg.governance {
        return Err(ErrorCode::Unauthorized);
    }
    ctx.cfg.reward_per_block = new_reward;
    let calls: Vec<LedgerCall> = Vec::new();
    let event = Event::ConfigUpdated(ConfigUpdated { reward_per_block: new_reward });
    let plan = Plan { calls, event };
    assert(plan@.calls =~= Seq::<LedgerCall>::empty());
    Ok(plan)
}

/// The accounts of a handover of the minting rights.
#[derive(Clone, Copy, Debug, PartialEq, Eq)]
pub struct SetMintAuthority {
    /// The configuration singleton.
    pub cfg: Config,
    /// The caller.
    pub governance: Address,
    /// The managed asset, as the ledger holds it.
    pub dopel_mint: Mint,
    /// Who receives the minting rights.
    pub new_mint_authority: Address,
}

/// What a handover of the minting rights comes to.
pub open spec fn set_mint_authority_spec(ctx: SetMintAuthority, signer: SystemSigner) -> Result<
    PlanView,
    ErrorCode,
> {
    if ctx.governance != ctx.cfg.governance {
        Err(ErrorCode::Unauthorized)
    } else if !holds_minting_rights(signer, ctx.cfg, ctx.dopel_mint) {
        Err(ErrorCode::MintingUnauthorized)
    } else {
        Ok(
            PlanView {
                calls: seq![
                    LedgerCall::SetMintAuthority {
                        mint: ctx.cfg.dopel_mint,
                        current_authority: signer.spec_address(),
                        new_authority: ctx.new_mint_authority,
                    },
                ],
                event: Event::AuthorityReassigned(
                    AuthorityReassigned { new_authority: ctx.new_mint_authority },
                ),
            },
        )
    }
}

/// Plans the handover of the managed asset's minting rights from the system
/// signer to `ctx.new_mint_authority`.
///
/// Only governance may ask for it: any other caller is rejected with
/// `Unauthorized`. Governance is rejected with `MintingUnauthorized` where
/// the system signer has no rights left to hand over. Otherwise the plan is
/// one call, signed by the system signer.
///
/// The handover is one-way. Once it has gone through the program can mint
/// the asset no more: every later mint is rejected with
/// `MintingUnauthorized` until the new authority hands the rights back.
pub fn set_mint_authority(ctx: &SetMintAuthority, signer: &SystemSigner) -> (result: Result<
    Plan,
    ErrorCode,
>)
    ensures
        outcome(result) == set_mint_authority_spec(*ctx, *signer),
{
    if ctx.governance != ctx.cfg.governance {
        return Err(ErrorCode::Unauthorized);
    }
    if !may_mint(signer, &ctx.cfg, &ctx.dopel_mint) {
        return Err(ErrorCode::MintingUnauthorized);
    }
    let mut calls: Vec<LedgerCall> = Vec::new();
    calls.push(
        LedgerCall::SetMintAuthority {
            mint: ctx.cfg.dopel_mint,
            current_authority: signer.address(),
            new_authority: ctx.new_mint_authority,
        },
    );
    let event = Event::AuthorityReassigned(
        AuthorityReassigned { new_authority: ctx.new_mint_authority },
    );
    let plan = Plan { calls, event };
    assert(plan@.calls =~= set_mint_authority_spec(*ctx, *signer)->Ok_0.calls);
    Ok(plan)
}

/// The ledger's record of an asset once `new_authority` holds its minting
/// rights.
pub open spec fn mint_after_handover(mint: Mint, new_authority: Address) -> Mint {
    Mint { mint_authority: Some(new_authority), ..mint }
}

/// Only governance governs: a change of the reward or a handover of the
/// minting rights asked for by anyone else is rejected with `Unauthorized`,
/// and the configuration stays as it was.
pub proof fn lemma_only_governance_governs(
    update: UpdateConfig,
    new_reward: u64,
    handover: SetMintAuthority,
    signer: SystemSigner,
)
    ensures
        update.governance != update.cfg.governance ==> {
            &&& update_config_spec(update, new_reward) == Err::<PlanView, ErrorCode>(
                ErrorCode::Unauthorized,
            )
            &&& config_after(update, new_reward) == update.cfg
        },
        handover.governance != handover.cfg.governance ==> set_mint_authority_spec(
            handover,
            signer,
        ) == Err::<PlanView, ErrorCode>(ErrorCode::Unauthorized),
{
}

/// A change of the reward changes the reward and nothing else: the roles,
/// the asset and the fee wallets stay.
pub proof fn lemma_update_keeps_roles(ctx: UpdateConfig, new_reward: u64)
    ensures
        config_after(ctx, new_reward).admin == ctx.cfg.admin,
        config_after(ctx, new_reward).governance == ctx.cfg.governance,
        config_after(ctx, new_reward).dopel_mint == ctx.cfg.dopel_mint,
        config_after(ctx, new_reward).challenge_wallet == ctx.cfg.challenge_wallet,
        config_after(ctx, new_reward).dev_wallet == ctx.cfg.dev_wallet,
        config_after(ctx, new_reward).liq_wallet == ctx.cfg.liq_wallet,
{
}

/// After a handover to anyone but the system signer itself, the signer holds
/// the minting rights no more.
pub proof fn lemma_handover_is_one_way(ctx: SetMintAuthority, signer: SystemSigner)
    requires
        set_mint_authority_spec(ctx, signer) is Ok,
        ctx.new_mint_authority != signer.spec_address(),
    ensures
        !holds_minting_rights(
            signer,
            ctx.cfg,
            mint_after_handover(ctx.dopel_mint, ctx.new_mint_authority),
        ),
{
}

} // verus!
