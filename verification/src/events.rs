//! The notifications that successful operations append to the event log.

use crate::address::Address;
use vstd::prelude::*;

verus! {

/// A transfer went through, with its fees.
#[derive(Clone, Copy, Debug, PartialEq, Eq)]
pub struct LayerTx {
    pub from: Address,
    pub to: Address,
    pub gross_amount: u64,
    pub net_amount: u64,
    pub fee_challenge: u64,
    pub fee_dev: u64,
    pub fee_liq: u64,
    pub timestamp: i64,
}

/// The admin minted to a wallet.
#[derive(Clone, Copy, Debug, PartialEq, Eq)]
pub struct Airdrop {
    pub to: Address,
    pub amount: u64,
}

/// A participant was bound to an inviter.
#[derive(Clone, Copy, Debug, PartialEq, Eq)]
pub struct Referral {
    pub user: Address,
    pub inviter: Address,
    pub reward_amount: u64,
}

/// A new asset was created.
#[derive(Clone, Copy, Debug, PartialEq, Eq)]
pub struct TokenLaunched {
    pub mint: Address,
    pub recipient: Address,
    pub initial_mint_to: u64,
    pub decimals: u8,
}

/// A validator was paid the reward of a block.
#[derive(Clone, Copy, Debug, PartialEq, Eq)]
pub struct ValidatorReward {
    pub validator: Address,
    pub amount: u64,
    pub block: u64,
    pub timestamp: i64,
}

/// Governance changed the reward paid per block.
#[derive(Clone, Copy, Debug, PartialEq, Eq)]
pub struct ConfigUpdated {
    pub reward_per_block: u64,
}

/// Governance handed the minting rights of the managed asset to someone else.
#[derive(Clone, Copy, Debug, PartialEq, Eq)]
pub struct AuthorityReassigned {
    pub new_authority: Address,
}

/// Any one notification.
#[derive(Clone, Copy, Debug, PartialEq, Eq)]
pub enum Event {
    LayerTx(LayerTx),
    Airdrop(Airdrop),
    Referral(Referral),
    TokenLaunched(TokenLaunched),
    ValidatorReward(ValidatorReward),
    ConfigUpdated(ConfigUpdated),
    AuthorityReassigned(AuthorityReassigned),
}

} // verus!
