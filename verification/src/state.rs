//! The records the program keeps, and the ledger accounts it reads.

use crate::address::Address;
use vstd::prelude::*;

verus! {

/// The configuration singleton: the managed asset, where its fees go, who may
/// mint and who may govern. There is one per program, at the system signer's
/// address.
///
/// Both roles are always filled: they are addresses, not options.
#[derive(Clone, Copy, Debug, PartialEq, Eq)]
pub struct Config {
    /// Who may mint on demand.
    pub admin: Address,
    /// The managed asset.
    pub dopel_mint: Address,
    /// Wallet that receives the challenge fee.
    pub challenge_wallet: Address,
    /// Wallet that receives the developer fee.
    pub dev_wallet: Address,
    /// Wallet that receives the liquidity fee.
    pub liq_wallet: Address,
    /// Units minted to a validator per block.
    pub reward_per_block: u64,
    /// Who may change the reward and hand over the minting rights.
    pub governance: Address,
}

/// The referral record of one participant. It starts unbound, is bound once,
/// and never changes afterwards.
#[derive(Clone, Copy, Debug, PartialEq, Eq)]
pub struct ReferralRecord {
    /// Whether the participant has an inviter.
    pub bound: bool,
    /// The participant.
    pub user: Address,
    /// Who invited the participant.
    pub inviter: Address,
}

/// What the program reads of a token account on the ledger.
#[derive(Clone, Copy, Debug, PartialEq, Eq)]
pub struct TokenAccount {
    /// Where the account lives.
    pub address: Address,
    /// The asset it holds.
    pub mint: Address,
    /// The wallet it belongs to.
    pub owner: Address,
}

/// What the program reads of an asset on the ledger.
#[derive(Clone, Copy, Debug, PartialEq, Eq)]
pub struct Mint {
    /// Where the asset lives.
    pub address: Address,
    /// Who may mint it, if anyone.
    pub mint_authority: Option<Address>,
}

} // verus!
