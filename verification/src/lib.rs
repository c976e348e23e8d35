//! State-transition rules of a fee-routing token ledger extension.
//!
//! Every operation is a function from plain values (the accounts it reads, the
//! caller, the amounts) to the ledger calls that must be issued and the event
//! that records them. Nothing here talks to the ledger: the caller issues the
//! calls, in order, and reports how each one ended.

pub mod address;
pub mod authority;
pub mod errors;
pub mod events;
pub mod fees;
pub mod governance;
pub mod ledger;
pub mod minting;
pub mod referral;
pub mod state;
pub mod transfer;

pub use crate::address::Address;
pub use crate::authority::{referral_record_address, SystemSigner, CFG_SEED, REF_SEED};
pub use crate::errors::ErrorCode;
pub use crate::events::{
    Airdrop, AuthorityReassigned, ConfigUpdated, Event, LayerTx, Referral, TokenLaunched,
    ValidatorReward,
};
pub use crate::fees::{split_fees, FeeSplit};
pub use crate::governance::{
    initialize, set_mint_authority, update_config, Initialize, SetMintAuthority, UpdateConfig,
};
pub use crate::ledger::{Execution, LedgerCall, Plan, Step};
pub use crate::minting::{
    launch_token, may_mint, mint_dopel, mint_validator_reward, LaunchToken, MintDopel,
    MintValidatorReward,
};
pub use crate::referral::{bind_referral, BindReferral};
pub use crate::state::{Config, Mint, ReferralRecord, TokenAccount};
pub use crate::transfer::{cpi_transfer, transfer_with_fees, TransferWithFees};
