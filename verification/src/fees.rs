//! The fee split of a transfer: 4% to the challenge wallet, 2% to the
//! developer wallet, 2% to the liquidity wallet, the rest to the recipient.

use vstd::prelude::*;

verus! {

/// Percent of a transfer routed to the challenge wallet.
pub const CHALLENGE_FEE_PERCENT: u64 = 4;

/// Percent of a transfer routed to the developer wallet.
pub const DEV_FEE_PERCENT: u64 = 2;

/// Percent of a transfer routed to the liquidity wallet.
pub const LIQUIDITY_FEE_PERCENT: u64 = 2;

/// `percent` hundredths of `amount`, rounded down.
pub open spec fn share(amount: int, percent: int) -> int {
    amount * percent / 100
}

/// What the recipient receives of `amount` once the three fees are taken.
pub open spec fn net_of(amount: int) -> int {
    amount - (share(amount, CHALLENGE_FEE_PERCENT as int) + share(amount, DEV_FEE_PERCENT as int)
        + share(amount, LIQUIDITY_FEE_PERCENT as int))
}

/// The four parts a gross amount is divided into.
#[derive(Clone, Copy, Debug, PartialEq, Eq)]
pub struct FeeSplit {
    pub fee_challenge: u64,
    pub fee_dev: u64,
    pub fee_liq: u64,
    pub net: u64,
}

/// The four parts that `amount` divides into.
pub open spec fn split_of(amount: u64) -> FeeSplit {
    FeeSplit {
        fee_challenge: share(amount as int, CHALLENGE_FEE_PERCENT as int) as u64,
        fee_dev: share(amount as int, DEV_FEE_PERCENT as int) as u64,
        fee_liq: share(amount as int, LIQUIDITY_FEE_PERCENT as int) as u64,
        net: net_of(amount as int) as u64,
    }
}

/// `percent` hundredths of `amount`, rounded down. The product is taken in
/// 128 bits, so it is exact for every amount.
fn percent_of(amount: u64, percent: u64) -> (r: u64)
    requires
        percent <= 100,
    ensures
        r == share(amount as int, percent as int),
        r <= amount,
{
    proof {
        lemma_share_bounds(amount as int, percent as int);
    }
    let wide: u128 = (amount as u128) * (percent as u128);
    let part: u128 = wide / 100;
    part as u64
}

/// A share of at most a hundred percent lies between nothing and the whole,
/// and the product it is taken from stays below a hundred times the whole.
pub proof fn lemma_share_bounds(amount: int, percent: int)
    requires
        0 <= amount,
        0 <= percent <= 100,
    ensures
        0 <= amount * percent <= amount * 100,
        0 <= share(amount, percent) <= amount,
{
    assert(0 <= amount * percent <= amount * 100) by (nonlinear_arith)
        requires
            0 <= amount,
            0 <= percent <= 100,
    ;
}

/// The three fees together never exceed eight percent of the whole, so the
/// net part is never negative and the four parts add up to the gross amount.
pub proof fn lemma_split_conserves(amount: u64)
    ensures
        0 <= share(amount as int, CHALLENGE_FEE_PERCENT as int) <= amount,
        0 <= share(amount as int, DEV_FEE_PERCENT as int) <= amount,
        0 <= share(amount as int, LIQUIDITY_FEE_PERCENT as int) <= amount,
        0 <= net_of(amount as int) <= amount,
        split_of(amount).fee_challenge + split_of(amount).fee_dev + split_of(amount).fee_liq
            + split_of(amount).net == amount,
{
    lemma_share_bounds(amount as int, CHALLENGE_FEE_PERCENT as int);
    lemma_share_bounds(amount as int, DEV_FEE_PERCENT as int);
    lemma_share_bounds(amount as int, LIQUIDITY_FEE_PERCENT as int);
}

/// Amounts under twenty-five units carry no fee at all: each share rounds
/// down to zero and the recipient receives the whole.
pub proof fn lemma_small_amounts_are_free(amount: u64)
    requires
        amount < 25,
    ensures
        split_of(amount) == (FeeSplit { fee_challenge: 0, fee_dev: 0, fee_liq: 0, net: amount }),
{
}

/// Divides `amount` into its three fees and the net part.
pub fn split_fees(amount: u64) -> (s: FeeSplit)
    ensures
        s == split_of(amount),
        s.fee_challenge == amount * 4 / 100,
        s.fee_dev == amount * 2 / 100,
        s.fee_liq == amount * 2 / 100,
        s.net == amount - (s.fee_challenge + s.fee_dev + s.fee_liq),
        s.fee_challenge + s.fee_dev + s.fee_liq + s.net == amount,
{
    proof {
        lemma_split_conserves(amount);
    }
    let fee_challenge = percent_of(amount, CHALLENGE_FEE_PERCENT);
    let fee_dev = percent_of(amount, DEV_FEE_PERCENT);
    let fee_liq = percent_of(amount, LIQUIDITY_FEE_PERCENT);
    let net = amount - fee_challenge - fee_dev - fee_liq;
    FeeSplit { fee_challenge, fee_dev, fee_liq, net }
}

} // verus!
