//! The weight of a node's voice, calculated from its evidence.
//!
//! Weights are fixed-point numbers in hundred-millionths: the weight one
//! is 100 000 000. Every division rounds down.

use vstd::prelude::*;
use crate::economic_nodes::types::{CommonsContributorProof, DollarSalesProof};
use crate::governance::config_value::FIXED_ONE;

verus! {

/// The holdings, in bitcoin, that give a custodian or an exchange the
/// full holdings share.
pub const FULL_HOLDINGS_BTC: u64 = 10_000;

/// The holdings, in bitcoin, that give a major holder the full weight.
pub const FULL_MAJOR_HOLDINGS_BTC: u64 = 5_000;

/// The daily volume, in bitcoin, that gives an exchange the full volume
/// share.
pub const FULL_DAILY_VOLUME_BTC: u64 = 100;

/// The price of a bitcoin where no moving average is at hand: fifty
/// thousand dollars, in hundred-millionths of a dollar.
pub const DEFAULT_BTC_PRICE: u64 = 5_000_000_000_000;

/// The contribution, in satoshis, that gives a contributor the weight one
/// where nothing is configured.
pub const DEFAULT_NORMALIZATION: u64 = 100_000_000;

/// The least weight of a contributor where nothing is configured: one
/// hundredth.
pub const DEFAULT_MINIMUM_WEIGHT: u64 = 1_000_000;

/// `root` is the whole square root of `n`.
pub open spec fn is_sqrt(n: nat, root: nat) -> bool {
    root * root <= n < (root + 1) * (root + 1)
}

/// The whole square root of `n`.
pub open spec fn sqrt_of(n: nat) -> nat {
    choose|root: nat| is_sqrt(n, root)
}

/// A number has at most one whole square root.
pub proof fn lemma_sqrt_unique(n: nat, a: nat, b: nat)
    requires
        is_sqrt(n, a),
        is_sqrt(n, b),
    ensures
        a == b,
{
    if a < b {
        assert((a + 1) * (a + 1) <= b * b) by (nonlinear_arith)
            requires
                a + 1 <= b,
        ;
    } else if b < a {
        assert((b + 1) * (b + 1) <= a * a) by (nonlinear_arith)
            requires
                b + 1 <= a,
        ;
    }
}

/// The whole square root of a number.
pub fn integer_sqrt(n: u128) -> (root: u128)
    ensures
        is_sqrt(n as nat, root as nat),
        root == sqrt_of(n as nat),
        root <= u64::MAX,
{
    let mut low: u128 = 0;
    let mut high: u128 = 0x1_0000_0000_0000_0000;
    assert(0x1_0000_0000_0000_0000int * 0x1_0000_0000_0000_0000int > u128::MAX) by (nonlinear_arith);
    while high - low > 1
        invariant
            low < high <= 0x1_0000_0000_0000_0000,
            low * low <= n < high * high,
        decreases high - low,
    {
        let mid: u128 = low + (high - low) / 2;
        assert(mid * mid <= 0xffff_ffff_ffff_ffff * 0xffff_ffff_ffff_ffff) by (nonlinear_arith)
            requires
                0 <= mid <= 0xffff_ffff_ffff_ffff,
        ;
        assert(0xffff_ffff_ffff_ffffint * 0xffff_ffff_ffff_ffffint <= u128::MAX) by (nonlinear_arith);
        if mid * mid <= n {
            low = mid;
        } else {
            high = mid;
        }
    }
    proof {
        assert(high == low + 1);
        lemma_sqrt_unique(n as nat, low as nat, sqrt_of(n as nat));
    }
    low
}

/// The smaller of two numbers.
pub open spec fn least(a: int, b: int) -> int {
    if a <= b {
        a
    } else {
        b
    }
}

/// The larger of two numbers.
pub open spec fn greatest(a: int, b: int) -> int {
    if a >= b {
        a
    } else {
        b
    }
}

/// The weight of a mining pool: its share of the hashpower, which is the
/// percentage by a hundred, and no more than the cap where there is one.
pub open spec fn mining_pool_weight(percentage: u64, cap: Option<u64>) -> int {
    match cap {
        Some(c) => least(percentage as int / 100, c as int),
        None => percentage as int / 100,
    }
}

/// The share that an amount is of a full amount given in bitcoin, and no
/// more than one.
pub open spec fn capped_share(amount_sats: u64, full_btc: u64) -> int {
    least(amount_sats as int / full_btc as int, FIXED_ONE as int)
}

/// The weight of an exchange: seven tenths of its holdings share and
/// three tenths of its volume share.
pub open spec fn exchange_weight(holdings_sats: u64, daily_volume_sats: u64) -> int {
    capped_share(holdings_sats, FULL_HOLDINGS_BTC) * 7 / 10 + capped_share(
        daily_volume_sats,
        FULL_DAILY_VOLUME_BTC,
    ) * 3 / 10
}

/// A dollar amount in satoshis at a price: nothing at the price zero, and
/// no more than the largest amount that can be held.
pub open spec fn dollars_to_sats(usd: u64, price: u64) -> int {
    if price == 0 {
        0
    } else {
        least(usd as int * FIXED_ONE as int / price as int, u64::MAX as int)
    }
}

/// The sales of a dollar proof in satoshis, nothing where there is none.
pub open spec fn dollar_part(evidence: Option<DollarSalesProof>, price: u64) -> int {
    match evidence {
        Some(p) => dollars_to_sats(p.total_sales_usd, price),
        None => 0,
    }
}

/// Everything a contributor brought, in satoshis: merge-mining revenue,
/// forwarded fees, zaps and marketplace sales, and the treasury and
/// service sales at the given price of a bitcoin.
pub open spec fn total_contribution(evidence: CommonsContributorProof, price: u64) -> int {
    (match evidence.merge_mining_proof {
        Some(p) => p.total_revenue_btc as int,
        None => 0,
    }) + (match evidence.fee_forwarding_proof {
        Some(p) => p.total_fees_forwarded_btc as int,
        None => 0,
    }) + (match evidence.zap_proof {
        Some(p) => p.total_zaps_btc as int,
        None => 0,
    }) + (match evidence.marketplace_sales_proof {
        Some(p) => p.total_sales_btc as int,
        None => 0,
    }) + dollar_part(evidence.treasury_sales_proof, price) + dollar_part(
        evidence.service_sales_proof,
        price,
    )
}

/// The weight that a contribution gives before the least weight is
/// looked at: the square root of the contribution by the normalization
/// factor. With the factor zero the weight is zero for no contribution
/// and the largest number for any other.
pub open spec fn quadratic_weight(total_sats: int, normalization: u64) -> int {
    if normalization == 0 {
        if total_sats == 0 {
            0
        } else {
            u64::MAX as int
        }
    } else {
        sqrt_of((total_sats * FIXED_ONE as int * FIXED_ONE as int / normalization as int) as nat) as int
    }
}

/// The weight of a community contributor: the quadratic weight of all it
/// brought, and no less than the least weight.
pub open spec fn commons_weight(
    evidence: CommonsContributorProof,
    price: u64,
    normalization: u64,
    minimum_weight: u64,
) -> int {
    greatest(quadratic_weight(total_contribution(evidence, price), normalization), minimum_weight as int)
}

/// The weight of a mining pool.
pub fn calculate_mining_pool_weight(percentage: u64, cap: Option<u64>) -> (weight: u64)
    ensures
        weight == mining_pool_weight(percentage, cap),
{
    let base: u64 = percentage / 100;
    match cap {
        Some(c) => if base <= c {
            base
        } else {
            c
        },
        None => base,
    }
}

/// The share that an amount is of a full amount given in bitcoin.
pub(crate) fn calculate_capped_share(amount_sats: u64, full_btc: u64) -> (share: u64)
    requires
        full_btc > 0,
    ensures
        share == capped_share(amount_sats, full_btc),
        share <= FIXED_ONE,
{
    let share: u64 = amount_sats / full_btc;
    if share <= FIXED_ONE {
        share
    } else {
        FIXED_ONE
    }
}

/// The weight of an exchange.
pub fn calculate_exchange_weight(holdings_sats: u64, daily_volume_sats: u64) -> (weight: u64)
    ensures
        weight == exchange_weight(holdings_sats, daily_volume_sats),
        weight <= FIXED_ONE,
{
    let holdings = calculate_capped_share(holdings_sats, FULL_HOLDINGS_BTC);
    let volume = calculate_capped_share(daily_volume_sats, FULL_DAILY_VOLUME_BTC);
    holdings * 7 / 10 + volume * 3 / 10
}

/// A dollar amount in satoshis at a price.
pub fn convert_dollars_to_sats(usd: u64, price: u64) -> (sats: u64)
    ensures
        sats == dollars_to_sats(usd, price),
{
    if price == 0 {
        0
    } else {
        let wide: u128 = (usd as u128) * 100_000_000u128;
        let sats: u128 = wide / (price as u128);
        if sats <= 0xffff_ffff_ffff_ffff {
            sats as u64
        } else {
            0xffff_ffff_ffff_ffff
        }
    }
}

fn dollar_part_of(evidence: &Option<DollarSalesProof>, price: u64) -> (sats: u64)
    ensures
        sats == dollar_part(*evidence, price),
{
    match evidence {
        Some(p) => convert_dollars_to_sats(p.total_sales_usd, price),
        None => 0,
    }
}

/// Everything a contributor brought, in satoshis.
pub fn calculate_total_contribution(evidence: &CommonsContributorProof, price: u64) -> (total: u128)
    ensures
        total == total_contribution(*evidence, price),
        total <= 6 * u64::MAX,
{
    let merge: u128 = match &evidence.merge_mining_proof {
        Some(p) => p.total_revenue_btc as u128,
        None => 0,
    };
    let fees: u128 = match &evidence.fee_forwarding_proof {
        Some(p) => p.total_fees_forwarded_btc as u128,
        None => 0,
    };
    let zaps: u128 = match &evidence.zap_proof {
        Some(p) => p.total_zaps_btc as u128,
        None => 0,
    };
    let sales: u128 = match &evidence.marketplace_sales_proof {
        Some(p) => p.total_sales_btc as u128,
        None => 0,
    };
    let treasury = dollar_part_of(&evidence.treasury_sales_proof, price) as u128;
    let services = dollar_part_of(&evidence.service_sales_proof, price) as u128;
    merge + fees + zaps + sales + treasury + services
}

fn quadratic_weight_of(total_sats: u128, normalization: u64) -> (weight: u64)
    requires
        total_sats <= 6 * u64::MAX,
    ensures
        weight == quadratic_weight(total_sats as int, normalization),
{
    if normalization == 0 {
        if total_sats == 0 {
            0
        } else {
            0xffff_ffff_ffff_ffff
        }
    } else {
        let scaled: u128 = total_sats * 10_000_000_000_000_000u128;
        assert(total_sats as int * FIXED_ONE as int * FIXED_ONE as int == scaled) by (nonlinear_arith)
            requires
                scaled == total_sats as int * 10_000_000_000_000_000,
                FIXED_ONE == 100_000_000,
        ;
        let root = integer_sqrt(scaled / (normalization as u128));
        root as u64
    }
}

/// The weight of a community contributor.
pub fn calculate_commons_weight(
    evidence: &CommonsContributorProof,
    price: u64,
    normalization: u64,
    minimum_weight: u64,
) -> (weight: u64)
    ensures
        weight == commons_weight(*evidence, price, normalization, minimum_weight),
{
    let total = calculate_total_contribution(evidence, price);
    let weight = quadratic_weight_of(total, normalization);
    if weight >= minimum_weight {
        weight
    } else {
        minimum_weight
    }
}

} // verus!
