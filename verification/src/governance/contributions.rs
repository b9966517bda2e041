//! Contributions as they are kept for the record: zaps, forwarded fees,
//! and their totals. Amounts are in satoshis.

use vstd::prelude::*;
use vstd::string::*;
use crate::hashing::{hex_encode, hex_lower};
use crate::text::{occurs_at, starts_with};

verus! {

/// The millisatoshis of a satoshi.
pub const MSATS_PER_SAT: u64 = 1_000;

/// The kind under which a zap is recorded.
pub open spec fn zap_kind(is_proposal_zap: bool) -> Seq<char> {
    if is_proposal_zap {
        "zap:proposal"@
    } else {
        "zap:general"@
    }
}

/// The kind under which a zap is recorded.
pub fn zap_contribution_type(is_proposal_zap: bool) -> (kind: &'static str)
    ensures
        kind@ == zap_kind(is_proposal_zap),
{
    if is_proposal_zap {
        "zap:proposal"
    } else {
        "zap:general"
    }
}

/// A zap as it arrives.
#[derive(Debug)]
pub struct ZapEvent {
    pub sender_pubkey: Option<String>,
    pub amount_msat: u64,
    pub timestamp: i64,
    pub invoice: Option<String>,
    pub message: Option<String>,
    /// The event that was zapped: a proposal.
    pub zapped_event_id: Option<String>,
}

/// A zap as it is recorded.
#[derive(Debug)]
pub struct ZapContribution {
    pub recipient_pubkey: String,
    pub sender_pubkey: Option<String>,
    pub amount_msat: u64,
    /// The amount in satoshis, rounded down.
    pub amount_btc: u64,
    pub timestamp: i64,
    pub message: Option<String>,
    pub zapped_event_id: Option<String>,
    pub is_proposal_zap: bool,
}

/// The record of a zap that arrived for a recipient: the amount in
/// satoshis is the thousandth of the millisatoshis, and the zap is one
/// for a proposal where it names a zapped event.
pub fn process_zap(recipient_pubkey: &str, zap: ZapEvent) -> (record: ZapContribution)
    ensures
        record.recipient_pubkey@ == recipient_pubkey@,
        record.sender_pubkey == zap.sender_pubkey,
        record.amount_msat == zap.amount_msat,
        record.amount_btc == zap.amount_msat / MSATS_PER_SAT,
        record.timestamp == zap.timestamp,
        record.message == zap.message,
        record.zapped_event_id == zap.zapped_event_id,
        record.is_proposal_zap == zap.zapped_event_id is Some,
{
    let is_proposal_zap = zap.zapped_event_id.is_some();
    ZapContribution {
        recipient_pubkey: recipient_pubkey.to_owned(),
        sender_pubkey: zap.sender_pubkey,
        amount_msat: zap.amount_msat,
        amount_btc: zap.amount_msat / MSATS_PER_SAT,
        timestamp: zap.timestamp,
        message: zap.message,
        zapped_event_id: zap.zapped_event_id,
        is_proposal_zap,
    }
}

/// What a contributor brought in a period.
#[derive(Debug, Clone, Copy)]
pub struct ContributorTotal {
    pub zaps_btc: u64,
    pub total_btc: u64,
}

/// What a contributor brought, added up over its contributions.
#[derive(Debug, Clone, Copy)]
pub struct ContributorAggregates {
    pub cumulative_zaps_btc: u64,
    pub total_contribution_btc: u64,
    pub participation_weight: u64,
}

/// The totals of the first `n` rows that are zaps, added up. A row is the
/// kind of a contribution and the total of that kind, nothing for none.
pub open spec fn zap_sum(rows: Seq<(String, Option<u64>)>, n: int) -> int
    decreases n,
{
    if n <= 0 {
        0
    } else {
        zap_sum(rows, n - 1) + if occurs_at(rows[n - 1].0@, "zap:"@, 0) {
            match rows[n - 1].1 {
                Some(total) => total as int,
                None => 0,
            }
        } else {
            0
        }
    }
}

/// A sum, and the largest number where the sum is beyond it.
pub open spec fn held(sum: int) -> u64 {
    if sum <= u64::MAX {
        sum as u64
    } else {
        u64::MAX
    }
}

/// What a contributor brought, from the totals by kind of contribution:
/// the zaps, which are all that counts.
pub fn get_contributor_total(rows: &Vec<(String, Option<u64>)>) -> (total: ContributorTotal)
    ensures
        total.zaps_btc == held(zap_sum(rows@, rows@.len() as int)),
        total.total_btc == total.zaps_btc,
{
    let mut zaps: u64 = 0;
    let mut i: usize = 0;
    while i < rows.len()
        invariant
            i <= rows@.len(),
            zap_sum(rows@, i as int) >= 0,
            zaps == held(zap_sum(rows@, i as int)),
        decreases rows@.len() - i,
    {
        if starts_with(rows[i].0.as_str(), "zap:") {
            let amount: u64 = match rows[i].1 {
                Some(total) => total,
                None => 0,
            };
            zaps = if zaps <= 0xffff_ffff_ffff_ffff - amount {
                zaps + amount
            } else {
                0xffff_ffff_ffff_ffff
            };
        }
        i = i + 1;
    }
    ContributorTotal { zaps_btc: zaps, total_btc: zaps }
}

/// What a contributor brought over all time, with its participation
/// weight, which is zero where none is recorded.
pub fn get_contributor_aggregates(cumulative_zaps_btc: u64, participation_weight: Option<u64>) -> (aggregates:
    ContributorAggregates)
    ensures
        aggregates.cumulative_zaps_btc == cumulative_zaps_btc,
        aggregates.total_contribution_btc == cumulative_zaps_btc,
        aggregates.participation_weight == match participation_weight {
            Some(weight) => weight,
            None => 0,
        },
{
    ContributorAggregates {
        cumulative_zaps_btc,
        total_contribution_btc: cumulative_zaps_btc,
        participation_weight: match participation_weight {
            Some(weight) => weight,
            None => 0,
        },
    }
}

/// The script pays to the hash of a public key: twenty-five bytes, with
/// the hash between the three opening and the two closing codes.
pub open spec fn pays_to_key_hash(script: Seq<u8>) -> bool {
    &&& script.len() == 25
    &&& script[0] == 0x76
    &&& script[1] == 0xa9
    &&& script[2] == 0x14
    &&& script[23] == 0x88
    &&& script[24] == 0xac
}

/// The address that a script pays to: the hash of the public key in
/// hexadecimal, nothing for a script of another form.
pub fn decode_address_from_script(script_pubkey: &[u8]) -> (address: Option<String>)
    ensures
        match address {
            Some(text) => pays_to_key_hash(script_pubkey@) && text@ == hex_lower(
                script_pubkey@.subrange(3, 23),
            ),
            None => !pays_to_key_hash(script_pubkey@),
        },
{
    if script_pubkey.len() == 25 && script_pubkey[0] == 0x76 && script_pubkey[1] == 0xa9
        && script_pubkey[2] == 0x14 && script_pubkey[23] == 0x88 && script_pubkey[24] == 0xac {
        let mut hash: Vec<u8> = Vec::new();
        let mut i: usize = 3;
        while i < 23
            invariant
                3 <= i <= 23,
                script_pubkey@.len() == 25,
                hash@ == script_pubkey@.subrange(3, i as int),
            decreases 23 - i,
        {
            hash.push(script_pubkey[i]);
            i = i + 1;
        }
        Some(hex_encode(hash.as_slice()))
    } else {
        None
    }
}

/// An output of a transaction.
#[derive(Debug)]
pub struct TransactionOutput {
    /// The amount, in satoshis.
    pub value: u64,
    pub script_pubkey: Vec<u8>,
}

/// A forwarded fee as it is recorded.
#[derive(Debug)]
pub struct FeeForwardingContribution {
    pub contributor_id: String,
    pub tx_hash: String,
    pub block_height: i32,
    /// The amount, in satoshis.
    pub amount_btc: u64,
    pub commons_address: String,
    pub timestamp: i64,
}

/// Whether one of the addresses is the given one.
pub fn is_commons_address(commons_addresses: &Vec<String>, address: &String) -> (found: bool)
    ensures
        found == exists|i: int|
            0 <= i < commons_addresses@.len() && (#[trigger] commons_addresses@[i])@ == address@,
{
    let mut i: usize = 0;
    while i < commons_addresses.len()
        invariant
            i <= commons_addresses@.len(),
            forall|k: int| 0 <= k < i ==> (#[trigger] commons_addresses@[k])@ != address@,
        decreases commons_addresses@.len() - i,
    {
        if commons_addresses[i] == *address {
            return true;
        }
        i = i + 1;
    }
    false
}

/// The forwarded fee that an output stands for: the output pays to one of
/// the given addresses. Nothing for any other output.
pub fn fee_forwarded_by(
    commons_addresses: &Vec<String>,
    output: &TransactionOutput,
    contributor_id: &str,
    tx_hash: &str,
    block_height: i32,
    now: i64,
) -> (contribution: Option<FeeForwardingContribution>)
    ensures
        match contribution {
            Some(c) => {
                &&& pays_to_key_hash(output.script_pubkey@)
                &&& c.commons_address@ == hex_lower(output.script_pubkey@.subrange(3, 23))
                &&& exists|i: int|
                    0 <= i < commons_addresses@.len() && (#[trigger] commons_addresses@[i])@
                        == c.commons_address@
                &&& c.amount_btc == output.value
                &&& c.contributor_id@ == contributor_id@
                &&& c.tx_hash@ == tx_hash@
                &&& c.block_height == block_height
                &&& c.timestamp == now
            },
            None => !pays_to_key_hash(output.script_pubkey@) || forall|i: int|
                0 <= i < commons_addresses@.len() ==> (#[trigger] commons_addresses@[i])@
                    != hex_lower(output.script_pubkey@.subrange(3, 23)),
        },
{
    match decode_address_from_script(output.script_pubkey.as_slice()) {
        Some(address) => {
            if is_commons_address(commons_addresses, &address) {
                Some(
                    FeeForwardingContribution {
                        contributor_id: contributor_id.to_owned(),
                        tx_hash: tx_hash.to_owned(),
                        block_height,
                        amount_btc: output.value,
                        commons_address: address,
                        timestamp: now,
                    },
                )
            } else {
                None
            }
        },
        None => None,
    }
}

} // verus!
