//! Integrity of the audit log: every entry carries the hash of its own
//! content and the hash of the entry before it.

use vstd::prelude::*;
use vstd::string::*;
use crate::error::{crypto_error, GovernanceError};
use crate::hashing::{
    json_object_text, json_object_to_text, pairs_view, sha256_hex, sha256_hex_of,
};

verus! {

/// One record of the audit log.
#[derive(Debug, Clone)]
pub struct AuditLogEntry {
    pub job_id: String,
    pub entry_type: String,
    pub governance_id: String,
    pub input_hash: String,
    pub output_hash: String,
    pub previous_log_hash: String,
    pub this_log_hash: String,
    pub metadata: Vec<(String, String)>,
    /// Time of the entry as RFC 3339 text.
    pub timestamp: String,
}

/// The string-valued members that an entry's hash covers, by name.
pub open spec fn entry_fields(entry: AuditLogEntry) -> Seq<(Seq<char>, Seq<char>)> {
    seq![
        ("job_id"@, entry.job_id@),
        ("entry_type"@, entry.entry_type@),
        ("governance_id"@, entry.governance_id@),
        ("input_hash"@, entry.input_hash@),
        ("output_hash"@, entry.output_hash@),
        ("previous_log_hash"@, entry.previous_log_hash@),
        ("timestamp"@, entry.timestamp@),
    ]
}

/// The JSON text that an entry's hash is taken of: all of its content but
/// the hash itself.
pub open spec fn entry_text(entry: AuditLogEntry) -> Seq<char> {
    json_object_text(entry_fields(entry), "metadata"@, pairs_view(entry.metadata@))
}

/// The hash text for a given JSON text: `sha256:` and the digest in
/// hexadecimal.
pub open spec fn hash_text_of(text: Seq<char>) -> Seq<char> {
    "sha256:"@ + sha256_hex_of(text)
}

/// The hash that belongs to an entry's content.
pub open spec fn entry_hash(entry: AuditLogEntry) -> Seq<char> {
    hash_text_of(entry_text(entry))
}

/// The stored hash of an entry is the hash of its content.
pub open spec fn entry_intact(entry: AuditLogEntry) -> bool {
    entry_hash(entry) == entry.this_log_hash@
}

/// Every entry is intact and names the hash of the one before it.
pub open spec fn chain_intact(entries: Seq<AuditLogEntry>) -> bool {
    &&& forall|i: int| 0 <= i < entries.len() ==> entry_intact(#[trigger] entries[i])
    &&& forall|i: int|
        1 <= i < entries.len() ==> (#[trigger] entries[i]).previous_log_hash@ == entries[i
            - 1].this_log_hash@
}

/// The hash text for a given JSON text.
pub fn hash_entry_text(text: &str) -> (hash: String)
    ensures
        hash@ == hash_text_of(text@),
{
    let mut hash = "sha256:".to_owned();
    let digest = sha256_hex(text);
    hash.append(digest.as_str());
    hash
}

fn entry_field_list(entry: &AuditLogEntry) -> (fields: Vec<(String, String)>)
    ensures
        pairs_view(fields@) == entry_fields(*entry),
{
    let mut fields: Vec<(String, String)> = Vec::new();
    fields.push(("job_id".to_owned(), entry.job_id.clone()));
    fields.push(("entry_type".to_owned(), entry.entry_type.clone()));
    fields.push(("governance_id".to_owned(), entry.governance_id.clone()));
    fields.push(("input_hash".to_owned(), entry.input_hash.clone()));
    fields.push(("output_hash".to_owned(), entry.output_hash.clone()));
    fields.push(("previous_log_hash".to_owned(), entry.previous_log_hash.clone()));
    fields.push(("timestamp".to_owned(), entry.timestamp.clone()));
    fields
}

/// Calculates the hash of an entry's content.
pub fn calculate_entry_hash(entry: &AuditLogEntry) -> (result: Result<String, GovernanceError>)
    ensures
        result matches Ok(hash) && hash@ == entry_hash(*entry),
{
    let fields = entry_field_list(entry);
    match json_object_to_text(&fields, "metadata", &entry.metadata) {
        Some(text) => Ok(hash_entry_text(text.as_str())),
        None => Err(crypto_error("Failed to serialize entry")),
    }
}

/// Whether a calculated hash is the one the entry stores.
pub fn hash_matches(entry: &AuditLogEntry, calculated: &String) -> (same: bool)
    ensures
        same == (calculated@ == entry.this_log_hash@),
{
    *calculated == entry.this_log_hash
}

/// Verifies that an entry's stored hash is the hash of its content.
pub fn verify_entry(entry: &AuditLogEntry) -> (result: Result<bool, GovernanceError>)
    ensures
        result == Ok::<bool, GovernanceError>(entry_intact(*entry)),
{
    match calculate_entry_hash(entry) {
        Ok(calculated) => Ok(hash_matches(entry, &calculated)),
        Err(e) => Err(e),
    }
}

/// Verifies a chain of entries: each one intact, each one naming the hash
/// of the one before it. An empty chain is intact.
pub fn verify_hash_chain(entries: &[AuditLogEntry]) -> (result: Result<bool, GovernanceError>)
    ensures
        result == Ok::<bool, GovernanceError>(chain_intact(entries@)),
{
    if entries.len() == 0 {
        return Ok(true);
    }
    let mut i: usize = 0;
    while i < entries.len()
        invariant
            i <= entries.len(),
            forall|k: int| 0 <= k < i ==> entry_intact(#[trigger] entries@[k]),
        decreases entries.len() - i,
    {
        match verify_entry(&entries[i]) {
            Ok(true) => {},
            Ok(false) => {
                return Ok(false);
            },
            Err(e) => {
                return Err(e);
            },
        }
        i = i + 1;
    }
    let mut j: usize = 1;
    while j < entries.len()
        invariant
            1 <= j <= entries.len(),
            forall|k: int|
                1 <= k < j ==> (#[trigger] entries@[k]).previous_log_hash@ == entries@[k
                    - 1].this_log_hash@,
        decreases entries.len() - j,
    {
        if entries[j].previous_log_hash != entries[j - 1].this_log_hash {
            return Ok(false);
        }
        j = j + 1;
    }
    Ok(true)
}

/// Verifies one entry and, where the entry before it is given, the link
/// between the two.
pub fn verify_entry_in_chain(
    entry: &AuditLogEntry,
    previous_entry: Option<&AuditLogEntry>,
) -> (result: Result<bool, GovernanceError>)
    ensures
        result == Ok::<bool, GovernanceError>(
            entry_intact(*entry) && match previous_entry {
                Some(prev) => entry.previous_log_hash@ == prev.this_log_hash@,
                None => true,
            },
        ),
{
    match verify_entry(entry) {
        Ok(true) => {},
        Ok(false) => {
            return Ok(false);
        },
        Err(e) => {
            return Err(e);
        },
    }
    match previous_entry {
        Some(prev) => Ok(entry.previous_log_hash == prev.this_log_hash),
        None => Ok(true),
    }
}

impl AuditLogEntry {
    /// An entry with the given content and time, sealed with the hash of
    /// its content. The time is RFC 3339 text, as the caller read it off
    /// the clock.
    pub fn new(
        job_id: String,
        entry_type: String,
        governance_id: String,
        input_hash: String,
        output_hash: String,
        previous_log_hash: String,
        metadata: Vec<(String, String)>,
        timestamp: String,
    ) -> (entry: AuditLogEntry)
        ensures
            entry.job_id == job_id,
            entry.entry_type == entry_type,
            entry.governance_id == governance_id,
            entry.input_hash == input_hash,
            entry.output_hash == output_hash,
            entry.previous_log_hash == previous_log_hash,
            entry.metadata == metadata,
            entry.timestamp == timestamp,
            entry_intact(entry),
    {
        let mut entry = AuditLogEntry {
            job_id,
            entry_type,
            governance_id,
            input_hash,
            output_hash,
            previous_log_hash,
            this_log_hash: String::new(),
            metadata,
            timestamp,
        };
        let ghost unsealed = entry;
        match calculate_entry_hash(&entry) {
            Ok(hash) => {
                entry.this_log_hash = hash;
            },
            Err(_) => {},
        }
        assert(entry_fields(entry) =~= entry_fields(unsealed));
        entry
    }
}

} // verus!
