//! Remembering which messages were handled, so that none is handled
//! twice.
//!
//! A message counts as seen for a time after it was handled. Two layers
//! remember it: a cache in memory and a store that outlives the process.

use vstd::prelude::*;
use vstd::string::*;
use crate::collections::{times_kept, StringMap};
use crate::error::GovernanceError;

verus! {

/// How long a message counts as seen, in seconds, unless told otherwise:
/// one day.
pub const DEFAULT_DEDUP_TTL: i64 = 86_400;

/// A message handled at `seen` still counts as seen at `now`.
pub open spec fn still_seen(seen: i64, now: i64, ttl: i64) -> bool {
    now - seen < ttl
}

/// The deduplicator as mathematical data.
pub struct DedupView {
    /// When each message in the cache was handled.
    pub cache: Map<Seq<char>, i64>,
    /// When each message in the store was handled.
    pub store: Map<Seq<char>, i64>,
    /// How long a message counts as seen, in seconds.
    pub ttl: i64,
}

impl DedupView {
    /// Whether a message counts as seen at `now`: one of the two layers
    /// remembers it from not too long ago.
    pub open spec fn is_duplicate(self, message_id: Seq<char>, now: i64) -> bool {
        (self.cache.contains_key(message_id) && still_seen(self.cache[message_id], now, self.ttl))
            || (self.store.contains_key(message_id) && still_seen(
            self.store[message_id],
            now,
            self.ttl,
        ))
    }

    /// The deduplicator after a message was handled at `now`.
    pub open spec fn marked(self, message_id: Seq<char>, now: i64) -> DedupView {
        DedupView {
            cache: self.cache.insert(message_id, now),
            store: self.store.insert(message_id, now),
            ..self
        }
    }

    /// The deduplicator after a cleanup at `now`: the cache keeps what
    /// was handled less than the time to live ago, and the store what was
    /// handled no longer ago than that.
    pub open spec fn cleaned(self, now: i64) -> DedupView {
        DedupView {
            cache: times_kept(self.cache, now - self.ttl, false),
            store: times_kept(self.store, now - self.ttl, true),
            ..self
        }
    }
}

/// Remembers which messages were handled.
pub struct MessageDeduplicator {
    /// The messages handled lately.
    pub cache: StringMap<i64>,
    /// The messages in the store that outlives the process.
    pub store: StringMap<i64>,
    /// How long a message counts as seen, in seconds.
    pub ttl: i64,
}

impl View for MessageDeduplicator {
    type V = DedupView;

    open spec fn view(&self) -> DedupView {
        DedupView { cache: self.cache@, store: self.store@, ttl: self.ttl }
    }
}

impl MessageDeduplicator {
    /// A deduplicator that remembers nothing yet and keeps a message for
    /// a day.
    pub fn new() -> (dedup: MessageDeduplicator)
        ensures
            dedup@.cache == Map::<Seq<char>, i64>::empty(),
            dedup@.store == Map::<Seq<char>, i64>::empty(),
            dedup@.ttl == DEFAULT_DEDUP_TTL,
    {
        MessageDeduplicator {
            cache: StringMap::new(),
            store: StringMap::new(),
            ttl: DEFAULT_DEDUP_TTL,
        }
    }

    /// A deduplicator that remembers nothing yet and keeps a message for
    /// the given time.
    pub fn with_ttl(ttl: i64) -> (dedup: MessageDeduplicator)
        ensures
            dedup@.cache == Map::<Seq<char>, i64>::empty(),
            dedup@.store == Map::<Seq<char>, i64>::empty(),
            dedup@.ttl == ttl,
    {
        MessageDeduplicator { cache: StringMap::new(), store: StringMap::new(), ttl }
    }

    fn seen_in(layer: &StringMap<i64>, message_id: &str, now: i64, ttl: i64) -> (seen: bool)
        ensures
            seen == (layer@.contains_key(message_id@) && still_seen(layer@[message_id@], now, ttl)),
    {
        match layer.get(message_id) {
            Some(handled) => (now as i128) - (*handled as i128) < (ttl as i128),
            None => false,
        }
    }

    /// Whether a message counts as seen at `now`.
    pub fn is_duplicate(&self, message_id: &str, now: i64) -> (result: Result<bool, GovernanceError>)
        ensures
            result == Ok::<bool, GovernanceError>(self@.is_duplicate(message_id@, now)),
    {
        if MessageDeduplicator::seen_in(&self.cache, message_id, now, self.ttl) {
            return Ok(true);
        }
        Ok(MessageDeduplicator::seen_in(&self.store, message_id, now, self.ttl))
    }

    /// Remembers in both layers that a message was handled at `now`.
    pub fn mark_processed(&mut self, message_id: &str, now: i64) -> (result: Result<
        (),
        GovernanceError,
    >)
        ensures
            result is Ok,
            final(self)@ == old(self)@.marked(message_id@, now),
    {
        self.cache.insert(message_id, now);
        self.store.insert(message_id, now);
        Ok(())
    }

    /// Forgets in both layers what was handled too long ago.
    pub fn cleanup(&mut self, now: i64) -> (result: Result<(), GovernanceError>)
        ensures
            result is Ok,
            final(self)@ == old(self)@.cleaned(now),
    {
        let cutoff: i128 = (now as i128) - (self.ttl as i128);
        self.cache.retain_times(cutoff, false);
        self.store.retain_times(cutoff, true);
        Ok(())
    }
}

/// A message that was just handled counts as seen, and after a cleanup
/// that comes later than the time to live it is forgotten in both layers
/// and does not count as seen.
pub proof fn law_marked_then_forgotten(
    dedup: DedupView,
    message_id: Seq<char>,
    now: i64,
    later: i64,
)
    requires
        dedup.ttl > 0,
        later - now > dedup.ttl,
    ensures
        dedup.marked(message_id, now).is_duplicate(message_id, now),
        !dedup.marked(message_id, now).cleaned(later).cache.contains_key(message_id),
        !dedup.marked(message_id, now).cleaned(later).store.contains_key(message_id),
        !dedup.marked(message_id, now).cleaned(later).is_duplicate(message_id, later),
{
}

} // verus!
