//! What a state store keeps for each record.

use crate::ip::IpAddress;
use crate::time::{now, Timestamp};
use vstd::prelude::*;

verus! {

/// The last address applied to a record, and when.
#[derive(Debug, PartialEq, Eq)]
pub struct StateRecord {
    /// The address last applied with success.
    pub last_ip: IpAddress,
    /// When it was applied.
    pub last_updated: Timestamp,
    /// Annotations of the provider: keys with JSON documents, kept as they are.
    pub provider_metadata: Vec<(String, String)>,
}

/// A [`StateRecord`] with its annotations as character sequences.
pub struct StateRecordView {
    pub last_ip: IpAddress,
    pub last_updated: Timestamp,
    pub provider_metadata: Seq<(Seq<char>, Seq<char>)>,
}

impl View for StateRecord {
    type V = StateRecordView;

    open spec fn view(&self) -> StateRecordView {
        StateRecordView {
            last_ip: self.last_ip,
            last_updated: self.last_updated,
            provider_metadata: Seq::new(
                self.provider_metadata@.len(),
                |i: int| (self.provider_metadata@[i].0@, self.provider_metadata@[i].1@),
            ),
        }
    }
}

impl StateRecordView {
    /// Whether more than `max_age_secs` seconds lie between the record's time and `at`.
    pub open spec fn stale_at(self, at: Timestamp, max_age_secs: u64) -> bool {
        at.nanos_since(self.last_updated) > max_age_secs as int * 1_000_000_000
    }
}

impl Clone for StateRecord {
    fn clone(&self) -> (r: StateRecord)
        ensures
            r@ == self@,
            r.last_ip == self.last_ip,
            r.last_updated == self.last_updated,
    {
        let mut metadata: Vec<(String, String)> = Vec::new();
        let n = self.provider_metadata.len();
        let mut i: usize = 0;
        while i < n
            invariant
                n == self.provider_metadata@.len(),
                i <= n,
                metadata@.len() == i,
                forall|j: int|
                    0 <= j < i ==> metadata@[j].0@ == self.provider_metadata@[j].0@
                        && metadata@[j].1@ == self.provider_metadata@[j].1@,
            decreases n - i,
        {
            let entry = &self.provider_metadata[i];
            metadata.push((entry.0.clone(), entry.1.clone()));
            i += 1;
        }
        let r = StateRecord {
            last_ip: self.last_ip,
            last_updated: self.last_updated,
            provider_metadata: metadata,
        };
        assert(r@.provider_metadata =~= self@.provider_metadata);
        r
    }
}

impl StateRecord {
    /// A record for `last_ip`, applied at `at`, without annotations.
    pub fn stamped(last_ip: IpAddress, at: Timestamp) -> (r: StateRecord)
        ensures
            r@ == (StateRecordView { last_ip, last_updated: at, provider_metadata: Seq::empty() }),
    {
        let r = StateRecord { last_ip, last_updated: at, provider_metadata: Vec::new() };
        assert(r@.provider_metadata =~= Seq::empty());
        r
    }

    /// A record for `last_ip`, applied now, without annotations.
    pub fn new(last_ip: IpAddress) -> (r: StateRecord)
        ensures
            r@.last_ip == last_ip,
            r@.provider_metadata == Seq::<(Seq<char>, Seq<char>)>::empty(),
            r@.last_updated.secs >= 0,
            r@.last_updated.nanos < crate::time::NANOS_PER_SEC,
    {
        StateRecord::stamped(last_ip, now())
    }

    /// Whether the record is older than `max_age_secs` seconds at the time `at`.
    pub fn is_stale_at(&self, at: &Timestamp, max_age_secs: u64) -> (r: bool)
        ensures
            r == self@.stale_at(*at, max_age_secs),
    {
        at.more_than_secs_after(&self.last_updated, max_age_secs)
    }

    /// Whether the record is older than `max_age_secs` seconds now.
    ///
    /// The answer is that of [`StateRecord::is_stale_at`] at some reading of the clock.
    pub fn is_stale(&self, max_age_secs: u64) -> (r: bool)
        ensures
            exists|at: Timestamp|
                at.secs >= 0 && at.nanos < crate::time::NANOS_PER_SEC && r == #[trigger] self@.stale_at(
                    at,
                    max_age_secs,
                ),
    {
        let at = now();
        self.is_stale_at(&at, max_age_secs)
    }
}

} // verus!
