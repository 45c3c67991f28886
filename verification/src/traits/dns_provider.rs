//! What a DNS provider answers.

use crate::ip::IpAddress;
use vstd::prelude::*;

verus! {

/// The outcome of one successful `update_record` call.
#[derive(Clone, Copy, Debug, PartialEq, Eq, Structural)]
pub enum UpdateResult {
    /// The record existed with another address and now holds `new_ip`.
    Updated {
        /// The address the record held before, where the provider knows it.
        previous_ip: Option<IpAddress>,
        /// The address the record holds now.
        new_ip: IpAddress,
    },
    /// The record already held the address; nothing was changed.
    Unchanged {
        /// The address the record holds.
        current_ip: IpAddress,
    },
    /// The record did not exist and was created with `new_ip`.
    Created {
        /// The address the record holds now.
        new_ip: IpAddress,
    },
}

impl UpdateResult {
    /// Whether the call changed anything at the provider.
    pub open spec fn spec_is_mutation(&self) -> bool {
        !(self is Unchanged)
    }

    /// Whether the call changed anything at the provider: true of `Updated` and `Created`.
    #[verifier::when_used_as_spec(spec_is_mutation)]
    pub fn is_mutation(&self) -> (r: bool)
        ensures
            r == self.spec_is_mutation(),
    {
        match self {
            UpdateResult::Unchanged { .. } => false,
            _ => true,
        }
    }
}

/// What a provider knows of one record.
#[derive(Clone, Debug)]
pub struct RecordMetadata {
    /// The provider's identifier of the record.
    pub id: String,
    /// The record's name.
    pub name: String,
    /// The address the record holds.
    pub ip: IpAddress,
    /// The time to live in seconds, where the provider reports one.
    pub ttl: Option<u32>,
    /// Whatever else the provider reports, as a JSON document.
    pub extra: String,
}

} // verus!
