//! The events the registry emits. Emission is append-only and
//! fire-and-forget: events record what happened, they never roll it back.

use vstd::prelude::*;

verus! {

/// One emitted event. Account and balance fields come first where both
/// appear, matching the order of the operation's own arguments.
#[derive(Clone, Copy, Debug, PartialEq, Eq)]
pub enum Event {
    /// A user proposed a new listing: account, listing id, deposit.
    Proposed(u64, u32, u64),
    /// A user challenged a listing (listed or still an applicant):
    /// account, listing id, challenge id, deposit.
    Challenged(u64, u32, u32, u64),
    /// A user cast a vote in an open challenge:
    /// account, challenge id, in favor, deposit.
    Voted(u64, u32, bool, u64),
    /// A challenge was resolved: listing id, outcome. The outcome says
    /// whether the listing sits in the registry afterwards; it need not
    /// differ from the status before the challenge.
    Resolved(u32, bool),
    /// A listing entered the registry: listing id.
    Accepted(u32),
    /// A listing was kept out of the registry: listing id.
    Rejected(u32),
    /// A vote reward was claimed: account, challenge id.
    Claimed(u64, u32),
}

} // verus!
