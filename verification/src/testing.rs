//! A self-contained environment for exercising the registry: a fresh
//! state paired with a fake ledger, standing in for the host a deployment
//! would provide. Tests and examples build on it; the operations
//! themselves always take the two parts separately.

use vstd::prelude::*;
use crate::ledger::Ledger;
use crate::state::Tcr;

verus! {

/// A mock deployment: the registry state together with the ledger it is
/// run against.
pub struct Test {
    /// The registry under test.
    pub state: Tcr,
    /// The fake ledger holding the participating accounts' balances.
    pub ledger: Ledger,
}

impl Test {
    /// A fresh environment: an unconfigured registry over an empty
    /// ledger. Endow accounts and set the parameters before use.
    pub fn new() -> (t: Test)
        ensures
            t.state.wf(),
            t.ledger.wf(),
            t.state.min_deposit is None,
            t.state.apply_stage_len is None,
            t.state.commit_stage_len is None,
            t.state.listings@ == Map::<u32, crate::types::ListingDetail>::empty(),
            t.state.next_challenge_id == 1,
            t.state.challenges@ == Map::<u32, crate::types::ChallengeDetail>::empty(),
            t.state.events@ == Seq::<crate::events::Event>::empty(),
            forall|a: u64| #[trigger] t.ledger.spec_free(a) == 0
                && t.ledger.spec_reserved(a) == 0,
    {
        Test { state: Tcr::new(), ledger: Ledger::new() }
    }
}

} // verus!
