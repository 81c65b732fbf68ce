//! The registry's shared state: the three tunable parameters, the keyed
//! stores for listings and challenges, the expiry index, the challenge-id
//! counter, and the emitted events. All operations mutate exactly this
//! state (plus the injected ledger), one at a time.

use vstd::prelude::*;
use std::collections::HashMap;
use crate::auth::Origin;
use crate::auth::ensure_root;
use crate::errors::Error;
use crate::events::Event;
use crate::types::ChallengeDetail;
use crate::types::ListingDetail;
use crate::types::Vote;
use crate::types::distinct_voters;
use crate::types::find_vote;
use crate::types::find_vote_index;
use crate::types::sum_vote_deposits;

verus! {

broadcast use vstd::std_specs::hash::group_hash_axioms;

/// The token-curated registry's state.
pub struct Tcr {
    /// Smallest deposit a proposal may carry; unset until configured.
    pub min_deposit: Option<u64>,
    /// Length of the apply stage in blocks; unset until configured.
    pub apply_stage_len: Option<u64>,
    /// Length of the commit stage in blocks; unset until configured.
    pub commit_stage_len: Option<u64>,
    /// Every listing and applicant known to the registry, by listing id.
    /// Presence here is not registry membership: applicants sit here too.
    pub listings: HashMap<u32, ListingDetail>,
    /// The first unused challenge id; ids count up from 1, never reused.
    pub next_challenge_id: u32,
    /// Every challenge ever opened, by challenge id; resolved challenges
    /// stay as immutable records for reward claims.
    pub challenges: HashMap<u32, ChallengeDetail>,
    /// The expiry index: block height to the listings whose application or
    /// challenge timer runs out at that height.
    pub expiry: HashMap<u64, Vec<u32>>,
    /// Everything emitted so far, in emission order.
    pub events: Vec<Event>,
}

impl Tcr {
    /// A listing's ties into the rest of the state: its active challenge,
    /// if any, exists, is unresolved, points back at the listing, and its
    /// tally sums the two seed deposits plus the ballot's stake.
    pub open spec fn listing_ok(self, lid: u32) -> bool {
        let l = self.listings@[lid];
        l.challenge_id matches Some(cid) ==> {
            &&& self.challenges@.contains_key(cid)
            &&& self.challenges@[cid].listing_id == lid
            &&& !self.challenges@[cid].resolved
            &&& self.challenges@[cid].votes_for + self.challenges@[cid].votes_against
                == l.deposit + self.challenges@[cid].deposit
                    + sum_vote_deposits(self.challenges@[cid].votes@)
        }
    }

    /// A challenge's ties into the rest of the state: its id was issued by
    /// the counter, its ballot keeps voters distinct, and while unresolved
    /// its listing points at it.
    pub open spec fn challenge_ok(self, cid: u32) -> bool {
        let c = self.challenges@[cid];
        &&& 1 <= cid < self.next_challenge_id
        &&& distinct_voters(c.votes@)
        &&& !c.resolved ==> self.listings@.contains_key(c.listing_id)
            && self.listings@[c.listing_id].challenge_id == Some(cid)
    }

    /// The state's invariant: every operation requires it and keeps it.
    pub open spec fn wf(self) -> bool {
        &&& self.next_challenge_id >= 1
        &&& forall|lid: u32| self.listings@.contains_key(lid) ==> #[trigger] self.listing_ok(lid)
        &&& forall|cid: u32| self.challenges@.contains_key(cid)
            ==> #[trigger] self.challenge_ok(cid)
    }

    /// The three parameters agree between the two states.
    pub open spec fn params_unchanged(pre: Tcr, post: Tcr) -> bool {
        &&& post.min_deposit == pre.min_deposit
        &&& post.apply_stage_len == pre.apply_stage_len
        &&& post.commit_stage_len == pre.commit_stage_len
    }

    /// The expiry index gained exactly one entry for `lid` at height `h`,
    /// appended to whatever was already due there.
    pub open spec fn expiry_extended(pre: Tcr, post: Tcr, h: u64, lid: u32) -> bool {
        &&& post.expiry@.contains_key(h)
        &&& post.expiry@[h]@ == if pre.expiry@.contains_key(h) {
            pre.expiry@[h]@.push(lid)
        } else {
            seq![lid]
        }
        &&& forall|h2: u64| h2 != h ==> (#[trigger] post.expiry@.contains_key(h2))
            == pre.expiry@.contains_key(h2)
            && (pre.expiry@.contains_key(h2) ==> post.expiry@[h2] == pre.expiry@[h2])
    }

    /// A fresh registry: nothing configured, nothing listed, nothing
    /// challenged, nothing emitted, challenge ids starting at 1.
    pub fn new() -> (s: Tcr)
        ensures
            s.wf(),
            s.min_deposit is None,
            s.apply_stage_len is None,
            s.commit_stage_len is None,
            s.listings@ == Map::<u32, ListingDetail>::empty(),
            s.next_challenge_id == 1,
            s.challenges@ == Map::<u32, ChallengeDetail>::empty(),
            s.expiry@ == Map::<u64, Vec<u32>>::empty(),
            s.events@ == Seq::<Event>::empty(),
    {
        Tcr {
            min_deposit: None,
            apply_stage_len: None,
            commit_stage_len: None,
            listings: HashMap::new(),
            next_challenge_id: 1,
            challenges: HashMap::new(),
            expiry: HashMap::new(),
            events: Vec::new(),
        }
    }

    /// Sets the three tunable parameters at once. Privileged: only the
    /// root actor may call it; anyone else is turned away untouched. Takes
    /// effect for subsequent operations only — expiries already computed
    /// stand as they were.
    pub fn set_config(
        &mut self,
        origin: Origin,
        min_deposit: u64,
        apply_stage_len: u64,
        commit_stage_len: u64,
    ) -> (r: Result<(), Error>)
        requires
            old(self).wf(),
        ensures
            final(self).wf(),
            r is Ok <==> origin is Root,
            origin is Signed ==> r == Err::<(), Error>(Error::BadOrigin)
                && *final(self) == *old(self),
            origin is Root ==> {
                &&& final(self).min_deposit == Some(min_deposit)
                &&& final(self).apply_stage_len == Some(apply_stage_len)
                &&& final(self).commit_stage_len == Some(commit_stage_len)
                &&& final(self).listings@ == old(self).listings@
                &&& final(self).next_challenge_id == old(self).next_challenge_id
                &&& final(self).challenges@ == old(self).challenges@
                &&& final(self).expiry@ == old(self).expiry@
                &&& final(self).events@ == old(self).events@
            },
    {
        match ensure_root(origin) {
            Ok(()) => {},
            Err(e) => {
                return Err(e);
            },
        }
        self.min_deposit = Some(min_deposit);
        self.apply_stage_len = Some(apply_stage_len);
        self.commit_stage_len = Some(commit_stage_len);
        proof {
            assert forall|lid: u32| self.listings@.contains_key(lid)
                implies self.listing_ok(lid) by {
                assert(old(self).listing_ok(lid));
            }
            assert forall|cid: u32| self.challenges@.contains_key(cid)
                implies self.challenge_ok(cid) by {
                assert(old(self).challenge_ok(cid));
            }
        }
        Ok(())
    }

    /// The configured minimum deposit, if set.
    pub fn min_deposit(&self) -> (r: Option<u64>)
        ensures
            r == self.min_deposit,
    {
        self.min_deposit
    }

    /// The configured apply stage length, if set.
    pub fn apply_stage_len(&self) -> (r: Option<u64>)
        ensures
            r == self.apply_stage_len,
    {
        self.apply_stage_len
    }

    /// The configured commit stage length, if set.
    pub fn commit_stage_len(&self) -> (r: Option<u64>)
        ensures
            r == self.commit_stage_len,
    {
        self.commit_stage_len
    }

    /// The first unused challenge id.
    pub fn next_challenge_id(&self) -> (r: u32)
        ensures
            r == self.next_challenge_id,
    {
        self.next_challenge_id
    }

    /// The listing under the given id, if any.
    pub fn listings(&self, listing_id: u32) -> (r: Option<ListingDetail>)
        ensures
            r == if self.listings@.contains_key(listing_id) {
                Some(self.listings@[listing_id])
            } else {
                None::<ListingDetail>
            },
    {
        match self.listings.get(&listing_id) {
            Some(l) => Some(*l),
            None => None,
        }
    }

    /// The challenge under the given id, if any.
    pub fn challenges(&self, challenge_id: u32) -> (r: Option<&ChallengeDetail>)
        ensures
            match r {
                Some(c) => self.challenges@.contains_key(challenge_id)
                    && *c == self.challenges@[challenge_id],
                None => !self.challenges@.contains_key(challenge_id),
            },
    {
        self.challenges.get(&challenge_id)
    }

    /// The vote cast by `voter` in the given challenge, if any.
    pub fn vote_of(&self, challenge_id: u32, voter: u64) -> (r: Option<Vote>)
        ensures
            r == if self.challenges@.contains_key(challenge_id) {
                find_vote(self.challenges@[challenge_id].votes@, voter)
            } else {
                None::<Vote>
            },
    {
        match self.challenges.get(&challenge_id) {
            Some(c) => {
                match find_vote_index(&c.votes, voter) {
                    Some(i) => Some(c.votes[i]),
                    None => None,
                }
            },
            None => None,
        }
    }

    /// The listings whose timer runs out at the given height, if any.
    pub fn due_at(&self, height: u64) -> (r: Option<&Vec<u32>>)
        ensures
            match r {
                Some(d) => self.expiry@.contains_key(height) && *d == self.expiry@[height],
                None => !self.expiry@.contains_key(height),
            },
    {
        self.expiry.get(&height)
    }

    /// Everything emitted so far, in emission order.
    pub fn events(&self) -> (r: &Vec<Event>)
        ensures
            r@ == self.events@,
    {
        &self.events
    }
}

} // verus!
