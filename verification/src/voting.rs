//! The challenge/vote manager: opening a dispute over a listing, and
//! casting stake-weighted votes while the dispute's commit stage runs.

use vstd::prelude::*;
use crate::auth::Origin;
use crate::auth::ensure_signed;
use crate::errors::Error;
use crate::events::Event;
use crate::ledger::Ledger;
use crate::state::Tcr;
use crate::types::ChallengeDetail;
use crate::types::ListingDetail;
use crate::types::Vote;
use crate::types::find_vote;
use crate::types::find_vote_index;
use crate::types::lemma_find_vote_characterises;
use crate::types::lemma_sum_vote_deposits_push;
use crate::types::sum_vote_deposits;

verus! {

broadcast use vstd::std_specs::hash::group_hash_axioms;

impl Tcr {
    /// The first reason `challenge` rejects, or `None` when it commits:
    /// the caller must be a signed account other than the listing's owner,
    /// the listing must exist and carry no active challenge, the deposit
    /// must match the listing's stake, the commit stage length must be
    /// configured and the computed voting end must fit a block height, an
    /// applicant may only be challenged while its apply stage runs (a
    /// listing already in the registry may be challenged at any time), a
    /// challenge id must be left, and the deposit must be reservable.
    pub open spec fn challenge_err(
        pre: Tcr,
        prel: Ledger,
        origin: Origin,
        listing_id: u32,
        deposit: u64,
        now: u64,
    ) -> Option<Error> {
        let l = pre.listings@[listing_id];
        if origin is Root {
            Some(Error::BadOrigin)
        } else if !pre.listings@.contains_key(listing_id) {
            Some(Error::ListingNotFound)
        } else if l.challenge_id is Some {
            Some(Error::AlreadyChallenged)
        } else if l.owner == origin->Signed_0 {
            Some(Error::SelfChallenge)
        } else if deposit < l.deposit {
            Some(Error::ChallengeDepositTooLow)
        } else if pre.commit_stage_len is None {
            Some(Error::CommitStageLenNotSet)
        } else if now + pre.commit_stage_len->Some_0 > u64::MAX {
            Some(Error::Overflow)
        } else if !l.in_registry && now >= l.application_expiry {
            Some(Error::ApplyStagePassed)
        } else if pre.next_challenge_id == u32::MAX {
            Some(Error::Overflow)
        } else if !prel.can_reserve(origin->Signed_0, deposit) {
            Some(Error::InsufficientBalance)
        } else {
            None
        }
    }

    /// What a committed `challenge` did: the challenger's deposit moved
    /// from free to reserved, a fresh challenge under the old counter
    /// value holds the ballot with its tally seeded — the listing's own
    /// deposit counted in favor, the challenger's against — the listing
    /// points at it, the counter moved on, the voting end is indexed, and
    /// `Challenged` was emitted. Nothing else moved.
    pub open spec fn challenge_ok_post(
        pre: Tcr,
        post: Tcr,
        prel: Ledger,
        postl: Ledger,
        sender: u64,
        listing_id: u32,
        deposit: u64,
        now: u64,
    ) -> bool {
        let l = pre.listings@[listing_id];
        let cid = pre.next_challenge_id;
        let ends = (now + pre.commit_stage_len->Some_0) as u64;
        let c = post.challenges@[cid];
        &&& post.listings@ == pre.listings@.insert(
            listing_id,
            ListingDetail {
                deposit: l.deposit,
                owner: l.owner,
                application_expiry: l.application_expiry,
                in_registry: l.in_registry,
                challenge_id: Some(cid),
            },
        )
        &&& post.next_challenge_id == cid + 1
        &&& !pre.challenges@.contains_key(cid)
        &&& post.challenges@.contains_key(cid)
        &&& c.listing_id == listing_id
        &&& c.deposit == deposit
        &&& c.owner == sender
        &&& c.voting_ends == ends
        &&& !c.resolved
        &&& !c.passed
        &&& c.reward_pool == 0
        &&& c.total_winning_tokens == 0
        &&& c.votes_for == l.deposit
        &&& c.votes_against == deposit
        &&& c.votes@ == Seq::<Vote>::empty()
        &&& forall|x: u32| x != cid ==> (#[trigger] post.challenges@.contains_key(x))
            == pre.challenges@.contains_key(x)
            && (pre.challenges@.contains_key(x) ==> post.challenges@[x] == pre.challenges@[x])
        &&& Tcr::expiry_extended(pre, post, ends, listing_id)
        &&& post.events@ == pre.events@.push(Event::Challenged(sender, listing_id, cid, deposit))
        &&& Tcr::params_unchanged(pre, post)
        &&& postl.spec_free(sender) == prel.spec_free(sender) - deposit
        &&& postl.spec_reserved(sender) == prel.spec_reserved(sender) + deposit
        &&& Ledger::others_unchanged(prel, postl, sender)
    }

    /// Opens a dispute over a listing, reserving `deposit` from the
    /// challenger. The ballot's tally starts with the listing's own stake
    /// in favor and the challenger's against; votes may then be cast until
    /// `now` plus the commit stage length. Fails closed, with no effect,
    /// for exactly the reasons `challenge_err` names.
    pub fn challenge(
        &mut self,
        ledger: &mut Ledger,
        origin: Origin,
        listing_id: u32,
        deposit: u64,
        now: u64,
    ) -> (r: Result<(), Error>)
        requires
            old(self).wf(),
            old(ledger).wf(),
        ensures
            final(self).wf(),
            final(ledger).wf(),
            Ledger::totals_unchanged(*old(ledger), *final(ledger)),
            Tcr::challenge_err(*old(self), *old(ledger), origin, listing_id, deposit, now)
                matches Some(e) ==> r == Err::<(), Error>(e)
                && *final(self) == *old(self) && *final(ledger) == *old(ledger),
            Tcr::challenge_err(*old(self), *old(ledger), origin, listing_id, deposit, now)
                is None ==> r == Ok::<(), Error>(())
                && Tcr::challenge_ok_post(
                *old(self),
                *final(self),
                *old(ledger),
                *final(ledger),
                origin->Signed_0,
                listing_id,
                deposit,
                now,
            ),
    {
        let sender = match ensure_signed(origin) {
            Ok(s) => s,
            Err(e) => {
                return Err(e);
            },
        };
        let l = match self.listings.get(&listing_id) {
            Some(l) => *l,
            None => {
                return Err(Error::ListingNotFound);
            },
        };
        if l.challenge_id.is_some() {
            return Err(Error::AlreadyChallenged);
        }
        if l.owner == sender {
            return Err(Error::SelfChallenge);
        }
        if deposit < l.deposit {
            return Err(Error::ChallengeDepositTooLow);
        }
        let commit_len = match self.commit_stage_len {
            Some(c) => c,
            None => {
                return Err(Error::CommitStageLenNotSet);
            },
        };
        let voting_ends = match now.checked_add(commit_len) {
            Some(h) => h,
            None => {
                return Err(Error::Overflow);
            },
        };
        if !l.in_registry && now >= l.application_expiry {
            return Err(Error::ApplyStagePassed);
        }
        if self.next_challenge_id == u32::MAX {
            return Err(Error::Overflow);
        }
        match ledger.reserve(sender, deposit) {
            Ok(()) => {},
            Err(e) => {
                return Err(e);
            },
        }
        let cid = self.next_challenge_id;
        self.next_challenge_id = cid + 1;
        proof {
            if old(self).challenges@.contains_key(cid) {
                assert(old(self).challenge_ok(cid));
            }
        }
        self.challenges.insert(
            cid,
            ChallengeDetail {
                listing_id,
                deposit,
                owner: sender,
                voting_ends,
                resolved: false,
                passed: false,
                reward_pool: 0,
                total_winning_tokens: 0,
                votes_for: l.deposit,
                votes_against: deposit,
                votes: Vec::new(),
            },
        );
        self.listings.insert(
            listing_id,
            ListingDetail {
                deposit: l.deposit,
                owner: l.owner,
                application_expiry: l.application_expiry,
                in_registry: l.in_registry,
                challenge_id: Some(cid),
            },
        );
        let mut bucket = match self.expiry.remove(&voting_ends) {
            Some(b) => b,
            None => Vec::new(),
        };
        bucket.push(listing_id);
        self.expiry.insert(voting_ends, bucket);
        self.events.push(Event::Challenged(sender, listing_id, cid, deposit));
        proof {
            assert(sum_vote_deposits(Seq::<Vote>::empty()) == 0);
            assert forall|lid: u32| self.listings@.contains_key(lid)
                implies self.listing_ok(lid) by {
                if lid != listing_id {
                    assert(old(self).listing_ok(lid));
                    assert(self.listings@[lid] == old(self).listings@[lid]);
                    match old(self).listings@[lid].challenge_id {
                        Some(x) => {
                            assert(old(self).challenge_ok(x));
                            assert(x != cid);
                        },
                        None => {},
                    }
                }
            }
            assert forall|x: u32| self.challenges@.contains_key(x)
                implies self.challenge_ok(x) by {
                if x != cid {
                    assert(old(self).challenge_ok(x));
                    let c = self.challenges@[x];
                    if !c.resolved {
                        assert(old(self).listings@[c.listing_id].challenge_id == Some(x));
                        assert(c.listing_id != listing_id);
                    }
                }
            }
        }
        Ok(())
    }

    /// The first reason `vote` rejects, or `None` when it commits: the
    /// caller must be a signed account, the challenge must exist, be
    /// unresolved, and its commit stage still running, the account must
    /// not have voted in it before, the tally side must have room, and
    /// the deposit must be reservable.
    pub open spec fn vote_err(
        pre: Tcr,
        prel: Ledger,
        origin: Origin,
        challenge_id: u32,
        in_favor: bool,
        deposit: u64,
        now: u64,
    ) -> Option<Error> {
        let c = pre.challenges@[challenge_id];
        if origin is Root {
            Some(Error::BadOrigin)
        } else if !pre.challenges@.contains_key(challenge_id) {
            Some(Error::ChallengeNotFound)
        } else if c.resolved {
            Some(Error::AlreadyResolved)
        } else if now >= c.voting_ends {
            Some(Error::CommitStagePassed)
        } else if find_vote(c.votes@, origin->Signed_0) is Some {
            Some(Error::DuplicateVote)
        } else if in_favor && c.votes_for + deposit > u64::MAX {
            Some(Error::Overflow)
        } else if !in_favor && c.votes_against + deposit > u64::MAX {
            Some(Error::Overflow)
        } else if !prel.can_reserve(origin->Signed_0, deposit) {
            Some(Error::InsufficientBalance)
        } else {
            None
        }
    }

    /// What a committed `vote` did: the voter's deposit moved from free to
    /// reserved, the vote joined the ballot unclaimed, exactly its side of
    /// the tally grew by the deposit, and `Voted` was emitted. Nothing
    /// else moved.
    pub open spec fn vote_ok_post(
        pre: Tcr,
        post: Tcr,
        prel: Ledger,
        postl: Ledger,
        sender: u64,
        challenge_id: u32,
        in_favor: bool,
        deposit: u64,
    ) -> bool {
        let c = pre.challenges@[challenge_id];
        let c2 = post.challenges@[challenge_id];
        &&& post.challenges@.contains_key(challenge_id)
        &&& c2.listing_id == c.listing_id
        &&& c2.deposit == c.deposit
        &&& c2.owner == c.owner
        &&& c2.voting_ends == c.voting_ends
        &&& c2.resolved == c.resolved
        &&& c2.passed == c.passed
        &&& c2.reward_pool == c.reward_pool
        &&& c2.total_winning_tokens == c.total_winning_tokens
        &&& c2.votes_for == if in_favor { (c.votes_for + deposit) as u64 } else { c.votes_for }
        &&& c2.votes_against == if in_favor {
            c.votes_against
        } else {
            (c.votes_against + deposit) as u64
        }
        &&& c2.votes@ == c.votes@.push(
            Vote { voter: sender, in_favor, deposit, claimed: false },
        )
        &&& forall|x: u32| x != challenge_id ==> (#[trigger] post.challenges@.contains_key(x))
            == pre.challenges@.contains_key(x)
            && (pre.challenges@.contains_key(x) ==> post.challenges@[x] == pre.challenges@[x])
        &&& post.listings@ == pre.listings@
        &&& post.next_challenge_id == pre.next_challenge_id
        &&& post.expiry@ == pre.expiry@
        &&& post.events@ == pre.events@.push(
            Event::Voted(sender, challenge_id, in_favor, deposit),
        )
        &&& Tcr::params_unchanged(pre, post)
        &&& postl.spec_free(sender) == prel.spec_free(sender) - deposit
        &&& postl.spec_reserved(sender) == prel.spec_reserved(sender) + deposit
        &&& Ledger::others_unchanged(prel, postl, sender)
    }

    /// Casts a stake-weighted vote in an open challenge, reserving
    /// `deposit` from the voter. One vote per account per challenge; votes
    /// cannot be changed afterwards. Fails closed, with no effect, for
    /// exactly the reasons `vote_err` names.
    pub fn vote(
        &mut self,
        ledger: &mut Ledger,
        origin: Origin,
        challenge_id: u32,
        in_favor: bool,
        deposit: u64,
        now: u64,
    ) -> (r: Result<(), Error>)
        requires
            old(self).wf(),
            old(ledger).wf(),
        ensures
            final(self).wf(),
            final(ledger).wf(),
            Ledger::totals_unchanged(*old(ledger), *final(ledger)),
            Tcr::vote_err(*old(self), *old(ledger), origin, challenge_id, in_favor, deposit, now)
                matches Some(e) ==> r == Err::<(), Error>(e)
                && *final(self) == *old(self) && *final(ledger) == *old(ledger),
            Tcr::vote_err(*old(self), *old(ledger), origin, challenge_id, in_favor, deposit, now)
                is None ==> r == Ok::<(), Error>(())
                && Tcr::vote_ok_post(
                *old(self),
                *final(self),
                *old(ledger),
                *final(ledger),
                origin->Signed_0,
                challenge_id,
                in_favor,
                deposit,
            ),
    {
        let sender = match ensure_signed(origin) {
            Ok(s) => s,
            Err(e) => {
                return Err(e);
            },
        };
        let (votes_for, votes_against) = {
            let c_ref = match self.challenges.get(&challenge_id) {
                Some(c) => c,
                None => {
                    return Err(Error::ChallengeNotFound);
                },
            };
            if c_ref.resolved {
                return Err(Error::AlreadyResolved);
            }
            if now >= c_ref.voting_ends {
                return Err(Error::CommitStagePassed);
            }
            if find_vote_index(&c_ref.votes, sender).is_some() {
                return Err(Error::DuplicateVote);
            }
            (c_ref.votes_for, c_ref.votes_against)
        };
        let new_for = if in_favor {
            match votes_for.checked_add(deposit) {
                Some(v) => v,
                None => {
                    return Err(Error::Overflow);
                },
            }
        } else {
            votes_for
        };
        let new_against = if !in_favor {
            match votes_against.checked_add(deposit) {
                Some(v) => v,
                None => {
                    return Err(Error::Overflow);
                },
            }
        } else {
            votes_against
        };
        match ledger.reserve(sender, deposit) {
            Ok(()) => {},
            Err(e) => {
                return Err(e);
            },
        }
        let mut c = match self.challenges.remove(&challenge_id) {
            Some(c) => c,
            None => {
                proof {
                    assert(false);
                }
                return Err(Error::ChallengeNotFound);
            },
        };
        let ghost old_votes = c.votes@;
        c.votes_for = new_for;
        c.votes_against = new_against;
        c.votes.push(Vote { voter: sender, in_favor, deposit, claimed: false });
        self.challenges.insert(challenge_id, c);
        self.events.push(Event::Voted(sender, challenge_id, in_favor, deposit));
        proof {
            let v = Vote { voter: sender, in_favor, deposit, claimed: false };
            lemma_sum_vote_deposits_push(old_votes, v);
            lemma_find_vote_characterises(old_votes, sender);
            assert forall|lid: u32| self.listings@.contains_key(lid)
                implies self.listing_ok(lid) by {
                assert(old(self).listing_ok(lid));
            }
            assert forall|x: u32| self.challenges@.contains_key(x)
                implies self.challenge_ok(x) by {
                assert(old(self).challenge_ok(x));
                if x == challenge_id {
                    let nv = self.challenges@[x].votes@;
                    assert(nv == old_votes.push(v));
                    assert forall|i: int, j: int| 0 <= i < j < nv.len()
                        implies (#[trigger] nv[i]).voter != (#[trigger] nv[j]).voter by {
                        if j < old_votes.len() {
                            assert(nv[i] == old_votes[i] && nv[j] == old_votes[j]);
                        } else {
                            assert(nv[i] == old_votes[i] && nv[j] == v);
                        }
                    }
                }
            }
        }
        Ok(())
    }
}

} // verus!
