//! The resolution and reward engine: closing an application or challenge
//! cycle, deciding the listing's fate, computing the winners' reward pool,
//! and paying out claims.

use vstd::prelude::*;
use crate::auth::Origin;
use crate::auth::ensure_signed;
use crate::errors::Error;
use crate::events::Event;
use crate::ledger::Ledger;
use crate::state::Tcr;
use crate::types::ListingDetail;
use crate::types::Vote;
use crate::types::find_vote;
use crate::types::find_vote_index;
use crate::types::lemma_find_vote_update;

verus! {

broadcast use vstd::std_specs::hash::group_hash_axioms;

impl Tcr {
    /// The first reason `resolve` rejects, or `None` when it commits. For
    /// an unchallenged listing the apply stage must be over; for a
    /// challenged one the commit stage must be over, the challenge must
    /// not have been resolved before, and the reward pool must fit its
    /// type. Resolution takes no origin: anyone, or the expiry index, may
    /// trigger it.
    pub open spec fn resolve_err(pre: Tcr, listing_id: u32, now: u64) -> Option<Error> {
        let l = pre.listings@[listing_id];
        if !pre.listings@.contains_key(listing_id) {
            Some(Error::ListingNotFound)
        } else {
            match l.challenge_id {
                None => if now < l.application_expiry {
                    Some(Error::ApplyStageNotPassed)
                } else {
                    None
                },
                Some(cid) => {
                    let c = pre.challenges@[cid];
                    let passed = c.votes_for >= c.votes_against;
                    if !pre.challenges@.contains_key(cid) {
                        Some(Error::ChallengeNotFound)
                    } else if c.resolved {
                        Some(Error::AlreadyResolved)
                    } else if now < c.voting_ends {
                        Some(Error::CommitStageNotPassed)
                    } else if passed && c.deposit + c.votes_against > u64::MAX {
                        Some(Error::Overflow)
                    } else if !passed && l.deposit + c.votes_for > u64::MAX {
                        Some(Error::Overflow)
                    } else {
                        None
                    }
                },
            }
        }
    }

    /// What a committed `resolve` did. Unchallenged: the listing entered
    /// the registry and `Accepted` was emitted; the ledger is untouched.
    /// Challenged: the outcome is `passed` exactly when the tally favors
    /// keeping (ties favor inclusion); the listing's membership follows the
    /// outcome and its challenge pointer clears; the challenge becomes the
    /// immutable record of the outcome, with the losing side's stake —
    /// the challenger's deposit plus the against-tally, or the listing's
    /// deposit plus the for-tally — as reward pool and the winning tally
    /// as total winning tokens; a defeated challenger's deposit is
    /// released back; `Accepted` or `Rejected` plus `Resolved` are
    /// emitted. Nothing else moves.
    pub open spec fn resolve_ok_post(
        pre: Tcr,
        post: Tcr,
        prel: Ledger,
        postl: Ledger,
        listing_id: u32,
        now: u64,
    ) -> bool {
        let l = pre.listings@[listing_id];
        match l.challenge_id {
            None => {
                &&& post.listings@ == pre.listings@.insert(
                    listing_id,
                    ListingDetail {
                        deposit: l.deposit,
                        owner: l.owner,
                        application_expiry: l.application_expiry,
                        in_registry: true,
                        challenge_id: None,
                    },
                )
                &&& post.next_challenge_id == pre.next_challenge_id
                &&& post.challenges@ == pre.challenges@
                &&& post.expiry@ == pre.expiry@
                &&& post.events@ == pre.events@.push(Event::Accepted(listing_id))
                &&& Tcr::params_unchanged(pre, post)
                &&& postl == prel
            },
            Some(cid) => {
                let c = pre.challenges@[cid];
                let passed = c.votes_for >= c.votes_against;
                let pool = if passed {
                    (c.deposit + c.votes_against) as u64
                } else {
                    (l.deposit + c.votes_for) as u64
                };
                let total = if passed {
                    c.votes_for
                } else {
                    c.votes_against
                };
                let c2 = post.challenges@[cid];
                let rel = if c.deposit <= prel.spec_reserved(c.owner) {
                    c.deposit as int
                } else {
                    prel.spec_reserved(c.owner)
                };
                &&& post.listings@ == pre.listings@.insert(
                    listing_id,
                    ListingDetail {
                        deposit: l.deposit,
                        owner: l.owner,
                        application_expiry: l.application_expiry,
                        in_registry: passed,
                        challenge_id: None,
                    },
                )
                &&& post.challenges@.contains_key(cid)
                &&& c2.listing_id == c.listing_id
                &&& c2.deposit == c.deposit
                &&& c2.owner == c.owner
                &&& c2.voting_ends == c.voting_ends
                &&& c2.resolved
                &&& c2.passed == passed
                &&& c2.reward_pool == pool
                &&& c2.total_winning_tokens == total
                &&& c2.votes_for == c.votes_for
                &&& c2.votes_against == c.votes_against
                &&& c2.votes@ == c.votes@
                &&& forall|x: u32| x != cid ==> (#[trigger] post.challenges@.contains_key(x))
                    == pre.challenges@.contains_key(x)
                    && (pre.challenges@.contains_key(x)
                        ==> post.challenges@[x] == pre.challenges@[x])
                &&& post.next_challenge_id == pre.next_challenge_id
                &&& post.expiry@ == pre.expiry@
                &&& post.events@ == pre.events@.push(
                    if passed {
                        Event::Accepted(listing_id)
                    } else {
                        Event::Rejected(listing_id)
                    },
                ).push(Event::Resolved(listing_id, passed))
                &&& Tcr::params_unchanged(pre, post)
                &&& if passed {
                    postl == prel
                } else {
                    &&& postl.spec_reserved(c.owner) == prel.spec_reserved(c.owner) - rel
                    &&& postl.spec_free(c.owner) == prel.spec_free(c.owner) + rel
                    &&& Ledger::others_unchanged(prel, postl, c.owner)
                }
            },
        }
    }

    /// The terminal transition for one application or challenge cycle.
    /// Fails closed, with no effect, for exactly the reasons
    /// `resolve_err` names; in particular an already-resolved challenge
    /// can never be resolved again, so rewards are computed exactly once.
    pub fn resolve(&mut self, ledger: &mut Ledger, listing_id: u32, now: u64) -> (r: Result<
        (),
        Error,
    >)
        requires
            old(self).wf(),
            old(ledger).wf(),
        ensures
            final(self).wf(),
            final(ledger).wf(),
            Ledger::totals_unchanged(*old(ledger), *final(ledger)),
            Tcr::resolve_err(*old(self), listing_id, now) matches Some(e)
                ==> r == Err::<(), Error>(e)
                && *final(self) == *old(self) && *final(ledger) == *old(ledger),
            Tcr::resolve_err(*old(self), listing_id, now) is None ==> r == Ok::<(), Error>(())
                && Tcr::resolve_ok_post(
                *old(self),
                *final(self),
                *old(ledger),
                *final(ledger),
                listing_id,
                now,
            ),
    {
        let l = match self.listings.get(&listing_id) {
            Some(l) => *l,
            None => {
                return Err(Error::ListingNotFound);
            },
        };
        let cid = match l.challenge_id {
            None => {
                if now < l.application_expiry {
                    return Err(Error::ApplyStageNotPassed);
                }
                self.listings.insert(
                    listing_id,
                    ListingDetail {
                        deposit: l.deposit,
                        owner: l.owner,
                        application_expiry: l.application_expiry,
                        in_registry: true,
                        challenge_id: None,
                    },
                );
                self.events.push(Event::Accepted(listing_id));
                proof {
                    assert forall|lid: u32| self.listings@.contains_key(lid)
                        implies self.listing_ok(lid) by {
                        assert(old(self).listing_ok(lid));
                        if lid != listing_id {
                            assert(self.listings@[lid] == old(self).listings@[lid]);
                        }
                    }
                    assert forall|x: u32| self.challenges@.contains_key(x)
                        implies self.challenge_ok(x) by {
                        assert(old(self).challenge_ok(x));
                        let c = self.challenges@[x];
                        if !c.resolved && c.listing_id == listing_id {
                            assert(old(self).listings@[listing_id].challenge_id == Some(x));
                            assert(false);
                        }
                    }
                }
                return Ok(());
            },
            Some(cid) => cid,
        };
        let (passed, pool, challenger, challenger_deposit) = {
            let c = match self.challenges.get(&cid) {
                Some(c) => c,
                None => {
                    return Err(Error::ChallengeNotFound);
                },
            };
            if c.resolved {
                return Err(Error::AlreadyResolved);
            }
            if now < c.voting_ends {
                return Err(Error::CommitStageNotPassed);
            }
            let passed = c.votes_for >= c.votes_against;
            let pool = if passed {
                match c.deposit.checked_add(c.votes_against) {
                    Some(p) => p,
                    None => {
                        return Err(Error::Overflow);
                    },
                }
            } else {
                match l.deposit.checked_add(c.votes_for) {
                    Some(p) => p,
                    None => {
                        return Err(Error::Overflow);
                    },
                }
            };
            (passed, pool, c.owner, c.deposit)
        };
        let mut c = match self.challenges.remove(&cid) {
            Some(c) => c,
            None => {
                proof {
                    assert(false);
                }
                return Err(Error::ChallengeNotFound);
            },
        };
        let total = if passed {
            c.votes_for
        } else {
            c.votes_against
        };
        c.resolved = true;
        c.passed = passed;
        c.reward_pool = pool;
        c.total_winning_tokens = total;
        self.challenges.insert(cid, c);
        self.listings.insert(
            listing_id,
            ListingDetail {
                deposit: l.deposit,
                owner: l.owner,
                application_expiry: l.application_expiry,
                in_registry: passed,
                challenge_id: None,
            },
        );
        if passed {
            self.events.push(Event::Accepted(listing_id));
        } else {
            let _released: u64 = ledger.unreserve(challenger, challenger_deposit);
            self.events.push(Event::Rejected(listing_id));
        }
        self.events.push(Event::Resolved(listing_id, passed));
        proof {
            assert forall|lid: u32| self.listings@.contains_key(lid)
                implies self.listing_ok(lid) by {
                if lid != listing_id {
                    assert(old(self).listing_ok(lid));
                    assert(self.listings@[lid] == old(self).listings@[lid]);
                    match old(self).listings@[lid].challenge_id {
                        Some(x) => {
                            assert(old(self).listing_ok(listing_id));
                            assert(old(self).challenges@[cid].listing_id == listing_id);
                            assert(old(self).challenges@[x].listing_id == lid);
                            assert(x != cid);
                        },
                        None => {},
                    }
                }
            }
            assert forall|x: u32| self.challenges@.contains_key(x)
                implies self.challenge_ok(x) by {
                assert(old(self).challenge_ok(x));
                if x != cid {
                    let cx = self.challenges@[x];
                    if !cx.resolved {
                        assert(old(self).listings@[cx.listing_id].challenge_id == Some(x));
                        assert(cx.listing_id != listing_id);
                    }
                }
            }
        }
        Ok(())
    }

    /// The first reason `claim_reward` rejects, or `None` when it
    /// commits: the caller must be a signed account holding an unclaimed
    /// vote in a resolved challenge; for a winning vote the reward must
    /// further be computable — a nonzero winning tally, and a product and
    /// payout that fit their type.
    pub open spec fn claim_err(pre: Tcr, origin: Origin, challenge_id: u32) -> Option<Error> {
        let c = pre.challenges@[challenge_id];
        let sender = origin->Signed_0;
        if origin is Root {
            Some(Error::BadOrigin)
        } else if !pre.challenges@.contains_key(challenge_id) {
            Some(Error::ChallengeNotFound)
        } else if !c.resolved {
            Some(Error::NotResolved)
        } else {
            match find_vote(c.votes@, sender) {
                None => Some(Error::VoteNotFound),
                Some(v) => {
                    if v.claimed {
                        Some(Error::AlreadyClaimed)
                    } else if v.in_favor == c.passed {
                        if c.total_winning_tokens == 0 {
                            Some(Error::DivisionByZero)
                        } else if c.reward_pool * v.deposit > u64::MAX {
                            Some(Error::Overflow)
                        } else if c.reward_pool * v.deposit / (
                        c.total_winning_tokens as int) + v.deposit > u64::MAX {
                            Some(Error::Overflow)
                        } else {
                            None
                        }
                    } else {
                        None
                    }
                },
            }
        }
    }

    /// A winning voter's payout: their proportional share of the reward
    /// pool, rounded down, plus their own returned stake.
    pub open spec fn claim_payout(c_pool: u64, c_total: u64, v_deposit: u64) -> int {
        c_pool * v_deposit / (c_total as int) + v_deposit
    }

    /// What a committed `claim_reward` did: the vote is marked claimed —
    /// win or lose — and can never be claimed again; a winner had their
    /// payout released from their reserved stake (capped by what is
    /// actually reserved) and `Claimed` emitted, a loser forfeits their
    /// stake to the pool and nothing is released. Nothing else moves.
    pub open spec fn claim_ok_post(
        pre: Tcr,
        post: Tcr,
        prel: Ledger,
        postl: Ledger,
        sender: u64,
        challenge_id: u32,
    ) -> bool {
        let c = pre.challenges@[challenge_id];
        let v = find_vote(c.votes@, sender)->Some_0;
        let winner = v.in_favor == c.passed;
        let payout = Tcr::claim_payout(c.reward_pool, c.total_winning_tokens, v.deposit);
        let rel = if payout <= prel.spec_reserved(sender) {
            payout
        } else {
            prel.spec_reserved(sender)
        };
        let c2 = post.challenges@[challenge_id];
        &&& post.challenges@.contains_key(challenge_id)
        &&& c2.listing_id == c.listing_id
        &&& c2.deposit == c.deposit
        &&& c2.owner == c.owner
        &&& c2.voting_ends == c.voting_ends
        &&& c2.resolved == c.resolved
        &&& c2.passed == c.passed
        &&& c2.reward_pool == c.reward_pool
        &&& c2.total_winning_tokens == c.total_winning_tokens
        &&& c2.votes_for == c.votes_for
        &&& c2.votes_against == c.votes_against
        &&& c2.votes@.len() == c.votes@.len()
        &&& find_vote(c2.votes@, sender) == Some(
            Vote { voter: sender, in_favor: v.in_favor, deposit: v.deposit, claimed: true },
        )
        &&& forall|w: u64| w != sender
            ==> #[trigger] find_vote(c2.votes@, w) == find_vote(c.votes@, w)
        &&& forall|x: u32| x != challenge_id ==> (#[trigger] post.challenges@.contains_key(x))
            == pre.challenges@.contains_key(x)
            && (pre.challenges@.contains_key(x) ==> post.challenges@[x] == pre.challenges@[x])
        &&& post.listings@ == pre.listings@
        &&& post.next_challenge_id == pre.next_challenge_id
        &&& post.expiry@ == pre.expiry@
        &&& Tcr::params_unchanged(pre, post)
        &&& if winner {
            &&& post.events@ == pre.events@.push(Event::Claimed(sender, challenge_id))
            &&& postl.spec_reserved(sender) == prel.spec_reserved(sender) - rel
            &&& postl.spec_free(sender) == prel.spec_free(sender) + rel
            &&& Ledger::others_unchanged(prel, postl, sender)
        } else {
            &&& post.events@ == pre.events@
            &&& postl == prel
        }
    }

    /// Claims the reward for one vote in a resolved challenge. A voter
    /// wins exactly when their vote matches the outcome; winners are paid
    /// `floor(reward_pool * deposit / total_winning_tokens)` on top of
    /// their returned stake, losers forfeit theirs. Claiming marks the
    /// vote either way, so a second claim always fails. Fails closed,
    /// with no effect, for exactly the reasons `claim_err` names.
    pub fn claim_reward(&mut self, ledger: &mut Ledger, origin: Origin, challenge_id: u32) -> (r:
        Result<(), Error>)
        requires
            old(self).wf(),
            old(ledger).wf(),
        ensures
            final(self).wf(),
            final(ledger).wf(),
            Ledger::totals_unchanged(*old(ledger), *final(ledger)),
            Tcr::claim_err(*old(self), origin, challenge_id) matches Some(e)
                ==> r == Err::<(), Error>(e)
                && *final(self) == *old(self) && *final(ledger) == *old(ledger),
            Tcr::claim_err(*old(self), origin, challenge_id) is None ==> r == Ok::<(), Error>(())
                && Tcr::claim_ok_post(
                *old(self),
                *final(self),
                *old(ledger),
                *final(ledger),
                origin->Signed_0,
                challenge_id,
            ),
    {
        let sender = match ensure_signed(origin) {
            Ok(s) => s,
            Err(e) => {
                return Err(e);
            },
        };
        let (i, v, winner, payout) = {
            let c = match self.challenges.get(&challenge_id) {
                Some(c) => c,
                None => {
                    return Err(Error::ChallengeNotFound);
                },
            };
            if !c.resolved {
                return Err(Error::NotResolved);
            }
            let i = match find_vote_index(&c.votes, sender) {
                Some(i) => i,
                None => {
                    return Err(Error::VoteNotFound);
                },
            };
            let v = c.votes[i];
            if v.claimed {
                return Err(Error::AlreadyClaimed);
            }
            let winner = v.in_favor == c.passed;
            let payout: u64 = if winner {
                if c.total_winning_tokens == 0 {
                    return Err(Error::DivisionByZero);
                }
                let product = match c.reward_pool.checked_mul(v.deposit) {
                    Some(p) => p,
                    None => {
                        return Err(Error::Overflow);
                    },
                };
                let reward = product / c.total_winning_tokens;
                match reward.checked_add(v.deposit) {
                    Some(p) => p,
                    None => {
                        return Err(Error::Overflow);
                    },
                }
            } else {
                0
            };
            (i, v, winner, payout)
        };
        let mut c = match self.challenges.remove(&challenge_id) {
            Some(c) => c,
            None => {
                proof {
                    assert(false);
                }
                return Err(Error::ChallengeNotFound);
            },
        };
        let ghost old_votes = c.votes@;
        let marked = Vote { voter: sender, in_favor: v.in_favor, deposit: v.deposit, claimed: true };
        c.votes.set(i, marked);
        self.challenges.insert(challenge_id, c);
        proof {
            assert(old(self).challenge_ok(challenge_id));
            assert(old_votes[i as int] == v && v.voter == sender);
            lemma_find_vote_update(old_votes, i as int, marked);
        }
        if winner {
            let _released: u64 = ledger.unreserve(sender, payout);
            self.events.push(Event::Claimed(sender, challenge_id));
        }
        proof {
            assert forall|lid: u32| self.listings@.contains_key(lid)
                implies self.listing_ok(lid) by {
                assert(old(self).listing_ok(lid));
                match old(self).listings@[lid].challenge_id {
                    Some(x) => {
                        assert(x != challenge_id);
                    },
                    None => {},
                }
            }
            assert forall|x: u32| self.challenges@.contains_key(x)
                implies self.challenge_ok(x) by {
                assert(old(self).challenge_ok(x));
            }
        }
        Ok(())
    }
}

} // verus!
