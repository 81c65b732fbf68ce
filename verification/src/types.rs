//! The registry's data model: listings, challenges, and votes, together
//! with the specification functions that read a challenge's ballot.

use vstd::prelude::*;

verus! {

/// A listing: a stake-backed entry under consideration for, or already
/// part of, the registry. Listings are never physically deleted; a
/// rejected listing stays addressable with `in_registry` false.
#[derive(Clone, Copy, Debug, PartialEq, Eq)]
pub struct ListingDetail {
    /// Stake reserved by the owner, backing the listing.
    pub deposit: u64,
    /// The proposing account.
    pub owner: u64,
    /// Block height after which an unchallenged listing may be promoted.
    pub application_expiry: u64,
    /// Whether the listing currently sits in the registry.
    pub in_registry: bool,
    /// The active challenge over this listing, at most one at a time.
    pub challenge_id: Option<u32>,
}

/// One vote in a challenge's ballot. One vote per voter per challenge;
/// votes are never changed, only claimed once after resolution.
#[derive(Clone, Copy, Debug, PartialEq, Eq)]
pub struct Vote {
    /// The voting account.
    pub voter: u64,
    /// True to keep the listing in the registry, false to throw it out.
    pub in_favor: bool,
    /// Stake backing the vote; voting power is exactly this amount.
    pub deposit: u64,
    /// Whether the vote's reward has been claimed.
    pub claimed: bool,
}

/// A challenge: a stake-backed dispute against one listing, resolved by
/// stake-weighted vote. Challenges are kept after resolution as immutable
/// records for reward claims.
#[derive(Clone, Debug, PartialEq, Eq)]
pub struct ChallengeDetail {
    /// The challenged listing.
    pub listing_id: u32,
    /// The challenger's stake.
    pub deposit: u64,
    /// The challenging account.
    pub owner: u64,
    /// Block height at which the commit stage ends.
    pub voting_ends: u64,
    /// Whether the challenge has been resolved.
    pub resolved: bool,
    /// The outcome, meaningful once resolved: whether the listing stayed in
    /// (or entered) the registry.
    pub passed: bool,
    /// The losing side's pooled stake, set at resolution.
    pub reward_pool: u64,
    /// The winning side's summed voting tokens, set at resolution.
    pub total_winning_tokens: u64,
    /// Running "keep it" tally, seeded with the listing's own deposit.
    pub votes_for: u64,
    /// Running "throw it out" tally, seeded with the challenger's deposit.
    pub votes_against: u64,
    /// The ballot: one vote per voter.
    pub votes: Vec<Vote>,
}

/// The first vote cast by `voter` in the ballot, if any. Ballots keep
/// voters distinct, so the first match is the only one.
pub open spec fn find_vote(votes: Seq<Vote>, voter: u64) -> Option<Vote>
    decreases votes.len(),
{
    if votes.len() == 0 {
        None
    } else if votes[0].voter == voter {
        Some(votes[0])
    } else {
        find_vote(votes.drop_first(), voter)
    }
}

/// The summed stake backing the ballot's votes.
pub open spec fn sum_vote_deposits(votes: Seq<Vote>) -> int
    decreases votes.len(),
{
    if votes.len() == 0 {
        0
    } else {
        votes[0].deposit + sum_vote_deposits(votes.drop_first())
    }
}

/// No two votes in the ballot come from the same account.
pub open spec fn distinct_voters(votes: Seq<Vote>) -> bool {
    forall|i: int, j: int| 0 <= i < j < votes.len()
        ==> (#[trigger] votes[i]).voter != (#[trigger] votes[j]).voter
}

/// What `find_vote` finds: a vote of the sought voter that sits in the
/// ballot, or nothing exactly when no vote of that voter sits there.
pub proof fn lemma_find_vote_characterises(votes: Seq<Vote>, voter: u64)
    ensures
        match find_vote(votes, voter) {
            Some(v) => v.voter == voter
                && exists|i: int| 0 <= i < votes.len() && votes[i] == v,
            None => forall|i: int| 0 <= i < votes.len()
                ==> (#[trigger] votes[i]).voter != voter,
        },
    decreases votes.len(),
{
    if votes.len() > 0 {
        if votes[0].voter == voter {
            assert(votes[0] == votes[0]);
        } else {
            lemma_find_vote_characterises(votes.drop_first(), voter);
            match find_vote(votes.drop_first(), voter) {
                Some(v) => {
                    let i = choose|i: int|
                        0 <= i < votes.drop_first().len() && votes.drop_first()[i] == v;
                    assert(votes[i + 1] == v);
                },
                None => {
                    assert forall|i: int| 0 <= i < votes.len()
                        implies (#[trigger] votes[i]).voter != voter by {
                        if i > 0 {
                            assert(votes.drop_first()[i - 1] == votes[i]);
                        }
                    }
                },
            }
        }
    }
}

/// Appending a vote adds exactly its deposit to the ballot's summed stake.
pub proof fn lemma_sum_vote_deposits_push(votes: Seq<Vote>, v: Vote)
    ensures
        sum_vote_deposits(votes.push(v)) == sum_vote_deposits(votes) + v.deposit,
    decreases votes.len(),
{
    if votes.len() == 0 {
        assert(votes.push(v)[0] == v);
        assert(votes.push(v).drop_first() =~= Seq::<Vote>::empty());
        assert(sum_vote_deposits(votes.push(v))
            == v.deposit + sum_vote_deposits(Seq::<Vote>::empty()));
    } else {
        assert(votes.push(v)[0] == votes[0]);
        assert(votes.push(v).drop_first() =~= votes.drop_first().push(v));
        lemma_sum_vote_deposits_push(votes.drop_first(), v);
        assert(sum_vote_deposits(votes.push(v))
            == votes[0].deposit + sum_vote_deposits(votes.drop_first().push(v)));
    }
}

/// Replacing the vote at position `i` by one from the same voter leaves
/// every other voter's lookup unchanged and makes that voter's lookup find
/// the replacement, provided voters are distinct.
pub proof fn lemma_find_vote_update(votes: Seq<Vote>, i: int, v: Vote)
    requires
        distinct_voters(votes),
        0 <= i < votes.len(),
        v.voter == votes[i].voter,
        find_vote(votes, votes[i].voter) == Some(votes[i]),
    ensures
        find_vote(votes.update(i, v), v.voter) == Some(v),
        forall|w: u64| w != v.voter
            ==> #[trigger] find_vote(votes.update(i, v), w) == find_vote(votes, w),
        distinct_voters(votes.update(i, v)),
    decreases votes.len(),
{
    assert forall|w: u64| w != v.voter
        implies #[trigger] find_vote(votes.update(i, v), w) == find_vote(votes, w) by {
        lemma_find_vote_update_other(votes, i, v, w);
    }
    lemma_find_vote_update_same(votes, i, v);
}

proof fn lemma_find_vote_update_same(votes: Seq<Vote>, i: int, v: Vote)
    requires
        distinct_voters(votes),
        0 <= i < votes.len(),
        v.voter == votes[i].voter,
    ensures
        find_vote(votes.update(i, v), v.voter) == Some(v),
    decreases votes.len(),
{
    let updated = votes.update(i, v);
    if i == 0 {
        assert(updated[0] == v);
    } else {
        assert(updated[0] == votes[0]);
        assert(votes[0].voter != votes[i].voter);
        assert(updated.drop_first() =~= votes.drop_first().update(i - 1, v));
        assert(votes.drop_first()[i - 1] == votes[i]);
        assert forall|p: int, q: int| 0 <= p < q < votes.drop_first().len()
            implies (#[trigger] votes.drop_first()[p]).voter
                != (#[trigger] votes.drop_first()[q]).voter by {
            assert(votes.drop_first()[p] == votes[p + 1]);
            assert(votes.drop_first()[q] == votes[q + 1]);
        }
        lemma_find_vote_update_same(votes.drop_first(), i - 1, v);
    }
}

/// Scans the ballot for the voter's vote and hands back its position.
pub fn find_vote_index(votes: &Vec<Vote>, voter: u64) -> (r: Option<usize>)
    ensures
        match r {
            Some(i) => i < votes.len() && votes@[i as int].voter == voter
                && find_vote(votes@, voter) == Some(votes@[i as int]),
            None => find_vote(votes@, voter) is None,
        },
{
    let n = votes.len();
    proof {
        assert(votes@.skip(0) =~= votes@);
    }
    for i in 0..n
        invariant
            n == votes.len(),
            find_vote(votes@, voter) == find_vote(votes@.skip(i as int), voter),
    {
        if votes[i].voter == voter {
            proof {
                assert(votes@.skip(i as int)[0] == votes@[i as int]);
            }
            return Some(i);
        }
        proof {
            assert(votes@.skip(i as int)[0] == votes@[i as int]);
            assert(votes@.skip(i as int).drop_first() =~= votes@.skip(i as int + 1));
        }
    }
    proof {
        assert(votes@.skip(n as int) =~= Seq::<Vote>::empty());
    }
    None
}

proof fn lemma_find_vote_update_other(votes: Seq<Vote>, i: int, v: Vote, w: u64)
    requires
        0 <= i < votes.len(),
        v.voter == votes[i].voter,
        w != v.voter,
    ensures
        find_vote(votes.update(i, v), w) == find_vote(votes, w),
    decreases votes.len(),
{
    let updated = votes.update(i, v);
    if i == 0 {
        assert(updated[0] == v);
        assert(updated.drop_first() =~= votes.drop_first());
    } else {
        assert(updated[0] == votes[0]);
        if votes[0].voter != w {
            assert(updated.drop_first() =~= votes.drop_first().update(i - 1, v));
            assert(votes.drop_first()[i - 1] == votes[i]);
            lemma_find_vote_update_other(votes.drop_first(), i - 1, v, w);
        }
    }
}

} // verus!
