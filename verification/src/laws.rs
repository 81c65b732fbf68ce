//! The registry's laws: properties that hold across operations, proved
//! from the operations' own contracts. Each operation's contract already
//! carries the conservation clause `Ledger::totals_unchanged`: no
//! operation creates or destroys an account's balance, it only moves
//! stake between free and reserved — so everything ever released was once
//! reserved.

use vstd::prelude::*;
use crate::auth::Origin;
use crate::errors::Error;
use crate::ledger::Ledger;
use crate::state::Tcr;
use crate::types::Vote;
use crate::types::find_vote;

verus! {

/// For every deposit below the configured minimum, `propose` rejects the
/// proposal outright — and by `propose`'s contract a rejected proposal
/// leaves the ledger untouched, so no stake is reserved.
pub proof fn lemma_low_deposit_proposal_rejected(
    pre: Tcr,
    prel: Ledger,
    sender: u64,
    listing_id: u32,
    deposit: u64,
    now: u64,
    m: u64,
)
    requires
        pre.min_deposit == Some(m),
        deposit < m,
    ensures
        Tcr::propose_err(pre, prel, Origin::Signed(sender), listing_id, deposit, now)
            == Some(Error::DepositTooLow),
{
}

/// A listing's owner can never successfully challenge their own listing:
/// whatever else holds, `challenge` rejects the attempt.
pub proof fn lemma_self_challenge_rejected(
    pre: Tcr,
    prel: Ledger,
    sender: u64,
    listing_id: u32,
    deposit: u64,
    now: u64,
)
    requires
        pre.listings@.contains_key(listing_id),
        pre.listings@[listing_id].owner == sender,
    ensures
        Tcr::challenge_err(pre, prel, Origin::Signed(sender), listing_id, deposit, now) is Some,
{
}

/// Once the commit stage is over — `now` at or past the challenge's
/// voting end — `vote` always rejects.
pub proof fn lemma_vote_after_close_rejected(
    pre: Tcr,
    prel: Ledger,
    sender: u64,
    challenge_id: u32,
    in_favor: bool,
    deposit: u64,
    now: u64,
)
    requires
        pre.challenges@.contains_key(challenge_id),
        now >= pre.challenges@[challenge_id].voting_ends,
    ensures
        Tcr::vote_err(pre, prel, Origin::Signed(sender), challenge_id, in_favor, deposit, now)
            is Some,
{
}

/// Strictly before the voting end, a vote from an account with enough
/// free balance and no earlier vote in the (unresolved) challenge always
/// goes through — provided its side of the tally has room left, which
/// rules out the one input `vote` must still reject, a tally overflowing
/// its type.
pub proof fn lemma_vote_before_close_accepted(
    pre: Tcr,
    prel: Ledger,
    sender: u64,
    challenge_id: u32,
    in_favor: bool,
    deposit: u64,
    now: u64,
)
    requires
        pre.challenges@.contains_key(challenge_id),
        !pre.challenges@[challenge_id].resolved,
        now < pre.challenges@[challenge_id].voting_ends,
        find_vote(pre.challenges@[challenge_id].votes@, sender) is None,
        prel.spec_free(sender) >= deposit,
        in_favor ==> pre.challenges@[challenge_id].votes_for + deposit <= u64::MAX,
        !in_favor ==> pre.challenges@[challenge_id].votes_against + deposit <= u64::MAX,
    ensures
        Tcr::vote_err(pre, prel, Origin::Signed(sender), challenge_id, in_favor, deposit, now)
            is None,
{
}

/// Before the relevant expiry — the apply stage's end for an
/// unchallenged listing, the commit stage's end for a challenged one —
/// `resolve` always rejects.
pub proof fn lemma_resolve_early_rejected(pre: Tcr, listing_id: u32, now: u64)
    requires
        pre.listings@.contains_key(listing_id),
        match pre.listings@[listing_id].challenge_id {
            None => now < pre.listings@[listing_id].application_expiry,
            Some(cid) => pre.challenges@.contains_key(cid)
                && !pre.challenges@[cid].resolved
                && now < pre.challenges@[cid].voting_ends,
        },
    ensures
        Tcr::resolve_err(pre, listing_id, now) is Some,
{
}

/// At or after the relevant expiry, `resolve` always goes through —
/// provided the reward pool fits its type, which rules out the one input
/// `resolve` must still reject, an overflowing pool.
pub proof fn lemma_resolve_due_accepted(pre: Tcr, listing_id: u32, now: u64)
    requires
        pre.wf(),
        pre.listings@.contains_key(listing_id),
        match pre.listings@[listing_id].challenge_id {
            None => now >= pre.listings@[listing_id].application_expiry,
            Some(cid) => {
                let c = pre.challenges@[cid];
                &&& now >= c.voting_ends
                &&& c.votes_for >= c.votes_against
                    ==> c.deposit + c.votes_against <= u64::MAX
                &&& c.votes_for < c.votes_against
                    ==> pre.listings@[listing_id].deposit + c.votes_for <= u64::MAX
            },
        },
    ensures
        Tcr::resolve_err(pre, listing_id, now) is None,
{
    match pre.listings@[listing_id].challenge_id {
        Some(cid) => {
            assert(pre.listing_ok(listing_id));
            assert(pre.challenges@.contains_key(cid));
            assert(!pre.challenges@[cid].resolved);
        },
        None => {},
    }
}

/// Resolution happens exactly once: once a challenge is resolved, no
/// later `resolve` call — on any listing — touches its record again, so
/// its rewards are never recomputed. (In a well-formed state no listing
/// points at a resolved challenge, so the challenged branch can never
/// reach it; and `resolve` rejects rather than re-resolve.)
pub proof fn lemma_resolve_single_shot(
    pre: Tcr,
    prel: Ledger,
    post: Tcr,
    postl: Ledger,
    cid: u32,
    listing_id: u32,
    now: u64,
)
    requires
        pre.wf(),
        pre.challenges@.contains_key(cid),
        pre.challenges@[cid].resolved,
        Tcr::resolve_step(pre, prel, post, postl, listing_id, now),
    ensures
        post.challenges@.contains_key(cid),
        post.challenges@[cid] == pre.challenges@[cid],
{
    if Tcr::resolve_err(pre, listing_id, now) is None {
        match pre.listings@[listing_id].challenge_id {
            Some(x) => {
                assert(x != cid);
            },
            None => {},
        }
    }
}

/// Claiming succeeds at most once: a committed
/// `claim_reward` leaves the vote marked claimed, so the same account's
/// next claim for the same challenge rejects — and by `claim_reward`'s
/// contract a rejected claim moves nothing, so there is no double
/// payout.
pub proof fn lemma_claim_once(
    pre: Tcr,
    prel: Ledger,
    post: Tcr,
    postl: Ledger,
    sender: u64,
    challenge_id: u32,
)
    requires
        Tcr::claim_err(pre, Origin::Signed(sender), challenge_id) is None,
        Tcr::claim_ok_post(pre, post, prel, postl, sender, challenge_id),
    ensures
        Tcr::claim_err(post, Origin::Signed(sender), challenge_id)
            == Some(Error::AlreadyClaimed),
{
    let c = pre.challenges@[challenge_id];
    let v = find_vote(c.votes@, sender)->Some_0;
    assert(find_vote(post.challenges@[challenge_id].votes@, sender) == Some(
        Vote { voter: sender, in_favor: v.in_favor, deposit: v.deposit, claimed: true },
    ));
}

/// Conservation across automatic resolution chains: a chain of resolve
/// steps never changes any account's total balance. Together with the
/// `Ledger::totals_unchanged` clause in the contract of every operation,
/// stake is only ever moved between free and reserved: whatever
/// `claim_reward` or a defeated challenger's refund releases was
/// reserved before, and losing stakes simply stay forfeited.
pub proof fn lemma_steps_preserve_totals(
    pre_s: Tcr,
    pre_l: Ledger,
    post_s: Tcr,
    post_l: Ledger,
    lids: Seq<u32>,
    now: u64,
)
    requires
        Tcr::resolve_steps(pre_s, pre_l, post_s, post_l, lids, now),
    ensures
        Ledger::totals_unchanged(pre_l, post_l),
    decreases lids.len(),
{
    if lids.len() == 0 {
    } else {
        let (m_s, m_l) = choose|m_s: Tcr, m_l: Ledger|
            #[trigger] Tcr::resolve_step(pre_s, pre_l, m_s, m_l, lids[0], now)
                && Tcr::resolve_steps(m_s, m_l, post_s, post_l, lids.drop_first(), now);
        lemma_step_preserves_totals(pre_s, pre_l, m_s, m_l, lids[0], now);
        lemma_steps_preserve_totals(m_s, m_l, post_s, post_l, lids.drop_first(), now);
    }
}

/// One resolve step never changes any account's total balance.
pub proof fn lemma_step_preserves_totals(
    pre_s: Tcr,
    pre_l: Ledger,
    post_s: Tcr,
    post_l: Ledger,
    lid: u32,
    now: u64,
)
    requires
        Tcr::resolve_step(pre_s, pre_l, post_s, post_l, lid, now),
    ensures
        Ledger::totals_unchanged(pre_l, post_l),
{
    if Tcr::resolve_err(pre_s, lid, now) is None {
        match pre_s.listings@[lid].challenge_id {
            Some(cid) => {
                let c = pre_s.challenges@[cid];
                if c.votes_for < c.votes_against {
                    assert forall|a: u64| #[trigger] post_l.total_of(a) == pre_l.total_of(a) by {
                        if a != c.owner {
                            assert(post_l.spec_free(a) == pre_l.spec_free(a)
                                && post_l.spec_reserved(a) == pre_l.spec_reserved(a));
                        }
                    }
                }
            },
            None => {},
        }
    }
}

} // verus!
