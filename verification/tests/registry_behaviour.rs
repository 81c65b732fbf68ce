//! End-to-end behaviour: the full propose/challenge/vote/resolve/claim
//! cycle, every rejection reason, the expiry index, and conservation of
//! balances.

use tcr::auth::Origin;
use tcr::errors::Error;
use tcr::events::Event;
use tcr::ledger::Ledger;
use tcr::state::Tcr;

fn fresh(min_deposit: u64, apply_stage_len: u64, commit_stage_len: u64) -> (Tcr, Ledger) {
    let mut state = Tcr::new();
    let mut ledger = Ledger::new();
    ledger.endow(1, 1_000_000);
    ledger.endow(2, 1_000_000);
    ledger.endow(3, 1_000_000);
    ledger.endow(4, 1_000_000);
    state
        .set_config(Origin::Root, min_deposit, apply_stage_len, commit_stage_len)
        .expect("root may always set the parameters");
    (state, ledger)
}

fn total_of(ledger: &Ledger, account: u64) -> u128 {
    ledger.free_of(account) as u128 + ledger.reserved_of(account) as u128
}

#[test]
fn full_cycle_scenario() {
    let (mut s, mut l) = fresh(100, 10, 10);

    assert!(s.propose(&mut l, Origin::Signed(1), 1, 101, 0).is_ok());
    assert_eq!(s.events().last(), Some(&Event::Proposed(1, 1, 101)));

    let own = s.challenge(&mut l, Origin::Signed(1), 1, 101, 1);
    assert_eq!(
        own.unwrap_err().message(),
        "You cannot challenge your own listing."
    );

    assert!(s.challenge(&mut l, Origin::Signed(2), 1, 101, 1).is_ok());
    let c = s.challenges(1).unwrap();
    assert_eq!(c.votes_for, 101);
    assert_eq!(c.votes_against, 101);
    assert_eq!(c.voting_ends, 11);

    assert!(s.vote(&mut l, Origin::Signed(3), 1, true, 50, 5).is_ok());
    assert_eq!(s.challenges(1).unwrap().votes_for, 151);

    let early = s.resolve(&mut l, 1, 5);
    assert_eq!(
        early.unwrap_err().message(),
        "Commit stage length has not passed."
    );

    assert!(s.resolve(&mut l, 1, 11).is_ok());
    let listing = s.listings(1).unwrap();
    assert!(listing.in_registry);
    assert_eq!(listing.challenge_id, None);
    let c = s.challenges(1).unwrap();
    assert!(c.resolved);
    assert!(c.passed);
    // votes_for(151) >= votes_against(101): the pool is the challenger's
    // 101 plus the against-tally of 101
    assert_eq!(c.reward_pool, 202);
    assert_eq!(c.total_winning_tokens, 151);
    let n = s.events().len();
    assert_eq!(s.events()[n - 2], Event::Accepted(1));
    assert_eq!(s.events()[n - 1], Event::Resolved(1, true));
}

#[test]
fn claim_pays_winner_and_fails_second_time() {
    let (mut s, mut l) = fresh(100, 10, 10);
    assert!(s.propose(&mut l, Origin::Signed(1), 1, 101, 0).is_ok());
    assert!(s.challenge(&mut l, Origin::Signed(2), 1, 101, 1).is_ok());
    assert!(s.vote(&mut l, Origin::Signed(3), 1, true, 50, 5).is_ok());
    assert!(s.resolve(&mut l, 1, 11).is_ok());

    let before = s.claim_reward(&mut l, Origin::Signed(3), 1);
    assert!(before.is_ok());
    // the payout is floor(202 * 50 / 151) + 50 = 116, but the ledger can
    // only release what the voter actually has reserved: their 50
    assert_eq!(l.reserved_of(3), 0);
    assert_eq!(l.free_of(3), 1_000_000);
    assert!(s.vote_of(1, 3).unwrap().claimed);
    assert_eq!(s.events().last(), Some(&Event::Claimed(3, 1)));

    let again = s.claim_reward(&mut l, Origin::Signed(3), 1);
    assert_eq!(again, Err(Error::AlreadyClaimed));
    assert_eq!(
        again.unwrap_err().message(),
        "Vote reward has already been claimed."
    );
    assert_eq!(l.free_of(3), 1_000_000);
}

#[test]
fn claim_marks_loser_without_release() {
    let (mut s, mut l) = fresh(100, 10, 10);
    assert!(s.propose(&mut l, Origin::Signed(1), 1, 101, 0).is_ok());
    assert!(s.challenge(&mut l, Origin::Signed(2), 1, 101, 1).is_ok());
    // account 3 votes against, but the listing wins the tie-break
    assert!(s.vote(&mut l, Origin::Signed(3), 1, false, 50, 5).is_ok());
    assert!(s.vote(&mut l, Origin::Signed(4), 1, true, 60, 5).is_ok());
    assert!(s.resolve(&mut l, 1, 11).is_ok());
    assert!(s.challenges(1).unwrap().passed);

    let events_before = s.events().len();
    assert!(s.claim_reward(&mut l, Origin::Signed(3), 1).is_ok());
    // the losing stake stays forfeited and no event is emitted
    assert_eq!(l.reserved_of(3), 50);
    assert_eq!(l.free_of(3), 1_000_000 - 50);
    assert!(s.vote_of(1, 3).unwrap().claimed);
    assert_eq!(s.events().len(), events_before);

    assert_eq!(
        s.claim_reward(&mut l, Origin::Signed(3), 1),
        Err(Error::AlreadyClaimed)
    );
}

#[test]
fn rejected_listing_refunds_challenger() {
    let (mut s, mut l) = fresh(100, 10, 10);
    assert!(s.propose(&mut l, Origin::Signed(1), 1, 101, 0).is_ok());
    assert!(s.challenge(&mut l, Origin::Signed(2), 1, 150, 1).is_ok());
    assert_eq!(l.reserved_of(2), 150);
    assert!(s.resolve(&mut l, 1, 11).is_ok());
    // votes_for(101) < votes_against(150): rejected, challenger refunded
    assert!(!s.listings(1).unwrap().in_registry);
    assert_eq!(l.reserved_of(2), 0);
    assert_eq!(l.free_of(2), 1_000_000);
    let c = s.challenges(1).unwrap();
    assert_eq!(c.reward_pool, 101 + 101);
    assert_eq!(c.total_winning_tokens, 150);
}

#[test]
fn resolve_happens_exactly_once() {
    // a long apply stage keeps the second call from re-entering through
    // the unchallenged branch
    let (mut s, mut l) = fresh(100, 100, 10);
    assert!(s.propose(&mut l, Origin::Signed(1), 1, 101, 0).is_ok());
    assert!(s.challenge(&mut l, Origin::Signed(2), 1, 101, 1).is_ok());
    assert!(s.resolve(&mut l, 1, 11).is_ok());
    let record = s.challenges(1).unwrap().clone();

    let second = s.resolve(&mut l, 1, 11);
    assert_eq!(second, Err(Error::ApplyStageNotPassed));
    assert_eq!(*s.challenges(1).unwrap(), record);
}

#[test]
fn resolve_unchallenged_accepts_at_expiry() {
    let (mut s, mut l) = fresh(100, 10, 10);
    assert!(s.propose(&mut l, Origin::Signed(1), 1, 101, 0).is_ok());
    let early = s.resolve(&mut l, 1, 9);
    assert_eq!(
        early.unwrap_err().message(),
        "Apply stage length has not passed."
    );
    assert!(s.resolve(&mut l, 1, 10).is_ok());
    assert!(s.listings(1).unwrap().in_registry);
    assert_eq!(s.events().last(), Some(&Event::Accepted(1)));
}

#[test]
fn vote_rejections() {
    let (mut s, mut l) = fresh(100, 10, 10);
    assert_eq!(
        s.vote(&mut l, Origin::Signed(3), 7, true, 10, 0),
        Err(Error::ChallengeNotFound)
    );
    assert!(s.propose(&mut l, Origin::Signed(1), 1, 101, 0).is_ok());
    assert!(s.challenge(&mut l, Origin::Signed(2), 1, 101, 0).is_ok());
    // the commit stage closes at its very end height
    assert_eq!(
        s.vote(&mut l, Origin::Signed(3), 1, true, 10, 10),
        Err(Error::CommitStagePassed)
    );
    assert!(s.vote(&mut l, Origin::Signed(3), 1, true, 10, 9).is_ok());
    assert_eq!(
        s.vote(&mut l, Origin::Signed(3), 1, false, 10, 9),
        Err(Error::DuplicateVote)
    );
    assert_eq!(
        s.vote(&mut l, Origin::Signed(9), 1, true, 10, 9),
        Err(Error::InsufficientBalance)
    );
    assert!(s.resolve(&mut l, 1, 10).is_ok());
    assert_eq!(
        s.vote(&mut l, Origin::Signed(4), 1, true, 10, 9),
        Err(Error::AlreadyResolved)
    );
}

#[test]
fn challenge_rejections() {
    let (mut s, mut l) = fresh(100, 10, 10);
    assert_eq!(
        s.challenge(&mut l, Origin::Signed(2), 9, 101, 0),
        Err(Error::ListingNotFound)
    );
    assert!(s.propose(&mut l, Origin::Signed(1), 1, 101, 0).is_ok());
    assert_eq!(
        s.challenge(&mut l, Origin::Signed(2), 1, 100, 0),
        Err(Error::ChallengeDepositTooLow)
    );
    // an applicant's challenge window closes with its apply stage
    assert_eq!(
        s.challenge(&mut l, Origin::Signed(2), 1, 101, 10),
        Err(Error::ApplyStagePassed)
    );
    assert_eq!(
        s.challenge(&mut l, Origin::Signed(9), 1, 101, 0),
        Err(Error::InsufficientBalance)
    );
    assert!(s.challenge(&mut l, Origin::Signed(2), 1, 101, 0).is_ok());
    assert_eq!(
        s.challenge(&mut l, Origin::Signed(3), 1, 101, 0),
        Err(Error::AlreadyChallenged)
    );
}

#[test]
fn listed_entries_can_be_rechallenged_after_expiry() {
    let (mut s, mut l) = fresh(100, 10, 10);
    assert!(s.propose(&mut l, Origin::Signed(1), 1, 101, 0).is_ok());
    assert!(s.promote_application(Origin::Signed(1), 1, 10).is_ok());
    // in the registry, the apply-stage window no longer shields it
    assert!(s.challenge(&mut l, Origin::Signed(2), 1, 101, 50).is_ok());
}

#[test]
fn propose_rejections() {
    let (mut s, mut l) = fresh(100, 10, 10);
    assert_eq!(
        s.propose(&mut l, Origin::Root, 1, 101, 0),
        Err(Error::BadOrigin)
    );
    assert_eq!(
        s.propose(&mut l, Origin::Signed(9), 1, 101, 0),
        Err(Error::InsufficientBalance)
    );
    assert_eq!(
        s.propose(&mut l, Origin::Signed(1), 1, 101, u64::MAX - 5),
        Err(Error::Overflow)
    );
    assert!(s.propose(&mut l, Origin::Signed(1), 1, 101, 0).is_ok());
    assert_eq!(
        s.propose(&mut l, Origin::Signed(2), 1, 101, 0),
        Err(Error::ListingExists)
    );
}

#[test]
fn unset_parameters_fail_closed() {
    let mut s = Tcr::new();
    let mut l = Ledger::new();
    l.endow(1, 1_000_000);
    assert_eq!(
        s.propose(&mut l, Origin::Signed(1), 1, 101, 0),
        Err(Error::MinDepositNotSet)
    );
    assert!(s.set_config(Origin::Root, 100, 10, 10).is_ok());
    // each parameter is checked on its own
    s.apply_stage_len = None;
    assert_eq!(
        s.propose(&mut l, Origin::Signed(1), 1, 101, 0),
        Err(Error::ApplyStageLenNotSet)
    );
    s.apply_stage_len = Some(10);
    s.commit_stage_len = None;
    l.endow(2, 1_000_000);
    assert!(s.propose(&mut l, Origin::Signed(1), 1, 101, 0).is_ok());
    assert_eq!(
        s.challenge(&mut l, Origin::Signed(2), 1, 101, 0),
        Err(Error::CommitStageLenNotSet)
    );
}

#[test]
fn set_config_needs_root() {
    let mut s = Tcr::new();
    let r = s.set_config(Origin::Signed(1), 100, 10, 10);
    assert_eq!(r, Err(Error::BadOrigin));
    assert_eq!(s.min_deposit(), None);
    assert!(s.set_config(Origin::Root, 100, 10, 10).is_ok());
    assert_eq!(s.min_deposit(), Some(100));
    assert_eq!(s.apply_stage_len(), Some(10));
    assert_eq!(s.commit_stage_len(), Some(10));
}

#[test]
fn root_cannot_act_as_a_participant() {
    let (mut s, mut l) = fresh(100, 10, 10);
    assert!(s.propose(&mut l, Origin::Signed(1), 1, 101, 0).is_ok());
    assert_eq!(
        s.challenge(&mut l, Origin::Root, 1, 101, 0),
        Err(Error::BadOrigin)
    );
    assert!(s.challenge(&mut l, Origin::Signed(2), 1, 101, 0).is_ok());
    assert_eq!(
        s.vote(&mut l, Origin::Root, 1, true, 10, 5),
        Err(Error::BadOrigin)
    );
    assert_eq!(
        s.promote_application(Origin::Root, 1, 10),
        Err(Error::BadOrigin)
    );
    assert_eq!(
        s.claim_reward(&mut l, Origin::Root, 1),
        Err(Error::BadOrigin)
    );
}

#[test]
fn challenge_overflow_guard() {
    let (mut s, mut l) = fresh(100, 10, 10);
    assert!(s.propose(&mut l, Origin::Signed(1), 1, 101, 0).is_ok());
    // the voting end would not fit a block height
    assert_eq!(
        s.challenge(&mut l, Origin::Signed(2), 1, 101, u64::MAX - 5),
        Err(Error::Overflow)
    );
}

#[test]
fn claim_rejections() {
    let (mut s, mut l) = fresh(100, 10, 10);
    assert_eq!(
        s.claim_reward(&mut l, Origin::Signed(3), 1),
        Err(Error::ChallengeNotFound)
    );
    assert!(s.propose(&mut l, Origin::Signed(1), 1, 101, 0).is_ok());
    assert!(s.challenge(&mut l, Origin::Signed(2), 1, 101, 0).is_ok());
    assert!(s.vote(&mut l, Origin::Signed(3), 1, true, 50, 5).is_ok());
    assert_eq!(
        s.claim_reward(&mut l, Origin::Signed(3), 1),
        Err(Error::NotResolved)
    );
    assert!(s.resolve(&mut l, 1, 10).is_ok());
    assert_eq!(
        s.claim_reward(&mut l, Origin::Signed(4), 1),
        Err(Error::VoteNotFound)
    );
}

#[test]
fn claim_division_by_zero() {
    // with a zero minimum everything may carry zero stake, leaving the
    // winning tally empty
    let (mut s, mut l) = fresh(0, 10, 10);
    assert!(s.propose(&mut l, Origin::Signed(1), 1, 0, 0).is_ok());
    assert!(s.challenge(&mut l, Origin::Signed(2), 1, 0, 0).is_ok());
    assert!(s.vote(&mut l, Origin::Signed(3), 1, true, 0, 5).is_ok());
    assert!(s.resolve(&mut l, 1, 10).is_ok());
    let c = s.challenges(1).unwrap();
    assert!(c.passed);
    assert_eq!(c.total_winning_tokens, 0);
    assert_eq!(
        s.claim_reward(&mut l, Origin::Signed(3), 1),
        Err(Error::DivisionByZero)
    );
}

#[test]
fn claim_overflow() {
    let big = 1u64 << 32;
    let mut s = Tcr::new();
    let mut l = Ledger::new();
    l.endow(1, big);
    l.endow(2, big);
    l.endow(3, big * 2);
    assert!(s.set_config(Origin::Root, 0, 10, 10).is_ok());
    assert!(s.propose(&mut l, Origin::Signed(1), 1, big, 0).is_ok());
    assert!(s.challenge(&mut l, Origin::Signed(2), 1, big, 0).is_ok());
    assert!(s.vote(&mut l, Origin::Signed(3), 1, true, big * 2, 5).is_ok());
    assert!(s.resolve(&mut l, 1, 10).is_ok());
    let c = s.challenges(1).unwrap();
    assert!(c.passed);
    // reward_pool * deposit = 2^33 * 2^33 no longer fits a u64
    assert_eq!(c.reward_pool, big * 2);
    assert_eq!(
        s.claim_reward(&mut l, Origin::Signed(3), 1),
        Err(Error::Overflow)
    );
}

#[test]
fn exact_reward_formula() {
    let (mut s, mut l) = fresh(100, 10, 10);
    assert!(s.propose(&mut l, Origin::Signed(1), 1, 100, 0).is_ok());
    assert!(s.challenge(&mut l, Origin::Signed(2), 1, 300, 0).is_ok());
    assert!(s.vote(&mut l, Origin::Signed(3), 1, false, 100, 5).is_ok());
    assert!(s.resolve(&mut l, 1, 10).is_ok());
    let c = s.challenges(1).unwrap();
    // votes_for(100) < votes_against(400): pool = 100 + 100, total = 400
    assert!(!c.passed);
    assert_eq!(c.reward_pool, 200);
    assert_eq!(c.total_winning_tokens, 400);
    // winner 3: floor(200 * 100 / 400) = 50, plus their 100 back;
    // they hold exactly 100 reserved, so 100 is released
    assert!(s.claim_reward(&mut l, Origin::Signed(3), 1).is_ok());
    assert_eq!(l.free_of(3), 1_000_000);
    assert_eq!(l.reserved_of(3), 0);
}

#[test]
fn tick_promotes_due_application() {
    let (mut s, mut l) = fresh(100, 10, 10);
    assert!(s.propose(&mut l, Origin::Signed(1), 1, 101, 0).is_ok());
    assert_eq!(s.due_at(10), Some(&vec![1u32]));
    s.tick(&mut l, 10);
    assert!(s.listings(1).unwrap().in_registry);
    assert_eq!(s.due_at(10), None);
    assert_eq!(s.events().last(), Some(&Event::Accepted(1)));
}

#[test]
fn tick_resolves_due_challenge() {
    let (mut s, mut l) = fresh(100, 10, 5);
    assert!(s.propose(&mut l, Origin::Signed(1), 1, 101, 0).is_ok());
    assert!(s.challenge(&mut l, Origin::Signed(2), 1, 150, 1).is_ok());
    assert_eq!(s.due_at(6), Some(&vec![1u32]));
    s.tick(&mut l, 6);
    assert!(s.challenges(1).unwrap().resolved);
    assert!(!s.listings(1).unwrap().in_registry);
    assert_eq!(s.due_at(6), None);
}

#[test]
fn tick_skips_superseded_entries() {
    let (mut s, mut l) = fresh(100, 10, 5);
    assert!(s.propose(&mut l, Origin::Signed(1), 1, 101, 0).is_ok());
    assert!(s.challenge(&mut l, Origin::Signed(2), 1, 150, 1).is_ok());
    // resolved by hand before the tick comes round
    assert!(s.resolve(&mut l, 1, 6).is_ok());
    let record = s.challenges(1).unwrap().clone();
    s.tick(&mut l, 6);
    assert_eq!(s.due_at(6), None);
    assert_eq!(*s.challenges(1).unwrap(), record);
}

#[test]
fn balances_are_conserved_throughout() {
    let (mut s, mut l) = fresh(100, 10, 10);
    let start: Vec<u128> = (1..=4).map(|a| total_of(&l, a)).collect();
    assert!(s.propose(&mut l, Origin::Signed(1), 1, 101, 0).is_ok());
    assert!(s.challenge(&mut l, Origin::Signed(2), 1, 150, 1).is_ok());
    assert!(s.vote(&mut l, Origin::Signed(3), 1, true, 70, 5).is_ok());
    assert!(s.vote(&mut l, Origin::Signed(4), 1, false, 30, 5).is_ok());
    assert!(s.resolve(&mut l, 1, 11).is_ok());
    let _ = s.claim_reward(&mut l, Origin::Signed(3), 1);
    let _ = s.claim_reward(&mut l, Origin::Signed(4), 1);
    s.tick(&mut l, 10);
    s.tick(&mut l, 11);
    for a in 1..=4u64 {
        assert_eq!(total_of(&l, a), start[(a - 1) as usize]);
    }
}

#[test]
fn events_record_the_full_history() {
    let (mut s, mut l) = fresh(100, 10, 10);
    assert!(s.propose(&mut l, Origin::Signed(1), 1, 101, 0).is_ok());
    assert!(s.challenge(&mut l, Origin::Signed(2), 1, 101, 1).is_ok());
    assert!(s.vote(&mut l, Origin::Signed(3), 1, true, 50, 5).is_ok());
    assert!(s.resolve(&mut l, 1, 11).is_ok());
    assert!(s.claim_reward(&mut l, Origin::Signed(3), 1).is_ok());
    let expected = vec![
        Event::Proposed(1, 1, 101),
        Event::Challenged(2, 1, 1, 101),
        Event::Voted(3, 1, true, 50),
        Event::Accepted(1),
        Event::Resolved(1, true),
        Event::Claimed(3, 1),
    ];
    assert_eq!(s.events(), &expected);
}

#[test]
fn challenge_ids_count_up_from_one() {
    let (mut s, mut l) = fresh(100, 10, 10);
    assert_eq!(s.next_challenge_id(), 1);
    assert!(s.propose(&mut l, Origin::Signed(1), 1, 101, 0).is_ok());
    assert!(s.propose(&mut l, Origin::Signed(2), 2, 101, 0).is_ok());
    assert!(s.challenge(&mut l, Origin::Signed(2), 1, 101, 0).is_ok());
    assert!(s.challenge(&mut l, Origin::Signed(1), 2, 101, 0).is_ok());
    assert_eq!(s.next_challenge_id(), 3);
    assert_eq!(s.challenges(1).unwrap().listing_id, 1);
    assert_eq!(s.challenges(2).unwrap().listing_id, 2);
}
