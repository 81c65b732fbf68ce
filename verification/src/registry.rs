//! The registry component: proposing a listing and promoting an
//! unchallenged application once its apply stage has run out.

use vstd::prelude::*;
use crate::auth::Origin;
use crate::auth::ensure_signed;
use crate::errors::Error;
use crate::events::Event;
use crate::ledger::Ledger;
use crate::state::Tcr;
use crate::types::ListingDetail;

verus! {

broadcast use vstd::std_specs::hash::group_hash_axioms;

impl Tcr {
    /// The first reason `propose` rejects, or `None` when it commits:
    /// the caller must be a signed account, the minimum deposit must be
    /// configured and covered, the apply stage length must be configured
    /// and the computed expiry must fit a block height, the listing id
    /// must be free, and the ledger must be able to reserve the deposit.
    pub open spec fn propose_err(
        pre: Tcr,
        prel: Ledger,
        origin: Origin,
        listing_id: u32,
        deposit: u64,
        now: u64,
    ) -> Option<Error> {
        if origin is Root {
            Some(Error::BadOrigin)
        } else if pre.min_deposit is None {
            Some(Error::MinDepositNotSet)
        } else if deposit < pre.min_deposit->Some_0 {
            Some(Error::DepositTooLow)
        } else if pre.apply_stage_len is None {
            Some(Error::ApplyStageLenNotSet)
        } else if now + pre.apply_stage_len->Some_0 > u64::MAX {
            Some(Error::Overflow)
        } else if pre.listings@.contains_key(listing_id) {
            Some(Error::ListingExists)
        } else if !prel.can_reserve(origin->Signed_0, deposit) {
            Some(Error::InsufficientBalance)
        } else {
            None
        }
    }

    /// What a committed `propose` did: the deposit moved from free to
    /// reserved, the new listing sits outside the registry with its apply
    /// stage running and no challenge, its expiry height is indexed, and
    /// `Proposed` was emitted. Nothing else moved.
    pub open spec fn propose_ok_post(
        pre: Tcr,
        post: Tcr,
        prel: Ledger,
        postl: Ledger,
        sender: u64,
        listing_id: u32,
        deposit: u64,
        now: u64,
    ) -> bool {
        let h = (now + pre.apply_stage_len->Some_0) as u64;
        &&& post.listings@ == pre.listings@.insert(
            listing_id,
            ListingDetail {
                deposit,
                owner: sender,
                application_expiry: h,
                in_registry: false,
                challenge_id: None,
            },
        )
        &&& post.next_challenge_id == pre.next_challenge_id
        &&& post.challenges@ == pre.challenges@
        &&& Tcr::expiry_extended(pre, post, h, listing_id)
        &&& post.events@ == pre.events@.push(Event::Proposed(sender, listing_id, deposit))
        &&& Tcr::params_unchanged(pre, post)
        &&& postl.spec_free(sender) == prel.spec_free(sender) - deposit
        &&& postl.spec_reserved(sender) == prel.spec_reserved(sender) + deposit
        &&& Ledger::others_unchanged(prel, postl, sender)
    }

    /// Proposes a new listing under `listing_id`, reserving `deposit` from
    /// the sender as its backing stake. The listing starts outside the
    /// registry; unchallenged, it may be promoted once `now` plus the
    /// apply stage length has been reached. Fails closed, with no effect,
    /// for exactly the reasons `propose_err` names.
    pub fn propose(
        &mut self,
        ledger: &mut Ledger,
        origin: Origin,
        listing_id: u32,
        deposit: u64,
        now: u64,
    ) -> (r: Result<(), Error>)
        requires
            old(self).wf(),
            old(ledger).wf(),
        ensures
            final(self).wf(),
            final(ledger).wf(),
            Ledger::totals_unchanged(*old(ledger), *final(ledger)),
            Tcr::propose_err(*old(self), *old(ledger), origin, listing_id, deposit, now)
                matches Some(e) ==> r == Err::<(), Error>(e)
                && *final(self) == *old(self) && *final(ledger) == *old(ledger),
            Tcr::propose_err(*old(self), *old(ledger), origin, listing_id, deposit, now)
                is None ==> r == Ok::<(), Error>(())
                && Tcr::propose_ok_post(
                *old(self),
                *final(self),
                *old(ledger),
                *final(ledger),
                origin->Signed_0,
                listing_id,
                deposit,
                now,
            ),
    {
        let sender = match ensure_signed(origin) {
            Ok(s) => s,
            Err(e) => {
                return Err(e);
            },
        };
        let min = match self.min_deposit {
            Some(m) => m,
            None => {
                return Err(Error::MinDepositNotSet);
            },
        };
        if deposit < min {
            return Err(Error::DepositTooLow);
        }
        let apply_len = match self.apply_stage_len {
            Some(a) => a,
            None => {
                return Err(Error::ApplyStageLenNotSet);
            },
        };
        let app_expiry = match now.checked_add(apply_len) {
            Some(h) => h,
            None => {
                return Err(Error::Overflow);
            },
        };
        if self.listings.contains_key(&listing_id) {
            return Err(Error::ListingExists);
        }
        match ledger.reserve(sender, deposit) {
            Ok(()) => {},
            Err(e) => {
                return Err(e);
            },
        }
        self.listings.insert(
            listing_id,
            ListingDetail {
                deposit,
                owner: sender,
                application_expiry: app_expiry,
                in_registry: false,
                challenge_id: None,
            },
        );
        let mut bucket = match self.expiry.remove(&app_expiry) {
            Some(b) => b,
            None => Vec::new(),
        };
        bucket.push(listing_id);
        self.expiry.insert(app_expiry, bucket);
        self.events.push(Event::Proposed(sender, listing_id, deposit));
        proof {
            assert forall|lid: u32| self.listings@.contains_key(lid)
                implies self.listing_ok(lid) by {
                if lid != listing_id {
                    assert(old(self).listings@.contains_key(lid));
                    assert(old(self).listing_ok(lid));
                    assert(self.listings@[lid] == old(self).listings@[lid]);
                }
            }
            assert forall|cid: u32| self.challenges@.contains_key(cid)
                implies self.challenge_ok(cid) by {
                assert(old(self).challenge_ok(cid));
                let c = self.challenges@[cid];
                if !c.resolved {
                    assert(old(self).listings@.contains_key(c.listing_id));
                    assert(c.listing_id != listing_id);
                }
            }
        }
        Ok(())
    }

    /// The first reason `promote_application` rejects, or `None` when it
    /// commits: the caller must be a signed account, the listing must
    /// exist, carry no active challenge, and its apply stage must be over.
    pub open spec fn promote_err(
        pre: Tcr,
        origin: Origin,
        listing_id: u32,
        now: u64,
    ) -> Option<Error> {
        if origin is Root {
            Some(Error::BadOrigin)
        } else if !pre.listings@.contains_key(listing_id) {
            Some(Error::ListingNotFound)
        } else if pre.listings@[listing_id].challenge_id is Some {
            Some(Error::ChallengedListing)
        } else if now < pre.listings@[listing_id].application_expiry {
            Some(Error::TooEarlyToPromote)
        } else {
            None
        }
    }

    /// What a committed `promote_application` did: the listing entered the
    /// registry and `Accepted` was emitted. Its stake stays reserved as
    /// collateral; nothing else moved.
    pub open spec fn promote_ok_post(pre: Tcr, post: Tcr, listing_id: u32) -> bool {
        let l = pre.listings@[listing_id];
        &&& post.listings@ == pre.listings@.insert(
            listing_id,
            ListingDetail {
                deposit: l.deposit,
                owner: l.owner,
                application_expiry: l.application_expiry,
                in_registry: true,
                challenge_id: l.challenge_id,
            },
        )
        &&& post.next_challenge_id == pre.next_challenge_id
        &&& post.challenges@ == pre.challenges@
        &&& post.expiry@ == pre.expiry@
        &&& post.events@ == pre.events@.push(Event::Accepted(listing_id))
        &&& Tcr::params_unchanged(pre, post)
    }

    /// Promotes an unchallenged application into the registry once its
    /// apply stage is over. Callable by any signed account; the listing's
    /// stake stays locked as collateral. Fails closed, with no effect, for
    /// exactly the reasons `promote_err` names.
    pub fn promote_application(&mut self, origin: Origin, listing_id: u32, now: u64) -> (r:
        Result<(), Error>)
        requires
            old(self).wf(),
        ensures
            final(self).wf(),
            Tcr::promote_err(*old(self), origin, listing_id, now) matches Some(e)
                ==> r == Err::<(), Error>(e) && *final(self) == *old(self),
            Tcr::promote_err(*old(self), origin, listing_id, now) is None
                ==> r == Ok::<(), Error>(())
                && Tcr::promote_ok_post(*old(self), *final(self), listing_id),
    {
        match ensure_signed(origin) {
            Ok(_) => {},
            Err(e) => {
                return Err(e);
            },
        }
        let l = match self.listings.get(&listing_id) {
            Some(l) => *l,
            None => {
                return Err(Error::ListingNotFound);
            },
        };
        if l.challenge_id.is_some() {
            return Err(Error::ChallengedListing);
        }
        if now < l.application_expiry {
            return Err(Error::TooEarlyToPromote);
        }
        self.listings.insert(
            listing_id,
            ListingDetail {
                deposit: l.deposit,
                owner: l.owner,
                application_expiry: l.application_expiry,
                in_registry: true,
                challenge_id: l.challenge_id,
            },
        );
        self.events.push(Event::Accepted(listing_id));
        proof {
            assert forall|lid: u32| self.listings@.contains_key(lid)
                implies self.listing_ok(lid) by {
                assert(old(self).listing_ok(lid));
                if lid != listing_id {
                    assert(self.listings@[lid] == old(self).listings@[lid]);
                }
            }
            assert forall|cid: u32| self.challenges@.contains_key(cid)
                implies self.challenge_ok(cid) by {
                assert(old(self).challenge_ok(cid));
                let c = self.challenges@[cid];
                if !c.resolved && c.listing_id == listing_id {
                    assert(old(self).listings@[listing_id].challenge_id == Some(cid));
                    assert(false);
                }
            }
        }
        Ok(())
    }
}

} // verus!
