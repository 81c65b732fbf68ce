//! The expiry index's clock tick: at each height the host polls once, and
//! every listing whose application or challenge timer runs out at that
//! height is resolved automatically, without the original actor calling
//! in again. Entries whose resolution was superseded by an earlier manual
//! call simply no longer resolve; they are consumed and dropped.

use vstd::prelude::*;
use crate::ledger::Ledger;
use crate::state::Tcr;

verus! {

broadcast use vstd::std_specs::hash::group_hash_axioms;

impl Tcr {
    /// The listings due at height `h`, in insertion order.
    pub open spec fn spec_due_at(self, h: u64) -> Seq<u32> {
        if self.expiry@.contains_key(h) {
            self.expiry@[h]@
        } else {
            Seq::<u32>::empty()
        }
    }

    /// One automatic resolution attempt: exactly what `resolve` does,
    /// with a rejection leaving both state and ledger untouched.
    pub open spec fn resolve_step(
        pre_s: Tcr,
        pre_l: Ledger,
        post_s: Tcr,
        post_l: Ledger,
        lid: u32,
        now: u64,
    ) -> bool {
        if Tcr::resolve_err(pre_s, lid, now) is Some {
            post_s == pre_s && post_l == pre_l
        } else {
            Tcr::resolve_ok_post(pre_s, post_s, pre_l, post_l, lid, now)
        }
    }

    /// A chain of automatic resolution attempts, one per listed id, in
    /// order.
    pub open spec fn resolve_steps(
        pre_s: Tcr,
        pre_l: Ledger,
        post_s: Tcr,
        post_l: Ledger,
        lids: Seq<u32>,
        now: u64,
    ) -> bool
        decreases lids.len(),
    {
        if lids.len() == 0 {
            post_s == pre_s && post_l == pre_l
        } else {
            exists|mid_s: Tcr, mid_l: Ledger|
                #[trigger] Tcr::resolve_step(pre_s, pre_l, mid_s, mid_l, lids[0], now)
                    && Tcr::resolve_steps(mid_s, mid_l, post_s, post_l, lids.drop_first(), now)
        }
    }

    /// A chain extends by one step at its end.
    proof fn lemma_resolve_steps_snoc(
        pre_s: Tcr,
        pre_l: Ledger,
        mid_s: Tcr,
        mid_l: Ledger,
        post_s: Tcr,
        post_l: Ledger,
        lids: Seq<u32>,
        lid: u32,
        now: u64,
    )
        requires
            Tcr::resolve_steps(pre_s, pre_l, mid_s, mid_l, lids, now),
            Tcr::resolve_step(mid_s, mid_l, post_s, post_l, lid, now),
        ensures
            Tcr::resolve_steps(pre_s, pre_l, post_s, post_l, lids.push(lid), now),
        decreases lids.len(),
    {
        if lids.len() == 0 {
            assert(lids.push(lid)[0] == lid);
            assert(lids.push(lid).drop_first() =~= Seq::<u32>::empty());
            assert(Tcr::resolve_step(pre_s, pre_l, post_s, post_l, lid, now));
            assert(Tcr::resolve_steps(
                post_s,
                post_l,
                post_s,
                post_l,
                lids.push(lid).drop_first(),
                now,
            ));
        } else {
            let (m_s, m_l) = choose|m_s: Tcr, m_l: Ledger|
                #[trigger] Tcr::resolve_step(pre_s, pre_l, m_s, m_l, lids[0], now)
                    && Tcr::resolve_steps(m_s, m_l, mid_s, mid_l, lids.drop_first(), now);
            Tcr::lemma_resolve_steps_snoc(
                m_s,
                m_l,
                mid_s,
                mid_l,
                post_s,
                post_l,
                lids.drop_first(),
                lid,
                now,
            );
            assert(lids.push(lid)[0] == lids[0]);
            assert(lids.push(lid).drop_first() =~= lids.drop_first().push(lid));
            assert(Tcr::resolve_step(pre_s, pre_l, m_s, m_l, lids.push(lid)[0], now));
        }
    }

    /// Processes one clock tick at height `now`: consumes the expiry
    /// entry for `now` and attempts to resolve each listing that was due,
    /// in order, ignoring the ones that no longer resolve. The final
    /// state is exactly a chain of `resolve` outcomes applied to the
    /// state with the entry consumed.
    pub fn tick(&mut self, ledger: &mut Ledger, now: u64)
        requires
            old(self).wf(),
            old(ledger).wf(),
        ensures
            final(self).wf(),
            final(ledger).wf(),
            Ledger::totals_unchanged(*old(ledger), *final(ledger)),
            final(self).expiry@ == old(self).expiry@.remove(now),
            !final(self).expiry@.contains_key(now),
            exists|s0: Tcr|
                {
                    &&& s0.listings@ == old(self).listings@
                    &&& s0.next_challenge_id == old(self).next_challenge_id
                    &&& s0.challenges@ == old(self).challenges@
                    &&& s0.expiry@ == old(self).expiry@.remove(now)
                    &&& s0.events@ == old(self).events@
                    &&& Tcr::params_unchanged(*old(self), s0)
                    &&& #[trigger] Tcr::resolve_steps(
                        s0,
                        *old(ledger),
                        *final(self),
                        *final(ledger),
                        old(self).spec_due_at(now),
                        now,
                    )
                },
    {
        let due: Vec<u32> = match self.expiry.remove(&now) {
            Some(v) => v,
            None => Vec::new(),
        };
        let ghost s0 = *self;
        let ghost l0 = *ledger;
        proof {
            assert(due@ == old(self).spec_due_at(now));
            assert(due@.take(0) =~= Seq::<u32>::empty());
            assert forall|lid: u32| self.listings@.contains_key(lid)
                implies self.listing_ok(lid) by {
                assert(old(self).listing_ok(lid));
            }
            assert forall|cid: u32| self.challenges@.contains_key(cid)
                implies self.challenge_ok(cid) by {
                assert(old(self).challenge_ok(cid));
            }
        }
        let n = due.len();
        for idx in 0..n
            invariant
                self.wf(),
                ledger.wf(),
                n == due.len(),
                Tcr::resolve_steps(s0, l0, *self, *ledger, due@.take(idx as int), now),
                self.expiry@ == s0.expiry@,
                Ledger::totals_unchanged(l0, *ledger),
        {
            let ghost pre_s = *self;
            let ghost pre_l = *ledger;
            let lid = due[idx];
            match self.resolve(ledger, lid, now) {
                Ok(()) => {},
                Err(_) => {},
            }
            proof {
                assert(Tcr::resolve_step(pre_s, pre_l, *self, *ledger, lid, now));
                Tcr::lemma_resolve_steps_snoc(
                    s0,
                    l0,
                    pre_s,
                    pre_l,
                    *self,
                    *ledger,
                    due@.take(idx as int),
                    lid,
                    now,
                );
                assert(due@.take(idx as int).push(lid) =~= due@.take(idx as int + 1));
            }
        }
        proof {
            assert(due@.take(n as int) =~= due@);
            assert(Tcr::resolve_steps(
                s0,
                l0,
                *self,
                *ledger,
                old(self).spec_due_at(now),
                now,
            ));
        }
    }
}

} // verus!
