//! The credits of a batch are conserved: what its holders hold, reserved or
//! not, adds up to the batch's amount.

use crate::invariants::voting_queues_consistent;
use crate::model::{run, Call, PalletModel};
use crate::reservations::{
    lemma_close_votes_covered, lemma_open_order_is_reserved,
    lemma_reservations_stay_covered, no_open_order_in_batch, reservation_safe_call, reservations_covered,
};
use crate::sums::{lemma_sum_nonnegative, lemma_sum_remove, lemma_sum_update, lemma_sum_zero, sum_of};
use crate::types::{AccountId, CarbonCreditHoldingsInfo, Hash256};
use vstd::prelude::*;

verus! {

/// The credits of batch `h` in the holdings entry `k`, `x`.
pub open spec fn held_of(k: (Hash256, AccountId), x: CarbonCreditHoldingsInfo, h: Hash256) -> int {
    if k.0 == h {
        x.available_amount + x.unavailable_amount
    } else {
        0
    }
}

/// The credits of batch `h` held by anyone, reserved or not.
pub open spec fn batch_total(holdings: Map<(Hash256, AccountId), CarbonCreditHoldingsInfo>, h: Hash256) -> int {
    sum_of(holdings.dom(), |k: (Hash256, AccountId)| held_of(k, holdings[k], h))
}

/// The parts of `credits_conserved` besides covered reservations.
pub open spec fn credits_conserved_core(m: PalletModel) -> bool {
    &&& m.carbon_credit_holdings.dom().finite()
    &&& forall|p: Hash256, h: Hash256| #[trigger] m.carbon_credit_batches.contains_key((p, h))
        ==> batch_total(m.carbon_credit_holdings, h) == m.carbon_credit_batches[(p, h)].credit_amount
    &&& forall|k: (Hash256, AccountId)| #[trigger] m.carbon_credit_holdings.contains_key(k) ==> m.batch_exists(k.0)
    &&& forall|s: Hash256| #[trigger] m.carbon_credit_sale_orders.contains_key(s) && m.carbon_credit_sale_orders[s].sale_active
        ==> m.batch_exists(m.carbon_credit_sale_orders[s].batch_hash)
    &&& forall|p1: Hash256, p2: Hash256, h: Hash256|
        #[trigger] m.carbon_credit_batches.contains_key((p1, h)) && #[trigger] m.carbon_credit_batches.contains_key((p2, h))
            ==> p1 == p2
    &&& forall|d: Seq<u8>| #[trigger] m.carbon_credit_batch_proposals.contains_key(d)
        ==> m.projects.contains_key(m.carbon_credit_batch_proposals[d].project_hash)
}

/// Credits are conserved: for every batch, the credits held of it add up to
/// its amount; credits and open orders exist only for existing batches, no
/// two batches share a batch hash, every batch proposal names an existing
/// project, and reservations cover the open orders.
pub open spec fn credits_conserved(m: PalletModel) -> bool {
    credits_conserved_core(m) && reservations_covered(m)
}

proof fn lemma_total_insert(
    holdings: Map<(Hash256, AccountId), CarbonCreditHoldingsInfo>,
    k0: (Hash256, AccountId),
    x: CarbonCreditHoldingsInfo,
    h: Hash256,
)
    requires
        holdings.dom().finite(),
    ensures
        batch_total(holdings.insert(k0, x), h) == batch_total(holdings, h) - (if holdings.contains_key(k0) {
            held_of(k0, holdings[k0], h)
        } else {
            0
        }) + held_of(k0, x, h),
{
    let h2 = holdings.insert(k0, x);
    lemma_sum_update(holdings.dom(), |k: (Hash256, AccountId)| held_of(k, holdings[k], h), |k: (Hash256, AccountId)| held_of(k, h2[k], h), k0);
    assert(h2.dom() =~= holdings.dom().insert(k0));
}

proof fn lemma_total_remove(holdings: Map<(Hash256, AccountId), CarbonCreditHoldingsInfo>, k0: (Hash256, AccountId), h: Hash256)
    requires
        holdings.dom().finite(),
        holdings.contains_key(k0),
    ensures
        batch_total(holdings.remove(k0), h) == batch_total(holdings, h) - held_of(k0, holdings[k0], h),
{
    let h2 = holdings.remove(k0);
    let g1 = |k: (Hash256, AccountId)| held_of(k, holdings[k], h);
    let g2 = |k: (Hash256, AccountId)| held_of(k, h2[k], h);
    lemma_sum_remove(holdings.dom(), g1, k0);
    assert(h2.dom() =~= holdings.dom().remove(k0));
    crate::sums::lemma_sum_congruent(h2.dom(), g1, g2);
}

/// Two distinct entries of batch `h` hold no more than the batch's total.
proof fn lemma_total_bounds(
    holdings: Map<(Hash256, AccountId), CarbonCreditHoldingsInfo>,
    k1: (Hash256, AccountId),
    k2: (Hash256, AccountId),
    h: Hash256,
)
    requires
        holdings.dom().finite(),
    ensures
        holdings.contains_key(k1) ==> batch_total(holdings, h) >= held_of(k1, holdings[k1], h),
        holdings.contains_key(k1) && holdings.contains_key(k2) && k1 != k2 ==> batch_total(holdings, h)
            >= held_of(k1, holdings[k1], h) + held_of(k2, holdings[k2], h),
{
    let g = |k: (Hash256, AccountId)| held_of(k, holdings[k], h);
    lemma_sum_nonnegative(holdings.dom(), g);
    if holdings.contains_key(k1) && holdings.contains_key(k2) && k1 != k2 {
        lemma_sum_remove(holdings.dom(), g, k1);
        lemma_sum_nonnegative(holdings.dom().remove(k1), g);
    }
}

/// An entry of an existing batch holds at most `u128::MAX` credits; two
/// distinct entries of one batch together too.
proof fn lemma_entries_bounded(m: PalletModel, k1: (Hash256, AccountId), k2: (Hash256, AccountId))
    requires
        credits_conserved_core(m),
        m.carbon_credit_holdings.contains_key(k1),
    ensures
        m.carbon_credit_holdings[k1].available_amount + m.carbon_credit_holdings[k1].unavailable_amount <= u128::MAX,
        m.carbon_credit_holdings.contains_key(k2) && k1 != k2 && k1.0 == k2.0 ==> m.carbon_credit_holdings[k1].available_amount
            + m.carbon_credit_holdings[k1].unavailable_amount + m.carbon_credit_holdings[k2].available_amount
            + m.carbon_credit_holdings[k2].unavailable_amount <= u128::MAX,
{
    let h = k1.0;
    assert(m.batch_exists(h));
    let p = choose|p: Hash256| #[trigger] m.carbon_credit_batches.contains_key((p, h));
    assert(batch_total(m.carbon_credit_holdings, h) == m.carbon_credit_batches[(p, h)].credit_amount);
    lemma_total_bounds(m.carbon_credit_holdings, k1, k2, h);
}

/// Replacing the entry `k0` of an existing batch by one holding as much keeps
/// every batch's total.
proof fn lemma_same_total_entry(m: PalletModel, k0: (Hash256, AccountId), x: CarbonCreditHoldingsInfo)
    requires
        credits_conserved_core(m),
        m.batch_exists(k0.0),
        x.available_amount + x.unavailable_amount == m.holding(k0.0, k0.1).available_amount + m.holding(k0.0, k0.1).unavailable_amount,
    ensures
        forall|h: Hash256| batch_total(#[trigger] m.carbon_credit_holdings.insert(k0, x), h) == batch_total(m.carbon_credit_holdings, h),
{
    assert forall|h: Hash256| batch_total(#[trigger] m.carbon_credit_holdings.insert(k0, x), h) == batch_total(m.carbon_credit_holdings, h) by {
        lemma_total_insert(m.carbon_credit_holdings, k0, x, h);
    }
}

/// Closing the vote on `d` conserves credits when a batch it creates has a
/// new batch hash; it adds batches only with that hash.
proof fn lemma_close_vote_conserves(m: PalletModel, d: Seq<u8>, moment: u64)
    requires
        credits_conserved_core(m),
        m.carbon_credit_batch_proposals.contains_key(d) ==> !m.batch_exists(m.carbon_credit_batch_proposals[d].batch_hash),
    ensures
        ({
            let m3 = m.close_vote(d, moment);
            &&& credits_conserved_core(m3)
            &&& m3.carbon_credit_sale_orders == m.carbon_credit_sale_orders
            &&& m3.carbon_credit_batch_proposals.dom() == m.carbon_credit_batch_proposals.dom()
            &&& forall|e: Seq<u8>| #[trigger] m.carbon_credit_batch_proposals.contains_key(e)
                ==> m3.carbon_credit_batch_proposals[e].batch_hash == m.carbon_credit_batch_proposals[e].batch_hash
            &&& forall|p: Hash256, h: Hash256| #[trigger] m3.carbon_credit_batches.contains_key((p, h))
                ==> m.carbon_credit_batches.contains_key((p, h)) || (m.carbon_credit_batch_proposals.contains_key(d)
                    && h == m.carbon_credit_batch_proposals[d].batch_hash)
        }),
{
    let m1 = if m.carbon_footprint_reports.contains_key(d) {
        m.update_carbon_footprint_account(m.carbon_footprint_reports[d], d, moment)
    } else {
        m
    };
    let m2 = if m1.project_proposals.contains_key(d) {
        m1.update_project_proposal(m1.project_proposals[d], d, moment)
    } else {
        m1
    };
    let m3 = m.close_vote(d, moment);
    assert(m2.carbon_credit_holdings == m.carbon_credit_holdings);
    assert(m2.carbon_credit_batches == m.carbon_credit_batches);
    assert(m2.carbon_credit_batch_proposals == m.carbon_credit_batch_proposals);
    assert(forall|ph: Hash256| #[trigger] m.projects.contains_key(ph) ==> m2.projects.contains_key(ph));
    assert(credits_conserved_core(m2));
    if m2.carbon_credit_batch_proposals.contains_key(d) {
        let b = m2.carbon_credit_batch_proposals[d];
        assert(m3.carbon_credit_batch_proposals.dom() =~= m.carbon_credit_batch_proposals.dom());
        let passed = crate::model::vote_passed(m2.vote_pass_ratio, b.votes_for.len() + b.votes_against.len() as int, b.votes_for.len() as int);
        if passed {
            let bh = b.batch_hash;
            let owner = m2.projects[b.project_hash].project_owner;
            let holdings = m.carbon_credit_holdings;
            assert forall|k: (Hash256, AccountId)| holdings.contains_key(k) implies held_of(k, holdings[k], bh) == 0 by {
                if k.0 == bh {
                    assert(m.batch_exists(k.0));
                }
            }
            lemma_sum_zero(holdings.dom(), |k: (Hash256, AccountId)| held_of(k, holdings[k], bh));
            let x = CarbonCreditHoldingsInfo { available_amount: b.credit_amount, unavailable_amount: 0 };
            assert forall|h: Hash256| batch_total(#[trigger] holdings.insert((bh, owner), x), h)
                == if h == bh { b.credit_amount as int } else { batch_total(holdings, h) } by {
                lemma_total_insert(holdings, (bh, owner), x, h);
            }
            assert(m3.carbon_credit_holdings == holdings.insert((bh, owner), x));
            assert forall|p: Hash256, h: Hash256| #[trigger] m3.carbon_credit_batches.contains_key((p, h)) implies
                batch_total(m3.carbon_credit_holdings, h) == m3.carbon_credit_batches[(p, h)].credit_amount by {
                if h != bh {
                    assert(m.carbon_credit_batches.contains_key((p, h)));
                }
            }
            assert forall|p1: Hash256, p2: Hash256, h: Hash256|
                #[trigger] m3.carbon_credit_batches.contains_key((p1, h)) && #[trigger] m3.carbon_credit_batches.contains_key((p2, h))
                    implies p1 == p2 by {
                if h == bh {
                    if p1 != b.project_hash {
                        assert(m.carbon_credit_batches.contains_key((p1, h)));
                    }
                    if p2 != b.project_hash {
                        assert(m.carbon_credit_batches.contains_key((p2, h)));
                    }
                }
            }
            assert(m3.batch_exists(bh)) by {
                assert(m3.carbon_credit_batches.contains_key((b.project_hash, bh)));
            }
            assert forall|k: (Hash256, AccountId)| #[trigger] m3.carbon_credit_holdings.contains_key(k) implies m3.batch_exists(k.0) by {
                if k != (bh, owner) {
                    assert(m.batch_exists(k.0));
                    let p = choose|p: Hash256| #[trigger] m.carbon_credit_batches.contains_key((p, k.0));
                    assert(m3.carbon_credit_batches.contains_key((p, k.0)));
                }
            }
            assert forall|s: Hash256| #[trigger] m3.carbon_credit_sale_orders.contains_key(s) && m3.carbon_credit_sale_orders[s].sale_active
                implies m3.batch_exists(m3.carbon_credit_sale_orders[s].batch_hash) by {
                let h = m.carbon_credit_sale_orders[s].batch_hash;
                assert(m.batch_exists(h));
                let p = choose|p: Hash256| #[trigger] m.carbon_credit_batches.contains_key((p, h));
                assert(m3.carbon_credit_batches.contains_key((p, h)));
            }
        }
    }
}

proof fn lemma_close_votes_conserve(m: PalletModel, docs: Seq<Seq<u8>>, moment: u64)
    requires
        credits_conserved_core(m),
        forall|i: int| 0 <= i < docs.len() && m.carbon_credit_batch_proposals.contains_key(#[trigger] docs[i]) ==> {
            &&& !m.batch_exists(m.carbon_credit_batch_proposals[docs[i]].batch_hash)
            &&& forall|j: int| 0 <= j < docs.len() && j != i && m.carbon_credit_batch_proposals.contains_key(#[trigger] docs[j])
                ==> m.carbon_credit_batch_proposals[docs[j]].batch_hash != m.carbon_credit_batch_proposals[docs[i]].batch_hash
        },
    ensures
        ({
            let m3 = m.close_votes(docs, moment);
            &&& credits_conserved_core(m3)
            &&& m3.carbon_credit_sale_orders == m.carbon_credit_sale_orders
            &&& m3.carbon_credit_batch_proposals.dom() == m.carbon_credit_batch_proposals.dom()
            &&& forall|e: Seq<u8>| #[trigger] m.carbon_credit_batch_proposals.contains_key(e)
                ==> m3.carbon_credit_batch_proposals[e].batch_hash == m.carbon_credit_batch_proposals[e].batch_hash
            &&& forall|p: Hash256, h: Hash256| #[trigger] m3.carbon_credit_batches.contains_key((p, h))
                ==> m.carbon_credit_batches.contains_key((p, h)) || exists|i: int| 0 <= i < docs.len()
                    && m.carbon_credit_batch_proposals.contains_key(#[trigger] docs[i])
                    && h == m.carbon_credit_batch_proposals[docs[i]].batch_hash
        }),
    decreases docs.len(),
{
    if docs.len() > 0 {
        let init = docs.drop_last();
        let n = docs.len() - 1;
        let bp = m.carbon_credit_batch_proposals;
        assert forall|i: int| 0 <= i < init.len() && bp.contains_key(#[trigger] init[i]) implies {
            &&& !m.batch_exists(bp[init[i]].batch_hash)
            &&& forall|j: int| 0 <= j < init.len() && j != i && bp.contains_key(#[trigger] init[j])
                ==> bp[init[j]].batch_hash != bp[init[i]].batch_hash
        } by {
            assert(init[i] == docs[i]);
            assert forall|j: int| 0 <= j < init.len() && j != i && bp.contains_key(#[trigger] init[j])
                implies bp[init[j]].batch_hash != bp[init[i]].batch_hash by {
                assert(init[j] == docs[j]);
            }
        }
        lemma_close_votes_conserve(m, init, moment);
        let prev = m.close_votes(init, moment);
        let d = docs.last();
        assert(docs[n] == d);
        if prev.carbon_credit_batch_proposals.contains_key(d) {
            let bh = bp[d].batch_hash;
            assert(prev.carbon_credit_batch_proposals[d].batch_hash == bh);
            if prev.batch_exists(bh) {
                let p = choose|p: Hash256| #[trigger] prev.carbon_credit_batches.contains_key((p, bh));
                if !m.carbon_credit_batches.contains_key((p, bh)) {
                    let i = choose|i: int| 0 <= i < init.len() && bp.contains_key(#[trigger] init[i]) && bh == bp[init[i]].batch_hash;
                    assert(init[i] == docs[i]);
                } else {
                    assert(m.batch_exists(bh));
                }
            }
        }
        lemma_close_vote_conserves(prev, d, moment);
        let m3 = m.close_votes(docs, moment);
        assert forall|p: Hash256, h: Hash256| #[trigger] m3.carbon_credit_batches.contains_key((p, h)) implies
            m.carbon_credit_batches.contains_key((p, h)) || exists|i: int| 0 <= i < docs.len()
                && bp.contains_key(#[trigger] docs[i]) && h == bp[docs[i]].batch_hash by {
            if !prev.carbon_credit_batches.contains_key((p, h)) {
                assert(docs[n] == d);
            } else if !m.carbon_credit_batches.contains_key((p, h)) {
                let i = choose|i: int| 0 <= i < init.len() && bp.contains_key(#[trigger] init[i]) && h == bp[init[i]].batch_hash;
                assert(init[i] == docs[i]);
            }
        }
    }
}

/// An open order `s` whose credits go back from reserved to available keeps
/// credits conserved.
proof fn lemma_expire_sale_conserves(m: PalletModel, s: Hash256)
    requires
        credits_conserved(m),
    ensures
        credits_conserved(m.expire_sale(s)),
{
    if m.is_open_sale(s) {
        let o = m.carbon_credit_sale_orders[s];
        let k = (o.batch_hash, o.seller);
        lemma_open_order_is_reserved(m, s);
        if m.carbon_credit_holdings.contains_key(k) {
            lemma_entries_bounded(m, k, k);
        }
        let m2 = m.expire_sale(s);
        let x = m2.carbon_credit_holdings[k];
        lemma_same_total_entry(m, k, x);
        assert(m2.carbon_credit_holdings == m.carbon_credit_holdings.insert(k, x));
        crate::reservations::lemma_order_end_covered(m, m2, s);
    }
}

proof fn lemma_expire_sales_conserve(m: PalletModel, sales: Seq<Hash256>)
    requires
        credits_conserved(m),
    ensures
        credits_conserved(m.expire_sales(sales)),
    decreases sales.len(),
{
    if sales.len() > 0 {
        lemma_expire_sales_conserve(m, sales.drop_last());
        lemma_expire_sale_conserves(m.expire_sales(sales.drop_last()), sales.last());
    }
}

/// The calls on which credits are shown to stay conserved: a block tick
/// whose queued batch proposals all have batch hashes that no batch has yet
/// and that differ from one another.
pub open spec fn conservation_safe_call(m: PalletModel, c: Call) -> bool {
    match c {
        Call::BlockTick(now, _) => m.voting_timeouts.contains_key(now) ==> {
            let q = m.voting_timeouts[now];
            let bp = m.carbon_credit_batch_proposals;
            forall|i: int| 0 <= i < q.len() && bp.contains_key(#[trigger] q[i]) ==> {
                &&& !m.batch_exists(bp[q[i]].batch_hash)
                &&& forall|j: int| 0 <= j < q.len() && j != i && bp.contains_key(#[trigger] q[j])
                    ==> bp[q[j]].batch_hash != bp[q[i]].batch_hash
            }
        },
        _ => true,
    }
}

proof fn lemma_complete_conserves(m: PalletModel, ctx: crate::types::CallContext, s: Hash256)
    requires
        credits_conserved(m),
        m.complete_sale_order(ctx, s) is Ok,
    ensures
        credits_conserved_core(m.complete_sale_order(ctx, s)->Ok_0),
{
    let m2 = m.complete_sale_order(ctx, s)->Ok_0;
    let o = m.carbon_credit_sale_orders[s];
    let h0 = o.batch_hash;
    let ks = (h0, o.seller);
    let kb = (h0, ctx.caller);
    let holdings = m.carbon_credit_holdings;
    lemma_open_order_is_reserved(m, s);
    if holdings.contains_key(ks) {
        lemma_entries_bounded(m, ks, kb);
    }
    if holdings.contains_key(kb) {
        lemma_entries_bounded(m, kb, kb);
    }
    let sh = m.holding(h0, o.seller);
    let seller_left = CarbonCreditHoldingsInfo {
        available_amount: sh.available_amount,
        unavailable_amount: crate::model::sat_sub(sh.unavailable_amount, o.credit_amount),
    };
    let holdings1 = if seller_left == crate::model::no_holdings() {
        holdings.remove(ks)
    } else {
        holdings.insert(ks, seller_left)
    };
    let bh = m.holding(h0, ctx.caller);
    let buyer_now = CarbonCreditHoldingsInfo {
        available_amount: crate::model::sat_add(bh.available_amount, o.credit_amount),
        unavailable_amount: bh.unavailable_amount,
    };
    assert(m2.carbon_credit_holdings == holdings1.insert(kb, buyer_now));
    assert(holdings1.dom().finite()) by {
        if seller_left == crate::model::no_holdings() {
            assert(holdings1.dom() =~= holdings.dom().remove(ks));
        } else {
            assert(holdings1.dom() =~= holdings.dom().insert(ks));
        }
    }
    assert forall|h: Hash256| batch_total(m2.carbon_credit_holdings, h) == #[trigger] batch_total(holdings, h) by {
        if seller_left == crate::model::no_holdings() {
            if holdings.contains_key(ks) {
                lemma_total_remove(holdings, ks, h);
            } else {
                assert(holdings1 =~= holdings);
            }
        } else {
            lemma_total_insert(holdings, ks, seller_left, h);
        }
        lemma_total_insert(holdings1, kb, buyer_now, h);
    }
    assert(m2.carbon_credit_holdings.dom().finite()) by {
        assert(m2.carbon_credit_holdings.dom() =~= holdings1.dom().insert(kb));
    }
    assert(m2.carbon_credit_batches == m.carbon_credit_batches);
    assert forall|k: (Hash256, AccountId)| #[trigger] m2.carbon_credit_holdings.contains_key(k) implies m2.batch_exists(k.0) by {
        if k != kb && k != ks {
            assert(m.batch_exists(k.0));
        } else {
            assert(m.batch_exists(h0));
        }
        let p = choose|p: Hash256| #[trigger] m.carbon_credit_batches.contains_key((p, k.0));
        assert(m2.carbon_credit_batches.contains_key((p, k.0)));
    }
}

/// Credits stay conserved: no call, and no block tick on which
/// `conservation_safe_call` holds, changes what a batch's holders hold in
/// all from the batch's amount.
#[verifier::rlimit(80)]
pub proof fn lemma_credits_stay_conserved(m: PalletModel, c: Call)
    requires
        credits_conserved(m),
        conservation_safe_call(m, c),
    ensures
        credits_conserved(m.next(c)),
{
    let m2 = m.next(c);
    match c {
        Call::CreateSaleOrder(ctx, h0, p, n) => {
            if m.create_sale_order(ctx, h0, p, n) is Ok {
                let k = (h0, ctx.caller);
                lemma_entries_bounded(m, k, k);
                lemma_same_total_entry(m, k, m2.carbon_credit_holdings[k]);
                assert(m2.carbon_credit_holdings == m.carbon_credit_holdings.insert(k, m2.carbon_credit_holdings[k]));
                assert(m2.carbon_credit_holdings.dom() =~= m.carbon_credit_holdings.dom());
                assert(reservation_safe_call(m, c));
                lemma_reservations_stay_covered(m, c);
            }
        },
        Call::CompleteSaleOrder(ctx, s) => {
            if m.complete_sale_order(ctx, s) is Ok {
                lemma_complete_conserves(m, ctx, s);
                lemma_reservations_stay_covered(m, c);
            }
        },
        Call::CloseSaleOrder(ctx, s) => {
            if m.close_sale_order(ctx, s) is Ok {
                let o = m.carbon_credit_sale_orders[s];
                let k = (o.batch_hash, ctx.caller);
                lemma_open_order_is_reserved(m, s);
                if m.carbon_credit_holdings.contains_key(k) {
                    lemma_entries_bounded(m, k, k);
                }
                lemma_same_total_entry(m, k, m2.carbon_credit_holdings[k]);
                assert(m2.carbon_credit_holdings == m.carbon_credit_holdings.insert(k, m2.carbon_credit_holdings[k]));
                assert(m2.carbon_credit_holdings.dom() =~= m.carbon_credit_holdings.dom().insert(k));
                lemma_reservations_stay_covered(m, c);
            }
        },
        Call::BlockTick(now, moment) => {
            let m1 = m.update_pallet_base_time(now);
            let m3 = m1.check_voting_timeouts(now, moment);
            if m1.voting_timeouts.contains_key(now) {
                let q = m1.voting_timeouts[now];
                let m1b = PalletModel { voting_timeouts: m1.voting_timeouts.remove(now), ..m1 };
                lemma_close_votes_conserve(m1b, q, moment);
                assert forall|i: int| 0 <= i < q.len() && m1b.carbon_credit_batch_proposals.contains_key(#[trigger] q[i])
                    implies no_open_order_in_batch(m1b, m1b.carbon_credit_batch_proposals[q[i]].batch_hash) by {
                    let bh = m1b.carbon_credit_batch_proposals[q[i]].batch_hash;
                    assert forall|s: Hash256| #[trigger] m1b.carbon_credit_sale_orders.contains_key(s)
                        && m1b.carbon_credit_sale_orders[s].sale_active implies m1b.carbon_credit_sale_orders[s].batch_hash != bh by {
                        assert(m.batch_exists(m.carbon_credit_sale_orders[s].batch_hash));
                    }
                }
                lemma_close_votes_covered(m1b, q, moment);
            }
            assert(credits_conserved(m3));
            if m3.sale_order_timeouts.contains_key(now) {
                lemma_expire_sales_conserve(m3, m3.sale_order_timeouts[now]);
            }
        },
        Call::ProposeBatch(ctx, h, n, p, d) => {
            assert(m2.carbon_credit_holdings == m.carbon_credit_holdings);
            assert(m2.carbon_credit_sale_orders == m.carbon_credit_sale_orders);
            assert(m2.carbon_credit_batches == m.carbon_credit_batches);
        },
        Call::CastVote(ctx, k, d, v) => {
            if m.cast_vote(ctx, k, d, v) is Ok {
                assert(m2.carbon_credit_batch_proposals.dom() =~= m.carbon_credit_batch_proposals.dom());
                assert forall|e: Seq<u8>| #[trigger] m2.carbon_credit_batch_proposals.contains_key(e) implies
                    m2.carbon_credit_batch_proposals[e].project_hash == m.carbon_credit_batch_proposals[e].project_hash by {}
            }
            assert(m2.carbon_credit_holdings == m.carbon_credit_holdings);
            assert(m2.carbon_credit_sale_orders == m.carbon_credit_sale_orders);
            assert(m2.carbon_credit_batches == m.carbon_credit_batches);
        },
        _ => {
            assert(m2.carbon_credit_holdings == m.carbon_credit_holdings);
            assert(m2.carbon_credit_sale_orders == m.carbon_credit_sale_orders);
            assert(m2.carbon_credit_batches == m.carbon_credit_batches);
        },
    }
}

/// Credits are conserved at genesis.
pub proof fn lemma_genesis_conserves(authorities: Set<AccountId>, block_finalization_time: u32)
    ensures
        credits_conserved(crate::pallet::genesis(authorities, block_finalization_time)),
{
    let m = crate::pallet::genesis(authorities, block_finalization_time);
    assert(m.carbon_credit_sale_orders.dom() =~= Set::<Hash256>::empty());
    assert(m.carbon_credit_holdings.dom() =~= Set::<(Hash256, AccountId)>::empty());
}

/// Whatever calls and block ticks follow genesis, each on which
/// `conservation_safe_call` holds, credits stay conserved and reservations
/// cover the open orders.
pub proof fn lemma_credits_conserved_after_safe_calls(
    authorities: Set<AccountId>,
    block_finalization_time: u32,
    calls: Seq<Call>,
)
    requires
        forall|i: int| 0 <= i < calls.len() ==> conservation_safe_call(
            run(crate::pallet::genesis(authorities, block_finalization_time), calls.take(i)),
            #[trigger] calls[i],
        ),
    ensures
        credits_conserved(run(crate::pallet::genesis(authorities, block_finalization_time), calls)),
    decreases calls.len(),
{
    let g = crate::pallet::genesis(authorities, block_finalization_time);
    if calls.len() == 0 {
        lemma_genesis_conserves(authorities, block_finalization_time);
    } else {
        let init = calls.drop_last();
        assert forall|i: int| 0 <= i < init.len() implies conservation_safe_call(run(g, init.take(i)), #[trigger] init[i]) by {
            assert(init.take(i) =~= calls.take(i));
            assert(init[i] == calls[i]);
        }
        lemma_credits_conserved_after_safe_calls(authorities, block_finalization_time, init);
        let n = calls.len() - 1;
        assert(calls.take(n) =~= init);
        assert(conservation_safe_call(run(g, calls.take(n)), calls[n]));
        lemma_credits_stay_conserved(run(g, init), calls.last());
    }
}

/// Where credits are conserved, a new order's reservation and the buyer's
/// gain on completion stay below `u128::MAX`.
proof fn lemma_sale_bounds(
    m: PalletModel,
    ctx: crate::types::CallContext,
    batch_hash: Hash256,
    credit_price: u128,
    credit_amount: u128,
    buyer: AccountId,
)
    requires
        credits_conserved(m),
        m.create_sale_order(ctx, batch_hash, credit_price, credit_amount) is Ok,
    ensures
        m.holding(batch_hash, ctx.caller).unavailable_amount + credit_amount <= u128::MAX,
        buyer != ctx.caller ==> m.holding(batch_hash, buyer).available_amount + credit_amount <= u128::MAX,
{
    let ks = (batch_hash, ctx.caller);
    let kb = (batch_hash, buyer);
    lemma_entries_bounded(m, ks, kb);
}

/// Where credits are conserved, creating a sale order and closing it at once
/// leaves every holding as it was.
pub proof fn lemma_create_then_close_keeps_holdings_conserved(
    m: PalletModel,
    ctx: crate::types::CallContext,
    batch_hash: Hash256,
    credit_price: u128,
    credit_amount: u128,
    closer: crate::types::CallContext,
)
    requires
        credits_conserved(m),
        m.create_sale_order(ctx, batch_hash, credit_price, credit_amount) is Ok,
        closer.caller == ctx.caller,
    ensures
        ({
            let m1 = m.create_sale_order(ctx, batch_hash, credit_price, credit_amount)->Ok_0;
            let s = crate::hashing::hash_of(ctx.caller, ctx.nonce, ctx.moment);
            &&& m1.close_sale_order(closer, s) is Ok
            &&& m1.close_sale_order(closer, s)->Ok_0.carbon_credit_holdings == m.carbon_credit_holdings
        }),
{
    lemma_sale_bounds(m, ctx, batch_hash, credit_price, credit_amount, ctx.caller);
    crate::laws::lemma_create_then_close_keeps_holdings(m, ctx, batch_hash, credit_price, credit_amount, closer);
}

/// Where credits are conserved, creating a sale order and having another
/// eligible account with the funds complete it moves exactly the order's
/// credits from the seller's available ones to the buyer's.
pub proof fn lemma_create_then_complete_moves_credits_conserved(
    m: PalletModel,
    ctx: crate::types::CallContext,
    batch_hash: Hash256,
    credit_price: u128,
    credit_amount: u128,
    buyer: crate::types::CallContext,
)
    requires
        credits_conserved(m),
        m.create_sale_order(ctx, batch_hash, credit_price, credit_amount) is Ok,
        buyer.caller != ctx.caller,
        m.is_eligible_for_carbon_credit_transaction(buyer.caller),
        crate::model::sat_mul(credit_amount, credit_price) <= buyer.free_balance,
    ensures
        ({
            let m1 = m.create_sale_order(ctx, batch_hash, credit_price, credit_amount)->Ok_0;
            let s = crate::hashing::hash_of(ctx.caller, ctx.nonce, ctx.moment);
            let m2 = m1.complete_sale_order(buyer, s)->Ok_0;
            let before_seller = m.holding(batch_hash, ctx.caller);
            let before_buyer = m.holding(batch_hash, buyer.caller);
            &&& m1.complete_sale_order(buyer, s) is Ok
            &&& m2.holding(batch_hash, buyer.caller) == (CarbonCreditHoldingsInfo {
                available_amount: (before_buyer.available_amount + credit_amount) as u128,
                unavailable_amount: before_buyer.unavailable_amount,
            })
            &&& m2.holding(batch_hash, ctx.caller) == (CarbonCreditHoldingsInfo {
                available_amount: (before_seller.available_amount - credit_amount) as u128,
                unavailable_amount: before_seller.unavailable_amount,
            })
        }),
{
    lemma_sale_bounds(m, ctx, batch_hash, credit_price, credit_amount, buyer.caller);
    crate::laws::lemma_create_then_complete_moves_credits(m, ctx, batch_hash, credit_price, credit_amount, buyer);
}

/// Where credits are conserved, ending an order restores the seller's
/// credits in its batch to what they were before the order: fully on close
/// and on expiry, less the buyer's gain of `credit_amount` on completion.
pub proof fn lemma_sale_end_restores_seller_total_conserved(
    m: PalletModel,
    ctx: crate::types::CallContext,
    batch_hash: Hash256,
    credit_price: u128,
    credit_amount: u128,
    other: crate::types::CallContext,
)
    requires
        credits_conserved(m),
        m.create_sale_order(ctx, batch_hash, credit_price, credit_amount) is Ok,
    ensures
        ({
            let m1 = m.create_sale_order(ctx, batch_hash, credit_price, credit_amount)->Ok_0;
            let s = crate::hashing::hash_of(ctx.caller, ctx.nonce, ctx.moment);
            let before = crate::laws::total_held(m, batch_hash, ctx.caller);
            &&& crate::laws::total_held(m1.expire_sale(s), batch_hash, ctx.caller) == before
            &&& (other.caller == ctx.caller ==> crate::laws::total_held(m1.close_sale_order(other, s)->Ok_0, batch_hash, ctx.caller) == before)
            &&& (m1.complete_sale_order(other, s) is Ok ==>
                crate::laws::total_held(m1.complete_sale_order(other, s)->Ok_0, batch_hash, ctx.caller) == before - credit_amount)
        }),
{
    lemma_sale_bounds(m, ctx, batch_hash, credit_price, credit_amount, ctx.caller);
    crate::laws::lemma_sale_end_restores_seller_total(m, ctx, batch_hash, credit_price, credit_amount, other);
}

} // verus!
