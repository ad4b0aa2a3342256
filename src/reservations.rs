//! Reserved credits cover the open sale orders.

use crate::model::{Call, PalletModel};
use crate::sums::{lemma_sum_nonnegative, lemma_sum_update, lemma_sum_zero, sum_of};
use crate::types::{AccountId, CarbonCreditSaleOrderInfo, Hash256};
use vstd::prelude::*;

verus! {

/// The credits of batch `h` that order `o` holds back from seller `a`.
pub open spec fn order_reserve(o: CarbonCreditSaleOrderInfo, h: Hash256, a: AccountId) -> int {
    if o.sale_active && o.batch_hash == h && o.seller == a {
        o.credit_amount as int
    } else {
        0
    }
}

/// The credits of batch `h` that the open orders of seller `a` hold back.
pub open spec fn reserved_in(orders: Map<Hash256, CarbonCreditSaleOrderInfo>, h: Hash256, a: AccountId) -> int {
    sum_of(orders.dom(), |s: Hash256| order_reserve(orders[s], h, a))
}

/// Every seller's reserved credits in a batch cover all its open orders in
/// that batch together.
pub open spec fn reservations_covered(m: PalletModel) -> bool {
    &&& m.carbon_credit_sale_orders.dom().finite()
    &&& forall|h: Hash256, a: AccountId|
        #[trigger] reserved_in(m.carbon_credit_sale_orders, h, a) <= m.holding(h, a).unavailable_amount
}

/// No open order sells credits of batch `h`.
pub open spec fn no_open_order_in_batch(m: PalletModel, h: Hash256) -> bool {
    forall|s: Hash256| #[trigger] m.carbon_credit_sale_orders.contains_key(s) && m.carbon_credit_sale_orders[s].sale_active
        ==> m.carbon_credit_sale_orders[s].batch_hash != h
}

/// The calls on which reservations are shown to stay covered: a new order's
/// reservation does not saturate, and a batch created by the block tick has a
/// batch hash that no open order already sells.
pub open spec fn reservation_safe_call(m: PalletModel, c: Call) -> bool {
    match c {
        Call::CreateSaleOrder(ctx, h, _, n) => m.holding(h, ctx.caller).unavailable_amount + n <= u128::MAX,
        Call::BlockTick(now, _) => m.voting_timeouts.contains_key(now) ==> forall|i: int|
            0 <= i < m.voting_timeouts[now].len() && m.carbon_credit_batch_proposals.contains_key(
                #[trigger] m.voting_timeouts[now][i],
            ) ==> no_open_order_in_batch(m, m.carbon_credit_batch_proposals[m.voting_timeouts[now][i]].batch_hash),
        _ => true,
    }
}

proof fn lemma_reserved_insert(
    orders: Map<Hash256, CarbonCreditSaleOrderInfo>,
    s0: Hash256,
    o: CarbonCreditSaleOrderInfo,
    h: Hash256,
    a: AccountId,
)
    requires
        orders.dom().finite(),
    ensures
        reserved_in(orders.insert(s0, o), h, a) == reserved_in(orders, h, a) - (if orders.contains_key(s0) {
            order_reserve(orders[s0], h, a)
        } else {
            0
        }) + order_reserve(o, h, a),
{
    let o2 = orders.insert(s0, o);
    let g1 = |s: Hash256| order_reserve(orders[s], h, a);
    let g2 = |s: Hash256| order_reserve(o2[s], h, a);
    lemma_sum_update(orders.dom(), g1, g2, s0);
    assert(o2.dom() =~= orders.dom().insert(s0));
}

proof fn lemma_reserved_covers(orders: Map<Hash256, CarbonCreditSaleOrderInfo>, s0: Hash256, h: Hash256, a: AccountId)
    requires
        orders.dom().finite(),
    ensures
        reserved_in(orders, h, a) >= 0,
        orders.contains_key(s0) ==> reserved_in(orders, h, a) >= order_reserve(orders[s0], h, a),
{
    lemma_sum_nonnegative(orders.dom(), |s: Hash256| order_reserve(orders[s], h, a));
}

/// An open order's credits are reserved: its seller's reserved credits in
/// its batch are at least its amount.
pub proof fn lemma_open_order_is_reserved(m: PalletModel, s: Hash256)
    requires
        reservations_covered(m),
        m.carbon_credit_sale_orders.contains_key(s),
        m.carbon_credit_sale_orders[s].sale_active,
    ensures
        m.holding(m.carbon_credit_sale_orders[s].batch_hash, m.carbon_credit_sale_orders[s].seller).unavailable_amount
            >= m.carbon_credit_sale_orders[s].credit_amount,
{
    let o = m.carbon_credit_sale_orders[s];
    lemma_reserved_covers(m.carbon_credit_sale_orders, s, o.batch_hash, o.seller);
    assert(reserved_in(m.carbon_credit_sale_orders, o.batch_hash, o.seller) <= m.holding(o.batch_hash, o.seller).unavailable_amount);
}

/// An open order `s` that ends, with its seller's reserved credits of its
/// batch lowered by its amount, keeps reservations covered.
pub(crate) proof fn lemma_order_end_covered(m: PalletModel, m2: PalletModel, s: Hash256)
    requires
        reservations_covered(m),
        m.carbon_credit_sale_orders.contains_key(s),
        m.carbon_credit_sale_orders[s].sale_active,
        m2.carbon_credit_sale_orders == m.carbon_credit_sale_orders.insert(
            s,
            m2.carbon_credit_sale_orders[s],
        ),
        !m2.carbon_credit_sale_orders[s].sale_active,
        m2.holding(m.carbon_credit_sale_orders[s].batch_hash, m.carbon_credit_sale_orders[s].seller).unavailable_amount
            == m.holding(m.carbon_credit_sale_orders[s].batch_hash, m.carbon_credit_sale_orders[s].seller).unavailable_amount
            - m.carbon_credit_sale_orders[s].credit_amount,
        forall|h: Hash256, a: AccountId|
            !(h == m.carbon_credit_sale_orders[s].batch_hash && a == m.carbon_credit_sale_orders[s].seller)
                ==> #[trigger] m2.holding(h, a).unavailable_amount >= m.holding(h, a).unavailable_amount,
    ensures
        reservations_covered(m2),
{
    let orders = m.carbon_credit_sale_orders;
    let o = orders[s];
    assert(m2.carbon_credit_sale_orders.dom() =~= orders.dom().insert(s));
    assert forall|h: Hash256, a: AccountId|
        #[trigger] reserved_in(m2.carbon_credit_sale_orders, h, a) <= m2.holding(h, a).unavailable_amount by {
        lemma_reserved_insert(orders, s, m2.carbon_credit_sale_orders[s], h, a);
        assert(reserved_in(orders, h, a) <= m.holding(h, a).unavailable_amount);
    }
}

pub(crate) proof fn lemma_expire_sales_covered(m: PalletModel, sales: Seq<Hash256>)
    requires
        reservations_covered(m),
    ensures
        reservations_covered(m.expire_sales(sales)),
    decreases sales.len(),
{
    if sales.len() > 0 {
        lemma_expire_sales_covered(m, sales.drop_last());
        let prev = m.expire_sales(sales.drop_last());
        let s = sales.last();
        if prev.is_open_sale(s) {
            lemma_open_order_is_reserved(prev, s);
            lemma_order_end_covered(prev, prev.expire_sale(s), s);
        }
    }
}

/// What closing a vote does to orders, holdings and batch proposals.
proof fn lemma_close_vote_covered(m: PalletModel, d: Seq<u8>, moment: u64)
    requires
        reservations_covered(m),
        m.carbon_credit_batch_proposals.contains_key(d)
            ==> no_open_order_in_batch(m, m.carbon_credit_batch_proposals[d].batch_hash),
    ensures
        reservations_covered(m.close_vote(d, moment)),
        m.close_vote(d, moment).carbon_credit_sale_orders == m.carbon_credit_sale_orders,
        m.close_vote(d, moment).carbon_credit_batch_proposals.dom() == m.carbon_credit_batch_proposals.dom(),
        forall|e: Seq<u8>| #[trigger] m.carbon_credit_batch_proposals.contains_key(e)
            ==> m.close_vote(d, moment).carbon_credit_batch_proposals[e].batch_hash == m.carbon_credit_batch_proposals[e].batch_hash,
{
    let m1 = if m.carbon_footprint_reports.contains_key(d) {
        m.update_carbon_footprint_account(m.carbon_footprint_reports[d], d, moment)
    } else {
        m
    };
    let m2 = if m1.project_proposals.contains_key(d) {
        m1.update_project_proposal(m1.project_proposals[d], d, moment)
    } else {
        m1
    };
    let m3 = m.close_vote(d, moment);
    assert(m2.carbon_credit_holdings == m.carbon_credit_holdings);
    assert(m2.carbon_credit_sale_orders == m.carbon_credit_sale_orders);
    assert(m2.carbon_credit_batch_proposals == m.carbon_credit_batch_proposals);
    if m2.carbon_credit_batch_proposals.contains_key(d) {
        let b = m2.carbon_credit_batch_proposals[d];
        assert(m3.carbon_credit_batch_proposals.dom() =~= m.carbon_credit_batch_proposals.dom());
        assert forall|h: Hash256, a: AccountId|
            #[trigger] reserved_in(m3.carbon_credit_sale_orders, h, a) <= m3.holding(h, a).unavailable_amount by {
            assert(reserved_in(m.carbon_credit_sale_orders, h, a) <= m.holding(h, a).unavailable_amount);
            if h == b.batch_hash {
                lemma_sum_zero(m.carbon_credit_sale_orders.dom(), |s: Hash256| order_reserve(m.carbon_credit_sale_orders[s], h, a));
            }
        }
    }
}

pub(crate) proof fn lemma_close_votes_covered(m: PalletModel, docs: Seq<Seq<u8>>, moment: u64)
    requires
        reservations_covered(m),
        forall|i: int| 0 <= i < docs.len() && m.carbon_credit_batch_proposals.contains_key(#[trigger] docs[i])
            ==> no_open_order_in_batch(m, m.carbon_credit_batch_proposals[docs[i]].batch_hash),
    ensures
        reservations_covered(m.close_votes(docs, moment)),
        m.close_votes(docs, moment).carbon_credit_sale_orders == m.carbon_credit_sale_orders,
        m.close_votes(docs, moment).carbon_credit_batch_proposals.dom() == m.carbon_credit_batch_proposals.dom(),
        forall|e: Seq<u8>| #[trigger] m.carbon_credit_batch_proposals.contains_key(e)
            ==> m.close_votes(docs, moment).carbon_credit_batch_proposals[e].batch_hash == m.carbon_credit_batch_proposals[e].batch_hash,
    decreases docs.len(),
{
    if docs.len() > 0 {
        let init = docs.drop_last();
        assert forall|i: int| 0 <= i < init.len() && m.carbon_credit_batch_proposals.contains_key(#[trigger] init[i])
            implies no_open_order_in_batch(m, m.carbon_credit_batch_proposals[init[i]].batch_hash) by {
            assert(init[i] == docs[i]);
        }
        lemma_close_votes_covered(m, init, moment);
        let prev = m.close_votes(init, moment);
        let d = docs.last();
        assert(docs[docs.len() - 1] == d);
        lemma_close_vote_covered(prev, d, moment);
    }
}

/// Reservations stay covered: no call and no block tick on which
/// `reservation_safe_call` holds uncovers an open order.
#[verifier::rlimit(80)]
pub proof fn lemma_reservations_stay_covered(m: PalletModel, c: Call)
    requires
        reservations_covered(m),
        reservation_safe_call(m, c),
    ensures
        reservations_covered(m.next(c)),
{
    let m2 = m.next(c);
    match c {
        Call::CreateSaleOrder(ctx, h0, p, n) => {
            if m.create_sale_order(ctx, h0, p, n) is Ok {
                let s0 = crate::hashing::hash_of(ctx.caller, ctx.nonce, ctx.moment);
                let orders = m.carbon_credit_sale_orders;
                assert(m2.carbon_credit_sale_orders.dom() =~= orders.dom().insert(s0));
                assert forall|h: Hash256, a: AccountId|
                    #[trigger] reserved_in(m2.carbon_credit_sale_orders, h, a) <= m2.holding(h, a).unavailable_amount by {
                    lemma_reserved_insert(orders, s0, m2.carbon_credit_sale_orders[s0], h, a);
                    lemma_reserved_covers(orders, s0, h, a);
                    assert(reserved_in(orders, h, a) <= m.holding(h, a).unavailable_amount);
                }
            }
        },
        Call::CompleteSaleOrder(ctx, s) => {
            if m.complete_sale_order(ctx, s) is Ok {
                lemma_open_order_is_reserved(m, s);
                lemma_order_end_covered(m, m2, s);
            }
        },
        Call::CloseSaleOrder(ctx, s) => {
            if m.close_sale_order(ctx, s) is Ok {
                lemma_open_order_is_reserved(m, s);
                lemma_order_end_covered(m, m2, s);
            }
        },
        Call::BlockTick(now, moment) => {
            let m1 = m.update_pallet_base_time(now);
            let m3 = m1.check_voting_timeouts(now, moment);
            if m1.voting_timeouts.contains_key(now) {
                let m1b = PalletModel { voting_timeouts: m1.voting_timeouts.remove(now), ..m1 };
                lemma_close_votes_covered(m1b, m1.voting_timeouts[now], moment);
            }
            if m3.sale_order_timeouts.contains_key(now) {
                lemma_expire_sales_covered(m3, m3.sale_order_timeouts[now]);
            }
        },
        Call::CastVote(ctx, k, d, v) => {
            assert(m2.carbon_credit_sale_orders == m.carbon_credit_sale_orders);
            assert(m2.carbon_credit_holdings == m.carbon_credit_holdings);
        },
        _ => {
            assert(m2.carbon_credit_sale_orders == m.carbon_credit_sale_orders);
            assert(m2.carbon_credit_holdings == m.carbon_credit_holdings);
        },
    }
}

} // verus!
