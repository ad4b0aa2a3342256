//! Laws of the marketplace, proved over its model.

use crate::hashing::hash_of;
use crate::model::{vote_passed, PalletModel};
use crate::types::{
    AccountId, Balance, CallContext, CarbonCreditHoldingsInfo, Error, FeeType, Hash256,
    ProportionStructure,
};
use vstd::prelude::*;

verus! {

/// A passing vote under a ratio whose upper limit is neither zero nor equal
/// to its proportion has at least `p * (for + against) / u` (floor) votes for.
pub proof fn lemma_passing_vote_meets_ratio(ratio: ProportionStructure, votes_for: nat, votes_against: nat)
    requires
        ratio.upper_limit_part > 0,
        ratio.upper_limit_part != ratio.proportion_part,
        vote_passed(ratio, votes_for + votes_against as int, votes_for as int),
    ensures
        votes_for >= (ratio.proportion_part * (votes_for + votes_against)) / (ratio.upper_limit_part as int),
{
}

/// Setting a fee to a value and then to the same value again: the second
/// update is refused as an update to the current value.
pub proof fn lemma_fee_update_twice(m: PalletModel, who: AccountId, fee_type: FeeType, value: Balance)
    requires
        m.update_fee_value(who, fee_type, value) is Ok,
    ensures
        m.update_fee_value(who, fee_type, value)->Ok_0.update_fee_value(who, fee_type, value)
            == Err::<PalletModel, Error>(Error::UpdatingToCurrentValue),
{
    let m1 = m.update_fee_value(who, fee_type, value)->Ok_0;
    assert(m1.fee_values.spec_get(fee_type) == value);
}

/// The credits of `a` in batch `h`, reserved or not.
pub open spec fn total_held(m: PalletModel, h: Hash256, a: AccountId) -> int {
    m.holding(h, a).available_amount + m.holding(h, a).unavailable_amount
}

/// Creating a sale order and closing it at once leaves every holding as it was.
pub proof fn lemma_create_then_close_keeps_holdings(
    m: PalletModel,
    ctx: CallContext,
    batch_hash: Hash256,
    credit_price: Balance,
    credit_amount: Balance,
    closer: CallContext,
)
    requires
        m.create_sale_order(ctx, batch_hash, credit_price, credit_amount) is Ok,
        closer.caller == ctx.caller,
        m.holding(batch_hash, ctx.caller).unavailable_amount + credit_amount <= u128::MAX,
    ensures
        ({
            let m1 = m.create_sale_order(ctx, batch_hash, credit_price, credit_amount)->Ok_0;
            let s = hash_of(ctx.caller, ctx.nonce, ctx.moment);
            &&& m1.close_sale_order(closer, s) is Ok
            &&& m1.close_sale_order(closer, s)->Ok_0.carbon_credit_holdings == m.carbon_credit_holdings
        }),
{
    let m1 = m.create_sale_order(ctx, batch_hash, credit_price, credit_amount)->Ok_0;
    let s = hash_of(ctx.caller, ctx.nonce, ctx.moment);
    assert(m1.batch_exists(batch_hash) && m1.batch_active(batch_hash));
    let m2 = m1.close_sale_order(closer, s)->Ok_0;
    assert(m2.carbon_credit_holdings =~= m.carbon_credit_holdings);
}

/// Creating a sale order and having another eligible account complete it
/// moves exactly the order's credits from the seller's available ones to the
/// buyer's: the seller ends with its reserved credits as before the order and
/// `credit_amount` fewer available ones.
pub proof fn lemma_create_then_complete_moves_credits(
    m: PalletModel,
    ctx: CallContext,
    batch_hash: Hash256,
    credit_price: Balance,
    credit_amount: Balance,
    buyer: CallContext,
)
    requires
        m.create_sale_order(ctx, batch_hash, credit_price, credit_amount) is Ok,
        buyer.caller != ctx.caller,
        m.is_eligible_for_carbon_credit_transaction(buyer.caller),
        crate::model::sat_mul(credit_amount, credit_price) <= buyer.free_balance,
        m.holding(batch_hash, ctx.caller).unavailable_amount + credit_amount <= u128::MAX,
        m.holding(batch_hash, buyer.caller).available_amount + credit_amount <= u128::MAX,
    ensures
        ({
            let m1 = m.create_sale_order(ctx, batch_hash, credit_price, credit_amount)->Ok_0;
            let s = hash_of(ctx.caller, ctx.nonce, ctx.moment);
            let m2 = m1.complete_sale_order(buyer, s)->Ok_0;
            let before_seller = m.holding(batch_hash, ctx.caller);
            let before_buyer = m.holding(batch_hash, buyer.caller);
            &&& m1.complete_sale_order(buyer, s) is Ok
            &&& m2.holding(batch_hash, buyer.caller) == (CarbonCreditHoldingsInfo {
                available_amount: (before_buyer.available_amount + credit_amount) as Balance,
                unavailable_amount: before_buyer.unavailable_amount,
            })
            &&& m2.holding(batch_hash, ctx.caller) == (CarbonCreditHoldingsInfo {
                available_amount: (before_seller.available_amount - credit_amount) as Balance,
                unavailable_amount: before_seller.unavailable_amount,
            })
        }),
{
    let m1 = m.create_sale_order(ctx, batch_hash, credit_price, credit_amount)->Ok_0;
    let s = hash_of(ctx.caller, ctx.nonce, ctx.moment);
    assert(m1.batch_exists(batch_hash) && m1.batch_active(batch_hash));
    assert(m1.sale_payment(s) == crate::model::sat_mul(credit_amount, credit_price));
    assert(m1.holding(batch_hash, buyer.caller) == m.holding(batch_hash, buyer.caller));
}

/// Ending an order restores the seller's credits in its batch, reserved or
/// not, to what they were before the order: fully on close and on expiry,
/// less the buyer's gain of `credit_amount` on completion.
pub proof fn lemma_sale_end_restores_seller_total(
    m: PalletModel,
    ctx: CallContext,
    batch_hash: Hash256,
    credit_price: Balance,
    credit_amount: Balance,
    other: CallContext,
)
    requires
        m.create_sale_order(ctx, batch_hash, credit_price, credit_amount) is Ok,
        m.holding(batch_hash, ctx.caller).unavailable_amount + credit_amount <= u128::MAX,
    ensures
        ({
            let m1 = m.create_sale_order(ctx, batch_hash, credit_price, credit_amount)->Ok_0;
            let s = hash_of(ctx.caller, ctx.nonce, ctx.moment);
            let before = total_held(m, batch_hash, ctx.caller);
            &&& total_held(m1.expire_sale(s), batch_hash, ctx.caller) == before
            &&& (other.caller == ctx.caller ==> total_held(m1.close_sale_order(other, s)->Ok_0, batch_hash, ctx.caller) == before)
            &&& (m1.complete_sale_order(other, s) is Ok ==>
                total_held(m1.complete_sale_order(other, s)->Ok_0, batch_hash, ctx.caller) == before - credit_amount)
        }),
{
    let m1 = m.create_sale_order(ctx, batch_hash, credit_price, credit_amount)->Ok_0;
    let s = hash_of(ctx.caller, ctx.nonce, ctx.moment);
    assert(m1.batch_exists(batch_hash) && m1.batch_active(batch_hash));
    if other.caller == ctx.caller {
        lemma_create_then_close_keeps_holdings(m, ctx, batch_hash, credit_price, credit_amount, other);
    }
}

} // verus!
