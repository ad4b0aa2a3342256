//! Laws that hold in every reachable state: each is kept by every call and
//! by the block tick.

use crate::model::{enqueue, run, Call, PalletModel};
use crate::pallet::genesis;
use crate::types::AccountId;
use vstd::prelude::*;

verus! {

/// What closing the vote on `d` leaves alone or changes.
proof fn lemma_close_vote_frame(m: PalletModel, d: Seq<u8>, moment: u64)
    ensures
        ({
            let m2 = m.close_vote(d, moment);
            &&& m2.authority_accounts == m.authority_accounts
            &&& m2.trader_accounts == m.trader_accounts
            &&& m2.project_validators == m.project_validators
            &&& m2.project_owners == m.project_owners
            &&& m2.voting_timeouts == m.voting_timeouts
            &&& m2.vote_pass_ratio == m.vote_pass_ratio
            &&& m2.carbon_footprint_reports.dom() == m.carbon_footprint_reports.dom()
            &&& m2.project_proposals.dom() == m.project_proposals.dom()
            &&& m2.carbon_credit_batch_proposals.dom() == m.carbon_credit_batch_proposals.dom()
            &&& forall|e: Seq<u8>| e != d ==> {
                &&& #[trigger] m2.carbon_footprint_reports[e] == m.carbon_footprint_reports[e]
                &&& m2.project_proposals[e] == m.project_proposals[e]
                &&& m2.carbon_credit_batch_proposals[e] == m.carbon_credit_batch_proposals[e]
            }
            &&& forall|e: Seq<u8>| #[trigger] m.carbon_footprint_reports.contains_key(e)
                ==> m2.carbon_footprint_reports[e].cf_account == m.carbon_footprint_reports[e].cf_account
            &&& m.carbon_footprint_reports.contains_key(d) ==> !m2.carbon_footprint_reports[d].voting_active
            &&& m.project_proposals.contains_key(d) ==> !m2.project_proposals[d].voting_active
            &&& m.carbon_credit_batch_proposals.contains_key(d) ==> !m2.carbon_credit_batch_proposals[d].voting_active
            &&& forall|a: AccountId| #[trigger] m2.carbon_footprint_accounts.contains_key(a) ==> {
                ||| m.carbon_footprint_accounts.contains_key(a)
                    && m2.carbon_footprint_accounts[a].documentation_ipfses == m.carbon_footprint_accounts[a].documentation_ipfses
                ||| m.carbon_footprint_reports.contains_key(d) && m.carbon_footprint_reports[d].cf_account == a && (
                    (m.carbon_footprint_accounts.contains_key(a) && m2.carbon_footprint_accounts[a].documentation_ipfses
                        == m.carbon_footprint_accounts[a].documentation_ipfses.insert(d))
                    || (!m.carbon_footprint_accounts.contains_key(a)
                        && m2.carbon_footprint_accounts[a].documentation_ipfses == set![d]))
            }
        }),
{
    let m1 = if m.carbon_footprint_reports.contains_key(d) {
        m.update_carbon_footprint_account(m.carbon_footprint_reports[d], d, moment)
    } else {
        m
    };
    let m2 = if m1.project_proposals.contains_key(d) {
        m1.update_project_proposal(m1.project_proposals[d], d, moment)
    } else {
        m1
    };
    let m3 = m.close_vote(d, moment);
    assert(m1.carbon_footprint_reports.dom() =~= m.carbon_footprint_reports.dom());
    assert(m2.project_proposals.dom() =~= m1.project_proposals.dom());
    assert(m3.carbon_credit_batch_proposals.dom() =~= m2.carbon_credit_batch_proposals.dom());
}

/// What closing the votes on `s` leaves alone or changes.
proof fn lemma_close_votes_frame(m: PalletModel, s: Seq<Seq<u8>>, moment: u64)
    ensures
        ({
            let m2 = m.close_votes(s, moment);
            &&& m2.authority_accounts == m.authority_accounts
            &&& m2.trader_accounts == m.trader_accounts
            &&& m2.project_validators == m.project_validators
            &&& m2.project_owners == m.project_owners
            &&& m2.voting_timeouts == m.voting_timeouts
            &&& m2.vote_pass_ratio == m.vote_pass_ratio
            &&& m2.carbon_footprint_reports.dom() == m.carbon_footprint_reports.dom()
            &&& m2.project_proposals.dom() == m.project_proposals.dom()
            &&& m2.carbon_credit_batch_proposals.dom() == m.carbon_credit_batch_proposals.dom()
            &&& forall|e: Seq<u8>| !s.contains(e) ==> {
                &&& #[trigger] m2.carbon_footprint_reports[e] == m.carbon_footprint_reports[e]
                &&& m2.project_proposals[e] == m.project_proposals[e]
                &&& m2.carbon_credit_batch_proposals[e] == m.carbon_credit_batch_proposals[e]
            }
            &&& forall|e: Seq<u8>| #[trigger] m.carbon_footprint_reports.contains_key(e)
                ==> m2.carbon_footprint_reports[e].cf_account == m.carbon_footprint_reports[e].cf_account
            &&& forall|e: Seq<u8>| #[trigger] s.contains(e) ==> {
                &&& m.carbon_footprint_reports.contains_key(e) ==> !m2.carbon_footprint_reports[e].voting_active
                &&& m.project_proposals.contains_key(e) ==> !m2.project_proposals[e].voting_active
                &&& m.carbon_credit_batch_proposals.contains_key(e) ==> !m2.carbon_credit_batch_proposals[e].voting_active
            }
        }),
    decreases s.len(),
{
    if s.len() > 0 {
        let prev = m.close_votes(s.drop_last(), moment);
        lemma_close_votes_frame(m, s.drop_last(), moment);
        lemma_close_vote_frame(prev, s.last(), moment);
        assert forall|e: Seq<u8>| !s.contains(e) implies !s.drop_last().contains(e) && e != s.last() by {
            if s.drop_last().contains(e) {
                let i = choose|i: int| 0 <= i < s.drop_last().len() && s.drop_last()[i] == e;
                assert(s[i] == e);
            }
            assert(s[s.len() - 1] == s.last());
        }
        assert forall|e: Seq<u8>| #[trigger] s.contains(e) implies e == s.last() || s.drop_last().contains(e) by {
            let i = choose|i: int| 0 <= i < s.len() && s[i] == e;
            if i < s.len() - 1 {
                assert(s.drop_last()[i] == e);
            }
        }
    }
}

/// Expiring sale orders touches only orders and holdings.
proof fn lemma_expire_sales_frame(m: PalletModel, s: Seq<crate::types::Hash256>)
    ensures
        ({
            let m2 = m.expire_sales(s);
            m2 == (PalletModel {
                carbon_credit_sale_orders: m2.carbon_credit_sale_orders,
                carbon_credit_holdings: m2.carbon_credit_holdings,
                ..m
            })
        }),
    decreases s.len(),
{
    if s.len() > 0 {
        lemma_expire_sales_frame(m, s.drop_last());
    }
}

/// The sale step of the block tick touches only orders and holdings.
proof fn lemma_check_sale_timeouts_frame(m: PalletModel, now: u64)
    ensures
        ({
            let m2 = m.check_sale_timeouts(now);
            m2 == (PalletModel {
                carbon_credit_sale_orders: m2.carbon_credit_sale_orders,
                carbon_credit_holdings: m2.carbon_credit_holdings,
                ..m
            })
        }),
{
    if m.sale_order_timeouts.contains_key(now) {
        lemma_expire_sales_frame(m, m.sale_order_timeouts[now]);
    }
}

/// Every documentation string is used by at most one artifact or account:
/// the report, project proposal and batch proposal tables share no key, no
/// validator's or owner's documentation is a key of them or another
/// validator's or owner's, and a footprint account's documents are keys of
/// its own reports (the report a document came from is its only other use).
pub open spec fn docs_unique(m: PalletModel) -> bool {
    &&& forall|d: Seq<u8>| #[trigger] m.carbon_footprint_reports.contains_key(d) ==> {
        &&& !m.project_proposals.contains_key(d)
        &&& !m.carbon_credit_batch_proposals.contains_key(d)
    }
    &&& forall|d: Seq<u8>| #[trigger] m.project_proposals.contains_key(d)
        ==> !m.carbon_credit_batch_proposals.contains_key(d)
    &&& forall|a: AccountId| #[trigger] m.project_validators.contains_key(a) ==> {
        let d = m.project_validators[a].documentation_ipfs;
        &&& !m.carbon_footprint_reports.contains_key(d)
        &&& !m.project_proposals.contains_key(d)
        &&& !m.carbon_credit_batch_proposals.contains_key(d)
    }
    &&& forall|a: AccountId| #[trigger] m.project_owners.contains_key(a) ==> {
        let d = m.project_owners[a].documentation_ipfs;
        &&& !m.carbon_footprint_reports.contains_key(d)
        &&& !m.project_proposals.contains_key(d)
        &&& !m.carbon_credit_batch_proposals.contains_key(d)
    }
    &&& forall|a: AccountId, b: AccountId|
        #[trigger] m.project_validators.contains_key(a) && #[trigger] m.project_validators.contains_key(b) && a != b
            ==> m.project_validators[a].documentation_ipfs != m.project_validators[b].documentation_ipfs
    &&& forall|a: AccountId, b: AccountId|
        #[trigger] m.project_owners.contains_key(a) && #[trigger] m.project_owners.contains_key(b) && a != b
            ==> m.project_owners[a].documentation_ipfs != m.project_owners[b].documentation_ipfs
    &&& forall|a: AccountId, b: AccountId|
        #[trigger] m.project_validators.contains_key(a) && #[trigger] m.project_owners.contains_key(b)
            ==> m.project_validators[a].documentation_ipfs != m.project_owners[b].documentation_ipfs
    &&& forall|a: AccountId, d: Seq<u8>|
        #[trigger] m.carbon_footprint_accounts.contains_key(a)
            && #[trigger] m.carbon_footprint_accounts[a].documentation_ipfses.contains(d)
            ==> m.carbon_footprint_reports.contains_key(d) && m.carbon_footprint_reports[d].cf_account == a
}

proof fn lemma_close_votes_keep_docs_unique(m: PalletModel, s: Seq<Seq<u8>>, moment: u64)
    requires
        docs_unique(m),
    ensures
        docs_unique(m.close_votes(s, moment)),
    decreases s.len(),
{
    if s.len() > 0 {
        let prev = m.close_votes(s.drop_last(), moment);
        lemma_close_votes_keep_docs_unique(m, s.drop_last(), moment);
        lemma_close_vote_frame(prev, s.last(), moment);
        let m2 = prev.close_vote(s.last(), moment);
        assert forall|a: AccountId, d: Seq<u8>|
            #[trigger] m2.carbon_footprint_accounts.contains_key(a)
                && #[trigger] m2.carbon_footprint_accounts[a].documentation_ipfses.contains(d) implies
                m2.carbon_footprint_reports.contains_key(d) && m2.carbon_footprint_reports[d].cf_account == a by {
            if d != s.last() {
                assert(prev.carbon_footprint_accounts.contains_key(a));
                assert(prev.carbon_footprint_accounts[a].documentation_ipfses.contains(d));
                assert(prev.carbon_footprint_reports.contains_key(d));
            } else if prev.carbon_footprint_accounts.contains_key(a)
                && m2.carbon_footprint_accounts[a].documentation_ipfses == prev.carbon_footprint_accounts[a].documentation_ipfses {
                assert(prev.carbon_footprint_reports.contains_key(d));
            }
        }
    }
}

proof fn lemma_register_validator_keeps_docs_unique(m: PalletModel, ctx: crate::types::CallContext, d: Seq<u8>)
    requires
        docs_unique(m),
    ensures
        docs_unique(m.next(Call::RegisterValidator(ctx, d))),
{
    let m2 = m.next(Call::RegisterValidator(ctx, d));
    if m.register_for_project_validator_account(ctx, d) is Ok {
        assert(m.is_ipfs_available(d));
        assert(!m.project_validators.contains_key(ctx.caller));
        assert forall|a: AccountId, b: AccountId|
            #[trigger] m2.project_validators.contains_key(a) && #[trigger] m2.project_validators.contains_key(b) && a != b
                implies m2.project_validators[a].documentation_ipfs != m2.project_validators[b].documentation_ipfs by {
            if a != ctx.caller && b != ctx.caller {
                assert(m.project_validators.contains_key(a) && m.project_validators.contains_key(b));
            } else if a == ctx.caller {
                assert(m.project_validators.contains_key(b));
            } else {
                assert(m.project_validators.contains_key(a));
            }
        }
        assert forall|a: AccountId, b: AccountId|
            #[trigger] m2.project_validators.contains_key(a) && #[trigger] m2.project_owners.contains_key(b)
                implies m2.project_validators[a].documentation_ipfs != m2.project_owners[b].documentation_ipfs by {
            if a != ctx.caller {
                assert(m.project_validators.contains_key(a));
            } else {
                assert(m.project_owners.contains_key(b));
            }
        }
        assert forall|a: AccountId| #[trigger] m2.project_validators.contains_key(a) implies {
            let e = m2.project_validators[a].documentation_ipfs;
            &&& !m2.carbon_footprint_reports.contains_key(e)
            &&& !m2.project_proposals.contains_key(e)
            &&& !m2.carbon_credit_batch_proposals.contains_key(e)
        } by {
            if a != ctx.caller {
                assert(m.project_validators.contains_key(a));
            }
        }
    }
}

/// Documentation stays unique: no call and no block tick breaks `docs_unique`.
pub proof fn lemma_docs_stay_unique(m: PalletModel, c: Call)
    requires
        docs_unique(m),
    ensures
        docs_unique(m.next(c)),
{
    let m2 = m.next(c);
    match c {
        Call::RegisterValidator(ctx, d) => {
            lemma_register_validator_keeps_docs_unique(m, ctx, d);
        },
        Call::RegisterOwner(ctx, d) => {
            if m.register_for_project_owner_account(ctx, d) is Ok {
                assert(m.is_ipfs_available(d));
                assert(!m.project_owners.contains_key(ctx.caller));
                assert forall|a: AccountId, b: AccountId|
                    #[trigger] m2.project_owners.contains_key(a) && #[trigger] m2.project_owners.contains_key(b) && a != b
                        implies m2.project_owners[a].documentation_ipfs != m2.project_owners[b].documentation_ipfs by {
                    if a != ctx.caller && b != ctx.caller {
                        assert(m.project_owners.contains_key(a) && m.project_owners.contains_key(b));
                    } else if a == ctx.caller {
                        assert(m.project_owners.contains_key(b));
                    } else {
                        assert(m.project_owners.contains_key(a));
                    }
                }
                assert forall|a: AccountId, b: AccountId|
                    #[trigger] m2.project_validators.contains_key(a) && #[trigger] m2.project_owners.contains_key(b)
                        implies m2.project_validators[a].documentation_ipfs != m2.project_owners[b].documentation_ipfs by {
                    if b != ctx.caller {
                        assert(m.project_owners.contains_key(b));
                    }
                }
            }
        },
        Call::SubmitReport(ctx, d, bal) => {
            if m.submit_carbon_footprint_report(ctx, d, bal) is Ok {
                assert(m.is_ipfs_available(d));
                assert forall|a: AccountId, e: Seq<u8>|
                    #[trigger] m2.carbon_footprint_accounts.contains_key(a)
                        && #[trigger] m2.carbon_footprint_accounts[a].documentation_ipfses.contains(e) implies
                        m2.carbon_footprint_reports.contains_key(e) && m2.carbon_footprint_reports[e].cf_account == a by {
                    assert(m.carbon_footprint_reports.contains_key(e));
                }
            }
        },
        Call::ProposeProject(ctx, d) => {
            if m.propose_project(ctx, d) is Ok {
                assert(m.is_ipfs_available(d));
            }
        },
        Call::ProposeBatch(ctx, h, n, p, d) => {
            if m.propose_carbon_credit_batch(ctx, h, n, p, d) is Ok {
                assert(m.is_ipfs_available(d));
            }
        },
        Call::CastVote(ctx, k, d, v) => {
            if m.cast_vote(ctx, k, d, v) is Ok {
                assert(m2.carbon_footprint_reports.dom() =~= m.carbon_footprint_reports.dom());
                assert(m2.project_proposals.dom() =~= m.project_proposals.dom());
                assert(m2.carbon_credit_batch_proposals.dom() =~= m.carbon_credit_batch_proposals.dom());
                assert forall|a: AccountId, e: Seq<u8>|
                    #[trigger] m2.carbon_footprint_accounts.contains_key(a)
                        && #[trigger] m2.carbon_footprint_accounts[a].documentation_ipfses.contains(e) implies
                        m2.carbon_footprint_reports.contains_key(e) && m2.carbon_footprint_reports[e].cf_account == a by {
                    assert(m.carbon_footprint_reports.contains_key(e));
                }
            }
        },
        Call::BlockTick(now, moment) => {
            let m1 = m.update_pallet_base_time(now);
            assert(docs_unique(m1));
            if m1.voting_timeouts.contains_key(now) {
                let m1b = PalletModel { voting_timeouts: m1.voting_timeouts.remove(now), ..m1 };
                lemma_close_votes_keep_docs_unique(m1b, m1.voting_timeouts[now], moment);
            }
            lemma_check_sale_timeouts_frame(m1.check_voting_timeouts(now, moment), now);
        },
        _ => {},
    }
}

/// No account holds two roles: footprint account, trader, validator and owner
/// exclude one another, and an account with a report under vote is neither
/// trader, validator nor owner.
pub open spec fn roles_exclusive(m: PalletModel) -> bool {
    &&& forall|a: AccountId| #[trigger] m.carbon_footprint_accounts.contains_key(a) ==> {
        &&& !m.trader_accounts.contains(a)
        &&& !m.project_validators.contains_key(a)
        &&& !m.project_owners.contains_key(a)
    }
    &&& forall|a: AccountId| #[trigger] m.trader_accounts.contains(a) ==> {
        &&& !m.project_validators.contains_key(a)
        &&& !m.project_owners.contains_key(a)
    }
    &&& forall|a: AccountId| #[trigger] m.project_validators.contains_key(a) ==> !m.project_owners.contains_key(a)
    &&& forall|d: Seq<u8>| #[trigger] m.carbon_footprint_reports.contains_key(d) && m.carbon_footprint_reports[d].voting_active
        ==> {
        let a = m.carbon_footprint_reports[d].cf_account;
        &&& !m.trader_accounts.contains(a)
        &&& !m.project_validators.contains_key(a)
        &&& !m.project_owners.contains_key(a)
    }
}

/// The vote queues: each holds distinct documents of reports or proposals,
/// no document is queued at two blocks, and a queued report is still under
/// vote.
pub open spec fn voting_queues_consistent(m: PalletModel) -> bool {
    &&& forall|b: u64| #[trigger] m.voting_timeouts.contains_key(b) ==> m.voting_timeouts[b].no_duplicates()
    &&& forall|b: u64, i: int| m.voting_timeouts.contains_key(b) && 0 <= i < m.voting_timeouts[b].len() ==> {
        let d = #[trigger] m.voting_timeouts[b][i];
        &&& m.carbon_footprint_reports.contains_key(d) || m.project_proposals.contains_key(d)
            || m.carbon_credit_batch_proposals.contains_key(d)
        &&& m.carbon_footprint_reports.contains_key(d) ==> m.carbon_footprint_reports[d].voting_active
    }
    &&& forall|b1: u64, b2: u64, i: int, j: int|
        m.voting_timeouts.contains_key(b1) && m.voting_timeouts.contains_key(b2) && 0 <= i < m.voting_timeouts[b1].len()
            && 0 <= j < m.voting_timeouts[b2].len() && #[trigger] m.voting_timeouts[b1][i] == #[trigger] m.voting_timeouts[b2][j]
            ==> b1 == b2
}

proof fn lemma_close_vote_keeps_roles(m: PalletModel, d: Seq<u8>, moment: u64)
    requires
        roles_exclusive(m),
        m.carbon_footprint_reports.contains_key(d) ==> m.carbon_footprint_reports[d].voting_active,
    ensures
        roles_exclusive(m.close_vote(d, moment)),
{
    lemma_close_vote_frame(m, d, moment);
    let m2 = m.close_vote(d, moment);
    assert forall|e: Seq<u8>| #[trigger] m2.carbon_footprint_reports.contains_key(e) && m2.carbon_footprint_reports[e].voting_active
        implies {
        let a = m2.carbon_footprint_reports[e].cf_account;
        &&& !m2.trader_accounts.contains(a)
        &&& !m2.project_validators.contains_key(a)
        &&& !m2.project_owners.contains_key(a)
    } by {
        assert(m.carbon_footprint_reports.contains_key(e));
    }
}

proof fn lemma_close_votes_keep_roles(m: PalletModel, s: Seq<Seq<u8>>, moment: u64)
    requires
        roles_exclusive(m),
        s.no_duplicates(),
        forall|i: int| 0 <= i < s.len() && m.carbon_footprint_reports.contains_key(#[trigger] s[i])
            ==> m.carbon_footprint_reports[s[i]].voting_active,
    ensures
        roles_exclusive(m.close_votes(s, moment)),
    decreases s.len(),
{
    if s.len() > 0 {
        let init = s.drop_last();
        assert forall|i: int| 0 <= i < init.len() && m.carbon_footprint_reports.contains_key(#[trigger] init[i])
            implies m.carbon_footprint_reports[init[i]].voting_active by {
            assert(init[i] == s[i]);
        }
        lemma_close_votes_keep_roles(m, init, moment);
        lemma_close_votes_frame(m, init, moment);
        let last = s.last();
        assert(!init.contains(last)) by {
            if init.contains(last) {
                let i = choose|i: int| 0 <= i < init.len() && init[i] == last;
                assert(s[i] == s[s.len() - 1]);
            }
        }
        assert(s[s.len() - 1] == last);
        lemma_close_vote_keeps_roles(m.close_votes(init, moment), last, moment);
    }
}

/// Roles stay exclusive: no call and no block tick breaks `roles_exclusive`
/// while the vote queues are consistent, and none breaks the queues'
/// consistency.
#[verifier::rlimit(80)]
pub proof fn lemma_roles_stay_exclusive(m: PalletModel, c: Call)
    requires
        roles_exclusive(m),
        voting_queues_consistent(m),
    ensures
        roles_exclusive(m.next(c)),
        voting_queues_consistent(m.next(c)),
{
    let m2 = m.next(c);
    match c {
        Call::RegisterTrader(ctx) => {
            if m.register_for_trader_account(ctx) is Ok {
                assert(!m.is_trying_to_register_as_cfa(ctx.caller));
            }
        },
        Call::RegisterValidator(ctx, d) => {
            if m.register_for_project_validator_account(ctx, d) is Ok {
                assert(!m.is_trying_to_register_as_cfa(ctx.caller));
            }
        },
        Call::RegisterOwner(ctx, d) => {
            if m.register_for_project_owner_account(ctx, d) is Ok {
                assert(!m.is_trying_to_register_as_cfa(ctx.caller));
            }
        },
        Call::SubmitReport(ctx, d, bal) => {
            if m.submit_carbon_footprint_report(ctx, d, bal) is Ok {
                lemma_fresh_doc_enqueued(m, m2, d, m.voting_timeout_block(ctx));
            }
        },
        Call::ProposeProject(ctx, d) => {
            if m.propose_project(ctx, d) is Ok {
                lemma_fresh_doc_enqueued(m, m2, d, m.voting_timeout_block(ctx));
            }
        },
        Call::ProposeBatch(ctx, h, n, p, d) => {
            if m.propose_carbon_credit_batch(ctx, h, n, p, d) is Ok {
                lemma_fresh_doc_enqueued(m, m2, d, m.voting_timeout_block(ctx));
            }
        },
        Call::CastVote(ctx, k, d, v) => {
            if m.cast_vote(ctx, k, d, v) is Ok {
                assert(m2.carbon_footprint_reports.dom() =~= m.carbon_footprint_reports.dom());
                assert(m2.project_proposals.dom() =~= m.project_proposals.dom());
                assert(m2.carbon_credit_batch_proposals.dom() =~= m.carbon_credit_batch_proposals.dom());
                assert forall|e: Seq<u8>| #[trigger] m2.carbon_footprint_reports.contains_key(e) implies
                    m2.carbon_footprint_reports[e].voting_active == m.carbon_footprint_reports[e].voting_active
                    && m2.carbon_footprint_reports[e].cf_account == m.carbon_footprint_reports[e].cf_account by {}
            }
        },
        Call::BlockTick(now, moment) => {
            let m1 = m.update_pallet_base_time(now);
            let m3 = m1.check_voting_timeouts(now, moment);
            if m1.voting_timeouts.contains_key(now) {
                let q = m1.voting_timeouts[now];
                let m1b = PalletModel { voting_timeouts: m1.voting_timeouts.remove(now), ..m1 };
                assert forall|i: int| 0 <= i < q.len() && m1b.carbon_footprint_reports.contains_key(#[trigger] q[i])
                    implies m1b.carbon_footprint_reports[q[i]].voting_active by {
                    assert(m1.voting_timeouts[now][i] == q[i]);
                }
                lemma_close_votes_keep_roles(m1b, q, moment);
                lemma_close_votes_frame(m1b, q, moment);
                assert forall|b: u64, i: int| m3.voting_timeouts.contains_key(b) && 0 <= i < m3.voting_timeouts[b].len() implies {
                    let d = #[trigger] m3.voting_timeouts[b][i];
                    &&& m3.carbon_footprint_reports.contains_key(d) || m3.project_proposals.contains_key(d)
                        || m3.carbon_credit_batch_proposals.contains_key(d)
                    &&& m3.carbon_footprint_reports.contains_key(d) ==> m3.carbon_footprint_reports[d].voting_active
                } by {
                    let d = m3.voting_timeouts[b][i];
                    assert(b != now);
                    assert(m1.voting_timeouts[b][i] == d);
                    if q.contains(d) {
                        let j = choose|j: int| 0 <= j < q.len() && q[j] == d;
                        assert(m1.voting_timeouts[now][j] == d);
                    }
                }
            }
            lemma_check_sale_timeouts_frame(m3, now);
        },
        _ => {},
    }
}

/// A call that adds the fresh document `d` to a table and to the queue of
/// block `b` keeps the queues consistent.
proof fn lemma_fresh_doc_enqueued(m: PalletModel, m2: PalletModel, d: Seq<u8>, b: u64)
    requires
        voting_queues_consistent(m),
        m.is_ipfs_available(d),
        m2.voting_timeouts == crate::model::enqueue(m.voting_timeouts, b, d),
        m2.carbon_footprint_reports.contains_key(d) || m2.project_proposals.contains_key(d)
            || m2.carbon_credit_batch_proposals.contains_key(d),
        m2.carbon_footprint_reports.contains_key(d) ==> m2.carbon_footprint_reports[d].voting_active,
        forall|e: Seq<u8>| e != d ==> {
            &&& #[trigger] m2.carbon_footprint_reports.contains_key(e) == m.carbon_footprint_reports.contains_key(e)
            &&& m2.carbon_footprint_reports[e] == m.carbon_footprint_reports[e]
            &&& m2.project_proposals.contains_key(e) == m.project_proposals.contains_key(e)
            &&& m2.carbon_credit_batch_proposals.contains_key(e) == m.carbon_credit_batch_proposals.contains_key(e)
        },
    ensures
        voting_queues_consistent(m2),
{
    assert forall|c: u64, i: int| m.voting_timeouts.contains_key(c) && 0 <= i < m.voting_timeouts[c].len()
        implies #[trigger] m.voting_timeouts[c][i] != d by {
        let e = m.voting_timeouts[c][i];
    }
    if m.voting_timeouts.contains_key(b) {
        assert(!m.voting_timeouts[b].contains(d));
        let q2 = m.voting_timeouts[b].push(d);
        assert(m2.voting_timeouts[b] == q2);
        assert forall|i: int, j: int| 0 <= i < j < q2.len() implies q2[i] != q2[j] by {
            if j == q2.len() - 1 {
                assert(q2[i] == m.voting_timeouts[b][i]);
            } else {
                assert(m.voting_timeouts[b].no_duplicates());
                assert(q2[i] == m.voting_timeouts[b][i] && q2[j] == m.voting_timeouts[b][j]);
            }
        }
    }
    assert forall|c: u64, i: int| m2.voting_timeouts.contains_key(c) && 0 <= i < m2.voting_timeouts[c].len() implies {
        let e = #[trigger] m2.voting_timeouts[c][i];
        &&& m2.carbon_footprint_reports.contains_key(e) || m2.project_proposals.contains_key(e)
            || m2.carbon_credit_batch_proposals.contains_key(e)
        &&& m2.carbon_footprint_reports.contains_key(e) ==> m2.carbon_footprint_reports[e].voting_active
    } by {
        let e = m2.voting_timeouts[c][i];
        if e != d {
            if c == b {
                if m.voting_timeouts.contains_key(b) {
                    assert(m.voting_timeouts[b][i] == e);
                }
            } else {
                assert(m.voting_timeouts[c][i] == e);
            }
        }
    }
    assert forall|b1: u64, b2: u64, i: int, j: int|
        m2.voting_timeouts.contains_key(b1) && m2.voting_timeouts.contains_key(b2) && 0 <= i < m2.voting_timeouts[b1].len()
            && 0 <= j < m2.voting_timeouts[b2].len() && #[trigger] m2.voting_timeouts[b1][i] == #[trigger] m2.voting_timeouts[b2][j]
            implies b1 == b2 by {
        let e = m2.voting_timeouts[b1][i];
        if e != d {
            let i1 = i;
            let j1 = j;
            if b1 == b && !m.voting_timeouts.contains_key(b) {
            } else if b2 == b && !m.voting_timeouts.contains_key(b) {
            } else {
                assert(m.voting_timeouts[b1][i1] == e);
                assert(m.voting_timeouts[b2][j1] == e);
            }
        } else {
            if b1 != b {
                assert(m.voting_timeouts[b1][i] == d);
            }
            if b2 != b {
                assert(m.voting_timeouts[b2][j] == d);
            }
        }
    }
}

/// The laws hold at genesis.
pub proof fn lemma_genesis_laws(authorities: Set<AccountId>, block_finalization_time: u32)
    ensures
        roles_exclusive(genesis(authorities, block_finalization_time)),
        voting_queues_consistent(genesis(authorities, block_finalization_time)),
        docs_unique(genesis(authorities, block_finalization_time)),
{
}

proof fn lemma_enqueue_holds(q: Map<u64, Seq<Seq<u8>>>, b: u64, d: Seq<u8>, c: u64, e: Seq<u8>)
    ensures
        enqueue(q, b, d).contains_key(b) && enqueue(q, b, d)[b].contains(d),
        q.contains_key(c) && q[c].contains(e) ==> enqueue(q, b, d).contains_key(c) && enqueue(q, b, d)[c].contains(e),
{
    if q.contains_key(b) && !q[b].contains(d) {
        let p = q[b].push(d);
        assert(p[p.len() - 1] == d);
        if c == b && q[c].contains(e) {
            let i = choose|i: int| 0 <= i < q[b].len() && q[b][i] == e;
            assert(p[i] == e);
        }
    }
    if !q.contains_key(b) {
        assert(seq![d][0] == d);
    }
}

/// A successful submission queues its vote to close at the block `voting
/// timeout` after the current one.
pub proof fn lemma_submission_queues_vote(
    m: PalletModel,
    ctx: crate::types::CallContext,
    d: Seq<u8>,
    balance: i128,
    project_hash: crate::types::Hash256,
    credit_amount: u128,
    initial_credit_price: u128,
)
    ensures
        ctx.block_number + m.time_values.voting_timeout <= u64::MAX
            ==> m.voting_timeout_block(ctx) == ctx.block_number + m.time_values.voting_timeout,
        ({
            let b = m.voting_timeout_block(ctx);
            &&& m.submit_carbon_footprint_report(ctx, d, balance) is Ok
                ==> m.submit_carbon_footprint_report(ctx, d, balance)->Ok_0.voting_timeouts[b].contains(d)
            &&& m.propose_project(ctx, d) is Ok ==> m.propose_project(ctx, d)->Ok_0.voting_timeouts[b].contains(d)
            &&& m.propose_carbon_credit_batch(ctx, project_hash, credit_amount, initial_credit_price, d) is Ok
                ==> m.propose_carbon_credit_batch(ctx, project_hash, credit_amount, initial_credit_price, d)->Ok_0
                    .voting_timeouts[b].contains(d)
        }),
{
    lemma_enqueue_holds(m.voting_timeouts, m.voting_timeout_block(ctx), d, 0, d);
}

/// A queued vote stays queued through every call and every block tick but
/// the tick of its own block.
pub proof fn lemma_queued_vote_stays(m: PalletModel, c: Call, b: u64, d: Seq<u8>)
    requires
        m.voting_timeouts.contains_key(b),
        m.voting_timeouts[b].contains(d),
        !(c is BlockTick && c->BlockTick_0 == b),
    ensures
        m.next(c).voting_timeouts.contains_key(b),
        m.next(c).voting_timeouts[b].contains(d),
{
    match c {
        Call::SubmitReport(ctx, e, bal) => {
            lemma_enqueue_holds(m.voting_timeouts, m.voting_timeout_block(ctx), e, b, d);
        },
        Call::ProposeProject(ctx, e) => {
            lemma_enqueue_holds(m.voting_timeouts, m.voting_timeout_block(ctx), e, b, d);
        },
        Call::ProposeBatch(ctx, h, n, p, e) => {
            lemma_enqueue_holds(m.voting_timeouts, m.voting_timeout_block(ctx), e, b, d);
        },
        Call::BlockTick(now, moment) => {
            let m1 = m.update_pallet_base_time(now);
            if m1.voting_timeouts.contains_key(now) {
                let m1b = PalletModel { voting_timeouts: m1.voting_timeouts.remove(now), ..m1 };
                lemma_close_votes_frame(m1b, m1.voting_timeouts[now], moment);
            }
            lemma_check_sale_timeouts_frame(m1.check_voting_timeouts(now, moment), now);
        },
        _ => {},
    }
}

/// The block tick of block `now` closes the vote on every document queued
/// for `now`.
pub proof fn lemma_tick_closes_queued_votes(m: PalletModel, now: u64, moment: u64, d: Seq<u8>)
    requires
        m.voting_timeouts.contains_key(now),
        m.voting_timeouts[now].contains(d),
    ensures
        ({
            let m2 = m.on_initialize(now, moment);
            &&& m.carbon_footprint_reports.contains_key(d) ==> !m2.carbon_footprint_reports[d].voting_active
            &&& m.project_proposals.contains_key(d) ==> !m2.project_proposals[d].voting_active
            &&& m.carbon_credit_batch_proposals.contains_key(d) ==> !m2.carbon_credit_batch_proposals[d].voting_active
        }),
{
    let m1 = m.update_pallet_base_time(now);
    let m1b = PalletModel { voting_timeouts: m1.voting_timeouts.remove(now), ..m1 };
    lemma_close_votes_frame(m1b, m1.voting_timeouts[now], moment);
    lemma_check_sale_timeouts_frame(m1.check_voting_timeouts(now, moment), now);
}

/// Whatever calls and block ticks follow genesis, roles stay exclusive, the
/// vote queues consistent and documentation unique.
pub proof fn lemma_laws_hold_after_any_calls(authorities: Set<AccountId>, block_finalization_time: u32, calls: Seq<Call>)
    ensures
        roles_exclusive(run(genesis(authorities, block_finalization_time), calls)),
        voting_queues_consistent(run(genesis(authorities, block_finalization_time), calls)),
        docs_unique(run(genesis(authorities, block_finalization_time), calls)),
    decreases calls.len(),
{
    if calls.len() == 0 {
        lemma_genesis_laws(authorities, block_finalization_time);
    } else {
        lemma_laws_hold_after_any_calls(authorities, block_finalization_time, calls.drop_last());
        let m = run(genesis(authorities, block_finalization_time), calls.drop_last());
        lemma_roles_stay_exclusive(m, calls.last());
        lemma_docs_stay_unique(m, calls.last());
    }
}

} // verus!
