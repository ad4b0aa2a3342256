//! The marketplace as a mathematical object: its state, the conditions its
//! calls check, and the state each call or block tick leads to.

use crate::hashing::hash_of;
use crate::table::seq_without;
use crate::types::{
    AccountId, AccountInfoModel, Balance, BlockNumber, CarbonCreditBatchModel,
    CarbonCreditBatchProposalModel, CarbonCreditBatchStatus, CarbonCreditHoldingsInfo,
    CarbonCreditSaleOrderInfo, CarbonFootprintAccountModel, CarbonFootprintReportModel,
    CallContext, Error, FeeType, FeeValues, Hash256, Moment, ProjectModel, ProjectProposalModel,
    ProportionStructure, TimeType, TimeValues, VoteType,
};
use vstd::prelude::*;

verus! {

pub open spec fn sat_add(a: Balance, b: Balance) -> Balance {
    if a + b > u128::MAX { u128::MAX } else { (a + b) as Balance }
}

pub open spec fn sat_sub(a: Balance, b: Balance) -> Balance {
    if a < b { 0 } else { (a - b) as Balance }
}

pub open spec fn sat_mul(a: Balance, b: Balance) -> Balance {
    if a * b > u128::MAX { u128::MAX } else { (a * b) as Balance }
}

pub open spec fn sat_add_i128(a: i128, b: i128) -> i128 {
    if a + b > i128::MAX { i128::MAX } else if a + b < i128::MIN { i128::MIN } else { (a + b) as i128 }
}

pub open spec fn sat_add_block(a: BlockNumber, b: BlockNumber) -> BlockNumber {
    if a + b > u64::MAX { u64::MAX } else { (a + b) as BlockNumber }
}

/// The ratio as stored: a zero upper limit forces a zero proportion, and the
/// proportion is capped at the upper limit.
pub open spec fn normalized_ratio(p: u16, u: u16) -> ProportionStructure {
    if u == 0 {
        ProportionStructure { proportion_part: 0, upper_limit_part: 0 }
    } else if p >= u {
        ProportionStructure { proportion_part: u, upper_limit_part: u }
    } else {
        ProportionStructure { proportion_part: p, upper_limit_part: u }
    }
}

/// Whether `votes_for` out of `total` votes carry a proposal under `ratio`:
/// a majority of one when the upper limit is zero, unanimity when the
/// proportion equals the upper limit, else at least `p * total / u` (floor).
pub open spec fn vote_passed(ratio: ProportionStructure, total: int, votes_for: int) -> bool {
    let p = ratio.proportion_part as int;
    let u = ratio.upper_limit_part as int;
    if u == 0 {
        votes_for >= total - votes_for + 1
    } else if u == p {
        votes_for == total
    } else {
        votes_for >= (p * total) / u
    }
}

/// Adds `x` to the queue of block `b`.
pub open spec fn enqueue<A>(q: Map<BlockNumber, Seq<A>>, b: BlockNumber, x: A) -> Map<BlockNumber, Seq<A>> {
    if q.contains_key(b) {
        q.insert(b, if q[b].contains(x) { q[b] } else { q[b].push(x) })
    } else {
        q.insert(b, seq![x])
    }
}

/// Removes `x` from the queue of block `b`, if there is one.
pub open spec fn dequeue<A>(q: Map<BlockNumber, Seq<A>>, b: BlockNumber, x: A) -> Map<BlockNumber, Seq<A>> {
    if q.contains_key(b) {
        q.insert(b, seq_without(q[b], x))
    } else {
        q
    }
}

pub open spec fn no_holdings() -> CarbonCreditHoldingsInfo {
    CarbonCreditHoldingsInfo { available_amount: 0, unavailable_amount: 0 }
}

/// The state of the marketplace.
pub ghost struct PalletModel {
    pub authority_accounts: Set<AccountId>,
    pub fee_values: FeeValues,
    pub time_values: TimeValues,
    pub vote_pass_ratio: ProportionStructure,
    pub carbon_footprint_accounts: Map<AccountId, CarbonFootprintAccountModel>,
    pub trader_accounts: Set<AccountId>,
    pub project_validators: Map<AccountId, AccountInfoModel>,
    pub project_owners: Map<AccountId, AccountInfoModel>,
    pub projects: Map<Hash256, ProjectModel>,
    /// Keyed by (project hash, batch hash).
    pub carbon_credit_batches: Map<(Hash256, Hash256), CarbonCreditBatchModel>,
    /// Keyed by (batch hash, holder).
    pub carbon_credit_holdings: Map<(Hash256, AccountId), CarbonCreditHoldingsInfo>,
    pub carbon_credit_sale_orders: Map<Hash256, CarbonCreditSaleOrderInfo>,
    pub voting_timeouts: Map<BlockNumber, Seq<Seq<u8>>>,
    pub sale_order_timeouts: Map<BlockNumber, Seq<Hash256>>,
    pub carbon_footprint_reports: Map<Seq<u8>, CarbonFootprintReportModel>,
    pub project_proposals: Map<Seq<u8>, ProjectProposalModel>,
    pub carbon_credit_batch_proposals: Map<Seq<u8>, CarbonCreditBatchProposalModel>,
}

impl PalletModel {
    pub open spec fn is_account_id_available(self, a: AccountId) -> bool {
        &&& !self.carbon_footprint_accounts.contains_key(a)
        &&& !self.trader_accounts.contains(a)
        &&& !self.project_validators.contains_key(a)
        &&& !self.project_owners.contains_key(a)
    }

    pub open spec fn is_eligible_for_cfa(self, a: AccountId) -> bool {
        &&& !self.trader_accounts.contains(a)
        &&& !self.project_validators.contains_key(a)
        &&& !self.project_owners.contains_key(a)
    }

    pub open spec fn is_eligible_for_carbon_credit_transaction(self, a: AccountId) -> bool {
        ||| self.carbon_footprint_accounts.contains_key(a)
        ||| self.project_validators.contains_key(a)
        ||| self.project_owners.contains_key(a)
    }

    /// Whether `a` has a footprint report whose vote is still open.
    pub open spec fn is_trying_to_register_as_cfa(self, a: AccountId) -> bool {
        exists|d: Seq<u8>|
            #[trigger] self.carbon_footprint_reports.contains_key(d)
                && self.carbon_footprint_reports[d].cf_account == a
                && self.carbon_footprint_reports[d].voting_active
    }

    /// Whether no report, proposal, footprint account, validator or owner
    /// uses the documentation `d`.
    pub open spec fn is_ipfs_available(self, d: Seq<u8>) -> bool {
        &&& !self.carbon_footprint_reports.contains_key(d)
        &&& !self.project_proposals.contains_key(d)
        &&& !self.carbon_credit_batch_proposals.contains_key(d)
        &&& forall|a: AccountId| #[trigger]
            self.carbon_footprint_accounts.contains_key(a)
                ==> !self.carbon_footprint_accounts[a].documentation_ipfses.contains(d)
        &&& forall|a: AccountId| #[trigger]
            self.project_validators.contains_key(a) ==> self.project_validators[a].documentation_ipfs != d
        &&& forall|a: AccountId| #[trigger]
            self.project_owners.contains_key(a) ==> self.project_owners[a].documentation_ipfs != d
    }

    /// Whether some batch has the batch hash `h`.
    pub open spec fn batch_exists(self, h: Hash256) -> bool {
        exists|p: Hash256| #[trigger] self.carbon_credit_batches.contains_key((p, h))
    }

    /// Whether some active batch has the batch hash `h`.
    pub open spec fn batch_active(self, h: Hash256) -> bool {
        exists|p: Hash256| #[trigger] self.carbon_credit_batches.contains_key((p, h))
            && self.carbon_credit_batches[(p, h)].status == CarbonCreditBatchStatus::Active
    }

    /// The credits `a` holds of batch `h`; none when there is no entry.
    pub open spec fn holding(self, h: Hash256, a: AccountId) -> CarbonCreditHoldingsInfo {
        if self.carbon_credit_holdings.contains_key((h, a)) {
            self.carbon_credit_holdings[(h, a)]
        } else {
            no_holdings()
        }
    }

    pub open spec fn voting_timeout_block(self, ctx: CallContext) -> BlockNumber {
        sat_add_block(ctx.block_number, self.time_values.voting_timeout)
    }

    // ---- configuration ----

    pub open spec fn update_vote_pass_ratio(self, who: AccountId, p: u16, u: u16) -> Result<PalletModel, Error> {
        if !self.authority_accounts.contains(who) {
            Err(Error::Unauthorized)
        } else {
            Ok(PalletModel { vote_pass_ratio: normalized_ratio(p, u), ..self })
        }
    }

    pub open spec fn update_time_value(self, who: AccountId, t: TimeType, v: BlockNumber) -> Result<PalletModel, Error> {
        if !self.authority_accounts.contains(who) {
            Err(Error::Unauthorized)
        } else if t == TimeType::PalletBaseTime {
            Err(Error::UnableToChangePalletBaseTime)
        } else if v == 0 {
            Err(Error::InvalidTimeoutValue)
        } else if v == self.time_values.spec_get(t) {
            Err(Error::UpdatingToCurrentValue)
        } else {
            Ok(PalletModel { time_values: self.time_values.spec_with(t, v), ..self })
        }
    }

    pub open spec fn update_fee_value(self, who: AccountId, f: FeeType, v: Balance) -> Result<PalletModel, Error> {
        if !self.authority_accounts.contains(who) {
            Err(Error::Unauthorized)
        } else if v == self.fee_values.spec_get(f) {
            Err(Error::UpdatingToCurrentValue)
        } else {
            Ok(PalletModel { fee_values: self.fee_values.spec_with(f, v), ..self })
        }
    }

    // ---- registration ----

    /// The checks every registration makes, with the fee it charges.
    pub open spec fn registration_error(self, ctx: CallContext, doc: Option<Seq<u8>>, fee: Balance) -> Option<Error> {
        if !self.is_account_id_available(ctx.caller) {
            Some(Error::AccountIdAlreadyInUse)
        } else if self.is_trying_to_register_as_cfa(ctx.caller) {
            Some(Error::UserIsActiveInCarbonFootprintReportVotingCycle)
        } else if doc is Some && !self.is_ipfs_available(doc->0) {
            Some(Error::DocumentationWasUsedPreviously)
        } else if fee > ctx.free_balance {
            Some(Error::InsufficientFunds)
        } else {
            None
        }
    }

    pub open spec fn register_for_trader_account(self, ctx: CallContext) -> Result<PalletModel, Error> {
        match self.registration_error(ctx, None, self.fee_values.trader_account_fee) {
            Some(e) => Err(e),
            None => Ok(PalletModel { trader_accounts: self.trader_accounts.insert(ctx.caller), ..self }),
        }
    }

    pub open spec fn register_for_project_validator_account(self, ctx: CallContext, doc: Seq<u8>) -> Result<PalletModel, Error> {
        match self.registration_error(ctx, Some(doc), self.fee_values.project_validator_account_fee) {
            Some(e) => Err(e),
            None => Ok(PalletModel {
                project_validators: self.project_validators.insert(
                    ctx.caller,
                    AccountInfoModel { documentation_ipfs: doc, penalty_level: 0, penalty_timeout: 0 },
                ),
                ..self
            }),
        }
    }

    pub open spec fn register_for_project_owner_account(self, ctx: CallContext, doc: Seq<u8>) -> Result<PalletModel, Error> {
        match self.registration_error(ctx, Some(doc), self.fee_values.project_owner_account_fee) {
            Some(e) => Err(e),
            None => Ok(PalletModel {
                project_owners: self.project_owners.insert(
                    ctx.caller,
                    AccountInfoModel { documentation_ipfs: doc, penalty_level: 0, penalty_timeout: 0 },
                ),
                ..self
            }),
        }
    }

    // ---- submissions ----

    pub open spec fn submit_carbon_footprint_report(self, ctx: CallContext, doc: Seq<u8>, balance: i128) -> Result<PalletModel, Error> {
        if !self.is_eligible_for_cfa(ctx.caller) {
            Err(Error::AccountIdAlreadyInUse)
        } else if !self.is_ipfs_available(doc) {
            Err(Error::DocumentationWasUsedPreviously)
        } else if self.is_trying_to_register_as_cfa(ctx.caller) {
            Err(Error::CarbonFootprintReportAlreadySubmitted)
        } else if self.fee_values.carbon_footprint_report_fee > ctx.free_balance {
            Err(Error::InsufficientFunds)
        } else {
            Ok(PalletModel {
                carbon_footprint_reports: self.carbon_footprint_reports.insert(
                    doc,
                    CarbonFootprintReportModel {
                        cf_account: ctx.caller,
                        creation_date: ctx.moment,
                        carbon_footprint_balance: balance,
                        votes_for: Set::empty(),
                        votes_against: Set::empty(),
                        voting_active: true,
                    },
                ),
                voting_timeouts: enqueue(self.voting_timeouts, self.voting_timeout_block(ctx), doc),
                ..self
            })
        }
    }

    /// The error `propose_project` gives, if any.
    pub open spec fn propose_project_error(self, ctx: CallContext, doc: Seq<u8>) -> Option<Error> {
        if !self.project_owners.contains_key(ctx.caller) {
            Some(Error::Unauthorized)
        } else if self.project_proposals.contains_key(doc) {
            Some(Error::ProjectProposalAlreadyExists)
        } else if !self.is_ipfs_available(doc) {
            Some(Error::DocumentationWasUsedPreviously)
        } else if self.fee_values.project_proposal_fee > ctx.free_balance {
            Some(Error::InsufficientFunds)
        } else {
            None
        }
    }

    /// The state after a successful `propose_project` whose project hash is `h`.
    pub open spec fn propose_project_effect(self, ctx: CallContext, doc: Seq<u8>, h: Hash256) -> PalletModel {
        PalletModel {
            project_proposals: self.project_proposals.insert(
                doc,
                ProjectProposalModel {
                    project_owner: ctx.caller,
                    creation_date: ctx.moment,
                    project_hash: h,
                    votes_for: Set::empty(),
                    votes_against: Set::empty(),
                    voting_active: true,
                },
            ),
            voting_timeouts: enqueue(self.voting_timeouts, self.voting_timeout_block(ctx), doc),
            ..self
        }
    }

    pub open spec fn propose_project(self, ctx: CallContext, doc: Seq<u8>) -> Result<PalletModel, Error> {
        match self.propose_project_error(ctx, doc) {
            Some(e) => Err(e),
            None => Ok(self.propose_project_effect(ctx, doc, hash_of(ctx.caller, ctx.nonce, ctx.moment))),
        }
    }

    /// Whether `who` owns the project `h` through the proposal that created it.
    pub open spec fn owns_project(self, who: AccountId, h: Hash256) -> bool {
        let d = self.projects[h].documentation_ipfs;
        self.project_proposals.contains_key(d) && self.project_proposals[d].project_owner == who
    }

    /// The error `propose_carbon_credit_batch` gives, if any.
    pub open spec fn propose_batch_error(self, ctx: CallContext, project_hash: Hash256, doc: Seq<u8>) -> Option<Error> {
        if !self.project_owners.contains_key(ctx.caller) {
            Some(Error::Unauthorized)
        } else if !self.projects.contains_key(project_hash) {
            Some(Error::ProjectDoesntExist)
        } else if !self.owns_project(ctx.caller, project_hash) {
            Some(Error::Unauthorized)
        } else if !self.is_ipfs_available(doc) {
            Some(Error::DocumentationWasUsedPreviously)
        } else if self.fee_values.carbon_credit_batch_fee > ctx.free_balance {
            Some(Error::InsufficientFunds)
        } else {
            None
        }
    }

    /// The state after a successful `propose_carbon_credit_batch` whose batch
    /// hash is `h`.
    pub open spec fn propose_batch_effect(
        self,
        ctx: CallContext,
        project_hash: Hash256,
        credit_amount: Balance,
        initial_credit_price: Balance,
        doc: Seq<u8>,
        h: Hash256,
    ) -> PalletModel {
        PalletModel {
            carbon_credit_batch_proposals: self.carbon_credit_batch_proposals.insert(
                doc,
                CarbonCreditBatchProposalModel {
                    project_hash,
                    batch_hash: h,
                    creation_date: ctx.moment,
                    credit_amount,
                    initial_credit_price,
                    votes_for: Set::empty(),
                    votes_against: Set::empty(),
                    voting_active: true,
                },
            ),
            voting_timeouts: enqueue(self.voting_timeouts, self.voting_timeout_block(ctx), doc),
            ..self
        }
    }

    pub open spec fn propose_carbon_credit_batch(
        self,
        ctx: CallContext,
        project_hash: Hash256,
        credit_amount: Balance,
        initial_credit_price: Balance,
        doc: Seq<u8>,
    ) -> Result<PalletModel, Error> {
        match self.propose_batch_error(ctx, project_hash, doc) {
            Some(e) => Err(e),
            None => Ok(self.propose_batch_effect(
                ctx,
                project_hash,
                credit_amount,
                initial_credit_price,
                doc,
                hash_of(ctx.caller, ctx.nonce, ctx.moment),
            )),
        }
    }

    // ---- voting ----

    /// The result of `who` casting `vote` on the artifact of kind `kind`
    /// documented by `doc`.
    pub open spec fn cast_vote(self, ctx: CallContext, kind: VoteType, doc: Seq<u8>, vote: bool) -> Result<PalletModel, Error> {
        let who = ctx.caller;
        if !self.project_validators.contains_key(who) {
            Err(Error::Unauthorized)
        } else if self.fee_values.voting_fee > ctx.free_balance {
            Err(Error::InsufficientFunds)
        } else {
            match kind {
                VoteType::CarbonFootprintReportVote => {
                    if !self.carbon_footprint_reports.contains_key(doc) {
                        Err(Error::CarbonFootprintReportNotFound)
                    } else {
                        let r = self.carbon_footprint_reports[doc];
                        if !r.voting_active {
                            Err(Error::VotingCycleIsOver)
                        } else if r.votes_for.contains(who) || r.votes_against.contains(who) {
                            Err(Error::VoteAlreadySubmitted)
                        } else {
                            let r2 = if vote {
                                CarbonFootprintReportModel { votes_for: r.votes_for.insert(who), ..r }
                            } else {
                                CarbonFootprintReportModel { votes_against: r.votes_against.insert(who), ..r }
                            };
                            Ok(PalletModel { carbon_footprint_reports: self.carbon_footprint_reports.insert(doc, r2), ..self })
                        }
                    }
                },
                VoteType::ProjectProposalVote => {
                    if !self.project_proposals.contains_key(doc) {
                        Err(Error::ProjectProposalNotFound)
                    } else {
                        let r = self.project_proposals[doc];
                        if !r.voting_active {
                            Err(Error::VotingCycleIsOver)
                        } else if r.votes_for.contains(who) || r.votes_against.contains(who) {
                            Err(Error::VoteAlreadySubmitted)
                        } else {
                            let r2 = if vote {
                                ProjectProposalModel { votes_for: r.votes_for.insert(who), ..r }
                            } else {
                                ProjectProposalModel { votes_against: r.votes_against.insert(who), ..r }
                            };
                            Ok(PalletModel { project_proposals: self.project_proposals.insert(doc, r2), ..self })
                        }
                    }
                },
                VoteType::CarbonCreditBatchVote => {
                    if !self.carbon_credit_batch_proposals.contains_key(doc) {
                        Err(Error::CCBProposalNotFound)
                    } else {
                        let r = self.carbon_credit_batch_proposals[doc];
                        if !r.voting_active {
                            Err(Error::VotingCycleIsOver)
                        } else if r.votes_for.contains(who) || r.votes_against.contains(who) {
                            Err(Error::VoteAlreadySubmitted)
                        } else {
                            let r2 = if vote {
                                CarbonCreditBatchProposalModel { votes_for: r.votes_for.insert(who), ..r }
                            } else {
                                CarbonCreditBatchProposalModel { votes_against: r.votes_against.insert(who), ..r }
                            };
                            Ok(PalletModel {
                                carbon_credit_batch_proposals: self.carbon_credit_batch_proposals.insert(doc, r2),
                                ..self
                            })
                        }
                    }
                },
            }
        }
    }

    // ---- end of a vote ----

    /// Closes the vote on report `r`, documented by `d`; if it passed, the
    /// reporter's footprint account takes it in (created at `moment` if new).
    pub open spec fn update_carbon_footprint_account(self, r: CarbonFootprintReportModel, d: Seq<u8>, moment: Moment) -> PalletModel {
        let passed = vote_passed(self.vote_pass_ratio, r.votes_for.len() + r.votes_against.len() as int, r.votes_for.len() as int);
        let a = r.cf_account;
        let accounts = if !passed {
            self.carbon_footprint_accounts
        } else if self.carbon_footprint_accounts.contains_key(a) {
            let old = self.carbon_footprint_accounts[a];
            self.carbon_footprint_accounts.insert(a, CarbonFootprintAccountModel {
                documentation_ipfses: old.documentation_ipfses.insert(d),
                carbon_footprint_balance: sat_add_i128(old.carbon_footprint_balance, r.carbon_footprint_balance),
                creation_date: old.creation_date,
            })
        } else {
            self.carbon_footprint_accounts.insert(a, CarbonFootprintAccountModel {
                documentation_ipfses: set![d],
                carbon_footprint_balance: r.carbon_footprint_balance,
                creation_date: moment,
            })
        };
        PalletModel {
            carbon_footprint_accounts: accounts,
            carbon_footprint_reports: self.carbon_footprint_reports.insert(
                d,
                CarbonFootprintReportModel { voting_active: false, ..r },
            ),
            ..self
        }
    }

    /// Closes the vote on project proposal `p`, documented by `d`; if it
    /// passed, the project is created at `moment`.
    pub open spec fn update_project_proposal(self, p: ProjectProposalModel, d: Seq<u8>, moment: Moment) -> PalletModel {
        let passed = vote_passed(self.vote_pass_ratio, p.votes_for.len() + p.votes_against.len() as int, p.votes_for.len() as int);
        PalletModel {
            projects: if passed {
                self.projects.insert(p.project_hash, ProjectModel {
                    documentation_ipfs: d,
                    project_owner: p.project_owner,
                    creation_date: moment,
                    penalty_level: 0,
                    penalty_timeout: 0,
                })
            } else {
                self.projects
            },
            project_proposals: self.project_proposals.insert(d, ProjectProposalModel { voting_active: false, ..p }),
            ..self
        }
    }

    /// Closes the vote on batch proposal `b`, documented by `d`; if it passed,
    /// the batch is created at `moment` and its credits go to the project's owner.
    pub open spec fn update_carbon_credit_batch(self, b: CarbonCreditBatchProposalModel, d: Seq<u8>, moment: Moment) -> PalletModel {
        let passed = vote_passed(self.vote_pass_ratio, b.votes_for.len() + b.votes_against.len() as int, b.votes_for.len() as int);
        let batch = CarbonCreditBatchModel {
            documentation_ipfs: d,
            creation_date: moment,
            credit_amount: b.credit_amount,
            initial_credit_price: b.initial_credit_price,
            status: CarbonCreditBatchStatus::Active,
        };
        let holdings = CarbonCreditHoldingsInfo { available_amount: b.credit_amount, unavailable_amount: 0 };
        PalletModel {
            carbon_credit_batches: if passed {
                self.carbon_credit_batches.insert((b.project_hash, b.batch_hash), batch)
            } else {
                self.carbon_credit_batches
            },
            carbon_credit_holdings: if passed && self.projects.contains_key(b.project_hash) {
                self.carbon_credit_holdings.insert((b.batch_hash, self.projects[b.project_hash].project_owner), holdings)
            } else {
                self.carbon_credit_holdings
            },
            carbon_credit_batch_proposals: self.carbon_credit_batch_proposals.insert(
                d,
                CarbonCreditBatchProposalModel { voting_active: false, ..b },
            ),
            ..self
        }
    }

    /// Closes the vote on whatever artifacts `d` documents.
    pub open spec fn close_vote(self, d: Seq<u8>, moment: Moment) -> PalletModel {
        let m1 = if self.carbon_footprint_reports.contains_key(d) {
            self.update_carbon_footprint_account(self.carbon_footprint_reports[d], d, moment)
        } else {
            self
        };
        let m2 = if m1.project_proposals.contains_key(d) {
            m1.update_project_proposal(m1.project_proposals[d], d, moment)
        } else {
            m1
        };
        if m2.carbon_credit_batch_proposals.contains_key(d) {
            m2.update_carbon_credit_batch(m2.carbon_credit_batch_proposals[d], d, moment)
        } else {
            m2
        }
    }

    /// Closes the votes on `docs`, in order.
    pub open spec fn close_votes(self, docs: Seq<Seq<u8>>, moment: Moment) -> PalletModel
        decreases docs.len(),
    {
        if docs.len() == 0 {
            self
        } else {
            self.close_votes(docs.drop_last(), moment).close_vote(docs.last(), moment)
        }
    }

    /// The block tick's vote step: the votes queued for block `now` close and
    /// the queue is dropped.
    pub open spec fn check_voting_timeouts(self, now: BlockNumber, moment: Moment) -> PalletModel {
        if self.voting_timeouts.contains_key(now) {
            PalletModel { voting_timeouts: self.voting_timeouts.remove(now), ..self }.close_votes(
                self.voting_timeouts[now],
                moment,
            )
        } else {
            self
        }
    }

    // ---- sale orders ----

    /// An open sale order `s` runs out: its credits return to the seller.
    pub open spec fn expire_sale(self, s: Hash256) -> PalletModel {
        if self.carbon_credit_sale_orders.contains_key(s) && self.carbon_credit_sale_orders[s].sale_active {
            let o = self.carbon_credit_sale_orders[s];
            let h = self.holding(o.batch_hash, o.seller);
            PalletModel {
                carbon_credit_sale_orders: self.carbon_credit_sale_orders.insert(
                    s,
                    CarbonCreditSaleOrderInfo { sale_active: false, ..o },
                ),
                carbon_credit_holdings: self.carbon_credit_holdings.insert(
                    (o.batch_hash, o.seller),
                    CarbonCreditHoldingsInfo {
                        available_amount: sat_add(h.available_amount, o.credit_amount),
                        unavailable_amount: sat_sub(h.unavailable_amount, o.credit_amount),
                    },
                ),
                ..self
            }
        } else {
            self
        }
    }

    pub open spec fn expire_sales(self, sales: Seq<Hash256>) -> PalletModel
        decreases sales.len(),
    {
        if sales.len() == 0 {
            self
        } else {
            self.expire_sales(sales.drop_last()).expire_sale(sales.last())
        }
    }

    /// The block tick's sale step: the orders queued for block `now` expire.
    pub open spec fn check_sale_timeouts(self, now: BlockNumber) -> PalletModel {
        if self.sale_order_timeouts.contains_key(now) {
            self.expire_sales(self.sale_order_timeouts[now])
        } else {
            self
        }
    }

    /// The block tick's first step: the base time moves to `now` when unset
    /// or when a year of blocks has passed since it.
    pub open spec fn update_pallet_base_time(self, now: BlockNumber) -> PalletModel {
        let t = self.time_values;
        if t.pallet_base_time == 0 || now == t.pallet_base_time + t.number_of_blocks_per_year {
            PalletModel { time_values: TimeValues { pallet_base_time: now, ..t }, ..self }
        } else {
            self
        }
    }

    /// The whole block tick.
    pub open spec fn on_initialize(self, now: BlockNumber, moment: Moment) -> PalletModel {
        self.update_pallet_base_time(now).check_voting_timeouts(now, moment).check_sale_timeouts(now)
    }

    /// The error `create_sale_order` gives, if any.
    pub open spec fn create_sale_order_error(self, ctx: CallContext, batch_hash: Hash256, credit_amount: Balance) -> Option<Error> {
        let who = ctx.caller;
        if !self.is_eligible_for_carbon_credit_transaction(who) {
            Some(Error::UserIsNotEligibleForCarbonCreditTransactions)
        } else if !self.batch_exists(batch_hash) {
            Some(Error::CarbonCreditBatchDoesNotExist)
        } else if !self.batch_active(batch_hash) {
            Some(Error::CarbonCreditBatchIsNotActive)
        } else if !self.carbon_credit_holdings.contains_key((batch_hash, who))
            || self.carbon_credit_holdings[(batch_hash, who)].available_amount < credit_amount {
            Some(Error::NotEnoughtAvailableCredits)
        } else {
            None
        }
    }

    /// The state after a successful `create_sale_order` whose sale hash is `s`.
    pub open spec fn create_sale_order_effect(
        self,
        ctx: CallContext,
        batch_hash: Hash256,
        credit_price: Balance,
        credit_amount: Balance,
        s: Hash256,
    ) -> PalletModel {
        let who = ctx.caller;
        let t = self.voting_timeout_block(ctx);
        let h = self.carbon_credit_holdings[(batch_hash, who)];
        PalletModel {
            carbon_credit_sale_orders: self.carbon_credit_sale_orders.insert(s, CarbonCreditSaleOrderInfo {
                batch_hash,
                credit_amount,
                credit_price,
                seller: who,
                buyer: who,
                sale_active: true,
                sale_timeout: t,
            }),
            sale_order_timeouts: enqueue(self.sale_order_timeouts, t, s),
            carbon_credit_holdings: self.carbon_credit_holdings.insert(
                (batch_hash, who),
                CarbonCreditHoldingsInfo {
                    available_amount: (h.available_amount - credit_amount) as Balance,
                    unavailable_amount: sat_add(h.unavailable_amount, credit_amount),
                },
            ),
            ..self
        }
    }

    pub open spec fn create_sale_order(
        self,
        ctx: CallContext,
        batch_hash: Hash256,
        credit_price: Balance,
        credit_amount: Balance,
    ) -> Result<PalletModel, Error> {
        match self.create_sale_order_error(ctx, batch_hash, credit_amount) {
            Some(e) => Err(e),
            None => Ok(self.create_sale_order_effect(
                ctx,
                batch_hash,
                credit_price,
                credit_amount,
                hash_of(ctx.caller, ctx.nonce, ctx.moment),
            )),
        }
    }

    /// Whether `s` names a sale order that is still open.
    pub open spec fn is_open_sale(self, s: Hash256) -> bool {
        self.carbon_credit_sale_orders.contains_key(s) && self.carbon_credit_sale_orders[s].sale_active
    }

    /// The price of sale order `s`: its amount times its unit price, saturated.
    pub open spec fn sale_payment(self, s: Hash256) -> Balance {
        let o = self.carbon_credit_sale_orders[s];
        sat_mul(o.credit_amount, o.credit_price)
    }

    pub open spec fn complete_sale_order(self, ctx: CallContext, s: Hash256) -> Result<PalletModel, Error> {
        let who = ctx.caller;
        if !self.is_eligible_for_carbon_credit_transaction(who) {
            Err(Error::UserIsNotEligibleForCarbonCreditTransactions)
        } else if !self.carbon_credit_sale_orders.contains_key(s) {
            Err(Error::CarbonCreditSaleOrderDoesntExist)
        } else {
            let o = self.carbon_credit_sale_orders[s];
            if who == o.seller {
                Err(Error::BuyerCantBuyHisOwnTokens)
            } else if !o.sale_active {
                Err(Error::CarbonCreditSaleOrderIsNotActive)
            } else if !self.batch_exists(o.batch_hash) {
                Err(Error::CarbonCreditBatchDoesNotExist)
            } else if !self.batch_active(o.batch_hash) {
                Err(Error::CarbonCreditBatchIsNotActive)
            } else if self.sale_payment(s) > ctx.free_balance {
                Err(Error::InsufficientFunds)
            } else {
                let sh = self.holding(o.batch_hash, o.seller);
                let seller_left = CarbonCreditHoldingsInfo {
                    available_amount: sh.available_amount,
                    unavailable_amount: sat_sub(sh.unavailable_amount, o.credit_amount),
                };
                let holdings1 = if seller_left == no_holdings() {
                    self.carbon_credit_holdings.remove((o.batch_hash, o.seller))
                } else {
                    self.carbon_credit_holdings.insert((o.batch_hash, o.seller), seller_left)
                };
                let bh = self.holding(o.batch_hash, who);
                let buyer_now = CarbonCreditHoldingsInfo {
                    available_amount: sat_add(bh.available_amount, o.credit_amount),
                    unavailable_amount: bh.unavailable_amount,
                };
                Ok(PalletModel {
                    carbon_credit_sale_orders: self.carbon_credit_sale_orders.insert(
                        s,
                        CarbonCreditSaleOrderInfo { buyer: who, sale_active: false, ..o },
                    ),
                    carbon_credit_holdings: holdings1.insert((o.batch_hash, who), buyer_now),
                    sale_order_timeouts: dequeue(self.sale_order_timeouts, o.sale_timeout, s),
                    ..self
                })
            }
        }
    }

    pub open spec fn close_sale_order(self, ctx: CallContext, s: Hash256) -> Result<PalletModel, Error> {
        let who = ctx.caller;
        if !self.is_eligible_for_carbon_credit_transaction(who) {
            Err(Error::UserIsNotEligibleForCarbonCreditTransactions)
        } else if !self.carbon_credit_sale_orders.contains_key(s) {
            Err(Error::CarbonCreditSaleOrderDoesntExist)
        } else {
            let o = self.carbon_credit_sale_orders[s];
            if who != o.seller {
                Err(Error::UserDidntCreateTheSellOrder)
            } else if !o.sale_active {
                Err(Error::CarbonCreditSaleOrderIsNotActive)
            } else if !self.batch_exists(o.batch_hash) {
                Err(Error::CarbonCreditBatchDoesNotExist)
            } else if !self.batch_active(o.batch_hash) {
                Err(Error::CarbonCreditBatchIsNotActive)
            } else {
                let h = self.holding(o.batch_hash, who);
                Ok(PalletModel {
                    carbon_credit_holdings: self.carbon_credit_holdings.insert(
                        (o.batch_hash, who),
                        CarbonCreditHoldingsInfo {
                            available_amount: sat_add(h.available_amount, o.credit_amount),
                            unavailable_amount: sat_sub(h.unavailable_amount, o.credit_amount),
                        },
                    ),
                    carbon_credit_sale_orders: self.carbon_credit_sale_orders.insert(
                        s,
                        CarbonCreditSaleOrderInfo { sale_active: false, ..o },
                    ),
                    sale_order_timeouts: dequeue(self.sale_order_timeouts, o.sale_timeout, s),
                    ..self
                })
            }
        }
    }
}

/// A call, or the block tick, with its arguments.
pub ghost enum Call {
    UpdateVotePassRatio(AccountId, u16, u16),
    UpdateTimeValue(AccountId, TimeType, BlockNumber),
    UpdateFeeValue(AccountId, FeeType, Balance),
    RegisterTrader(CallContext),
    RegisterValidator(CallContext, Seq<u8>),
    RegisterOwner(CallContext, Seq<u8>),
    SubmitReport(CallContext, Seq<u8>, i128),
    CastVote(CallContext, VoteType, Seq<u8>, bool),
    ProposeProject(CallContext, Seq<u8>),
    ProposeBatch(CallContext, Hash256, Balance, Balance, Seq<u8>),
    CreateSaleOrder(CallContext, Hash256, Balance, Balance),
    CompleteSaleOrder(CallContext, Hash256),
    CloseSaleOrder(CallContext, Hash256),
    BlockTick(BlockNumber, Moment),
}

/// The state after a call that may fail: a failed call changes nothing.
pub open spec fn or_unchanged(m: PalletModel, r: Result<PalletModel, Error>) -> PalletModel {
    match r {
        Ok(m2) => m2,
        Err(_) => m,
    }
}

/// The state after the calls `calls`, in order, from `m`.
pub open spec fn run(m: PalletModel, calls: Seq<Call>) -> PalletModel
    decreases calls.len(),
{
    if calls.len() == 0 {
        m
    } else {
        run(m, calls.drop_last()).next(calls.last())
    }
}

impl PalletModel {
    /// The state after `c`.
    pub open spec fn next(self, c: Call) -> PalletModel {
        match c {
            Call::UpdateVotePassRatio(who, p, u) => or_unchanged(self, self.update_vote_pass_ratio(who, p, u)),
            Call::UpdateTimeValue(who, t, v) => or_unchanged(self, self.update_time_value(who, t, v)),
            Call::UpdateFeeValue(who, f, v) => or_unchanged(self, self.update_fee_value(who, f, v)),
            Call::RegisterTrader(ctx) => or_unchanged(self, self.register_for_trader_account(ctx)),
            Call::RegisterValidator(ctx, d) => or_unchanged(self, self.register_for_project_validator_account(ctx, d)),
            Call::RegisterOwner(ctx, d) => or_unchanged(self, self.register_for_project_owner_account(ctx, d)),
            Call::SubmitReport(ctx, d, b) => or_unchanged(self, self.submit_carbon_footprint_report(ctx, d, b)),
            Call::CastVote(ctx, k, d, v) => or_unchanged(self, self.cast_vote(ctx, k, d, v)),
            Call::ProposeProject(ctx, d) => or_unchanged(self, self.propose_project(ctx, d)),
            Call::ProposeBatch(ctx, h, n, p, d) => or_unchanged(self, self.propose_carbon_credit_batch(ctx, h, n, p, d)),
            Call::CreateSaleOrder(ctx, h, p, n) => or_unchanged(self, self.create_sale_order(ctx, h, p, n)),
            Call::CompleteSaleOrder(ctx, s) => or_unchanged(self, self.complete_sale_order(ctx, s)),
            Call::CloseSaleOrder(ctx, s) => or_unchanged(self, self.close_sale_order(ctx, s)),
            Call::BlockTick(now, moment) => self.on_initialize(now, moment),
        }
    }
}

} // verus!
