//! The marketplace's executable state machine. Every call checks its
//! preconditions in a fixed order and, on success, changes the state exactly
//! as the corresponding function of `PalletModel` says; on failure it changes
//! nothing.

use crate::config::{
    default_fee_values, default_time_values, default_vote_pass_ratio, DefaultForPalletFeeValues,
    DefaultForPalletTimeValues, DefaultForVotePassRatio,
};
use crate::hashing::generate_hash;
use crate::model::{
    dequeue, enqueue, no_holdings, sat_mul, normalized_ratio, sat_add_block, sat_add_i128, vote_passed, PalletModel,
};
use crate::table::{Key, KeyQueue, KeySet, Table};
use crate::types::{
    AccountId, Balance, BlockNumber, CallContext, CarbonCreditBatchInfo,
    CarbonCreditBatchProposalInfo, CarbonCreditBatchStatus, CarbonCreditHoldingsInfo,
    CarbonCreditSaleOrderInfo, CarbonFootprintAccountInfo, CarbonFootprintReportInfo, Dispatched,
    DocString, Error, Event, FeeType, FeeValues, Hash256, Moment, Payer, ProjectInfo,
    ProjectProposalInfo, ProjectValidatorOrProjectOwnerInfo, ProportionStructure, TimeType,
    TimeValues, Transfer, VoteType,
};
use vstd::prelude::*;

verus! {

/// The state of the marketplace.
#[derive(Clone)]
pub struct Pallet {
    authority_accounts: KeySet<AccountId>,
    fee_values: FeeValues,
    time_values: TimeValues,
    vote_pass_ratio: ProportionStructure,
    carbon_footprint_accounts: Table<AccountId, CarbonFootprintAccountInfo>,
    trader_accounts: KeySet<AccountId>,
    project_validators: Table<AccountId, ProjectValidatorOrProjectOwnerInfo>,
    project_owners: Table<AccountId, ProjectValidatorOrProjectOwnerInfo>,
    projects: Table<Hash256, ProjectInfo>,
    carbon_credit_batches: Table<(Hash256, Hash256), CarbonCreditBatchInfo>,
    carbon_credit_holdings: Table<(Hash256, AccountId), CarbonCreditHoldingsInfo>,
    carbon_credit_sale_orders: Table<Hash256, CarbonCreditSaleOrderInfo>,
    voting_timeouts: Table<BlockNumber, KeyQueue<DocString>>,
    sale_order_timeouts: Table<BlockNumber, KeyQueue<Hash256>>,
    carbon_footprint_reports: Table<DocString, CarbonFootprintReportInfo>,
    project_proposals: Table<DocString, ProjectProposalInfo>,
    carbon_credit_batch_proposals: Table<DocString, CarbonCreditBatchProposalInfo>,
}

impl View for Pallet {
    type V = PalletModel;

    closed spec fn view(&self) -> PalletModel {
        PalletModel {
            authority_accounts: self.authority_accounts@,
            fee_values: self.fee_values,
            time_values: self.time_values,
            vote_pass_ratio: self.vote_pass_ratio,
            carbon_footprint_accounts: self.carbon_footprint_accounts@,
            trader_accounts: self.trader_accounts@,
            project_validators: self.project_validators@,
            project_owners: self.project_owners@,
            projects: self.projects@,
            carbon_credit_batches: self.carbon_credit_batches@,
            carbon_credit_holdings: self.carbon_credit_holdings@,
            carbon_credit_sale_orders: self.carbon_credit_sale_orders@,
            voting_timeouts: self.voting_timeouts@,
            sale_order_timeouts: self.sale_order_timeouts@,
            carbon_footprint_reports: self.carbon_footprint_reports@,
            project_proposals: self.project_proposals@,
            carbon_credit_batch_proposals: self.carbon_credit_batch_proposals@,
        }
    }
}

/// The state at genesis: the given authorities, the default configuration
/// and nothing else.
pub open spec fn genesis(authorities: Set<AccountId>, block_finalization_time: u32) -> PalletModel {
    PalletModel {
        authority_accounts: authorities,
        fee_values: default_fee_values(),
        time_values: default_time_values(block_finalization_time),
        vote_pass_ratio: default_vote_pass_ratio(),
        carbon_footprint_accounts: Map::empty(),
        trader_accounts: Set::empty(),
        project_validators: Map::empty(),
        project_owners: Map::empty(),
        projects: Map::empty(),
        carbon_credit_batches: Map::empty(),
        carbon_credit_holdings: Map::empty(),
        carbon_credit_sale_orders: Map::empty(),
        voting_timeouts: Map::empty(),
        sale_order_timeouts: Map::empty(),
        carbon_footprint_reports: Map::empty(),
        project_proposals: Map::empty(),
        carbon_credit_batch_proposals: Map::empty(),
    }
}

/// The fee a successful call sends from the marketplace's account to its caller.
pub open spec fn fee_transfer(ctx: CallContext, fee: Balance) -> Option<Transfer> {
    Some(Transfer { source: Payer::PalletAccount, dest: ctx.caller, amount: fee })
}

impl Pallet {
    /// Well-formedness of every table; every batch is active, as no call
    /// changes a batch's status.
    pub closed spec fn wf(&self) -> bool {
        &&& self.authority_accounts.wf()
        &&& self.carbon_footprint_accounts.wf()
        &&& self.trader_accounts.wf()
        &&& self.project_validators.wf()
        &&& self.project_owners.wf()
        &&& self.projects.wf()
        &&& self.carbon_credit_batches.wf()
        &&& self.carbon_credit_holdings.wf()
        &&& self.carbon_credit_sale_orders.wf()
        &&& self.voting_timeouts.wf()
        &&& self.sale_order_timeouts.wf()
        &&& self.carbon_footprint_reports.wf()
        &&& self.project_proposals.wf()
        &&& self.carbon_credit_batch_proposals.wf()
        &&& forall|k: (Hash256, Hash256)| #[trigger]
            self.carbon_credit_batches@.contains_key(k)
                ==> self.carbon_credit_batches@[k].status == CarbonCreditBatchStatus::Active
    }

    /// A marketplace at genesis, with `authorities` as its authority accounts
    /// and blocks finalized every `block_finalization_time` seconds.
    pub fn new(authorities: &Vec<AccountId>, block_finalization_time: u32) -> (r: Pallet)
        requires
            block_finalization_time > 0,
        ensures
            r.wf(),
            r@ == genesis(authorities@.to_set(), block_finalization_time),
    {
        let mut authority_accounts = KeySet::new();
        let mut i: usize = 0;
        while i < authorities.len()
            invariant
                i <= authorities.len(),
                authority_accounts.wf(),
                authority_accounts@ == authorities@.take(i as int).to_set(),
            decreases authorities.len() - i,
        {
            authority_accounts.insert(authorities[i]);
            proof {
                assert(authorities@.take(i + 1) =~= authorities@.take(i as int).push(authorities@[i as int]));
                authorities@.take(i as int).lemma_push_to_set_commute(authorities@[i as int]);
            }
            i += 1;
        }
        assert(authorities@.take(i as int) =~= authorities@);
        let r = Pallet {
            authority_accounts,
            fee_values: DefaultForPalletFeeValues(),
            time_values: DefaultForPalletTimeValues(block_finalization_time),
            vote_pass_ratio: DefaultForVotePassRatio(),
            carbon_footprint_accounts: Table::new(),
            trader_accounts: KeySet::new(),
            project_validators: Table::new(),
            project_owners: Table::new(),
            projects: Table::new(),
            carbon_credit_batches: Table::new(),
            carbon_credit_holdings: Table::new(),
            carbon_credit_sale_orders: Table::new(),
            voting_timeouts: Table::new(),
            sale_order_timeouts: Table::new(),
            carbon_footprint_reports: Table::new(),
            project_proposals: Table::new(),
            carbon_credit_batch_proposals: Table::new(),
        };
        assert(r@ == genesis(authorities@.to_set(), block_finalization_time));
        r
    }

    // ---- reading the state ----

    pub fn fee_values(&self) -> (r: FeeValues)
        ensures
            r == self@.fee_values,
    {
        self.fee_values
    }

    pub fn time_values(&self) -> (r: TimeValues)
        ensures
            r == self@.time_values,
    {
        self.time_values
    }

    pub fn vote_pass_ratio(&self) -> (r: ProportionStructure)
        ensures
            r == self@.vote_pass_ratio,
    {
        self.vote_pass_ratio
    }

    pub fn is_authority(&self, a: AccountId) -> (r: bool)
        requires
            self.wf(),
        ensures
            r == self@.authority_accounts.contains(a),
    {
        self.authority_accounts.contains(&a)
    }

    pub fn is_trader(&self, a: AccountId) -> (r: bool)
        requires
            self.wf(),
        ensures
            r == self@.trader_accounts.contains(a),
    {
        self.trader_accounts.contains(&a)
    }

    pub fn carbon_footprint_account(&self, a: AccountId) -> (r: Option<&CarbonFootprintAccountInfo>)
        requires
            self.wf(),
        ensures
            match r {
                Some(v) => self@.carbon_footprint_accounts.contains_key(a) && v@ == self@.carbon_footprint_accounts[a] && v.documentation_ipfses.wf(),
                None => !self@.carbon_footprint_accounts.contains_key(a),
            },
    {
        self.carbon_footprint_accounts.get(&a)
    }

    pub fn project_validator(&self, a: AccountId) -> (r: Option<&ProjectValidatorOrProjectOwnerInfo>)
        requires
            self.wf(),
        ensures
            match r {
                Some(v) => self@.project_validators.contains_key(a) && v@ == self@.project_validators[a],
                None => !self@.project_validators.contains_key(a),
            },
    {
        self.project_validators.get(&a)
    }

    pub fn project_owner(&self, a: AccountId) -> (r: Option<&ProjectValidatorOrProjectOwnerInfo>)
        requires
            self.wf(),
        ensures
            match r {
                Some(v) => self@.project_owners.contains_key(a) && v@ == self@.project_owners[a],
                None => !self@.project_owners.contains_key(a),
            },
    {
        self.project_owners.get(&a)
    }

    pub fn project(&self, h: Hash256) -> (r: Option<&ProjectInfo>)
        requires
            self.wf(),
        ensures
            match r {
                Some(v) => self@.projects.contains_key(h) && v@ == self@.projects[h],
                None => !self@.projects.contains_key(h),
            },
    {
        self.projects.get(&h)
    }

    pub fn carbon_credit_batch(&self, project_hash: Hash256, batch_hash: Hash256) -> (r: Option<&CarbonCreditBatchInfo>)
        requires
            self.wf(),
        ensures
            match r {
                Some(v) => self@.carbon_credit_batches.contains_key((project_hash, batch_hash))
                    && v@ == self@.carbon_credit_batches[(project_hash, batch_hash)],
                None => !self@.carbon_credit_batches.contains_key((project_hash, batch_hash)),
            },
    {
        self.carbon_credit_batches.get(&(project_hash, batch_hash))
    }

    pub fn carbon_credit_holdings(&self, batch_hash: Hash256, a: AccountId) -> (r: Option<CarbonCreditHoldingsInfo>)
        requires
            self.wf(),
        ensures
            match r {
                Some(v) => self@.carbon_credit_holdings.contains_key((batch_hash, a))
                    && v == self@.carbon_credit_holdings[(batch_hash, a)],
                None => !self@.carbon_credit_holdings.contains_key((batch_hash, a)),
            },
    {
        match self.carbon_credit_holdings.get(&(batch_hash, a)) {
            Some(v) => Some(*v),
            None => None,
        }
    }

    pub fn carbon_credit_sale_order(&self, sale_hash: Hash256) -> (r: Option<CarbonCreditSaleOrderInfo>)
        requires
            self.wf(),
        ensures
            match r {
                Some(v) => self@.carbon_credit_sale_orders.contains_key(sale_hash)
                    && v == self@.carbon_credit_sale_orders[sale_hash],
                None => !self@.carbon_credit_sale_orders.contains_key(sale_hash),
            },
    {
        match self.carbon_credit_sale_orders.get(&sale_hash) {
            Some(v) => Some(*v),
            None => None,
        }
    }

    pub fn carbon_footprint_report(&self, d: &DocString) -> (r: Option<&CarbonFootprintReportInfo>)
        requires
            self.wf(),
        ensures
            match r {
                Some(v) => self@.carbon_footprint_reports.contains_key(d@)
                    && v@ == self@.carbon_footprint_reports[d@] && v.votes_for.wf() && v.votes_against.wf(),
                None => !self@.carbon_footprint_reports.contains_key(d@),
            },
    {
        self.carbon_footprint_reports.get(d)
    }

    pub fn project_proposal(&self, d: &DocString) -> (r: Option<&ProjectProposalInfo>)
        requires
            self.wf(),
        ensures
            match r {
                Some(v) => self@.project_proposals.contains_key(d@)
                    && v@ == self@.project_proposals[d@] && v.votes_for.wf() && v.votes_against.wf(),
                None => !self@.project_proposals.contains_key(d@),
            },
    {
        self.project_proposals.get(d)
    }

    pub fn carbon_credit_batch_proposal(&self, d: &DocString) -> (r: Option<&CarbonCreditBatchProposalInfo>)
        requires
            self.wf(),
        ensures
            match r {
                Some(v) => self@.carbon_credit_batch_proposals.contains_key(d@)
                    && v@ == self@.carbon_credit_batch_proposals[d@] && v.votes_for.wf() && v.votes_against.wf(),
                None => !self@.carbon_credit_batch_proposals.contains_key(d@),
            },
    {
        self.carbon_credit_batch_proposals.get(d)
    }

    /// Whether the vote on `d` is queued to close at block `b`.
    pub fn is_voting_timeout_queued(&self, b: BlockNumber, d: &DocString) -> (r: bool)
        requires
            self.wf(),
        ensures
            r == (self@.voting_timeouts.contains_key(b) && self@.voting_timeouts[b].contains(d@)),
    {
        match self.voting_timeouts.get(&b) {
            Some(q) => {
                let mut i: usize = 0;
                while i < q.len()
                    invariant
                        i <= q@.len(),
                        self@.voting_timeouts.contains_key(b),
                        q@ == self@.voting_timeouts[b],
                        forall|j: int| 0 <= j < i ==> q@[j] != d@,
                    decreases q@.len() - i,
                {
                    if q.get_at(i).same_key(d) {
                        assert(q@[i as int] == d@);
                        return true;
                    }
                    i += 1;
                }
                false
            },
            None => false,
        }
    }

    /// Whether sale order `s` is queued to expire at block `b`.
    pub fn is_sale_timeout_queued(&self, b: BlockNumber, s: Hash256) -> (r: bool)
        requires
            self.wf(),
        ensures
            r == (self@.sale_order_timeouts.contains_key(b) && self@.sale_order_timeouts[b].contains(s)),
    {
        match self.sale_order_timeouts.get(&b) {
            Some(q) => {
                let mut i: usize = 0;
                while i < q.len()
                    invariant
                        i <= q@.len(),
                        self@.sale_order_timeouts.contains_key(b),
                        q@ == self@.sale_order_timeouts[b],
                        forall|j: int| 0 <= j < i ==> q@[j] != s,
                    decreases q@.len() - i,
                {
                    if q.get_at(i).same_key(&s) {
                        assert(q@[i as int] == s);
                        return true;
                    }
                    i += 1;
                }
                false
            },
            None => false,
        }
    }
}

impl Pallet {
    // ---- eligibility ----

    /// Whether no report, proposal, footprint account, validator or owner
    /// uses the documentation `ipfs`.
    pub fn is_ipfs_available(&self, ipfs: &DocString) -> (r: bool)
        requires
            self.wf(),
        ensures
            r == self@.is_ipfs_available(ipfs@),
    {
        if self.carbon_footprint_reports.contains_key(ipfs) || self.project_proposals.contains_key(ipfs)
            || self.carbon_credit_batch_proposals.contains_key(ipfs) {
            return false;
        }
        let accounts = &self.carbon_footprint_accounts;
        let mut i: usize = 0;
        while i < accounts.len()
            invariant
                accounts.wf(),
                accounts@ == self@.carbon_footprint_accounts,
                !self@.carbon_footprint_reports.contains_key(ipfs@),
                !self@.project_proposals.contains_key(ipfs@),
                !self@.carbon_credit_batch_proposals.contains_key(ipfs@),
                i <= accounts.entries.len(),
                forall|j: int| 0 <= j < i ==> !accounts@[#[trigger] accounts.key_at(j)].documentation_ipfses.contains(ipfs@),
            decreases accounts.entries.len() - i,
        {
            if accounts.value_at(i).documentation_ipfses.contains(ipfs) {
                return false;
            }
            i += 1;
        }
        assert forall|a: AccountId| #[trigger] accounts@.contains_key(a) implies
            !accounts@[a].documentation_ipfses.contains(ipfs@) by {
            let j = choose|j: int| 0 <= j < accounts.entries.len() && accounts.key_at(j) == a;
        }
        let validators = &self.project_validators;
        let mut i: usize = 0;
        while i < validators.len()
            invariant
                validators.wf(),
                validators@ == self@.project_validators,
                !self@.carbon_footprint_reports.contains_key(ipfs@),
                !self@.project_proposals.contains_key(ipfs@),
                !self@.carbon_credit_batch_proposals.contains_key(ipfs@),
                i <= validators.entries.len(),
                forall|j: int| 0 <= j < i ==> validators@[#[trigger] validators.key_at(j)].documentation_ipfs != ipfs@,
            decreases validators.entries.len() - i,
        {
            if validators.value_at(i).documentation_ipfs.same_key(ipfs) {
                return false;
            }
            i += 1;
        }
        assert forall|a: AccountId| #[trigger] validators@.contains_key(a) implies
            validators@[a].documentation_ipfs != ipfs@ by {
            let j = choose|j: int| 0 <= j < validators.entries.len() && validators.key_at(j) == a;
        }
        let owners = &self.project_owners;
        let mut i: usize = 0;
        while i < owners.len()
            invariant
                owners.wf(),
                owners@ == self@.project_owners,
                !self@.carbon_footprint_reports.contains_key(ipfs@),
                !self@.project_proposals.contains_key(ipfs@),
                !self@.carbon_credit_batch_proposals.contains_key(ipfs@),
                i <= owners.entries.len(),
                forall|j: int| 0 <= j < i ==> owners@[#[trigger] owners.key_at(j)].documentation_ipfs != ipfs@,
            decreases owners.entries.len() - i,
        {
            if owners.value_at(i).documentation_ipfs.same_key(ipfs) {
                return false;
            }
            i += 1;
        }
        assert forall|a: AccountId| #[trigger] owners@.contains_key(a) implies
            owners@[a].documentation_ipfs != ipfs@ by {
            let j = choose|j: int| 0 <= j < owners.entries.len() && owners.key_at(j) == a;
        }
        true
    }

    /// Whether `account_id` holds no account of any kind.
    pub fn is_account_id_available(&self, account_id: AccountId) -> (r: bool)
        requires
            self.wf(),
        ensures
            r == self@.is_account_id_available(account_id),
    {
        !(self.carbon_footprint_accounts.contains_key(&account_id) || self.trader_accounts.contains(&account_id)
            || self.project_validators.contains_key(&account_id) || self.project_owners.contains_key(&account_id))
    }

    /// Whether `account_id` may hold a carbon footprint account: it is no
    /// trader, validator or owner.
    pub fn is_eligible_for_cfa(&self, account_id: AccountId) -> (r: bool)
        requires
            self.wf(),
        ensures
            r == self@.is_eligible_for_cfa(account_id),
    {
        !(self.trader_accounts.contains(&account_id) || self.project_validators.contains_key(&account_id)
            || self.project_owners.contains_key(&account_id))
    }

    /// Whether `account_id` may trade credits: it holds a footprint,
    /// validator or owner account (traders may not).
    pub fn is_eligible_for_carbon_credit_transaction(&self, account_id: AccountId) -> (r: bool)
        requires
            self.wf(),
        ensures
            r == self@.is_eligible_for_carbon_credit_transaction(account_id),
    {
        self.carbon_footprint_accounts.contains_key(&account_id) || self.project_validators.contains_key(&account_id)
            || self.project_owners.contains_key(&account_id)
    }

    /// Whether `account_id` has a footprint report whose vote is still open.
    pub fn is_trying_to_register_as_cfa(&self, account_id: AccountId) -> (r: bool)
        requires
            self.wf(),
        ensures
            r == self@.is_trying_to_register_as_cfa(account_id),
    {
        let reports = &self.carbon_footprint_reports;
        let mut i: usize = 0;
        while i < reports.len()
            invariant
                reports.wf(),
                reports@ == self@.carbon_footprint_reports,
                i <= reports.entries.len(),
                forall|j: int| 0 <= j < i ==> {
                    let r = #[trigger] reports@[reports.key_at(j)];
                    !(r.cf_account == account_id && r.voting_active)
                },
            decreases reports.entries.len() - i,
        {
            let report = reports.value_at(i);
            if report.cf_account == account_id && report.voting_active {
                assert(reports@.contains_key(reports.key_at(i as int)));
                return true;
            }
            i += 1;
        }
        assert forall|d: Seq<u8>| #[trigger] reports@.contains_key(d) implies
            !(reports@[d].cf_account == account_id && reports@[d].voting_active) by {
            let j = choose|j: int| 0 <= j < reports.entries.len() && reports.key_at(j) == d;
            assert(reports@[reports.key_at(j)] == reports@[d]);
        }
        false
    }

    /// Whether `votes_for` out of `total_votes` carry a proposal under the
    /// current vote-pass ratio.
    pub fn has_vote_passed(&self, total_votes: u128, votes_for: u128) -> (r: bool)
        requires
            votes_for <= total_votes <= 2 * (u64::MAX as u128),
        ensures
            r == vote_passed(self@.vote_pass_ratio, total_votes as int, votes_for as int),
    {
        let p = self.vote_pass_ratio.proportion_part as u128;
        let u = self.vote_pass_ratio.upper_limit_part as u128;
        let total = total_votes;
        let yes = votes_for;
        if u == 0 {
            yes * 2 >= total + 1
        } else if u == p {
            yes == total
        } else {
            assert(p * total <= 0xffff * 0x1_ffff_ffff_ffff_fffe) by (nonlinear_arith)
                requires p <= 0xffff, total <= 0x1_ffff_ffff_ffff_fffe;
            yes >= (p * total) / u
        }
    }

    // ---- configuration ----

    /// Sets the vote-pass ratio, normalized.
    pub fn update_vote_pass_ratio(&mut self, who: AccountId, new_proportion_part: u16, new_upper_limit_part: u16) -> (r: Result<Dispatched, Error>)
        requires
            old(self).wf(),
        ensures
            final(self).wf(),
            match r {
                Ok(d) => {
                    &&& old(self)@.update_vote_pass_ratio(who, new_proportion_part, new_upper_limit_part) == Ok::<PalletModel, Error>(final(self)@)
                    &&& d.event@ == crate::types::EventModel::VotePassRatioUpdated(
                        normalized_ratio(new_proportion_part, new_upper_limit_part).proportion_part,
                        new_upper_limit_part,
                    )
                    &&& d.transfer is None
                },
                Err(e) => {
                    &&& old(self)@.update_vote_pass_ratio(who, new_proportion_part, new_upper_limit_part) == Err::<PalletModel, Error>(e)
                    &&& final(self)@ == old(self)@
                },
            },
    {
        if !self.authority_accounts.contains(&who) {
            return Err(Error::Unauthorized);
        }
        let mut temp_proportion_part = new_proportion_part;
        if new_upper_limit_part == 0 {
            temp_proportion_part = 0;
        } else if new_proportion_part >= new_upper_limit_part {
            temp_proportion_part = new_upper_limit_part;
        }
        self.vote_pass_ratio = ProportionStructure {
            proportion_part: temp_proportion_part,
            upper_limit_part: new_upper_limit_part,
        };
        Ok(Dispatched {
            event: Event::VotePassRatioUpdated(temp_proportion_part, new_upper_limit_part),
            transfer: None,
        })
    }

    /// Sets one time value; the base time cannot be set this way.
    pub fn update_time_value(&mut self, who: AccountId, time_type: TimeType, new_time_value: BlockNumber) -> (r: Result<Dispatched, Error>)
        requires
            old(self).wf(),
        ensures
            final(self).wf(),
            match r {
                Ok(d) => {
                    &&& old(self)@.update_time_value(who, time_type, new_time_value) == Ok::<PalletModel, Error>(final(self)@)
                    &&& d.event@ == crate::types::EventModel::TimeValueUpdated(time_type, new_time_value)
                    &&& d.transfer is None
                },
                Err(e) => {
                    &&& old(self)@.update_time_value(who, time_type, new_time_value) == Err::<PalletModel, Error>(e)
                    &&& final(self)@ == old(self)@
                },
            },
    {
        if !self.authority_accounts.contains(&who) {
            return Err(Error::Unauthorized);
        }
        if time_type == TimeType::PalletBaseTime {
            return Err(Error::UnableToChangePalletBaseTime);
        }
        if new_time_value == 0 {
            return Err(Error::InvalidTimeoutValue);
        }
        if new_time_value == self.time_values.get(time_type) {
            return Err(Error::UpdatingToCurrentValue);
        }
        let t = self.time_values;
        self.time_values = match time_type {
            TimeType::NumberOfBlocksYearly => TimeValues { number_of_blocks_per_year: new_time_value, ..t },
            TimeType::PenaltyTimeout => TimeValues { penalty_timeout: new_time_value, ..t },
            TimeType::VotingTimeout => TimeValues { voting_timeout: new_time_value, ..t },
            TimeType::SalesTimeout => TimeValues { sales_timeout: new_time_value, ..t },
            TimeType::PalletBaseTime => t,
        };
        Ok(Dispatched { event: Event::TimeValueUpdated(time_type, new_time_value), transfer: None })
    }

    /// Sets one fee.
    pub fn update_fee_value(&mut self, who: AccountId, fee_type: FeeType, new_fee_value: Balance) -> (r: Result<Dispatched, Error>)
        requires
            old(self).wf(),
        ensures
            final(self).wf(),
            match r {
                Ok(d) => {
                    &&& old(self)@.update_fee_value(who, fee_type, new_fee_value) == Ok::<PalletModel, Error>(final(self)@)
                    &&& d.event@ == crate::types::EventModel::FeeValueUpdated(fee_type, new_fee_value)
                    &&& d.transfer is None
                },
                Err(e) => {
                    &&& old(self)@.update_fee_value(who, fee_type, new_fee_value) == Err::<PalletModel, Error>(e)
                    &&& final(self)@ == old(self)@
                },
            },
    {
        if !self.authority_accounts.contains(&who) {
            return Err(Error::Unauthorized);
        }
        if new_fee_value == self.fee_values.get(fee_type) {
            return Err(Error::UpdatingToCurrentValue);
        }
        let f = self.fee_values;
        self.fee_values = match fee_type {
            FeeType::TraderAccountFee => FeeValues { trader_account_fee: new_fee_value, ..f },
            FeeType::ProjectValidatorAccountFee => FeeValues { project_validator_account_fee: new_fee_value, ..f },
            FeeType::ProjectOwnerAccountFee => FeeValues { project_owner_account_fee: new_fee_value, ..f },
            FeeType::CarbonCreditReportFee => FeeValues { carbon_footprint_report_fee: new_fee_value, ..f },
            FeeType::ProjectProposalFee => FeeValues { project_proposal_fee: new_fee_value, ..f },
            FeeType::CarbonCreditBatchFee => FeeValues { carbon_credit_batch_fee: new_fee_value, ..f },
            FeeType::VotingFee => FeeValues { voting_fee: new_fee_value, ..f },
            FeeType::ClaimFee => FeeValues { claim_fee: new_fee_value, ..f },
        };
        Ok(Dispatched { event: Event::FeeValueUpdated(fee_type, new_fee_value), transfer: None })
    }
}

fn saturating_add_block(a: BlockNumber, b: BlockNumber) -> (r: BlockNumber)
    ensures
        r == sat_add_block(a, b),
{
    if a <= u64::MAX - b {
        a + b
    } else {
        u64::MAX
    }
}

impl Pallet {
    // ---- registration ----

    /// The error a registration with documentation `doc` and fee `fee` gives, if any.
    fn registration_check(&self, ctx: CallContext, doc: Option<&DocString>, fee: Balance) -> (r: Option<Error>)
        requires
            self.wf(),
        ensures
            r == self@.registration_error(
                ctx,
                match doc {
                    Some(d) => Some(d@),
                    None => None,
                },
                fee,
            ),
    {
        if !self.is_account_id_available(ctx.caller) {
            return Some(Error::AccountIdAlreadyInUse);
        }
        if self.is_trying_to_register_as_cfa(ctx.caller) {
            return Some(Error::UserIsActiveInCarbonFootprintReportVotingCycle);
        }
        match doc {
            Some(d) => {
                if !self.is_ipfs_available(d) {
                    return Some(Error::DocumentationWasUsedPreviously);
                }
            },
            None => {},
        }
        if fee > ctx.free_balance {
            return Some(Error::InsufficientFunds);
        }
        None
    }

    pub fn register_for_trader_account(&mut self, ctx: CallContext) -> (r: Result<Dispatched, Error>)
        requires
            old(self).wf(),
        ensures
            final(self).wf(),
            match r {
                Ok(d) => {
                    &&& old(self)@.register_for_trader_account(ctx) == Ok::<PalletModel, Error>(final(self)@)
                    &&& d.event@ == crate::types::EventModel::TraderAccountRegistered(ctx.caller)
                    &&& d.transfer == fee_transfer(ctx, old(self)@.fee_values.trader_account_fee)
                },
                Err(e) => {
                    &&& old(self)@.register_for_trader_account(ctx) == Err::<PalletModel, Error>(e)
                    &&& final(self)@ == old(self)@
                },
            },
    {
        let fee = self.fee_values.trader_account_fee;
        match self.registration_check(ctx, None, fee) {
            Some(e) => Err(e),
            None => {
                self.trader_accounts.insert(ctx.caller);
                Ok(Dispatched {
                    event: Event::TraderAccountRegistered(ctx.caller),
                    transfer: Some(Transfer { source: Payer::PalletAccount, dest: ctx.caller, amount: fee }),
                })
            },
        }
    }

    pub fn register_for_project_validator_account(&mut self, ctx: CallContext, documentation_ipfs: DocString) -> (r: Result<Dispatched, Error>)
        requires
            old(self).wf(),
        ensures
            final(self).wf(),
            match r {
                Ok(d) => {
                    &&& old(self)@.register_for_project_validator_account(ctx, documentation_ipfs@) == Ok::<PalletModel, Error>(final(self)@)
                    &&& d.event@ == crate::types::EventModel::ProjectValidatorAccountRegistered(ctx.caller, documentation_ipfs@)
                    &&& d.transfer == fee_transfer(ctx, old(self)@.fee_values.project_validator_account_fee)
                },
                Err(e) => {
                    &&& old(self)@.register_for_project_validator_account(ctx, documentation_ipfs@) == Err::<PalletModel, Error>(e)
                    &&& final(self)@ == old(self)@
                },
            },
    {
        let fee = self.fee_values.project_validator_account_fee;
        match self.registration_check(ctx, Some(&documentation_ipfs), fee) {
            Some(e) => Err(e),
            None => {
                let event_doc = documentation_ipfs.clone_key();
                let info = ProjectValidatorOrProjectOwnerInfo { documentation_ipfs, penalty_level: 0, penalty_timeout: 0 };
                self.project_validators.insert(ctx.caller, info);
                Ok(Dispatched {
                    event: Event::ProjectValidatorAccountRegistered(ctx.caller, event_doc),
                    transfer: Some(Transfer { source: Payer::PalletAccount, dest: ctx.caller, amount: fee }),
                })
            },
        }
    }

    pub fn register_for_project_owner_account(&mut self, ctx: CallContext, documentation_ipfs: DocString) -> (r: Result<Dispatched, Error>)
        requires
            old(self).wf(),
        ensures
            final(self).wf(),
            match r {
                Ok(d) => {
                    &&& old(self)@.register_for_project_owner_account(ctx, documentation_ipfs@) == Ok::<PalletModel, Error>(final(self)@)
                    &&& d.event@ == crate::types::EventModel::ProjectOwnerAccountRegistered(ctx.caller, documentation_ipfs@)
                    &&& d.transfer == fee_transfer(ctx, old(self)@.fee_values.project_owner_account_fee)
                },
                Err(e) => {
                    &&& old(self)@.register_for_project_owner_account(ctx, documentation_ipfs@) == Err::<PalletModel, Error>(e)
                    &&& final(self)@ == old(self)@
                },
            },
    {
        let fee = self.fee_values.project_owner_account_fee;
        match self.registration_check(ctx, Some(&documentation_ipfs), fee) {
            Some(e) => Err(e),
            None => {
                let event_doc = documentation_ipfs.clone_key();
                let info = ProjectValidatorOrProjectOwnerInfo { documentation_ipfs, penalty_level: 0, penalty_timeout: 0 };
                self.project_owners.insert(ctx.caller, info);
                Ok(Dispatched {
                    event: Event::ProjectOwnerAccountRegistered(ctx.caller, event_doc),
                    transfer: Some(Transfer { source: Payer::PalletAccount, dest: ctx.caller, amount: fee }),
                })
            },
        }
    }

    // ---- submissions ----

    /// Queues the vote on `doc` to close at block `block`.
    fn enqueue_voting_timeout(&mut self, block: BlockNumber, doc: DocString)
        requires
            old(self).wf(),
        ensures
            final(self).wf(),
            final(self)@ == (PalletModel { voting_timeouts: enqueue(old(self)@.voting_timeouts, block, doc@), ..old(self)@ }),
    {
        let ghost d = doc@;
        match self.voting_timeouts.remove(&block) {
            Some(q) => {
                let mut q = q;
                q.insert(doc);
                self.voting_timeouts.insert(block, q);
            },
            None => {
                self.voting_timeouts.insert(block, KeyQueue::singleton(doc));
            },
        }
        assert(self.voting_timeouts@ =~= enqueue(old(self)@.voting_timeouts, block, d));
    }

    pub fn submit_carbon_footprint_report(&mut self, ctx: CallContext, ipfs: DocString, carbon_footprint_balance: i128) -> (r: Result<Dispatched, Error>)
        requires
            old(self).wf(),
        ensures
            final(self).wf(),
            match r {
                Ok(d) => {
                    &&& old(self)@.submit_carbon_footprint_report(ctx, ipfs@, carbon_footprint_balance) == Ok::<PalletModel, Error>(final(self)@)
                    &&& d.event@ == crate::types::EventModel::CarbonFootprintReportSubmitted(ctx.caller, ipfs@)
                    &&& d.transfer == fee_transfer(ctx, old(self)@.fee_values.carbon_footprint_report_fee)
                },
                Err(e) => {
                    &&& old(self)@.submit_carbon_footprint_report(ctx, ipfs@, carbon_footprint_balance) == Err::<PalletModel, Error>(e)
                    &&& final(self)@ == old(self)@
                },
            },
    {
        let who = ctx.caller;
        if !self.is_eligible_for_cfa(who) {
            return Err(Error::AccountIdAlreadyInUse);
        }
        if !self.is_ipfs_available(&ipfs) {
            return Err(Error::DocumentationWasUsedPreviously);
        }
        if self.is_trying_to_register_as_cfa(who) {
            return Err(Error::CarbonFootprintReportAlreadySubmitted);
        }
        let fee = self.fee_values.carbon_footprint_report_fee;
        if fee > ctx.free_balance {
            return Err(Error::InsufficientFunds);
        }
        let report = CarbonFootprintReportInfo {
            cf_account: who,
            creation_date: ctx.moment,
            carbon_footprint_balance,
            votes_for: KeySet::new(),
            votes_against: KeySet::new(),
            voting_active: true,
        };
        self.carbon_footprint_reports.insert(ipfs.clone_key(), report);
        let timeout_block = saturating_add_block(ctx.block_number, self.time_values.voting_timeout);
        self.enqueue_voting_timeout(timeout_block, ipfs.clone_key());
        Ok(Dispatched {
            event: Event::CarbonFootprintReportSubmitted(who, ipfs),
            transfer: Some(Transfer { source: Payer::PalletAccount, dest: who, amount: fee }),
        })
    }

    pub fn propose_project(&mut self, ctx: CallContext, ipfs: DocString) -> (r: Result<Dispatched, Error>)
        requires
            old(self).wf(),
        ensures
            final(self).wf(),
            match r {
                Ok(d) => {
                    &&& old(self)@.propose_project(ctx, ipfs@) == Ok::<PalletModel, Error>(final(self)@)
                    &&& d.event@ == crate::types::EventModel::ProjectProposalCreated(ctx.caller, ipfs@)
                    &&& d.transfer == fee_transfer(ctx, old(self)@.fee_values.project_proposal_fee)
                },
                Err(e) => {
                    &&& old(self)@.propose_project(ctx, ipfs@) == Err::<PalletModel, Error>(e)
                    &&& final(self)@ == old(self)@
                },
            },
    {
        let who = ctx.caller;
        if !self.project_owners.contains_key(&who) {
            return Err(Error::Unauthorized);
        }
        if self.project_proposals.contains_key(&ipfs) {
            return Err(Error::ProjectProposalAlreadyExists);
        }
        if !self.is_ipfs_available(&ipfs) {
            return Err(Error::DocumentationWasUsedPreviously);
        }
        let fee = self.fee_values.project_proposal_fee;
        if fee > ctx.free_balance {
            return Err(Error::InsufficientFunds);
        }
        let project_hash = generate_hash(who, ctx.nonce, ctx.moment);
        let proposal = ProjectProposalInfo {
            project_owner: who,
            creation_date: ctx.moment,
            project_hash,
            votes_for: KeySet::new(),
            votes_against: KeySet::new(),
            voting_active: true,
        };
        self.project_proposals.insert(ipfs.clone_key(), proposal);
        let timeout_block = saturating_add_block(ctx.block_number, self.time_values.voting_timeout);
        self.enqueue_voting_timeout(timeout_block, ipfs.clone_key());
        Ok(Dispatched {
            event: Event::ProjectProposalCreated(who, ipfs),
            transfer: Some(Transfer { source: Payer::PalletAccount, dest: who, amount: fee }),
        })
    }

    pub fn propose_carbon_credit_batch(
        &mut self,
        ctx: CallContext,
        project_hash: Hash256,
        credit_amount: Balance,
        initial_credit_price: Balance,
        ipfs: DocString,
    ) -> (r: Result<Dispatched, Error>)
        requires
            old(self).wf(),
        ensures
            final(self).wf(),
            match r {
                Ok(d) => {
                    &&& old(self)@.propose_carbon_credit_batch(ctx, project_hash, credit_amount, initial_credit_price, ipfs@)
                        == Ok::<PalletModel, Error>(final(self)@)
                    &&& d.event@ == crate::types::EventModel::CarbonCreditBatchProposalCreated(ctx.caller, ipfs@)
                    &&& d.transfer == fee_transfer(ctx, old(self)@.fee_values.carbon_credit_batch_fee)
                },
                Err(e) => {
                    &&& old(self)@.propose_carbon_credit_batch(ctx, project_hash, credit_amount, initial_credit_price, ipfs@)
                        == Err::<PalletModel, Error>(e)
                    &&& final(self)@ == old(self)@
                },
            },
    {
        let who = ctx.caller;
        if !self.project_owners.contains_key(&who) {
            return Err(Error::Unauthorized);
        }
        let owns = match self.projects.get(&project_hash) {
            None => {
                return Err(Error::ProjectDoesntExist);
            },
            Some(project) => match self.project_proposals.get(&project.documentation_ipfs) {
                Some(proposal) => proposal.project_owner == who,
                None => false,
            },
        };
        if !owns {
            return Err(Error::Unauthorized);
        }
        if !self.is_ipfs_available(&ipfs) {
            return Err(Error::DocumentationWasUsedPreviously);
        }
        let fee = self.fee_values.carbon_credit_batch_fee;
        if fee > ctx.free_balance {
            return Err(Error::InsufficientFunds);
        }
        let batch_hash = generate_hash(who, ctx.nonce, ctx.moment);
        let proposal = CarbonCreditBatchProposalInfo {
            project_hash,
            batch_hash,
            creation_date: ctx.moment,
            credit_amount,
            initial_credit_price,
            votes_for: KeySet::new(),
            votes_against: KeySet::new(),
            voting_active: true,
        };
        self.carbon_credit_batch_proposals.insert(ipfs.clone_key(), proposal);
        let timeout_block = saturating_add_block(ctx.block_number, self.time_values.voting_timeout);
        self.enqueue_voting_timeout(timeout_block, ipfs.clone_key());
        Ok(Dispatched {
            event: Event::CarbonCreditBatchProposalCreated(who, ipfs),
            transfer: Some(Transfer { source: Payer::PalletAccount, dest: who, amount: fee }),
        })
    }
}

impl Pallet {
    // ---- voting ----

    /// A validator votes for (`vote`) or against the artifact of kind
    /// `vote_type` documented by `ipfs`.
    pub fn cast_vote(&mut self, ctx: CallContext, vote_type: VoteType, ipfs: DocString, vote: bool) -> (r: Result<Dispatched, Error>)
        requires
            old(self).wf(),
        ensures
            final(self).wf(),
            match r {
                Ok(d) => {
                    &&& old(self)@.cast_vote(ctx, vote_type, ipfs@, vote) == Ok::<PalletModel, Error>(final(self)@)
                    &&& d.event@ == crate::types::EventModel::SuccessfulVote(ctx.caller, ipfs@, vote_type, vote)
                    &&& d.transfer == fee_transfer(ctx, old(self)@.fee_values.voting_fee)
                },
                Err(e) => {
                    &&& old(self)@.cast_vote(ctx, vote_type, ipfs@, vote) == Err::<PalletModel, Error>(e)
                    &&& final(self)@ == old(self)@
                },
            },
    {
        let who = ctx.caller;
        if !self.project_validators.contains_key(&who) {
            return Err(Error::Unauthorized);
        }
        let fee = self.fee_values.voting_fee;
        if fee > ctx.free_balance {
            return Err(Error::InsufficientFunds);
        }
        let ghost d = ipfs@;
        match vote_type {
            VoteType::CarbonFootprintReportVote => {
                match self.carbon_footprint_reports.get(&ipfs) {
                    None => {
                        return Err(Error::CarbonFootprintReportNotFound);
                    },
                    Some(report) => {
                        if !report.voting_active {
                            return Err(Error::VotingCycleIsOver);
                        }
                        if report.votes_for.contains(&who) || report.votes_against.contains(&who) {
                            return Err(Error::VoteAlreadySubmitted);
                        }
                    },
                }
                if let Some(report) = self.carbon_footprint_reports.remove(&ipfs) {
                    let mut report = report;
                    if vote {
                        report.votes_for.insert(who);
                    } else {
                        report.votes_against.insert(who);
                    }
                    self.carbon_footprint_reports.insert(ipfs.clone_key(), report);
                }
                assert(self@.carbon_footprint_reports =~= old(self)@.cast_vote(ctx, vote_type, d, vote)->Ok_0.carbon_footprint_reports);
            },
            VoteType::ProjectProposalVote => {
                match self.project_proposals.get(&ipfs) {
                    None => {
                        return Err(Error::ProjectProposalNotFound);
                    },
                    Some(proposal) => {
                        if !proposal.voting_active {
                            return Err(Error::VotingCycleIsOver);
                        }
                        if proposal.votes_for.contains(&who) || proposal.votes_against.contains(&who) {
                            return Err(Error::VoteAlreadySubmitted);
                        }
                    },
                }
                if let Some(proposal) = self.project_proposals.remove(&ipfs) {
                    let mut proposal = proposal;
                    if vote {
                        proposal.votes_for.insert(who);
                    } else {
                        proposal.votes_against.insert(who);
                    }
                    self.project_proposals.insert(ipfs.clone_key(), proposal);
                }
                assert(self@.project_proposals =~= old(self)@.cast_vote(ctx, vote_type, d, vote)->Ok_0.project_proposals);
            },
            VoteType::CarbonCreditBatchVote => {
                match self.carbon_credit_batch_proposals.get(&ipfs) {
                    None => {
                        return Err(Error::CCBProposalNotFound);
                    },
                    Some(proposal) => {
                        if !proposal.voting_active {
                            return Err(Error::VotingCycleIsOver);
                        }
                        if proposal.votes_for.contains(&who) || proposal.votes_against.contains(&who) {
                            return Err(Error::VoteAlreadySubmitted);
                        }
                    },
                }
                if let Some(proposal) = self.carbon_credit_batch_proposals.remove(&ipfs) {
                    let mut proposal = proposal;
                    if vote {
                        proposal.votes_for.insert(who);
                    } else {
                        proposal.votes_against.insert(who);
                    }
                    self.carbon_credit_batch_proposals.insert(ipfs.clone_key(), proposal);
                }
                assert(self@.carbon_credit_batch_proposals
                    =~= old(self)@.cast_vote(ctx, vote_type, d, vote)->Ok_0.carbon_credit_batch_proposals);
            },
        }
        Ok(Dispatched {
            event: Event::SuccessfulVote(who, ipfs, vote_type, vote),
            transfer: Some(Transfer { source: Payer::PalletAccount, dest: who, amount: fee }),
        })
    }
}

fn saturating_add_i128(a: i128, b: i128) -> (r: i128)
    ensures
        r == sat_add_i128(a, b),
{
    if b >= 0 {
        if a <= i128::MAX - b {
            a + b
        } else {
            i128::MAX
        }
    } else {
        if a >= i128::MIN - b {
            a + b
        } else {
            i128::MIN
        }
    }
}

impl Pallet {
    // ---- the block tick ----

    /// The credits `a` holds of batch `h`; none when there is no entry.
    fn holding(&self, h: Hash256, a: AccountId) -> (r: CarbonCreditHoldingsInfo)
        requires
            self.wf(),
        ensures
            r == self@.holding(h, a),
    {
        match self.carbon_credit_holdings.get(&(h, a)) {
            Some(v) => *v,
            None => CarbonCreditHoldingsInfo { available_amount: 0, unavailable_amount: 0 },
        }
    }

    /// Moves the base time to `now` when it is unset or a year of blocks has
    /// passed since it.
    pub fn update_pallet_base_time(&mut self, now: BlockNumber)
        requires
            old(self).wf(),
        ensures
            final(self).wf(),
            final(self)@ == old(self)@.update_pallet_base_time(now),
    {
        let t = self.time_values;
        let anniversary = t.pallet_base_time <= u64::MAX - t.number_of_blocks_per_year
            && now == t.pallet_base_time + t.number_of_blocks_per_year;
        if t.pallet_base_time == 0 || anniversary {
            self.time_values = TimeValues { pallet_base_time: now, ..t };
        }
    }

    /// Counts the votes on an artifact and decides its outcome.
    fn votes_carry(&self, votes_for: &KeySet<AccountId>, votes_against: &KeySet<AccountId>) -> (r: bool)
        requires
            votes_for.wf(),
            votes_against.wf(),
        ensures
            r == vote_passed(
                self@.vote_pass_ratio,
                votes_for@.len() + votes_against@.len() as int,
                votes_for@.len() as int,
            ),
    {
        let yes = votes_for.len() as u128;
        let no = votes_against.len() as u128;
        self.has_vote_passed(yes + no, yes)
    }

    /// Closes the vote on `report`, documented by `ipfs`; if it passed, the
    /// reporter's footprint account takes the report in.
    pub fn update_carbon_footprint_account(&mut self, report: CarbonFootprintReportInfo, ipfs: DocString, moment: Moment)
        requires
            old(self).wf(),
            report.votes_for.wf(),
            report.votes_against.wf(),
        ensures
            final(self).wf(),
            final(self)@ == old(self)@.update_carbon_footprint_account(report@, ipfs@, moment),
    {
        let ghost expected = old(self)@.update_carbon_footprint_account(report@, ipfs@, moment);
        if self.votes_carry(&report.votes_for, &report.votes_against) {
            let a = report.cf_account;
            match self.carbon_footprint_accounts.remove(&a) {
                Some(account) => {
                    let mut docs = account.documentation_ipfses;
                    docs.insert(ipfs.clone_key());
                    let updated = CarbonFootprintAccountInfo {
                        documentation_ipfses: docs,
                        carbon_footprint_balance: saturating_add_i128(
                            account.carbon_footprint_balance,
                            report.carbon_footprint_balance,
                        ),
                        creation_date: account.creation_date,
                    };
                    self.carbon_footprint_accounts.insert(a, updated);
                },
                None => {
                    let mut docs = KeySet::new();
                    docs.insert(ipfs.clone_key());
                    assert(docs@ =~= set![ipfs@]);
                    let created = CarbonFootprintAccountInfo {
                        documentation_ipfses: docs,
                        carbon_footprint_balance: report.carbon_footprint_balance,
                        creation_date: moment,
                    };
                    self.carbon_footprint_accounts.insert(a, created);
                },
            }
            assert(self@.carbon_footprint_accounts =~= expected.carbon_footprint_accounts);
        }
        let closed = CarbonFootprintReportInfo { voting_active: false, ..report };
        self.carbon_footprint_reports.insert(ipfs, closed);
    }

    /// Closes the vote on `proposal`, documented by `ipfs`; if it passed, the
    /// project is created.
    pub fn update_project_proposal(&mut self, proposal: ProjectProposalInfo, ipfs: DocString, moment: Moment)
        requires
            old(self).wf(),
            proposal.votes_for.wf(),
            proposal.votes_against.wf(),
        ensures
            final(self).wf(),
            final(self)@ == old(self)@.update_project_proposal(proposal@, ipfs@, moment),
    {
        if self.votes_carry(&proposal.votes_for, &proposal.votes_against) {
            let project = ProjectInfo {
                documentation_ipfs: ipfs.clone_key(),
                project_owner: proposal.project_owner,
                creation_date: moment,
                penalty_level: 0,
                penalty_timeout: 0,
            };
            self.projects.insert(proposal.project_hash, project);
        }
        let closed = ProjectProposalInfo { voting_active: false, ..proposal };
        self.project_proposals.insert(ipfs, closed);
    }

    /// Closes the vote on `proposal`, documented by `ipfs`; if it passed, the
    /// batch is created and its credits go to the project's owner.
    pub fn update_carbon_credit_batch(&mut self, proposal: CarbonCreditBatchProposalInfo, ipfs: DocString, moment: Moment)
        requires
            old(self).wf(),
            proposal.votes_for.wf(),
            proposal.votes_against.wf(),
        ensures
            final(self).wf(),
            final(self)@ == old(self)@.update_carbon_credit_batch(proposal@, ipfs@, moment),
    {
        if self.votes_carry(&proposal.votes_for, &proposal.votes_against) {
            let batch = CarbonCreditBatchInfo {
                documentation_ipfs: ipfs.clone_key(),
                creation_date: moment,
                credit_amount: proposal.credit_amount,
                initial_credit_price: proposal.initial_credit_price,
                status: CarbonCreditBatchStatus::Active,
            };
            self.carbon_credit_batches.insert((proposal.project_hash, proposal.batch_hash), batch);
            let owner = match self.projects.get(&proposal.project_hash) {
                Some(project) => Some(project.project_owner),
                None => None,
            };
            if let Some(owner) = owner {
                let holdings = CarbonCreditHoldingsInfo { available_amount: proposal.credit_amount, unavailable_amount: 0 };
                self.carbon_credit_holdings.insert((proposal.batch_hash, owner), holdings);
            }
        }
        let closed = CarbonCreditBatchProposalInfo { voting_active: false, ..proposal };
        self.carbon_credit_batch_proposals.insert(ipfs, closed);
    }

    /// Closes the votes on whatever artifacts `ipfs` documents.
    fn close_vote(&mut self, ipfs: &DocString, moment: Moment)
        requires
            old(self).wf(),
        ensures
            final(self).wf(),
            final(self)@ == old(self)@.close_vote(ipfs@, moment),
    {
        let ghost m0 = self@;
        let ghost d = ipfs@;
        let ghost m1 = if m0.carbon_footprint_reports.contains_key(d) {
            m0.update_carbon_footprint_account(m0.carbon_footprint_reports[d], d, moment)
        } else {
            m0
        };
        match self.carbon_footprint_reports.remove(ipfs) {
            Some(report) => {
                self.update_carbon_footprint_account(report, ipfs.clone_key(), moment);
                assert(self@.carbon_footprint_reports =~= m1.carbon_footprint_reports);
            },
            None => {
                assert(self@.carbon_footprint_reports =~= m0.carbon_footprint_reports);
            },
        }
        assert(self@ == m1);
        let ghost m2 = if m1.project_proposals.contains_key(d) {
            m1.update_project_proposal(m1.project_proposals[d], d, moment)
        } else {
            m1
        };
        match self.project_proposals.remove(ipfs) {
            Some(proposal) => {
                self.update_project_proposal(proposal, ipfs.clone_key(), moment);
                assert(self@.project_proposals =~= m2.project_proposals);
            },
            None => {
                assert(self@.project_proposals =~= m1.project_proposals);
            },
        }
        assert(self@ == m2);
        match self.carbon_credit_batch_proposals.remove(ipfs) {
            Some(proposal) => {
                self.update_carbon_credit_batch(proposal, ipfs.clone_key(), moment);
                assert(self@.carbon_credit_batch_proposals =~= m0.close_vote(d, moment).carbon_credit_batch_proposals);
            },
            None => {
                assert(self@.carbon_credit_batch_proposals =~= m2.carbon_credit_batch_proposals);
            },
        }
    }

    /// Closes the votes queued for block `now`, in queue order, and drops the queue.
    pub fn check_voting_timeouts(&mut self, now: BlockNumber, moment: Moment)
        requires
            old(self).wf(),
        ensures
            final(self).wf(),
            final(self)@ == old(self)@.check_voting_timeouts(now, moment),
    {
        let removed = self.voting_timeouts.remove(&now);
        if removed.is_none() {
            assert(self@.voting_timeouts =~= old(self)@.voting_timeouts);
        }
        if let Some(queue) = removed {
            let ghost m1 = self@;
            let mut i: usize = 0;
            while i < queue.len()
                invariant
                    self.wf(),
                    i <= queue@.len(),
                    self@ == m1.close_votes(queue@.take(i as int), moment),
                decreases queue@.len() - i,
            {
                let ghost before = queue@.take(i as int);
                self.close_vote(queue.get_at(i), moment);
                proof {
                    assert(queue@.take(i + 1).drop_last() =~= before);
                    assert(queue@.take(i + 1).last() == queue@[i as int]);
                }
                i += 1;
            }
            assert(queue@.take(queue@.len() as int) =~= queue@);
        }
    }

    /// Sale order `s`, if still open, runs out: its credits return to the seller.
    fn expire_sale(&mut self, s: Hash256)
        requires
            old(self).wf(),
        ensures
            final(self).wf(),
            final(self)@ == old(self)@.expire_sale(s),
    {
        let order = match self.carbon_credit_sale_orders.get(&s) {
            Some(o) => *o,
            None => {
                return;
            },
        };
        if !order.sale_active {
            return;
        }
        let h = self.holding(order.batch_hash, order.seller);
        self.carbon_credit_sale_orders.insert(s, CarbonCreditSaleOrderInfo { sale_active: false, ..order });
        let restored = CarbonCreditHoldingsInfo {
            available_amount: h.available_amount.saturating_add(order.credit_amount),
            unavailable_amount: h.unavailable_amount.saturating_sub(order.credit_amount),
        };
        self.carbon_credit_holdings.insert((order.batch_hash, order.seller), restored);
    }

    /// Expires the open sale orders queued for block `now`, in queue order.
    pub fn check_sale_timeouts(&mut self, now: BlockNumber)
        requires
            old(self).wf(),
        ensures
            final(self).wf(),
            final(self)@ == old(self)@.check_sale_timeouts(now),
    {
        let sales = match self.sale_order_timeouts.get(&now) {
            Some(q) => q.to_vec(),
            None => {
                return;
            },
        };
        let ghost q = old(self)@.sale_order_timeouts[now];
        assert forall|j: int| 0 <= j < sales@.len() implies sales@[j] == q[j] by {
            assert(sales@[j]@ == q[j]);
        }
        assert(sales@ =~= q);
        let mut i: usize = 0;
        while i < sales.len()
            invariant
                self.wf(),
                i <= sales@.len(),
                sales@ == q,
                self@ == old(self)@.expire_sales(q.take(i as int)),
            decreases sales@.len() - i,
        {
            let ghost before = q.take(i as int);
            self.expire_sale(sales[i]);
            proof {
                assert(q.take(i + 1).drop_last() =~= before);
            }
            i += 1;
        }
        assert(q.take(q.len() as int) =~= q);
    }

    /// The block tick at block `now`, time `moment`: base time, then votes
    /// that close, then sale orders that expire.
    pub fn on_initialize(&mut self, now: BlockNumber, moment: Moment)
        requires
            old(self).wf(),
        ensures
            final(self).wf(),
            final(self)@ == old(self)@.on_initialize(now, moment),
    {
        self.update_pallet_base_time(now);
        self.check_voting_timeouts(now, moment);
        self.check_sale_timeouts(now);
    }
}

fn saturating_mul(a: Balance, b: Balance) -> (r: Balance)
    ensures
        r == sat_mul(a, b),
{
    match a.checked_mul(b) {
        Some(v) => v,
        None => u128::MAX,
    }
}

impl Pallet {
    // ---- sale orders ----

    /// A batch whose batch hash is `batch_hash`, of whatever project.
    pub fn get_batch(&self, batch_hash: Hash256) -> (r: Option<&CarbonCreditBatchInfo>)
        requires
            self.wf(),
        ensures
            match r {
                Some(b) => {
                    &&& exists|p: Hash256| #[trigger] self@.carbon_credit_batches.contains_key((p, batch_hash))
                        && self@.carbon_credit_batches[(p, batch_hash)] == b@
                    &&& b.status == CarbonCreditBatchStatus::Active
                },
                None => !self@.batch_exists(batch_hash),
            },
    {
        let batches = &self.carbon_credit_batches;
        let mut i: usize = 0;
        while i < batches.len()
            invariant
                self.wf(),
                batches.wf(),
                batches@ == self@.carbon_credit_batches,
                i <= batches.entries.len(),
                forall|j: int| 0 <= j < i ==> (#[trigger] batches.key_at(j)).1 != batch_hash,
            decreases batches.entries.len() - i,
        {
            let key = batches.key_ref_at(i);
            if key.1.same_key(&batch_hash) {
                let b = batches.value_at(i);
                assert(self@.carbon_credit_batches.contains_key((key.0, batch_hash)));
                return Some(b);
            }
            i += 1;
        }
        assert forall|p: Hash256| !(#[trigger] batches@.contains_key((p, batch_hash))) by {
            if batches@.contains_key((p, batch_hash)) {
                let j = choose|j: int| 0 <= j < batches.entries.len() && batches.key_at(j) == (p, batch_hash);
            }
        }
        None
    }

    /// Queues sale order `s` to expire at block `block`.
    fn enqueue_sale_timeout(&mut self, block: BlockNumber, s: Hash256)
        requires
            old(self).wf(),
        ensures
            final(self).wf(),
            final(self)@ == (PalletModel { sale_order_timeouts: enqueue(old(self)@.sale_order_timeouts, block, s), ..old(self)@ }),
    {
        match self.sale_order_timeouts.remove(&block) {
            Some(q) => {
                let mut q = q;
                q.insert(s);
                self.sale_order_timeouts.insert(block, q);
            },
            None => {
                self.sale_order_timeouts.insert(block, KeyQueue::singleton(s));
            },
        }
        assert(self.sale_order_timeouts@ =~= enqueue(old(self)@.sale_order_timeouts, block, s));
    }

    /// Takes sale order `s` off the queue of block `block`.
    fn dequeue_sale_timeout(&mut self, block: BlockNumber, s: Hash256)
        requires
            old(self).wf(),
        ensures
            final(self).wf(),
            final(self)@ == (PalletModel { sale_order_timeouts: dequeue(old(self)@.sale_order_timeouts, block, s), ..old(self)@ }),
    {
        match self.sale_order_timeouts.remove(&block) {
            Some(q) => {
                let mut q = q;
                q.remove(&s);
                self.sale_order_timeouts.insert(block, q);
            },
            None => {},
        }
        assert(self.sale_order_timeouts@ =~= dequeue(old(self)@.sale_order_timeouts, block, s));
    }

    /// The batch check that sale calls share: the batch exists and is active.
    fn batch_error(&self, batch_hash: Hash256) -> (r: Option<Error>)
        requires
            self.wf(),
        ensures
            r == (if !self@.batch_exists(batch_hash) {
                Some(Error::CarbonCreditBatchDoesNotExist)
            } else if !self@.batch_active(batch_hash) {
                Some(Error::CarbonCreditBatchIsNotActive)
            } else {
                None::<Error>
            }),
    {
        match self.get_batch(batch_hash) {
            None => Some(Error::CarbonCreditBatchDoesNotExist),
            Some(batch) => {
                if batch.status != CarbonCreditBatchStatus::Active {
                    Some(Error::CarbonCreditBatchIsNotActive)
                } else {
                    None
                }
            },
        }
    }

    /// Offers `credit_amount` credits of batch `batch_hash` at `credit_price`
    /// each; the credits are reserved until the order completes, closes or
    /// expires after the voting timeout.
    pub fn create_sale_order(&mut self, ctx: CallContext, batch_hash: Hash256, credit_price: Balance, credit_amount: Balance) -> (r: Result<Dispatched, Error>)
        requires
            old(self).wf(),
        ensures
            final(self).wf(),
            match r {
                Ok(d) => {
                    &&& old(self)@.create_sale_order(ctx, batch_hash, credit_price, credit_amount) == Ok::<PalletModel, Error>(final(self)@)
                    &&& d.event@ == crate::types::EventModel::CarbonCreditSaleOrderCreated(ctx.caller, batch_hash, credit_amount, credit_price)
                    &&& d.transfer is None
                },
                Err(e) => {
                    &&& old(self)@.create_sale_order(ctx, batch_hash, credit_price, credit_amount) == Err::<PalletModel, Error>(e)
                    &&& final(self)@ == old(self)@
                },
            },
    {
        let seller = ctx.caller;
        if !self.is_eligible_for_carbon_credit_transaction(seller) {
            return Err(Error::UserIsNotEligibleForCarbonCreditTransactions);
        }
        if let Some(e) = self.batch_error(batch_hash) {
            return Err(e);
        }
        let holdings = match self.carbon_credit_holdings.get(&(batch_hash, seller)) {
            Some(h) => *h,
            None => {
                return Err(Error::NotEnoughtAvailableCredits);
            },
        };
        if holdings.available_amount < credit_amount {
            return Err(Error::NotEnoughtAvailableCredits);
        }
        let sale_hash = generate_hash(seller, ctx.nonce, ctx.moment);
        let timeout_block = saturating_add_block(ctx.block_number, self.time_values.voting_timeout);
        let order = CarbonCreditSaleOrderInfo {
            batch_hash,
            credit_amount,
            credit_price,
            seller,
            buyer: seller,
            sale_active: true,
            sale_timeout: timeout_block,
        };
        self.carbon_credit_sale_orders.insert(sale_hash, order);
        self.enqueue_sale_timeout(timeout_block, sale_hash);
        let reserved = CarbonCreditHoldingsInfo {
            available_amount: holdings.available_amount - credit_amount,
            unavailable_amount: holdings.unavailable_amount.saturating_add(credit_amount),
        };
        self.carbon_credit_holdings.insert((batch_hash, seller), reserved);
        Ok(Dispatched {
            event: Event::CarbonCreditSaleOrderCreated(seller, batch_hash, credit_amount, credit_price),
            transfer: None,
        })
    }

    /// The sale order `sale_hash`, if there is one, open or settled.
    fn sale_order(&self, sale_hash: Hash256) -> (r: Option<CarbonCreditSaleOrderInfo>)
        requires
            self.wf(),
        ensures
            match r {
                Some(o) => self@.carbon_credit_sale_orders.contains_key(sale_hash)
                    && o == self@.carbon_credit_sale_orders[sale_hash],
                None => !self@.carbon_credit_sale_orders.contains_key(sale_hash),
            },
    {
        match self.carbon_credit_sale_orders.get(&sale_hash) {
            Some(o) => Some(*o),
            None => None,
        }
    }

    /// The caller buys the whole of open sale order `sale_hash`: the price goes
    /// from the seller to the buyer (as the host's transfer), the reserved
    /// credits to the buyer's available ones.
    pub fn complete_sale_order(&mut self, ctx: CallContext, sale_hash: Hash256) -> (r: Result<Dispatched, Error>)
        requires
            old(self).wf(),
        ensures
            final(self).wf(),
            match r {
                Ok(d) => {
                    &&& old(self)@.complete_sale_order(ctx, sale_hash) == Ok::<PalletModel, Error>(final(self)@)
                    &&& d.event@ == crate::types::EventModel::CarbonCreditSaleOrderCompleted(ctx.caller, sale_hash)
                    &&& d.transfer == Some(Transfer {
                        source: Payer::Account(old(self)@.carbon_credit_sale_orders[sale_hash].seller),
                        dest: ctx.caller,
                        amount: old(self)@.sale_payment(sale_hash),
                    })
                },
                Err(e) => {
                    &&& old(self)@.complete_sale_order(ctx, sale_hash) == Err::<PalletModel, Error>(e)
                    &&& final(self)@ == old(self)@
                },
            },
    {
        let buyer = ctx.caller;
        if !self.is_eligible_for_carbon_credit_transaction(buyer) {
            return Err(Error::UserIsNotEligibleForCarbonCreditTransactions);
        }
        let order = match self.sale_order(sale_hash) {
            Some(o) => o,
            None => {
                return Err(Error::CarbonCreditSaleOrderDoesntExist);
            },
        };
        if buyer == order.seller {
            return Err(Error::BuyerCantBuyHisOwnTokens);
        }
        if !order.sale_active {
            return Err(Error::CarbonCreditSaleOrderIsNotActive);
        }
        if let Some(e) = self.batch_error(order.batch_hash) {
            return Err(e);
        }
        let amount_to_pay = saturating_mul(order.credit_amount, order.credit_price);
        if amount_to_pay > ctx.free_balance {
            return Err(Error::InsufficientFunds);
        }
        let ghost m0 = self@;
        self.carbon_credit_sale_orders.insert(
            sale_hash,
            CarbonCreditSaleOrderInfo { buyer, sale_active: false, ..order },
        );
        let seller_holdings = self.holding(order.batch_hash, order.seller);
        let buyer_holdings = self.holding(order.batch_hash, buyer);
        let seller_left = CarbonCreditHoldingsInfo {
            available_amount: seller_holdings.available_amount,
            unavailable_amount: seller_holdings.unavailable_amount.saturating_sub(order.credit_amount),
        };
        if seller_left.available_amount == 0 && seller_left.unavailable_amount == 0 {
            let _ = self.carbon_credit_holdings.remove(&(order.batch_hash, order.seller));
        } else {
            self.carbon_credit_holdings.insert((order.batch_hash, order.seller), seller_left);
        }
        let buyer_now = CarbonCreditHoldingsInfo {
            available_amount: buyer_holdings.available_amount.saturating_add(order.credit_amount),
            unavailable_amount: buyer_holdings.unavailable_amount,
        };
        self.carbon_credit_holdings.insert((order.batch_hash, buyer), buyer_now);
        self.dequeue_sale_timeout(order.sale_timeout, sale_hash);
        assert(self@.carbon_credit_holdings =~= m0.complete_sale_order(ctx, sale_hash)->Ok_0.carbon_credit_holdings);
        Ok(Dispatched {
            event: Event::CarbonCreditSaleOrderCompleted(buyer, sale_hash),
            transfer: Some(Transfer { source: Payer::Account(order.seller), dest: buyer, amount: amount_to_pay }),
        })
    }

    /// The seller withdraws open sale order `sale_hash`; the reserved credits
    /// become available again.
    pub fn close_sale_order(&mut self, ctx: CallContext, sale_hash: Hash256) -> (r: Result<Dispatched, Error>)
        requires
            old(self).wf(),
        ensures
            final(self).wf(),
            match r {
                Ok(d) => {
                    &&& old(self)@.close_sale_order(ctx, sale_hash) == Ok::<PalletModel, Error>(final(self)@)
                    &&& d.event@ == crate::types::EventModel::CarbonCreditSaleOrderClosed(ctx.caller, sale_hash)
                    &&& d.transfer is None
                },
                Err(e) => {
                    &&& old(self)@.close_sale_order(ctx, sale_hash) == Err::<PalletModel, Error>(e)
                    &&& final(self)@ == old(self)@
                },
            },
    {
        let seller = ctx.caller;
        if !self.is_eligible_for_carbon_credit_transaction(seller) {
            return Err(Error::UserIsNotEligibleForCarbonCreditTransactions);
        }
        let order = match self.sale_order(sale_hash) {
            Some(o) => o,
            None => {
                return Err(Error::CarbonCreditSaleOrderDoesntExist);
            },
        };
        if seller != order.seller {
            return Err(Error::UserDidntCreateTheSellOrder);
        }
        if !order.sale_active {
            return Err(Error::CarbonCreditSaleOrderIsNotActive);
        }
        if let Some(e) = self.batch_error(order.batch_hash) {
            return Err(e);
        }
        let h = self.holding(order.batch_hash, seller);
        let restored = CarbonCreditHoldingsInfo {
            available_amount: h.available_amount.saturating_add(order.credit_amount),
            unavailable_amount: h.unavailable_amount.saturating_sub(order.credit_amount),
        };
        self.carbon_credit_holdings.insert((order.batch_hash, seller), restored);
        self.carbon_credit_sale_orders.insert(sale_hash, CarbonCreditSaleOrderInfo { sale_active: false, ..order });
        self.dequeue_sale_timeout(order.sale_timeout, sale_hash);
        Ok(Dispatched { event: Event::CarbonCreditSaleOrderClosed(seller, sale_hash), transfer: None })
    }
}

} // verus!
