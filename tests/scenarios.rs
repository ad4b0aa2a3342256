use veles::{
    default_fee_values, generate_hash, CallContext, CarbonCreditBatchStatus, CarbonCreditHoldingsInfo,
    DefaultForPalletFeeValues, DefaultForPalletTimeValues, DefaultForVotePassRatio, Dispatched, DocString,
    Error, Event, FeeType, Hash256, Pallet, Payer, TimeType, Transfer, VoteType, DOC_STRING_LIMIT,
};

const RICH: u128 = 1_000_000;
const BLOCK_TIME: u32 = 6000;
const A: u64 = 10;
const B: u64 = 20;
const V: u64 = 30;
const C: u64 = 40;
const AUTHORITY: u64 = 99;

fn doc(s: &str) -> DocString {
    DocString::truncate_from(s)
}

struct Env {
    pallet: Pallet,
    block: u64,
    nonce: u64,
}

impl Env {
    fn new() -> Env {
        let mut env = Env { pallet: Pallet::new(&vec![AUTHORITY], BLOCK_TIME), block: 0, nonce: 0 };
        env.run_to_block(1);
        env
    }

    fn ctx(&mut self, who: u64, free_balance: u128) -> CallContext {
        self.nonce += 1;
        CallContext { caller: who, free_balance, nonce: self.nonce, block_number: self.block, moment: self.block * 1000 }
    }

    fn run_to_block(&mut self, n: u64) {
        while self.block < n {
            self.block += 1;
            let moment = self.block * 1000;
            self.pallet.on_initialize(self.block, moment);
        }
    }

    fn advance_voting_timeout(&mut self) {
        let end = self.block + self.pallet.time_values().voting_timeout;
        self.run_to_block(end);
    }

    fn vote(&mut self, who: u64, kind: VoteType, d: &str, v: bool) -> Result<Dispatched, Error> {
        let c = self.ctx(who, RICH);
        self.pallet.cast_vote(c, kind, doc(d), v)
    }

    /// B owns an accepted project and a batch of 10 credits at 5; V is a
    /// validator. Returns (project hash, batch hash).
    fn with_batch(&mut self) -> (Hash256, Hash256) {
        let c = self.ctx(V, RICH);
        assert!(self.pallet.register_for_project_validator_account(c, doc("dv")).is_ok());
        let c = self.ctx(B, RICH);
        assert!(self.pallet.register_for_project_owner_account(c, doc("db_owner")).is_ok());
        let c = self.ctx(B, RICH);
        assert!(self.pallet.propose_project(c, doc("dp")).is_ok());
        let project = self.pallet.project_proposal(&doc("dp")).unwrap().project_hash;
        assert!(self.vote(V, VoteType::ProjectProposalVote, "dp", true).is_ok());
        self.advance_voting_timeout();
        let c = self.ctx(B, RICH);
        assert!(self.pallet.propose_carbon_credit_batch(c, project, 10, 5, doc("db")).is_ok());
        let batch = self.pallet.carbon_credit_batch_proposal(&doc("db")).unwrap().batch_hash;
        assert!(self.vote(V, VoteType::CarbonCreditBatchVote, "db", true).is_ok());
        self.advance_voting_timeout();
        (project, batch)
    }

    /// A becomes a footprint account (eligible for credit trades).
    fn a_as_cfa(&mut self) {
        let c = self.ctx(A, RICH);
        assert!(self.pallet.submit_carbon_footprint_report(c, doc("da"), 7).is_ok());
        assert!(self.vote(V, VoteType::CarbonFootprintReportVote, "da", true).is_ok());
        self.advance_voting_timeout();
        assert!(self.pallet.carbon_footprint_account(A).is_some());
    }
}

fn holdings(available_amount: u128, unavailable_amount: u128) -> Option<CarbonCreditHoldingsInfo> {
    Some(CarbonCreditHoldingsInfo { available_amount, unavailable_amount })
}

#[test]
fn registration_uniqueness() {
    let mut env = Env::new();
    let c = env.ctx(A, RICH);
    assert!(env.pallet.register_for_trader_account(c).is_ok());
    let c = env.ctx(A, RICH);
    assert!(matches!(env.pallet.register_for_project_owner_account(c, doc("d1")), Err(Error::AccountIdAlreadyInUse)));
}

#[test]
fn documentation_uniqueness() {
    let mut env = Env::new();
    let c = env.ctx(B, RICH);
    assert!(env.pallet.register_for_project_owner_account(c, doc("d1")).is_ok());
    let c = env.ctx(A, RICH);
    assert!(matches!(
        env.pallet.submit_carbon_footprint_report(c, doc("d1"), 100),
        Err(Error::DocumentationWasUsedPreviously)
    ));
}

#[test]
fn vote_to_cfa() {
    let mut env = Env::new();
    let c = env.ctx(V, RICH);
    assert!(env.pallet.register_for_project_validator_account(c, doc("dv")).is_ok());
    let c = env.ctx(A, RICH);
    assert!(env.pallet.submit_carbon_footprint_report(c, doc("d2"), 100).is_ok());
    assert!(env.vote(V, VoteType::CarbonFootprintReportVote, "d2", true).is_ok());
    env.advance_voting_timeout();
    let account = env.pallet.carbon_footprint_account(A).unwrap();
    assert_eq!(account.carbon_footprint_balance, 100);
    assert_eq!(account.documentation_ipfses.len(), 1);
    assert!(account.documentation_ipfses.contains(&doc("d2")));
    assert!(!env.pallet.carbon_footprint_report(&doc("d2")).unwrap().voting_active);
}

#[test]
fn project_lifecycle() {
    let mut env = Env::new();
    let (project, batch) = env.with_batch();
    assert_eq!(env.pallet.project(project).unwrap().project_owner, B);
    let info = env.pallet.carbon_credit_batch(project, batch).unwrap();
    assert_eq!(info.status, CarbonCreditBatchStatus::Active);
    assert_eq!(info.credit_amount, 10);
    assert_eq!(info.initial_credit_price, 5);
    assert_eq!(env.pallet.carbon_credit_holdings(batch, B), holdings(10, 0));
}

#[test]
fn sale_order_happy_path() {
    let mut env = Env::new();
    let (_, batch) = env.with_batch();
    env.a_as_cfa();
    let c = env.ctx(B, RICH);
    let sale = generate_hash(B, c.nonce, c.moment);
    let r = env.pallet.create_sale_order(c, batch, 5, 4).unwrap();
    assert!(matches!(r.event, Event::CarbonCreditSaleOrderCreated(B, h, 4, 5) if h == batch));
    assert_eq!(env.pallet.carbon_credit_holdings(batch, B), holdings(6, 4));
    let c = env.ctx(A, RICH);
    let r = env.pallet.complete_sale_order(c, sale).unwrap();
    assert_eq!(r.transfer, Some(Transfer { source: Payer::Account(B), dest: A, amount: 20 }));
    assert_eq!(env.pallet.carbon_credit_holdings(batch, B), holdings(6, 0));
    assert_eq!(env.pallet.carbon_credit_holdings(batch, A), holdings(4, 0));
    let order = env.pallet.carbon_credit_sale_order(sale).unwrap();
    assert!(!order.sale_active);
    assert_eq!(order.buyer, A);
}

#[test]
fn sale_timeout() {
    let mut env = Env::new();
    let (_, batch) = env.with_batch();
    let c = env.ctx(B, RICH);
    let sale = generate_hash(B, c.nonce, c.moment);
    assert!(env.pallet.create_sale_order(c, batch, 5, 4).is_ok());
    let expiry = env.pallet.carbon_credit_sale_order(sale).unwrap().sale_timeout;
    assert_eq!(expiry, env.block + env.pallet.time_values().voting_timeout);
    env.run_to_block(expiry - 1);
    assert_eq!(env.pallet.carbon_credit_holdings(batch, B), holdings(6, 4));
    env.run_to_block(expiry);
    assert_eq!(env.pallet.carbon_credit_holdings(batch, B), holdings(10, 0));
    let order = env.pallet.carbon_credit_sale_order(sale).unwrap();
    assert!(!order.sale_active);
    assert_eq!(order.buyer, B);
}

#[test]
fn fee_update_twice_is_refused() {
    let mut env = Env::new();
    assert!(env.pallet.update_fee_value(AUTHORITY, FeeType::VotingFee, 7).is_ok());
    assert!(matches!(env.pallet.update_fee_value(AUTHORITY, FeeType::VotingFee, 7), Err(Error::UpdatingToCurrentValue)));
    assert_eq!(env.pallet.fee_values().voting_fee, 7);
}

#[test]
fn create_then_close_keeps_holdings() {
    let mut env = Env::new();
    let (_, batch) = env.with_batch();
    let c = env.ctx(B, RICH);
    let sale = generate_hash(B, c.nonce, c.moment);
    assert!(env.pallet.create_sale_order(c, batch, 5, 3).is_ok());
    assert!(env.pallet.is_sale_timeout_queued(env.block + env.pallet.time_values().voting_timeout, sale));
    let c = env.ctx(B, RICH);
    let r = env.pallet.close_sale_order(c, sale).unwrap();
    assert!(matches!(r.event, Event::CarbonCreditSaleOrderClosed(B, h) if h == sale));
    assert_eq!(env.pallet.carbon_credit_holdings(batch, B), holdings(10, 0));
    assert!(!env.pallet.is_sale_timeout_queued(env.block + env.pallet.time_values().voting_timeout, sale));
}

#[test]
fn create_then_complete_moves_credit_amount() {
    let mut env = Env::new();
    let (_, batch) = env.with_batch();
    env.a_as_cfa();
    let c = env.ctx(B, RICH);
    let sale = generate_hash(B, c.nonce, c.moment);
    assert!(env.pallet.create_sale_order(c, batch, 1, 10).is_ok());
    let c = env.ctx(A, RICH);
    assert!(env.pallet.complete_sale_order(c, sale).is_ok());
    assert_eq!(env.pallet.carbon_credit_holdings(batch, A), holdings(10, 0));
    // the seller sold everything: its entry is gone
    assert_eq!(env.pallet.carbon_credit_holdings(batch, B), None);
}

#[test]
fn sale_order_errors() {
    let mut env = Env::new();
    let (_, batch) = env.with_batch();
    let unknown = generate_hash(77, 1, 1);
    let c = env.ctx(C, RICH);
    assert!(matches!(
        env.pallet.create_sale_order(c, batch, 1, 1),
        Err(Error::UserIsNotEligibleForCarbonCreditTransactions)
    ));
    let c = env.ctx(B, RICH);
    assert!(matches!(env.pallet.create_sale_order(c, unknown, 1, 1), Err(Error::CarbonCreditBatchDoesNotExist)));
    let c = env.ctx(B, RICH);
    assert!(matches!(env.pallet.create_sale_order(c, batch, 1, 11), Err(Error::NotEnoughtAvailableCredits)));
    let c = env.ctx(V, RICH);
    assert!(matches!(env.pallet.create_sale_order(c, batch, 1, 1), Err(Error::NotEnoughtAvailableCredits)));
    let c = env.ctx(B, RICH);
    assert!(matches!(env.pallet.complete_sale_order(c, unknown), Err(Error::CarbonCreditSaleOrderDoesntExist)));
    let c = env.ctx(B, RICH);
    let sale = generate_hash(B, c.nonce, c.moment);
    assert!(env.pallet.create_sale_order(c, batch, 1000, 2).is_ok());
    let c = env.ctx(B, RICH);
    assert!(matches!(env.pallet.complete_sale_order(c, sale), Err(Error::BuyerCantBuyHisOwnTokens)));
    let c = env.ctx(V, 1999);
    assert!(matches!(env.pallet.complete_sale_order(c, sale), Err(Error::InsufficientFunds)));
    let c = env.ctx(V, RICH);
    assert!(matches!(env.pallet.close_sale_order(c, sale), Err(Error::UserDidntCreateTheSellOrder)));
    let c = env.ctx(B, RICH);
    assert!(env.pallet.close_sale_order(c, sale).is_ok());
    let c = env.ctx(B, RICH);
    assert!(matches!(env.pallet.close_sale_order(c, sale), Err(Error::CarbonCreditSaleOrderIsNotActive)));
}

#[test]
fn settled_order_errors() {
    let mut env = Env::new();
    let (_, batch) = env.with_batch();
    env.a_as_cfa();
    let c = env.ctx(B, RICH);
    let sale = generate_hash(B, c.nonce, c.moment);
    assert!(env.pallet.create_sale_order(c, batch, 1, 2).is_ok());
    let c = env.ctx(A, RICH);
    assert!(env.pallet.complete_sale_order(c, sale).is_ok());
    // the order still exists once settled: the caller checks come first
    let c = env.ctx(B, RICH);
    assert!(matches!(env.pallet.complete_sale_order(c, sale), Err(Error::BuyerCantBuyHisOwnTokens)));
    let c = env.ctx(A, RICH);
    assert!(matches!(env.pallet.close_sale_order(c, sale), Err(Error::UserDidntCreateTheSellOrder)));
    let c = env.ctx(A, RICH);
    assert!(matches!(env.pallet.complete_sale_order(c, sale), Err(Error::CarbonCreditSaleOrderIsNotActive)));
    let c = env.ctx(B, RICH);
    assert!(matches!(env.pallet.close_sale_order(c, sale), Err(Error::CarbonCreditSaleOrderIsNotActive)));
    assert_eq!(env.pallet.carbon_credit_holdings(batch, A), holdings(2, 0));
    assert_eq!(env.pallet.carbon_credit_holdings(batch, B), holdings(8, 0));
}

#[test]
fn traders_cannot_trade_credits() {
    let mut env = Env::new();
    let c = env.ctx(C, RICH);
    assert!(env.pallet.register_for_trader_account(c).is_ok());
    assert!(!env.pallet.is_eligible_for_carbon_credit_transaction(C));
    assert!(!env.pallet.is_eligible_for_cfa(C));
    assert!(!env.pallet.is_account_id_available(C));
}

#[test]
fn active_report_blocks_registration() {
    let mut env = Env::new();
    // a majority of one is needed, so a report without votes fails
    assert!(env.pallet.update_vote_pass_ratio(AUTHORITY, 0, 0).is_ok());
    let c = env.ctx(A, RICH);
    let r = env.pallet.submit_carbon_footprint_report(c, doc("dr"), -5).unwrap();
    assert_eq!(r.transfer, Some(Transfer { source: Payer::PalletAccount, dest: A, amount: 300 }));
    assert!(env.pallet.is_trying_to_register_as_cfa(A));
    let c = env.ctx(A, RICH);
    assert!(matches!(
        env.pallet.register_for_trader_account(c),
        Err(Error::UserIsActiveInCarbonFootprintReportVotingCycle)
    ));
    let c = env.ctx(A, RICH);
    assert!(matches!(
        env.pallet.submit_carbon_footprint_report(c, doc("dr2"), 1),
        Err(Error::CarbonFootprintReportAlreadySubmitted)
    ));
    // no vote: the report fails, and A may register as anything afterwards
    env.advance_voting_timeout();
    assert!(env.pallet.carbon_footprint_account(A).is_none());
    assert!(!env.pallet.is_trying_to_register_as_cfa(A));
    let c = env.ctx(A, RICH);
    assert!(env.pallet.register_for_trader_account(c).is_ok());
}

#[test]
fn second_report_adds_to_account() {
    let mut env = Env::new();
    let c = env.ctx(V, RICH);
    assert!(env.pallet.register_for_project_validator_account(c, doc("dv")).is_ok());
    env.a_as_cfa();
    let created = env.pallet.carbon_footprint_account(A).unwrap().creation_date;
    let c = env.ctx(A, RICH);
    assert!(env.pallet.submit_carbon_footprint_report(c, doc("da2"), -3).is_ok());
    assert!(env.vote(V, VoteType::CarbonFootprintReportVote, "da2", true).is_ok());
    env.advance_voting_timeout();
    let account = env.pallet.carbon_footprint_account(A).unwrap();
    assert_eq!(account.carbon_footprint_balance, 4);
    assert_eq!(account.creation_date, created);
    assert_eq!(account.documentation_ipfses.len(), 2);
    assert!(account.documentation_ipfses.contains(&doc("da2")));
}

#[test]
fn vote_is_closed_exactly_at_timeout() {
    let mut env = Env::new();
    let c = env.ctx(A, RICH);
    let submitted_at = env.block;
    assert!(env.pallet.submit_carbon_footprint_report(c, doc("dq"), 1).is_ok());
    let due = submitted_at + env.pallet.time_values().voting_timeout;
    assert!(env.pallet.is_voting_timeout_queued(due, &doc("dq")));
    env.run_to_block(due - 1);
    assert!(env.pallet.carbon_footprint_report(&doc("dq")).unwrap().voting_active);
    env.run_to_block(due);
    assert!(!env.pallet.carbon_footprint_report(&doc("dq")).unwrap().voting_active);
    assert!(!env.pallet.is_voting_timeout_queued(due, &doc("dq")));
}

#[test]
fn vote_pass_ratio_rules() {
    let mut env = Env::new();
    // default 1/6: at least floor(total / 6) votes for
    assert!(env.pallet.has_vote_passed(12, 2));
    assert!(!env.pallet.has_vote_passed(12, 1));
    assert!(env.pallet.has_vote_passed(0, 0));
    // a zero upper limit: a majority of one
    assert!(env.pallet.update_vote_pass_ratio(AUTHORITY, 5, 0).is_ok());
    assert_eq!(env.pallet.vote_pass_ratio().proportion_part, 0);
    assert!(env.pallet.has_vote_passed(5, 3));
    assert!(!env.pallet.has_vote_passed(4, 2));
    assert!(!env.pallet.has_vote_passed(0, 0));
    // a proportion at or above the upper limit: unanimity
    assert!(env.pallet.update_vote_pass_ratio(AUTHORITY, 9, 4).is_ok());
    assert_eq!(env.pallet.vote_pass_ratio().proportion_part, 4);
    assert!(env.pallet.has_vote_passed(3, 3));
    assert!(!env.pallet.has_vote_passed(3, 2));
    // 3/4 of 10 is 7 (floor)
    assert!(env.pallet.update_vote_pass_ratio(AUTHORITY, 3, 4).is_ok());
    assert!(env.pallet.has_vote_passed(10, 7));
    assert!(!env.pallet.has_vote_passed(10, 6));
    assert!(matches!(env.pallet.update_vote_pass_ratio(A, 1, 2), Err(Error::Unauthorized)));
}

#[test]
fn time_value_errors() {
    let mut env = Env::new();
    assert!(matches!(
        env.pallet.update_time_value(AUTHORITY, TimeType::PalletBaseTime, 5),
        Err(Error::UnableToChangePalletBaseTime)
    ));
    let current = env.pallet.time_values().voting_timeout;
    assert!(matches!(
        env.pallet.update_time_value(AUTHORITY, TimeType::VotingTimeout, current),
        Err(Error::UpdatingToCurrentValue)
    ));
}

#[test]
fn defaults() {
    let fees = DefaultForPalletFeeValues();
    assert_eq!(fees.trader_account_fee, 100);
    assert_eq!(fees.carbon_footprint_report_fee, 300);
    assert_eq!(fees.carbon_credit_batch_fee, 50);
    assert_eq!(fees.get(FeeType::ClaimFee), 100);
    let times = DefaultForPalletTimeValues(6);
    assert_eq!(times.number_of_blocks_per_year, 5_256_000);
    assert_eq!(times.pallet_base_time, 0);
    assert_eq!(times.penalty_timeout, 446_400);
    assert_eq!(times.voting_timeout, 100_800);
    assert_eq!(times.get(TimeType::SalesTimeout), 100_800);
    let ratio = DefaultForVotePassRatio();
    assert_eq!((ratio.proportion_part, ratio.upper_limit_part), (1, 6));
    let pallet = Pallet::new(&vec![AUTHORITY], 6);
    assert!(pallet.is_authority(AUTHORITY));
    assert!(!pallet.is_authority(A));
    let _ = default_fee_values;
}

#[test]
fn generated_hash_is_blake2_of_encoded_triple() {
    let h = generate_hash(1, 2, 3);
    let mut input = Vec::new();
    for x in [1u64, 2, 3] {
        input.extend_from_slice(&x.to_le_bytes());
    }
    let expected = <sp_core::Blake2Hasher as sp_core::Hasher>::hash(&input).0;
    assert_eq!(h.bytes, expected);
    assert_ne!(h.bytes.to_vec(), input[..24].to_vec());
    assert_ne!(generate_hash(1, 2, 4), h);
}

#[test]
fn doc_string_is_bounded() {
    let long = "x".repeat(100);
    assert_eq!(DocString::truncate_from(&long).as_bytes().len(), DOC_STRING_LIMIT);
    assert_eq!(DocString::truncate_from("abc").as_bytes(), b"abc");
}

#[test]
fn failed_calls_change_nothing() {
    let mut env = Env::new();
    let c = env.ctx(A, 99);
    assert!(matches!(env.pallet.register_for_trader_account(c), Err(Error::InsufficientFunds)));
    assert!(!env.pallet.is_trader(A));
    assert!(env.pallet.is_account_id_available(A));
}

#[test]
fn roles_exclude_each_other() {
    let mut env = Env::new();
    let c = env.ctx(V, RICH);
    assert!(env.pallet.register_for_project_validator_account(c, doc("dv")).is_ok());
    let c = env.ctx(V, RICH);
    assert!(matches!(env.pallet.register_for_project_owner_account(c, doc("dv2")), Err(Error::AccountIdAlreadyInUse)));
    let c = env.ctx(V, RICH);
    assert!(matches!(env.pallet.submit_carbon_footprint_report(c, doc("dv3"), 1), Err(Error::AccountIdAlreadyInUse)));
    env.a_as_cfa();
    let c = env.ctx(A, RICH);
    assert!(matches!(env.pallet.register_for_trader_account(c), Err(Error::AccountIdAlreadyInUse)));
    // a footprint account may report again
    let c = env.ctx(A, RICH);
    assert!(env.pallet.submit_carbon_footprint_report(c, doc("da3"), 2).is_ok());
    assert!(env.pallet.is_trader(A) == false && env.pallet.project_owner(A).is_none());
}

#[test]
fn documentation_is_used_once_across_kinds() {
    let mut env = Env::new();
    let c = env.ctx(B, RICH);
    assert!(env.pallet.register_for_project_owner_account(c, doc("dbo")).is_ok());
    let c = env.ctx(A, RICH);
    assert!(env.pallet.submit_carbon_footprint_report(c, doc("shared"), 1).is_ok());
    let c = env.ctx(B, RICH);
    assert!(matches!(env.pallet.propose_project(c, doc("shared")), Err(Error::DocumentationWasUsedPreviously)));
    let c = env.ctx(V, RICH);
    assert!(matches!(
        env.pallet.register_for_project_validator_account(c, doc("dbo")),
        Err(Error::DocumentationWasUsedPreviously)
    ));
    assert!(!env.pallet.is_ipfs_available(&doc("shared")));
    assert!(!env.pallet.is_ipfs_available(&doc("dbo")));
    assert!(env.pallet.is_ipfs_available(&doc("fresh")));
}

fn holder_total(env: &Env, batch: Hash256, who: u64) -> u128 {
    env.pallet
        .carbon_credit_holdings(batch, who)
        .map(|h| h.available_amount + h.unavailable_amount)
        .unwrap_or(0)
}

#[test]
fn batch_credits_add_up_after_trades() {
    let mut env = Env::new();
    let (_, batch) = env.with_batch();
    env.a_as_cfa();
    let c = env.ctx(B, RICH);
    let s1 = generate_hash(B, c.nonce, c.moment);
    assert!(env.pallet.create_sale_order(c, batch, 2, 3).is_ok());
    let c = env.ctx(B, RICH);
    let s2 = generate_hash(B, c.nonce, c.moment);
    assert!(env.pallet.create_sale_order(c, batch, 2, 5).is_ok());
    assert_eq!(holder_total(&env, batch, B) + holder_total(&env, batch, A), 10);
    let c = env.ctx(A, RICH);
    assert!(env.pallet.complete_sale_order(c, s1).is_ok());
    assert_eq!(holder_total(&env, batch, B) + holder_total(&env, batch, A), 10);
    let c = env.ctx(B, RICH);
    assert!(env.pallet.close_sale_order(c, s2).is_ok());
    assert_eq!(holder_total(&env, batch, B), 7);
    assert_eq!(holder_total(&env, batch, A), 3);
}

#[test]
fn reserved_credits_cover_open_orders() {
    let mut env = Env::new();
    let (_, batch) = env.with_batch();
    let c = env.ctx(B, RICH);
    let s1 = generate_hash(B, c.nonce, c.moment);
    assert!(env.pallet.create_sale_order(c, batch, 1, 3).is_ok());
    let c = env.ctx(B, RICH);
    assert!(env.pallet.create_sale_order(c, batch, 1, 4).is_ok());
    assert_eq!(env.pallet.carbon_credit_holdings(batch, B), holdings(3, 7));
    let c = env.ctx(B, RICH);
    assert!(matches!(env.pallet.create_sale_order(c, batch, 1, 4), Err(Error::NotEnoughtAvailableCredits)));
    let c = env.ctx(B, RICH);
    assert!(env.pallet.close_sale_order(c, s1).is_ok());
    assert_eq!(env.pallet.carbon_credit_holdings(batch, B), holdings(6, 4));
}

#[test]
fn payment_saturates_at_the_largest_balance() {
    let mut env = Env::new();
    let (_, batch) = env.with_batch();
    env.a_as_cfa();
    let c = env.ctx(B, RICH);
    let sale = generate_hash(B, c.nonce, c.moment);
    assert!(env.pallet.create_sale_order(c, batch, u128::MAX, 2).is_ok());
    let c = env.ctx(A, u128::MAX - 1);
    assert!(matches!(env.pallet.complete_sale_order(c, sale), Err(Error::InsufficientFunds)));
    let c = env.ctx(A, u128::MAX);
    let r = env.pallet.complete_sale_order(c, sale).unwrap();
    assert_eq!(r.transfer, Some(Transfer { source: Payer::Account(B), dest: A, amount: u128::MAX }));
}

#[test]
fn base_time_moves_on_each_anniversary() {
    let mut env = Env::new();
    assert_eq!(env.pallet.time_values().pallet_base_time, 1);
    assert!(env.pallet.update_time_value(AUTHORITY, TimeType::NumberOfBlocksYearly, 5).is_ok());
    env.run_to_block(6);
    assert_eq!(env.pallet.time_values().pallet_base_time, 6);
    env.run_to_block(10);
    assert_eq!(env.pallet.time_values().pallet_base_time, 6);
    env.run_to_block(11);
    assert_eq!(env.pallet.time_values().pallet_base_time, 11);
}
