use veles::{generate_hash, CallContext, Dispatched, DocString, Error, FeeType, Hash256, Pallet, TimeType, VoteType};

const RICH: u128 = 1_000_000;
const POOR: u128 = 0;
const BLOCK_TIME: u32 = 6000;

fn alice() -> u64 {
    1
}

fn bob() -> u64 {
    2
}

fn charlie() -> u64 {
    3
}

fn authority() -> u64 {
    99
}

fn doc(s: &str) -> DocString {
    DocString::truncate_from(s)
}

/// A marketplace together with the host's block height and nonces.
struct Env {
    pallet: Pallet,
    block: u64,
    nonce: u64,
}

impl Env {
    fn ctx(&mut self, who: u64, free_balance: u128) -> CallContext {
        self.nonce += 1;
        CallContext {
            caller: who,
            free_balance,
            nonce: self.nonce,
            block_number: self.block,
            moment: self.block * 1000,
        }
    }

    fn run_to_block(&mut self, n: u64) {
        while self.block < n {
            self.block += 1;
            let moment = self.block * 1000;
            self.pallet.on_initialize(self.block, moment);
        }
    }

    fn voting_timeout(&self) -> u64 {
        self.pallet.time_values().voting_timeout
    }

    fn register_validator(&mut self, who: u64, d: &str) {
        let c = self.ctx(who, RICH);
        assert!(self.pallet.register_for_project_validator_account(c, doc(d)).is_ok());
    }

    fn register_owner(&mut self, who: u64, d: &str) {
        let c = self.ctx(who, RICH);
        assert!(self.pallet.register_for_project_owner_account(c, doc(d)).is_ok());
    }

    fn vote(&mut self, who: u64, kind: VoteType, d: &str, v: bool) -> Result<Dispatched, Error> {
        let c = self.ctx(who, RICH);
        self.pallet.cast_vote(c, kind, doc(d), v)
    }

    /// `owner` proposes a project documented by `d`, `validator` votes for
    /// it, and the vote closes; returns the project's hash.
    fn accepted_project(&mut self, owner: u64, validator: u64, d: &str) -> Hash256 {
        let c = self.ctx(owner, RICH);
        assert!(self.pallet.propose_project(c, doc(d)).is_ok());
        let hash = self.pallet.project_proposal(&doc(d)).unwrap().project_hash;
        assert!(self.vote(validator, VoteType::ProjectProposalVote, d, true).is_ok());
        let end = self.block + self.voting_timeout();
        self.run_to_block(end);
        hash
    }
}

fn new_test_ext() -> Env {
    Env { pallet: Pallet::new(&vec![authority()], BLOCK_TIME), block: 0, nonce: 0 }
}

fn new_test_ext_with_authority(a: u64) -> Env {
    Env { pallet: Pallet::new(&vec![a], BLOCK_TIME), block: 0, nonce: 0 }
}

#[test]
fn update_base_pallet_time_zero_ok() {
    let mut env = new_test_ext();
    assert_eq!(env.pallet.time_values().pallet_base_time, 0);
    env.run_to_block(1);
    assert_eq!(env.pallet.time_values().pallet_base_time, 1);
    env.run_to_block(10);
    assert_eq!(env.pallet.time_values().pallet_base_time, 1);
}

#[test]
fn update_base_pallet_time_new_year_ok() {
    let mut env = new_test_ext_with_authority(alice());
    assert_eq!(env.pallet.time_values().pallet_base_time, 0);
    env.run_to_block(1);
    assert_eq!(env.pallet.time_values().pallet_base_time, 1);
    assert!(env.pallet.update_time_value(alice(), TimeType::NumberOfBlocksYearly, 100).is_ok());
    env.run_to_block(110);
    assert_eq!(env.pallet.time_values().pallet_base_time, 101);
}

#[test]
fn change_timeout_time_unauthorized() {
    let mut env = new_test_ext();
    env.run_to_block(1);
    assert!(matches!(
        env.pallet.update_time_value(alice(), TimeType::PenaltyTimeout, 0),
        Err(Error::Unauthorized)
    ));
}

#[test]
fn change_timeout_time_invalid_timeout_value() {
    let mut env = new_test_ext_with_authority(alice());
    env.run_to_block(1);
    assert!(matches!(
        env.pallet.update_time_value(alice(), TimeType::PenaltyTimeout, 0),
        Err(Error::InvalidTimeoutValue)
    ));
}

#[test]
fn change_timeout_time_ok_penalty() {
    let mut env = new_test_ext_with_authority(alice());
    env.run_to_block(1);
    assert!(env.pallet.update_time_value(alice(), TimeType::PenaltyTimeout, 1).is_ok());
    assert_eq!(env.pallet.time_values().penalty_timeout, 1);
}

#[test]
fn change_timeout_time_ok_voting() {
    let mut env = new_test_ext_with_authority(alice());
    env.run_to_block(1);
    assert!(env.pallet.update_time_value(alice(), TimeType::VotingTimeout, 1).is_ok());
    assert_eq!(env.pallet.time_values().voting_timeout, 1);
}

#[test]
fn change_timeout_time_ok_sales() {
    let mut env = new_test_ext_with_authority(alice());
    env.run_to_block(1);
    assert!(env.pallet.update_time_value(alice(), TimeType::SalesTimeout, 1).is_ok());
    assert_eq!(env.pallet.time_values().sales_timeout, 1);
}

#[test]
fn change_fee_amount_unauthorized() {
    let mut env = new_test_ext();
    env.run_to_block(1);
    assert!(matches!(
        env.pallet.update_fee_value(alice(), FeeType::TraderAccountFee, 0),
        Err(Error::Unauthorized)
    ));
}

#[test]
fn change_fee_amount_ok_trader_account_fee() {
    let mut env = new_test_ext_with_authority(alice());
    env.run_to_block(1);
    assert!(env.pallet.update_fee_value(alice(), FeeType::TraderAccountFee, 0).is_ok());
    assert_eq!(env.pallet.fee_values().trader_account_fee, 0);
}

#[test]
fn change_fee_amount_ok_project_validator_account_fee() {
    let mut env = new_test_ext_with_authority(alice());
    env.run_to_block(1);
    assert!(env.pallet.update_fee_value(alice(), FeeType::ProjectValidatorAccountFee, 0).is_ok());
    assert_eq!(env.pallet.fee_values().project_validator_account_fee, 0);
}

#[test]
fn change_fee_amount_ok_project_owner_account_fee_fee() {
    let mut env = new_test_ext_with_authority(alice());
    env.run_to_block(1);
    assert!(env.pallet.update_fee_value(alice(), FeeType::ProjectOwnerAccountFee, 0).is_ok());
    assert_eq!(env.pallet.fee_values().project_owner_account_fee, 0);
}

#[test]
fn register_for_trader_account_account_id_already_in_use() {
    let mut env = new_test_ext();
    env.run_to_block(1);
    let c = env.ctx(alice(), RICH);
    assert!(env.pallet.register_for_trader_account(c).is_ok());
    let c = env.ctx(alice(), RICH);
    assert!(matches!(env.pallet.register_for_trader_account(c), Err(Error::AccountIdAlreadyInUse)));
}

#[test]
fn register_for_trader_account_insufficient_funds() {
    let mut env = new_test_ext();
    env.run_to_block(1);
    let c = env.ctx(alice(), POOR);
    assert!(matches!(env.pallet.register_for_trader_account(c), Err(Error::InsufficientFunds)));
}

#[test]
fn register_for_trader_account_ok() {
    let mut env = new_test_ext();
    env.run_to_block(1);
    let c = env.ctx(bob(), RICH);
    assert!(env.pallet.register_for_trader_account(c).is_ok());
}

#[test]
fn register_for_project_validator_account_id_already_in_use() {
    let mut env = new_test_ext();
    env.run_to_block(1);
    env.register_validator(alice(), "ipfs_pvalidator_documentation");
    let c = env.ctx(alice(), RICH);
    assert!(matches!(
        env.pallet.register_for_project_validator_account(c, doc("ipfs_pvalidator_documentation")),
        Err(Error::AccountIdAlreadyInUse)
    ));
}

#[test]
fn register_for_project_validator_account_documentation_was_used_previously() {
    let mut env = new_test_ext();
    env.run_to_block(1);
    env.register_validator(alice(), "ipfs_pvalidator_documentation");
    let c = env.ctx(bob(), RICH);
    assert!(matches!(
        env.pallet.register_for_project_validator_account(c, doc("ipfs_pvalidator_documentation")),
        Err(Error::DocumentationWasUsedPreviously)
    ));
}

#[test]
fn register_for_project_validator_account_insufficient_funds() {
    let mut env = new_test_ext();
    env.run_to_block(1);
    let c = env.ctx(alice(), POOR);
    assert!(matches!(
        env.pallet.register_for_project_validator_account(c, doc("ipfs_pvalidator_documentation")),
        Err(Error::InsufficientFunds)
    ));
}

#[test]
fn register_for_project_owner_account_insufficient_funds() {
    let mut env = new_test_ext();
    env.run_to_block(1);
    let c = env.ctx(alice(), POOR);
    assert!(matches!(
        env.pallet.register_for_project_owner_account(c, doc("ipfs_powner_documentation")),
        Err(Error::InsufficientFunds)
    ));
}

#[test]
fn register_for_project_validator_account_ok() {
    let mut env = new_test_ext();
    env.run_to_block(1);
    let c = env.ctx(bob(), RICH);
    assert!(env.pallet.register_for_project_validator_account(c, doc("ipfs_pvalidator_documentation")).is_ok());
}

#[test]
fn register_for_project_owner_account_account_id_already_in_use() {
    let mut env = new_test_ext();
    env.run_to_block(1);
    env.register_owner(alice(), "ipfs_powner_documentation");
    let c = env.ctx(alice(), RICH);
    assert!(matches!(
        env.pallet.register_for_project_owner_account(c, doc("ipfs_powner_documentation")),
        Err(Error::AccountIdAlreadyInUse)
    ));
}

#[test]
fn register_for_project_owner_account_documentation_was_used_previously() {
    let mut env = new_test_ext();
    env.run_to_block(1);
    env.register_owner(alice(), "ipfs_powner_documentation");
    let c = env.ctx(bob(), RICH);
    assert!(matches!(
        env.pallet.register_for_project_owner_account(c, doc("ipfs_powner_documentation")),
        Err(Error::DocumentationWasUsedPreviously)
    ));
}

#[test]
fn register_for_project_owner_account_ok() {
    let mut env = new_test_ext();
    env.run_to_block(1);
    let c = env.ctx(bob(), RICH);
    assert!(env.pallet.register_for_project_owner_account(c, doc("ipfs_powner_documentation")).is_ok());
}

#[test]
fn cast_vote_unauthorized() {
    let mut env = new_test_ext();
    env.run_to_block(1);
    for kind in [VoteType::CarbonFootprintReportVote, VoteType::ProjectProposalVote, VoteType::CarbonCreditBatchVote] {
        assert!(matches!(env.vote(alice(), kind, "ipfs_documentation", false), Err(Error::Unauthorized)));
    }
}

#[test]
fn cast_vote_cf_report_report_not_found() {
    let mut env = new_test_ext();
    env.run_to_block(1);
    env.register_validator(alice(), "ipfs_pvalidator_documentation");
    assert!(matches!(
        env.vote(alice(), VoteType::CarbonFootprintReportVote, "ipfs_cfreport_documentation", false),
        Err(Error::CarbonFootprintReportNotFound)
    ));
}

/// Bob submits a footprint report documented by `ipfs_cfreport_documentation`;
/// Alice is a validator.
fn report_setup() -> Env {
    let mut env = new_test_ext();
    env.run_to_block(1);
    env.register_validator(alice(), "ipfs_pvalidator_documentation");
    let c = env.ctx(bob(), RICH);
    assert!(env.pallet.submit_carbon_footprint_report(c, doc("ipfs_cfreport_documentation"), 0).is_ok());
    env
}

#[test]
fn cast_vote_cfreport_ok() {
    let mut env = report_setup();
    assert!(env.vote(alice(), VoteType::CarbonFootprintReportVote, "ipfs_cfreport_documentation", false).is_ok());
}

#[test]
fn cast_vote_cfreport_voting_cycle_is_over_submitted() {
    let mut env = report_setup();
    let end = env.block + env.voting_timeout();
    env.run_to_block(end);
    assert!(!env.pallet.carbon_footprint_report(&doc("ipfs_cfreport_documentation")).unwrap().voting_active);
    assert!(matches!(
        env.vote(alice(), VoteType::CarbonFootprintReportVote, "ipfs_cfreport_documentation", false),
        Err(Error::VotingCycleIsOver)
    ));
}

#[test]
fn cast_vote_cfreport_vote_already_submitted() {
    let mut env = report_setup();
    assert!(env.vote(alice(), VoteType::CarbonFootprintReportVote, "ipfs_cfreport_documentation", false).is_ok());
    assert!(matches!(
        env.vote(alice(), VoteType::CarbonFootprintReportVote, "ipfs_cfreport_documentation", false),
        Err(Error::VoteAlreadySubmitted)
    ));
}

#[test]
fn cast_vote_pproposal_project_proposal_not_found() {
    let mut env = new_test_ext();
    env.run_to_block(1);
    env.register_validator(alice(), "ipfs_project_validator_documentation");
    assert!(matches!(
        env.vote(alice(), VoteType::ProjectProposalVote, "ipfs_project_proposal_documentation", false),
        Err(Error::ProjectProposalNotFound)
    ));
}

/// Alice is a validator; Bob, an owner, proposes a project documented by
/// `ipfs_project_proposal_documentation`.
fn project_proposal_setup() -> Env {
    let mut env = new_test_ext();
    env.run_to_block(1);
    env.register_validator(alice(), "ipfs_project_validator_documentation");
    env.register_owner(bob(), "ipfs_project_owner_documentation");
    let c = env.ctx(bob(), RICH);
    assert!(env.pallet.propose_project(c, doc("ipfs_project_proposal_documentation")).is_ok());
    env
}

#[test]
fn cast_vote_pproposal_ok() {
    let mut env = project_proposal_setup();
    assert!(env.vote(alice(), VoteType::ProjectProposalVote, "ipfs_project_proposal_documentation", false).is_ok());
}

#[test]
fn cast_vote_pproposal_vote_already_submitted() {
    let mut env = project_proposal_setup();
    assert!(env.vote(alice(), VoteType::ProjectProposalVote, "ipfs_project_proposal_documentation", false).is_ok());
    assert!(matches!(
        env.vote(alice(), VoteType::ProjectProposalVote, "ipfs_project_proposal_documentation", false),
        Err(Error::VoteAlreadySubmitted)
    ));
}

#[test]
fn cast_vote_pproposal_voting_cycle_is_over_submitted() {
    let mut env = project_proposal_setup();
    let end = env.block + env.voting_timeout();
    env.run_to_block(end);
    assert!(matches!(
        env.vote(alice(), VoteType::ProjectProposalVote, "ipfs_project_proposal_documentation", false),
        Err(Error::VotingCycleIsOver)
    ));
}

#[test]
fn cast_vote_ccbatch_ccb_proposal_not_found() {
    let mut env = new_test_ext();
    env.run_to_block(1);
    env.register_validator(alice(), "ipfs_project_validator_documentation");
    assert!(matches!(
        env.vote(alice(), VoteType::CarbonCreditBatchVote, "ipfs_ccbatch_proposal_documentation", false),
        Err(Error::CCBProposalNotFound)
    ));
}

/// Alice is a validator; Bob, an owner, has an accepted project and proposes
/// a batch documented by `ipfs_ccbatch_proposal_documentation`.
fn batch_proposal_setup() -> Env {
    let mut env = new_test_ext();
    env.run_to_block(1);
    env.register_validator(alice(), "ipfs_project_validator_documentation");
    env.register_owner(bob(), "ipfs_project_owner_documentation");
    let project = env.accepted_project(bob(), alice(), "ipfs_project_proposal_documentation");
    let c = env.ctx(bob(), RICH);
    assert!(env
        .pallet
        .propose_carbon_credit_batch(c, project, 0, 0, doc("ipfs_ccbatch_proposal_documentation"))
        .is_ok());
    env
}

#[test]
fn cast_vote_ccbatch_ok() {
    let mut env = batch_proposal_setup();
    assert!(env.vote(alice(), VoteType::CarbonCreditBatchVote, "ipfs_ccbatch_proposal_documentation", false).is_ok());
}

#[test]
fn cast_vote_ccbatch_vote_already_submitted() {
    let mut env = batch_proposal_setup();
    assert!(env.vote(alice(), VoteType::CarbonCreditBatchVote, "ipfs_ccbatch_proposal_documentation", false).is_ok());
    assert!(matches!(
        env.vote(alice(), VoteType::CarbonCreditBatchVote, "ipfs_ccbatch_proposal_documentation", false),
        Err(Error::VoteAlreadySubmitted)
    ));
}

#[test]
fn cast_vote_ccbatch_voting_cycle_is_over() {
    let mut env = batch_proposal_setup();
    let end = env.block + env.voting_timeout();
    env.run_to_block(end);
    assert!(matches!(
        env.vote(alice(), VoteType::CarbonCreditBatchVote, "ipfs_ccbatch_proposal_documentation", false),
        Err(Error::VotingCycleIsOver)
    ));
}

#[test]
fn propose_project_unauthorized() {
    let mut env = new_test_ext();
    env.run_to_block(1);
    let c = env.ctx(alice(), RICH);
    assert!(matches!(
        env.pallet.propose_project(c, doc("ipfs_project_proposal_documentation")),
        Err(Error::Unauthorized)
    ));
}

#[test]
fn propose_project_ok() {
    let mut env = new_test_ext();
    env.run_to_block(1);
    env.register_owner(alice(), "ipfs_project_owner_documentation");
    let c = env.ctx(alice(), RICH);
    assert!(env.pallet.propose_project(c, doc("ipfs_project_proposal_documentation")).is_ok());
}

#[test]
fn propose_project_project_proposal_already_exists() {
    let mut env = new_test_ext();
    env.run_to_block(1);
    env.register_owner(alice(), "ipfs_project_owner_documentation");
    let c = env.ctx(alice(), RICH);
    assert!(env.pallet.propose_project(c, doc("ipfs_project_proposal_documentation")).is_ok());
    let c = env.ctx(alice(), RICH);
    assert!(matches!(
        env.pallet.propose_project(c, doc("ipfs_project_proposal_documentation")),
        Err(Error::ProjectProposalAlreadyExists)
    ));
}

#[test]
fn propose_carbon_credit_batch_unauthorized() {
    let mut env = new_test_ext();
    env.run_to_block(1);
    let hash = generate_hash(bob(), 0, 0);
    let c = env.ctx(alice(), RICH);
    assert!(matches!(
        env.pallet.propose_carbon_credit_batch(c, hash, 0, 0, doc("ipfs_ccbatch_proposal_documentation")),
        Err(Error::Unauthorized)
    ));
}

#[test]
fn propose_carbon_credit_batch_project_doesnt_exist() {
    let mut env = new_test_ext();
    env.run_to_block(1);
    env.register_owner(alice(), "ipfs_project_owner_documentation");
    let hash = generate_hash(bob(), 0, 0);
    let c = env.ctx(alice(), RICH);
    assert!(matches!(
        env.pallet.propose_carbon_credit_batch(c, hash, 0, 0, doc("ipfs_ccbatch_proposal_documentation")),
        Err(Error::ProjectDoesntExist)
    ));
}

#[test]
fn propose_carbon_credit_batch_unauthorized_project_owner() {
    let mut env = new_test_ext();
    env.run_to_block(1);
    env.register_owner(alice(), "ipfs_project_owner_documentation_1");
    env.register_owner(bob(), "ipfs_project_owner_documentation_2");
    env.register_validator(charlie(), "ipfs_validator_documentation");
    let project = env.accepted_project(alice(), charlie(), "ipfs_project_proposal_documentation");
    let c = env.ctx(bob(), RICH);
    assert!(matches!(
        env.pallet.propose_carbon_credit_batch(c, project, 0, 0, doc("ipfs_ccbatch_proposal_documentation")),
        Err(Error::Unauthorized)
    ));
}

#[test]
fn propose_carbon_credit_batch_ok() {
    let mut env = new_test_ext();
    env.run_to_block(1);
    env.register_owner(alice(), "ipfs_project_owner_documentation");
    env.register_validator(charlie(), "ipfs_validator_documentation");
    let project = env.accepted_project(alice(), charlie(), "ipfs_project_proposal_documentation");
    let c = env.ctx(alice(), RICH);
    assert!(env
        .pallet
        .propose_carbon_credit_batch(c, project, 0, 0, doc("ipfs_ccbatch_proposal_documentation"))
        .is_ok());
}

#[test]
fn propose_project_documentation_was_used_previously() {
    let mut env = new_test_ext();
    env.run_to_block(1);
    env.register_owner(alice(), "ipfs_documentation");
    let c = env.ctx(alice(), RICH);
    assert!(matches!(
        env.pallet.propose_project(c, doc("ipfs_documentation")),
        Err(Error::DocumentationWasUsedPreviously)
    ));
}

#[test]
fn propose_carbon_credit_batch_documentation_was_used_previously() {
    let mut env = new_test_ext();
    env.run_to_block(1);
    env.register_owner(alice(), "ipfs_documentation");
    env.register_validator(charlie(), "ipfs_validator_documentation");
    let project = env.accepted_project(alice(), charlie(), "ipfs_project_proposal_documentation");
    let c = env.ctx(alice(), RICH);
    assert!(matches!(
        env.pallet.propose_carbon_credit_batch(c, project, 0, 0, doc("ipfs_documentation")),
        Err(Error::DocumentationWasUsedPreviously)
    ));
}
