//! The data of the marketplace: identifiers, stored records and their
//! mathematical models, configuration values, events and errors.

use crate::table::{Key, KeySet, Stored};
use vstd::string::StringSliceAdditionalSpecFns;
use vstd::prelude::*;

verus! {

broadcast use vstd::array::group_array_axioms;

/// Identity of an account.
pub type AccountId = u64;

/// Height of a block.
pub type BlockNumber = u64;

/// Wall-clock timestamp given by the host's clock.
pub type Moment = u64;

/// Amount of currency or of carbon credits.
pub type Balance = u128;

/// Longest documentation string, in bytes.
pub const DOC_STRING_LIMIT: usize = 64;

/// A content address of off-chain documentation: at most
/// `DOC_STRING_LIMIT` bytes.
#[derive(Clone, Debug)]
pub struct DocString {
    bytes: Vec<u8>,
}

impl View for DocString {
    type V = Seq<u8>;

    closed spec fn view(&self) -> Seq<u8> {
        self.bytes@
    }
}

impl DocString {
    /// The first `DOC_STRING_LIMIT` bytes of `s`.
    pub fn truncate_from(s: &str) -> (r: DocString)
        ensures
            r@ == s.spec_bytes().take(
                if s.spec_bytes().len() <= DOC_STRING_LIMIT { s.spec_bytes().len() as int } else { DOC_STRING_LIMIT as int },
            ),
    {
        let src = s.as_bytes();
        let n: usize = if src.len() <= DOC_STRING_LIMIT { src.len() } else { DOC_STRING_LIMIT };
        let mut bytes: Vec<u8> = Vec::new();
        let mut i: usize = 0;
        while i < n
            invariant
                n <= src@.len(),
                src@ == s.spec_bytes(),
                i <= n,
                bytes@ == src@.take(i as int),
            decreases n - i,
        {
            bytes.push(src[i]);
            i += 1;
            assert(bytes@ =~= src@.take(i as int));
        }
        DocString { bytes }
    }

    /// The bytes of the string.
    pub fn as_bytes(&self) -> (r: &[u8])
        ensures
            r@ == self@,
    {
        self.bytes.as_slice()
    }
}

impl Key for DocString {
    fn same_key(&self, other: &Self) -> (r: bool) {
        if self.bytes.len() != other.bytes.len() {
            return false;
        }
        let mut i: usize = 0;
        while i < self.bytes.len()
            invariant
                self.bytes.len() == other.bytes.len(),
                i <= self.bytes.len(),
                forall|j: int| 0 <= j < i ==> self.bytes@[j] == other.bytes@[j],
            decreases self.bytes.len() - i,
        {
            if self.bytes[i] != other.bytes[i] {
                return false;
            }
            i += 1;
        }
        assert(self.bytes@ =~= other.bytes@);
        true
    }

    fn clone_key(&self) -> (r: Self) {
        let mut bytes: Vec<u8> = Vec::new();
        let mut i: usize = 0;
        while i < self.bytes.len()
            invariant
                i <= self.bytes.len(),
                bytes@ == self.bytes@.take(i as int),
            decreases self.bytes.len() - i,
        {
            bytes.push(self.bytes[i]);
            i += 1;
            assert(bytes@ =~= self.bytes@.take(i as int));
        }
        assert(bytes@ =~= self.bytes@);
        DocString { bytes }
    }
}

/// A 256-bit digest identifying a project, a credit batch or a sale order.
#[derive(Clone, Copy, PartialEq, Eq, Debug)]
pub struct Hash256 {
    pub bytes: [u8; 32],
}

impl View for Hash256 {
    type V = Hash256;

    open spec fn view(&self) -> Hash256 {
        *self
    }
}

impl Key for Hash256 {
    fn same_key(&self, other: &Self) -> (r: bool) {
        let mut i: usize = 0;
        while i < 32
            invariant
                i <= 32,
                forall|j: int| 0 <= j < i ==> self.bytes@[j] == other.bytes@[j],
            decreases 32 - i,
        {
            if self.bytes[i] != other.bytes[i] {
                return false;
            }
            i += 1;
        }
        assert(self.bytes =~= other.bytes);
        true
    }

    fn clone_key(&self) -> (r: Self) {
        *self
    }
}

impl Key for (Hash256, AccountId) {
    fn same_key(&self, other: &Self) -> (r: bool) {
        self.0.same_key(&other.0) && self.1 == other.1
    }

    fn clone_key(&self) -> (r: Self) {
        (self.0, self.1)
    }
}

impl Key for (Hash256, Hash256) {
    fn same_key(&self, other: &Self) -> (r: bool) {
        self.0.same_key(&other.0) && self.1.same_key(&other.1)
    }

    fn clone_key(&self) -> (r: Self) {
        (self.0, self.1)
    }
}

/// Kind of artifact a vote is cast on.
#[derive(Clone, Copy, PartialEq, Eq, Structural, Debug)]
pub enum VoteType {
    CarbonFootprintReportVote,
    ProjectProposalVote,
    CarbonCreditBatchVote,
}

/// Status of a carbon credit batch.
#[derive(Clone, Copy, PartialEq, Eq, Structural, Debug)]
pub enum CarbonCreditBatchStatus {
    /// Credits can be traded and retired.
    Active,
    /// Credits can be neither traded nor retired.
    Frozen,
    /// Credits have been removed from circulation.
    Redacted,
}

/// The configurable fees.
#[derive(Clone, Copy, PartialEq, Eq, Structural, Debug)]
pub enum FeeType {
    TraderAccountFee,
    ProjectValidatorAccountFee,
    ProjectOwnerAccountFee,
    CarbonCreditReportFee,
    ProjectProposalFee,
    CarbonCreditBatchFee,
    VotingFee,
    ClaimFee,
}

/// The configurable time values, in blocks.
#[derive(Clone, Copy, PartialEq, Eq, Structural, Debug)]
pub enum TimeType {
    NumberOfBlocksYearly,
    PalletBaseTime,
    PenaltyTimeout,
    VotingTimeout,
    SalesTimeout,
}

/// The fee schedule.
#[derive(Clone, Copy, PartialEq, Eq, Structural, Debug)]
pub struct FeeValues {
    pub trader_account_fee: Balance,
    pub project_validator_account_fee: Balance,
    pub project_owner_account_fee: Balance,
    pub carbon_footprint_report_fee: Balance,
    pub project_proposal_fee: Balance,
    pub carbon_credit_batch_fee: Balance,
    pub voting_fee: Balance,
    pub claim_fee: Balance,
}

impl FeeValues {
    pub open spec fn spec_get(&self, fee_type: FeeType) -> Balance {
        match fee_type {
            FeeType::TraderAccountFee => self.trader_account_fee,
            FeeType::ProjectValidatorAccountFee => self.project_validator_account_fee,
            FeeType::ProjectOwnerAccountFee => self.project_owner_account_fee,
            FeeType::CarbonCreditReportFee => self.carbon_footprint_report_fee,
            FeeType::ProjectProposalFee => self.project_proposal_fee,
            FeeType::CarbonCreditBatchFee => self.carbon_credit_batch_fee,
            FeeType::VotingFee => self.voting_fee,
            FeeType::ClaimFee => self.claim_fee,
        }
    }

    /// These fees with the fee of `fee_type` set to `value`.
    pub open spec fn spec_with(self, fee_type: FeeType, value: Balance) -> FeeValues {
        match fee_type {
            FeeType::TraderAccountFee => FeeValues { trader_account_fee: value, ..self },
            FeeType::ProjectValidatorAccountFee => FeeValues { project_validator_account_fee: value, ..self },
            FeeType::ProjectOwnerAccountFee => FeeValues { project_owner_account_fee: value, ..self },
            FeeType::CarbonCreditReportFee => FeeValues { carbon_footprint_report_fee: value, ..self },
            FeeType::ProjectProposalFee => FeeValues { project_proposal_fee: value, ..self },
            FeeType::CarbonCreditBatchFee => FeeValues { carbon_credit_batch_fee: value, ..self },
            FeeType::VotingFee => FeeValues { voting_fee: value, ..self },
            FeeType::ClaimFee => FeeValues { claim_fee: value, ..self },
        }
    }

    /// The fee of `fee_type`.
    pub fn get(&self, fee_type: FeeType) -> (r: Balance)
        ensures
            r == self.spec_get(fee_type),
    {
        match fee_type {
            FeeType::TraderAccountFee => self.trader_account_fee,
            FeeType::ProjectValidatorAccountFee => self.project_validator_account_fee,
            FeeType::ProjectOwnerAccountFee => self.project_owner_account_fee,
            FeeType::CarbonCreditReportFee => self.carbon_footprint_report_fee,
            FeeType::ProjectProposalFee => self.project_proposal_fee,
            FeeType::CarbonCreditBatchFee => self.carbon_credit_batch_fee,
            FeeType::VotingFee => self.voting_fee,
            FeeType::ClaimFee => self.claim_fee,
        }
    }
}

/// The time schedule, in blocks.
#[derive(Clone, Copy, PartialEq, Eq, Structural, Debug)]
pub struct TimeValues {
    pub number_of_blocks_per_year: BlockNumber,
    pub pallet_base_time: BlockNumber,
    pub penalty_timeout: BlockNumber,
    pub voting_timeout: BlockNumber,
    pub sales_timeout: BlockNumber,
}

impl TimeValues {
    pub open spec fn spec_get(&self, time_type: TimeType) -> BlockNumber {
        match time_type {
            TimeType::NumberOfBlocksYearly => self.number_of_blocks_per_year,
            TimeType::PalletBaseTime => self.pallet_base_time,
            TimeType::PenaltyTimeout => self.penalty_timeout,
            TimeType::VotingTimeout => self.voting_timeout,
            TimeType::SalesTimeout => self.sales_timeout,
        }
    }

    /// These values with the one of `time_type` set to `value`.
    pub open spec fn spec_with(self, time_type: TimeType, value: BlockNumber) -> TimeValues {
        match time_type {
            TimeType::NumberOfBlocksYearly => TimeValues { number_of_blocks_per_year: value, ..self },
            TimeType::PalletBaseTime => TimeValues { pallet_base_time: value, ..self },
            TimeType::PenaltyTimeout => TimeValues { penalty_timeout: value, ..self },
            TimeType::VotingTimeout => TimeValues { voting_timeout: value, ..self },
            TimeType::SalesTimeout => TimeValues { sales_timeout: value, ..self },
        }
    }

    /// The value of `time_type`.
    pub fn get(&self, time_type: TimeType) -> (r: BlockNumber)
        ensures
            r == self.spec_get(time_type),
    {
        match time_type {
            TimeType::NumberOfBlocksYearly => self.number_of_blocks_per_year,
            TimeType::PalletBaseTime => self.pallet_base_time,
            TimeType::PenaltyTimeout => self.penalty_timeout,
            TimeType::VotingTimeout => self.voting_timeout,
            TimeType::SalesTimeout => self.sales_timeout,
        }
    }
}

/// The share of votes for that a proposal needs: `proportion_part` out of
/// `upper_limit_part`.
#[derive(Clone, Copy, PartialEq, Eq, Structural, Debug)]
pub struct ProportionStructure {
    pub proportion_part: u16,
    pub upper_limit_part: u16,
}

impl ProportionStructure {
    /// A zero upper limit forces a zero proportion; otherwise the proportion
    /// is at most the upper limit.
    pub open spec fn is_normalized(&self) -> bool {
        &&& self.upper_limit_part == 0 ==> self.proportion_part == 0
        &&& self.proportion_part <= self.upper_limit_part
    }
}

/// A penalty level and its base balance.
#[derive(Clone, Copy, PartialEq, Eq, Structural, Debug)]
pub struct PenaltyLevelConfig {
    pub level: u8,
    pub base: i32,
}

/// Model of a project validator's or project owner's record.
pub ghost struct AccountInfoModel {
    pub documentation_ipfs: Seq<u8>,
    pub penalty_level: u8,
    pub penalty_timeout: BlockNumber,
}

/// Record of a project validator or a project owner.
#[derive(Clone, Debug)]
pub struct ProjectValidatorOrProjectOwnerInfo {
    pub documentation_ipfs: DocString,
    pub penalty_level: u8,
    pub penalty_timeout: BlockNumber,
}

impl View for ProjectValidatorOrProjectOwnerInfo {
    type V = AccountInfoModel;

    open spec fn view(&self) -> AccountInfoModel {
        AccountInfoModel {
            documentation_ipfs: self.documentation_ipfs@,
            penalty_level: self.penalty_level,
            penalty_timeout: self.penalty_timeout,
        }
    }
}

impl Stored for ProjectValidatorOrProjectOwnerInfo {
    open spec fn valid(&self) -> bool {
        true
    }
}

/// Model of a carbon footprint account.
pub ghost struct CarbonFootprintAccountModel {
    pub documentation_ipfses: Set<Seq<u8>>,
    pub carbon_footprint_balance: i128,
    pub creation_date: Moment,
}

/// A carbon footprint account: the documentation of its accepted reports
/// and the sum of their balances.
#[derive(Clone)]
pub struct CarbonFootprintAccountInfo {
    pub documentation_ipfses: KeySet<DocString>,
    pub carbon_footprint_balance: i128,
    pub creation_date: Moment,
}

impl View for CarbonFootprintAccountInfo {
    type V = CarbonFootprintAccountModel;

    open spec fn view(&self) -> CarbonFootprintAccountModel {
        CarbonFootprintAccountModel {
            documentation_ipfses: self.documentation_ipfses@,
            carbon_footprint_balance: self.carbon_footprint_balance,
            creation_date: self.creation_date,
        }
    }
}

impl Stored for CarbonFootprintAccountInfo {
    open spec fn valid(&self) -> bool {
        self.documentation_ipfses.wf()
    }
}

/// Model of a carbon footprint report.
pub ghost struct CarbonFootprintReportModel {
    pub cf_account: AccountId,
    pub creation_date: Moment,
    pub carbon_footprint_balance: i128,
    pub votes_for: Set<AccountId>,
    pub votes_against: Set<AccountId>,
    pub voting_active: bool,
}

/// A carbon footprint report under vote.
#[derive(Clone)]
pub struct CarbonFootprintReportInfo {
    pub cf_account: AccountId,
    pub creation_date: Moment,
    pub carbon_footprint_balance: i128,
    pub votes_for: KeySet<AccountId>,
    pub votes_against: KeySet<AccountId>,
    pub voting_active: bool,
}

impl View for CarbonFootprintReportInfo {
    type V = CarbonFootprintReportModel;

    open spec fn view(&self) -> CarbonFootprintReportModel {
        CarbonFootprintReportModel {
            cf_account: self.cf_account,
            creation_date: self.creation_date,
            carbon_footprint_balance: self.carbon_footprint_balance,
            votes_for: self.votes_for@,
            votes_against: self.votes_against@,
            voting_active: self.voting_active,
        }
    }
}

impl Stored for CarbonFootprintReportInfo {
    open spec fn valid(&self) -> bool {
        self.votes_for.wf() && self.votes_against.wf()
    }
}

/// Model of a project proposal.
pub ghost struct ProjectProposalModel {
    pub project_owner: AccountId,
    pub creation_date: Moment,
    pub project_hash: Hash256,
    pub votes_for: Set<AccountId>,
    pub votes_against: Set<AccountId>,
    pub voting_active: bool,
}

/// A project proposal under vote.
#[derive(Clone)]
pub struct ProjectProposalInfo {
    pub project_owner: AccountId,
    pub creation_date: Moment,
    pub project_hash: Hash256,
    pub votes_for: KeySet<AccountId>,
    pub votes_against: KeySet<AccountId>,
    pub voting_active: bool,
}

impl View for ProjectProposalInfo {
    type V = ProjectProposalModel;

    open spec fn view(&self) -> ProjectProposalModel {
        ProjectProposalModel {
            project_owner: self.project_owner,
            creation_date: self.creation_date,
            project_hash: self.project_hash,
            votes_for: self.votes_for@,
            votes_against: self.votes_against@,
            voting_active: self.voting_active,
        }
    }
}

impl Stored for ProjectProposalInfo {
    open spec fn valid(&self) -> bool {
        self.votes_for.wf() && self.votes_against.wf()
    }
}

/// Model of a carbon credit batch proposal.
pub ghost struct CarbonCreditBatchProposalModel {
    pub project_hash: Hash256,
    pub batch_hash: Hash256,
    pub creation_date: Moment,
    pub credit_amount: Balance,
    pub initial_credit_price: Balance,
    pub votes_for: Set<AccountId>,
    pub votes_against: Set<AccountId>,
    pub voting_active: bool,
}

/// A carbon credit batch proposal under vote.
#[derive(Clone)]
pub struct CarbonCreditBatchProposalInfo {
    pub project_hash: Hash256,
    pub batch_hash: Hash256,
    pub creation_date: Moment,
    pub credit_amount: Balance,
    pub initial_credit_price: Balance,
    pub votes_for: KeySet<AccountId>,
    pub votes_against: KeySet<AccountId>,
    pub voting_active: bool,
}

impl View for CarbonCreditBatchProposalInfo {
    type V = CarbonCreditBatchProposalModel;

    open spec fn view(&self) -> CarbonCreditBatchProposalModel {
        CarbonCreditBatchProposalModel {
            project_hash: self.project_hash,
            batch_hash: self.batch_hash,
            creation_date: self.creation_date,
            credit_amount: self.credit_amount,
            initial_credit_price: self.initial_credit_price,
            votes_for: self.votes_for@,
            votes_against: self.votes_against@,
            voting_active: self.voting_active,
        }
    }
}

impl Stored for CarbonCreditBatchProposalInfo {
    open spec fn valid(&self) -> bool {
        self.votes_for.wf() && self.votes_against.wf()
    }
}

/// Model of a project.
pub ghost struct ProjectModel {
    pub documentation_ipfs: Seq<u8>,
    pub project_owner: AccountId,
    pub creation_date: Moment,
    pub penalty_level: u8,
    pub penalty_timeout: BlockNumber,
}

/// A project accepted by vote.
#[derive(Clone, Debug)]
pub struct ProjectInfo {
    pub documentation_ipfs: DocString,
    pub project_owner: AccountId,
    pub creation_date: Moment,
    pub penalty_level: u8,
    pub penalty_timeout: BlockNumber,
}

impl View for ProjectInfo {
    type V = ProjectModel;

    open spec fn view(&self) -> ProjectModel {
        ProjectModel {
            documentation_ipfs: self.documentation_ipfs@,
            project_owner: self.project_owner,
            creation_date: self.creation_date,
            penalty_level: self.penalty_level,
            penalty_timeout: self.penalty_timeout,
        }
    }
}

impl Stored for ProjectInfo {
    open spec fn valid(&self) -> bool {
        true
    }
}

/// Model of a carbon credit batch.
pub ghost struct CarbonCreditBatchModel {
    pub documentation_ipfs: Seq<u8>,
    pub creation_date: Moment,
    pub credit_amount: Balance,
    pub initial_credit_price: Balance,
    pub status: CarbonCreditBatchStatus,
}

/// A carbon credit batch accepted by vote.
#[derive(Clone, Debug)]
pub struct CarbonCreditBatchInfo {
    pub documentation_ipfs: DocString,
    pub creation_date: Moment,
    pub credit_amount: Balance,
    pub initial_credit_price: Balance,
    pub status: CarbonCreditBatchStatus,
}

impl View for CarbonCreditBatchInfo {
    type V = CarbonCreditBatchModel;

    open spec fn view(&self) -> CarbonCreditBatchModel {
        CarbonCreditBatchModel {
            documentation_ipfs: self.documentation_ipfs@,
            creation_date: self.creation_date,
            credit_amount: self.credit_amount,
            initial_credit_price: self.initial_credit_price,
            status: self.status,
        }
    }
}

impl Stored for CarbonCreditBatchInfo {
    open spec fn valid(&self) -> bool {
        true
    }
}

/// Credits of one batch held by one account: those free to sell and those
/// reserved by open sale orders.
#[derive(Clone, Copy, PartialEq, Eq, Structural, Debug)]
pub struct CarbonCreditHoldingsInfo {
    pub available_amount: Balance,
    pub unavailable_amount: Balance,
}

impl View for CarbonCreditHoldingsInfo {
    type V = CarbonCreditHoldingsInfo;

    open spec fn view(&self) -> CarbonCreditHoldingsInfo {
        *self
    }
}

impl Stored for CarbonCreditHoldingsInfo {
    open spec fn valid(&self) -> bool {
        true
    }
}

/// A sale order; while unfilled its buyer is its seller.
#[derive(Clone, Copy, PartialEq, Eq, Debug)]
pub struct CarbonCreditSaleOrderInfo {
    pub batch_hash: Hash256,
    pub credit_amount: Balance,
    pub credit_price: Balance,
    pub seller: AccountId,
    pub buyer: AccountId,
    pub sale_active: bool,
    pub sale_timeout: BlockNumber,
}

impl View for CarbonCreditSaleOrderInfo {
    type V = CarbonCreditSaleOrderInfo;

    open spec fn view(&self) -> CarbonCreditSaleOrderInfo {
        *self
    }
}

impl Stored for CarbonCreditSaleOrderInfo {
    open spec fn valid(&self) -> bool {
        true
    }
}

/// Model of an event.
pub ghost enum EventModel {
    TimeValueUpdated(TimeType, BlockNumber),
    FeeValueUpdated(FeeType, Balance),
    VotePassRatioUpdated(u16, u16),
    TraderAccountRegistered(AccountId),
    ProjectValidatorAccountRegistered(AccountId, Seq<u8>),
    ProjectOwnerAccountRegistered(AccountId, Seq<u8>),
    SuccessfulVote(AccountId, Seq<u8>, VoteType, bool),
    CarbonFootprintReportSubmitted(AccountId, Seq<u8>),
    ProjectProposalCreated(AccountId, Seq<u8>),
    CarbonCreditBatchProposalCreated(AccountId, Seq<u8>),
    CarbonCreditSaleOrderCreated(AccountId, Hash256, Balance, Balance),
    CarbonCreditSaleOrderCompleted(AccountId, Hash256),
    CarbonCreditSaleOrderClosed(AccountId, Hash256),
}

/// What a successful call reports.
#[derive(Debug)]
pub enum Event {
    TimeValueUpdated(TimeType, BlockNumber),
    FeeValueUpdated(FeeType, Balance),
    VotePassRatioUpdated(u16, u16),
    TraderAccountRegistered(AccountId),
    ProjectValidatorAccountRegistered(AccountId, DocString),
    ProjectOwnerAccountRegistered(AccountId, DocString),
    SuccessfulVote(AccountId, DocString, VoteType, bool),
    CarbonFootprintReportSubmitted(AccountId, DocString),
    ProjectProposalCreated(AccountId, DocString),
    CarbonCreditBatchProposalCreated(AccountId, DocString),
    /// Seller, batch hash, credit amount, credit price.
    CarbonCreditSaleOrderCreated(AccountId, Hash256, Balance, Balance),
    /// Buyer, sale hash.
    CarbonCreditSaleOrderCompleted(AccountId, Hash256),
    /// Seller, sale hash.
    CarbonCreditSaleOrderClosed(AccountId, Hash256),
}

impl View for Event {
    type V = EventModel;

    open spec fn view(&self) -> EventModel {
        match self {
            Event::TimeValueUpdated(t, v) => EventModel::TimeValueUpdated(*t, *v),
            Event::FeeValueUpdated(f, v) => EventModel::FeeValueUpdated(*f, *v),
            Event::VotePassRatioUpdated(p, u) => EventModel::VotePassRatioUpdated(*p, *u),
            Event::TraderAccountRegistered(a) => EventModel::TraderAccountRegistered(*a),
            Event::ProjectValidatorAccountRegistered(a, d) => EventModel::ProjectValidatorAccountRegistered(*a, d@),
            Event::ProjectOwnerAccountRegistered(a, d) => EventModel::ProjectOwnerAccountRegistered(*a, d@),
            Event::SuccessfulVote(a, d, k, v) => EventModel::SuccessfulVote(*a, d@, *k, *v),
            Event::CarbonFootprintReportSubmitted(a, d) => EventModel::CarbonFootprintReportSubmitted(*a, d@),
            Event::ProjectProposalCreated(a, d) => EventModel::ProjectProposalCreated(*a, d@),
            Event::CarbonCreditBatchProposalCreated(a, d) => EventModel::CarbonCreditBatchProposalCreated(*a, d@),
            Event::CarbonCreditSaleOrderCreated(a, h, n, p) => EventModel::CarbonCreditSaleOrderCreated(*a, *h, *n, *p),
            Event::CarbonCreditSaleOrderCompleted(a, h) => EventModel::CarbonCreditSaleOrderCompleted(*a, *h),
            Event::CarbonCreditSaleOrderClosed(a, h) => EventModel::CarbonCreditSaleOrderClosed(*a, *h),
        }
    }
}

/// Why a call was refused.
#[derive(Clone, Copy, PartialEq, Eq, Structural, Debug)]
pub enum Error {
    UnableToChangePalletBaseTime,
    UpdatingToCurrentValue,
    InsufficientFunds,
    CarbonFootprintReportNotFound,
    Unauthorized,
    InvalidTimeoutValue,
    DocumentationWasUsedPreviously,
    VotingCycleIsOver,
    VoteAlreadySubmitted,
    ProjectProposalAlreadyExists,
    ProjectProposalNotFound,
    CCBProposalNotFound,
    WrongVoteType,
    ProjectDoesntExist,
    AccountIdAlreadyInUse,
    CarbonFootprintReportAlreadySubmitted,
    UserIsActiveInCarbonFootprintReportVotingCycle,
    UserIsNotEligibleForCarbonCreditTransactions,
    CarbonCreditBatchDoesNotExist,
    CarbonCreditBatchIsNotActive,
    NotEnoughtAvailableCredits,
    CarbonCreditSaleOrderDoesntExist,
    /// The sale order was already completed, closed or expired.
    CarbonCreditSaleOrderIsNotActive,
    BuyerCantBuyHisOwnTokens,
    UserDidntCreateTheSellOrder,
}

/// Who pays a transfer.
#[derive(Clone, Copy, PartialEq, Eq, Structural, Debug)]
pub enum Payer {
    /// The marketplace's own account.
    PalletAccount,
    Account(AccountId),
}

/// A currency transfer that the host performs after a successful call,
/// keeping the paying account alive; if it fails, the host undoes the call.
#[derive(Clone, Copy, PartialEq, Eq, Structural, Debug)]
pub struct Transfer {
    pub source: Payer,
    pub dest: AccountId,
    pub amount: Balance,
}

/// The outcome of a successful call: its event and the transfer it asks for.
#[derive(Debug)]
pub struct Dispatched {
    pub event: Event,
    pub transfer: Option<Transfer>,
}

/// What the host knows when it runs a call: who signed it, that account's
/// free balance and nonce, the current block and the current time.
#[derive(Clone, Copy, PartialEq, Eq, Structural, Debug)]
pub struct CallContext {
    pub caller: AccountId,
    pub free_balance: Balance,
    pub nonce: u64,
    pub block_number: BlockNumber,
    pub moment: Moment,
}

} // verus!
