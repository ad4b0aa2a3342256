//! A carbon-credit marketplace modelled as a deterministic state machine:
//! role-typed accounts, documentation-keyed proposals voted on by validators,
//! block-indexed timeout queues, and credit holdings traded through sale orders.

mod config;
mod conservation;
mod hashing;
mod invariants;
mod laws;
mod model;
mod pallet;
mod reservations;
mod sums;
mod table;
mod types;

pub use config::{
    default_fee_values, default_time_values, default_vote_pass_ratio, DefaultForAuthorityAccounts,
    DefaultForPalletFeeValues, DefaultForPalletTimeValues, DefaultForTraderAccounts,
    DefaultForVotePassRatio, SECONDS_IN_MONTH, SECONDS_IN_WEEK, SECONDS_IN_YEAR,
};
pub use conservation::{
    batch_total, conservation_safe_call, credits_conserved, credits_conserved_core, held_of,
    lemma_create_then_close_keeps_holdings_conserved, lemma_create_then_complete_moves_credits_conserved,
    lemma_credits_conserved_after_safe_calls, lemma_credits_stay_conserved, lemma_genesis_conserves,
    lemma_sale_end_restores_seller_total_conserved,
};
pub use hashing::{blake2_256_of, generate_hash, hash_input, hash_of, u64_le_bytes};
pub use invariants::{
    docs_unique, lemma_docs_stay_unique, lemma_genesis_laws, lemma_laws_hold_after_any_calls,
    lemma_queued_vote_stays,
    lemma_roles_stay_exclusive, lemma_submission_queues_vote, lemma_tick_closes_queued_votes,
    roles_exclusive, voting_queues_consistent,
};
pub use laws::{
    lemma_create_then_close_keeps_holdings, lemma_create_then_complete_moves_credits,
    lemma_fee_update_twice, lemma_passing_vote_meets_ratio, lemma_sale_end_restores_seller_total,
    total_held,
};
pub use model::{
    dequeue, enqueue, no_holdings, normalized_ratio, or_unchanged, run, sat_add, sat_add_block,
    sat_add_i128, sat_mul, sat_sub, vote_passed, Call, PalletModel,
};
pub use pallet::{fee_transfer, genesis, Pallet};
pub use reservations::{
    lemma_open_order_is_reserved, lemma_reservations_stay_covered, no_open_order_in_batch,
    order_reserve, reservation_safe_call, reservations_covered, reserved_in,
};
pub use sums::sum_of;
pub use table::{seq_without, Key, KeyQueue, KeySet, Stored, Table};
pub use types::{
    AccountId, AccountInfoModel, Balance, BlockNumber, CallContext, CarbonCreditBatchInfo,
    CarbonCreditBatchModel, CarbonCreditBatchProposalInfo, CarbonCreditBatchProposalModel,
    CarbonCreditBatchStatus, CarbonCreditHoldingsInfo, CarbonCreditSaleOrderInfo,
    CarbonFootprintAccountInfo, CarbonFootprintAccountModel, CarbonFootprintReportInfo,
    CarbonFootprintReportModel, Dispatched, DocString, Error, Event, EventModel, FeeType,
    FeeValues, Hash256, Moment, Payer, PenaltyLevelConfig, ProjectInfo, ProjectModel,
    ProjectProposalInfo, ProjectProposalModel, ProjectValidatorOrProjectOwnerInfo,
    ProportionStructure, TimeType, TimeValues, Transfer, VoteType, DOC_STRING_LIMIT,
};
