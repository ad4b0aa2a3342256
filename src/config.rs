//! Default configuration: fee schedule, time schedule and vote-pass ratio.

use crate::table::KeySet;
use crate::types::{AccountId, FeeValues, ProportionStructure, TimeValues};
use vstd::prelude::*;

verus! {

pub const SECONDS_IN_YEAR: u32 = 365 * 24 * 60 * 60;

pub const SECONDS_IN_MONTH: u32 = 31 * 24 * 60 * 60;

pub const SECONDS_IN_WEEK: u32 = 7 * 24 * 60 * 60;

pub open spec fn default_fee_values() -> FeeValues {
    FeeValues {
        trader_account_fee: 100,
        project_validator_account_fee: 100,
        project_owner_account_fee: 100,
        carbon_footprint_report_fee: 300,
        project_proposal_fee: 100,
        carbon_credit_batch_fee: 50,
        voting_fee: 100,
        claim_fee: 100,
    }
}

/// Time values for blocks finalized every `block_finalization_time` seconds:
/// a year of blocks, a base time of zero, a month for penalties and a week
/// for votes and sales.
pub open spec fn default_time_values(block_finalization_time: u32) -> TimeValues {
    TimeValues {
        number_of_blocks_per_year: (SECONDS_IN_YEAR / block_finalization_time) as u64,
        pallet_base_time: 0,
        penalty_timeout: (SECONDS_IN_MONTH / block_finalization_time) as u64,
        voting_timeout: (SECONDS_IN_WEEK / block_finalization_time) as u64,
        sales_timeout: (SECONDS_IN_WEEK / block_finalization_time) as u64,
    }
}

pub open spec fn default_vote_pass_ratio() -> ProportionStructure {
    ProportionStructure { proportion_part: 1, upper_limit_part: 6 }
}

/// No authority accounts.
#[allow(non_snake_case)]
pub fn DefaultForAuthorityAccounts() -> (r: KeySet<AccountId>)
    ensures
        r.wf(),
        r@ == Set::<AccountId>::empty(),
{
    KeySet::new()
}

/// No trader accounts.
#[allow(non_snake_case)]
pub fn DefaultForTraderAccounts() -> (r: KeySet<AccountId>)
    ensures
        r.wf(),
        r@ == Set::<AccountId>::empty(),
{
    KeySet::new()
}

#[allow(non_snake_case)]
pub fn DefaultForPalletFeeValues() -> (r: FeeValues)
    ensures
        r == default_fee_values(),
{
    FeeValues {
        trader_account_fee: 100,
        project_validator_account_fee: 100,
        project_owner_account_fee: 100,
        carbon_footprint_report_fee: 300,
        project_proposal_fee: 100,
        carbon_credit_batch_fee: 50,
        voting_fee: 100,
        claim_fee: 100,
    }
}

#[allow(non_snake_case)]
pub fn DefaultForPalletTimeValues(block_finalization_time: u32) -> (r: TimeValues)
    requires
        block_finalization_time > 0,
    ensures
        r == default_time_values(block_finalization_time),
{
    let blocks_in_year = SECONDS_IN_YEAR / block_finalization_time;
    let blocks_in_month = SECONDS_IN_MONTH / block_finalization_time;
    let blocks_in_week = SECONDS_IN_WEEK / block_finalization_time;
    TimeValues {
        number_of_blocks_per_year: blocks_in_year as u64,
        pallet_base_time: 0,
        penalty_timeout: blocks_in_month as u64,
        voting_timeout: blocks_in_week as u64,
        sales_timeout: blocks_in_week as u64,
    }
}

/// One sixth of the votes, normalized as every stored ratio is.
#[allow(non_snake_case)]
pub fn DefaultForVotePassRatio() -> (r: ProportionStructure)
    ensures
        r == default_vote_pass_ratio(),
        r.is_normalized(),
{
    let mut proportion_part: u16 = 1;
    let upper_limit_part: u16 = 6;
    if upper_limit_part == 0 {
        proportion_part = 0;
    } else if proportion_part >= upper_limit_part {
        proportion_part = upper_limit_part;
    }
    ProportionStructure { proportion_part, upper_limit_part }
}

} // verus!
