//! The record of program F5tfv.

use vstd::prelude::*;
use crate::metadata::EventMetadata;
use crate::pubkey::Pubkey;

verus! {

/// A bonding curve trade routed through program F5tfv.
#[derive(Clone, Debug, PartialEq, Eq)]
pub struct ProgF5tfvPumpFunTradeEvent {
    pub metadata: EventMetadata,
    pub mint: Pubkey,
    pub sol_amount: u64,
    pub token_amount: u64,
    pub is_buy: bool,
    pub user: Pubkey,
    pub timestamp: i64,
    pub virtual_sol_reserves: u64,
    pub virtual_token_reserves: u64,
    pub real_sol_reserves: u64,
    pub real_token_reserves: u64,
    pub fee_recipient: Pubkey,
    pub fee_basis_points: u64,
    pub fee: u64,
    pub creator: Pubkey,
    pub creator_fee_basis_points: u64,
    pub creator_fee: u64,
    pub track_volume: bool,
    pub total_unclaimed_tokens: u64,
    pub total_claimed_tokens: u64,
    pub current_sol_volume: u64,
    pub last_update_timestamp: i64,
    pub max_sol_cost: u64,
    pub min_sol_output: u64,
    pub amount: u64,
    pub is_bot: bool,
    pub is_dev_create_token_trade: bool,
    pub global: Pubkey,
    pub bonding_curve: Pubkey,
    pub associated_bonding_curve: Pubkey,
    pub associated_user: Pubkey,
    pub system_program: Pubkey,
    pub token_program: Pubkey,
    pub creator_vault: Pubkey,
    pub event_authority: Pubkey,
    pub program: Pubkey,
    pub global_volume_accumulator: Pubkey,
    pub user_volume_accumulator: Pubkey,
    pub fee_config: Pubkey,
    pub fee_program: Pubkey,
}

impl ProgF5tfvPumpFunTradeEvent {
    /// The record in which no field is set: every number is zero, every
    /// flag `false` and every address the zero address.
    pub open spec fn blank(metadata: EventMetadata) -> ProgF5tfvPumpFunTradeEvent {
        ProgF5tfvPumpFunTradeEvent {
            metadata,
            mint: Pubkey::zero(),
            sol_amount: 0,
            token_amount: 0,
            is_buy: false,
            user: Pubkey::zero(),
            timestamp: 0,
            virtual_sol_reserves: 0,
            virtual_token_reserves: 0,
            real_sol_reserves: 0,
            real_token_reserves: 0,
            fee_recipient: Pubkey::zero(),
            fee_basis_points: 0,
            fee: 0,
            creator: Pubkey::zero(),
            creator_fee_basis_points: 0,
            creator_fee: 0,
            track_volume: false,
            total_unclaimed_tokens: 0,
            total_claimed_tokens: 0,
            current_sol_volume: 0,
            last_update_timestamp: 0,
            max_sol_cost: 0,
            min_sol_output: 0,
            amount: 0,
            is_bot: false,
            is_dev_create_token_trade: false,
            global: Pubkey::zero(),
            bonding_curve: Pubkey::zero(),
            associated_bonding_curve: Pubkey::zero(),
            associated_user: Pubkey::zero(),
            system_program: Pubkey::zero(),
            token_program: Pubkey::zero(),
            creator_vault: Pubkey::zero(),
            event_authority: Pubkey::zero(),
            program: Pubkey::zero(),
            global_volume_accumulator: Pubkey::zero(),
            user_volume_accumulator: Pubkey::zero(),
            fee_config: Pubkey::zero(),
            fee_program: Pubkey::zero(),
        }
    }

    /// A record under `metadata` with no field set.
    pub fn new(metadata: EventMetadata) -> (r: ProgF5tfvPumpFunTradeEvent)
        ensures
            r == ProgF5tfvPumpFunTradeEvent::blank(metadata),
    {
        ProgF5tfvPumpFunTradeEvent {
            metadata,
            mint: Pubkey::default(),
            sol_amount: 0,
            token_amount: 0,
            is_buy: false,
            user: Pubkey::default(),
            timestamp: 0,
            virtual_sol_reserves: 0,
            virtual_token_reserves: 0,
            real_sol_reserves: 0,
            real_token_reserves: 0,
            fee_recipient: Pubkey::default(),
            fee_basis_points: 0,
            fee: 0,
            creator: Pubkey::default(),
            creator_fee_basis_points: 0,
            creator_fee: 0,
            track_volume: false,
            total_unclaimed_tokens: 0,
            total_claimed_tokens: 0,
            current_sol_volume: 0,
            last_update_timestamp: 0,
            max_sol_cost: 0,
            min_sol_output: 0,
            amount: 0,
            is_bot: false,
            is_dev_create_token_trade: false,
            global: Pubkey::default(),
            bonding_curve: Pubkey::default(),
            associated_bonding_curve: Pubkey::default(),
            associated_user: Pubkey::default(),
            system_program: Pubkey::default(),
            token_program: Pubkey::default(),
            creator_vault: Pubkey::default(),
            event_authority: Pubkey::default(),
            program: Pubkey::default(),
            global_volume_accumulator: Pubkey::default(),
            user_volume_accumulator: Pubkey::default(),
            fee_config: Pubkey::default(),
            fee_program: Pubkey::default(),
        }
    }

    /// The record that has its logged fields from `log` and the others from
    /// `self`.
    pub open spec fn merged(self, log: ProgF5tfvPumpFunTradeEvent) -> ProgF5tfvPumpFunTradeEvent {
        ProgF5tfvPumpFunTradeEvent {
            mint: log.mint,
            sol_amount: log.sol_amount,
            token_amount: log.token_amount,
            is_buy: log.is_buy,
            user: log.user,
            timestamp: log.timestamp,
            virtual_sol_reserves: log.virtual_sol_reserves,
            virtual_token_reserves: log.virtual_token_reserves,
            real_sol_reserves: log.real_sol_reserves,
            real_token_reserves: log.real_token_reserves,
            fee_recipient: log.fee_recipient,
            fee_basis_points: log.fee_basis_points,
            fee: log.fee,
            creator: log.creator,
            creator_fee_basis_points: log.creator_fee_basis_points,
            creator_fee: log.creator_fee,
            track_volume: log.track_volume,
            total_unclaimed_tokens: log.total_unclaimed_tokens,
            total_claimed_tokens: log.total_claimed_tokens,
            current_sol_volume: log.current_sol_volume,
            last_update_timestamp: log.last_update_timestamp,
            ..self
        }
    }

    /// Takes over every field that the program logs from `log`.
    pub fn merge(&mut self, log: &ProgF5tfvPumpFunTradeEvent)
        ensures
            *final(self) == old(self).merged(*log),
    {
        self.mint = log.mint;
        self.sol_amount = log.sol_amount;
        self.token_amount = log.token_amount;
        self.is_buy = log.is_buy;
        self.user = log.user;
        self.timestamp = log.timestamp;
        self.virtual_sol_reserves = log.virtual_sol_reserves;
        self.virtual_token_reserves = log.virtual_token_reserves;
        self.real_sol_reserves = log.real_sol_reserves;
        self.real_token_reserves = log.real_token_reserves;
        self.fee_recipient = log.fee_recipient;
        self.fee_basis_points = log.fee_basis_points;
        self.fee = log.fee;
        self.creator = log.creator;
        self.creator_fee_basis_points = log.creator_fee_basis_points;
        self.creator_fee = log.creator_fee;
        self.track_volume = log.track_volume;
        self.total_unclaimed_tokens = log.total_unclaimed_tokens;
        self.total_claimed_tokens = log.total_claimed_tokens;
        self.current_sol_volume = log.current_sol_volume;
        self.last_update_timestamp = log.last_update_timestamp;
    }

    /// Whether the two records agree in every field that the program logs.
    pub open spec fn log_fields_agree(self, other: ProgF5tfvPumpFunTradeEvent) -> bool {
        &&& self.mint == other.mint
        &&& self.sol_amount == other.sol_amount
        &&& self.token_amount == other.token_amount
        &&& self.is_buy == other.is_buy
        &&& self.user == other.user
        &&& self.timestamp == other.timestamp
        &&& self.virtual_sol_reserves == other.virtual_sol_reserves
        &&& self.virtual_token_reserves == other.virtual_token_reserves
        &&& self.real_sol_reserves == other.real_sol_reserves
        &&& self.real_token_reserves == other.real_token_reserves
        &&& self.fee_recipient == other.fee_recipient
        &&& self.fee_basis_points == other.fee_basis_points
        &&& self.fee == other.fee
        &&& self.creator == other.creator
        &&& self.creator_fee_basis_points == other.creator_fee_basis_points
        &&& self.creator_fee == other.creator_fee
        &&& self.track_volume == other.track_volume
        &&& self.total_unclaimed_tokens == other.total_unclaimed_tokens
        &&& self.total_claimed_tokens == other.total_claimed_tokens
        &&& self.current_sol_volume == other.current_sol_volume
        &&& self.last_update_timestamp == other.last_update_timestamp
    }

    /// Whether the two records agree in the envelope and in every field that
    /// the program does not log.
    pub open spec fn other_fields_agree(self, other: ProgF5tfvPumpFunTradeEvent) -> bool {
        &&& self.metadata == other.metadata
        &&& self.max_sol_cost == other.max_sol_cost
        &&& self.min_sol_output == other.min_sol_output
        &&& self.amount == other.amount
        &&& self.is_bot == other.is_bot
        &&& self.is_dev_create_token_trade == other.is_dev_create_token_trade
        &&& self.global == other.global
        &&& self.bonding_curve == other.bonding_curve
        &&& self.associated_bonding_curve == other.associated_bonding_curve
        &&& self.associated_user == other.associated_user
        &&& self.system_program == other.system_program
        &&& self.token_program == other.token_program
        &&& self.creator_vault == other.creator_vault
        &&& self.event_authority == other.event_authority
        &&& self.program == other.program
        &&& self.global_volume_accumulator == other.global_volume_accumulator
        &&& self.user_volume_accumulator == other.user_volume_accumulator
        &&& self.fee_config == other.fee_config
        &&& self.fee_program == other.fee_program
    }

    /// Whether the two records read the same, whatever memory holds their
    /// text.
    pub open spec fn same_content(self, other: ProgF5tfvPumpFunTradeEvent) -> bool {
        &&& self.metadata.same_content(other.metadata)
        &&& self.mint == other.mint
        &&& self.sol_amount == other.sol_amount
        &&& self.token_amount == other.token_amount
        &&& self.is_buy == other.is_buy
        &&& self.user == other.user
        &&& self.timestamp == other.timestamp
        &&& self.virtual_sol_reserves == other.virtual_sol_reserves
        &&& self.virtual_token_reserves == other.virtual_token_reserves
        &&& self.real_sol_reserves == other.real_sol_reserves
        &&& self.real_token_reserves == other.real_token_reserves
        &&& self.fee_recipient == other.fee_recipient
        &&& self.fee_basis_points == other.fee_basis_points
        &&& self.fee == other.fee
        &&& self.creator == other.creator
        &&& self.creator_fee_basis_points == other.creator_fee_basis_points
        &&& self.creator_fee == other.creator_fee
        &&& self.track_volume == other.track_volume
        &&& self.total_unclaimed_tokens == other.total_unclaimed_tokens
        &&& self.total_claimed_tokens == other.total_claimed_tokens
        &&& self.current_sol_volume == other.current_sol_volume
        &&& self.last_update_timestamp == other.last_update_timestamp
        &&& self.max_sol_cost == other.max_sol_cost
        &&& self.min_sol_output == other.min_sol_output
        &&& self.amount == other.amount
        &&& self.is_bot == other.is_bot
        &&& self.is_dev_create_token_trade == other.is_dev_create_token_trade
        &&& self.global == other.global
        &&& self.bonding_curve == other.bonding_curve
        &&& self.associated_bonding_curve == other.associated_bonding_curve
        &&& self.associated_user == other.associated_user
        &&& self.system_program == other.system_program
        &&& self.token_program == other.token_program
        &&& self.creator_vault == other.creator_vault
        &&& self.event_authority == other.event_authority
        &&& self.program == other.program
        &&& self.global_volume_accumulator == other.global_volume_accumulator
        &&& self.user_volume_accumulator == other.user_volume_accumulator
        &&& self.fee_config == other.fee_config
        &&& self.fee_program == other.fee_program
    }

    /// A merged record has every logged field from the log record and every
    /// other field from the instruction record.
    pub proof fn lemma_merge_complete(instruction: ProgF5tfvPumpFunTradeEvent, log: ProgF5tfvPumpFunTradeEvent)
        ensures
            instruction.merged(log).log_fields_agree(log),
            instruction.merged(log).other_fields_agree(instruction),
    {
    }

    /// The logged fields and the others are all the fields there are.
    pub proof fn lemma_fields_cover(a: ProgF5tfvPumpFunTradeEvent, b: ProgF5tfvPumpFunTradeEvent)
        requires
            a.log_fields_agree(b),
            a.other_fields_agree(b),
        ensures
            a == b,
    {
    }
}

impl Default for ProgF5tfvPumpFunTradeEvent {
    fn default() -> (r: ProgF5tfvPumpFunTradeEvent)
        ensures
            r == ProgF5tfvPumpFunTradeEvent::blank(r.metadata),
            r.metadata.is_blank(),
    {
        ProgF5tfvPumpFunTradeEvent::new(EventMetadata::default())
    }
}

} // verus!
