//! The records of the bonding curve program.

use vstd::prelude::*;
use crate::metadata::EventMetadata;
use crate::pubkey::Pubkey;
use crate::wire::{key_at, le_i64, le_u64, read_bool, read_i64_le, read_pubkey, read_u64_le};

verus! {

/// The creation of a token on the bonding curve program.
#[derive(Clone, Debug, PartialEq, Eq)]
pub struct PumpFunCreateTokenEvent {
    pub metadata: EventMetadata,
    pub name: String,
    pub symbol: String,
    pub uri: String,
    pub mint: Pubkey,
    pub bonding_curve: Pubkey,
    pub user: Pubkey,
    pub creator: Pubkey,
    pub timestamp: i64,
    pub virtual_token_reserves: u64,
    pub virtual_sol_reserves: u64,
    pub real_token_reserves: u64,
    pub token_total_supply: u64,
    pub mint_authority: Pubkey,
    pub associated_bonding_curve: Pubkey,
}

impl PumpFunCreateTokenEvent {
    /// The record in which no field is set: every number is zero, every
    /// flag `false` and every address the zero address.
    pub open spec fn blank(metadata: EventMetadata, name: String, symbol: String, uri: String) -> PumpFunCreateTokenEvent {
        PumpFunCreateTokenEvent {
            metadata,
            name,
            symbol,
            uri,
            mint: Pubkey::zero(),
            bonding_curve: Pubkey::zero(),
            user: Pubkey::zero(),
            creator: Pubkey::zero(),
            timestamp: 0,
            virtual_token_reserves: 0,
            virtual_sol_reserves: 0,
            real_token_reserves: 0,
            token_total_supply: 0,
            mint_authority: Pubkey::zero(),
            associated_bonding_curve: Pubkey::zero(),
        }
    }

    /// A record under `metadata` with no field set.
    pub fn new(metadata: EventMetadata) -> (r: PumpFunCreateTokenEvent)
        ensures
            r == PumpFunCreateTokenEvent::blank(metadata, r.name, r.symbol, r.uri),
            r.name@.len() == 0,
            r.symbol@.len() == 0,
            r.uri@.len() == 0,
    {
        PumpFunCreateTokenEvent {
            metadata,
            name: String::new(),
            symbol: String::new(),
            uri: String::new(),
            mint: Pubkey::default(),
            bonding_curve: Pubkey::default(),
            user: Pubkey::default(),
            creator: Pubkey::default(),
            timestamp: 0,
            virtual_token_reserves: 0,
            virtual_sol_reserves: 0,
            real_token_reserves: 0,
            token_total_supply: 0,
            mint_authority: Pubkey::default(),
            associated_bonding_curve: Pubkey::default(),
        }
    }

    /// The record that has its logged fields from `log` and the others from
    /// `self`.
    pub open spec fn merged(self, log: PumpFunCreateTokenEvent) -> PumpFunCreateTokenEvent {
        PumpFunCreateTokenEvent {
            name: log.name,
            symbol: log.symbol,
            uri: log.uri,
            mint: log.mint,
            bonding_curve: log.bonding_curve,
            user: log.user,
            creator: log.creator,
            timestamp: log.timestamp,
            virtual_token_reserves: log.virtual_token_reserves,
            virtual_sol_reserves: log.virtual_sol_reserves,
            real_token_reserves: log.real_token_reserves,
            token_total_supply: log.token_total_supply,
            ..self
        }
    }

    /// Takes over every field that the program logs from `log`.
    pub fn merge(&mut self, log: &PumpFunCreateTokenEvent)
        ensures
            *final(self) == old(self).merged(*log),
    {
        self.name = log.name.clone();
        self.symbol = log.symbol.clone();
        self.uri = log.uri.clone();
        self.mint = log.mint;
        self.bonding_curve = log.bonding_curve;
        self.user = log.user;
        self.creator = log.creator;
        self.timestamp = log.timestamp;
        self.virtual_token_reserves = log.virtual_token_reserves;
        self.virtual_sol_reserves = log.virtual_sol_reserves;
        self.real_token_reserves = log.real_token_reserves;
        self.token_total_supply = log.token_total_supply;
    }

    /// Whether the two records agree in every field that the program logs.
    pub open spec fn log_fields_agree(self, other: PumpFunCreateTokenEvent) -> bool {
        &&& self.name == other.name
        &&& self.symbol == other.symbol
        &&& self.uri == other.uri
        &&& self.mint == other.mint
        &&& self.bonding_curve == other.bonding_curve
        &&& self.user == other.user
        &&& self.creator == other.creator
        &&& self.timestamp == other.timestamp
        &&& self.virtual_token_reserves == other.virtual_token_reserves
        &&& self.virtual_sol_reserves == other.virtual_sol_reserves
        &&& self.real_token_reserves == other.real_token_reserves
        &&& self.token_total_supply == other.token_total_supply
    }

    /// Whether the two records agree in the envelope and in every field that
    /// the program does not log.
    pub open spec fn other_fields_agree(self, other: PumpFunCreateTokenEvent) -> bool {
        &&& self.metadata == other.metadata
        &&& self.mint_authority == other.mint_authority
        &&& self.associated_bonding_curve == other.associated_bonding_curve
    }

    /// Whether the two records read the same, whatever memory holds their
    /// text.
    pub open spec fn same_content(self, other: PumpFunCreateTokenEvent) -> bool {
        &&& self.metadata.same_content(other.metadata)
        &&& self.name@ =~= other.name@
        &&& self.symbol@ =~= other.symbol@
        &&& self.uri@ =~= other.uri@
        &&& self.mint == other.mint
        &&& self.bonding_curve == other.bonding_curve
        &&& self.user == other.user
        &&& self.creator == other.creator
        &&& self.timestamp == other.timestamp
        &&& self.virtual_token_reserves == other.virtual_token_reserves
        &&& self.virtual_sol_reserves == other.virtual_sol_reserves
        &&& self.real_token_reserves == other.real_token_reserves
        &&& self.token_total_supply == other.token_total_supply
        &&& self.mint_authority == other.mint_authority
        &&& self.associated_bonding_curve == other.associated_bonding_curve
    }

    /// A merged record has every logged field from the log record and every
    /// other field from the instruction record.
    pub proof fn lemma_merge_complete(instruction: PumpFunCreateTokenEvent, log: PumpFunCreateTokenEvent)
        ensures
            instruction.merged(log).log_fields_agree(log),
            instruction.merged(log).other_fields_agree(instruction),
    {
    }

    /// The logged fields and the others are all the fields there are.
    pub proof fn lemma_fields_cover(a: PumpFunCreateTokenEvent, b: PumpFunCreateTokenEvent)
        requires
            a.log_fields_agree(b),
            a.other_fields_agree(b),
        ensures
            a == b,
    {
    }
}

impl Default for PumpFunCreateTokenEvent {
    fn default() -> (r: PumpFunCreateTokenEvent)
        ensures
            r == PumpFunCreateTokenEvent::blank(r.metadata, r.name, r.symbol, r.uri),
            r.metadata.is_blank(),
            r.name@.len() == 0,
            r.symbol@.len() == 0,
            r.uri@.len() == 0,
    {
        PumpFunCreateTokenEvent::new(EventMetadata::default())
    }
}

/// A buy or a sell on the bonding curve program.
#[derive(Clone, Debug, PartialEq, Eq)]
pub struct PumpFunTradeEvent {
    pub metadata: EventMetadata,
    pub mint: Pubkey,
    pub sol_amount: u64,
    pub token_amount: u64,
    pub is_buy: bool,
    pub user: Pubkey,
    pub timestamp: i64,
    pub virtual_sol_reserves: u64,
    pub virtual_token_reserves: u64,
    pub real_sol_reserves: u64,
    pub real_token_reserves: u64,
    pub fee_recipient: Pubkey,
    pub fee_basis_points: u64,
    pub fee: u64,
    pub creator: Pubkey,
    pub creator_fee_basis_points: u64,
    pub creator_fee: u64,
    pub track_volume: bool,
    pub total_unclaimed_tokens: u64,
    pub total_claimed_tokens: u64,
    pub current_sol_volume: u64,
    pub last_update_timestamp: i64,
    pub max_sol_cost: u64,
    pub min_sol_output: u64,
    pub amount: u64,
    pub is_bot: bool,
    pub is_dev_create_token_trade: bool,
    pub global: Pubkey,
    pub bonding_curve: Pubkey,
    pub associated_bonding_curve: Pubkey,
    pub associated_user: Pubkey,
    pub system_program: Pubkey,
    pub token_program: Pubkey,
    pub creator_vault: Pubkey,
    pub event_authority: Pubkey,
    pub program: Pubkey,
    pub global_volume_accumulator: Pubkey,
    pub user_volume_accumulator: Pubkey,
    pub fee_config: Pubkey,
    pub fee_program: Pubkey,
}

impl PumpFunTradeEvent {
    /// The record in which no field is set: every number is zero, every
    /// flag `false` and every address the zero address.
    pub open spec fn blank(metadata: EventMetadata) -> PumpFunTradeEvent {
        PumpFunTradeEvent {
            metadata,
            mint: Pubkey::zero(),
            sol_amount: 0,
            token_amount: 0,
            is_buy: false,
            user: Pubkey::zero(),
            timestamp: 0,
            virtual_sol_reserves: 0,
            virtual_token_reserves: 0,
            real_sol_reserves: 0,
            real_token_reserves: 0,
            fee_recipient: Pubkey::zero(),
            fee_basis_points: 0,
            fee: 0,
            creator: Pubkey::zero(),
            creator_fee_basis_points: 0,
            creator_fee: 0,
            track_volume: false,
            total_unclaimed_tokens: 0,
            total_claimed_tokens: 0,
            current_sol_volume: 0,
            last_update_timestamp: 0,
            max_sol_cost: 0,
            min_sol_output: 0,
            amount: 0,
            is_bot: false,
            is_dev_create_token_trade: false,
            global: Pubkey::zero(),
            bonding_curve: Pubkey::zero(),
            associated_bonding_curve: Pubkey::zero(),
            associated_user: Pubkey::zero(),
            system_program: Pubkey::zero(),
            token_program: Pubkey::zero(),
            creator_vault: Pubkey::zero(),
            event_authority: Pubkey::zero(),
            program: Pubkey::zero(),
            global_volume_accumulator: Pubkey::zero(),
            user_volume_accumulator: Pubkey::zero(),
            fee_config: Pubkey::zero(),
            fee_program: Pubkey::zero(),
        }
    }

    /// A record under `metadata` with no field set.
    pub fn new(metadata: EventMetadata) -> (r: PumpFunTradeEvent)
        ensures
            r == PumpFunTradeEvent::blank(metadata),
    {
        PumpFunTradeEvent {
            metadata,
            mint: Pubkey::default(),
            sol_amount: 0,
            token_amount: 0,
            is_buy: false,
            user: Pubkey::default(),
            timestamp: 0,
            virtual_sol_reserves: 0,
            virtual_token_reserves: 0,
            real_sol_reserves: 0,
            real_token_reserves: 0,
            fee_recipient: Pubkey::default(),
            fee_basis_points: 0,
            fee: 0,
            creator: Pubkey::default(),
            creator_fee_basis_points: 0,
            creator_fee: 0,
            track_volume: false,
            total_unclaimed_tokens: 0,
            total_claimed_tokens: 0,
            current_sol_volume: 0,
            last_update_timestamp: 0,
            max_sol_cost: 0,
            min_sol_output: 0,
            amount: 0,
            is_bot: false,
            is_dev_create_token_trade: false,
            global: Pubkey::default(),
            bonding_curve: Pubkey::default(),
            associated_bonding_curve: Pubkey::default(),
            associated_user: Pubkey::default(),
            system_program: Pubkey::default(),
            token_program: Pubkey::default(),
            creator_vault: Pubkey::default(),
            event_authority: Pubkey::default(),
            program: Pubkey::default(),
            global_volume_accumulator: Pubkey::default(),
            user_volume_accumulator: Pubkey::default(),
            fee_config: Pubkey::default(),
            fee_program: Pubkey::default(),
        }
    }

    /// The record that has its logged fields from `log` and the others from
    /// `self`.
    pub open spec fn merged(self, log: PumpFunTradeEvent) -> PumpFunTradeEvent {
        PumpFunTradeEvent {
            mint: log.mint,
            sol_amount: log.sol_amount,
            token_amount: log.token_amount,
            is_buy: log.is_buy,
            user: log.user,
            timestamp: log.timestamp,
            virtual_sol_reserves: log.virtual_sol_reserves,
            virtual_token_reserves: log.virtual_token_reserves,
            real_sol_reserves: log.real_sol_reserves,
            real_token_reserves: log.real_token_reserves,
            fee_recipient: log.fee_recipient,
            fee_basis_points: log.fee_basis_points,
            fee: log.fee,
            creator: log.creator,
            creator_fee_basis_points: log.creator_fee_basis_points,
            creator_fee: log.creator_fee,
            track_volume: log.track_volume,
            total_unclaimed_tokens: log.total_unclaimed_tokens,
            total_claimed_tokens: log.total_claimed_tokens,
            current_sol_volume: log.current_sol_volume,
            last_update_timestamp: log.last_update_timestamp,
            ..self
        }
    }

    /// Takes over every field that the program logs from `log`.
    pub fn merge(&mut self, log: &PumpFunTradeEvent)
        ensures
            *final(self) == old(self).merged(*log),
    {
        self.mint = log.mint;
        self.sol_amount = log.sol_amount;
        self.token_amount = log.token_amount;
        self.is_buy = log.is_buy;
        self.user = log.user;
        self.timestamp = log.timestamp;
        self.virtual_sol_reserves = log.virtual_sol_reserves;
        self.virtual_token_reserves = log.virtual_token_reserves;
        self.real_sol_reserves = log.real_sol_reserves;
        self.real_token_reserves = log.real_token_reserves;
        self.fee_recipient = log.fee_recipient;
        self.fee_basis_points = log.fee_basis_points;
        self.fee = log.fee;
        self.creator = log.creator;
        self.creator_fee_basis_points = log.creator_fee_basis_points;
        self.creator_fee = log.creator_fee;
        self.track_volume = log.track_volume;
        self.total_unclaimed_tokens = log.total_unclaimed_tokens;
        self.total_claimed_tokens = log.total_claimed_tokens;
        self.current_sol_volume = log.current_sol_volume;
        self.last_update_timestamp = log.last_update_timestamp;
    }

    /// Whether the two records agree in every field that the program logs.
    pub open spec fn log_fields_agree(self, other: PumpFunTradeEvent) -> bool {
        &&& self.mint == other.mint
        &&& self.sol_amount == other.sol_amount
        &&& self.token_amount == other.token_amount
        &&& self.is_buy == other.is_buy
        &&& self.user == other.user
        &&& self.timestamp == other.timestamp
        &&& self.virtual_sol_reserves == other.virtual_sol_reserves
        &&& self.virtual_token_reserves == other.virtual_token_reserves
        &&& self.real_sol_reserves == other.real_sol_reserves
        &&& self.real_token_reserves == other.real_token_reserves
        &&& self.fee_recipient == other.fee_recipient
        &&& self.fee_basis_points == other.fee_basis_points
        &&& self.fee == other.fee
        &&& self.creator == other.creator
        &&& self.creator_fee_basis_points == other.creator_fee_basis_points
        &&& self.creator_fee == other.creator_fee
        &&& self.track_volume == other.track_volume
        &&& self.total_unclaimed_tokens == other.total_unclaimed_tokens
        &&& self.total_claimed_tokens == other.total_claimed_tokens
        &&& self.current_sol_volume == other.current_sol_volume
        &&& self.last_update_timestamp == other.last_update_timestamp
    }

    /// Whether the two records agree in the envelope and in every field that
    /// the program does not log.
    pub open spec fn other_fields_agree(self, other: PumpFunTradeEvent) -> bool {
        &&& self.metadata == other.metadata
        &&& self.max_sol_cost == other.max_sol_cost
        &&& self.min_sol_output == other.min_sol_output
        &&& self.amount == other.amount
        &&& self.is_bot == other.is_bot
        &&& self.is_dev_create_token_trade == other.is_dev_create_token_trade
        &&& self.global == other.global
        &&& self.bonding_curve == other.bonding_curve
        &&& self.associated_bonding_curve == other.associated_bonding_curve
        &&& self.associated_user == other.associated_user
        &&& self.system_program == other.system_program
        &&& self.token_program == other.token_program
        &&& self.creator_vault == other.creator_vault
        &&& self.event_authority == other.event_authority
        &&& self.program == other.program
        &&& self.global_volume_accumulator == other.global_volume_accumulator
        &&& self.user_volume_accumulator == other.user_volume_accumulator
        &&& self.fee_config == other.fee_config
        &&& self.fee_program == other.fee_program
    }

    /// Whether the two records read the same, whatever memory holds their
    /// text.
    pub open spec fn same_content(self, other: PumpFunTradeEvent) -> bool {
        &&& self.metadata.same_content(other.metadata)
        &&& self.mint == other.mint
        &&& self.sol_amount == other.sol_amount
        &&& self.token_amount == other.token_amount
        &&& self.is_buy == other.is_buy
        &&& self.user == other.user
        &&& self.timestamp == other.timestamp
        &&& self.virtual_sol_reserves == other.virtual_sol_reserves
        &&& self.virtual_token_reserves == other.virtual_token_reserves
        &&& self.real_sol_reserves == other.real_sol_reserves
        &&& self.real_token_reserves == other.real_token_reserves
        &&& self.fee_recipient == other.fee_recipient
        &&& self.fee_basis_points == other.fee_basis_points
        &&& self.fee == other.fee
        &&& self.creator == other.creator
        &&& self.creator_fee_basis_points == other.creator_fee_basis_points
        &&& self.creator_fee == other.creator_fee
        &&& self.track_volume == other.track_volume
        &&& self.total_unclaimed_tokens == other.total_unclaimed_tokens
        &&& self.total_claimed_tokens == other.total_claimed_tokens
        &&& self.current_sol_volume == other.current_sol_volume
        &&& self.last_update_timestamp == other.last_update_timestamp
        &&& self.max_sol_cost == other.max_sol_cost
        &&& self.min_sol_output == other.min_sol_output
        &&& self.amount == other.amount
        &&& self.is_bot == other.is_bot
        &&& self.is_dev_create_token_trade == other.is_dev_create_token_trade
        &&& self.global == other.global
        &&& self.bonding_curve == other.bonding_curve
        &&& self.associated_bonding_curve == other.associated_bonding_curve
        &&& self.associated_user == other.associated_user
        &&& self.system_program == other.system_program
        &&& self.token_program == other.token_program
        &&& self.creator_vault == other.creator_vault
        &&& self.event_authority == other.event_authority
        &&& self.program == other.program
        &&& self.global_volume_accumulator == other.global_volume_accumulator
        &&& self.user_volume_accumulator == other.user_volume_accumulator
        &&& self.fee_config == other.fee_config
        &&& self.fee_program == other.fee_program
    }

    /// A merged record has every logged field from the log record and every
    /// other field from the instruction record.
    pub proof fn lemma_merge_complete(instruction: PumpFunTradeEvent, log: PumpFunTradeEvent)
        ensures
            instruction.merged(log).log_fields_agree(log),
            instruction.merged(log).other_fields_agree(instruction),
    {
    }

    /// The logged fields and the others are all the fields there are.
    pub proof fn lemma_fields_cover(a: PumpFunTradeEvent, b: PumpFunTradeEvent)
        requires
            a.log_fields_agree(b),
            a.other_fields_agree(b),
        ensures
            a == b,
    {
    }

    /// The length of a log record in bytes.
    pub open spec fn log_len() -> int {
        250
    }

    /// Whether `data` is a log record: it has the length of one, and each
    /// byte that stands for a flag or a variant is in range.
    pub open spec fn log_well_formed(data: Seq<u8>) -> bool {
        &&& data.len() == Self::log_len()
        &&& data[48] <= 1
        &&& data[217] <= 1
    }

    /// Whether `self` is what the log record `data` holds, under `metadata`.
    pub open spec fn is_log_record(self, data: Seq<u8>, metadata: EventMetadata) -> bool {
        &&& self.other_fields_agree(PumpFunTradeEvent::blank(metadata))
        &&& self.mint@ == key_at(data, 0)
        &&& self.sol_amount == le_u64(data, 32)
        &&& self.token_amount == le_u64(data, 40)
        &&& self.is_buy == (data[48] == 1)
        &&& self.user@ == key_at(data, 49)
        &&& self.timestamp == le_i64(data, 81)
        &&& self.virtual_sol_reserves == le_u64(data, 89)
        &&& self.virtual_token_reserves == le_u64(data, 97)
        &&& self.real_sol_reserves == le_u64(data, 105)
        &&& self.real_token_reserves == le_u64(data, 113)
        &&& self.fee_recipient@ == key_at(data, 121)
        &&& self.fee_basis_points == le_u64(data, 153)
        &&& self.fee == le_u64(data, 161)
        &&& self.creator@ == key_at(data, 169)
        &&& self.creator_fee_basis_points == le_u64(data, 201)
        &&& self.creator_fee == le_u64(data, 209)
        &&& self.track_volume == (data[217] == 1)
        &&& self.total_unclaimed_tokens == le_u64(data, 218)
        &&& self.total_claimed_tokens == le_u64(data, 226)
        &&& self.current_sol_volume == le_u64(data, 234)
        &&& self.last_update_timestamp == le_i64(data, 242)
    }

    /// Reads a log record: the logged fields in their order, each in its
    /// fixed width, with nothing before, between or after them.
    pub fn from_log(data: &[u8], metadata: EventMetadata) -> (r: Option<PumpFunTradeEvent>)
        ensures
            r.is_some() == PumpFunTradeEvent::log_well_formed(data@),
            r matches Some(e) ==> e.is_log_record(data@, metadata),
    {
        if data.len() != 250 {
            return None;
        }
        let mut e = PumpFunTradeEvent::new(metadata);
        e.mint = read_pubkey(data, 0)?;
        e.sol_amount = read_u64_le(data, 32)?;
        e.token_amount = read_u64_le(data, 40)?;
        e.is_buy = read_bool(data, 48)?;
        e.user = read_pubkey(data, 49)?;
        e.timestamp = read_i64_le(data, 81)?;
        e.virtual_sol_reserves = read_u64_le(data, 89)?;
        e.virtual_token_reserves = read_u64_le(data, 97)?;
        e.real_sol_reserves = read_u64_le(data, 105)?;
        e.real_token_reserves = read_u64_le(data, 113)?;
        e.fee_recipient = read_pubkey(data, 121)?;
        e.fee_basis_points = read_u64_le(data, 153)?;
        e.fee = read_u64_le(data, 161)?;
        e.creator = read_pubkey(data, 169)?;
        e.creator_fee_basis_points = read_u64_le(data, 201)?;
        e.creator_fee = read_u64_le(data, 209)?;
        e.track_volume = read_bool(data, 217)?;
        e.total_unclaimed_tokens = read_u64_le(data, 218)?;
        e.total_claimed_tokens = read_u64_le(data, 226)?;
        e.current_sol_volume = read_u64_le(data, 234)?;
        e.last_update_timestamp = read_i64_le(data, 242)?;
        Some(e)
    }
}

impl Default for PumpFunTradeEvent {
    fn default() -> (r: PumpFunTradeEvent)
        ensures
            r == PumpFunTradeEvent::blank(r.metadata),
            r.metadata.is_blank(),
    {
        PumpFunTradeEvent::new(EventMetadata::default())
    }
}

} // verus!
