//! The record of the dynamic bonding curve program.

use vstd::prelude::*;
use crate::metadata::EventMetadata;
use crate::pubkey::Pubkey;
use crate::protocols::meteora_dbc::types::TradeDirection;
use crate::protocols::meteora_dbc::types::read_direction;
use crate::wire::{key_at, le_u128, le_u64, read_pubkey, read_u128_le, read_u64_le, read_u8};

verus! {

/// A swap on a dynamic bonding curve pool.
#[derive(Clone, Debug, PartialEq, Eq)]
pub struct MeteoraDBCSwapEvent {
    pub metadata: EventMetadata,
    pub pool: Pubkey,
    pub config: Pubkey,
    pub trade_direction: TradeDirection,
    pub has_referral: u8,
    pub param_amount_in: u64,
    pub param_minimum_amount_out: u64,
    pub actual_input_amount: u64,
    pub output_amount: u64,
    pub next_sqrt_price: u128,
    pub trading_fee: u64,
    pub protocol_fee: u64,
    pub referral_fee: u64,
    pub amount_in: u64,
    pub current_timestamp: u64,
    pub payer: Pubkey,
    pub base_mint: Pubkey,
    pub quote_mint: Pubkey,
    pub input_token_account: Pubkey,
    pub output_token_account: Pubkey,
    pub base_vault: Pubkey,
    pub quote_vault: Pubkey,
    pub token_base_program: Pubkey,
    pub token_quote_program: Pubkey,
    pub remaining_accounts: Vec<Pubkey>,
}

impl MeteoraDBCSwapEvent {
    /// The record in which no field is set: every number is zero, every
    /// flag `false` and every address the zero address.
    pub open spec fn blank(metadata: EventMetadata, remaining_accounts: Vec<Pubkey>) -> MeteoraDBCSwapEvent {
        MeteoraDBCSwapEvent {
            metadata,
            pool: Pubkey::zero(),
            config: Pubkey::zero(),
            trade_direction: TradeDirection::Sell,
            has_referral: 0,
            param_amount_in: 0,
            param_minimum_amount_out: 0,
            actual_input_amount: 0,
            output_amount: 0,
            next_sqrt_price: 0,
            trading_fee: 0,
            protocol_fee: 0,
            referral_fee: 0,
            amount_in: 0,
            current_timestamp: 0,
            payer: Pubkey::zero(),
            base_mint: Pubkey::zero(),
            quote_mint: Pubkey::zero(),
            input_token_account: Pubkey::zero(),
            output_token_account: Pubkey::zero(),
            base_vault: Pubkey::zero(),
            quote_vault: Pubkey::zero(),
            token_base_program: Pubkey::zero(),
            token_quote_program: Pubkey::zero(),
            remaining_accounts,
        }
    }

    /// A record under `metadata` with no field set.
    pub fn new(metadata: EventMetadata) -> (r: MeteoraDBCSwapEvent)
        ensures
            r == MeteoraDBCSwapEvent::blank(metadata, r.remaining_accounts),
            r.remaining_accounts@.len() == 0,
    {
        MeteoraDBCSwapEvent {
            metadata,
            pool: Pubkey::default(),
            config: Pubkey::default(),
            trade_direction: TradeDirection::Sell,
            has_referral: 0,
            param_amount_in: 0,
            param_minimum_amount_out: 0,
            actual_input_amount: 0,
            output_amount: 0,
            next_sqrt_price: 0,
            trading_fee: 0,
            protocol_fee: 0,
            referral_fee: 0,
            amount_in: 0,
            current_timestamp: 0,
            payer: Pubkey::default(),
            base_mint: Pubkey::default(),
            quote_mint: Pubkey::default(),
            input_token_account: Pubkey::default(),
            output_token_account: Pubkey::default(),
            base_vault: Pubkey::default(),
            quote_vault: Pubkey::default(),
            token_base_program: Pubkey::default(),
            token_quote_program: Pubkey::default(),
            remaining_accounts: Vec::new(),
        }
    }

    /// The record that has its logged fields from `log` and the others from
    /// `self`.
    pub open spec fn merged(self, log: MeteoraDBCSwapEvent) -> MeteoraDBCSwapEvent {
        MeteoraDBCSwapEvent {
            pool: log.pool,
            config: log.config,
            trade_direction: log.trade_direction,
            has_referral: log.has_referral,
            param_amount_in: log.param_amount_in,
            param_minimum_amount_out: log.param_minimum_amount_out,
            actual_input_amount: log.actual_input_amount,
            output_amount: log.output_amount,
            next_sqrt_price: log.next_sqrt_price,
            trading_fee: log.trading_fee,
            protocol_fee: log.protocol_fee,
            referral_fee: log.referral_fee,
            amount_in: log.amount_in,
            current_timestamp: log.current_timestamp,
            ..self
        }
    }

    /// Takes over every field that the program logs from `log`.
    pub fn merge(&mut self, log: &MeteoraDBCSwapEvent)
        ensures
            *final(self) == old(self).merged(*log),
    {
        self.pool = log.pool;
        self.config = log.config;
        self.trade_direction = log.trade_direction;
        self.has_referral = log.has_referral;
        self.param_amount_in = log.param_amount_in;
        self.param_minimum_amount_out = log.param_minimum_amount_out;
        self.actual_input_amount = log.actual_input_amount;
        self.output_amount = log.output_amount;
        self.next_sqrt_price = log.next_sqrt_price;
        self.trading_fee = log.trading_fee;
        self.protocol_fee = log.protocol_fee;
        self.referral_fee = log.referral_fee;
        self.amount_in = log.amount_in;
        self.current_timestamp = log.current_timestamp;
    }

    /// Whether the two records agree in every field that the program logs.
    pub open spec fn log_fields_agree(self, other: MeteoraDBCSwapEvent) -> bool {
        &&& self.pool == other.pool
        &&& self.config == other.config
        &&& self.trade_direction == other.trade_direction
        &&& self.has_referral == other.has_referral
        &&& self.param_amount_in == other.param_amount_in
        &&& self.param_minimum_amount_out == other.param_minimum_amount_out
        &&& self.actual_input_amount == other.actual_input_amount
        &&& self.output_amount == other.output_amount
        &&& self.next_sqrt_price == other.next_sqrt_price
        &&& self.trading_fee == other.trading_fee
        &&& self.protocol_fee == other.protocol_fee
        &&& self.referral_fee == other.referral_fee
        &&& self.amount_in == other.amount_in
        &&& self.current_timestamp == other.current_timestamp
    }

    /// Whether the two records agree in the envelope and in every field that
    /// the program does not log.
    pub open spec fn other_fields_agree(self, other: MeteoraDBCSwapEvent) -> bool {
        &&& self.metadata == other.metadata
        &&& self.payer == other.payer
        &&& self.base_mint == other.base_mint
        &&& self.quote_mint == other.quote_mint
        &&& self.input_token_account == other.input_token_account
        &&& self.output_token_account == other.output_token_account
        &&& self.base_vault == other.base_vault
        &&& self.quote_vault == other.quote_vault
        &&& self.token_base_program == other.token_base_program
        &&& self.token_quote_program == other.token_quote_program
        &&& self.remaining_accounts == other.remaining_accounts
    }

    /// Whether the two records read the same, whatever memory holds their
    /// text.
    pub open spec fn same_content(self, other: MeteoraDBCSwapEvent) -> bool {
        &&& self.metadata.same_content(other.metadata)
        &&& self.pool == other.pool
        &&& self.config == other.config
        &&& self.trade_direction == other.trade_direction
        &&& self.has_referral == other.has_referral
        &&& self.param_amount_in == other.param_amount_in
        &&& self.param_minimum_amount_out == other.param_minimum_amount_out
        &&& self.actual_input_amount == other.actual_input_amount
        &&& self.output_amount == other.output_amount
        &&& self.next_sqrt_price == other.next_sqrt_price
        &&& self.trading_fee == other.trading_fee
        &&& self.protocol_fee == other.protocol_fee
        &&& self.referral_fee == other.referral_fee
        &&& self.amount_in == other.amount_in
        &&& self.current_timestamp == other.current_timestamp
        &&& self.payer == other.payer
        &&& self.base_mint == other.base_mint
        &&& self.quote_mint == other.quote_mint
        &&& self.input_token_account == other.input_token_account
        &&& self.output_token_account == other.output_token_account
        &&& self.base_vault == other.base_vault
        &&& self.quote_vault == other.quote_vault
        &&& self.token_base_program == other.token_base_program
        &&& self.token_quote_program == other.token_quote_program
        &&& self.remaining_accounts@ =~= other.remaining_accounts@
    }

    /// A merged record has every logged field from the log record and every
    /// other field from the instruction record.
    pub proof fn lemma_merge_complete(instruction: MeteoraDBCSwapEvent, log: MeteoraDBCSwapEvent)
        ensures
            instruction.merged(log).log_fields_agree(log),
            instruction.merged(log).other_fields_agree(instruction),
    {
    }

    /// The logged fields and the others are all the fields there are.
    pub proof fn lemma_fields_cover(a: MeteoraDBCSwapEvent, b: MeteoraDBCSwapEvent)
        requires
            a.log_fields_agree(b),
            a.other_fields_agree(b),
        ensures
            a == b,
    {
    }

    /// The length of a log record in bytes.
    pub open spec fn log_len() -> int {
        154
    }

    /// Whether `data` is a log record: it has the length of one, and each
    /// byte that stands for a flag or a variant is in range.
    pub open spec fn log_well_formed(data: Seq<u8>) -> bool {
        &&& data.len() == Self::log_len()
        &&& data[64] <= 1
    }

    /// Whether `self` is what the log record `data` holds, under `metadata`.
    pub open spec fn is_log_record(self, data: Seq<u8>, metadata: EventMetadata) -> bool {
        &&& self.other_fields_agree(MeteoraDBCSwapEvent::blank(metadata, self.remaining_accounts))
        &&& self.remaining_accounts@.len() == 0
        &&& self.pool@ == key_at(data, 0)
        &&& self.config@ == key_at(data, 32)
        &&& self.trade_direction == TradeDirection::of_byte(data[64])
        &&& self.has_referral == data[65]
        &&& self.param_amount_in == le_u64(data, 66)
        &&& self.param_minimum_amount_out == le_u64(data, 74)
        &&& self.actual_input_amount == le_u64(data, 82)
        &&& self.output_amount == le_u64(data, 90)
        &&& self.next_sqrt_price == le_u128(data, 98)
        &&& self.trading_fee == le_u64(data, 114)
        &&& self.protocol_fee == le_u64(data, 122)
        &&& self.referral_fee == le_u64(data, 130)
        &&& self.amount_in == le_u64(data, 138)
        &&& self.current_timestamp == le_u64(data, 146)
    }

    /// Reads a log record: the logged fields in their order, each in its
    /// fixed width, with nothing before, between or after them.
    pub fn from_log(data: &[u8], metadata: EventMetadata) -> (r: Option<MeteoraDBCSwapEvent>)
        ensures
            r.is_some() == MeteoraDBCSwapEvent::log_well_formed(data@),
            r matches Some(e) ==> e.is_log_record(data@, metadata),
    {
        if data.len() != 154 {
            return None;
        }
        let mut e = MeteoraDBCSwapEvent::new(metadata);
        e.pool = read_pubkey(data, 0)?;
        e.config = read_pubkey(data, 32)?;
        e.trade_direction = read_direction(data, 64)?;
        e.has_referral = read_u8(data, 65)?;
        e.param_amount_in = read_u64_le(data, 66)?;
        e.param_minimum_amount_out = read_u64_le(data, 74)?;
        e.actual_input_amount = read_u64_le(data, 82)?;
        e.output_amount = read_u64_le(data, 90)?;
        e.next_sqrt_price = read_u128_le(data, 98)?;
        e.trading_fee = read_u64_le(data, 114)?;
        e.protocol_fee = read_u64_le(data, 122)?;
        e.referral_fee = read_u64_le(data, 130)?;
        e.amount_in = read_u64_le(data, 138)?;
        e.current_timestamp = read_u64_le(data, 146)?;
        Some(e)
    }
}

impl Default for MeteoraDBCSwapEvent {
    fn default() -> (r: MeteoraDBCSwapEvent)
        ensures
            r == MeteoraDBCSwapEvent::blank(r.metadata, r.remaining_accounts),
            r.metadata.is_blank(),
            r.remaining_accounts@.len() == 0,
    {
        MeteoraDBCSwapEvent::new(EventMetadata::default())
    }
}

} // verus!
