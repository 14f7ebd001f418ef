//! The record of the dynamic market maker program.

use vstd::prelude::*;
use crate::metadata::EventMetadata;
use crate::pubkey::Pubkey;
use crate::protocols::meteora_dbc::types::TradeDirection;
use crate::protocols::meteora_dbc::types::read_direction;
use crate::wire::{key_at, le_u128, le_u64, read_pubkey, read_u128_le, read_u64_le, read_u8};

verus! {

/// A swap on a dynamic market maker pool.
#[derive(Clone, Debug, PartialEq, Eq)]
pub struct MeteoraDAMMv2SwapEvent {
    pub metadata: EventMetadata,
    pub pool: Pubkey,
    pub trade_direction: TradeDirection,
    pub has_referral: u8,
    pub param_amount_in: u64,
    pub param_minimum_amount_out: u64,
    pub output_amount: u64,
    pub next_sqrt_price: u128,
    pub lp_fee: u64,
    pub protocol_fee: u64,
    pub partner_fee: u64,
    pub referral_fee: u64,
    pub amount_in: u64,
    pub current_timestamp: u64,
    pub payer: Pubkey,
    pub token_a_mint: Pubkey,
    pub token_b_mint: Pubkey,
    pub input_token_account: Pubkey,
    pub output_token_account: Pubkey,
    pub token_a_vault: Pubkey,
    pub token_b_vault: Pubkey,
    pub token_a_program: Pubkey,
    pub token_b_program: Pubkey,
    pub remaining_accounts: Vec<Pubkey>,
}

impl MeteoraDAMMv2SwapEvent {
    /// The record in which no field is set: every number is zero, every
    /// flag `false` and every address the zero address.
    pub open spec fn blank(metadata: EventMetadata, remaining_accounts: Vec<Pubkey>) -> MeteoraDAMMv2SwapEvent {
        MeteoraDAMMv2SwapEvent {
            metadata,
            pool: Pubkey::zero(),
            trade_direction: TradeDirection::Sell,
            has_referral: 0,
            param_amount_in: 0,
            param_minimum_amount_out: 0,
            output_amount: 0,
            next_sqrt_price: 0,
            lp_fee: 0,
            protocol_fee: 0,
            partner_fee: 0,
            referral_fee: 0,
            amount_in: 0,
            current_timestamp: 0,
            payer: Pubkey::zero(),
            token_a_mint: Pubkey::zero(),
            token_b_mint: Pubkey::zero(),
            input_token_account: Pubkey::zero(),
            output_token_account: Pubkey::zero(),
            token_a_vault: Pubkey::zero(),
            token_b_vault: Pubkey::zero(),
            token_a_program: Pubkey::zero(),
            token_b_program: Pubkey::zero(),
            remaining_accounts,
        }
    }

    /// A record under `metadata` with no field set.
    pub fn new(metadata: EventMetadata) -> (r: MeteoraDAMMv2SwapEvent)
        ensures
            r == MeteoraDAMMv2SwapEvent::blank(metadata, r.remaining_accounts),
            r.remaining_accounts@.len() == 0,
    {
        MeteoraDAMMv2SwapEvent {
            metadata,
            pool: Pubkey::default(),
            trade_direction: TradeDirection::Sell,
            has_referral: 0,
            param_amount_in: 0,
            param_minimum_amount_out: 0,
            output_amount: 0,
            next_sqrt_price: 0,
            lp_fee: 0,
            protocol_fee: 0,
            partner_fee: 0,
            referral_fee: 0,
            amount_in: 0,
            current_timestamp: 0,
            payer: Pubkey::default(),
            token_a_mint: Pubkey::default(),
            token_b_mint: Pubkey::default(),
            input_token_account: Pubkey::default(),
            output_token_account: Pubkey::default(),
            token_a_vault: Pubkey::default(),
            token_b_vault: Pubkey::default(),
            token_a_program: Pubkey::default(),
            token_b_program: Pubkey::default(),
            remaining_accounts: Vec::new(),
        }
    }

    /// The record that has its logged fields from `log` and the others from
    /// `self`.
    pub open spec fn merged(self, log: MeteoraDAMMv2SwapEvent) -> MeteoraDAMMv2SwapEvent {
        MeteoraDAMMv2SwapEvent {
            pool: log.pool,
            trade_direction: log.trade_direction,
            has_referral: log.has_referral,
            param_amount_in: log.param_amount_in,
            param_minimum_amount_out: log.param_minimum_amount_out,
            output_amount: log.output_amount,
            next_sqrt_price: log.next_sqrt_price,
            lp_fee: log.lp_fee,
            protocol_fee: log.protocol_fee,
            partner_fee: log.partner_fee,
            referral_fee: log.referral_fee,
            amount_in: log.amount_in,
            current_timestamp: log.current_timestamp,
            ..self
        }
    }

    /// Takes over every field that the program logs from `log`.
    pub fn merge(&mut self, log: &MeteoraDAMMv2SwapEvent)
        ensures
            *final(self) == old(self).merged(*log),
    {
        self.pool = log.pool;
        self.trade_direction = log.trade_direction;
        self.has_referral = log.has_referral;
        self.param_amount_in = log.param_amount_in;
        self.param_minimum_amount_out = log.param_minimum_amount_out;
        self.output_amount = log.output_amount;
        self.next_sqrt_price = log.next_sqrt_price;
        self.lp_fee = log.lp_fee;
        self.protocol_fee = log.protocol_fee;
        self.partner_fee = log.partner_fee;
        self.referral_fee = log.referral_fee;
        self.amount_in = log.amount_in;
        self.current_timestamp = log.current_timestamp;
    }

    /// Whether the two records agree in every field that the program logs.
    pub open spec fn log_fields_agree(self, other: MeteoraDAMMv2SwapEvent) -> bool {
        &&& self.pool == other.pool
        &&& self.trade_direction == other.trade_direction
        &&& self.has_referral == other.has_referral
        &&& self.param_amount_in == other.param_amount_in
        &&& self.param_minimum_amount_out == other.param_minimum_amount_out
        &&& self.output_amount == other.output_amount
        &&& self.next_sqrt_price == other.next_sqrt_price
        &&& self.lp_fee == other.lp_fee
        &&& self.protocol_fee == other.protocol_fee
        &&& self.partner_fee == other.partner_fee
        &&& self.referral_fee == other.referral_fee
        &&& self.amount_in == other.amount_in
        &&& self.current_timestamp == other.current_timestamp
    }

    /// Whether the two records agree in the envelope and in every field that
    /// the program does not log.
    pub open spec fn other_fields_agree(self, other: MeteoraDAMMv2SwapEvent) -> bool {
        &&& self.metadata == other.metadata
        &&& self.payer == other.payer
        &&& self.token_a_mint == other.token_a_mint
        &&& self.token_b_mint == other.token_b_mint
        &&& self.input_token_account == other.input_token_account
        &&& self.output_token_account == other.output_token_account
        &&& self.token_a_vault == other.token_a_vault
        &&& self.token_b_vault == other.token_b_vault
        &&& self.token_a_program == other.token_a_program
        &&& self.token_b_program == other.token_b_program
        &&& self.remaining_accounts == other.remaining_accounts
    }

    /// Whether the two records read the same, whatever memory holds their
    /// text.
    pub open spec fn same_content(self, other: MeteoraDAMMv2SwapEvent) -> bool {
        &&& self.metadata.same_content(other.metadata)
        &&& self.pool == other.pool
        &&& self.trade_direction == other.trade_direction
        &&& self.has_referral == other.has_referral
        &&& self.param_amount_in == other.param_amount_in
        &&& self.param_minimum_amount_out == other.param_minimum_amount_out
        &&& self.output_amount == other.output_amount
        &&& self.next_sqrt_price == other.next_sqrt_price
        &&& self.lp_fee == other.lp_fee
        &&& self.protocol_fee == other.protocol_fee
        &&& self.partner_fee == other.partner_fee
        &&& self.referral_fee == other.referral_fee
        &&& self.amount_in == other.amount_in
        &&& self.current_timestamp == other.current_timestamp
        &&& self.payer == other.payer
        &&& self.token_a_mint == other.token_a_mint
        &&& self.token_b_mint == other.token_b_mint
        &&& self.input_token_account == other.input_token_account
        &&& self.output_token_account == other.output_token_account
        &&& self.token_a_vault == other.token_a_vault
        &&& self.token_b_vault == other.token_b_vault
        &&& self.token_a_program == other.token_a_program
        &&& self.token_b_program == other.token_b_program
        &&& self.remaining_accounts@ =~= other.remaining_accounts@
    }

    /// A merged record has every logged field from the log record and every
    /// other field from the instruction record.
    pub proof fn lemma_merge_complete(instruction: MeteoraDAMMv2SwapEvent, log: MeteoraDAMMv2SwapEvent)
        ensures
            instruction.merged(log).log_fields_agree(log),
            instruction.merged(log).other_fields_agree(instruction),
    {
    }

    /// The logged fields and the others are all the fields there are.
    pub proof fn lemma_fields_cover(a: MeteoraDAMMv2SwapEvent, b: MeteoraDAMMv2SwapEvent)
        requires
            a.log_fields_agree(b),
            a.other_fields_agree(b),
        ensures
            a == b,
    {
    }

    /// The length of a log record in bytes.
    pub open spec fn log_len() -> int {
        122
    }

    /// Whether `data` is a log record: it has the length of one, and each
    /// byte that stands for a flag or a variant is in range.
    pub open spec fn log_well_formed(data: Seq<u8>) -> bool {
        &&& data.len() == Self::log_len()
        &&& data[32] <= 1
    }

    /// Whether `self` is what the log record `data` holds, under `metadata`.
    pub open spec fn is_log_record(self, data: Seq<u8>, metadata: EventMetadata) -> bool {
        &&& self.other_fields_agree(MeteoraDAMMv2SwapEvent::blank(metadata, self.remaining_accounts))
        &&& self.remaining_accounts@.len() == 0
        &&& self.pool@ == key_at(data, 0)
        &&& self.trade_direction == TradeDirection::of_byte(data[32])
        &&& self.has_referral == data[33]
        &&& self.param_amount_in == le_u64(data, 34)
        &&& self.param_minimum_amount_out == le_u64(data, 42)
        &&& self.output_amount == le_u64(data, 50)
        &&& self.next_sqrt_price == le_u128(data, 58)
        &&& self.lp_fee == le_u64(data, 74)
        &&& self.protocol_fee == le_u64(data, 82)
        &&& self.partner_fee == le_u64(data, 90)
        &&& self.referral_fee == le_u64(data, 98)
        &&& self.amount_in == le_u64(data, 106)
        &&& self.current_timestamp == le_u64(data, 114)
    }

    /// Reads a log record: the logged fields in their order, each in its
    /// fixed width, with nothing before, between or after them.
    pub fn from_log(data: &[u8], metadata: EventMetadata) -> (r: Option<MeteoraDAMMv2SwapEvent>)
        ensures
            r.is_some() == MeteoraDAMMv2SwapEvent::log_well_formed(data@),
            r matches Some(e) ==> e.is_log_record(data@, metadata),
    {
        if data.len() != 122 {
            return None;
        }
        let mut e = MeteoraDAMMv2SwapEvent::new(metadata);
        e.pool = read_pubkey(data, 0)?;
        e.trade_direction = read_direction(data, 32)?;
        e.has_referral = read_u8(data, 33)?;
        e.param_amount_in = read_u64_le(data, 34)?;
        e.param_minimum_amount_out = read_u64_le(data, 42)?;
        e.output_amount = read_u64_le(data, 50)?;
        e.next_sqrt_price = read_u128_le(data, 58)?;
        e.lp_fee = read_u64_le(data, 74)?;
        e.protocol_fee = read_u64_le(data, 82)?;
        e.partner_fee = read_u64_le(data, 90)?;
        e.referral_fee = read_u64_le(data, 98)?;
        e.amount_in = read_u64_le(data, 106)?;
        e.current_timestamp = read_u64_le(data, 114)?;
        Some(e)
    }
}

impl Default for MeteoraDAMMv2SwapEvent {
    fn default() -> (r: MeteoraDAMMv2SwapEvent)
        ensures
            r == MeteoraDAMMv2SwapEvent::blank(r.metadata, r.remaining_accounts),
            r.metadata.is_blank(),
            r.remaining_accounts@.len() == 0,
    {
        MeteoraDAMMv2SwapEvent::new(EventMetadata::default())
    }
}

} // verus!
